//! The parameters that listings share.

use crate::atproto::xrpc::{lines, push_param, Lines, Params};
use crate::errors::opt_str;
use crate::text::{decimal, render_decimal};
use vstd::prelude::*;

verus! {

/// The limit that stands for "as many as the server gives at once".
pub const UNBOUNDED: usize = usize::MAX;

/// The `limit` parameter of a listing. The unbounded limit sends no
/// parameter, which leaves the page size to the server.
pub open spec fn limit_param(limit: usize) -> Lines {
    if limit == UNBOUNDED {
        seq![]
    } else {
        seq![("limit"@, decimal(limit as nat))]
    }
}

/// A parameter that is sent only where it has a value.
pub open spec fn optional_param(name: Seq<char>, value: Option<Seq<char>>) -> Lines {
    match value {
        Some(v) => seq![(name, v)],
        None => seq![],
    }
}

/// The `cursor` parameter: the token of the last page, verbatim.
pub open spec fn cursor_param(cursor: Option<Seq<char>>) -> Lines {
    optional_param("cursor"@, cursor)
}

/// A list of no parameters.
pub fn no_params() -> (r: Params)
    ensures
        lines(r@) == Seq::<(Seq<char>, Seq<char>)>::empty(),
        r@.len() == 0,
{
    Vec::new()
}

/// Adds the `limit` parameter of a listing.
pub fn push_limit(params: &mut Params, limit: usize)
    ensures
        lines(final(params)@) == lines(old(params)@) + limit_param(limit),
{
    if limit != UNBOUNDED {
        let text = render_decimal(limit);
        push_param(params, "limit", text.as_str());
    }
}

/// Adds a parameter where it has a value.
pub fn push_optional(params: &mut Params, name: &str, value: Option<&str>)
    ensures
        lines(final(params)@) == lines(old(params)@) + optional_param(name@, opt_str(value)),
{
    match value {
        Some(v) => {
            push_param(params, name, v);
        },
        None => {},
    }
}

} // verus!
