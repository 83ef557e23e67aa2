//! `com.atproto.identity`: handles and the actors behind them.

use vstd::prelude::*;

verus! {

/// What `resolveHandle` answers.
#[derive(Debug, PartialEq)]
pub struct ResolveHandleOutput {
    /// The stable identifier of the actor that holds the handle.
    pub did: String,
}

} // verus!
