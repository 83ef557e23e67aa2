//! The query string of a read-style call.
//!
//! Names and values are written as their UTF-8 bytes. A letter, a digit and
//! each of `-`, `.`, `_`, `~` stands for itself; every other byte is written
//! as `%` and its two hexadecimal digits, in upper case.

use crate::atproto::xrpc::{lines, GetRequest, Lines, Params};
use vstd::prelude::*;
use vstd::utf8::encode_utf8;

verus! {

/// Whether a byte stands for itself.
pub open spec fn unreserved(b: u8) -> bool {
    ||| 0x30 <= b <= 0x39
    ||| 0x41 <= b <= 0x5a
    ||| 0x61 <= b <= 0x7a
    ||| b == 0x2d
    ||| b == 0x2e
    ||| b == 0x5f
    ||| b == 0x7e
}

/// The character of a hexadecimal digit, in upper case.
pub open spec fn hex(n: u8) -> u8 {
    if n < 10 {
        (0x30 + n) as u8
    } else {
        (0x41 + n - 10) as u8
    }
}

/// One byte as the query string carries it.
pub open spec fn escaped(b: u8) -> Seq<u8> {
    if unreserved(b) {
        seq![b]
    } else {
        seq![0x25u8, hex(b / 16), hex(b % 16)]
    }
}

/// A sequence of bytes as the query string carries it.
pub open spec fn percent(bytes: Seq<u8>) -> Seq<u8>
    decreases bytes.len(),
{
    if bytes.len() == 0 {
        Seq::empty()
    } else {
        percent(bytes.drop_last()) + escaped(bytes.last())
    }
}

/// One parameter: its name, `=`, and its value.
pub open spec fn pair_text(pair: (Seq<char>, Seq<char>)) -> Seq<u8> {
    percent(encode_utf8(pair.0)) + seq![0x3du8] + percent(encode_utf8(pair.1))
}

/// The parameters in their order, with `&` between them.
pub open spec fn query_text(params: Lines) -> Seq<u8>
    decreases params.len(),
{
    if params.len() == 0 {
        Seq::empty()
    } else if params.len() == 1 {
        pair_text(params[0])
    } else {
        query_text(params.drop_last()) + seq![0x26u8] + pair_text(params.last())
    }
}

/// The address of a call with its query string: the address as it is, then,
/// where there are parameters, `?` and the parameters.
pub open spec fn target_text(address: Seq<char>, params: Lines) -> Seq<u8> {
    encode_utf8(address) + (if params.len() == 0 {
        Seq::empty()
    } else {
        seq![0x3fu8] + query_text(params)
    })
}

/// Whether a byte can occur in what [`percent`] writes.
pub open spec fn plain(b: u8) -> bool {
    unreserved(b) || b == 0x25
}

/// What [`percent`] writes holds no byte that marks a boundary in a query
/// string: neither `&` nor `=` nor `?` nor `#`, and nothing outside ASCII.
pub proof fn lemma_percent_is_plain(bytes: Seq<u8>)
    ensures
        forall|i: int| 0 <= i < percent(bytes).len() ==> plain(#[trigger] percent(bytes)[i]),
    decreases bytes.len(),
{
    if bytes.len() > 0 {
        lemma_percent_is_plain(bytes.drop_last());
        let head = percent(bytes.drop_last());
        assert forall|i: int| 0 <= i < percent(bytes).len() implies plain(
            #[trigger] percent(bytes)[i],
        ) by {
            if i < head.len() {
                assert(percent(bytes)[i] == head[i]);
            } else {
                assert(percent(bytes)[i] == escaped(bytes.last())[i - head.len()]);
            }
        }
    }
}

/// The value of a hexadecimal digit.
pub open spec fn unhex(c: u8) -> u8 {
    if c >= 0x41 {
        (c - 0x41 + 10) as u8
    } else {
        (c - 0x30) as u8
    }
}

/// What a reader makes of an escaped text: `%` and two digits give the byte
/// of that value, and every other byte stands for itself.
pub open spec fn unescaped(text: Seq<u8>) -> Seq<u8>
    decreases text.len(),
{
    if text.len() == 0 {
        Seq::empty()
    } else if text[0] == 0x25 && text.len() >= 3 {
        seq![(unhex(text[1]) * 16 + unhex(text[2])) as u8] + unescaped(text.skip(3))
    } else {
        seq![text[0]] + unescaped(text.skip(1))
    }
}

/// Escaping a sequence is escaping its first byte and then the rest.
pub proof fn lemma_percent_unfolds(bytes: Seq<u8>)
    requires
        bytes.len() > 0,
    ensures
        percent(bytes) == escaped(bytes[0]) + percent(bytes.skip(1)),
    decreases bytes.len(),
{
    if bytes.len() == 1 {
        assert(percent(bytes.drop_last()) =~= Seq::empty());
    } else {
        let front = bytes.drop_last();
        lemma_percent_unfolds(front);
        assert(front.skip(1) =~= bytes.skip(1).drop_last());
    }
}

/// Nothing is lost in escaping: a reader gets back the bytes that were
/// written.
pub proof fn lemma_unescaped_percent(bytes: Seq<u8>)
    ensures
        unescaped(percent(bytes)) == bytes,
    decreases bytes.len(),
{
    if bytes.len() > 0 {
        let rest = bytes.skip(1);
        lemma_percent_unfolds(bytes);
        lemma_unescaped_percent(rest);
        let text = percent(bytes);
        if unreserved(bytes[0]) {
            assert(text.skip(1) =~= percent(rest));
        } else {
            assert(text.skip(3) =~= percent(rest));
        }
    }
}

fn hex_of(n: u8) -> (r: u8)
    requires
        n < 16,
    ensures
        r == hex(n),
{
    if n < 10 {
        0x30 + n
    } else {
        0x41 + (n - 10)
    }
}

fn is_unreserved(b: u8) -> (r: bool)
    ensures
        r == unreserved(b),
{
    (0x30 <= b && b <= 0x39) || (0x41 <= b && b <= 0x5a) || (0x61 <= b && b <= 0x7a) || b == 0x2d
        || b == 0x2e || b == 0x5f || b == 0x7e
}

fn push_escaped(out: &mut Vec<u8>, text: &str)
    ensures
        final(out)@ == old(out)@ + percent(encode_utf8(text@)),
{
    let bytes = text.as_bytes();
    let mut i: usize = 0;
    while i < bytes.len()
        invariant
            i <= bytes.len(),
            out@ == old(out)@ + percent(bytes@.take(i as int)),
        decreases bytes.len() - i,
    {
        let b = bytes[i];
        if is_unreserved(b) {
            out.push(b);
        } else {
            out.push(0x25);
            out.push(hex_of(b / 16));
            out.push(hex_of(b % 16));
        }
        assert(bytes@.take(i + 1).drop_last() =~= bytes@.take(i as int));
        i = i + 1;
    }
    assert(bytes@.take(i as int) =~= bytes@);
}

fn push_raw(out: &mut Vec<u8>, text: &str)
    ensures
        final(out)@ == old(out)@ + encode_utf8(text@),
{
    let bytes = text.as_bytes();
    let mut i: usize = 0;
    while i < bytes.len()
        invariant
            i <= bytes.len(),
            out@ == old(out)@ + bytes@.take(i as int),
        decreases bytes.len() - i,
    {
        out.push(bytes[i]);
        i = i + 1;
    }
}

fn push_query(out: &mut Vec<u8>, params: &Params)
    ensures
        final(out)@ == old(out)@ + query_text(lines(params@)),
{
    let ghost all = lines(params@);
    let mut i: usize = 0;
    while i < params.len()
        invariant
            i <= params.len(),
            all == lines(params@),
            out@ == old(out)@ + query_text(all.take(i as int)),
        decreases params.len() - i,
    {
        if i > 0 {
            out.push(0x26);
        }
        push_escaped(out, params[i].0.as_str());
        out.push(0x3d);
        push_escaped(out, params[i].1.as_str());
        assert(all.take(i + 1).drop_last() =~= all.take(i as int));
        i = i + 1;
    }
    assert(all.take(i as int) =~= all);
}

/// Writes the query string of a list of parameters.
pub fn encode_query(params: &Params) -> (r: Vec<u8>)
    ensures
        r@ == query_text(lines(params@)),
{
    let mut out: Vec<u8> = Vec::new();
    push_query(&mut out, params);
    out
}

impl GetRequest {
    /// Writes the address to send the call to, query string included.
    pub fn target(&self) -> (r: Vec<u8>)
        ensures
            r@ == target_text(self@.address, self@.query),
    {
        let mut out: Vec<u8> = Vec::new();
        push_raw(&mut out, self.address.as_str());
        if self.query.len() > 0 {
            out.push(0x3f);
            push_query(&mut out, &self.query);
        }
        out
    }
}

} // verus!
