use vstd::prelude::*;
use vstd::utf8::{decode_utf8, valid_utf8};

use crate::bytes::{prefix_before_nul, text_before_nul};

verus! {

/// The text of a diagnostic log held in `buffer`: what comes before the first NUL,
/// decoded as UTF-8; `None` when those bytes are not valid UTF-8.
pub open spec fn decoded_log(buffer: Seq<u8>) -> Option<Seq<char>> {
    let text = text_before_nul(buffer);
    if valid_utf8(text) {
        Some(decode_utf8(text))
    } else {
        None
    }
}

/// The number of bytes to set aside for a log whose reported length is `reported_len`.
pub open spec fn log_capacity(reported_len: i32) -> nat {
    if reported_len > 0 {
        reported_len as nat
    } else {
        0
    }
}

/// Relies on String::from_utf8: it succeeds exactly on valid UTF-8 and then holds the
/// characters those bytes encode.
#[verifier::external_body]
fn string_from_utf8(bytes: Vec<u8>) -> (r: Option<String>)
    ensures
        r is Some <==> valid_utf8(bytes@),
        r matches Some(s) ==> s@ == decode_utf8(bytes@),
{
    String::from_utf8(bytes).ok()
}

/// A zeroed buffer sized for a log whose length the driver reported as `reported_len`
/// (the terminating NUL included). A length of zero or less gives an empty buffer.
pub fn log_buffer(reported_len: i32) -> (r: Vec<u8>)
    ensures
        r@.len() == log_capacity(reported_len),
        forall|i: int| 0 <= i < r@.len() ==> r@[i] == 0,
{
    let n: usize = if reported_len > 0 { reported_len as usize } else { 0 };
    let mut r: Vec<u8> = Vec::with_capacity(n);
    let mut i: usize = 0;
    while i < n
        invariant
            i <= n,
            n == log_capacity(reported_len),
            r@.len() == i,
            forall|j: int| 0 <= j < i ==> r@[j] == 0,
        decreases n - i,
    {
        r.push(0u8);
        i = i + 1;
    }
    r
}

/// Decodes the diagnostic text that the driver wrote into `buffer`.
/// An empty log decodes to the empty text: it is not a failure.
pub fn decode_log(buffer: &Vec<u8>) -> (r: Option<String>)
    ensures
        r is Some <==> decoded_log(buffer@) is Some,
        r matches Some(s) ==> decoded_log(buffer@) == Some(s@),
{
    let text = prefix_before_nul(buffer);
    string_from_utf8(text)
}

} // verus!
