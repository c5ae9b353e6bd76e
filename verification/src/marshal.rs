//! Text as the engine takes it and gives it.
//!
//! The engine reads text as a run of non-zero bytes closed by one zero byte.
//! Text with a zero byte inside cannot be handed over.

use vstd::prelude::*;
use vstd::utf8::*;

verus! {

/// No byte of `bytes` is zero.
pub open spec fn c_safe(bytes: Seq<u8>) -> bool {
    forall|i: int| 0 <= i < bytes.len() ==> bytes[i] != 0
}

/// `bytes` closed by the terminating zero.
pub open spec fn c_string(bytes: Seq<u8>) -> Seq<u8> {
    bytes.push(0u8)
}

/// Every text of `texts` is free of zero bytes.
pub open spec fn all_c_safe(texts: Seq<Seq<u8>>) -> bool {
    forall|i: int| 0 <= i < texts.len() ==> c_safe(#[trigger] texts[i])
}

/// Each text of `texts` closed by its terminating zero, in the same order.
pub open spec fn c_strings(texts: Seq<Seq<u8>>) -> Seq<Seq<u8>> {
    Seq::new(texts.len(), |i: int| c_string(texts[i]))
}

/// Whether `bytes` can be handed to the engine as text.
pub fn is_c_safe(bytes: &[u8]) -> (ok: bool)
    ensures
        ok == c_safe(bytes@),
{
    let mut i: usize = 0;
    while i < bytes.len()
        invariant
            i <= bytes.len(),
            forall|j: int| 0 <= j < i ==> bytes@[j] != 0,
        decreases bytes.len() - i,
    {
        if bytes[i] == 0 {
            return false;
        }
        i += 1;
    }
    true
}

/// Copies `bytes` and closes the copy with the terminating zero.
pub fn to_c_string(bytes: &[u8]) -> (out: Vec<u8>)
    requires
        c_safe(bytes@),
    ensures
        out@ == c_string(bytes@),
{
    let mut out: Vec<u8> = Vec::with_capacity(bytes.len());
    let mut i: usize = 0;
    while i < bytes.len()
        invariant
            i <= bytes.len(),
            out@ == bytes@.subrange(0, i as int),
        decreases bytes.len() - i,
    {
        out.push(bytes[i]);
        assert(out@ =~= bytes@.subrange(0, i + 1));
        i += 1;
    }
    assert(bytes@.subrange(0, i as int) =~= bytes@);
    out.push(0u8);
    out
}

/// Reads `bytes` as text.
///
/// Trusted: stands for `String::from_utf8`, which hands back the text that
/// the bytes encode when they are well-formed UTF-8 and refuses them
/// otherwise.
#[verifier::external_body]
pub(crate) fn decode_text(bytes: Vec<u8>) -> (res: Option<String>)
    ensures
        res is Some <==> valid_utf8(bytes@),
        res matches Some(s) ==> s@ == decode_utf8(bytes@),
{
    match String::from_utf8(bytes) {
        Ok(s) => Some(s),
        Err(_) => None,
    }
}

} // verus!
