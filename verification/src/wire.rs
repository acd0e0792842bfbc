//! Byte-level helpers shared by the wire codec: range copies, a
//! whole-buffer comparison, and the bridge between byte strings and
//! UTF-8 text.

use vstd::prelude::*;
use vstd::utf8::decode_utf8;
use vstd::utf8::valid_utf8;
use crate::errors::PortalError;

verus! {

/// Copy `data[start..end]` into a fresh vector.
pub fn copy_range(data: &[u8], start: usize, end: usize) -> (r: Vec<u8>)
    requires
        start <= end <= data@.len(),
    ensures
        r@ == data@.subrange(start as int, end as int),
{
    let mut out: Vec<u8> = Vec::new();
    let mut i: usize = start;
    while i < end
        invariant
            start <= i <= end <= data@.len(),
            out@ =~= data@.subrange(start as int, i as int),
        decreases end - i,
    {
        out.push(data[i]);
        assert(out@ =~= data@.subrange(start as int, i + 1));
        i = i + 1;
    }
    proof {
        assert(out@ =~= data@.subrange(start as int, end as int));
    }
    out
}

/// Compare two byte strings for equality.
///
/// The comparison looks at every byte of both inputs without an early
/// exit, so its running time depends only on the lengths; the key
/// confirmation step relies on that.
pub fn bytes_eq(a: &[u8], b: &[u8]) -> (r: bool)
    ensures
        r == (a@ == b@),
{
    if a.len() != b.len() {
        return false;
    }
    let mut differs: bool = false;
    let mut i: usize = 0;
    while i < a.len()
        invariant
            i <= a@.len(),
            a@.len() == b@.len(),
            differs == exists|k: int| 0 <= k < i && a@[k] != b@[k],
        decreases a@.len() - i,
    {
        if a[i] != b[i] {
            differs = true;
        }
        i = i + 1;
    }
    if differs {
        proof {
            let k = choose|k: int| 0 <= k < a@.len() && a@[k] != b@[k];
            assert(a@[k] != b@[k]);
        }
        false
    } else {
        proof {
            assert(a@ =~= b@);
        }
        true
    }
}

/// Relies on String::from_utf8: it accepts exactly the valid UTF-8 byte
/// strings and decodes them to the character sequence whose encoding is
/// the input.
#[verifier::external_body]
pub fn string_from_utf8(v: Vec<u8>) -> (r: Option<String>)
    ensures
        r matches Some(s) ==> valid_utf8(v@) && s@ == decode_utf8(v@),
        r is None ==> !valid_utf8(v@),
        r is Some ==> valid_utf8(v@),
        valid_utf8(v@) ==> r is Some,
{
    match String::from_utf8(v) {
        Ok(s) => Some(s),
        Err(_) => None,
    }
}

} // verus!
