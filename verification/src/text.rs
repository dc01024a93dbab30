//! Comparing texts by their characters.

use vstd::prelude::*;
use vstd::string::StringSliceAdditionalSpecFns;
use vstd::utf8::encode_utf8_decode_utf8;
use vstd::utf8::valid_utf8;

verus! {

/// The characters of an optional text.
pub open spec fn chars_of(text: Option<&str>) -> Option<Seq<char>> {
    match text {
        Some(t) => Some(t@),
        None => None,
    }
}

/// The characters of an optional owned text.
pub open spec fn chars_of_owned(text: Option<String>) -> Option<Seq<char>> {
    match text {
        Some(t) => Some(t@),
        None => None,
    }
}

/// Calls `core::str::from_utf8` and keeps the text where there is one.
///
/// Trusted: std returns a text exactly when the bytes are valid UTF-8, and
/// the text is then made of those very bytes.
#[verifier::external_body]
pub(crate) fn text_of_utf8(bytes: &[u8]) -> (text: Option<&str>)
    ensures
        text is Some <==> valid_utf8(bytes@),
        text matches Some(t) ==> t.spec_bytes() == bytes@,
{
    core::str::from_utf8(bytes).ok()
}

/// Exact equality of two texts, byte for byte. Two texts of one length are
/// read to their end whether or not they differ, so that the time taken does
/// not tell where the first difference lies.
pub fn same_text(a: &str, b: &str) -> (same: bool)
    ensures
        same == (a@ == b@),
{
    let x = a.as_bytes();
    let y = b.as_bytes();
    proof {
        encode_utf8_decode_utf8(a@);
        encode_utf8_decode_utf8(b@);
    }
    if x.len() != y.len() {
        return false;
    }
    let mut differing: u8 = 0;
    let mut i: usize = 0;
    assert(x@.take(0) =~= y@.take(0));
    while i < x.len()
        invariant
            i <= x.len(),
            x.len() == y.len(),
            (differing == 0) == (x@.take(i as int) == y@.take(i as int)),
        decreases x.len() - i,
    {
        let p = x[i];
        let q = y[i];
        let seen = differing;
        differing = seen | (p ^ q);
        proof {
            assert((seen | (p ^ q)) == 0 <==> seen == 0 && p == q) by (bit_vector);
            let n = i as int;
            assert(x@.take(n + 1) =~= x@.take(n).push(p));
            assert(y@.take(n + 1) =~= y@.take(n).push(q));
            assert(x@.take(n + 1).drop_last() =~= x@.take(n));
            assert(y@.take(n + 1).drop_last() =~= y@.take(n));
            assert(x@.take(n + 1).last() == p);
            assert(y@.take(n + 1).last() == q);
        }
        i += 1;
    }
    assert(x@ =~= x@.take(i as int));
    assert(y@ =~= y@.take(i as int));
    differing == 0
}

} // verus!
