//! Small string-building helpers used by the diagnostic messages.

use vstd::prelude::*;

verus! {

/// The characters that lossy UTF-8 decoding yields for a byte sequence:
/// a function of the bytes alone.
pub uninterp spec fn lossy_utf8(bytes: Seq<u8>) -> Seq<char>;

/// Relies on String::push_str: appends the slice's characters to the string.
#[verifier::external_body]
pub(crate) fn append(s: &mut String, t: &str)
    ensures
        final(s)@ == old(s)@ + t@,
{
    s.push_str(t)
}

/// Relies on String::from_utf8_lossy: the decoding depends on the bytes alone.
#[verifier::external_body]
pub(crate) fn utf8_lossy(bytes: &Vec<u8>) -> (r: String)
    ensures
        r@ == lossy_utf8(bytes@),
{
    String::from_utf8_lossy(bytes).into_owned()
}

/// A fresh string holding `prefix` followed by `rest`.
pub(crate) fn concat_str(prefix: &str, rest: &str) -> (r: String)
    ensures
        r@ == prefix@ + rest@,
{
    let mut s: String = prefix.to_owned();
    append(&mut s, rest);
    s
}

} // verus!
