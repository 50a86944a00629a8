use vstd::prelude::*;

verus! {

/// Relies on `str`'s `PartialEq` implementation: two string slices compare
/// equal exactly when their character sequences are equal.
#[verifier::external_body]
pub(crate) fn str_eq(a: &str, b: &str) -> (r: bool)
    ensures
        r == (a@ == b@),
{
    a == b
}

/// Whether these bytes are valid UTF-8, and if so the characters they decode
/// to: what `String::from_utf8` returns.
pub uninterp spec fn spec_utf8(b: Seq<u8>) -> Option<Seq<char>>;

/// Relies on `String::from_utf8`: it succeeds exactly on valid UTF-8 and the
/// decoded characters depend on the bytes alone.
#[verifier::external_body]
pub(crate) fn utf8_to_string(b: Vec<u8>) -> (r: Option<String>)
    ensures
        r is Some <==> spec_utf8(b@) is Some,
        r matches Some(s) ==> spec_utf8(b@) == Some(s@),
{
    String::from_utf8(b).ok()
}

/// The UTF-8 encoding of a string: what `String::into_bytes` returns.
pub uninterp spec fn spec_encode(s: Seq<char>) -> Seq<u8>;

/// Relies on `String::into_bytes`: it returns the string's UTF-8 bytes, which
/// depend on the characters alone.
#[verifier::external_body]
pub(crate) fn string_to_bytes(s: String) -> (r: Vec<u8>)
    ensures
        r@ == spec_encode(s@),
{
    s.into_bytes()
}

} // verus!
