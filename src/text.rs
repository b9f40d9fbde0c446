//! The bounded strings of `heapless` that commands and responses carry.
use vstd::prelude::*;
use std::str::FromStr;
use vstd::string::{StrSliceExecFns, StringSliceAdditionalSpecFns};
use vstd::utf8::{decode_utf8, valid_utf8};

verus! {

#[verifier::external_type_specification]
#[verifier::external_body]
pub struct ExHeaplessString<const N: usize>(heapless::String<N>);

/// Relies on `heapless::String::new`; it is only reached on paths that the
/// proofs show to be dead, so nothing is assumed of the value.
pub assume_specification<const N: usize>[ heapless::String::<N>::new ]() -> heapless::String<N>;

/// The text held by a `heapless::String<4>`.
pub uninterp spec fn chars4(s: heapless::String<4>) -> Seq<char>;

/// The text held by a `heapless::String<6>`.
pub uninterp spec fn chars6(s: heapless::String<6>) -> Seq<char>;

/// The text held by a `heapless::String<20>`.
pub uninterp spec fn chars20(s: heapless::String<20>) -> Seq<char>;

/// Relies on `heapless::String::as_str`: the stored text.
#[verifier::external_body]
pub(crate) fn str4(s: &heapless::String<4>) -> (r: &str)
    ensures
        r@ == chars4(*s),
{
    s.as_str()
}

/// Relies on `heapless::String::as_str`: the stored text.
#[verifier::external_body]
pub(crate) fn str6(s: &heapless::String<6>) -> (r: &str)
    ensures
        r@ == chars6(*s),
{
    s.as_str()
}

/// Relies on `heapless::String::as_str`: the stored text.
#[verifier::external_body]
pub(crate) fn str20(s: &heapless::String<20>) -> (r: &str)
    ensures
        r@ == chars20(*s),
{
    s.as_str()
}

/// Relies on `heapless::String::from_str`: it copies the text when its UTF-8
/// encoding fits in the capacity, and fails otherwise.
#[verifier::external_body]
pub(crate) fn string4_from(s: &str) -> (r: Result<heapless::String<4>, ()>)
    ensures
        r is Ok <==> s.spec_bytes().len() <= 4,
        r matches Ok(h) ==> chars4(h) == s@,
{
    heapless::String::<4>::from_str(s)
}

/// Relies on `heapless::String::from_str`: it copies the text when its UTF-8
/// encoding fits in the capacity, and fails otherwise.
#[verifier::external_body]
pub(crate) fn string6_from(s: &str) -> (r: Result<heapless::String<6>, ()>)
    ensures
        r is Ok <==> s.spec_bytes().len() <= 6,
        r matches Ok(h) ==> chars6(h) == s@,
{
    heapless::String::<6>::from_str(s)
}

/// Relies on `heapless::String::from_str`: it copies the text when its UTF-8
/// encoding fits in the capacity, and fails otherwise.
#[verifier::external_body]
pub(crate) fn string20_from(s: &str) -> (r: Result<heapless::String<20>, ()>)
    ensures
        r is Ok <==> s.spec_bytes().len() <= 20,
        r matches Ok(h) ==> chars20(h) == s@,
{
    heapless::String::<20>::from_str(s)
}

/// Relies on `std::str::from_utf8`: the bytes read as text when they are
/// valid UTF-8, nothing otherwise; the text borrows the same bytes.
#[verifier::external_body]
pub(crate) fn text_of(v: &[u8]) -> (r: Option<&str>)
    ensures
        r is Some <==> valid_utf8(v@),
        r matches Some(s) ==> s.spec_bytes() == v@ && s@ == decode_utf8(v@),
{
    std::str::from_utf8(v).ok()
}

/// Whether two texts hold the same characters.
pub fn same_text(a: &str, b: &str) -> (r: bool)
    ensures
        r == (a@ == b@),
{
    let n = a.unicode_len();
    if n != b.unicode_len() {
        return false;
    }
    let mut i: usize = 0;
    while i < n
        invariant
            n == a@.len(),
            n == b@.len(),
            i <= n,
            forall|j: int| 0 <= j < i ==> a@[j] == b@[j],
        decreases n - i,
    {
        if a.get_char(i) != b.get_char(i) {
            return false;
        }
        i = i + 1;
    }
    proof {
        assert(a@ =~= b@);
    }
    true
}

} // verus!
