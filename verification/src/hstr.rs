//! Fixed-capacity strings of the `heapless` crate, and UTF-8 validation.
//!
//! The items marked `external_body` state what the outside function does;
//! their contracts are not proved here.
use vstd::prelude::*;
use vstd::string::StringSliceAdditionalSpecFns;
use vstd::utf8::{is_ascii_chars, is_ascii_chars_encode_utf8, valid_utf8};

verus! {

/// `heapless::String<N>`: a string of at most `N` bytes held inline.
#[verifier::external_type_specification]
#[verifier::external_body]
pub struct ExHeaplessString<const N: usize>(heapless::String<N>);

/// The bytes held by a `heapless::String<8>`.
pub uninterp spec fn string8_bytes(s: heapless::String<8>) -> Seq<u8>;

/// The bytes held by a `heapless::String<32>`.
pub uninterp spec fn string32_bytes(s: heapless::String<32>) -> Seq<u8>;

/// `heapless::String::<8>::new`: an empty string.
#[verifier::external_body]
pub(crate) fn string8_new() -> (r: heapless::String<8>)
    ensures
        string8_bytes(r) == Seq::<u8>::empty(),
{
    heapless::String::new()
}

/// `heapless::String::<8>::push_str`: appends all of `t` when the result
/// fits in 8 bytes, and otherwise leaves the string unchanged and fails
/// (it calls `Vec::extend_from_slice`, which checks the length first).
#[verifier::external_body]
pub(crate) fn string8_push_str(s: &mut heapless::String<8>, t: &str) -> (r: Result<(), ()>)
    ensures
        string8_bytes(*old(s)).len() + t.spec_bytes().len() <= 8 ==> r is Ok && string8_bytes(
            *final(s),
        ) == string8_bytes(*old(s)) + t.spec_bytes(),
        string8_bytes(*old(s)).len() + t.spec_bytes().len() > 8 ==> r is Err && string8_bytes(
            *final(s),
        ) == string8_bytes(*old(s)),
{
    s.push_str(t)
}

/// `heapless::String::<8>::as_str`: the held bytes as a string slice, which
/// never holds more than 8 bytes.
#[verifier::external_body]
pub(crate) fn string8_as_str(s: &heapless::String<8>) -> (r: &str)
    ensures
        r.spec_bytes() == string8_bytes(*s),
        r.spec_bytes().len() <= 8,
{
    s.as_str()
}

/// `heapless::String::<32>::new`: an empty string.
#[verifier::external_body]
pub(crate) fn string32_new() -> (r: heapless::String<32>)
    ensures
        string32_bytes(r) == Seq::<u8>::empty(),
{
    heapless::String::new()
}

/// `heapless::String::<32>::push_str`: appends all of `t` when the result
/// fits in 32 bytes, and otherwise leaves the string unchanged and fails.
#[verifier::external_body]
pub(crate) fn string32_push_str(s: &mut heapless::String<32>, t: &str) -> (r: Result<(), ()>)
    ensures
        string32_bytes(*old(s)).len() + t.spec_bytes().len() <= 32 ==> r is Ok
            && string32_bytes(*final(s)) == string32_bytes(*old(s)) + t.spec_bytes(),
        string32_bytes(*old(s)).len() + t.spec_bytes().len() > 32 ==> r is Err
            && string32_bytes(*final(s)) == string32_bytes(*old(s)),
{
    s.push_str(t)
}

/// `heapless::String::<32>::as_str`: the held bytes as a string slice.
#[verifier::external_body]
pub(crate) fn string32_as_str(s: &heapless::String<32>) -> (r: &str)
    ensures
        r.spec_bytes() == string32_bytes(*s),
        r.spec_bytes().len() <= 32,
{
    s.as_str()
}

/// The bytes held by a `heapless::String<512>`.
pub uninterp spec fn string512_bytes(s: heapless::String<512>) -> Seq<u8>;

/// `heapless::String::<512>::new`: an empty string.
#[verifier::external_body]
pub(crate) fn string512_new() -> (r: heapless::String<512>)
    ensures
        string512_bytes(r) == Seq::<u8>::empty(),
{
    heapless::String::new()
}

/// `heapless::String::<512>::push_str`: appends all of `t` when the result
/// fits in 512 bytes, and otherwise leaves the string unchanged and fails.
#[verifier::external_body]
pub(crate) fn string512_push_str(s: &mut heapless::String<512>, t: &str) -> (r: Result<(), ()>)
    ensures
        string512_bytes(*old(s)).len() + t.spec_bytes().len() <= 512 ==> r is Ok
            && string512_bytes(*final(s)) == string512_bytes(*old(s)) + t.spec_bytes(),
        string512_bytes(*old(s)).len() + t.spec_bytes().len() > 512 ==> r is Err
            && string512_bytes(*final(s)) == string512_bytes(*old(s)),
{
    s.push_str(t)
}

/// `core::str::from_utf8`: the bytes as a string slice when they are valid
/// UTF-8, else nothing.
#[verifier::external_body]
pub(crate) fn utf8_str(bytes: &[u8]) -> (r: Option<&str>)
    ensures
        r is Some <==> valid_utf8(bytes@),
        r matches Some(s) ==> s.spec_bytes() == bytes@,
{
    core::str::from_utf8(bytes).ok()
}

/// The bytes of the icon code used when a code is not valid UTF-8: "03d".
pub open spec fn fallback_icon_bytes() -> Seq<u8> {
    seq![48u8, 51u8, 100u8]
}

/// The icon code "03d" (scattered clouds).
pub(crate) fn fallback_icon() -> (r: &'static str)
    ensures
        r.spec_bytes() == fallback_icon_bytes(),
{
    let s = "03d";
    proof {
        reveal_strlit("03d");
        assert(is_ascii_chars(s@));
        is_ascii_chars_encode_utf8(s@);
        assert(s.spec_bytes() =~= fallback_icon_bytes());
    }
    s
}

} // verus!
