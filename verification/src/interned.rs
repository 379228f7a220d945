//! Interned strings and byte strings of `jrsonnet_interner`, as the
//! library sees them: an `IStr` holds a sequence of characters and an
//! `IBytes` a sequence of bytes.
use vstd::prelude::*;
use jrsonnet_interner::IBytes;
use jrsonnet_interner::IStr;
use vstd::utf8::encode_utf8;

verus! {

/// `jrsonnet_interner::IStr`, an interned string; opaque here.
#[verifier::external_type_specification]
#[verifier::external_body]
pub struct ExIStr(IStr);

/// `jrsonnet_interner::IBytes`, an interned byte string; opaque here.
#[verifier::external_type_specification]
#[verifier::external_body]
pub struct ExIBytes(IBytes);

/// The characters that an interned string holds.
pub uninterp spec fn istr_chars(s: IStr) -> Seq<char>;

/// The bytes that an interned byte string holds.
pub uninterp spec fn ibytes_bytes(b: IBytes) -> Seq<u8>;

/// Calls `IStr::from(String)`, which interns the string's text: the
/// returned `IStr` holds the characters of `s`. The interner panics on text
/// of more than `u32::MAX` bytes of UTF-8, which `requires` leaves out.
#[verifier::external_body]
pub(crate) fn intern_string(s: String) -> (r: IStr)
    requires
        encode_utf8(s@).len() <= u32::MAX,
    ensures
        istr_chars(r) == s@,
{
    IStr::from(s)
}

/// Calls `IStr::from(char)`, which interns the one-character string of `c`.
#[verifier::external_body]
pub(crate) fn intern_char(c: char) -> (r: IStr)
    ensures
        istr_chars(r) == seq![c],
{
    IStr::from(c)
}

/// Calls `IStr::as_str`, which gives the interned text itself.
#[verifier::external_body]
pub(crate) fn istr_as_str<'a>(s: &'a IStr) -> (r: &'a str)
    ensures
        r@ == istr_chars(*s),
{
    s.as_str()
}

/// Calls `IBytes::from(&[u8])`, which interns a copy of the bytes. The
/// interner panics on more than `u32::MAX` bytes, which `requires` leaves out.
#[verifier::external_body]
pub(crate) fn intern_bytes(b: &[u8]) -> (r: IBytes)
    requires
        b@.len() <= u32::MAX,
    ensures
        ibytes_bytes(r) == b@,
{
    IBytes::from(b)
}

/// Calls `IBytes::as_slice`, which gives the interned bytes themselves.
#[verifier::external_body]
pub(crate) fn ibytes_as_slice<'a>(b: &'a IBytes) -> (r: &'a [u8])
    ensures
        r@ == ibytes_bytes(*b),
{
    b.as_slice()
}

} // verus!
