//! Character classification used when deriving a filename from an entry
//! name. The ASCII part of each class is spelled out; the part above ASCII
//! is left as a name for what the standard library returns.

use vstd::prelude::*;

verus! {

/// Whether a char above ASCII has Unicode's White_Space property.
pub uninterp spec fn non_ascii_whitespace(c: char) -> bool;

/// Whether a char above ASCII is alphanumeric in Unicode's sense:
/// Alphabetic, or in one of the general categories Nd, Nl, No.
pub uninterp spec fn non_ascii_alphanumeric(c: char) -> bool;

/// A char with Unicode's White_Space property. Its ASCII members are
/// exactly tab, line feed, vertical tab, form feed, carriage return
/// and space.
pub open spec fn is_whitespace_char(c: char) -> bool {
    if (c as u32) < 128 {
        c == ' ' || c == '\u{9}' || c == '\u{a}' || c == '\u{b}' || c == '\u{c}' || c == '\u{d}'
    } else {
        non_ascii_whitespace(c)
    }
}

/// An alphanumeric char in Unicode's sense. Its ASCII members are exactly
/// the letters and the decimal digits.
pub open spec fn is_alphanumeric_char(c: char) -> bool {
    if (c as u32) < 128 {
        ('a' <= c && c <= 'z') || ('A' <= c && c <= 'Z') || ('0' <= c && c <= '9')
    } else {
        non_ascii_alphanumeric(c)
    }
}

/// Relies on char::is_whitespace: true exactly on chars with Unicode's
/// White_Space property, whose ASCII members are tab, line feed, vertical
/// tab, form feed, carriage return and space.
#[verifier::external_body]
pub fn char_is_whitespace(c: char) -> (r: bool)
    ensures
        r == is_whitespace_char(c),
        (c as u32) >= 128 ==> r == non_ascii_whitespace(c),
{
    c.is_whitespace()
}

/// Relies on char::is_alphanumeric: true exactly on chars that are
/// Alphabetic or in the general categories Nd, Nl, No, whose ASCII members
/// are the letters and the decimal digits.
#[verifier::external_body]
pub fn char_is_alphanumeric(c: char) -> (r: bool)
    ensures
        r == is_alphanumeric_char(c),
        (c as u32) >= 128 ==> r == non_ascii_alphanumeric(c),
{
    c.is_alphanumeric()
}

} // verus!
