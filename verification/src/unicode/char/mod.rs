//! Unicode scalars of several storage widths.
//!
//! Each type stores one Unicode scalar value. The types differ in the width
//! of their storage and, with it, in the range of scalars that they hold.

use vstd::prelude::*;
use vstd::utf8::*;

pub mod core_impls;
pub mod impls;
pub mod scalar;

pub use self::scalar::{Chars, UnicodeScalar};

verus! {

/// A 7-bit Unicode scalar value, limited to the basic latin subset (ASCII).
///
/// The stored byte never has its top bit set.
#[derive(Clone, Copy, Debug, Hash, PartialEq, Eq, PartialOrd, Ord, Structural)]
pub struct Char7(pub(crate) u8);

/// An 8-bit Unicode scalar value, limited to the basic latin and latin-1
/// subsets.
///
/// Every value of the stored byte is a scalar.
#[derive(Clone, Copy, Debug, Hash, PartialEq, Eq, PartialOrd, Ord, Structural)]
pub struct Char8(pub(crate) u8);

/// A 16-bit Unicode scalar value, limited to the Basic Multilingual Plane.
///
/// The stored number is never a surrogate code point.
#[derive(Clone, Copy, Debug, Hash, PartialEq, Eq, PartialOrd, Ord, Structural)]
pub struct Char16(pub(crate) u16);

/// A 24-bit Unicode scalar value.
///
/// It can hold every scalar, since the highest one, `U+10FFFF`, needs 21 bits
/// only. The three bytes are the code point's digits to the base 256.
#[derive(Clone, Copy, Debug, Hash, PartialEq, Eq, PartialOrd, Ord, Structural)]
pub struct Char24 {
    pub(crate) hi: u8,
    pub(crate) mi: u8,
    pub(crate) lo: u8,
}

/// A 32-bit Unicode scalar value: Rust's own `char`.
#[derive(Clone, Copy, Debug, Hash, PartialEq, Eq, PartialOrd, Ord, Structural)]
pub struct Char32(pub char);

/// True when `code` is a noncharacter as this crate counts them: a code
/// point of the block `U+FDD0..=U+FDEF`, one from `U+FFFE` on whose low byte
/// is `0xFE` or `0xFF`, or one of the block `U+2FE0..=U+2FEF`.
pub open spec fn noncharacter_code(code: u32) -> bool {
    ||| 0xFDD0 <= code <= 0xFDEF
    ||| (code >= 0xFFFE && code % 256 >= 0xFE)
    ||| 0x2FE0 <= code <= 0x2FEF
}

/// The number of bytes that it takes to store the code point `code`.
pub open spec fn code_byte_width(code: u32) -> nat {
    if code <= 0xFF {
        1
    } else if code <= 0xFFFF {
        2
    } else {
        3
    }
}

/// The ASCII upper case equivalent of `c`: `'a'..='z'` go to `'A'..='Z'`,
/// every other scalar stays.
pub open spec fn ascii_upper(c: char) -> char {
    if 'a' <= c <= 'z' {
        ((c as u32) - 32) as char
    } else {
        c
    }
}

/// The ASCII lower case equivalent of `c`: `'A'..='Z'` go to `'a'..='z'`,
/// every other scalar stays.
pub open spec fn ascii_lower(c: char) -> char {
    if 'A' <= c <= 'Z' {
        ((c as u32) + 32) as char
    } else {
        c
    }
}

/// The number that `c` stands for as a digit to any base up to 36: `0-9`
/// count 0 to 9, `a-z` and `A-Z` count 10 to 35.
pub open spec fn digit_number(c: char) -> Option<u32> {
    if '0' <= c <= '9' {
        Some(((c as u32) - 48) as u32)
    } else if 'a' <= c <= 'z' {
        Some(((c as u32) - 97 + 10) as u32)
    } else if 'A' <= c <= 'Z' {
        Some(((c as u32) - 65 + 10) as u32)
    } else {
        None
    }
}

/// The value of `c` as a digit to the base `radix`, if it is one.
pub open spec fn digit_in_radix(c: char, radix: u32) -> Option<u32> {
    match digit_number(c) {
        Some(d) => if d < radix {
            Some(d)
        } else {
            None
        },
        None => None,
    }
}

/// Returns `true` if `code` is a noncharacter.
pub fn is_noncharacter(code: u32) -> (r: bool)
    ensures
        r == noncharacter_code(code),
{
    (code >= 0xFDD0 && code <= 0xFDEF) || (code >= 0xFFFE && code % 256 >= 0xFE) || (code
        >= 0x2FE0 && code <= 0x2FEF)
}

/// Returns the number of bytes of the UTF-8 encoding that `bytes` holds,
/// zero-padded, in two bytes: one for the first byte, one more if the
/// second is not zero.
pub fn char_utf8_2bytes_len(bytes: [u8; 2]) -> (n: u8)
    ensures
        n == 1 + (if bytes@[1] != 0 { 1int } else { 0 }),
{
    if bytes[1] > 0 {
        2
    } else {
        1
    }
}

/// Returns the number of bytes of the UTF-8 encoding that `bytes` holds,
/// zero-padded, in three bytes: one for the first byte, one more for each
/// later byte that is not zero.
pub fn char_utf8_3bytes_len(bytes: [u8; 3]) -> (n: u8)
    ensures
        n == 1 + (if bytes@[1] != 0 { 1int } else { 0 }) + (if bytes@[2] != 0 { 1int } else { 0 }),
{
    let mut n: u8 = 1;
    if bytes[1] > 0 {
        n = n + 1;
    }
    if bytes[2] > 0 {
        n = n + 1;
    }
    n
}

/// Returns the number of bytes of the UTF-8 encoding that `bytes` holds,
/// zero-padded, in four bytes: one for the first byte, one more for each
/// later byte that is not zero.
pub fn char_utf8_4bytes_len(bytes: [u8; 4]) -> (n: u8)
    ensures
        n == 1 + (if bytes@[1] != 0 { 1int } else { 0 }) + (if bytes@[2] != 0 { 1int } else { 0 })
            + (if bytes@[3] != 0 { 1int } else { 0 }),
{
    let mut n: u8 = 1;
    if bytes[1] > 0 {
        n = n + 1;
    }
    if bytes[2] > 0 {
        n = n + 1;
    }
    if bytes[3] > 0 {
        n = n + 1;
    }
    n
}

/// The encoding of `c`, padded with zeros to `width` bytes.
pub open spec fn padded_encoding(c: char, width: nat) -> Seq<u8> {
    encode_scalar(c as u32) + Seq::new((width - encode_scalar(c as u32).len()) as nat, |i: int| 0u8)
}

/// In a zero-padded encoding, the bytes after the first that are not zero
/// are those of the encoding.
pub proof fn lemma_padded_encoding(c: char, width: nat)
    requires
        encode_scalar(c as u32).len() <= width,
    ensures
        padded_encoding(c, width).len() == width,
        forall|i: int|
            0 <= i < encode_scalar(c as u32).len() ==> #[trigger] padded_encoding(c, width)[i]
                == encode_scalar(c as u32)[i],
        forall|i: int|
            1 <= i < width ==> ((#[trigger] padded_encoding(c, width)[i]) != 0 <==> i
                < encode_scalar(c as u32).len()),
{
    crate::unicode::utf8::lemma_encode_scalar_shape(c);
    let enc = encode_scalar(c as u32);
    assert forall|i: int| 1 <= i < width implies ((#[trigger] padded_encoding(c, width)[i]) != 0
        <==> i < enc.len()) by {
        if i < enc.len() {
            assert(is_continuation_byte(enc[i]));
        }
    }
}

} // verus!
