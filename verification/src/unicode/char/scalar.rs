//! `UnicodeScalar` trait, and its implementations.

use super::impls::{
    char_byte_len, char_len_utf16, char_len_utf8, char_to_ascii_lowercase,
    char_to_ascii_uppercase, char_to_digit,
};
use super::{
    ascii_lower, ascii_upper, code_byte_width, digit_in_radix, is_noncharacter,
    noncharacter_code, padded_encoding, Char16, Char24, Char32, Char7, Char8,
};
use crate::textual::Textual;
use crate::unicode::utf8::{encode_char, utf16_width, utf8_width};
use vstd::prelude::*;
use vstd::utf8::*;

verus! {

/// True when `c` has the `Alphabetic` property, as `char::is_alphabetic`
/// tells it.
pub uninterp spec fn alphabetic(c: char) -> bool;

/// True when `c` has one of the general categories for numbers, as
/// `char::is_numeric` tells it.
pub uninterp spec fn numeric(c: char) -> bool;

/// True when `c` has the `Lowercase` property, as `char::is_lowercase`
/// tells it.
pub uninterp spec fn lowercase(c: char) -> bool;

/// True when `c` has the `Uppercase` property, as `char::is_uppercase`
/// tells it.
pub uninterp spec fn uppercase(c: char) -> bool;

/// True when `c` has the `White_Space` property, as `char::is_whitespace`
/// tells it.
pub uninterp spec fn whitespace(c: char) -> bool;

/// True when `c` has the general category for control codes: the code
/// points `U+0000..=U+001F` and `U+007F..=U+009F`.
pub open spec fn control(c: char) -> bool {
    c as u32 <= 0x1F || 0x7F <= c as u32 <= 0x9F
}

/// The 16-bit units of the UTF-16 encoding of `c`: the code point itself
/// below `U+10000`, else a high and a low surrogate that share the 20 bits
/// of the code point less `0x10000`.
pub open spec fn utf16_units(c: char) -> Seq<u16> {
    if (c as u32) < 0x1_0000 {
        seq![c as u16]
    } else {
        seq![
            (0xD800 + ((c as u32) - 0x1_0000) / 0x400) as u16,
            (0xDC00 + ((c as u32) - 0x1_0000) % 0x400) as u16,
        ]
    }
}

/// `char::is_alphabetic`: whether the scalar has the `Alphabetic` property.
#[verifier::external_body]
fn char_is_alphabetic(c: char) -> (r: bool)
    ensures
        r == alphabetic(c),
{
    c.is_alphabetic()
}

/// `char::is_numeric`: whether the scalar has a general category for
/// numbers.
#[verifier::external_body]
fn char_is_numeric(c: char) -> (r: bool)
    ensures
        r == numeric(c),
{
    c.is_numeric()
}

/// `char::is_lowercase`: whether the scalar has the `Lowercase` property.
#[verifier::external_body]
fn char_is_lowercase(c: char) -> (r: bool)
    ensures
        r == lowercase(c),
{
    c.is_lowercase()
}

/// `char::is_uppercase`: whether the scalar has the `Uppercase` property.
#[verifier::external_body]
fn char_is_uppercase(c: char) -> (r: bool)
    ensures
        r == uppercase(c),
{
    c.is_uppercase()
}

/// `char::is_whitespace`: whether the scalar has the `White_Space`
/// property.
#[verifier::external_body]
fn char_is_whitespace(c: char) -> (r: bool)
    ensures
        r == whitespace(c),
{
    c.is_whitespace()
}

/// `char::encode_utf8`: writes the UTF-8 encoding of `c` at the start of
/// `dst`, which is long enough for it, and hands out that part of `dst` as
/// a string slice. The rest of `dst` stays. When the borrow ends, the start
/// of `dst` holds what the slice then holds.
#[verifier::external_body]
fn char_encode_utf8<'a>(c: char, dst: &'a mut [u8]) -> (r: &'a mut str)
    requires
        old(dst)@.len() >= utf8_width(c as u32),
    ensures
        r@ == seq![c],
        encode_utf8(final(r)@).len() == utf8_width(c as u32),
        final(dst)@ == encode_utf8(final(r)@) + old(dst)@.skip(utf8_width(c as u32) as int),
{
    c.encode_utf8(dst)
}

/// `char::encode_utf16`: writes the UTF-16 encoding of `c` at the start of
/// `dst`, which is long enough for it, and hands out that part of `dst`.
/// The rest of `dst` stays. When the borrow ends, the start of `dst` holds
/// what the part then holds.
#[verifier::external_body]
fn char_encode_utf16<'a>(c: char, dst: &'a mut [u16]) -> (r: &'a mut [u16])
    requires
        old(dst)@.len() >= utf16_width(c as u32),
    ensures
        r@ == utf16_units(c),
        final(r)@.len() == utf16_width(c as u32),
        final(dst)@ == final(r)@ + old(dst)@.skip(utf16_width(c as u32) as int),
{
    c.encode_utf16(dst)
}

/// Returns `true` if `c` has the general category for control codes.
pub fn char_is_control(c: char) -> (r: bool)
    ensures
        r == control(c),
{
    let u: u32 = c as u32;
    u <= 0x1F || (0x7F <= u && u <= 0x9F)
}

/// Common trait for unicode scalars.
///
/// A type of this trait stores one scalar. What the methods return is
/// stated of that scalar.
pub trait UnicodeScalar: Textual + Sized {
    /// The scalar that the value stands for.
    spec fn scalar_value(self) -> char;

    /// What holds of every value of the type.
    spec fn well_formed(self) -> bool;

    /// True when the type can hold `c`.
    spec fn holds(c: char) -> bool;

    /// The value of the type that stands for `c`.
    spec fn of_scalar(c: char) -> Self;

    /// A scalar that the type can hold comes back from its value.
    proof fn lemma_of_scalar(c: char)
        requires
            Self::holds(c),
        ensures
            Self::of_scalar(c).well_formed(),
            Self::of_scalar(c).scalar_value() == c,
    ;

    /// The type can hold the scalar of each of its values, and that value
    /// is the one that stands for it.
    proof fn lemma_scalar_held(self)
        requires
            self.well_formed(),
        ensures
            Self::holds(self.scalar_value()),
            Self::of_scalar(self.scalar_value()) == self,
    ;

    /// The highest code point that the type can hold.
    spec fn max_code() -> u32;

    /// The type can hold the scalars up to its highest code point, and no
    /// others.
    proof fn lemma_holds(c: char)
        ensures
            Self::holds(c) <==> c as u32 <= Self::max_code(),
    ;

    /// Returns the highest unicode scalar that can be represented by this
    /// type.
    fn max_scalar() -> (r: Self)
        ensures
            r.scalar_value() as u32 == Self::max_code(),
    ;

    /// Returns the number of bytes needed to represent the scalar value.
    fn byte_len(self) -> (n: usize)
        ensures
            n == code_byte_width(self.scalar_value() as u32),
    ;

    /// Returns the number of bytes needed to encode in UTF-8.
    fn len_utf8(self) -> (n: usize)
        ensures
            n == utf8_width(self.scalar_value() as u32),
    ;

    /// Returns the number of 16-bit units needed to encode in UTF-16.
    fn len_utf16(self) -> (n: usize)
        ensures
            n == utf16_width(self.scalar_value() as u32),
    ;

    /// Encodes this scalar as UTF-8 into the provided byte buffer, and then
    /// returns the subslice of the buffer that contains the encoded scalar.
    ///
    /// The buffer is large enough. A buffer of length four is large enough
    /// to encode any scalar.
    fn encode_utf8<'a>(self, dst: &'a mut [u8]) -> (r: &'a mut str)
        requires
            old(dst)@.len() >= utf8_width(self.scalar_value() as u32),
        ensures
            r@ == seq![self.scalar_value()],
            encode_utf8(final(r)@).len() == utf8_width(self.scalar_value() as u32),
            final(dst)@ == encode_utf8(final(r)@) + old(dst)@.skip(
                utf8_width(self.scalar_value() as u32) as int,
            ),
    ;

    /// Converts this scalar to its UTF-8 encoding, in four bytes.
    ///
    /// The encoding may be shorter. The bytes after it are 0.
    fn to_utf8_bytes(self) -> (r: [u8; 4])
        ensures
            r@ == padded_encoding(self.scalar_value(), 4),
    ;

    /// Encodes this scalar as UTF-16 into the provided buffer, and then
    /// returns the subslice of the buffer that contains the encoded scalar.
    ///
    /// The buffer is large enough. A buffer of length 2 is large enough to
    /// encode any scalar.
    fn encode_utf16<'a>(self, dst: &'a mut [u16]) -> (r: &'a mut [u16])
        requires
            old(dst)@.len() >= utf16_width(self.scalar_value() as u32),
        ensures
            r@ == utf16_units(self.scalar_value()),
            final(r)@.len() == utf16_width(self.scalar_value() as u32),
            final(dst)@ == final(r)@ + old(dst)@.skip(
                utf16_width(self.scalar_value() as u32) as int,
            ),
    ;

    /// Converts the scalar to a digit in the given radix.
    ///
    /// A digit is one of `0-9`, `a-z`, `A-Z`. `radix` is at most 36.
    fn to_digit(self, radix: u32) -> (r: Option<u32>)
        requires
            radix <= 36,
        ensures
            r == digit_in_radix(self.scalar_value(), radix),
    ;

    /// Makes a copy of the value in its ASCII upper case equivalent.
    fn to_ascii_uppercase(self) -> (r: Self)
        ensures
            r.scalar_value() == ascii_upper(self.scalar_value()),
    ;

    /// Makes a copy of the value in its ASCII lower case equivalent.
    fn to_ascii_lowercase(self) -> (r: Self)
        ensures
            r.scalar_value() == ascii_lower(self.scalar_value()),
    ;

    /// Returns `true` if this unicode scalar is a noncharacter.
    fn is_noncharacter(self) -> (r: bool)
        ensures
            r == noncharacter_code(self.scalar_value() as u32),
    ;

    /// Returns `true` if this unicode scalar is an abstract character.
    fn is_character(self) -> (r: bool)
        ensures
            r == !noncharacter_code(self.scalar_value() as u32),
    ;

    /// Checks if the unicode scalar is a digit in the given radix.
    ///
    /// `radix` is at most 36.
    fn is_digit(self, radix: u32) -> (r: bool)
        requires
            radix <= 36,
        ensures
            r == digit_in_radix(self.scalar_value(), radix).is_some(),
    ;

    /// Returns `true` if this unicode scalar has the general category for
    /// control codes.
    fn is_control(self) -> (r: bool)
        ensures
            r == control(self.scalar_value()),
    ;

    /// Returns `true` if this unicode scalar is the nul character (`0x00`).
    fn is_nul(self) -> (r: bool)
        ensures
            r == (self.scalar_value() == '\0'),
    ;

    /// Returns `true` if this unicode scalar has the `Alphabetic` property.
    fn is_alphabetic(self) -> (r: bool)
        ensures
            r == alphabetic(self.scalar_value()),
    ;

    /// Returns `true` if this unicode scalar has one of the general
    /// categories for numbers.
    fn is_numeric(self) -> (r: bool)
        ensures
            r == numeric(self.scalar_value()),
    ;

    /// Returns `true` if this unicode scalar satisfies either
    /// `is_alphabetic()` or `is_numeric()`.
    fn is_alphanumeric(self) -> (r: bool)
        ensures
            r == (alphabetic(self.scalar_value()) || numeric(self.scalar_value())),
    ;

    /// Returns `true` if this unicode scalar has the `Lowercase` property.
    fn is_lowercase(self) -> (r: bool)
        ensures
            r == lowercase(self.scalar_value()),
    ;

    /// Returns `true` if this unicode scalar has the `Uppercase` property.
    fn is_uppercase(self) -> (r: bool)
        ensures
            r == uppercase(self.scalar_value()),
    ;

    /// Returns `true` if this unicode scalar has the `White_Space` property.
    fn is_whitespace(self) -> (r: bool)
        ensures
            r == whitespace(self.scalar_value()),
    ;

    /// Checks if the value is within the ASCII range.
    fn is_ascii(self) -> (r: bool)
        ensures
            r == (self.scalar_value() as u32 <= 0x7F),
    ;
}

/// The same interface as [`UnicodeScalar`], under a shorter name: every type
/// of that trait has this one.
pub trait Chars: UnicodeScalar {

}

impl<T: UnicodeScalar> Chars for T {

}

/// A scalar that goes from one width to `char`, from there to another width
/// that can hold it, and back to `char`, is the scalar that it was; and the
/// way back to the first width gives the value that one began with.
pub proof fn lemma_width_conversion<A: UnicodeScalar, B: UnicodeScalar>(a: A)
    requires
        a.well_formed(),
        B::holds(a.scalar_value()),
    ensures
        B::of_scalar(a.scalar_value()).well_formed(),
        B::of_scalar(a.scalar_value()).scalar_value() == a.scalar_value(),
        A::holds(B::of_scalar(a.scalar_value()).scalar_value()),
        A::of_scalar(B::of_scalar(a.scalar_value()).scalar_value()) == a,
{
    B::lemma_of_scalar(a.scalar_value());
    a.lemma_scalar_held();
}

impl Textual for Char7 {

}

impl UnicodeScalar for Char7 {
    open spec fn scalar_value(self) -> char {
        self.scalar()
    }

    open spec fn well_formed(self) -> bool {
        self.valid()
    }

    open spec fn holds(c: char) -> bool {
        Char7::fits(c)
    }

    open spec fn of_scalar(c: char) -> Self {
        Char7::of_code(c as u32)
    }

    proof fn lemma_of_scalar(c: char) {
        Char7::lemma_code_of(c);
    }

    proof fn lemma_scalar_held(self) {
        self.lemma_of_code();
    }

    open spec fn max_code() -> u32 {
        0x7F
    }

    proof fn lemma_holds(c: char) {
    }

    fn max_scalar() -> (r: Self) {
        let r = Char7::max();
        proof {
            r.lemma_of_code();
        }
        r
    }

    fn byte_len(self) -> (n: usize) {
        proof {
            use_type_invariant(self);
            self.lemma_of_code();
        }
        self.byte_len()
    }

    fn len_utf8(self) -> (n: usize) {
        proof {
            use_type_invariant(self);
            self.lemma_of_code();
        }
        self.len_utf8()
    }

    fn len_utf16(self) -> (n: usize) {
        proof {
            use_type_invariant(self);
            self.lemma_of_code();
        }
        self.len_utf16()
    }

    fn encode_utf8<'a>(self, dst: &'a mut [u8]) -> (r: &'a mut str) {
        proof {
            use_type_invariant(self);
            self.lemma_of_code();
        }
        char_encode_utf8(self.to_char(), dst)
    }

    fn to_utf8_bytes(self) -> (r: [u8; 4]) {
        proof {
            use_type_invariant(self);
            self.lemma_of_code();
        }
        let (bytes, _n) = encode_char(self.to_char());
        assert(bytes@ =~= padded_encoding(self.scalar(), 4));
        bytes
    }

    fn encode_utf16<'a>(self, dst: &'a mut [u16]) -> (r: &'a mut [u16]) {
        proof {
            use_type_invariant(self);
            self.lemma_of_code();
        }
        char_encode_utf16(self.to_char(), dst)
    }

    fn to_digit(self, radix: u32) -> (r: Option<u32>) {
        proof {
            use_type_invariant(self);
            self.lemma_of_code();
        }
        self.to_digit(radix)
    }

    fn to_ascii_uppercase(self) -> (r: Self) {
        proof {
            use_type_invariant(self);
            self.lemma_of_code();
        }
        self.to_ascii_uppercase()
    }

    fn to_ascii_lowercase(self) -> (r: Self) {
        proof {
            use_type_invariant(self);
            self.lemma_of_code();
        }
        self.to_ascii_lowercase()
    }

    fn is_noncharacter(self) -> (r: bool) {
        proof {
            use_type_invariant(self);
            self.lemma_of_code();
        }
        self.is_noncharacter()
    }

    fn is_character(self) -> (r: bool) {
        proof {
            use_type_invariant(self);
            self.lemma_of_code();
        }
        self.is_character()
    }

    fn is_digit(self, radix: u32) -> (r: bool) {
        proof {
            use_type_invariant(self);
            self.lemma_of_code();
        }
        self.is_digit(radix)
    }

    fn is_control(self) -> (r: bool) {
        proof {
            use_type_invariant(self);
            self.lemma_of_code();
        }
        char_is_control(self.to_char())
    }

    fn is_nul(self) -> (r: bool) {
        proof {
            use_type_invariant(self);
            self.lemma_of_code();
        }
        self.is_nul()
    }

    fn is_alphabetic(self) -> (r: bool) {
        proof {
            use_type_invariant(self);
            self.lemma_of_code();
        }
        char_is_alphabetic(self.to_char())
    }

    fn is_numeric(self) -> (r: bool) {
        proof {
            use_type_invariant(self);
            self.lemma_of_code();
        }
        char_is_numeric(self.to_char())
    }

    fn is_alphanumeric(self) -> (r: bool) {
        proof {
            use_type_invariant(self);
            self.lemma_of_code();
        }
        char_is_alphabetic(self.to_char()) || char_is_numeric(self.to_char())
    }

    fn is_lowercase(self) -> (r: bool) {
        proof {
            use_type_invariant(self);
            self.lemma_of_code();
        }
        char_is_lowercase(self.to_char())
    }

    fn is_uppercase(self) -> (r: bool) {
        proof {
            use_type_invariant(self);
            self.lemma_of_code();
        }
        char_is_uppercase(self.to_char())
    }

    fn is_whitespace(self) -> (r: bool) {
        proof {
            use_type_invariant(self);
            self.lemma_of_code();
        }
        char_is_whitespace(self.to_char())
    }

    fn is_ascii(self) -> (r: bool) {
        proof {
            use_type_invariant(self);
            self.lemma_of_code();
        }
        self.is_ascii()
    }
}

impl Textual for Char8 {

}

impl UnicodeScalar for Char8 {
    open spec fn scalar_value(self) -> char {
        self.scalar()
    }

    open spec fn well_formed(self) -> bool {
        self.valid()
    }

    open spec fn holds(c: char) -> bool {
        Char8::fits(c)
    }

    open spec fn of_scalar(c: char) -> Self {
        Char8::of_code(c as u32)
    }

    proof fn lemma_of_scalar(c: char) {
        Char8::lemma_code_of(c);
    }

    proof fn lemma_scalar_held(self) {
        self.lemma_of_code();
    }

    open spec fn max_code() -> u32 {
        0xFF
    }

    proof fn lemma_holds(c: char) {
    }

    fn max_scalar() -> (r: Self) {
        let r = Char8::max();
        proof {
            r.lemma_of_code();
        }
        r
    }

    fn byte_len(self) -> (n: usize) {
        proof {
            self.lemma_of_code();
        }
        self.byte_len()
    }

    fn len_utf8(self) -> (n: usize) {
        proof {
            self.lemma_of_code();
        }
        self.len_utf8()
    }

    fn len_utf16(self) -> (n: usize) {
        proof {
            self.lemma_of_code();
        }
        self.len_utf16()
    }

    fn encode_utf8<'a>(self, dst: &'a mut [u8]) -> (r: &'a mut str) {
        proof {
            self.lemma_of_code();
        }
        char_encode_utf8(self.to_char(), dst)
    }

    fn to_utf8_bytes(self) -> (r: [u8; 4]) {
        proof {
            self.lemma_of_code();
        }
        let (bytes, _n) = encode_char(self.to_char());
        assert(bytes@ =~= padded_encoding(self.scalar(), 4));
        bytes
    }

    fn encode_utf16<'a>(self, dst: &'a mut [u16]) -> (r: &'a mut [u16]) {
        proof {
            self.lemma_of_code();
        }
        char_encode_utf16(self.to_char(), dst)
    }

    fn to_digit(self, radix: u32) -> (r: Option<u32>) {
        proof {
            self.lemma_of_code();
        }
        self.to_digit(radix)
    }

    fn to_ascii_uppercase(self) -> (r: Self) {
        proof {
            self.lemma_of_code();
        }
        self.to_ascii_uppercase()
    }

    fn to_ascii_lowercase(self) -> (r: Self) {
        proof {
            self.lemma_of_code();
        }
        self.to_ascii_lowercase()
    }

    fn is_noncharacter(self) -> (r: bool) {
        proof {
            self.lemma_of_code();
        }
        self.is_noncharacter()
    }

    fn is_character(self) -> (r: bool) {
        proof {
            self.lemma_of_code();
        }
        self.is_character()
    }

    fn is_digit(self, radix: u32) -> (r: bool) {
        proof {
            self.lemma_of_code();
        }
        self.is_digit(radix)
    }

    fn is_control(self) -> (r: bool) {
        proof {
            self.lemma_of_code();
        }
        char_is_control(self.to_char())
    }

    fn is_nul(self) -> (r: bool) {
        proof {
            self.lemma_of_code();
        }
        self.is_nul()
    }

    fn is_alphabetic(self) -> (r: bool) {
        proof {
            self.lemma_of_code();
        }
        char_is_alphabetic(self.to_char())
    }

    fn is_numeric(self) -> (r: bool) {
        proof {
            self.lemma_of_code();
        }
        char_is_numeric(self.to_char())
    }

    fn is_alphanumeric(self) -> (r: bool) {
        proof {
            self.lemma_of_code();
        }
        char_is_alphabetic(self.to_char()) || char_is_numeric(self.to_char())
    }

    fn is_lowercase(self) -> (r: bool) {
        proof {
            self.lemma_of_code();
        }
        char_is_lowercase(self.to_char())
    }

    fn is_uppercase(self) -> (r: bool) {
        proof {
            self.lemma_of_code();
        }
        char_is_uppercase(self.to_char())
    }

    fn is_whitespace(self) -> (r: bool) {
        proof {
            self.lemma_of_code();
        }
        char_is_whitespace(self.to_char())
    }

    fn is_ascii(self) -> (r: bool) {
        proof {
            self.lemma_of_code();
        }
        self.is_ascii()
    }
}

impl Textual for Char16 {

}

impl UnicodeScalar for Char16 {
    open spec fn scalar_value(self) -> char {
        self.scalar()
    }

    open spec fn well_formed(self) -> bool {
        self.valid()
    }

    open spec fn holds(c: char) -> bool {
        Char16::fits(c)
    }

    open spec fn of_scalar(c: char) -> Self {
        Char16::of_code(c as u32)
    }

    proof fn lemma_of_scalar(c: char) {
        Char16::lemma_code_of(c);
    }

    proof fn lemma_scalar_held(self) {
        self.lemma_of_code();
    }

    open spec fn max_code() -> u32 {
        0xFFFF
    }

    proof fn lemma_holds(c: char) {
    }

    fn max_scalar() -> (r: Self) {
        let r = Char16::max();
        proof {
            r.lemma_of_code();
        }
        r
    }

    fn byte_len(self) -> (n: usize) {
        proof {
            use_type_invariant(self);
            self.lemma_of_code();
        }
        self.byte_len()
    }

    fn len_utf8(self) -> (n: usize) {
        proof {
            use_type_invariant(self);
            self.lemma_of_code();
        }
        self.len_utf8()
    }

    fn len_utf16(self) -> (n: usize) {
        proof {
            use_type_invariant(self);
            self.lemma_of_code();
        }
        self.len_utf16()
    }

    fn encode_utf8<'a>(self, dst: &'a mut [u8]) -> (r: &'a mut str) {
        proof {
            use_type_invariant(self);
            self.lemma_of_code();
        }
        char_encode_utf8(self.to_char(), dst)
    }

    fn to_utf8_bytes(self) -> (r: [u8; 4]) {
        proof {
            use_type_invariant(self);
            self.lemma_of_code();
        }
        let (bytes, _n) = encode_char(self.to_char());
        assert(bytes@ =~= padded_encoding(self.scalar(), 4));
        bytes
    }

    fn encode_utf16<'a>(self, dst: &'a mut [u16]) -> (r: &'a mut [u16]) {
        proof {
            use_type_invariant(self);
            self.lemma_of_code();
        }
        char_encode_utf16(self.to_char(), dst)
    }

    fn to_digit(self, radix: u32) -> (r: Option<u32>) {
        proof {
            use_type_invariant(self);
            self.lemma_of_code();
        }
        self.to_digit(radix)
    }

    fn to_ascii_uppercase(self) -> (r: Self) {
        proof {
            use_type_invariant(self);
            self.lemma_of_code();
        }
        self.to_ascii_uppercase()
    }

    fn to_ascii_lowercase(self) -> (r: Self) {
        proof {
            use_type_invariant(self);
            self.lemma_of_code();
        }
        self.to_ascii_lowercase()
    }

    fn is_noncharacter(self) -> (r: bool) {
        proof {
            use_type_invariant(self);
            self.lemma_of_code();
        }
        self.is_noncharacter()
    }

    fn is_character(self) -> (r: bool) {
        proof {
            use_type_invariant(self);
            self.lemma_of_code();
        }
        self.is_character()
    }

    fn is_digit(self, radix: u32) -> (r: bool) {
        proof {
            use_type_invariant(self);
            self.lemma_of_code();
        }
        self.is_digit(radix)
    }

    fn is_control(self) -> (r: bool) {
        proof {
            use_type_invariant(self);
            self.lemma_of_code();
        }
        char_is_control(self.to_char())
    }

    fn is_nul(self) -> (r: bool) {
        proof {
            use_type_invariant(self);
            self.lemma_of_code();
        }
        self.is_nul()
    }

    fn is_alphabetic(self) -> (r: bool) {
        proof {
            use_type_invariant(self);
            self.lemma_of_code();
        }
        char_is_alphabetic(self.to_char())
    }

    fn is_numeric(self) -> (r: bool) {
        proof {
            use_type_invariant(self);
            self.lemma_of_code();
        }
        char_is_numeric(self.to_char())
    }

    fn is_alphanumeric(self) -> (r: bool) {
        proof {
            use_type_invariant(self);
            self.lemma_of_code();
        }
        char_is_alphabetic(self.to_char()) || char_is_numeric(self.to_char())
    }

    fn is_lowercase(self) -> (r: bool) {
        proof {
            use_type_invariant(self);
            self.lemma_of_code();
        }
        char_is_lowercase(self.to_char())
    }

    fn is_uppercase(self) -> (r: bool) {
        proof {
            use_type_invariant(self);
            self.lemma_of_code();
        }
        char_is_uppercase(self.to_char())
    }

    fn is_whitespace(self) -> (r: bool) {
        proof {
            use_type_invariant(self);
            self.lemma_of_code();
        }
        char_is_whitespace(self.to_char())
    }

    fn is_ascii(self) -> (r: bool) {
        proof {
            use_type_invariant(self);
            self.lemma_of_code();
        }
        self.is_ascii()
    }
}

impl Textual for Char24 {

}

impl UnicodeScalar for Char24 {
    open spec fn scalar_value(self) -> char {
        self.scalar()
    }

    open spec fn well_formed(self) -> bool {
        self.valid()
    }

    open spec fn holds(c: char) -> bool {
        Char24::fits(c)
    }

    open spec fn of_scalar(c: char) -> Self {
        Char24::of_code(c as u32)
    }

    proof fn lemma_of_scalar(c: char) {
        Char24::lemma_code_of(c);
    }

    proof fn lemma_scalar_held(self) {
        self.lemma_of_code();
    }

    open spec fn max_code() -> u32 {
        0x10_FFFF
    }

    proof fn lemma_holds(c: char) {
        char_is_scalar(c);
    }

    fn max_scalar() -> (r: Self) {
        let r = Char24::max();
        proof {
            r.lemma_of_code();
        }
        r
    }

    fn byte_len(self) -> (n: usize) {
        proof {
            use_type_invariant(self);
            self.lemma_of_code();
        }
        self.byte_len()
    }

    fn len_utf8(self) -> (n: usize) {
        proof {
            use_type_invariant(self);
            self.lemma_of_code();
        }
        self.len_utf8()
    }

    fn len_utf16(self) -> (n: usize) {
        proof {
            use_type_invariant(self);
            self.lemma_of_code();
        }
        self.len_utf16()
    }

    fn encode_utf8<'a>(self, dst: &'a mut [u8]) -> (r: &'a mut str) {
        proof {
            use_type_invariant(self);
            self.lemma_of_code();
        }
        char_encode_utf8(self.to_char(), dst)
    }

    fn to_utf8_bytes(self) -> (r: [u8; 4]) {
        proof {
            use_type_invariant(self);
            self.lemma_of_code();
        }
        self.to_utf8_bytes()
    }

    fn encode_utf16<'a>(self, dst: &'a mut [u16]) -> (r: &'a mut [u16]) {
        proof {
            use_type_invariant(self);
            self.lemma_of_code();
        }
        char_encode_utf16(self.to_char(), dst)
    }

    fn to_digit(self, radix: u32) -> (r: Option<u32>) {
        proof {
            use_type_invariant(self);
            self.lemma_of_code();
        }
        self.to_digit(radix)
    }

    fn to_ascii_uppercase(self) -> (r: Self) {
        proof {
            use_type_invariant(self);
            self.lemma_of_code();
        }
        self.to_ascii_uppercase()
    }

    fn to_ascii_lowercase(self) -> (r: Self) {
        proof {
            use_type_invariant(self);
            self.lemma_of_code();
        }
        self.to_ascii_lowercase()
    }

    fn is_noncharacter(self) -> (r: bool) {
        proof {
            use_type_invariant(self);
            self.lemma_of_code();
        }
        self.is_noncharacter()
    }

    fn is_character(self) -> (r: bool) {
        proof {
            use_type_invariant(self);
            self.lemma_of_code();
        }
        self.is_character()
    }

    fn is_digit(self, radix: u32) -> (r: bool) {
        proof {
            use_type_invariant(self);
            self.lemma_of_code();
        }
        self.is_digit(radix)
    }

    fn is_control(self) -> (r: bool) {
        proof {
            use_type_invariant(self);
            self.lemma_of_code();
        }
        char_is_control(self.to_char())
    }

    fn is_nul(self) -> (r: bool) {
        proof {
            use_type_invariant(self);
            self.lemma_of_code();
        }
        self.is_nul()
    }

    fn is_alphabetic(self) -> (r: bool) {
        proof {
            use_type_invariant(self);
            self.lemma_of_code();
        }
        char_is_alphabetic(self.to_char())
    }

    fn is_numeric(self) -> (r: bool) {
        proof {
            use_type_invariant(self);
            self.lemma_of_code();
        }
        char_is_numeric(self.to_char())
    }

    fn is_alphanumeric(self) -> (r: bool) {
        proof {
            use_type_invariant(self);
            self.lemma_of_code();
        }
        char_is_alphabetic(self.to_char()) || char_is_numeric(self.to_char())
    }

    fn is_lowercase(self) -> (r: bool) {
        proof {
            use_type_invariant(self);
            self.lemma_of_code();
        }
        char_is_lowercase(self.to_char())
    }

    fn is_uppercase(self) -> (r: bool) {
        proof {
            use_type_invariant(self);
            self.lemma_of_code();
        }
        char_is_uppercase(self.to_char())
    }

    fn is_whitespace(self) -> (r: bool) {
        proof {
            use_type_invariant(self);
            self.lemma_of_code();
        }
        char_is_whitespace(self.to_char())
    }

    fn is_ascii(self) -> (r: bool) {
        proof {
            use_type_invariant(self);
            self.lemma_of_code();
        }
        self.is_ascii()
    }
}

impl Textual for Char32 {

}

impl UnicodeScalar for Char32 {
    open spec fn scalar_value(self) -> char {
        self.scalar()
    }

    open spec fn well_formed(self) -> bool {
        self.valid()
    }

    open spec fn holds(c: char) -> bool {
        Char32::fits(c)
    }

    open spec fn of_scalar(c: char) -> Self {
        Char32::of_code(c as u32)
    }

    proof fn lemma_of_scalar(c: char) {
        Char32::lemma_code_of(c);
    }

    proof fn lemma_scalar_held(self) {
        self.lemma_of_code();
    }

    open spec fn max_code() -> u32 {
        0x10_FFFF
    }

    proof fn lemma_holds(c: char) {
        char_is_scalar(c);
    }

    fn max_scalar() -> (r: Self) {
        let r = Char32::max();
        proof {
            r.lemma_of_code();
        }
        r
    }

    fn byte_len(self) -> (n: usize) {
        proof {
            self.lemma_of_code();
        }
        self.byte_len()
    }

    fn len_utf8(self) -> (n: usize) {
        proof {
            self.lemma_of_code();
        }
        self.len_utf8()
    }

    fn len_utf16(self) -> (n: usize) {
        proof {
            self.lemma_of_code();
        }
        self.len_utf16()
    }

    fn encode_utf8<'a>(self, dst: &'a mut [u8]) -> (r: &'a mut str) {
        proof {
            self.lemma_of_code();
        }
        char_encode_utf8(self.to_char(), dst)
    }

    fn to_utf8_bytes(self) -> (r: [u8; 4]) {
        proof {
            self.lemma_of_code();
        }
        self.to_utf8_bytes()
    }

    fn encode_utf16<'a>(self, dst: &'a mut [u16]) -> (r: &'a mut [u16]) {
        proof {
            self.lemma_of_code();
        }
        char_encode_utf16(self.to_char(), dst)
    }

    fn to_digit(self, radix: u32) -> (r: Option<u32>) {
        proof {
            self.lemma_of_code();
        }
        self.to_digit(radix)
    }

    fn to_ascii_uppercase(self) -> (r: Self) {
        proof {
            self.lemma_of_code();
        }
        self.to_ascii_uppercase()
    }

    fn to_ascii_lowercase(self) -> (r: Self) {
        proof {
            self.lemma_of_code();
        }
        self.to_ascii_lowercase()
    }

    fn is_noncharacter(self) -> (r: bool) {
        proof {
            self.lemma_of_code();
        }
        self.is_noncharacter()
    }

    fn is_character(self) -> (r: bool) {
        proof {
            self.lemma_of_code();
        }
        self.is_character()
    }

    fn is_digit(self, radix: u32) -> (r: bool) {
        proof {
            self.lemma_of_code();
        }
        self.is_digit(radix)
    }

    fn is_control(self) -> (r: bool) {
        proof {
            self.lemma_of_code();
        }
        char_is_control(self.to_char())
    }

    fn is_nul(self) -> (r: bool) {
        proof {
            self.lemma_of_code();
        }
        self.is_nul()
    }

    fn is_alphabetic(self) -> (r: bool) {
        proof {
            self.lemma_of_code();
        }
        char_is_alphabetic(self.to_char())
    }

    fn is_numeric(self) -> (r: bool) {
        proof {
            self.lemma_of_code();
        }
        char_is_numeric(self.to_char())
    }

    fn is_alphanumeric(self) -> (r: bool) {
        proof {
            self.lemma_of_code();
        }
        char_is_alphabetic(self.to_char()) || char_is_numeric(self.to_char())
    }

    fn is_lowercase(self) -> (r: bool) {
        proof {
            self.lemma_of_code();
        }
        char_is_lowercase(self.to_char())
    }

    fn is_uppercase(self) -> (r: bool) {
        proof {
            self.lemma_of_code();
        }
        char_is_uppercase(self.to_char())
    }

    fn is_whitespace(self) -> (r: bool) {
        proof {
            self.lemma_of_code();
        }
        char_is_whitespace(self.to_char())
    }

    fn is_ascii(self) -> (r: bool) {
        proof {
            self.lemma_of_code();
        }
        self.is_ascii()
    }
}

impl Textual for char {

}

impl UnicodeScalar for char {
    open spec fn scalar_value(self) -> char {
        self
    }

    open spec fn well_formed(self) -> bool {
        true
    }

    open spec fn holds(c: char) -> bool {
        true
    }

    open spec fn of_scalar(c: char) -> Self {
        c
    }

    proof fn lemma_of_scalar(c: char) {
    }

    proof fn lemma_scalar_held(self) {
    }

    open spec fn max_code() -> u32 {
        0x10_FFFF
    }

    proof fn lemma_holds(c: char) {
        char_is_scalar(c);
    }

    fn max_scalar() -> (r: Self) {
        '\u{10FFFF}'
    }

    fn byte_len(self) -> (n: usize) {
        char_byte_len(self)
    }

    fn len_utf8(self) -> (n: usize) {
        char_len_utf8(self)
    }

    fn len_utf16(self) -> (n: usize) {
        char_len_utf16(self)
    }

    fn encode_utf8<'a>(self, dst: &'a mut [u8]) -> (r: &'a mut str) {
        char_encode_utf8(self, dst)
    }

    fn to_utf8_bytes(self) -> (r: [u8; 4]) {
        let (bytes, _n) = encode_char(self);
        assert(bytes@ =~= padded_encoding(self, 4));
        bytes
    }

    fn encode_utf16<'a>(self, dst: &'a mut [u16]) -> (r: &'a mut [u16]) {
        char_encode_utf16(self, dst)
    }

    fn to_digit(self, radix: u32) -> (r: Option<u32>) {
        char_to_digit(self, radix)
    }

    fn to_ascii_uppercase(self) -> (r: Self) {
        char_to_ascii_uppercase(self)
    }

    fn to_ascii_lowercase(self) -> (r: Self) {
        char_to_ascii_lowercase(self)
    }

    fn is_noncharacter(self) -> (r: bool) {
        is_noncharacter(self as u32)
    }

    fn is_character(self) -> (r: bool) {
        !is_noncharacter(self as u32)
    }

    fn is_digit(self, radix: u32) -> (r: bool) {
        char_to_digit(self, radix).is_some()
    }

    fn is_control(self) -> (r: bool) {
        char_is_control(self)
    }

    fn is_nul(self) -> (r: bool) {
        self == '\0'
    }

    fn is_alphabetic(self) -> (r: bool) {
        char_is_alphabetic(self)
    }

    fn is_numeric(self) -> (r: bool) {
        char_is_numeric(self)
    }

    fn is_alphanumeric(self) -> (r: bool) {
        char_is_alphabetic(self) || char_is_numeric(self)
    }

    fn is_lowercase(self) -> (r: bool) {
        char_is_lowercase(self)
    }

    fn is_uppercase(self) -> (r: bool) {
        char_is_uppercase(self)
    }

    fn is_whitespace(self) -> (r: bool) {
        char_is_whitespace(self)
    }

    fn is_ascii(self) -> (r: bool) {
        self as u32 <= 0x7F
    }
}

} // verus!
