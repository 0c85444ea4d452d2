//! The scalar types' own methods.

use super::{
    ascii_lower, ascii_upper, code_byte_width, digit_in_radix, is_noncharacter,
    noncharacter_code, padded_encoding, Char16, Char24, Char32, Char7, Char8,
};
use crate::error::{TextosError, TextosResult};
use crate::unicode::utf8::{encode_char, lemma_encode_scalar_shape, utf16_width, utf8_width};
use vstd::prelude::*;
use vstd::utf8::*;

verus! {

/// Returns the ASCII upper case equivalent of `c`.
pub fn char_to_ascii_uppercase(c: char) -> (r: char)
    ensures
        r == ascii_upper(c),
{
    if c >= 'a' && c <= 'z' {
        let u: u32 = c as u32 - 32;
        match std::char::from_u32(u) {
            Some(r) => r,
            None => c,
        }
    } else {
        c
    }
}

/// Returns the ASCII lower case equivalent of `c`.
pub fn char_to_ascii_lowercase(c: char) -> (r: char)
    ensures
        r == ascii_lower(c),
{
    if c >= 'A' && c <= 'Z' {
        let u: u32 = c as u32 + 32;
        match std::char::from_u32(u) {
            Some(r) => r,
            None => c,
        }
    } else {
        c
    }
}

/// Returns the value of `c` as a digit to the base `radix`, if it is one.
pub fn char_to_digit(c: char, radix: u32) -> (r: Option<u32>)
    requires
        radix <= 36,
    ensures
        r == digit_in_radix(c, radix),
{
    let u: u32 = c as u32;
    let d: u32 = if c >= '0' && c <= '9' {
        u - 48
    } else if c >= 'a' && c <= 'z' {
        u - 97 + 10
    } else if c >= 'A' && c <= 'Z' {
        u - 65 + 10
    } else {
        return None;
    };
    if d < radix {
        Some(d)
    } else {
        None
    }
}

/// Returns the number of bytes that the UTF-8 encoding of `c` takes.
pub fn char_len_utf8(c: char) -> (n: usize)
    ensures
        n == utf8_width(c as u32),
        n == encode_scalar(c as u32).len(),
        1 <= n <= 4,
{
    let u: u32 = c as u32;
    if u < 0x80 {
        1
    } else if u < 0x800 {
        2
    } else if u < 0x1_0000 {
        3
    } else {
        4
    }
}

/// Returns the number of 16-bit units that the UTF-16 encoding of `c` takes.
pub fn char_len_utf16(c: char) -> (n: usize)
    ensures
        n == utf16_width(c as u32),
{
    if (c as u32) < 0x1_0000 {
        1
    } else {
        2
    }
}

/// Returns the number of bytes that it takes to store the code point of `c`.
pub fn char_byte_len(c: char) -> (n: usize)
    ensures
        n == code_byte_width(c as u32),
{
    let u: u32 = c as u32;
    if u <= 0xFF {
        1
    } else if u <= 0xFFFF {
        2
    } else {
        3
    }
}

impl Char7 {
    /// The code point that this value stores.
    pub closed spec fn code(self) -> u32 {
        self.0 as u32
    }

    /// The value that stores the code point `code`.
    pub closed spec fn of_code(code: u32) -> Char7 {
        Char7(code as u8)
    }

    /// The scalar that this value stands for.
    pub open spec fn scalar(self) -> char {
        self.code() as char
    }

    /// True when this type can hold `c`.
    pub open spec fn fits(c: char) -> bool {
        c as u32 <= 0x7F
    }

    /// What holds of every value of this type: it is an ASCII scalar.
    #[verifier::type_invariant]
    pub open spec fn valid(self) -> bool {
        self.code() <= 0x7F
    }

    /// A value is the one that stores its own code point.
    pub broadcast proof fn lemma_of_code(self)
        requires
            self.valid(),
        ensures
            #[trigger] Char7::of_code(self.code()) == self,
            self.scalar() as u32 == self.code(),
            Char7::fits(self.scalar()),
    {
    }

    /// The value made for the code point of a scalar in range stores that
    /// code point.
    pub broadcast proof fn lemma_code_of(c: char)
        requires
            Char7::fits(c),
        ensures
            (#[trigger] Char7::of_code(c as u32)).code() == c as u32,
            Char7::of_code(c as u32).valid(),
            Char7::of_code(c as u32).scalar() == c,
    {
    }

    /// The highest scalar that a `Char7` can hold, `'\u{7F}'`.
    pub fn max() -> (r: Char7)
        ensures
            r.code() == 0x7F,
    {
        Char7(0x7F)
    }

    /// Converts this `Char7` to `u32`.
    pub fn to_u32(self) -> (r: u32)
        ensures
            r == self.code(),
            r <= 0x7F,
    {
        proof {
            use_type_invariant(self);
        }
        self.0 as u32
    }

    /// Converts this `Char7` to `char`.
    pub fn to_char(self) -> (r: char)
        ensures
            r == self.scalar(),
            Char7::fits(r),
            r as u32 == self.code(),
    {
        proof {
            use_type_invariant(self);
        }
        self.0 as char
    }

    /// Tries to convert a `char` to a `Char7`.
    ///
    /// # Errors
    /// Returns `OutOfBounds` if `c` is not an ASCII scalar.
    pub fn try_from_char(c: char) -> (r: TextosResult<Char7>)
        ensures
            Char7::fits(c) ==> r == Ok::<Char7, TextosError>(Char7::of_code(c as u32)),
            !Char7::fits(c) ==> r == Err::<Char7, TextosError>(TextosError::OutOfBounds),
    {
        if c as u32 <= 0x7F {
            Ok(Char7(c as u32 as u8))
        } else {
            Err(TextosError::OutOfBounds)
        }
    }

    /// Converts a `char` that is known to fit to a `Char7`.
    pub fn from_char_unchecked(c: char) -> (r: Char7)
        requires
            Char7::fits(c),
        ensures
            r == Char7::of_code(c as u32),
            r.code() == c as u32,
            r.scalar() == c,
    {
        Char7(c as u32 as u8)
    }

    /// Returns the number of bytes needed to store the scalar value.
    pub fn byte_len(self) -> (n: usize)
        ensures
            n == 1,
            n == code_byte_width(self.code()),
    {
        1
    }

    /// Returns the number of bytes needed to encode in UTF-8.
    pub fn len_utf8(self) -> (n: usize)
        ensures
            n == 1,
            n == utf8_width(self.code()),
    {
        proof {
            use_type_invariant(self);
        }
        1
    }

    /// Returns the number of 16-bit units needed to encode in UTF-16.
    pub fn len_utf16(self) -> (n: usize)
        ensures
            n == 1,
            n == utf16_width(self.code()),
    {
        1
    }

    /// Converts this scalar to its UTF-8 encoding, which is one byte.
    pub fn to_utf8_bytes(self) -> (r: [u8; 1])
        ensures
            r@ == encode_scalar(self.code()),
            r@ == padded_encoding(self.scalar(), 1),
    {
        proof {
            use_type_invariant(self);
            lemma_encode_scalar_shape(self.scalar());
        }
        let r = [self.0];
        assert(r@ =~= encode_scalar(self.code()));
        assert(r@ =~= padded_encoding(self.scalar(), 1));
        r
    }

    /// Converts the scalar to a digit in the given radix.
    ///
    /// `radix` is at most 36.
    pub fn to_digit(self, radix: u32) -> (r: Option<u32>)
        requires
            radix <= 36,
        ensures
            r == digit_in_radix(self.scalar(), radix),
    {
        char_to_digit(self.to_char(), radix)
    }

    /// Checks if the scalar is a digit in the given radix.
    ///
    /// `radix` is at most 36.
    pub fn is_digit(self, radix: u32) -> (r: bool)
        requires
            radix <= 36,
        ensures
            r == digit_in_radix(self.scalar(), radix).is_some(),
    {
        match self.to_digit(radix) {
            Some(_) => true,
            None => false,
        }
    }

    /// Makes a copy of the value in its ASCII upper case equivalent.
    pub fn to_ascii_uppercase(self) -> (r: Char7)
        ensures
            r.scalar() == ascii_upper(self.scalar()),
    {
        proof {
            use_type_invariant(self);
        }
        Self::from_char_unchecked(char_to_ascii_uppercase(self.to_char()))
    }

    /// Makes a copy of the value in its ASCII lower case equivalent.
    pub fn to_ascii_lowercase(self) -> (r: Char7)
        ensures
            r.scalar() == ascii_lower(self.scalar()),
    {
        proof {
            use_type_invariant(self);
        }
        Self::from_char_unchecked(char_to_ascii_lowercase(self.to_char()))
    }

    /// Returns `true` if this scalar is a noncharacter: never, for ASCII.
    pub fn is_noncharacter(self) -> (r: bool)
        ensures
            r == noncharacter_code(self.code()),
            !r,
    {
        proof {
            use_type_invariant(self);
        }
        is_noncharacter(self.0 as u32)
    }

    /// Returns `true` if this scalar is an abstract character.
    pub fn is_character(self) -> (r: bool)
        ensures
            r == !noncharacter_code(self.code()),
    {
        !self.is_noncharacter()
    }

    /// Returns `true` if this scalar is the nul character.
    pub fn is_nul(self) -> (r: bool)
        ensures
            r == (self.code() == 0),
            r == (self.scalar() == '\0'),
    {
        proof {
            use_type_invariant(self);
        }
        self.0 == 0
    }

    /// Checks if the value is within the ASCII range: always.
    pub fn is_ascii(self) -> (r: bool)
        ensures
            r == (self.code() <= 0x7F),
            r,
    {
        proof {
            use_type_invariant(self);
        }
        self.0 <= 0x7F
    }
}

impl Char8 {
    /// The code point that this value stores.
    pub closed spec fn code(self) -> u32 {
        self.0 as u32
    }

    /// The value that stores the code point `code`.
    pub closed spec fn of_code(code: u32) -> Char8 {
        Char8(code as u8)
    }

    /// The scalar that this value stands for.
    pub open spec fn scalar(self) -> char {
        self.code() as char
    }

    /// True when this type can hold `c`.
    pub open spec fn fits(c: char) -> bool {
        c as u32 <= 0xFF
    }

    /// What holds of every value of this type: nothing more than its type says.
    pub open spec fn valid(self) -> bool {
        true
    }

    /// A value is the one that stores its own code point.
    pub broadcast proof fn lemma_of_code(self)
        requires
            self.valid(),
        ensures
            #[trigger] Char8::of_code(self.code()) == self,
            self.scalar() as u32 == self.code(),
            Char8::fits(self.scalar()),
    {
    }

    /// The value made for the code point of a scalar in range stores that
    /// code point.
    pub broadcast proof fn lemma_code_of(c: char)
        requires
            Char8::fits(c),
        ensures
            (#[trigger] Char8::of_code(c as u32)).code() == c as u32,
            Char8::of_code(c as u32).valid(),
            Char8::of_code(c as u32).scalar() == c,
    {
    }

    /// The highest scalar that a `Char8` can hold, `'\u{FF}'`.
    pub fn max() -> (r: Char8)
        ensures
            r.code() == 0xFF,
    {
        Char8(0xFF)
    }

    /// Converts this `Char8` to `u32`.
    pub fn to_u32(self) -> (r: u32)
        ensures
            r == self.code(),
    {
        self.0 as u32
    }

    /// Converts this `Char8` to `char`.
    pub fn to_char(self) -> (r: char)
        ensures
            r == self.scalar(),
            Char8::fits(r),
            r as u32 == self.code(),
    {
        self.0 as char
    }

    /// Tries to convert a `char` to a `Char8`.
    ///
    /// # Errors
    /// Returns `OutOfBounds` if `c` is above `'\u{FF}'`.
    pub fn try_from_char(c: char) -> (r: TextosResult<Char8>)
        ensures
            Char8::fits(c) ==> r == Ok::<Char8, TextosError>(Char8::of_code(c as u32)),
            !Char8::fits(c) ==> r == Err::<Char8, TextosError>(TextosError::OutOfBounds),
    {
        if c as u32 <= 0xFF {
            Ok(Char8(c as u32 as u8))
        } else {
            Err(TextosError::OutOfBounds)
        }
    }

    /// Converts a `char` that is known to fit to a `Char8`.
    pub fn from_char_unchecked(c: char) -> (r: Char8)
        requires
            Char8::fits(c),
        ensures
            r == Char8::of_code(c as u32),
            r.code() == c as u32,
            r.scalar() == c,
    {
        Char8(c as u32 as u8)
    }

    /// Returns the number of bytes needed to store the scalar value.
    pub fn byte_len(self) -> (n: usize)
        ensures
            n == code_byte_width(self.code()),
    {
        char_byte_len(self.to_char())
    }

    /// Returns the number of bytes needed to encode in UTF-8.
    pub fn len_utf8(self) -> (n: usize)
        ensures
            n == utf8_width(self.code()),
    {
        char_len_utf8(self.to_char())
    }

    /// Returns the number of 16-bit units needed to encode in UTF-16.
    pub fn len_utf16(self) -> (n: usize)
        ensures
            n == utf16_width(self.code()),
    {
        char_len_utf16(self.to_char())
    }

    /// Converts this scalar to its UTF-8 encoding, in 2 bytes.
    ///
    /// The encoding may be shorter. The bytes after it are 0.
    pub fn to_utf8_bytes(self) -> (r: [u8; 2])
        ensures
            r@ == padded_encoding(self.scalar(), 2),
    {
        let (bytes, _n) = encode_char(self.to_char());
        let r = [bytes[0], bytes[1]];
        assert(r@ =~= padded_encoding(self.scalar(), 2));
        r
    }

    /// Converts the scalar to a digit in the given radix.
    ///
    /// `radix` is at most 36.
    pub fn to_digit(self, radix: u32) -> (r: Option<u32>)
        requires
            radix <= 36,
        ensures
            r == digit_in_radix(self.scalar(), radix),
    {
        char_to_digit(self.to_char(), radix)
    }

    /// Checks if the scalar is a digit in the given radix.
    ///
    /// `radix` is at most 36.
    pub fn is_digit(self, radix: u32) -> (r: bool)
        requires
            radix <= 36,
        ensures
            r == digit_in_radix(self.scalar(), radix).is_some(),
    {
        match self.to_digit(radix) {
            Some(_) => true,
            None => false,
        }
    }

    /// Makes a copy of the value in its ASCII upper case equivalent.
    pub fn to_ascii_uppercase(self) -> (r: Char8)
        ensures
            r.scalar() == ascii_upper(self.scalar()),
    {
        Self::from_char_unchecked(char_to_ascii_uppercase(self.to_char()))
    }

    /// Makes a copy of the value in its ASCII lower case equivalent.
    pub fn to_ascii_lowercase(self) -> (r: Char8)
        ensures
            r.scalar() == ascii_lower(self.scalar()),
    {
        Self::from_char_unchecked(char_to_ascii_lowercase(self.to_char()))
    }

    /// Returns `true` if this scalar is a noncharacter.
    pub fn is_noncharacter(self) -> (r: bool)
        ensures
            r == noncharacter_code(self.code()),
    {
        is_noncharacter(self.to_u32())
    }

    /// Returns `true` if this scalar is an abstract character.
    pub fn is_character(self) -> (r: bool)
        ensures
            r == !noncharacter_code(self.code()),
    {
        !self.is_noncharacter()
    }

    /// Returns `true` if this scalar is the nul character.
    pub fn is_nul(self) -> (r: bool)
        ensures
            r == (self.code() == 0),
            r == (self.scalar() == '\0'),
    {
        self.to_u32() == 0
    }

    /// Checks if the value is within the ASCII range.
    pub fn is_ascii(self) -> (r: bool)
        ensures
            r == (self.code() <= 0x7F),
    {
        self.to_u32() <= 0x7F
    }
}

impl Char16 {
    /// The code point that this value stores.
    pub closed spec fn code(self) -> u32 {
        self.0 as u32
    }

    /// The value that stores the code point `code`.
    pub closed spec fn of_code(code: u32) -> Char16 {
        Char16(code as u16)
    }

    /// The scalar that this value stands for.
    pub open spec fn scalar(self) -> char {
        self.code() as char
    }

    /// True when this type can hold `c`.
    pub open spec fn fits(c: char) -> bool {
        c as u32 <= 0xFFFF
    }

    /// What holds of every value of this type: it is no surrogate code point.
    #[verifier::type_invariant]
    pub open spec fn valid(self) -> bool {
        !(0xD800 <= self.code() <= 0xDFFF)
    }

    /// A value is the one that stores its own code point.
    pub broadcast proof fn lemma_of_code(self)
        requires
            self.valid(),
        ensures
            #[trigger] Char16::of_code(self.code()) == self,
            self.scalar() as u32 == self.code(),
            Char16::fits(self.scalar()),
    {
    }

    /// The value made for the code point of a scalar in range stores that
    /// code point.
    pub broadcast proof fn lemma_code_of(c: char)
        requires
            Char16::fits(c),
        ensures
            (#[trigger] Char16::of_code(c as u32)).code() == c as u32,
            Char16::of_code(c as u32).valid(),
            Char16::of_code(c as u32).scalar() == c,
    {
    }

    /// The highest scalar that a `Char16` can hold, `'\u{FFFF}'`.
    pub fn max() -> (r: Char16)
        ensures
            r.code() == 0xFFFF,
    {
        Char16(0xFFFF)
    }

    /// `U+FFFD REPLACEMENT CHARACTER`, which stands for a decoding error.
    pub fn replacement_character() -> (r: Char16)
        ensures
            r.code() == 0xFFFD,
    {
        Char16(0xFFFD)
    }

    /// Converts this `Char16` to `u32`.
    pub fn to_u32(self) -> (r: u32)
        ensures
            r == self.code(),
    {
        self.0 as u32
    }

    /// Converts this `Char16` to `char`.
    pub fn to_char(self) -> (r: char)
        ensures
            r == self.scalar(),
            Char16::fits(r),
            r as u32 == self.code(),
    {
        proof {
            use_type_invariant(self);
        }
        match std::char::from_u32(self.0 as u32) {
            Some(c) => c,
            None => '\0',
        }
    }

    /// Tries to convert a `char` to a `Char16`.
    ///
    /// # Errors
    /// Returns `OutOfBounds` if `c` is above `'\u{FFFF}'`.
    pub fn try_from_char(c: char) -> (r: TextosResult<Char16>)
        ensures
            Char16::fits(c) ==> r == Ok::<Char16, TextosError>(Char16::of_code(c as u32)),
            !Char16::fits(c) ==> r == Err::<Char16, TextosError>(TextosError::OutOfBounds),
    {
        if c as u32 <= 0xFFFF {
            Ok(Char16(c as u32 as u16))
        } else {
            Err(TextosError::OutOfBounds)
        }
    }

    /// Converts a `char` that is known to fit to a `Char16`.
    pub fn from_char_unchecked(c: char) -> (r: Char16)
        requires
            Char16::fits(c),
        ensures
            r == Char16::of_code(c as u32),
            r.code() == c as u32,
            r.scalar() == c,
    {
        Char16(c as u32 as u16)
    }

    /// Returns the number of bytes needed to store the scalar value.
    pub fn byte_len(self) -> (n: usize)
        ensures
            n == code_byte_width(self.code()),
    {
        char_byte_len(self.to_char())
    }

    /// Returns the number of bytes needed to encode in UTF-8.
    pub fn len_utf8(self) -> (n: usize)
        ensures
            n == utf8_width(self.code()),
    {
        char_len_utf8(self.to_char())
    }

    /// Returns the number of 16-bit units needed to encode in UTF-16.
    pub fn len_utf16(self) -> (n: usize)
        ensures
            n == utf16_width(self.code()),
    {
        char_len_utf16(self.to_char())
    }

    /// Converts this scalar to its UTF-8 encoding, in 3 bytes.
    ///
    /// The encoding may be shorter. The bytes after it are 0.
    pub fn to_utf8_bytes(self) -> (r: [u8; 3])
        ensures
            r@ == padded_encoding(self.scalar(), 3),
    {
        let (bytes, _n) = encode_char(self.to_char());
        let r = [bytes[0], bytes[1], bytes[2]];
        assert(r@ =~= padded_encoding(self.scalar(), 3));
        r
    }

    /// Converts the scalar to a digit in the given radix.
    ///
    /// `radix` is at most 36.
    pub fn to_digit(self, radix: u32) -> (r: Option<u32>)
        requires
            radix <= 36,
        ensures
            r == digit_in_radix(self.scalar(), radix),
    {
        char_to_digit(self.to_char(), radix)
    }

    /// Checks if the scalar is a digit in the given radix.
    ///
    /// `radix` is at most 36.
    pub fn is_digit(self, radix: u32) -> (r: bool)
        requires
            radix <= 36,
        ensures
            r == digit_in_radix(self.scalar(), radix).is_some(),
    {
        match self.to_digit(radix) {
            Some(_) => true,
            None => false,
        }
    }

    /// Makes a copy of the value in its ASCII upper case equivalent.
    pub fn to_ascii_uppercase(self) -> (r: Char16)
        ensures
            r.scalar() == ascii_upper(self.scalar()),
    {
        Self::from_char_unchecked(char_to_ascii_uppercase(self.to_char()))
    }

    /// Makes a copy of the value in its ASCII lower case equivalent.
    pub fn to_ascii_lowercase(self) -> (r: Char16)
        ensures
            r.scalar() == ascii_lower(self.scalar()),
    {
        Self::from_char_unchecked(char_to_ascii_lowercase(self.to_char()))
    }

    /// Returns `true` if this scalar is a noncharacter.
    pub fn is_noncharacter(self) -> (r: bool)
        ensures
            r == noncharacter_code(self.code()),
    {
        is_noncharacter(self.to_u32())
    }

    /// Returns `true` if this scalar is an abstract character.
    pub fn is_character(self) -> (r: bool)
        ensures
            r == !noncharacter_code(self.code()),
    {
        !self.is_noncharacter()
    }

    /// Returns `true` if this scalar is the nul character.
    pub fn is_nul(self) -> (r: bool)
        ensures
            r == (self.code() == 0),
            r == (self.scalar() == '\0'),
    {
        proof {
            use_type_invariant(self);
        }
        self.to_u32() == 0
    }

    /// Checks if the value is within the ASCII range.
    pub fn is_ascii(self) -> (r: bool)
        ensures
            r == (self.code() <= 0x7F),
    {
        self.to_u32() <= 0x7F
    }
}

impl Char24 {
    /// The code point that this value stores.
    pub closed spec fn code(self) -> u32 {
        (self.hi as u32 * 0x1_0000 + self.mi as u32 * 0x100 + self.lo as u32) as u32
    }

    /// The value that stores the code point `code`.
    pub closed spec fn of_code(code: u32) -> Char24 {
        Char24 {
            hi: (code / 0x1_0000) as u8,
            mi: ((code / 0x100) % 0x100) as u8,
            lo: (code % 0x100) as u8,
        }
    }

    /// The scalar that this value stands for.
    pub open spec fn scalar(self) -> char {
        self.code() as char
    }

    /// True when this type can hold `c`.
    pub open spec fn fits(c: char) -> bool {
        true
    }

    /// What holds of every value of this type: its three bytes hold a scalar.
    #[verifier::type_invariant]
    pub open spec fn valid(self) -> bool {
        is_scalar(self.code())
    }

    /// A value is the one that stores its own code point.
    pub broadcast proof fn lemma_of_code(self)
        requires
            self.valid(),
        ensures
            #[trigger] Char24::of_code(self.code()) == self,
            self.scalar() as u32 == self.code(),
            Char24::fits(self.scalar()),
    {
    }

    /// The value made for the code point of a scalar in range stores that
    /// code point.
    pub broadcast proof fn lemma_code_of(c: char)
        requires
            Char24::fits(c),
        ensures
            (#[trigger] Char24::of_code(c as u32)).code() == c as u32,
            Char24::of_code(c as u32).valid(),
            Char24::of_code(c as u32).scalar() == c,
    {
    }

    /// The highest scalar that a `Char24` can hold, `'\u{10FFFF}'`.
    pub fn max() -> (r: Char24)
        ensures
            r.code() == 0x10_FFFF,
    {
        Char24 { hi: 0x10, mi: 0xFF, lo: 0xFF }
    }

    /// `U+FFFD REPLACEMENT CHARACTER`, which stands for a decoding error.
    pub fn replacement_character() -> (r: Char24)
        ensures
            r.code() == 0xFFFD,
    {
        Char24 { hi: 0x00, mi: 0xFF, lo: 0xFD }
    }

    /// Converts this `Char24` to `u32`.
    pub fn to_u32(self) -> (r: u32)
        ensures
            r == self.code(),
    {
        self.hi as u32 * 0x1_0000 + self.mi as u32 * 0x100 + self.lo as u32
    }

    /// Converts this `Char24` to `char`.
    pub fn to_char(self) -> (r: char)
        ensures
            r == self.scalar(),
            Char24::fits(r),
            r as u32 == self.code(),
    {
        proof {
            use_type_invariant(self);
        }
        match std::char::from_u32(self.to_u32()) {
            Some(c) => c,
            None => '\0',
        }
    }

    /// Converts a `char` to a `Char24`.
    pub fn from_char(c: char) -> (r: Char24)
        ensures
            r == Char24::of_code(c as u32),
            r.code() == c as u32,
            r.scalar() == c,
    {
        let u: u32 = c as u32;
        Char24 {
            hi: (u / 0x1_0000) as u8,
            mi: ((u / 0x100) % 0x100) as u8,
            lo: (u % 0x100) as u8,
        }
    }

    /// Returns the number of bytes needed to store the scalar value.
    pub fn byte_len(self) -> (n: usize)
        ensures
            n == code_byte_width(self.code()),
    {
        char_byte_len(self.to_char())
    }

    /// Returns the number of bytes needed to encode in UTF-8.
    pub fn len_utf8(self) -> (n: usize)
        ensures
            n == utf8_width(self.code()),
    {
        char_len_utf8(self.to_char())
    }

    /// Returns the number of 16-bit units needed to encode in UTF-16.
    pub fn len_utf16(self) -> (n: usize)
        ensures
            n == utf16_width(self.code()),
    {
        char_len_utf16(self.to_char())
    }

    /// Converts this scalar to its UTF-8 encoding, in 4 bytes.
    ///
    /// The encoding may be shorter. The bytes after it are 0.
    pub fn to_utf8_bytes(self) -> (r: [u8; 4])
        ensures
            r@ == padded_encoding(self.scalar(), 4),
    {
        let (bytes, _n) = encode_char(self.to_char());
        assert(bytes@ =~= padded_encoding(self.scalar(), 4));
        bytes
    }

    /// Converts the scalar to a digit in the given radix.
    ///
    /// `radix` is at most 36.
    pub fn to_digit(self, radix: u32) -> (r: Option<u32>)
        requires
            radix <= 36,
        ensures
            r == digit_in_radix(self.scalar(), radix),
    {
        char_to_digit(self.to_char(), radix)
    }

    /// Checks if the scalar is a digit in the given radix.
    ///
    /// `radix` is at most 36.
    pub fn is_digit(self, radix: u32) -> (r: bool)
        requires
            radix <= 36,
        ensures
            r == digit_in_radix(self.scalar(), radix).is_some(),
    {
        match self.to_digit(radix) {
            Some(_) => true,
            None => false,
        }
    }

    /// Makes a copy of the value in its ASCII upper case equivalent.
    pub fn to_ascii_uppercase(self) -> (r: Char24)
        ensures
            r.scalar() == ascii_upper(self.scalar()),
    {
        Self::from_char(char_to_ascii_uppercase(self.to_char()))
    }

    /// Makes a copy of the value in its ASCII lower case equivalent.
    pub fn to_ascii_lowercase(self) -> (r: Char24)
        ensures
            r.scalar() == ascii_lower(self.scalar()),
    {
        Self::from_char(char_to_ascii_lowercase(self.to_char()))
    }

    /// Returns `true` if this scalar is a noncharacter.
    pub fn is_noncharacter(self) -> (r: bool)
        ensures
            r == noncharacter_code(self.code()),
    {
        is_noncharacter(self.to_u32())
    }

    /// Returns `true` if this scalar is an abstract character.
    pub fn is_character(self) -> (r: bool)
        ensures
            r == !noncharacter_code(self.code()),
    {
        !self.is_noncharacter()
    }

    /// Returns `true` if this scalar is the nul character.
    pub fn is_nul(self) -> (r: bool)
        ensures
            r == (self.code() == 0),
            r == (self.scalar() == '\0'),
    {
        proof {
            use_type_invariant(self);
        }
        self.to_u32() == 0
    }

    /// Checks if the value is within the ASCII range.
    pub fn is_ascii(self) -> (r: bool)
        ensures
            r == (self.code() <= 0x7F),
    {
        self.to_u32() <= 0x7F
    }
}

impl Char32 {
    /// The code point that this value stores.
    pub closed spec fn code(self) -> u32 {
        self.0 as u32
    }

    /// The value that stores the code point `code`.
    pub closed spec fn of_code(code: u32) -> Char32 {
        Char32(code as char)
    }

    /// The scalar that this value stands for.
    pub open spec fn scalar(self) -> char {
        self.code() as char
    }

    /// True when this type can hold `c`.
    pub open spec fn fits(c: char) -> bool {
        true
    }

    /// What holds of every value of this type: nothing more than its type says.
    pub open spec fn valid(self) -> bool {
        true
    }

    /// A value is the one that stores its own code point.
    pub broadcast proof fn lemma_of_code(self)
        requires
            self.valid(),
        ensures
            #[trigger] Char32::of_code(self.code()) == self,
            self.scalar() as u32 == self.code(),
            Char32::fits(self.scalar()),
    {
    }

    /// The value made for the code point of a scalar in range stores that
    /// code point.
    pub broadcast proof fn lemma_code_of(c: char)
        requires
            Char32::fits(c),
        ensures
            (#[trigger] Char32::of_code(c as u32)).code() == c as u32,
            Char32::of_code(c as u32).valid(),
            Char32::of_code(c as u32).scalar() == c,
    {
    }

    /// The highest scalar that a `Char32` can hold, `'\u{10FFFF}'`.
    pub fn max() -> (r: Char32)
        ensures
            r.code() == 0x10_FFFF,
    {
        Char32('\u{10FFFF}')
    }

    /// `U+FFFD REPLACEMENT CHARACTER`, which stands for a decoding error.
    pub fn replacement_character() -> (r: Char32)
        ensures
            r.code() == 0xFFFD,
    {
        Char32('\u{FFFD}')
    }

    /// Converts this `Char32` to `u32`.
    pub fn to_u32(self) -> (r: u32)
        ensures
            r == self.code(),
    {
        self.0 as u32
    }

    /// Converts this `Char32` to `char`.
    pub fn to_char(self) -> (r: char)
        ensures
            r == self.scalar(),
            Char32::fits(r),
            r as u32 == self.code(),
    {
        self.0
    }

    /// Converts a `char` to a `Char32`.
    pub fn from_char(c: char) -> (r: Char32)
        ensures
            r == Char32::of_code(c as u32),
            r.code() == c as u32,
            r.scalar() == c,
    {
        Char32(c)
    }

    /// Returns the number of bytes needed to store the scalar value.
    pub fn byte_len(self) -> (n: usize)
        ensures
            n == code_byte_width(self.code()),
    {
        char_byte_len(self.to_char())
    }

    /// Returns the number of bytes needed to encode in UTF-8.
    pub fn len_utf8(self) -> (n: usize)
        ensures
            n == utf8_width(self.code()),
    {
        char_len_utf8(self.to_char())
    }

    /// Returns the number of 16-bit units needed to encode in UTF-16.
    pub fn len_utf16(self) -> (n: usize)
        ensures
            n == utf16_width(self.code()),
    {
        char_len_utf16(self.to_char())
    }

    /// Converts this scalar to its UTF-8 encoding, in 4 bytes.
    ///
    /// The encoding may be shorter. The bytes after it are 0.
    pub fn to_utf8_bytes(self) -> (r: [u8; 4])
        ensures
            r@ == padded_encoding(self.scalar(), 4),
    {
        let (bytes, _n) = encode_char(self.to_char());
        assert(bytes@ =~= padded_encoding(self.scalar(), 4));
        bytes
    }

    /// Converts the scalar to a digit in the given radix.
    ///
    /// `radix` is at most 36.
    pub fn to_digit(self, radix: u32) -> (r: Option<u32>)
        requires
            radix <= 36,
        ensures
            r == digit_in_radix(self.scalar(), radix),
    {
        char_to_digit(self.to_char(), radix)
    }

    /// Checks if the scalar is a digit in the given radix.
    ///
    /// `radix` is at most 36.
    pub fn is_digit(self, radix: u32) -> (r: bool)
        requires
            radix <= 36,
        ensures
            r == digit_in_radix(self.scalar(), radix).is_some(),
    {
        match self.to_digit(radix) {
            Some(_) => true,
            None => false,
        }
    }

    /// Makes a copy of the value in its ASCII upper case equivalent.
    pub fn to_ascii_uppercase(self) -> (r: Char32)
        ensures
            r.scalar() == ascii_upper(self.scalar()),
    {
        Self::from_char(char_to_ascii_uppercase(self.to_char()))
    }

    /// Makes a copy of the value in its ASCII lower case equivalent.
    pub fn to_ascii_lowercase(self) -> (r: Char32)
        ensures
            r.scalar() == ascii_lower(self.scalar()),
    {
        Self::from_char(char_to_ascii_lowercase(self.to_char()))
    }

    /// Returns `true` if this scalar is a noncharacter.
    pub fn is_noncharacter(self) -> (r: bool)
        ensures
            r == noncharacter_code(self.code()),
    {
        is_noncharacter(self.to_u32())
    }

    /// Returns `true` if this scalar is an abstract character.
    pub fn is_character(self) -> (r: bool)
        ensures
            r == !noncharacter_code(self.code()),
    {
        !self.is_noncharacter()
    }

    /// Returns `true` if this scalar is the nul character.
    pub fn is_nul(self) -> (r: bool)
        ensures
            r == (self.code() == 0),
            r == (self.scalar() == '\0'),
    {
        self.to_u32() == 0
    }

    /// Checks if the value is within the ASCII range.
    pub fn is_ascii(self) -> (r: bool)
        ensures
            r == (self.code() <= 0x7F),
    {
        self.to_u32() <= 0x7F
    }
}

} // verus!
