//! Extended grapheme cluster backed by a `StaticU8String`.

use crate::unicode::char::{Char16, Char24, Char32, Char7, Char8};
use crate::unicode::egc::Egc;
use crate::unicode::string::u8string::StaticU8String;
use crate::unicode::string::strings::Strings;
use crate::unicode::utf8::utf8_width;
use std::str::Chars;
use vstd::prelude::*;
use vstd::std_specs::iter::IteratorSpec;
use vstd::utf8::*;

verus! {

/// An extended grapheme cluster backed by a [`StaticU8String`].
#[derive(Clone, Debug, PartialEq, Eq, Hash)]
pub struct StaticU8Egc<const CAP: usize>(StaticU8String<CAP>);

/// A 16-bit extended grapheme cluster, with a fixed capacity of 1 byte.
pub type Egc16 = StaticU8Egc<1>;

/// A 24-bit extended grapheme cluster, with a fixed capacity of 2 bytes.
pub type Egc24 = StaticU8Egc<2>;

/// A 32-bit extended grapheme cluster, with a fixed capacity of 3 bytes.
pub type Egc32 = StaticU8Egc<3>;

/// A 40-bit extended grapheme cluster, with a fixed capacity of 4 bytes.
pub type Egc40 = StaticU8Egc<4>;

/// A 48-bit extended grapheme cluster, with a fixed capacity of 5 bytes.
pub type Egc48 = StaticU8Egc<5>;

/// A 56-bit extended grapheme cluster, with a fixed capacity of 6 bytes.
pub type Egc56 = StaticU8Egc<6>;

/// A 64-bit extended grapheme cluster, with a fixed capacity of 7 bytes.
pub type Egc64 = StaticU8Egc<7>;

/// A 128-bit extended grapheme cluster, with a fixed capacity of 15 bytes.
pub type Egc128 = StaticU8Egc<15>;

impl<const CAP: usize> View for StaticU8Egc<CAP> {
    type V = Seq<char>;

    /// The scalars of the cluster, in order.
    open spec fn view(&self) -> Seq<char> {
        self.string()@
    }
}

impl<const CAP: usize> Strings for StaticU8Egc<CAP> {

}

impl<const CAP: usize> Egc for StaticU8Egc<CAP> {

}

impl<const CAP: usize> StaticU8Egc<CAP> {
    /// The string that holds the cluster.
    pub closed spec fn string(self) -> StaticU8String<CAP> {
        self.0
    }

    /// Creates a new empty `StaticU8Egc`.
    ///
    /// The capacity is at most 255.
    pub fn new() -> (r: Self)
        requires
            CAP <= 255,
        ensures
            r@ == Seq::<char>::empty(),
            r.string().bytes() == Seq::<u8>::empty(),
    {
        Self(StaticU8String::new())
    }

    /// Creates a new `StaticU8Egc` from a `Char7`.
    ///
    /// The capacity is at most 255 and at least the length of the scalar's
    /// UTF-8 encoding.
    #[must_use]
    pub fn from_char7(c: Char7) -> (r: Self)
        requires
            CAP <= 255,
            utf8_width(c.code()) <= CAP,
        ensures
            r.string().holds_only(c.scalar()),
    {
        Self(StaticU8String::from_char7(c))
    }

    /// Creates a new `StaticU8Egc` from a `Char8`.
    ///
    /// The capacity is at most 255 and at least the length of the scalar's
    /// UTF-8 encoding.
    #[must_use]
    pub fn from_char8(c: Char8) -> (r: Self)
        requires
            CAP <= 255,
            utf8_width(c.code()) <= CAP,
        ensures
            r.string().holds_only(c.scalar()),
    {
        Self(StaticU8String::from_char8(c))
    }

    /// Creates a new `StaticU8Egc` from a `Char16`.
    ///
    /// The capacity is at most 255 and at least the length of the scalar's
    /// UTF-8 encoding.
    #[must_use]
    pub fn from_char16(c: Char16) -> (r: Self)
        requires
            CAP <= 255,
            utf8_width(c.code()) <= CAP,
        ensures
            r.string().holds_only(c.scalar()),
    {
        Self(StaticU8String::from_char16(c))
    }

    /// Creates a new `StaticU8Egc` from a `Char24`.
    ///
    /// The capacity is at most 255 and at least the length of the scalar's
    /// UTF-8 encoding.
    #[must_use]
    pub fn from_char24(c: Char24) -> (r: Self)
        requires
            CAP <= 255,
            utf8_width(c.code()) <= CAP,
        ensures
            r.string().holds_only(c.scalar()),
    {
        Self(StaticU8String::from_char24(c))
    }

    /// Creates a new `StaticU8Egc` from a `Char32`.
    ///
    /// The capacity is at most 255 and at least the length of the scalar's
    /// UTF-8 encoding.
    #[must_use]
    pub fn from_char32(c: Char32) -> (r: Self)
        requires
            CAP <= 255,
            utf8_width(c.code()) <= CAP,
        ensures
            r.string().holds_only(c.scalar()),
    {
        Self(StaticU8String::from_char32(c))
    }

    /// Creates a new `StaticU8Egc` from a `char`.
    ///
    /// The capacity is at most 255 and at least the length of the scalar's
    /// UTF-8 encoding.
    #[must_use]
    pub fn from_char(c: char) -> (r: Self)
        requires
            CAP <= 255,
            utf8_width(c as u32) <= CAP,
        ensures
            r.string().holds_only(c),
    {
        Self::from_char32(Char32::from_char(c))
    }

    /// Returns the length in bytes.
    pub fn len(&self) -> (n: usize)
        ensures
            n == self.string().bytes().len(),
            n == encode_utf8(self@).len(),
            n <= CAP,
    {
        self.0.len()
    }

    /// Returns `true` if the current length is 0.
    pub fn is_empty(&self) -> (r: bool)
        ensures
            r == (self@.len() == 0),
            r == (self.string().bytes().len() == 0),
    {
        let _ = self.0.is_empty();
        self.0.len() == 0
    }

    /// Returns the total capacity in bytes.
    pub fn capacity() -> (n: usize)
        ensures
            n == CAP,
    {
        CAP
    }

    /// Returns the remaining capacity.
    pub fn remaining_capacity(&self) -> (n: usize)
        ensures
            n == CAP - self.string().bytes().len(),
    {
        CAP - self.len()
    }

    /// Returns `true` if the current remaining capacity is 0.
    pub fn is_full(&self) -> (r: bool)
        ensures
            r == (self.string().bytes().len() == CAP),
    {
        self.len() == CAP
    }

    /// Sets the length to 0. The bytes of the array stay.
    pub fn clear(&mut self)
        ensures
            final(self)@ == Seq::<char>::empty(),
            final(self).string().bytes() == Seq::<u8>::empty(),
    {
        self.0.clear();
    }

    /// Returns a byte slice of the inner string slice.
    pub fn as_bytes(&self) -> (r: &[u8])
        ensures
            r@ == self.string().bytes(),
            r@ == encode_utf8(self@),
            valid_utf8(r@),
    {
        self.0.as_bytes()
    }

    /// Returns a copy of the inner array with the full contents.
    ///
    /// The array contains all the bytes, including those outside the
    /// current length.
    pub fn as_array(&self) -> (r: [u8; CAP])
        ensures
            r@ == self.string().storage(),
    {
        self.0.as_array()
    }

    /// Returns the inner array with the full contents.
    ///
    /// The array contains all the bytes, including those outside the
    /// current length.
    pub fn into_array(self) -> (r: [u8; CAP])
        ensures
            r@ == self.string().storage(),
    {
        self.0.into_array()
    }

    /// Returns the inner string slice.
    pub fn as_str(&self) -> (r: &str)
        ensures
            r@ == self@,
    {
        self.0.as_str()
    }

    /// Returns an iterator over the `chars` of this grapheme cluster.
    pub fn chars(&self) -> (r: Chars<'_>)
        ensures
            r.remaining() == self@,
    {
        self.0.chars()
    }

    /// Returns the bytes of a new C-compatible, nul-terminated string: the
    /// bytes of this cluster, then one zero byte.
    ///
    /// The cluster contains no nul character.
    pub fn to_cstring(&self) -> (r: Vec<u8>)
        requires
            forall|i: int| 0 <= i < self@.len() ==> self@[i] != '\0',
        ensures
            r@ == self.string().bytes().push(0u8),
            forall|i: int| 0 <= i < self.string().bytes().len() ==> r@[i] != 0,
    {
        assert(self@ == self.0@);
        self.0.to_cstring()
    }
}

} // verus!
