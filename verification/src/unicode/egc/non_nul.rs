//! Extended grapheme cluster backed by a `StaticNonNulString`.

use crate::unicode::char::{Char16, Char24, Char32, Char7, Char8};
use crate::unicode::egc::Egc;
use crate::unicode::string::non_nul::StaticNonNulString;
use crate::unicode::string::strings::Strings;
use crate::unicode::utf8::utf8_width;
use std::str::Chars;
use vstd::prelude::*;
use vstd::std_specs::iter::IteratorSpec;
use vstd::utf8::*;

verus! {

/// An extended grapheme cluster backed by a [`StaticNonNulString`].
#[derive(Clone, Debug, PartialEq, Eq, Hash, PartialOrd, Ord)]
pub struct StaticNonNulEgc<const CAP: usize>(StaticNonNulString<CAP>);

/// An 8-bit extended grapheme cluster, with a fixed capacity of 1 byte, that can't contain nul characters.
pub type NonNulEgc8 = StaticNonNulEgc<1>;

/// A 16-bit extended grapheme cluster, with a fixed capacity of 2 bytes, that can't contain nul characters.
pub type NonNulEgc16 = StaticNonNulEgc<2>;

/// A 24-bit extended grapheme cluster, with a fixed capacity of 3 bytes, that can't contain nul characters.
pub type NonNulEgc24 = StaticNonNulEgc<3>;

/// A 32-bit extended grapheme cluster, with a fixed capacity of 4 bytes, that can't contain nul characters.
pub type NonNulEgc32 = StaticNonNulEgc<4>;

/// A 40-bit extended grapheme cluster, with a fixed capacity of 5 bytes, that can't contain nul characters.
pub type NonNulEgc40 = StaticNonNulEgc<5>;

/// A 48-bit extended grapheme cluster, with a fixed capacity of 6 bytes, that can't contain nul characters.
pub type NonNulEgc48 = StaticNonNulEgc<6>;

/// A 56-bit extended grapheme cluster, with a fixed capacity of 7 bytes, that can't contain nul characters.
pub type NonNulEgc56 = StaticNonNulEgc<7>;

/// A 64-bit extended grapheme cluster, with a fixed capacity of 8 bytes, that can't contain nul characters.
pub type NonNulEgc64 = StaticNonNulEgc<8>;

/// A 128-bit extended grapheme cluster, with a fixed capacity of 16 bytes, that can't contain nul characters.
pub type NonNulEgc128 = StaticNonNulEgc<16>;

impl<const CAP: usize> View for StaticNonNulEgc<CAP> {
    type V = Seq<char>;

    /// The scalars of the cluster, in order.
    open spec fn view(&self) -> Seq<char> {
        self.string()@
    }
}

impl<const CAP: usize> Strings for StaticNonNulEgc<CAP> {

}

impl<const CAP: usize> Egc for StaticNonNulEgc<CAP> {

}

impl<const CAP: usize> StaticNonNulEgc<CAP> {
    /// The string that holds the cluster.
    pub closed spec fn string(self) -> StaticNonNulString<CAP> {
        self.0
    }

    /// Creates a new empty `StaticNonNulEgc`.
    pub fn new() -> (r: Self)
        ensures
            r@ == Seq::<char>::empty(),
            r.string().bytes() == Seq::<u8>::empty(),
    {
        Self(StaticNonNulString::new())
    }

    /// Creates a new `StaticNonNulEgc` from a `Char7`.
    ///
    /// If `c` is nul, an empty cluster is returned. If it is not, the
    /// capacity is at least the length of its UTF-8 encoding.
    #[must_use]
    pub fn from_char7(c: Char7) -> (r: Self)
        requires
            c.code() == 0 || utf8_width(c.code()) <= CAP,
        ensures
            r.string().holds_only(c.scalar()),
    {
        Self(StaticNonNulString::from_char7(c))
    }

    /// Creates a new `StaticNonNulEgc` from a `Char8`.
    ///
    /// If `c` is nul, an empty cluster is returned. If it is not, the
    /// capacity is at least the length of its UTF-8 encoding.
    #[must_use]
    pub fn from_char8(c: Char8) -> (r: Self)
        requires
            c.code() == 0 || utf8_width(c.code()) <= CAP,
        ensures
            r.string().holds_only(c.scalar()),
    {
        Self(StaticNonNulString::from_char8(c))
    }

    /// Creates a new `StaticNonNulEgc` from a `Char16`.
    ///
    /// If `c` is nul, an empty cluster is returned. If it is not, the
    /// capacity is at least the length of its UTF-8 encoding.
    #[must_use]
    pub fn from_char16(c: Char16) -> (r: Self)
        requires
            c.code() == 0 || utf8_width(c.code()) <= CAP,
        ensures
            r.string().holds_only(c.scalar()),
    {
        Self(StaticNonNulString::from_char16(c))
    }

    /// Creates a new `StaticNonNulEgc` from a `Char24`.
    ///
    /// If `c` is nul, an empty cluster is returned. If it is not, the
    /// capacity is at least the length of its UTF-8 encoding.
    #[must_use]
    pub fn from_char24(c: Char24) -> (r: Self)
        requires
            c.code() == 0 || utf8_width(c.code()) <= CAP,
        ensures
            r.string().holds_only(c.scalar()),
    {
        Self(StaticNonNulString::from_char24(c))
    }

    /// Creates a new `StaticNonNulEgc` from a `Char32`.
    ///
    /// If `c` is nul, an empty cluster is returned. If it is not, the
    /// capacity is at least the length of its UTF-8 encoding.
    #[must_use]
    pub fn from_char32(c: Char32) -> (r: Self)
        requires
            c.code() == 0 || utf8_width(c.code()) <= CAP,
        ensures
            r.string().holds_only(c.scalar()),
    {
        Self(StaticNonNulString::from_char32(c))
    }

    /// Creates a new `StaticNonNulEgc` from a `char`.
    ///
    /// If `c` is nul, an empty cluster is returned. If it is not, the
    /// capacity is at least the length of its UTF-8 encoding.
    #[must_use]
    pub fn from_char(c: char) -> (r: Self)
        requires
            c as u32 == 0 || utf8_width(c as u32) <= CAP,
        ensures
            r.string().holds_only(c),
    {
        Self::from_char32(Char32::from_char(c))
    }

    /// Returns the length in bytes.
    pub fn len(&self) -> (n: usize)
        ensures
            n == self.string().bytes().len(),
            n == encode_utf8(self@).len(),
            n <= CAP,
    {
        self.0.len()
    }

    /// Returns `true` if the current length is 0.
    pub fn is_empty(&self) -> (r: bool)
        ensures
            r == (self@.len() == 0),
            r == (self.string().bytes().len() == 0),
    {
        let _ = self.0.is_empty();
        self.0.len() == 0
    }

    /// Returns the total capacity in bytes.
    pub fn capacity() -> (n: usize)
        ensures
            n == CAP,
    {
        CAP
    }

    /// Returns the remaining capacity.
    pub fn remaining_capacity(&self) -> (n: usize)
        ensures
            n == CAP - self.string().bytes().len(),
    {
        CAP - self.len()
    }

    /// Returns `true` if the current remaining capacity is 0.
    pub fn is_full(&self) -> (r: bool)
        ensures
            r == (self.string().bytes().len() == CAP),
    {
        self.len() == CAP
    }

    /// Sets the length to 0, by resetting all bytes to 0.
    pub fn clear(&mut self)
        ensures
            final(self)@ == Seq::<char>::empty(),
            final(self).string().bytes() == Seq::<u8>::empty(),
    {
        self.0.clear();
    }

    /// Returns a byte slice of the inner string slice.
    pub fn as_bytes(&self) -> (r: &[u8])
        ensures
            r@ == self.string().bytes(),
            r@ == encode_utf8(self@),
            valid_utf8(r@),
    {
        self.0.as_bytes()
    }

    /// Returns a copy of the inner array with the full contents.
    ///
    /// The array contains all the bytes, including those outside the
    /// current length.
    pub fn as_array(&self) -> (r: [u8; CAP])
        ensures
            r@ == self.string().storage(),
    {
        self.0.as_array()
    }

    /// Returns the inner array with the full contents.
    ///
    /// The array contains all the bytes, including those outside the
    /// current length.
    pub fn into_array(self) -> (r: [u8; CAP])
        ensures
            r@ == self.string().storage(),
    {
        self.0.into_array()
    }

    /// Returns the inner string slice.
    pub fn as_str(&self) -> (r: &str)
        ensures
            r@ == self@,
    {
        self.0.as_str()
    }

    /// Returns an iterator over the `chars` of this grapheme cluster.
    pub fn chars(&self) -> (r: Chars<'_>)
        ensures
            r.remaining() == self@,
    {
        self.0.chars()
    }

    /// Returns the bytes of a new C-compatible, nul-terminated string: the
    /// bytes of this cluster, then one zero byte.
    pub fn to_cstring(&self) -> (r: Vec<u8>)
        ensures
            r@ == self.string().bytes().push(0u8),
            forall|i: int| 0 <= i < self.string().bytes().len() ==> r@[i] != 0,
    {
        self.0.to_cstring()
    }
}

impl<const CAP: usize> Default for StaticNonNulEgc<CAP> {
    /// Returns an empty extended grapheme cluster.
    fn default() -> (r: Self)
        ensures
            r@ == Seq::<char>::empty(),
    {
        Self::new()
    }
}

} // verus!
