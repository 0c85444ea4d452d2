//! `String` backed by an array, with its length in one byte.

use crate::error::{TextosError, TextosResult};
use crate::unicode::char::impls::char_len_utf8;
use crate::unicode::char::{
    char_utf8_2bytes_len, char_utf8_3bytes_len, char_utf8_4bytes_len, lemma_padded_encoding,
    Char16, Char24, Char32, Char7, Char8,
};
use crate::unicode::string::strings::Strings;
use crate::unicode::utf8::{
    decode_last, lemma_append_scalar, lemma_encode_scalar_shape, lemma_encode_utf8_nonzero,
    utf8_width, write_scalar,
};
use std::str::Chars;
use vstd::prelude::*;
use vstd::std_specs::iter::IteratorSpec;
use vstd::utf8::*;

verus! {

/// A UTF-8-encoded string, backed by an array, with a maximum capacity of
/// 255 bytes.
///
/// The current length is stored as a `u8`. The bytes of the array before
/// the length are the string's UTF-8 encoding. What the bytes from the
/// length on hold is left open.
#[derive(Clone, Copy, Debug, Hash, PartialEq, Eq, PartialOrd, Ord)]
pub struct StaticU8String<const CAP: usize> {
    arr: [u8; CAP],
    len: u8,
}

/// A 16-bit UTF-8-encoded string, with a fixed capacity of 1 byte.
pub type String16 = StaticU8String<1>;

/// A 24-bit UTF-8-encoded string, with a fixed capacity of 2 bytes.
pub type String24 = StaticU8String<2>;

/// A 32-bit UTF-8-encoded string, with a fixed capacity of 3 bytes.
pub type String32 = StaticU8String<3>;

/// A 40-bit UTF-8-encoded string, with a fixed capacity of 4 bytes.
pub type String40 = StaticU8String<4>;

/// A 48-bit UTF-8-encoded string, with a fixed capacity of 5 bytes.
pub type String48 = StaticU8String<5>;

/// A 56-bit UTF-8-encoded string, with a fixed capacity of 6 bytes.
pub type String56 = StaticU8String<6>;

/// A 64-bit UTF-8-encoded string, with a fixed capacity of 7 bytes.
pub type String64 = StaticU8String<7>;

/// A 128-bit UTF-8-encoded string, with a fixed capacity of 15 bytes.
pub type String128 = StaticU8String<15>;

/// A 256-bit UTF-8-encoded string, with a fixed capacity of 31 bytes.
pub type String256 = StaticU8String<31>;

/// A 512-bit UTF-8-encoded string, with a fixed capacity of 63 bytes.
pub type String512 = StaticU8String<63>;

/// A 1024-bit UTF-8-encoded string, with a fixed capacity of 127 bytes.
pub type String1024 = StaticU8String<127>;

/// A 2048-bit UTF-8-encoded string, with a fixed capacity of 255 bytes.
pub type String2048 = StaticU8String<255>;

impl<const CAP: usize> View for StaticU8String<CAP> {
    type V = Seq<char>;

    /// The scalars of the string, in order.
    open spec fn view(&self) -> Seq<char> {
        decode_utf8(self.bytes())
    }
}

impl<const CAP: usize> Strings for StaticU8String<CAP> {

}

impl<const CAP: usize> StaticU8String<CAP> {
    /// The bytes of the string: the array up to the length.
    pub closed spec fn bytes(self) -> Seq<u8> {
        self.arr@.subrange(0, self.len as int)
    }

    /// All the bytes of the array, those from the length on too.
    pub closed spec fn storage(self) -> Seq<u8> {
        self.arr@
    }

    /// What holds of every string: the capacity is at most 255, the length
    /// is within it, and the bytes before the length are valid UTF-8.
    #[verifier::type_invariant]
    pub closed spec fn wf(self) -> bool {
        &&& CAP <= 255
        &&& self.len as int <= CAP
        &&& valid_utf8(self.arr@.subrange(0, self.len as int))
    }

    /// True when the scalar `c` fits in what is left of the capacity.
    pub open spec fn has_room(self, c: char) -> bool {
        self.bytes().len() + utf8_width(c as u32) <= CAP
    }

    /// What `push` and `try_push` do to a string into which the scalar fits:
    /// the scalar is appended, and of the array only the bytes that take its
    /// encoding change.
    pub open spec fn pushed(self, c: char, after: Self) -> bool {
        &&& after@ == self@.push(c)
        &&& after.bytes() == self.bytes() + encode_scalar(c as u32)
        &&& after.storage() == self.storage().subrange(0, self.bytes().len() as int)
            + encode_scalar(c as u32) + self.storage().subrange(
            (self.bytes().len() + utf8_width(c as u32)) as int,
            CAP as int,
        )
    }

    /// What `pop` and `try_pop` do to a string that is not empty: the last
    /// scalar leaves, and the array stays as it is.
    pub open spec fn popped(self, after: Self) -> bool {
        &&& after@ == self@.drop_last()
        &&& after.bytes() + encode_scalar(self@.last() as u32) == self.bytes()
        &&& after.storage() == self.storage()
    }

    /// The bytes of a string are the UTF-8 encoding of its scalars, and stand
    /// at the start of the array.
    pub proof fn lemma_bytes(self)
        requires
            self.wf(),
        ensures
            CAP <= 255,
            self.bytes().len() <= CAP,
            valid_utf8(self.bytes()),
            self.bytes() == encode_utf8(self@),
            self.storage().len() == CAP,
            self.bytes() == self.storage().subrange(0, self.bytes().len() as int),
    {
        decode_utf8_encode_utf8(self.bytes());
    }

    /// Popping after a push gives the pushed scalar back and leaves the
    /// string as it was before the push: the same scalars, the same length.
    pub proof fn lemma_push_pop(self, c: char, mid: Self, end: Self)
        requires
            self.wf(),
            mid.wf(),
            end.wf(),
            self.has_room(c),
            self.pushed(c, mid),
            mid.popped(end),
        ensures
            mid@.len() > 0,
            mid@.last() == c,
            end@ == self@,
            end.bytes() == self.bytes(),
    {
        assert(self@.push(c).drop_last() =~= self@);
        self.lemma_bytes();
        end.lemma_bytes();
    }

    /// A scalar that went in made the string longer by the length of its
    /// encoding, and left that much less of the capacity.
    pub proof fn lemma_push_lengths(self, c: char, after: Self)
        requires
            self.wf(),
            after.wf(),
            self.pushed(c, after),
        ensures
            after.bytes().len() == self.bytes().len() + utf8_width(c as u32),
            CAP - after.bytes().len() == CAP - self.bytes().len() - utf8_width(c as u32),
    {
        lemma_encode_scalar_shape(c);
    }

    /// Creates a new empty `StaticU8String`.
    ///
    /// The capacity is at most 255.
    pub fn new() -> (r: Self)
        requires
            CAP <= 255,
        ensures
            r@ == Seq::<char>::empty(),
            r.bytes() == Seq::<u8>::empty(),
            r.storage() == Seq::new(CAP as nat, |i: int| 0u8),
    {
        let r = Self { arr: [0;CAP], len: 0 };
        proof {
            assert(r.bytes() =~= Seq::<u8>::empty());
            assert(r.storage() =~= Seq::new(CAP as nat, |i: int| 0u8));
        }
        r
    }

    /// True when the string holds the scalar `c` and nothing else, and the
    /// rest of the array is zero.
    pub open spec fn holds_only(self, c: char) -> bool {
        &&& self@ == seq![c]
        &&& self.bytes() == encode_scalar(c as u32)
        &&& self.storage() == encode_scalar(c as u32) + Seq::new(
            (CAP - utf8_width(c as u32)) as nat,
            |i: int| 0u8,
        )
    }

    proof fn lemma_single(arr: [u8; CAP], len: u8, c: char)
        requires
            CAP <= 255,
            len == utf8_width(c as u32),
            len <= CAP,
            forall|i: int| 0 <= i < len ==> arr@[i] == encode_scalar(c as u32)[i],
            forall|i: int| len <= i < CAP ==> arr@[i] == 0,
        ensures
            (Self { arr, len }).wf(),
            (Self { arr, len }).holds_only(c),
    {
        let s = Self { arr, len };
        let enc = encode_scalar(c as u32);
        lemma_encode_scalar_shape(c);
        assert(s.bytes() =~= enc);
        lemma_append_scalar(Seq::<u8>::empty(), c);
        assert(Seq::<u8>::empty() + enc =~= enc);
        assert(decode_utf8(Seq::<u8>::empty()) =~= Seq::<char>::empty());
        assert(Seq::<char>::empty().push(c) =~= seq![c]);
        assert(s.storage() =~= enc + Seq::new((CAP - utf8_width(c as u32)) as nat, |i: int| 0u8));
    }

    /// Creates a new `StaticU8String` from a `Char7`.
    ///
    /// The capacity is at most 255 and at least the length of the scalar's
    /// UTF-8 encoding, which is at most 1.
    pub fn from_char7(c: Char7) -> (r: Self)
        requires
            CAP <= 255,
            utf8_width(c.code()) <= CAP,
        ensures
            r.holds_only(c.scalar()),
    {
        let ch = c.to_char();
        let bytes = c.to_utf8_bytes();
        proof {
            lemma_encode_scalar_shape(ch);
            lemma_padded_encoding(ch, 1);
        }
        let len: u8 = 1;
        let mut arr = [0;CAP];
        arr[0] = bytes[0];
        proof {
            Self::lemma_single(arr, len, ch);
        }
        Self { arr, len }
    }

    /// Creates a new `StaticU8String` from a `Char8`.
    ///
    /// The capacity is at most 255 and at least the length of the scalar's
    /// UTF-8 encoding, which is at most 2.
    pub fn from_char8(c: Char8) -> (r: Self)
        requires
            CAP <= 255,
            utf8_width(c.code()) <= CAP,
        ensures
            r.holds_only(c.scalar()),
    {
        let ch = c.to_char();
        let bytes = c.to_utf8_bytes();
        proof {
            lemma_encode_scalar_shape(ch);
            lemma_padded_encoding(ch, 2);
        }
        let len = char_utf8_2bytes_len(bytes);
        let mut arr = [0;CAP];
        arr[0] = bytes[0];
        if len > 1 {
            arr[1] = bytes[1];
        }
        proof {
            Self::lemma_single(arr, len, ch);
        }
        Self { arr, len }
    }

    /// Creates a new `StaticU8String` from a `Char16`.
    ///
    /// The capacity is at most 255 and at least the length of the scalar's
    /// UTF-8 encoding, which is at most 3.
    pub fn from_char16(c: Char16) -> (r: Self)
        requires
            CAP <= 255,
            utf8_width(c.code()) <= CAP,
        ensures
            r.holds_only(c.scalar()),
    {
        let ch = c.to_char();
        let bytes = c.to_utf8_bytes();
        proof {
            lemma_encode_scalar_shape(ch);
            lemma_padded_encoding(ch, 3);
        }
        let len = char_utf8_3bytes_len(bytes);
        let mut arr = [0;CAP];
        arr[0] = bytes[0];
        if len > 1 {
            arr[1] = bytes[1];
        }
        if len > 2 {
            arr[2] = bytes[2];
        }
        proof {
            Self::lemma_single(arr, len, ch);
        }
        Self { arr, len }
    }

    /// Creates a new `StaticU8String` from a `Char24`.
    ///
    /// The capacity is at most 255 and at least the length of the scalar's
    /// UTF-8 encoding, which is at most 4.
    pub fn from_char24(c: Char24) -> (r: Self)
        requires
            CAP <= 255,
            utf8_width(c.code()) <= CAP,
        ensures
            r.holds_only(c.scalar()),
    {
        let ch = c.to_char();
        let bytes = c.to_utf8_bytes();
        proof {
            lemma_encode_scalar_shape(ch);
            lemma_padded_encoding(ch, 4);
        }
        let len = char_utf8_4bytes_len(bytes);
        let mut arr = [0;CAP];
        arr[0] = bytes[0];
        if len > 1 {
            arr[1] = bytes[1];
        }
        if len > 2 {
            arr[2] = bytes[2];
        }
        if len > 3 {
            arr[3] = bytes[3];
        }
        proof {
            Self::lemma_single(arr, len, ch);
        }
        Self { arr, len }
    }

    /// Creates a new `StaticU8String` from a `Char32`.
    ///
    /// The capacity is at most 255 and at least the length of the scalar's
    /// UTF-8 encoding, which is at most 4.
    pub fn from_char32(c: Char32) -> (r: Self)
        requires
            CAP <= 255,
            utf8_width(c.code()) <= CAP,
        ensures
            r.holds_only(c.scalar()),
    {
        let ch = c.to_char();
        let bytes = c.to_utf8_bytes();
        proof {
            lemma_encode_scalar_shape(ch);
            lemma_padded_encoding(ch, 4);
        }
        let len = char_utf8_4bytes_len(bytes);
        let mut arr = [0;CAP];
        arr[0] = bytes[0];
        if len > 1 {
            arr[1] = bytes[1];
        }
        if len > 2 {
            arr[2] = bytes[2];
        }
        if len > 3 {
            arr[3] = bytes[3];
        }
        proof {
            Self::lemma_single(arr, len, ch);
        }
        Self { arr, len }
    }

    /// Creates a new `StaticU8String` from a `char`.
    ///
    /// The capacity is at most 255 and at least the length of the scalar's
    /// UTF-8 encoding, which is at most 4.
    pub fn from_char(c: char) -> (r: Self)
        requires
            CAP <= 255,
            utf8_width(c as u32) <= CAP,
        ensures
            r.holds_only(c),
    {
        Self::from_char32(Char32::from_char(c))
    }

    /// Returns the total capacity in bytes.
    pub fn capacity() -> (n: usize)
        ensures
            n == CAP,
    {
        CAP
    }

    /// Returns the remaining capacity.
    pub fn remaining_capacity(&self) -> (n: usize)
        ensures
            n == CAP - self.bytes().len(),
    {
        proof {
            use_type_invariant(self);
        }
        CAP - self.len as usize
    }

    /// Returns the current length, in bytes.
    pub fn len(&self) -> (n: usize)
        ensures
            n == self.bytes().len(),
            n == encode_utf8(self@).len(),
            n <= CAP,
    {
        proof {
            use_type_invariant(self);
            self.lemma_bytes();
        }
        self.len as usize
    }

    /// Returns `true` if the current length is 0.
    pub fn is_empty(&self) -> (r: bool)
        ensures
            r == (self.bytes().len() == 0),
            r == (self@.len() == 0),
    {
        proof {
            use_type_invariant(self);
            self.lemma_bytes();
            if self@.len() > 0 {
                lemma_encode_scalar_shape(self@[0]);
            }
        }
        self.len == 0
    }

    /// Returns `true` if the current remaining capacity is 0.
    pub fn is_full(&self) -> (r: bool)
        ensures
            r == (self.bytes().len() == CAP),
    {
        proof {
            use_type_invariant(self);
        }
        self.len as usize == CAP
    }

    /// Sets the length to 0. The bytes of the array stay.
    pub fn clear(&mut self)
        ensures
            final(self)@ == Seq::<char>::empty(),
            final(self).bytes() == Seq::<u8>::empty(),
            final(self).storage() == old(self).storage(),
    {
        proof {
            use_type_invariant(&*self);
            assert(self.arr@.subrange(0, 0) =~= Seq::<u8>::empty());
        }
        self.len = 0;
        proof {
            assert(self.bytes() =~= Seq::<u8>::empty());
        }
    }

    /// Sets the length to 0, and resets all the bytes to 0.
    pub fn reset(&mut self)
        ensures
            final(self)@ == Seq::<char>::empty(),
            final(self).bytes() == Seq::<u8>::empty(),
            final(self).storage() == Seq::new(CAP as nat, |i: int| 0u8),
    {
        proof {
            use_type_invariant(&*self);
        }
        *self = Self::new();
    }

    /// Returns a byte slice of the inner string slice: the bytes before the
    /// length, which are valid UTF-8.
    pub fn as_bytes(&self) -> (r: &[u8])
        ensures
            r@ == self.bytes(),
            r@ == encode_utf8(self@),
            valid_utf8(r@),
    {
        proof {
            use_type_invariant(self);
            self.lemma_bytes();
        }
        let (head, _tail) = self.arr.as_slice().split_at(self.len as usize);
        assert(head@ =~= self.bytes());
        head
    }

    /// Returns a copy of the inner array with the full contents.
    ///
    /// The array contains all the bytes, including those outside the
    /// current length.
    pub fn as_array(&self) -> (r: [u8; CAP])
        ensures
            r@ == self.storage(),
    {
        self.arr
    }

    /// Returns the inner array with the full contents.
    ///
    /// The array contains all the bytes, including those outside the
    /// current length.
    pub fn into_array(self) -> (r: [u8; CAP])
        ensures
            r@ == self.storage(),
    {
        self.arr
    }

    /// Returns the inner string slice.
    pub fn as_str(&self) -> (r: &str)
        ensures
            r@ == self@,
    {
        let bytes = self.as_bytes();
        match std::str::from_utf8(bytes) {
            Ok(s) => {
                proof {
                    encode_utf8_decode_utf8(s@);
                }
                s
            },
            Err(_) => "",
        }
    }

    /// Returns an iterator over the `chars` of this string.
    pub fn chars(&self) -> (r: Chars<'_>)
        ensures
            r.remaining() == self@,
    {
        broadcast use vstd::string::group_string_axioms;

        self.as_str().chars()
    }

    /// Returns the bytes of a new C-compatible, nul-terminated string: the
    /// bytes of this string, then one zero byte.
    ///
    /// The string contains no nul character.
    pub fn to_cstring(&self) -> (r: Vec<u8>)
        requires
            forall|i: int| 0 <= i < self@.len() ==> self@[i] != '\0',
        ensures
            r@ == self.bytes().push(0u8),
            forall|i: int| 0 <= i < self.bytes().len() ==> r@[i] != 0,
    {
        proof {
            use_type_invariant(self);
            self.lemma_bytes();
            lemma_encode_utf8_nonzero(self@);
        }
        let mut v = vstd::slice::slice_to_vec(self.as_bytes());
        v.push(0);
        v
    }

    /// Removes the last character and returns it, or `None` if the string
    /// is empty.
    pub fn pop(&mut self) -> (r: Option<char>)
        ensures
            old(self)@.len() == 0 ==> r.is_none() && *final(self) == *old(self),
            old(self)@.len() > 0 ==> r == Some(old(self)@.last()) && old(self).popped(
                *final(self),
            ),
    {
        if self.is_empty() {
            None
        } else {
            Some(self.pop_unchecked())
        }
    }

    /// Removes the last character and returns it.
    ///
    /// The string is not empty.
    pub fn pop_unchecked(&mut self) -> (r: char)
        requires
            old(self)@.len() > 0,
        ensures
            r == old(self)@.last(),
            old(self).popped(*final(self)),
    {
        proof {
            use_type_invariant(&*self);
            self.lemma_bytes();
            assert(self.bytes().len() > 0) by {
                assert(decode_utf8(Seq::<u8>::empty()) =~= Seq::<char>::empty());
                if self.bytes().len() == 0 {
                    assert(self.bytes() =~= Seq::<u8>::empty());
                }
            }
        }
        let (c, start) = decode_last(self.arr.as_slice(), self.len as usize);
        proof {
            assert(self.arr@.subrange(0, start as int) + self.arr@.subrange(
                start as int,
                self.len as int,
            ) =~= self.bytes());
        }
        self.len = start as u8;
        c
    }

    /// Tries to remove the last character and return it.
    ///
    /// # Errors
    /// Returns `NotEnoughElements(1)` if the string is empty.
    pub fn try_pop(&mut self) -> (r: TextosResult<char>)
        ensures
            old(self)@.len() == 0 ==> r == Err::<char, TextosError>(
                TextosError::NotEnoughElements(1),
            ) && *final(self) == *old(self),
            old(self)@.len() > 0 ==> r == Ok::<char, TextosError>(old(self)@.last()) && old(self).popped(*final(self)),
    {
        match self.pop() {
            Some(c) => Ok(c),
            None => Err(TextosError::NotEnoughElements(1)),
        }
    }

    /// Appends to the end of the string the given `character`.
    ///
    /// Returns the number of bytes written: the length of the character's
    /// encoding if it fits in the remaining capacity, else 0, with the
    /// string left as it was.
    pub fn push(&mut self, character: char) -> (n: usize)
        ensures
            old(self).has_room(character) ==> n == utf8_width(character as u32) && old(self).pushed(character, *final(self)),
            !old(self).has_room(character) ==> n == 0 && *final(self) == *old(self),
            final(self).bytes().len() == old(self).bytes().len() + n,
    {
        match self.try_push(character) {
            Ok(n) => n,
            Err(_) => 0,
        }
    }

    /// Tries to append to the end of the string the given `character`.
    ///
    /// Returns the number of bytes written.
    ///
    /// # Errors
    /// Returns `NotEnoughCapacity`, with the length of the character's
    /// encoding, if that is more than the remaining capacity. The string is
    /// then left as it was.
    pub fn try_push(&mut self, character: char) -> (r: TextosResult<usize>)
        ensures
            old(self).has_room(character) ==> r == Ok::<usize, TextosError>(
                utf8_width(character as u32) as usize,
            ) && old(self).pushed(character, *final(self)),
            !old(self).has_room(character) ==> r == Err::<usize, TextosError>(
                TextosError::NotEnoughCapacity(utf8_width(character as u32) as usize),
            ) && *final(self) == *old(self),
            r matches Ok(n) ==> final(self).bytes().len() == old(self).bytes().len() + n,
    {
        let char_len = char_len_utf8(character);
        if self.remaining_capacity() >= char_len {
            Ok(self.push_unchecked(character))
        } else {
            Err(TextosError::NotEnoughCapacity(char_len))
        }
    }

    /// Appends to the end of the string the given `character`, which is
    /// known to fit in the remaining capacity.
    ///
    /// Returns the number of bytes written.
    pub fn push_unchecked(&mut self, character: char) -> (n: usize)
        requires
            old(self).has_room(character),
        ensures
            n == utf8_width(character as u32),
            old(self).pushed(character, *final(self)),
            final(self).bytes().len() == old(self).bytes().len() + n,
    {
        proof {
            use_type_invariant(&*self);
        }
        let beg = self.len as usize;
        let mut arr = self.arr;
        let char_len = write_scalar(&mut arr, beg, character);
        proof {
            let enc = encode_scalar(character as u32);
            lemma_encode_scalar_shape(character);
            assert(arr@.subrange(0, beg as int) =~= self.bytes());
            assert(arr@.subrange(0, beg + char_len) =~= self.bytes() + enc);
            lemma_append_scalar(self.bytes(), character);
        }
        *self = Self { arr, len: (beg + char_len) as u8 };
        char_len
    }
}

impl<const CAP: usize> std::ops::Deref for StaticU8String<CAP> {
    type Target = str;

    /// Returns the inner string slice.
    fn deref(&self) -> (r: &str)
        ensures
            r@ == self@,
    {
        self.as_str()
    }
}

} // verus!
