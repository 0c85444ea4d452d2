//! Non-nul `String` backed by an array.
//!
//! The length is not stored. It is the index of the first zero byte of the
//! array, or the capacity if no byte is zero, so every query of the length
//! scans the array. No byte is kept back for a terminator: a string can fill
//! the whole array. Every byte from the length on is zero, and removing
//! scalars puts zeros in their place.

use crate::error::{TextosError, TextosResult};
use crate::unicode::char::impls::char_len_utf8;
use crate::unicode::char::{
    char_utf8_2bytes_len, char_utf8_3bytes_len, char_utf8_4bytes_len, lemma_padded_encoding,
    Char16, Char24, Char32, Char7, Char8,
};
use crate::unicode::string::strings::Strings;
use crate::unicode::utf8::{
    decode_last, lemma_append_scalar, lemma_encode_scalar_shape, lemma_encode_utf8_concat,
    lemma_encode_single, utf8_width, write_scalar,
};
use std::str::Chars;
use vstd::prelude::*;
use vstd::std_specs::iter::IteratorSpec;
use vstd::utf8::*;

verus! {

/// The index of the first zero byte of `s`, or the length of `s` if it has
/// none.
pub open spec fn first_nul(s: Seq<u8>) -> int
    decreases s.len(),
{
    if s.len() == 0 || s[0] == 0 {
        0
    } else {
        1 + first_nul(s.drop_first())
    }
}

/// The scalars of `s` that are not nul, in order.
pub open spec fn strip_nul(s: Seq<char>) -> Seq<char>
    decreases s.len(),
{
    if s.len() == 0 {
        Seq::<char>::empty()
    } else if s[0] == '\0' {
        strip_nul(s.drop_first())
    } else {
        seq![s[0]] + strip_nul(s.drop_first())
    }
}

/// The first scalar of `s` that is not nul, if there is one.
pub open spec fn first_non_nul(s: Seq<char>) -> Option<char>
    decreases s.len(),
{
    if s.len() == 0 {
        None
    } else if s[0] == '\0' {
        first_non_nul(s.drop_first())
    } else {
        Some(s[0])
    }
}

/// The scalars of `s` that go into `room` bytes when they are taken in
/// order, nul scalars are passed over, and the first scalar that does not
/// fit ends it.
pub open spec fn fitting_prefix(s: Seq<char>, room: int) -> Seq<char>
    decreases s.len(),
{
    if s.len() == 0 {
        Seq::<char>::empty()
    } else if s[0] == '\0' {
        fitting_prefix(s.drop_first(), room)
    } else if utf8_width(s[0] as u32) <= room {
        seq![s[0]] + fitting_prefix(s.drop_first(), room - utf8_width(s[0] as u32))
    } else {
        Seq::<char>::empty()
    }
}

/// The number of bytes of `s` that are not zero.
pub open spec fn count_non_nul(s: Seq<u8>) -> nat
    decreases s.len(),
{
    if s.len() == 0 {
        0
    } else {
        count_non_nul(s.drop_last()) + if s.last() != 0 {
            1nat
        } else {
            0nat
        }
    }
}

/// Where the first zero byte is: no byte before it is zero.
pub proof fn lemma_first_nul(s: Seq<u8>)
    ensures
        0 <= first_nul(s) <= s.len(),
        forall|i: int| 0 <= i < first_nul(s) ==> s[i] != 0,
        first_nul(s) < s.len() ==> s[first_nul(s)] == 0,
    decreases s.len(),
{
    if s.len() == 0 || s[0] == 0 {
    } else {
        let t = s.drop_first();
        lemma_first_nul(t);
        assert forall|i: int| 0 <= i < first_nul(s) implies s[i] != 0 by {
            if i > 0 {
                assert(s[i] == t[i - 1]);
            }
        }
    }
}

/// An index with no zero byte before it, and a zero byte or the end at it,
/// is where the first zero byte is.
pub proof fn lemma_first_nul_is(s: Seq<u8>, n: int)
    requires
        0 <= n <= s.len(),
        forall|i: int| 0 <= i < n ==> s[i] != 0,
        n == s.len() || s[n] == 0,
    ensures
        first_nul(s) == n,
    decreases n,
{
    if n > 0 {
        let t = s.drop_first();
        assert forall|i: int| 0 <= i < n - 1 implies t[i] != 0 by {
            assert(t[i] == s[i + 1]);
        }
        lemma_first_nul_is(t, n - 1);
    }
}

/// What `push_str` takes has no nul scalar, is the start of the text
/// without its nul scalars, and goes into the room that there was.
pub proof fn lemma_fitting_prefix(s: Seq<char>, room: int)
    requires
        room >= 0,
    ensures
        forall|i: int|
            0 <= i < fitting_prefix(s, room).len() ==> #[trigger] fitting_prefix(s, room)[i]
                != '\0',
        fitting_prefix(s, room).len() <= strip_nul(s).len(),
        fitting_prefix(s, room) == strip_nul(s).subrange(0, fitting_prefix(s, room).len() as int),
        encode_utf8(fitting_prefix(s, room)).len() <= room,
    decreases s.len(),
{
    let f = fitting_prefix(s, room);
    if s.len() == 0 {
        assert(f =~= strip_nul(s).subrange(0, 0));
    } else if s[0] == '\0' {
        lemma_fitting_prefix(s.drop_first(), room);
    } else if utf8_width(s[0] as u32) <= room {
        let w = utf8_width(s[0] as u32) as int;
        let rest = fitting_prefix(s.drop_first(), room - w);
        lemma_fitting_prefix(s.drop_first(), room - w);
        lemma_encode_utf8_concat(seq![s[0]], rest);
        lemma_encode_single(s[0]);
        assert(f =~= strip_nul(s).subrange(0, f.len() as int));
    } else {
        assert(f =~= strip_nul(s).subrange(0, 0));
    }
}

/// Where the whole text without its nul scalars goes into the room,
/// `push_str` takes all of it.
pub proof fn lemma_fitting_prefix_complete(s: Seq<char>, room: int)
    requires
        encode_utf8(strip_nul(s)).len() <= room,
    ensures
        fitting_prefix(s, room) == strip_nul(s),
    decreases s.len(),
{
    if s.len() == 0 {
    } else if s[0] == '\0' {
        lemma_fitting_prefix_complete(s.drop_first(), room);
    } else {
        let rest = strip_nul(s.drop_first());
        lemma_encode_utf8_concat(seq![s[0]], rest);
        lemma_encode_single(s[0]);
        lemma_fitting_prefix_complete(s.drop_first(), room - utf8_width(s[0] as u32));
    }
}

/// The bytes of a text that are not zero are as many as the bytes of the
/// text without its nul scalars.
pub proof fn lemma_count_non_nul(s: Seq<char>)
    ensures
        count_non_nul(encode_utf8(s)) == encode_utf8(strip_nul(s)).len(),
    decreases s.len(),
{
    if s.len() == 0 {
        assert(encode_utf8(s) =~= Seq::<u8>::empty());
    } else {
        let head = encode_scalar(s[0] as u32);
        let tail = encode_utf8(s.drop_first());
        lemma_count_non_nul(s.drop_first());
        lemma_encode_scalar_shape(s[0]);
        lemma_count_non_nul_concat(head, tail);
        if s[0] == '\0' {
            assert(head.len() == 1 && head.last() == 0);
            assert(head.drop_last() =~= Seq::<u8>::empty());
            assert(count_non_nul(head.drop_last()) == 0);
            assert(count_non_nul(head) == 0);
        } else {
            lemma_count_non_nul_all(head);
            let rest = strip_nul(s.drop_first());
            lemma_encode_utf8_concat(seq![s[0]], rest);
            lemma_encode_single(s[0]);
        }
    }
}

proof fn lemma_count_non_nul_concat(a: Seq<u8>, b: Seq<u8>)
    ensures
        count_non_nul(a + b) == count_non_nul(a) + count_non_nul(b),
    decreases b.len(),
{
    if b.len() == 0 {
        assert(a + b =~= a);
    } else {
        lemma_count_non_nul_concat(a, b.drop_last());
        assert((a + b).drop_last() =~= a + b.drop_last());
    }
}

proof fn lemma_count_non_nul_all(a: Seq<u8>)
    requires
        forall|i: int| 0 <= i < a.len() ==> a[i] != 0,
    ensures
        count_non_nul(a) == a.len(),
    decreases a.len(),
{
    if a.len() > 0 {
        lemma_count_non_nul_all(a.drop_last());
    }
}

/// A UTF-8-encoded string, backed by an array of constant capacity, that
/// cannot contain nul characters.
///
/// The first zero byte in the array marks the end of the string.
#[derive(Clone, Copy, Debug, Hash, PartialEq, Eq, PartialOrd, Ord)]
pub struct StaticNonNulString<const CAP: usize> {
    arr: [u8; CAP],
}

/// An 8-bit UTF-8-encoded string, with fixed capacity of 1 byte, no nul chars.
pub type NonNulString8 = StaticNonNulString<1>;

/// A 16-bit UTF-8-encoded string, with fixed capacity of 2 bytes, no nul chars.
pub type NonNulString16 = StaticNonNulString<2>;

/// A 24-bit UTF-8-encoded string, with fixed capacity of 3 bytes, no nul chars.
pub type NonNulString24 = StaticNonNulString<3>;

/// A 32-bit UTF-8-encoded string, with fixed capacity of 4 bytes, no nul chars.
pub type NonNulString32 = StaticNonNulString<4>;

/// A 40-bit UTF-8-encoded string, with fixed capacity of 5 bytes, no nul chars.
pub type NonNulString40 = StaticNonNulString<5>;

/// A 48-bit UTF-8-encoded string, with fixed capacity of 6 bytes, no nul chars.
pub type NonNulString48 = StaticNonNulString<6>;

/// A 56-bit UTF-8-encoded string, with fixed capacity of 7 bytes, no nul chars.
pub type NonNulString56 = StaticNonNulString<7>;

/// A 64-bit UTF-8-encoded string, with fixed capacity of 8 bytes, no nul chars.
pub type NonNulString64 = StaticNonNulString<8>;

/// A 128-bit UTF-8-encoded string, with fixed capacity of 16 bytes, no nul chars.
pub type NonNulString128 = StaticNonNulString<16>;

/// A 256-bit UTF-8-encoded string, with fixed capacity of 32 bytes, no nul chars.
pub type NonNulString256 = StaticNonNulString<32>;

/// A 512-bit UTF-8-encoded string, with fixed capacity of 64 bytes, no nul chars.
pub type NonNulString512 = StaticNonNulString<64>;

/// A 1024-bit UTF-8-encoded string, with fixed capacity of 128 bytes, no nul chars.
pub type NonNulString1024 = StaticNonNulString<128>;

/// A 2048-bit UTF-8-encoded string, with fixed capacity of 256 bytes, no nul chars.
pub type NonNulString2048 = StaticNonNulString<256>;

impl<const CAP: usize> View for StaticNonNulString<CAP> {
    type V = Seq<char>;

    /// The scalars of the string, in order.
    open spec fn view(&self) -> Seq<char> {
        decode_utf8(self.bytes())
    }
}

impl<const CAP: usize> Strings for StaticNonNulString<CAP> {

}

impl<const CAP: usize> StaticNonNulString<CAP> {
    /// All the bytes of the array.
    pub closed spec fn storage(self) -> Seq<u8> {
        self.arr@
    }

    /// The bytes of the string: the array up to its first zero byte.
    pub open spec fn bytes(self) -> Seq<u8> {
        self.storage().subrange(0, first_nul(self.storage()))
    }

    /// What holds of every string: the bytes before the first zero byte are
    /// valid UTF-8, and every byte after it is zero too.
    #[verifier::type_invariant]
    pub closed spec fn wf(self) -> bool {
        &&& valid_utf8(self.arr@.subrange(0, first_nul(self.arr@)))
        &&& forall|i: int| first_nul(self.arr@) <= i < CAP ==> self.arr@[i] == 0
    }

    /// True when the scalar `c` fits in what is left of the capacity.
    pub open spec fn has_room(self, c: char) -> bool {
        self.bytes().len() + utf8_width(c as u32) <= CAP
    }

    /// What is left of the capacity, in bytes.
    pub open spec fn room(self) -> int {
        CAP - self.bytes().len()
    }

    /// What a string looks like after the scalars `added` went in at its
    /// end: their encoding follows its bytes.
    pub open spec fn extended(self, added: Seq<char>, after: Self) -> bool {
        &&& after@ == self@ + added
        &&& after.bytes() == self.bytes() + encode_utf8(added)
    }

    /// What `pop` does to a string that is not empty: the last scalar
    /// leaves, and its bytes with it.
    pub open spec fn popped(self, after: Self) -> bool {
        &&& after@ == self@.drop_last()
        &&& after.bytes() + encode_scalar(self@.last() as u32) == self.bytes()
    }

    /// The bytes of a string are the UTF-8 encoding of its scalars; none of
    /// them is zero, no scalar is nul, and the rest of the array is zero.
    pub proof fn lemma_bytes(self)
        requires
            self.wf(),
        ensures
            self.storage().len() == CAP,
            self.bytes().len() <= CAP,
            valid_utf8(self.bytes()),
            self.bytes() == encode_utf8(self@),
            forall|i: int| 0 <= i < self.bytes().len() ==> #[trigger] self.bytes()[i] != 0,
            forall|i: int| 0 <= i < self@.len() ==> #[trigger] self@[i] != '\0',
            self.storage() == self.bytes() + Seq::new(
                (CAP - self.bytes().len()) as nat,
                |i: int| 0u8,
            ),
    {
        lemma_first_nul(self.arr@);
        decode_utf8_encode_utf8(self.bytes());
        assert(self.storage() =~= self.bytes() + Seq::new(
            (CAP - self.bytes().len()) as nat,
            |i: int| 0u8,
        ));
        let chars = self@;
        assert forall|i: int| 0 <= i < chars.len() implies #[trigger] chars[i] != '\0' by {
            if chars[i] == '\0' {
                let a = chars.subrange(0, i);
                let b = chars.subrange(i, chars.len() as int);
                assert(a + b =~= chars);
                lemma_encode_utf8_concat(a, b);
                lemma_encode_scalar_shape(b[0]);
                let k = encode_utf8(a).len() as int;
                assert(encode_utf8(b)[0] == 0);
                assert(self.bytes()[k] == encode_utf8(b)[0]);
            }
        }
    }

    /// A string is settled by its scalars: two strings of one capacity with
    /// the same scalars have the same array.
    pub proof fn lemma_same_view(self, other: Self)
        requires
            self.wf(),
            other.wf(),
            self@ == other@,
        ensures
            self.storage() == other.storage(),
    {
        self.lemma_bytes();
        other.lemma_bytes();
    }

    /// Popping after a push gives the pushed scalar back and leaves the
    /// string as it was before the push: the same scalars, the same length.
    pub proof fn lemma_push_pop(self, c: char, mid: Self, end: Self)
        requires
            self.wf(),
            mid.wf(),
            end.wf(),
            c != '\0',
            self.has_room(c),
            self.extended(seq![c], mid),
            mid.popped(end),
        ensures
            mid@.len() > 0,
            mid@.last() == c,
            end@ == self@,
            end.bytes() == self.bytes(),
            end.storage() == self.storage(),
    {
        assert((self@ + seq![c]).drop_last() =~= self@);
        self.lemma_bytes();
        end.lemma_bytes();
    }

    /// A scalar that went in made the string longer by the length of its
    /// encoding, and left that much less of the capacity.
    pub proof fn lemma_push_lengths(self, c: char, after: Self)
        requires
            self.wf(),
            after.wf(),
            self.extended(seq![c], after),
        ensures
            after.bytes().len() == self.bytes().len() + utf8_width(c as u32),
            after.room() == self.room() - utf8_width(c as u32),
    {
        lemma_encode_single(c);
    }

    proof fn lemma_array(arr: [u8; CAP], n: int)
        requires
            0 <= n <= CAP,
            valid_utf8(arr@.subrange(0, n)),
            forall|i: int| 0 <= i < n ==> arr@[i] != 0,
            forall|i: int| n <= i < CAP ==> arr@[i] == 0,
        ensures
            (Self { arr }).wf(),
            (Self { arr }).bytes() == arr@.subrange(0, n),
    {
        lemma_first_nul_is(arr@, n);
    }

    /// Creates a new empty `StaticNonNulString`.
    pub fn new() -> (r: Self)
        ensures
            r@ == Seq::<char>::empty(),
            r.bytes() == Seq::<u8>::empty(),
    {
        let arr = [0;CAP];
        proof {
            assert(arr@.subrange(0, 0) =~= Seq::<u8>::empty());
            Self::lemma_array(arr, 0);
        }
        Self { arr }
    }

    /// True when the string holds the scalar `c` and nothing else, or
    /// nothing at all where `c` is nul.
    pub open spec fn holds_only(self, c: char) -> bool {
        &&& self@ == strip_nul(seq![c])
        &&& self.bytes() == encode_utf8(strip_nul(seq![c]))
    }

    proof fn lemma_single(arr: [u8; CAP], c: char)
        requires
            c == '\0' || utf8_width(c as u32) <= CAP,
            c == '\0' ==> forall|i: int| 0 <= i < CAP ==> arr@[i] == 0,
            c != '\0' ==> forall|i: int|
                0 <= i < utf8_width(c as u32) ==> arr@[i] == encode_scalar(c as u32)[i],
            c != '\0' ==> forall|i: int| utf8_width(c as u32) <= i < CAP ==> arr@[i] == 0,
        ensures
            (Self { arr }).wf(),
            (Self { arr }).holds_only(c),
    {
        let s = Self { arr };
        let enc = encode_scalar(c as u32);
        lemma_encode_scalar_shape(c);
        lemma_encode_single(c);
        assert(seq![c].drop_first() =~= Seq::<char>::empty());
        assert(strip_nul(Seq::<char>::empty()) =~= Seq::<char>::empty());
        assert(decode_utf8(Seq::<u8>::empty()) =~= Seq::<char>::empty());
        assert(encode_utf8(Seq::<char>::empty()) =~= Seq::<u8>::empty());
        if c == '\0' {
            assert(strip_nul(seq![c]) =~= Seq::<char>::empty());
            assert(arr@.subrange(0, 0) =~= Seq::<u8>::empty());
            Self::lemma_array(arr, 0);
        } else {
            assert(strip_nul(seq![c]) =~= seq![c]);
            let n = utf8_width(c as u32) as int;
            assert(arr@.subrange(0, n) =~= enc);
            lemma_append_scalar(Seq::<u8>::empty(), c);
            assert(Seq::<u8>::empty() + enc =~= enc);
            assert(Seq::<char>::empty().push(c) =~= seq![c]);
            Self::lemma_array(arr, n);
        }
    }

    /// Creates a new `StaticNonNulString` from a `Char7`.
    ///
    /// If `c` is nul, an empty string is returned. If it is not, the
    /// capacity is at least the length of its UTF-8 encoding, which is at
    /// most 1.
    pub fn from_char7(c: Char7) -> (r: Self)
        requires
            c.code() == 0 || utf8_width(c.code()) <= CAP,
        ensures
            r.holds_only(c.scalar()),
    {
        let mut arr = [0;CAP];
        let ch = c.to_char();
        if !c.is_nul() {
            let bytes = c.to_utf8_bytes();
            proof {
                lemma_encode_scalar_shape(ch);
                lemma_padded_encoding(ch, 1);
            }
            let len: u8 = 1;
            arr[0] = bytes[0];
        }
        proof {
            Self::lemma_single(arr, ch);
        }
        Self { arr }
    }

    /// Creates a new `StaticNonNulString` from a `Char8`.
    ///
    /// If `c` is nul, an empty string is returned. If it is not, the
    /// capacity is at least the length of its UTF-8 encoding, which is at
    /// most 2.
    pub fn from_char8(c: Char8) -> (r: Self)
        requires
            c.code() == 0 || utf8_width(c.code()) <= CAP,
        ensures
            r.holds_only(c.scalar()),
    {
        let mut arr = [0;CAP];
        let ch = c.to_char();
        if !c.is_nul() {
            let bytes = c.to_utf8_bytes();
            proof {
                lemma_encode_scalar_shape(ch);
                lemma_padded_encoding(ch, 2);
            }
            let len = char_utf8_2bytes_len(bytes);
            arr[0] = bytes[0];
            if len > 1 {
                arr[1] = bytes[1];
            }
        }
        proof {
            Self::lemma_single(arr, ch);
        }
        Self { arr }
    }

    /// Creates a new `StaticNonNulString` from a `Char16`.
    ///
    /// If `c` is nul, an empty string is returned. If it is not, the
    /// capacity is at least the length of its UTF-8 encoding, which is at
    /// most 3.
    pub fn from_char16(c: Char16) -> (r: Self)
        requires
            c.code() == 0 || utf8_width(c.code()) <= CAP,
        ensures
            r.holds_only(c.scalar()),
    {
        let mut arr = [0;CAP];
        let ch = c.to_char();
        if !c.is_nul() {
            let bytes = c.to_utf8_bytes();
            proof {
                lemma_encode_scalar_shape(ch);
                lemma_padded_encoding(ch, 3);
            }
            let len = char_utf8_3bytes_len(bytes);
            arr[0] = bytes[0];
            if len > 1 {
                arr[1] = bytes[1];
            }
            if len > 2 {
                arr[2] = bytes[2];
            }
        }
        proof {
            Self::lemma_single(arr, ch);
        }
        Self { arr }
    }

    /// Creates a new `StaticNonNulString` from a `Char24`.
    ///
    /// If `c` is nul, an empty string is returned. If it is not, the
    /// capacity is at least the length of its UTF-8 encoding, which is at
    /// most 4.
    pub fn from_char24(c: Char24) -> (r: Self)
        requires
            c.code() == 0 || utf8_width(c.code()) <= CAP,
        ensures
            r.holds_only(c.scalar()),
    {
        let mut arr = [0;CAP];
        let ch = c.to_char();
        if !c.is_nul() {
            let bytes = c.to_utf8_bytes();
            proof {
                lemma_encode_scalar_shape(ch);
                lemma_padded_encoding(ch, 4);
            }
            let len = char_utf8_4bytes_len(bytes);
            arr[0] = bytes[0];
            if len > 1 {
                arr[1] = bytes[1];
            }
            if len > 2 {
                arr[2] = bytes[2];
            }
            if len > 3 {
                arr[3] = bytes[3];
            }
        }
        proof {
            Self::lemma_single(arr, ch);
        }
        Self { arr }
    }

    /// Creates a new `StaticNonNulString` from a `Char32`.
    ///
    /// If `c` is nul, an empty string is returned. If it is not, the
    /// capacity is at least the length of its UTF-8 encoding, which is at
    /// most 4.
    pub fn from_char32(c: Char32) -> (r: Self)
        requires
            c.code() == 0 || utf8_width(c.code()) <= CAP,
        ensures
            r.holds_only(c.scalar()),
    {
        let mut arr = [0;CAP];
        let ch = c.to_char();
        if !c.is_nul() {
            let bytes = c.to_utf8_bytes();
            proof {
                lemma_encode_scalar_shape(ch);
                lemma_padded_encoding(ch, 4);
            }
            let len = char_utf8_4bytes_len(bytes);
            arr[0] = bytes[0];
            if len > 1 {
                arr[1] = bytes[1];
            }
            if len > 2 {
                arr[2] = bytes[2];
            }
            if len > 3 {
                arr[3] = bytes[3];
            }
        }
        proof {
            Self::lemma_single(arr, ch);
        }
        Self { arr }
    }

    /// Creates a new `StaticNonNulString` from a `char`.
    ///
    /// If `c` is nul, an empty string is returned. If it is not, the
    /// capacity is at least the length of its UTF-8 encoding, which is at
    /// most 4.
    pub fn from_char(c: char) -> (r: Self)
        requires
            c == '\0' || utf8_width(c as u32) <= CAP,
        ensures
            r.holds_only(c),
    {
        Self::from_char32(Char32::from_char(c))
    }

    /// Returns the total capacity in bytes.
    pub fn capacity() -> (n: usize)
        ensures
            n == CAP,
    {
        CAP
    }

    /// Returns the remaining capacity.
    pub fn remaining_capacity(&self) -> (n: usize)
        ensures
            n == self.room(),
    {
        CAP - self.len()
    }

    /// Returns the current length, in bytes.
    ///
    /// This scans the array for its first zero byte.
    pub fn len(&self) -> (n: usize)
        ensures
            n == self.bytes().len(),
            n == encode_utf8(self@).len(),
            n <= CAP,
    {
        proof {
            use_type_invariant(self);
            self.lemma_bytes();
        }
        let mut i: usize = 0;
        while i < CAP && self.arr[i] != 0
            invariant
                i <= CAP,
                forall|j: int| 0 <= j < i ==> self.arr@[j] != 0,
            decreases CAP - i,
        {
            i = i + 1;
        }
        proof {
            lemma_first_nul_is(self.arr@, i as int);
        }
        i
    }

    /// Returns `true` if the current length is 0.
    pub fn is_empty(&self) -> (r: bool)
        ensures
            r == (self.bytes().len() == 0),
            r == (self@.len() == 0),
    {
        proof {
            use_type_invariant(self);
            self.lemma_bytes();
            if self@.len() > 0 {
                lemma_encode_scalar_shape(self@[0]);
            }
        }
        self.len() == 0
    }

    /// Returns `true` if the current remaining capacity is 0.
    pub fn is_full(&self) -> (r: bool)
        ensures
            r == (self.bytes().len() == CAP),
    {
        self.len() == CAP
    }

    /// Sets the length to 0, by resetting all bytes to 0.
    pub fn clear(&mut self)
        ensures
            final(self)@ == Seq::<char>::empty(),
            final(self).bytes() == Seq::<u8>::empty(),
    {
        *self = Self::new();
    }

    /// Returns a byte slice of the inner string slice: the bytes before the
    /// first zero byte, which are valid UTF-8.
    pub fn as_bytes(&self) -> (r: &[u8])
        ensures
            r@ == self.bytes(),
            r@ == encode_utf8(self@),
            valid_utf8(r@),
            forall|i: int| 0 <= i < r@.len() ==> r@[i] != 0,
    {
        proof {
            use_type_invariant(self);
            self.lemma_bytes();
        }
        let (head, _tail) = self.arr.as_slice().split_at(self.len());
        assert(head@ =~= self.bytes());
        head
    }

    /// Returns a copy of the inner array with the full contents.
    ///
    /// The array contains all the bytes, including those outside the
    /// current length, which are zero.
    pub fn as_array(&self) -> (r: [u8; CAP])
        ensures
            r@ == self.storage(),
    {
        self.arr
    }

    /// Returns the inner array with the full contents.
    ///
    /// The array contains all the bytes, including those outside the
    /// current length, which are zero.
    pub fn into_array(self) -> (r: [u8; CAP])
        ensures
            r@ == self.storage(),
    {
        self.arr
    }

    /// Returns the inner string slice.
    pub fn as_str(&self) -> (r: &str)
        ensures
            r@ == self@,
    {
        let bytes = self.as_bytes();
        match std::str::from_utf8(bytes) {
            Ok(s) => {
                proof {
                    encode_utf8_decode_utf8(s@);
                }
                s
            },
            Err(_) => "",
        }
    }

    /// Returns an iterator over the `chars` of this string.
    pub fn chars(&self) -> (r: Chars<'_>)
        ensures
            r.remaining() == self@,
    {
        broadcast use vstd::string::group_string_axioms;

        self.as_str().chars()
    }

    /// Returns the bytes of a new C-compatible, nul-terminated string: the
    /// bytes of this string, none of which is zero, then one zero byte.
    pub fn to_cstring(&self) -> (r: Vec<u8>)
        ensures
            r@ == self.bytes().push(0u8),
            forall|i: int| 0 <= i < self.bytes().len() ==> r@[i] != 0,
    {
        proof {
            use_type_invariant(self);
            self.lemma_bytes();
        }
        let mut v = vstd::slice::slice_to_vec(self.as_bytes());
        v.push(0);
        v
    }

    /// Removes the last character and returns it, or `None` if the string
    /// is empty.
    pub fn pop(&mut self) -> (r: Option<char>)
        ensures
            old(self)@.len() == 0 ==> r.is_none() && *final(self) == *old(self),
            old(self)@.len() > 0 ==> r == Some(old(self)@.last()) && old(self).popped(
                *final(self),
            ),
    {
        if self.is_empty() {
            None
        } else {
            Some(self.pop_unchecked())
        }
    }

    /// Tries to remove the last character and return it.
    ///
    /// # Errors
    /// Returns `NotEnoughElements(1)` if the string is empty.
    pub fn try_pop(&mut self) -> (r: TextosResult<char>)
        ensures
            old(self)@.len() == 0 ==> r == Err::<char, TextosError>(
                TextosError::NotEnoughElements(1),
            ) && *final(self) == *old(self),
            old(self)@.len() > 0 ==> r == Ok::<char, TextosError>(old(self)@.last()) && old(self).popped(*final(self)),
    {
        if self.is_empty() {
            Err(TextosError::NotEnoughElements(1))
        } else {
            Ok(self.pop_unchecked())
        }
    }

    /// Removes the last character and returns it.
    ///
    /// The string is not empty.
    pub fn pop_unchecked(&mut self) -> (r: char)
        requires
            old(self)@.len() > 0,
        ensures
            r == old(self)@.last(),
            old(self).popped(*final(self)),
    {
        proof {
            use_type_invariant(&*self);
            self.lemma_bytes();
        }
        let len = self.len();
        assert(len > 0) by {
            assert(decode_utf8(Seq::<u8>::empty()) =~= Seq::<char>::empty());
            if len == 0 {
                assert(self.bytes() =~= Seq::<u8>::empty());
            }
        }
        assert(self.arr@.subrange(0, len as int) =~= self.bytes());
        let (last_char, idx_last_char) = decode_last(self.arr.as_slice(), len);
        let mut arr = self.arr;
        let mut i: usize = idx_last_char;
        while i < len
            invariant
                idx_last_char <= i <= len <= CAP,
                forall|j: int| 0 <= j < idx_last_char ==> arr@[j] == self.arr@[j],
                forall|j: int| idx_last_char <= j < i ==> arr@[j] == 0,
                forall|j: int| i <= j < CAP ==> arr@[j] == self.arr@[j],
            decreases len - i,
        {
            arr[i] = 0;
            i = i + 1;
        }
        proof {
            assert(arr@.subrange(0, idx_last_char as int) =~= self.arr@.subrange(
                0,
                idx_last_char as int,
            ));
            Self::lemma_array(arr, idx_last_char as int);
            assert(self.arr@.subrange(0, idx_last_char as int) + self.arr@.subrange(
                idx_last_char as int,
                len as int,
            ) =~= self.bytes());
        }
        *self = Self { arr };
        last_char
    }

    /// Appends to the end of the string the given `character`.
    ///
    /// Returns the number of bytes written.
    ///
    /// It returns 0, and leaves the string as it was, if the given
    /// `character` does not fit in the remaining capacity, or if it is the
    /// nul character.
    pub fn push(&mut self, character: char) -> (n: usize)
        ensures
            character != '\0' && old(self).has_room(character) ==> n == utf8_width(
                character as u32,
            ) && old(self).extended(seq![character], *final(self)),
            character == '\0' || !old(self).has_room(character) ==> n == 0 && *final(self) == *old(self),
            final(self).bytes().len() == old(self).bytes().len() + n,
    {
        let char_len = char_len_utf8(character);
        if character != '\0' && self.remaining_capacity() >= char_len {
            self.push_unchecked(character)
        } else {
            0
        }
    }

    /// Appends to the end of the string the given `character`, which is
    /// known not to be nul and to fit in the remaining capacity.
    ///
    /// Returns the number of bytes written.
    pub fn push_unchecked(&mut self, character: char) -> (n: usize)
        requires
            character != '\0',
            old(self).has_room(character),
        ensures
            n == utf8_width(character as u32),
            old(self).extended(seq![character], *final(self)),
            final(self).bytes().len() == old(self).bytes().len() + n,
    {
        proof {
            use_type_invariant(&*self);
            self.lemma_bytes();
        }
        let len = self.len();
        let mut arr = self.arr;
        let char_len = write_scalar(&mut arr, len, character);
        proof {
            let enc = encode_scalar(character as u32);
            lemma_encode_scalar_shape(character);
            assert(arr@.subrange(0, len as int) =~= self.bytes());
            assert(arr@.subrange(0, len + char_len) =~= self.bytes() + enc);
            lemma_append_scalar(self.bytes(), character);
            assert forall|j: int| 0 <= j < len + char_len implies arr@[j] != 0 by {
                if j < len {
                    assert(arr@[j] == self.bytes()[j]);
                } else {
                    assert(arr@[j] == enc[j - len]);
                }
            }
            Self::lemma_array(arr, len + char_len);
            lemma_encode_single(character);
            assert(self@.push(character) =~= self@ + seq![character]);
            assert((self.bytes() + enc).len() == self.bytes().len() + char_len);
        }
        *self = Self { arr };
        char_len
    }

    /// Tries to append to the end of the string the given `character`.
    ///
    /// Returns the number of bytes written.
    ///
    /// Trying to push a nul character does nothing and returns 0 bytes.
    ///
    /// # Errors
    /// Returns `NotEnoughCapacity`, with the length of the character's
    /// encoding, if the character is not nul and does not fit in the
    /// remaining capacity. The string is then left as it was.
    pub fn try_push(&mut self, character: char) -> (r: TextosResult<usize>)
        ensures
            character == '\0' ==> r == Ok::<usize, TextosError>(0) && *final(self) == *old(self),
            character != '\0' && old(self).has_room(character) ==> r == Ok::<usize, TextosError>(
                utf8_width(character as u32) as usize,
            ) && old(self).extended(seq![character], *final(self)),
            character != '\0' && !old(self).has_room(character) ==> r == Err::<
                usize,
                TextosError,
            >(TextosError::NotEnoughCapacity(utf8_width(character as u32) as usize)) && *final(self)
                == *old(self),
            r matches Ok(n) ==> final(self).bytes().len() == old(self).bytes().len() + n,
    {
        let char_len = char_len_utf8(character);
        if character == '\0' {
            Ok(0)
        } else if self.remaining_capacity() >= char_len {
            Ok(self.push(character))
        } else {
            Err(TextosError::NotEnoughCapacity(char_len))
        }
    }

    /// Appends to the end the fitting characters from the given `string`
    /// slice.
    ///
    /// Nul characters are stripped out. The characters are taken in order,
    /// up to the first one that is not nul and does not fit in what is then
    /// left of the capacity.
    ///
    /// Returns the number of bytes written, which is 0 if not even the
    /// first non-nul character fits.
    pub fn push_str(&mut self, string: &str) -> (n: usize)
        ensures
            old(self).extended(fitting_prefix(string@, old(self).room()), *final(self)),
            n == encode_utf8(fitting_prefix(string@, old(self).room())).len(),
    {
        broadcast use vstd::string::group_string_axioms;

        let mut rem_cap = self.remaining_capacity();
        let mut bytes_written: usize = 0;
        let ghost room = rem_cap as int;
        let ghost mut taken = Seq::<char>::empty();
        let ghost mut done = 0int;
        let ghost mut finished = false;
        let mut it = string.chars();
        proof {
            assert(string@.skip(0) =~= string@);
            assert(self@ + taken =~= self@);
            assert(encode_utf8(taken) =~= Seq::<u8>::empty());
            assert(self.bytes() + encode_utf8(taken) =~= self.bytes());
            assert(taken + fitting_prefix(string@, room) =~= fitting_prefix(string@, room));
        }
        loop
            invariant_except_break
                !finished,
            invariant
                it.obeys_prophetic_iter_laws(),
                0 <= done <= string@.len(),
                !finished ==> it.remaining() == string@.skip(done),
                !finished ==> fitting_prefix(string@, room) == taken + fitting_prefix(
                    string@.skip(done),
                    rem_cap as int,
                ),
                finished ==> fitting_prefix(string@, room) == taken,
                old(self).extended(taken, *self),
                rem_cap == self.room(),
                rem_cap + bytes_written == room,
                bytes_written == encode_utf8(taken).len(),
                room == old(self).room(),
            ensures
                finished,
            decreases string@.len() - done,
        {
            let ghost rest = string@.skip(done);
            match it.next() {
                Some(c) => {
                    proof {
                        assert(rest.len() > 0);
                        assert(rest[0] == string@[done]);
                        assert(rest.drop_first() =~= string@.skip(done + 1));
                    }
                    if c != '\0' {
                        let char_len = char_len_utf8(c);
                        if char_len <= rem_cap {
                            let ghost before = *self;
                            let _ = self.push(c);
                            rem_cap = rem_cap - char_len;
                            bytes_written = bytes_written + char_len;
                            proof {
                                lemma_encode_single(c);
                                lemma_encode_utf8_concat(taken, seq![c]);
                                assert(taken + seq![c] =~= taken.push(c));
                                assert(old(self)@ + taken + seq![c] =~= old(self)@ + taken.push(c));
                                assert(old(self).bytes() + encode_utf8(taken) + encode_utf8(
                                    seq![c],
                                ) =~= old(self).bytes() + (encode_utf8(taken) + encode_utf8(
                                    seq![c],
                                )));
                                assert(taken + (seq![c] + fitting_prefix(
                                    rest.drop_first(),
                                    rem_cap as int,
                                )) =~= taken.push(c) + fitting_prefix(
                                    rest.drop_first(),
                                    rem_cap as int,
                                ));
                                taken = taken.push(c);
                            }
                        } else {
                            proof {
                                assert(taken + Seq::<char>::empty() =~= taken);
                                finished = true;
                            }
                            break ;
                        }
                    }
                    proof {
                        done = done + 1;
                    }
                },
                None => {
                    proof {
                        assert(rest.len() == 0);
                        assert(taken + Seq::<char>::empty() =~= taken);
                        finished = true;
                    }
                    break ;
                },
            }
        }
        bytes_written
    }

    /// Tries to append to the end the fitting characters from the given
    /// `string` slice.
    ///
    /// Nul characters are stripped out.
    ///
    /// Returns the number of bytes written, as `push_str` does.
    ///
    /// # Errors
    /// Returns `NotEnoughCapacity`, with the length of the encoding of the
    /// first non-nul character, if not even that character fits. The string
    /// is then left as it was.
    pub fn try_push_str(&mut self, string: &str) -> (r: TextosResult<usize>)
        ensures
            match first_non_nul(string@) {
                Some(c) if !old(self).has_room(c) => r == Err::<usize, TextosError>(
                    TextosError::NotEnoughCapacity(utf8_width(c as u32) as usize),
                ) && *final(self) == *old(self),
                _ => r == Ok::<usize, TextosError>(
                    encode_utf8(fitting_prefix(string@, old(self).room())).len() as usize,
                ) && old(self).extended(
                    fitting_prefix(string@, old(self).room()),
                    *final(self),
                ),
            },
    {
        broadcast use vstd::string::group_string_axioms;

        let mut first_char_len: usize = 0;
        let ghost mut done = 0int;
        let ghost mut found = false;
        let mut it = string.chars();
        proof {
            assert(string@.skip(0) =~= string@);
        }
        loop
            invariant_except_break
                !found,
            invariant
                it.obeys_prophetic_iter_laws(),
                0 <= done <= string@.len(),
                !found ==> it.remaining() == string@.skip(done),
                !found ==> first_non_nul(string@) == first_non_nul(string@.skip(done)),
                !found ==> first_char_len == 0,
            ensures
                found,
                match first_non_nul(string@) {
                    Some(c) => first_char_len == utf8_width(c as u32),
                    None => first_char_len == 0,
                },
            decreases string@.len() - done,
        {
            let ghost rest = string@.skip(done);
            match it.next() {
                Some(c) => {
                    proof {
                        assert(rest[0] == string@[done]);
                        assert(rest.drop_first() =~= string@.skip(done + 1));
                    }
                    if c != '\0' {
                        first_char_len = char_len_utf8(c);
                        proof {
                            found = true;
                        }
                        break ;
                    }
                    proof {
                        done = done + 1;
                    }
                },
                None => {
                    proof {
                        assert(rest.len() == 0);
                        found = true;
                    }
                    break ;
                },
            }
        }
        if self.remaining_capacity() < first_char_len {
            Err(TextosError::NotEnoughCapacity(first_char_len))
        } else {
            let n = self.push_str(string);
            Ok(n)
        }
    }

    /// Tries to append the complete `string` slice to the end.
    ///
    /// Returns the number of bytes written in success.
    ///
    /// Nul characters are stripped out, and do not count.
    ///
    /// # Errors
    /// Returns `NotEnoughCapacity`, with the number of bytes of the slice
    /// that are not nul, if those bytes do not all fit in the remaining
    /// capacity. The string is then left as it was.
    pub fn try_push_str_complete(&mut self, string: &str) -> (r: TextosResult<usize>)
        ensures
            encode_utf8(strip_nul(string@)).len() <= old(self).room() ==> r == Ok::<
                usize,
                TextosError,
            >(encode_utf8(strip_nul(string@)).len() as usize) && old(self).extended(
                strip_nul(string@),
                *final(self),
            ),
            encode_utf8(strip_nul(string@)).len() > old(self).room() ==> r == Err::<
                usize,
                TextosError,
            >(TextosError::NotEnoughCapacity(encode_utf8(strip_nul(string@)).len() as usize))
                && *final(self) == *old(self),
    {
        let bytes = string.as_bytes();
        let mut non_nul_len: usize = 0;
        let mut i: usize = 0;
        proof {
            assert(bytes@.take(0) =~= Seq::<u8>::empty());
        }
        while i < bytes.len()
            invariant
                i <= bytes@.len(),
                non_nul_len <= i,
                non_nul_len == count_non_nul(bytes@.take(i as int)),
            decreases bytes@.len() - i,
        {
            proof {
                assert(bytes@.take(i + 1).drop_last() =~= bytes@.take(i as int));
            }
            if bytes[i] != 0 {
                non_nul_len = non_nul_len + 1;
            }
            i = i + 1;
        }
        proof {
            assert(bytes@.take(i as int) =~= bytes@);
            lemma_count_non_nul(string@);
        }
        if self.remaining_capacity() >= non_nul_len {
            proof {
                lemma_fitting_prefix_complete(string@, self.room());
            }
            Ok(self.push_str(string))
        } else {
            Err(TextosError::NotEnoughCapacity(non_nul_len))
        }
    }
}

impl<const CAP: usize> Default for StaticNonNulString<CAP> {
    /// Returns an empty string.
    fn default() -> (r: Self)
        ensures
            r@ == Seq::<char>::empty(),
            r.bytes() == Seq::<u8>::empty(),
    {
        Self::new()
    }
}

} // verus!
