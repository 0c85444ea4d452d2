//! Extended grapheme cluster backed by a `String`.

use crate::unicode::char::{lemma_padded_encoding, Char16, Char24, Char32, Char7, Char8};
use crate::unicode::egc::Egc;
use crate::unicode::string::strings::Strings;
use std::str::Chars;
use unicode_segmentation::UnicodeSegmentation;
use vstd::prelude::*;
use vstd::std_specs::convert::FromSpecImpl;
use vstd::std_specs::iter::IteratorSpec;
use vstd::string::StringExecFns;
use vstd::utf8::*;

verus! {

/// The first extended grapheme cluster of the text `s`, as
/// `unicode_segmentation` finds it, or `None` where the text is empty.
pub uninterp spec fn first_grapheme_of(s: Seq<char>) -> Option<Seq<char>>;

/// The first item of `UnicodeSegmentation::graphemes` with extended
/// clusters: the first extended grapheme cluster of `s`. It is `None` for
/// the empty text only, and else a start of `s` that is not empty.
#[verifier::external_body]
fn first_grapheme<'a>(s: &'a str) -> (r: Option<&'a str>)
    ensures
        first_grapheme_of(s@) == match r {
            Some(g) => Some(g@),
            None => None::<Seq<char>>,
        },
        r is None <==> s@.len() == 0,
        r matches Some(g) ==> 0 < g@.len() <= s@.len() && g@ == s@.subrange(0, g@.len() as int),
{
    s.graphemes(true).next()
}

/// The text that `StringEgc` keeps of `s`: its first extended grapheme
/// cluster, or nothing where `s` is empty.
pub open spec fn grapheme_head(s: Seq<char>) -> Seq<char> {
    match first_grapheme_of(s) {
        Some(g) => g,
        None => Seq::<char>::empty(),
    }
}

/// The scalar `c`, followed by as many nul scalars as its encoding leaves
/// free of `width` bytes.
pub open spec fn padded_text(c: char, width: nat) -> Seq<char> {
    seq![c] + Seq::new((width - encode_scalar(c as u32).len()) as nat, |i: int| '\0')
}

/// A zero-padded encoding is valid UTF-8 for the scalar and the nul
/// scalars after it.
pub proof fn lemma_padded_text(c: char, width: nat)
    requires
        encode_scalar(c as u32).len() <= width,
    ensures
        crate::unicode::char::padded_encoding(c, width) == encode_utf8(padded_text(c, width)),
        valid_utf8(crate::unicode::char::padded_encoding(c, width)),
{
    let k = (width - encode_scalar(c as u32).len()) as nat;
    let nuls = Seq::new(k, |i: int| '\0');
    lemma_nuls(k);
    crate::unicode::utf8::lemma_encode_utf8_concat(seq![c], nuls);
    crate::unicode::utf8::lemma_encode_single(c);
    encode_utf8_valid_utf8(padded_text(c, width));
}

proof fn lemma_nuls(k: nat)
    ensures
        encode_utf8(Seq::new(k, |i: int| '\0')) == Seq::new(k, |i: int| 0u8),
    decreases k,
{
    let nuls = Seq::new(k, |i: int| '\0');
    if k == 0 {
        assert(encode_utf8(nuls) =~= Seq::new(k, |i: int| 0u8));
    } else {
        lemma_nuls((k - 1) as nat);
        crate::unicode::utf8::lemma_encode_scalar_shape('\0');
        assert(nuls.drop_first() =~= Seq::new((k - 1) as nat, |i: int| '\0'));
        assert(encode_utf8(nuls) =~= Seq::new(k, |i: int| 0u8));
    }
}

/// An extended grapheme cluster backed by a [`String`].
#[derive(Clone, Debug, PartialEq, Eq, Hash, PartialOrd, Ord)]
pub struct StringEgc(String);

impl View for StringEgc {
    type V = Seq<char>;

    /// The scalars of the cluster, in order.
    closed spec fn view(&self) -> Seq<char> {
        self.0@
    }
}

impl Strings for StringEgc {

}

impl Egc for StringEgc {

}

impl StringEgc {
    /// Creates a new empty extended grapheme cluster.
    pub fn new() -> (r: StringEgc)
        ensures
            r@ == Seq::<char>::empty(),
    {
        Self(String::new())
    }

    /// Creates the cluster that holds the text of `first`, the first
    /// extended grapheme cluster found in some text, or the empty cluster
    /// where none was found.
    pub fn from_first_grapheme(first: Option<&str>) -> (r: StringEgc)
        ensures
            r@ == match first {
                Some(g) => g@,
                None => Seq::<char>::empty(),
            },
    {
        match first {
            Some(g) => Self(String::from_str(g)),
            None => Self(String::new()),
        }
    }

    /// True when the cluster holds the first extended grapheme cluster of
    /// the text `s`: a start of `s`, and empty only where `s` is.
    pub open spec fn holds_head_of(self, s: Seq<char>) -> bool {
        &&& self@ == grapheme_head(s)
        &&& self@.len() <= s.len()
        &&& self@ == s.subrange(0, self@.len() as int)
        &&& self@.len() == 0 <==> s.len() == 0
    }

    /// Creates the cluster that holds the first extended grapheme cluster
    /// of `s`.
    pub fn from_str(s: &str) -> (r: StringEgc)
        ensures
            r.holds_head_of(s@),
    {
        let r = Self::from_first_grapheme(first_grapheme(s));
        assert(r@ =~= s@.subrange(0, r@.len() as int));
        r
    }

    /// Creates the cluster of the text whose UTF-8 encoding is `bytes`: a
    /// scalar in its zero-padded encoding.
    fn from_padded(bytes: &[u8], Ghost(c): Ghost<char>) -> (r: StringEgc)
        requires
            encode_scalar(c as u32).len() <= bytes@.len(),
            bytes@ == crate::unicode::char::padded_encoding(c, bytes@.len()),
        ensures
            r.holds_head_of(padded_text(c, bytes@.len())),
    {
        proof {
            lemma_padded_text(c, bytes@.len());
        }
        match std::str::from_utf8(bytes) {
            Ok(s) => {
                proof {
                    encode_utf8_decode_utf8(s@);
                    encode_utf8_decode_utf8(padded_text(c, bytes@.len()));
                }
                Self::from_str(s)
            },
            Err(_) => Self::new(),
        }
    }

    /// Creates a new `StringEgc` from a `Char7`: the cluster of that
    /// scalar alone.
    pub fn from_char7(c: Char7) -> (r: StringEgc)
        ensures
            r.holds_head_of(padded_text(c.scalar(), 1)),
            r@ == seq![c.scalar()],
    {
        let ch = c.to_char();
        let bytes = c.to_utf8_bytes();
        proof {
            crate::unicode::utf8::lemma_encode_scalar_shape(ch);
            lemma_padded_encoding(ch, 1);
        }
        let r = Self::from_padded(bytes.as_slice(), Ghost(ch));
        proof {
            assert(padded_text(ch, 1) =~= seq![ch]);
            assert(r@ =~= seq![ch]);
        }
        r
    }

    /// Creates a new `StringEgc` from a `Char8`: the first extended
    /// grapheme cluster of the scalar in its encoding padded to 2 bytes.
    pub fn from_char8(c: Char8) -> (r: StringEgc)
        ensures
            r.holds_head_of(padded_text(c.scalar(), 2)),
    {
        let ch = c.to_char();
        let bytes = c.to_utf8_bytes();
        proof {
            crate::unicode::utf8::lemma_encode_scalar_shape(ch);
        }
        Self::from_padded(bytes.as_slice(), Ghost(ch))
    }

    /// Creates a new `StringEgc` from a `Char16`: the first extended
    /// grapheme cluster of the scalar in its encoding padded to 3 bytes.
    pub fn from_char16(c: Char16) -> (r: StringEgc)
        ensures
            r.holds_head_of(padded_text(c.scalar(), 3)),
    {
        let ch = c.to_char();
        let bytes = c.to_utf8_bytes();
        proof {
            crate::unicode::utf8::lemma_encode_scalar_shape(ch);
        }
        Self::from_padded(bytes.as_slice(), Ghost(ch))
    }

    /// Creates a new `StringEgc` from a `Char24`: the first extended
    /// grapheme cluster of the scalar in its encoding padded to 4 bytes.
    pub fn from_char24(c: Char24) -> (r: StringEgc)
        ensures
            r.holds_head_of(padded_text(c.scalar(), 4)),
    {
        let ch = c.to_char();
        let bytes = c.to_utf8_bytes();
        proof {
            crate::unicode::utf8::lemma_encode_scalar_shape(ch);
        }
        Self::from_padded(bytes.as_slice(), Ghost(ch))
    }

    /// Creates a new `StringEgc` from a `Char32`: the first extended
    /// grapheme cluster of the scalar in its encoding padded to 4 bytes.
    pub fn from_char32(c: Char32) -> (r: StringEgc)
        ensures
            r.holds_head_of(padded_text(c.scalar(), 4)),
    {
        let ch = c.to_char();
        let bytes = c.to_utf8_bytes();
        proof {
            crate::unicode::utf8::lemma_encode_scalar_shape(ch);
        }
        Self::from_padded(bytes.as_slice(), Ghost(ch))
    }

    /// Creates a new `StringEgc` from a `char`: the first extended
    /// grapheme cluster of the scalar in its encoding padded to 4 bytes.
    pub fn from_char(c: char) -> (r: StringEgc)
        ensures
            r.holds_head_of(padded_text(c, 4)),
    {
        Self::from_char32(Char32::from_char(c))
    }

    /// Returns the length in bytes.
    pub fn len(&self) -> (n: usize)
        ensures
            n == encode_utf8(self@).len(),
    {
        self.0.as_str().as_bytes().len()
    }

    /// Returns `true` if the current length is 0.
    pub fn is_empty(&self) -> (r: bool)
        ensures
            r == (self@.len() == 0),
    {
        self.0.as_str().is_empty()
    }

    /// Sets the length to 0.
    pub fn clear(&mut self)
        ensures
            final(self)@ == Seq::<char>::empty(),
    {
        self.0 = String::new();
    }

    /// Returns the inner string slice.
    pub fn as_str(&self) -> (r: &str)
        ensures
            r@ == self@,
    {
        self.0.as_str()
    }

    /// Returns an iterator over the `chars` of this grapheme cluster.
    pub fn chars(&self) -> (r: Chars<'_>)
        ensures
            r.remaining() == self@,
    {
        broadcast use vstd::string::group_string_axioms;

        self.0.as_str().chars()
    }
}

impl Default for StringEgc {
    /// Returns a new empty extended grapheme cluster.
    fn default() -> (r: Self)
        ensures
            r@ == Seq::<char>::empty(),
    {
        Self::new()
    }
}

impl From<String> for StringEgc {
    /// Keeps the first extended grapheme cluster of `s`.
    fn from(s: String) -> (r: StringEgc)
        ensures
            r.holds_head_of(s@),
    {
        StringEgc::from_str(s.as_str())
    }
}

impl FromSpecImpl<String> for StringEgc {
    /// Two clusters with the same text need not be the same value, so `from`
    /// states its result over the text and not through `from_spec`.
    open spec fn obeys_from_spec() -> bool {
        false
    }

    open spec fn from_spec(s: String) -> StringEgc {
        choose|e: StringEgc| e@ == grapheme_head(s@)
    }
}

impl From<&str> for StringEgc {
    /// Keeps the first extended grapheme cluster of `s`.
    fn from(s: &str) -> (r: StringEgc)
        ensures
            r.holds_head_of(s@),
    {
        StringEgc::from_str(s)
    }
}

impl FromSpecImpl<&str> for StringEgc {
    /// Two clusters with the same text need not be the same value, so `from`
    /// states its result over the text and not through `from_spec`.
    open spec fn obeys_from_spec() -> bool {
        false
    }

    open spec fn from_spec(s: &str) -> StringEgc {
        choose|e: StringEgc| e@ == grapheme_head(s@)
    }
}

impl From<char> for StringEgc {
    /// Holds the scalar `c` alone.
    fn from(c: char) -> (r: StringEgc)
        ensures
            r@ == seq![c],
    {
        let (bytes, n) = crate::unicode::utf8::encode_char(c);
        let (head, _tail) = bytes.as_slice().split_at(n);
        proof {
            crate::unicode::utf8::lemma_encode_single(c);
            encode_utf8_valid_utf8(seq![c]);
            assert(head@ =~= encode_scalar(c as u32));
        }
        match std::str::from_utf8(head) {
            Ok(s) => {
                proof {
                    encode_utf8_decode_utf8(s@);
                    encode_utf8_decode_utf8(seq![c]);
                }
                StringEgc(String::from_str(s))
            },
            Err(_) => StringEgc::new(),
        }
    }
}

impl FromSpecImpl<char> for StringEgc {
    /// Two clusters with the same text need not be the same value, so `from`
    /// states its result over the text and not through `from_spec`.
    open spec fn obeys_from_spec() -> bool {
        false
    }

    open spec fn from_spec(c: char) -> StringEgc {
        choose|e: StringEgc| e@ == seq![c]
    }
}

} // verus!
