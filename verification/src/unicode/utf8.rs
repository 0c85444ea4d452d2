//! Encoding and decoding of single scalars as UTF-8, over byte arrays.

use vstd::prelude::*;
use vstd::utf8::*;

verus! {

/// The number of bytes that the UTF-8 encoding of the code point `code` takes.
pub open spec fn utf8_width(code: u32) -> nat {
    if code < 0x80 {
        1
    } else if code < 0x800 {
        2
    } else if code < 0x1_0000 {
        3
    } else {
        4
    }
}

/// The number of 16-bit units that the UTF-16 encoding of the code point
/// `code` takes.
pub open spec fn utf16_width(code: u32) -> nat {
    if code < 0x1_0000 {
        1
    } else {
        2
    }
}

/// Returns the UTF-8 encoding of `c` in a buffer of four bytes, padded with
/// zeros, together with the number of bytes that the encoding takes.
pub fn encode_char(c: char) -> (r: ([u8; 4], usize))
    ensures
        r.1 == utf8_width(c as u32),
        r.0@.take(r.1 as int) == encode_scalar(c as u32),
        forall|i: int| r.1 <= i < 4 ==> r.0@[i] == 0,
{
    let u: u32 = c as u32;
    let mut out: [u8; 4] = [0; 4];
    if u < 0x80 {
        out[0] = (u & 0x7F) as u8;
        assert(out@.take(1) =~= encode_scalar(u));
        (out, 1)
    } else if u < 0x800 {
        out[0] = 0xC0 | ((u >> 6) & 0x1F) as u8;
        out[1] = 0x80 | (u & 0x3F) as u8;
        assert(out@.take(2) =~= encode_scalar(u));
        (out, 2)
    } else if u < 0x1_0000 {
        out[0] = 0xE0 | ((u >> 12) & 0x0F) as u8;
        out[1] = 0x80 | ((u >> 6) & 0x3F) as u8;
        out[2] = 0x80 | (u & 0x3F) as u8;
        assert(out@.take(3) =~= encode_scalar(u));
        (out, 3)
    } else {
        out[0] = 0xF0 | ((u >> 18) & 0x7) as u8;
        out[1] = 0x80 | ((u >> 12) & 0x3F) as u8;
        out[2] = 0x80 | ((u >> 6) & 0x3F) as u8;
        out[3] = 0x80 | (u & 0x3F) as u8;
        assert(out@.take(4) =~= encode_scalar(u));
        (out, 4)
    }
}

/// `std::char::from_u32`: a code point that is a scalar value gives that
/// scalar; any other number gives `None`.
pub assume_specification[ std::char::from_u32 ](i: u32) -> (r: Option<char>)
    ensures
        is_scalar(i) ==> r == Some(i as char),
        !is_scalar(i) ==> r is None,
;

/// `std::str::from_utf8`: bytes that are valid UTF-8 come back as the string
/// slice with those bytes; any others give an error.
pub assume_specification<'a>[ std::str::from_utf8 ](v: &'a [u8]) -> (r: Result<
    &'a str,
    std::str::Utf8Error,
>)
    ensures
        valid_utf8(v@) ==> r is Ok && encode_utf8(r->Ok_0@) == v@,
        !valid_utf8(v@) ==> r is Err,
;

proof fn lemma_bytes_width_2(u: u32)
    by (bit_vector)
    requires
        0x80 <= u <= 0x7FF,
    ensures
        0xC0 <= (0xC0 | ((u >> 6) & 0x1F) as u8) <= 0xDF,
        0x80 <= (0x80 | (u & 0x3F) as u8) <= 0xBF,
{
}

proof fn lemma_bytes_width_3(u: u32)
    by (bit_vector)
    requires
        0x800 <= u <= 0xFFFF,
    ensures
        0xE0 <= (0xE0 | ((u >> 12) & 0x0F) as u8) <= 0xEF,
        0x80 <= (0x80 | ((u >> 6) & 0x3F) as u8) <= 0xBF,
        0x80 <= (0x80 | (u & 0x3F) as u8) <= 0xBF,
{
}

proof fn lemma_bytes_width_4(u: u32)
    by (bit_vector)
    requires
        0x1_0000 <= u <= 0x10_FFFF,
    ensures
        0xF0 <= (0xF0 | ((u >> 18) & 0x7) as u8) <= 0xF7,
        0x80 <= (0x80 | ((u >> 12) & 0x3F) as u8) <= 0xBF,
        0x80 <= (0x80 | ((u >> 6) & 0x3F) as u8) <= 0xBF,
        0x80 <= (0x80 | (u & 0x3F) as u8) <= 0xBF,
{
}

proof fn lemma_bytes_width_1(u: u32)
    by (bit_vector)
    requires
        u <= 0x7F,
    ensures
        (u & 0x7F) as u8 == u,
        (u & 0x7F) as u8 <= 0x7F,
{
}

/// The shape of the encoding of one scalar: a leading byte, then
/// continuation bytes only; no zero byte unless the scalar is nul.
pub proof fn lemma_encode_scalar_shape(c: char)
    ensures
        encode_scalar(c as u32).len() == utf8_width(c as u32),
        !is_continuation_byte(encode_scalar(c as u32)[0]),
        forall|i: int|
            1 <= i < encode_scalar(c as u32).len() ==> is_continuation_byte(
                #[trigger] encode_scalar(c as u32)[i],
            ),
        c != '\0' ==> forall|i: int|
            0 <= i < encode_scalar(c as u32).len() ==> #[trigger] encode_scalar(c as u32)[i] != 0,
        c == '\0' ==> encode_scalar(c as u32) == seq![0u8],
        c as u32 <= 0x7F ==> encode_scalar(c as u32) == seq![c as u8],
{
    let u = c as u32;
    if u < 0x80 {
        lemma_bytes_width_1(u);
    } else if u < 0x800 {
        lemma_bytes_width_2(u);
    } else if u < 0x1_0000 {
        lemma_bytes_width_3(u);
    } else {
        lemma_bytes_width_4(u);
    }
}

/// Encoding distributes over appending one scalar.
pub proof fn lemma_encode_utf8_push(s: Seq<char>, c: char)
    ensures
        encode_utf8(s.push(c)) == encode_utf8(s) + encode_scalar(c as u32),
    decreases s.len(),
{
    if s.len() == 0 {
        assert(s.push(c).drop_first() =~= Seq::<char>::empty());
        assert(encode_utf8(s.push(c)) =~= encode_scalar(c as u32) + encode_utf8(
            Seq::<char>::empty(),
        ));
        assert(encode_utf8(s) + encode_scalar(c as u32) =~= encode_scalar(c as u32));
    } else {
        lemma_encode_utf8_push(s.drop_first(), c);
        assert(s.push(c).drop_first() =~= s.drop_first().push(c));
        assert(encode_utf8(s.push(c)) =~= encode_utf8(s) + encode_scalar(c as u32));
    }
}

/// The encoding of a text of one scalar is the encoding of that scalar.
pub proof fn lemma_encode_single(c: char)
    ensures
        encode_utf8(seq![c]) == encode_scalar(c as u32),
        encode_utf8(seq![c]).len() == utf8_width(c as u32),
{
    lemma_encode_utf8_push(Seq::<char>::empty(), c);
    assert(Seq::<char>::empty().push(c) =~= seq![c]);
    assert(encode_utf8(Seq::<char>::empty()) =~= Seq::<u8>::empty());
    assert(Seq::<u8>::empty() + encode_scalar(c as u32) =~= encode_scalar(c as u32));
    lemma_encode_scalar_shape(c);
}

/// Encoding distributes over concatenation.
pub proof fn lemma_encode_utf8_concat(a: Seq<char>, b: Seq<char>)
    ensures
        encode_utf8(a + b) == encode_utf8(a) + encode_utf8(b),
    decreases b.len(),
{
    if b.len() == 0 {
        assert(a + b =~= a);
        assert(encode_utf8(a) + encode_utf8(b) =~= encode_utf8(a));
    } else {
        lemma_encode_utf8_concat(a, b.drop_last());
        lemma_encode_utf8_push(a + b.drop_last(), b.last());
        lemma_encode_utf8_push(b.drop_last(), b.last());
        assert((a + b.drop_last()).push(b.last()) =~= a + b);
        assert(b.drop_last().push(b.last()) =~= b);
        assert(encode_utf8(a + b) =~= encode_utf8(a) + encode_utf8(b));
    }
}

/// Appending the encoding of one scalar to valid UTF-8 gives valid UTF-8
/// that decodes to the old scalars followed by the new one.
pub proof fn lemma_append_scalar(bytes: Seq<u8>, c: char)
    requires
        valid_utf8(bytes),
    ensures
        valid_utf8(bytes + encode_scalar(c as u32)),
        decode_utf8(bytes + encode_scalar(c as u32)) == decode_utf8(bytes).push(c),
{
    let chars = decode_utf8(bytes);
    decode_utf8_encode_utf8(bytes);
    lemma_encode_utf8_push(chars, c);
    encode_utf8_valid_utf8(chars.push(c));
    encode_utf8_decode_utf8(chars.push(c));
}

/// Valid UTF-8 that is not empty ends with the encoding of its last scalar,
/// and what stands before it is valid UTF-8 for the scalars before it.
pub proof fn lemma_last_scalar(bytes: Seq<u8>)
    requires
        valid_utf8(bytes),
        bytes.len() > 0,
    ensures
        decode_utf8(bytes).len() > 0,
        utf8_width(decode_utf8(bytes).last() as u32) <= bytes.len(),
        bytes.subrange(
            bytes.len() - utf8_width(decode_utf8(bytes).last() as u32),
            bytes.len() as int,
        ) == encode_scalar(decode_utf8(bytes).last() as u32),
        valid_utf8(bytes.subrange(0, bytes.len() - utf8_width(decode_utf8(bytes).last() as u32))),
        decode_utf8(
            bytes.subrange(0, bytes.len() - utf8_width(decode_utf8(bytes).last() as u32)),
        ) == decode_utf8(bytes).drop_last(),
{
    let chars = decode_utf8(bytes);
    decode_utf8_encode_utf8(bytes);
    if chars.len() == 0 {
        assert(encode_utf8(chars) =~= Seq::<u8>::empty());
    }
    let last = chars.last();
    let front = chars.drop_last();
    assert(front.push(last) =~= chars);
    lemma_encode_utf8_push(front, last);
    lemma_encode_scalar_shape(last);
    let k = utf8_width(last as u32) as int;
    let n = bytes.len() as int;
    assert(bytes.subrange(n - k, n) =~= encode_scalar(last as u32));
    assert(bytes.subrange(0, n - k) =~= encode_utf8(front));
    encode_utf8_valid_utf8(front);
    encode_utf8_decode_utf8(front);
}

/// The encoding of a sequence of scalars has a zero byte only where a
/// scalar is nul.
pub proof fn lemma_encode_utf8_nonzero(s: Seq<char>)
    requires
        forall|i: int| 0 <= i < s.len() ==> s[i] != '\0',
    ensures
        forall|j: int| 0 <= j < encode_utf8(s).len() ==> #[trigger] encode_utf8(s)[j] != 0,
    decreases s.len(),
{
    if s.len() > 0 {
        lemma_encode_utf8_nonzero(s.drop_first());
        lemma_encode_scalar_shape(s[0]);
        let head = encode_scalar(s[0] as u32);
        let tail = encode_utf8(s.drop_first());
        assert forall|j: int| 0 <= j < encode_utf8(s).len() implies #[trigger] encode_utf8(s)[j]
            != 0 by {
            if j < head.len() {
                assert(encode_utf8(s)[j] == head[j]);
            } else {
                assert(encode_utf8(s)[j] == tail[j - head.len()]);
            }
        }
    }
}

/// Decodes the scalar whose encoding fills `bytes[start..end]`.
fn decode_scalar_at(bytes: &[u8], start: usize, end: usize, Ghost(c): Ghost<char>) -> (r: char)
    requires
        start < end <= bytes@.len(),
        bytes@.subrange(start as int, end as int) == encode_scalar(c as u32),
    ensures
        r == c,
{
    let ghost enc = bytes@.subrange(start as int, end as int);
    proof {
        lemma_encode_scalar_shape(c);
        encode_utf8_first_scalar(seq![c]);
        assert(seq![c].drop_first() =~= Seq::<char>::empty());
        assert(encode_utf8(Seq::<char>::empty()) =~= Seq::<u8>::empty());
        assert(seq![c][0] == c);
        assert(encode_utf8(seq![c]) =~= enc);
        char_is_scalar(c);
        assert(enc[0] == bytes@[start as int]);
    }
    let n = end - start;
    let b0 = bytes[start];
    let code: u32 = if n == 1 {
        (b0 & 0x7F) as u32
    } else if n == 2 {
        let b1 = bytes[start + 1];
        assert(enc[1] == b1);
        (((b0 & 0x1F) as u32) << 6) | ((b1 & 0x3f) as u32)
    } else if n == 3 {
        let b1 = bytes[start + 1];
        let b2 = bytes[start + 2];
        assert(enc[1] == b1 && enc[2] == b2);
        (((b0 & 0x0F) as u32) << 12) | (((b1 & 0x3f) as u32) << 6) | ((b2 & 0x3f) as u32)
    } else {
        let b1 = bytes[start + 1];
        let b2 = bytes[start + 2];
        let b3 = bytes[start + 3];
        assert(enc[1] == b1 && enc[2] == b2 && enc[3] == b3);
        (((b0 & 0x07) as u32) << 18) | (((b1 & 0x3f) as u32) << 12) | (((b2 & 0x3f) as u32) << 6)
            | ((b3 & 0x3f) as u32)
    };
    assert(code == c as u32);
    match std::char::from_u32(code) {
        Some(r) => r,
        None => '\0',
    }
}

/// Finds and decodes the last scalar of the valid UTF-8 in `bytes[..len]`:
/// returns the scalar and the index at which its encoding starts.
pub fn decode_last(bytes: &[u8], len: usize) -> (r: (char, usize))
    requires
        0 < len <= bytes@.len(),
        valid_utf8(bytes@.subrange(0, len as int)),
    ensures
        decode_utf8(bytes@.subrange(0, len as int)).len() > 0,
        r.0 == decode_utf8(bytes@.subrange(0, len as int)).last(),
        r.1 + utf8_width(r.0 as u32) == len,
        valid_utf8(bytes@.subrange(0, r.1 as int)),
        decode_utf8(bytes@.subrange(0, r.1 as int)) == decode_utf8(
            bytes@.subrange(0, len as int),
        ).drop_last(),
        bytes@.subrange(r.1 as int, len as int) == encode_scalar(r.0 as u32),
{
    let ghost content = bytes@.subrange(0, len as int);
    let ghost last = decode_utf8(content).last();
    let ghost k = utf8_width(last as u32) as int;
    proof {
        lemma_last_scalar(content);
        lemma_encode_scalar_shape(last);
        assert(content.subrange(len - k, len as int) =~= bytes@.subrange(len - k, len as int));
        assert(content.subrange(0, len - k) =~= bytes@.subrange(0, len - k));
        assert forall|j: int| len - k <= j < len implies bytes@[j] == #[trigger] encode_scalar(
            last as u32,
        )[j - (len - k)] by {
            assert(bytes@.subrange(len - k, len as int)[j - (len - k)] == bytes@[j]);
        }
    }
    let mut i: usize = len - 1;
    while i > 0 && 0x80 <= bytes[i] && bytes[i] <= 0xBF
        invariant
            len - k <= i < len <= bytes@.len(),
            1 <= k <= 4,
            k <= len,
            forall|j: int|
                len - k <= j < len ==> bytes@[j] == #[trigger] encode_scalar(last as u32)[j - (len
                    - k)],
            encode_scalar(last as u32).len() == k,
            !is_continuation_byte(encode_scalar(last as u32)[0]),
            forall|j: int|
                1 <= j < k ==> is_continuation_byte(#[trigger] encode_scalar(last as u32)[j]),
        decreases i,
    {
        assert(bytes@[i as int] == encode_scalar(last as u32)[i - (len - k)]);
        i = i - 1;
    }
    proof {
        assert(bytes@[i as int] == encode_scalar(last as u32)[i - (len - k)]);
        if i > len - k {
            assert(is_continuation_byte(encode_scalar(last as u32)[i - (len - k)]));
        }
    }
    let c = decode_scalar_at(bytes, i, len, Ghost(last));
    (c, i)
}

/// Writes the UTF-8 encoding of `c` into `arr`, from the index `at` on, and
/// returns the number of bytes written. The other bytes stay.
pub fn write_scalar<const N: usize>(arr: &mut [u8; N], at: usize, c: char) -> (n: usize)
    requires
        at + utf8_width(c as u32) <= N,
    ensures
        n == utf8_width(c as u32),
        final(arr)@ == old(arr)@.subrange(0, at as int) + encode_scalar(c as u32) + old(
            arr,
        )@.subrange(at + n, N as int),
{
    let (bytes, n) = encode_char(c);
    let mut i: usize = 0;
    while i < n
        invariant
            i <= n <= 4,
            at + n <= N,
            bytes@.take(n as int) == encode_scalar(c as u32),
            forall|j: int| 0 <= j < at ==> arr@[j] == old(arr)@[j],
            forall|j: int| at + i <= j < N ==> arr@[j] == old(arr)@[j],
            forall|j: int| 0 <= j < i ==> arr@[at + j] == bytes@[j],
        decreases n - i,
    {
        arr[at + i] = bytes[i];
        i = i + 1;
    }
    proof {
        let enc = encode_scalar(c as u32);
        assert forall|j: int| 0 <= j < n implies bytes@[j] == enc[j] by {
            assert(bytes@.take(n as int)[j] == bytes@[j]);
        }
        assert(arr@ =~= old(arr)@.subrange(0, at as int) + enc + old(arr)@.subrange(
            at + n,
            N as int,
        ));
    }
    n
}

} // verus!
