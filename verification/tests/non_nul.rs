use textos::error::TextosError;
use textos::unicode::char::{Char16, Char24, Char32, Char7, Char8};
use textos::unicode::string::non_nul::{
    NonNulString128, NonNulString16, NonNulString24, NonNulString32, NonNulString64,
    NonNulString8, StaticNonNulString,
};

#[test]
fn non_nul_push_str_strips_nul() {
    let mut s = NonNulString64::new();
    assert_eq![s.push_str("a\0b"), 2];
    assert_eq![s.as_str(), "ab"];
    assert_eq![s.len(), 2];
    assert_eq![s.as_bytes(), b"ab"];
    assert_eq![s.as_array(), [b'a', b'b', 0, 0, 0, 0, 0, 0]];
}

#[test]
fn non_nul_push_str_takes_what_fits() {
    let mut s = NonNulString32::new();
    assert_eq![s.push_str("añ€b"), 3];
    assert_eq![s.as_str(), "añ"];
    assert_eq![s.remaining_capacity(), 1];
    // the first scalar that does not fit ends it, even if a later one would fit
    assert_eq![s.push_str("€b"), 0];
    assert_eq![s.as_str(), "añ"];
    assert_eq![s.push_str("\0\0b€"), 1];
    assert_eq![s.as_str(), "añb"];
    assert![s.is_full()];
    assert_eq![s.push_str("c"), 0];
    assert_eq![s.push_str(""), 0];
    assert_eq![s.as_str(), "añb"];
}

#[test]
fn non_nul_try_push_str_complete_is_all_or_nothing() {
    let mut s = NonNulString32::new();
    assert_eq![s.try_push_str_complete("a\0ñ\0"), Ok(3)];
    assert_eq![s.as_str(), "añ"];
    assert_eq![s.try_push_str_complete("b\0c"), Err(TextosError::NotEnoughCapacity(2))];
    assert_eq![s.as_str(), "añ"];
    assert_eq![s.len(), 3];
    assert_eq![s.try_push_str_complete("\0\0\0\0\0\0"), Ok(0)];
    assert_eq![s.try_push_str_complete("b"), Ok(1)];
    assert_eq![s.as_str(), "añb"];
    assert_eq![s.try_push_str_complete("€"), Err(TextosError::NotEnoughCapacity(3))];
    assert_eq![s.try_push_str_complete(""), Ok(0)];
}

#[test]
fn non_nul_try_push_str() {
    let mut s = NonNulString24::new();
    assert_eq![s.try_push_str("\0€x"), Ok(3)];
    assert_eq![s.as_str(), "€"];
    assert_eq![s.try_push_str("\0ñ"), Err(TextosError::NotEnoughCapacity(2))];
    assert_eq![s.try_push_str("\0\0"), Ok(0)];
    assert_eq![s.try_push_str(""), Ok(0)];
    assert_eq![s.as_str(), "€"];
    s.clear();
    assert_eq![s.try_push_str("ab€"), Ok(2)];
    assert_eq![s.as_str(), "ab"];
}

#[test]
fn non_nul_push_nul_is_a_no_op() {
    let mut s = NonNulString16::new();
    assert_eq![s.push('\0'), 0];
    assert_eq![s.try_push('\0'), Ok(0)];
    assert![s.is_empty()];
    assert_eq![s.push('ñ'), 2];
    assert_eq![s.push('\0'), 0];
    assert_eq![s.try_push('\0'), Ok(0)];
    assert_eq![s.as_bytes(), [0xC3, 0xB1]];
    assert![s.is_full()];
    assert_eq![s.try_push('a'), Err(TextosError::NotEnoughCapacity(1))];
    assert_eq![s.push('a'), 0];
    assert_eq![s.as_str(), "ñ"];
}

#[test]
fn non_nul_push_pop_round_trip() {
    for c in ['a', 'ñ', '€', '\u{1D160}', '\u{10FFFF}', '\u{80}', '\u{7FF}', '\u{800}', '\u{FFFF}'] {
        let mut s = NonNulString64::new();
        s.push('x');
        s.push('€');
        let before = s;
        assert_eq![s.push(c), c.len_utf8()];
        assert_eq![s.len(), before.len() + c.len_utf8()];
        assert_eq![s.remaining_capacity(), before.remaining_capacity() - c.len_utf8()];
        assert![std::str::from_utf8(s.as_bytes()).is_ok()];
        assert_eq![s.pop(), Some(c)];
        assert_eq![s, before];
        assert_eq![s.len(), before.len()];
    }
}

#[test]
fn non_nul_pop_restores_the_end_marker() {
    let mut s = NonNulString32::new();
    assert_eq![s.push('€'), 3];
    assert_eq![s.push('a'), 1];
    assert![s.is_full()];
    assert_eq![s.len(), 4];
    assert_eq![s.into_array(), [0xE2, 0x82, 0xAC, 0x61]];
    assert_eq![s.pop_unchecked(), 'a'];
    assert_eq![s.len(), 3];
    assert_eq![s.try_pop(), Ok('€')];
    assert_eq![s.as_array(), [0, 0, 0, 0]];
    assert_eq![s.try_pop(), Err(TextosError::NotEnoughElements(1))];
    assert_eq![s.pop(), None];
    assert_eq![s.push('ñ'), 2];
    assert_eq![s.as_str(), "ñ"];
}

#[test]
fn non_nul_from_chars() {
    assert_eq![NonNulString8::from_char7(Char7::try_from_char('a').unwrap()).as_str(), "a"];
    assert_eq![NonNulString8::from_char7(Char7::default()).as_str(), ""];
    assert_eq![NonNulString16::from_char8(Char8::try_from_char('ñ').unwrap()).as_str(), "ñ"];
    assert_eq![NonNulString8::from_char8(Char8::try_from_char('a').unwrap()).as_str(), "a"];
    assert_eq![NonNulString24::from_char16(Char16::try_from_char('€').unwrap()).as_str(), "€"];
    assert_eq![NonNulString32::from_char24(Char24::from_char('\u{1D160}')).as_str(), "\u{1D160}"];
    assert_eq![NonNulString32::from_char32(Char32::from_char('ñ')).as_array(), [0xC3, 0xB1, 0, 0]];
    assert_eq![NonNulString32::from_char('\0').len(), 0];
    assert_eq![StaticNonNulString::<0>::from_char('\0').len(), 0];
    assert_eq![NonNulString64::from_char('\u{10FFFF}').len(), 4];
}

#[test]
fn non_nul_queries() {
    assert_eq![NonNulString32::capacity(), 4];
    let mut s = NonNulString32::new();
    assert![s.is_empty() && !s.is_full()];
    assert_eq![(s.len(), s.remaining_capacity()), (0, 4)];
    s.push_str("abñ");
    assert_eq![s.chars().collect::<Vec<char>>(), vec!['a', 'b', 'ñ']];
    assert_eq![s.to_cstring(), vec![b'a', b'b', 0xC3, 0xB1, 0]];
    s.clear();
    assert_eq![s.as_array(), [0; 4]];
    assert_eq![s.to_cstring(), vec![0]];
    let empty = StaticNonNulString::<0>::new();
    assert![empty.is_empty() && empty.is_full()];
}

#[test]
fn non_nul_unchecked_tier() {
    let mut s = NonNulString32::new();
    assert_eq![s.push_unchecked('€'), 3];
    assert_eq![s.push_unchecked('a'), 1];
    assert_eq![s.as_str(), "€a"];
    assert_eq![s.pop_unchecked(), 'a'];
    assert_eq![s.pop_unchecked(), '€'];
    assert![s.is_empty()];
}

#[test]
fn non_nul_stays_valid_and_free_of_nul() {
    let mut s = NonNulString128::new();
    let scalars = ['a', 'ñ', '€', '\u{1D160}', '\0', '\u{10FFFF}', 'z', '\u{7FF}', '\u{800}'];
    let texts = ["", "ab", "a\0b", "\0", "ñ€", "x\0\u{1D160}y", "\0\0€\0", "abcdefghijklmnopq"];
    let mut seed: u32 = 2024;
    let mut model = String::new();
    for _ in 0..3000 {
        seed = seed.wrapping_mul(1664525).wrapping_add(1013904223);
        let pick = (seed >> 16) as usize;
        if pick % 4 == 0 {
            assert_eq![s.pop(), model.pop()];
        } else if pick % 89 == 1 {
            s.clear();
            model.clear();
        } else if pick % 4 == 1 {
            let text = texts[pick % texts.len()];
            let mut expected = 0;
            for c in text.chars() {
                if c != '\0' {
                    if model.len() + c.len_utf8() > 16 {
                        break;
                    }
                    model.push(c);
                    expected += c.len_utf8();
                }
            }
            assert_eq![s.push_str(text), expected];
        } else {
            let c = scalars[pick % scalars.len()];
            let n = s.push(c);
            if c != '\0' && model.len() + c.len_utf8() <= 16 {
                assert_eq![n, c.len_utf8()];
                model.push(c);
            } else {
                assert_eq![n, 0];
            }
        }
        assert_eq![std::str::from_utf8(s.as_bytes()), Ok(model.as_str())];
        assert![!s.as_bytes().contains(&0)];
        assert_eq![s.len(), model.len()];
        assert_eq![s.remaining_capacity(), 16 - model.len()];
        assert![s.as_array()[s.len()..].iter().all(|b| *b == 0)];
    }
}
