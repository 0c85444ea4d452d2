use std::mem::size_of;
use textos::error::TextosError;
use textos::unicode::char::{Char16, Char24, Char32, Char7, Char8};
use textos::unicode::string::u8string::{
    StaticU8String, String1024, String128, String16, String2048, String24, String256, String32,
    String40, String512, String64,
};

#[test]
fn sizes() {
    assert_eq![8, size_of::<usize>()];

    assert_eq![8, size_of::<String64>()];
    assert_eq![16, size_of::<String128>()];
    assert_eq![32, size_of::<String256>()];
    assert_eq![64, size_of::<String512>()];
    assert_eq![128, size_of::<String1024>()];
    assert_eq![256, size_of::<String2048>()];
}

#[test]
fn array_string_push() {
    let mut s = String32::new(); // max capacity == 3

    assert![s.try_push('ñ').is_ok()];
    assert_eq![2, s.len()];
    assert![s.try_push('ñ').is_err()];
    assert_eq![2, s.len()];
    assert![s.try_push('a').is_ok()];
    assert_eq![3, s.len()];
}

#[test]
fn array_string_pop() {
    let mut s = String32::new(); // max capacity == 3

    s.push('ñ');
    s.push('a');
    assert_eq![Some('a'), s.pop()];
    assert_eq![Some('ñ'), s.pop()];
    assert_eq![None, s.pop()];
}

#[test]
fn sized_push() {
    let mut s = String32::new(); // max capacity == 3

    assert![s.try_push('ñ').is_ok()];
    assert_eq![2, s.len()];
    assert![s.try_push('ñ').is_err()];
    assert_eq![2, s.len()];
    assert![s.try_push('a').is_ok()];
    assert_eq![3, s.len()];
}

#[test]
fn sized_pop() {
    let mut s = String32::new(); // max capacity == 3

    s.push('ñ');
    s.push('a');
    assert_eq![Some('a'), s.pop()];
    assert_eq![Some('ñ'), s.pop()];
    assert_eq![None, s.pop()];
}

#[test]
fn u8string_push() {
    let mut s = String32::new(); // max capacity == 3

    assert![s.try_push('ñ').is_ok()];
    assert_eq![2, s.len()];
    assert![s.try_push('ñ').is_err()];
    assert_eq![2, s.len()];
    assert![s.try_push('a').is_ok()];
    assert_eq![3, s.len()];
}

#[test]
fn u8string_pop() {
    let mut s = String32::new(); // max capacity == 3

    s.push('ñ');
    s.push('a');
    assert_eq![Some('a'), s.pop()];
    assert_eq![Some('ñ'), s.pop()];
    assert_eq![None, s.pop()];
}

#[test]
fn u8string_scenario_push_and_pop() {
    let mut s = String32::new();
    assert_eq![s.try_push('ñ'), Ok(2)];
    assert_eq![s.len(), 2];
    assert_eq![s.try_push('ñ'), Err(TextosError::NotEnoughCapacity(2))];
    assert_eq![s.len(), 2];
    assert_eq![s.remaining_capacity(), 1];
    assert_eq![s.try_push('a'), Ok(1)];
    assert_eq![s.len(), 3];
    assert![s.is_full()];
    assert_eq![s.as_str(), "ña"];

    assert_eq![s.pop(), Some('a')];
    assert_eq![s.len(), 2];
    assert_eq![s.pop(), Some('ñ')];
    assert_eq![s.len(), 0];
    assert_eq![s.pop(), None];
    assert_eq![s.try_pop(), Err(TextosError::NotEnoughElements(1))];
}

#[test]
fn u8string_push_pop_round_trip() {
    for c in ['\0', 'a', 'ñ', '€', '\u{1D160}', '\u{10FFFF}', '\u{80}', '\u{7FF}', '\u{800}', '\u{FFFF}'] {
        let mut s = String64::new();
        s.push('x');
        s.push('ñ');
        let n = s.len();
        let rem = s.remaining_capacity();
        let text = String::from(s.as_str());
        assert_eq![s.push(c), c.len_utf8()];
        assert_eq![s.len(), n + c.len_utf8()];
        assert_eq![s.remaining_capacity(), rem - c.len_utf8()];
        assert![std::str::from_utf8(s.as_bytes()).is_ok()];
        assert_eq![s.pop(), Some(c)];
        assert_eq![s.len(), n];
        assert_eq![s.as_str(), text];
    }
}

#[test]
fn u8string_failed_push_changes_nothing() {
    let mut s = String24::new();
    assert_eq![s.push('€'), 0];
    assert_eq![s.try_push('\u{1D160}'), Err(TextosError::NotEnoughCapacity(4))];
    assert_eq![(s.len(), s.remaining_capacity()), (0, 2)];
    assert_eq![s.push('a'), 1];
    let before = s;
    assert_eq![s.push('ñ'), 0];
    assert_eq![s.try_push('ñ'), Err(TextosError::NotEnoughCapacity(2))];
    assert_eq![s, before];
    assert_eq![(s.len(), s.remaining_capacity()), (1, 1)];
}

#[test]
fn u8string_stays_valid_utf8() {
    let mut s = String128::new();
    let scalars = ['a', 'ñ', '€', '\u{1D160}', '\0', '\u{10FFFF}', 'z', '\u{7FF}', '\u{800}'];
    let mut seed: u32 = 12345;
    let mut model = String::new();
    for _ in 0..2000 {
        seed = seed.wrapping_mul(1664525).wrapping_add(1013904223);
        let pick = (seed >> 16) as usize;
        if pick % 3 == 0 {
            assert_eq![s.pop(), model.pop()];
        } else if pick % 97 == 1 {
            s.clear();
            model.clear();
        } else {
            let c = scalars[pick % scalars.len()];
            if s.push(c) > 0 {
                model.push(c);
            } else {
                assert![model.len() + c.len_utf8() > 15];
            }
        }
        assert_eq![std::str::from_utf8(s.as_bytes()), Ok(model.as_str())];
        assert_eq![s.as_str(), model];
        assert_eq![s.len(), model.len()];
        assert![s.len() <= String128::capacity()];
    }
}

#[test]
fn u8string_clear_and_reset() {
    let mut s = String32::from_char('€');
    assert_eq![s.as_array(), [0xE2, 0x82, 0xAC]];
    s.clear();
    assert![s.is_empty()];
    assert_eq![s.as_bytes(), b""];
    assert_eq![s.as_array(), [0xE2, 0x82, 0xAC]];
    s.push('a');
    assert_eq![s.as_bytes(), b"a"];
    assert_eq![s.into_array(), [0x61, 0x82, 0xAC]];
    s.reset();
    assert![s.is_empty()];
    assert_eq![s.as_array(), [0, 0, 0]];
}

#[test]
fn u8string_from_chars() {
    assert_eq![String16::from_char7(Char7::try_from_char('a').unwrap()).as_str(), "a"];
    assert_eq![String24::from_char8(Char8::try_from_char('ñ').unwrap()).as_str(), "ñ"];
    assert_eq![String16::from_char8(Char8::try_from_char('a').unwrap()).as_str(), "a"];
    assert_eq![String32::from_char16(Char16::try_from_char('€').unwrap()).as_str(), "€"];
    assert_eq![String40::from_char24(Char24::from_char('\u{1D160}')).as_str(), "\u{1D160}"];
    assert_eq![String40::from_char32(Char32::from_char('ñ')).as_array(), [0xC3, 0xB1, 0, 0]];
    assert_eq![String40::from_char('\u{10FFFF}').len(), 4];
    let nul = String16::from_char('\0');
    assert_eq![nul.len(), 1];
    assert_eq![nul.as_str(), "\0"];
}

#[test]
fn u8string_queries() {
    assert_eq![String32::capacity(), 3];
    assert_eq![String2048::capacity(), 255];
    let mut s = String64::new();
    assert![s.is_empty() && !s.is_full()];
    s.push('a');
    s.push('€');
    assert_eq![s.chars().collect::<Vec<char>>(), vec!['a', '€']];
    assert_eq![s.to_cstring(), vec![0x61, 0xE2, 0x82, 0xAC, 0]];
    let empty = StaticU8String::<0>::new();
    assert![empty.is_empty() && empty.is_full()];
}

#[test]
fn u8string_unchecked_tier() {
    let mut s = String40::new();
    assert_eq![s.push_unchecked('€'), 3];
    assert_eq![s.push_unchecked('\0'), 1];
    assert_eq![s.as_str(), "€\0"];
    assert_eq![s.pop_unchecked(), '\0'];
    assert_eq![s.pop_unchecked(), '€'];
    assert![s.is_empty()];
    let t = String32::from_char('ñ');
    assert_eq![&*t, "ñ"];
    assert_eq![t.to_uppercase(), "Ñ"];
}
