use textos::unicode::char::{Char16, Char24, Char32, Char7, Char8};
use textos::unicode::egc::non_nul::{NonNulEgc32, NonNulEgc8, StaticNonNulEgc};
use textos::unicode::egc::string::StringEgc;
use textos::unicode::egc::u8string::{Egc16, Egc32, Egc40, StaticU8Egc};

#[test]
fn string_egc_keeps_the_first_cluster() {
    assert_eq![StringEgc::from("ab").as_str(), "a"];
    assert_eq![StringEgc::from("e\u{301}x").as_str(), "e\u{301}"];
    assert_eq![StringEgc::from(String::from("\r\nz")).as_str(), "\r\n"];
    assert_eq![StringEgc::from("🇪🇸🇫🇷").as_str(), "🇪🇸"];
    assert_eq![StringEgc::from("").as_str(), ""];
    assert_eq![StringEgc::from_str("ñandú").as_str(), "ñ"];
    assert_eq![StringEgc::from_first_grapheme(Some("xy")).as_str(), "xy"];
    assert_eq![StringEgc::from_first_grapheme(None).as_str(), ""];
    assert_eq![StringEgc::from('€').as_str(), "€"];
}

#[test]
fn string_egc_from_chars() {
    assert_eq![StringEgc::from_char7(Char7::try_from_char('a').unwrap()).as_str(), "a"];
    assert_eq![StringEgc::from_char8(Char8::try_from_char('ñ').unwrap()).as_str(), "ñ"];
    assert_eq![StringEgc::from_char8(Char8::try_from_char('a').unwrap()).as_str(), "a"];
    assert_eq![StringEgc::from_char16(Char16::try_from_char('€').unwrap()).as_str(), "€"];
    assert_eq![StringEgc::from_char24(Char24::from_char('\u{1D160}')).as_str(), "\u{1D160}"];
    assert_eq![StringEgc::from_char32(Char32::from_char('z')).as_str(), "z"];
    assert_eq![StringEgc::from_char('ñ').len(), 2];
    assert_eq![StringEgc::from_char('\0').as_str(), "\0"];
}

#[test]
fn string_egc_queries() {
    let mut e = StringEgc::new();
    assert![e.is_empty()];
    assert_eq![e.len(), 0];
    assert_eq![e, StringEgc::default()];
    e = StringEgc::from("e\u{301}x");
    assert![!e.is_empty()];
    assert_eq![e.len(), 3];
    assert_eq![e.chars().collect::<Vec<char>>(), vec!['e', '\u{301}']];
    e.clear();
    assert![e.is_empty()];
}

#[test]
fn static_u8_egc() {
    let mut e = Egc32::from_char('€');
    assert_eq![e.as_str(), "€"];
    assert_eq![(e.len(), e.remaining_capacity()), (3, 0)];
    assert![e.is_full() && !e.is_empty()];
    assert_eq![e.as_bytes(), [0xE2, 0x82, 0xAC]];
    assert_eq![e.as_array(), [0xE2, 0x82, 0xAC]];
    assert_eq![e.chars().collect::<Vec<char>>(), vec!['€']];
    assert_eq![e.to_cstring(), vec![0xE2, 0x82, 0xAC, 0]];
    e.clear();
    assert![e.is_empty()];
    assert_eq![e.clone().into_array(), [0xE2, 0x82, 0xAC]];
    assert_eq![Egc32::capacity(), 3];
    assert_eq![Egc16::new().len(), 0];
    assert_eq![Egc16::from_char7(Char7::try_from_char('a').unwrap()).as_str(), "a"];
    assert_eq![Egc32::from_char8(Char8::try_from_char('ñ').unwrap()).as_str(), "ñ"];
    assert_eq![Egc32::from_char16(Char16::try_from_char('€').unwrap()).as_str(), "€"];
    assert_eq![Egc40::from_char24(Char24::from_char('\u{1D160}')).as_str(), "\u{1D160}"];
    assert_eq![Egc40::from_char32(Char32::from_char('a')).as_array(), [0x61, 0, 0, 0]];
    assert_eq![StaticU8Egc::<4>::from_char('\0').len(), 1];
}

#[test]
fn static_non_nul_egc() {
    let mut e = NonNulEgc32::from_char('€');
    assert_eq![e.as_str(), "€"];
    assert_eq![(e.len(), e.remaining_capacity()), (3, 1)];
    assert![!e.is_full() && !e.is_empty()];
    assert_eq![e.as_bytes(), [0xE2, 0x82, 0xAC]];
    assert_eq![e.as_array(), [0xE2, 0x82, 0xAC, 0]];
    assert_eq![e.chars().collect::<Vec<char>>(), vec!['€']];
    assert_eq![e.to_cstring(), vec![0xE2, 0x82, 0xAC, 0]];
    e.clear();
    assert![e.is_empty()];
    assert_eq![e.clone().into_array(), [0, 0, 0, 0]];
    assert_eq![NonNulEgc32::capacity(), 4];
    assert_eq![NonNulEgc8::new().len(), 0];
    assert_eq![NonNulEgc8::from_char7(Char7::try_from_char('a').unwrap()).as_str(), "a"];
    assert_eq![NonNulEgc32::from_char8(Char8::try_from_char('ñ').unwrap()).as_str(), "ñ"];
    assert_eq![NonNulEgc32::from_char16(Char16::try_from_char('€').unwrap()).as_str(), "€"];
    assert_eq![NonNulEgc32::from_char24(Char24::from_char('\u{1D160}')).as_str(), "\u{1D160}"];
    assert_eq![NonNulEgc32::from_char32(Char32::from_char('a')).as_array(), [0x61, 0, 0, 0]];
    assert_eq![StaticNonNulEgc::<4>::from_char('\0').len(), 0];
}
