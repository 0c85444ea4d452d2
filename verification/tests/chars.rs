use textos::error::TextosError;
use textos::unicode::char::is_noncharacter;
use textos::unicode::char::scalar::{Chars, UnicodeScalar};
use textos::unicode::char::{
    char_utf8_2bytes_len, char_utf8_3bytes_len, char_utf8_4bytes_len, Char16, Char24, Char32,
    Char7, Char8,
};

#[test]
fn char_encodings() {
    let c1 = '\u{000061}'; // a
    let c2 = '\u{0000B1}'; // ±
    let c3 = '\u{0020AC}'; // €
    let c4 = '\u{01D160}'; // 𝅘𝅥𝅮

    assert![c1.byte_len() == 1 && c1.len_utf8() == 1 && c1.len_utf16() == 1];
    assert![c2.byte_len() == 1 && c2.len_utf8() == 2 && c2.len_utf16() == 1];
    assert![c3.byte_len() == 2 && c3.len_utf8() == 3 && c3.len_utf16() == 1];
    assert![c4.byte_len() == 3 && c4.len_utf8() == 4 && c4.len_utf16() == 2];

    assert![Char8::try_from(c1).is_ok()];
    assert![Char8::try_from(c2).is_ok()];
    assert![Char8::try_from(c3).is_err()];
    assert![Char8::try_from(c4).is_err()];

    assert![Char16::try_from(c1).is_ok()];
    assert![Char16::try_from(c2).is_ok()];
    assert![Char16::try_from(c3).is_ok()];
    assert![Char16::try_from(c4).is_err()];

    assert![Char24::try_from(c1).is_ok()];
    assert![Char24::try_from(c2).is_ok()];
    assert![Char24::try_from(c3).is_ok()];
    assert![Char24::try_from(c4).is_ok()];

    assert![Char32::try_from(c1).is_ok()];
    assert![Char32::try_from(c2).is_ok()];
    assert![Char32::try_from(c3).is_ok()];
    assert![Char32::try_from(c4).is_ok()];

    //

    let c8_1 = Char8::try_from(c1).unwrap();
    let c16_1 = Char16::try_from(c1).unwrap();
    let c24_1 = Char24::from(c1);
    let c32_1 = Char32::from(c1);

    assert![c8_1.to_char() == c1];
    assert![c16_1.to_char() == c1];
    assert![c24_1.to_char() == c1];
    assert![c32_1.to_char() == c1];

    //

    let c8_2 = Char8::try_from(c2).unwrap();
    let c16_2 = Char16::try_from(c2).unwrap();
    let c24_2 = Char24::from(c2);
    let c32_2 = Char32::from(c2);

    assert![c8_2.to_char() == c2];
    assert![c16_2.to_char() == c2];
    assert![c24_2.to_char() == c2];
    assert![c32_2.to_char() == c2];

    //

    let c16_3 = Char16::try_from(c3).unwrap();
    let c24_3 = Char24::from(c3);
    let c32_3 = Char32::from(c3);

    assert![c16_3.to_char() == c3];
    assert![c24_3.to_char() == c3];
    assert![c32_3.to_char() == c3];

    //

    let c24_4 = Char24::from(c4);
    let c32_4 = Char32::from(c4);

    assert![c24_4.to_char() == c4];
    assert![c32_4.to_char() == c4];

    //

    assert_eq![Char16::from(Char8::try_from(c1).unwrap()).to_char(), c1];
    assert_eq![Char24::from(Char8::try_from(c2).unwrap()).to_char(), c2];
    assert_eq![Char24::from(Char16::try_from(c3).unwrap()).to_char(), c3];
}

#[test]
fn char_conversions() {
    let a32 = 'a';
    let a8 = Char8::try_from(a32).unwrap();
    let a16 = Char16::try_from(a32).unwrap();
    let a24 = Char24::try_from(a32).unwrap();

    assert_eq![a16, a8.into()];
    assert_eq![a24, a8.into()];
}

#[test]
fn narrowing_out_of_range() {
    let c = '\u{1D160}';
    assert_eq![Char7::try_from_char(c), Err(TextosError::OutOfBounds)];
    assert_eq![Char8::try_from_char(c), Err(TextosError::OutOfBounds)];
    assert_eq![Char16::try_from_char(c), Err(TextosError::OutOfBounds)];
    assert_eq![Char24::from_char(c).to_u32(), 0x1D160];
    assert_eq![Char32::from_char(c).to_u32(), 0x1D160];

    assert_eq![Char7::try_from_char('\u{80}'), Err(TextosError::OutOfBounds)];
    assert_eq![Char7::try_from_char('\u{7F}').unwrap().to_u32(), 0x7F];
    assert_eq![Char8::try_from_char('\u{100}'), Err(TextosError::OutOfBounds)];
    assert_eq![Char8::try_from_char('\u{FF}').unwrap().to_u32(), 0xFF];
    assert_eq![Char16::try_from_char('\u{10000}'), Err(TextosError::OutOfBounds)];
    assert_eq![Char16::try_from_char('\u{FFFF}').unwrap().to_u32(), 0xFFFF];

    assert_eq![Char8::try_from(Char16::try_from_char('€').unwrap()), Err(TextosError::OutOfBounds)];
    assert_eq![Char16::try_from(Char24::from_char(c)), Err(TextosError::OutOfBounds)];
    assert_eq![Char7::try_from(Char32::from_char('ñ')), Err(TextosError::OutOfBounds)];
}

#[test]
fn width_conversions_commute_with_char() {
    for c in ['\0', 'a', '\u{7F}', '\u{80}', 'ñ', '\u{FF}', '€', '\u{D7FF}', '\u{E000}', '\u{FFFF}', '\u{10000}', '\u{10FFFF}'] {
        let wide = Char24::from(c);
        assert_eq![wide.to_char(), c];
        assert_eq![Char32::from(wide).to_char(), c];
        assert_eq![Char24::from(Char32::from(c)), wide];
        if let Ok(c16) = Char16::try_from(c) {
            assert![c as u32 <= 0xFFFF];
            assert_eq![c16.to_char(), c];
            assert_eq![Char24::from(c16), wide];
            assert_eq![Char16::try_from(wide), Ok(c16)];
        } else {
            assert![c as u32 > 0xFFFF];
        }
        if let Ok(c8) = Char8::try_from(c) {
            assert![c as u32 <= 0xFF];
            assert_eq![c8.to_char(), c];
            assert_eq![Char16::from(c8).to_char(), c];
            assert_eq![Char8::try_from(Char16::from(c8)), Ok(c8)];
            assert_eq![Char8::try_from(wide), Ok(c8)];
        } else {
            assert![c as u32 > 0xFF];
        }
        if let Ok(c7) = Char7::try_from(c) {
            assert![c as u32 <= 0x7F];
            assert_eq![c7.to_char(), c];
            assert_eq![Char8::from(c7).to_char(), c];
            assert_eq![Char7::try_from(Char8::from(c7)), Ok(c7)];
            assert_eq![char::from(c7), c];
        } else {
            assert![c as u32 > 0x7F];
        }
        assert_eq![char::from(wide), c];
    }
}

#[test]
fn noncharacters() {
    assert![is_noncharacter(0xFDD0)];
    assert![is_noncharacter(0xFDEF)];
    assert![!is_noncharacter(0xFDF0)];
    assert![!is_noncharacter(0xFDCF)];
    assert![is_noncharacter(0xFFFE)];
    assert![is_noncharacter(0xFFFF)];
    assert![!is_noncharacter(0xFFFD)];
    assert![is_noncharacter(0x1FFFE)];
    assert![is_noncharacter(0x10FFFF)];
    assert![!is_noncharacter(0x10000)];
    assert![is_noncharacter(0x2FE0)];
    assert![is_noncharacter(0x2FEF)];
    assert![!is_noncharacter(0x2FDF)];
    assert![!is_noncharacter(0x2FF0)];
    assert![!is_noncharacter(0x61)];

    assert![Char16::try_from_char('\u{FFFE}').unwrap().is_noncharacter()];
    assert![!Char16::try_from_char('\u{FFFE}').unwrap().is_character()];
    assert![Char24::from_char('\u{1FFFE}').is_noncharacter()];
    assert![Char32::from_char('\u{FDD0}').is_noncharacter()];
    assert![Char8::try_from_char('a').unwrap().is_character()];
    assert![!Char7::try_from_char('a').unwrap().is_noncharacter()];
    assert![UnicodeScalar::is_noncharacter('\u{FDEF}')];
    assert![UnicodeScalar::is_character('\u{FDF0}')];
}

#[test]
fn scalar_lengths() {
    let a = Char8::try_from_char('a').unwrap();
    assert_eq![(a.byte_len(), a.len_utf8(), a.len_utf16()), (1, 1, 1)];
    let m = Char24::from_char('\u{1D160}');
    assert_eq![(m.byte_len(), m.len_utf8(), m.len_utf16()), (3, 4, 2)];
    let e = Char16::try_from_char('€').unwrap();
    assert_eq![(e.byte_len(), e.len_utf8(), e.len_utf16()), (2, 3, 1)];
    let n = Char32::from_char('ñ');
    assert_eq![(n.byte_len(), n.len_utf8(), n.len_utf16()), (1, 2, 1)];
    let z = Char7::try_from_char('z').unwrap();
    assert_eq![(z.byte_len(), z.len_utf8(), z.len_utf16()), (1, 1, 1)];
    for c in ['\0', '\u{7F}', '\u{80}', '\u{7FF}', '\u{800}', '\u{FFFF}', '\u{10000}', '\u{10FFFF}'] {
        assert_eq![Char24::from_char(c).len_utf8(), c.len_utf8()];
        assert_eq![Char32::from_char(c).len_utf16(), c.len_utf16()];
        assert_eq![UnicodeScalar::len_utf8(c), c.len_utf8()];
    }
}

#[test]
fn utf8_bytes() {
    assert_eq![Char7::try_from_char('a').unwrap().to_utf8_bytes(), [0x61]];
    assert_eq![Char8::try_from_char('a').unwrap().to_utf8_bytes(), [0x61, 0]];
    assert_eq![Char8::try_from_char('ñ').unwrap().to_utf8_bytes(), [0xC3, 0xB1]];
    assert_eq![Char16::try_from_char('ñ').unwrap().to_utf8_bytes(), [0xC3, 0xB1, 0]];
    assert_eq![Char16::try_from_char('€').unwrap().to_utf8_bytes(), [0xE2, 0x82, 0xAC]];
    assert_eq![Char24::from_char('€').to_utf8_bytes(), [0xE2, 0x82, 0xAC, 0]];
    assert_eq![Char32::from_char('\u{1D160}').to_utf8_bytes(), [0xF0, 0x9D, 0x85, 0xA0]];
    assert_eq![Char32::from_char('\0').to_utf8_bytes(), [0, 0, 0, 0]];
    assert_eq![UnicodeScalar::to_utf8_bytes('ñ'), [0xC3, 0xB1, 0, 0]];
    assert_eq![UnicodeScalar::to_utf8_bytes(Char8::try_from_char('ñ').unwrap()), [0xC3, 0xB1, 0, 0]];
    for c in ['\0', 'a', 'ñ', '€', '\u{1D160}', '\u{10FFFF}', '\u{D7FF}', '\u{E000}'] {
        let mut buf = [0u8; 4];
        let n = c.encode_utf8(&mut buf).len();
        assert_eq![Char32::from_char(c).to_utf8_bytes(), buf];
        if c != '\0' {
            assert_eq![char_utf8_4bytes_len(buf) as usize, n];
        }
    }
    assert_eq![char_utf8_2bytes_len([0x61, 0]), 1];
    assert_eq![char_utf8_2bytes_len([0xC3, 0xB1]), 2];
    assert_eq![char_utf8_2bytes_len([0, 0]), 1];
    assert_eq![char_utf8_3bytes_len([0xE2, 0x82, 0xAC]), 3];
    assert_eq![char_utf8_3bytes_len([0xC3, 0xB1, 0]), 2];
    assert_eq![char_utf8_4bytes_len([0xF0, 0x9D, 0x85, 0xA0]), 4];
    assert_eq![char_utf8_4bytes_len([0x61, 0, 0, 0]), 1];
}

#[test]
fn encode_into_buffers() {
    let mut buf = [0xAAu8; 6];
    {
        let s = UnicodeScalar::encode_utf8(Char16::try_from_char('€').unwrap(), &mut buf);
        assert_eq![s, "€"];
    }
    assert_eq![buf, [0xE2, 0x82, 0xAC, 0xAA, 0xAA, 0xAA]];

    let mut buf = [0u8; 4];
    assert_eq![UnicodeScalar::encode_utf8('\u{1D160}', &mut buf), "\u{1D160}"];
    assert_eq![buf, [0xF0, 0x9D, 0x85, 0xA0]];

    let mut wide = [7u16; 3];
    {
        let units = UnicodeScalar::encode_utf16(Char24::from_char('\u{1D160}'), &mut wide);
        assert_eq![units, [0xD834, 0xDD60]];
    }
    assert_eq![wide, [0xD834, 0xDD60, 7]];

    let mut wide = [7u16; 2];
    assert_eq![UnicodeScalar::encode_utf16(Char8::try_from_char('ñ').unwrap(), &mut wide), [0xF1]];
    assert_eq![wide, [0xF1, 7]];
}

#[test]
fn ascii_case_and_digits() {
    let a = Char8::try_from_char('a').unwrap();
    assert_eq![a.to_ascii_uppercase().to_char(), 'A'];
    assert_eq![a.to_ascii_uppercase().to_ascii_lowercase(), a];
    assert_eq![Char8::try_from_char('ñ').unwrap().to_ascii_uppercase().to_char(), 'ñ'];
    assert_eq![Char7::try_from_char('z').unwrap().to_ascii_uppercase().to_char(), 'Z'];
    assert_eq![Char7::try_from_char('{').unwrap().to_ascii_uppercase().to_char(), '{'];
    assert_eq![Char16::try_from_char('Q').unwrap().to_ascii_lowercase().to_char(), 'q'];
    assert_eq![Char24::from_char('`').to_ascii_uppercase().to_char(), '`'];
    assert_eq![Char32::from_char('@').to_ascii_lowercase().to_char(), '@'];
    assert_eq![Char32::from_char('[').to_ascii_lowercase().to_char(), '['];
    assert_eq![UnicodeScalar::to_ascii_uppercase('m'), 'M'];

    assert_eq![a.to_digit(16), Some(10)];
    assert_eq![a.to_digit(10), None];
    assert_eq![Char7::try_from_char('7').unwrap().to_digit(8), Some(7)];
    assert_eq![Char7::try_from_char('8').unwrap().to_digit(8), None];
    assert_eq![Char16::try_from_char('Z').unwrap().to_digit(36), Some(35)];
    assert_eq![Char24::from_char('z').to_digit(36), Some(35)];
    assert_eq![Char32::from_char('1').to_digit(2), Some(1)];
    assert_eq![Char32::from_char('2').to_digit(2), None];
    assert_eq![Char32::from_char('€').to_digit(36), None];
    assert![Char8::try_from_char('f').unwrap().is_digit(16)];
    assert![!Char8::try_from_char('g').unwrap().is_digit(16)];
    for radix in 2..=36 {
        for c in ['0', '1', '9', 'a', 'f', 'z', 'A', 'F', 'Z', '/', ':', '@', '[', '`', '{', 'ñ'] {
            assert_eq![UnicodeScalar::to_digit(c, radix), c.to_digit(radix)];
        }
    }
}

#[test]
fn classification() {
    let a = Char8::try_from_char('a').unwrap();
    assert![UnicodeScalar::is_alphabetic(a)];
    assert![!UnicodeScalar::is_numeric(a)];
    assert![UnicodeScalar::is_alphanumeric(a)];
    assert![UnicodeScalar::is_lowercase(a)];
    assert![!UnicodeScalar::is_uppercase(a)];
    assert![!UnicodeScalar::is_whitespace(a)];
    assert![!UnicodeScalar::is_control(a)];
    assert![a.is_ascii()];
    assert![!a.is_nul()];

    assert![UnicodeScalar::is_uppercase(Char16::try_from_char('Ñ').unwrap())];
    assert![UnicodeScalar::is_numeric(Char7::try_from_char('5').unwrap())];
    assert![UnicodeScalar::is_numeric(Char16::try_from_char('½').unwrap())];
    assert![UnicodeScalar::is_alphanumeric(Char24::from_char('٣'))];
    assert![!UnicodeScalar::is_alphanumeric(Char24::from_char('€'))];
    assert![UnicodeScalar::is_whitespace(Char32::from_char('\u{3000}'))];
    assert![UnicodeScalar::is_whitespace(' ')];
    assert![!Char8::try_from_char('ñ').unwrap().is_ascii()];
    assert![Char24::default().is_nul()];
    assert![UnicodeScalar::is_nul('\0')];

    for c in ['\0', '\u{1F}', ' ', '\u{7E}', '\u{7F}', '\u{9F}', '\u{A0}', 'a', '€'] {
        assert_eq![UnicodeScalar::is_control(c), c.is_control()];
        assert_eq![UnicodeScalar::is_control(Char24::from_char(c)), c.is_control()];
    }
}

#[test]
fn highest_scalars_and_defaults() {
    assert_eq![Char7::max().to_char(), '\u{7F}'];
    assert_eq![Char8::max().to_char(), '\u{FF}'];
    assert_eq![Char16::max().to_char(), '\u{FFFF}'];
    assert_eq![Char24::max().to_char(), '\u{10FFFF}'];
    assert_eq![Char32::max().to_char(), '\u{10FFFF}'];
    assert_eq![<Char8 as UnicodeScalar>::max_scalar(), Char8::max()];
    assert_eq![<char as UnicodeScalar>::max_scalar(), char::MAX];
    assert_eq![Char16::replacement_character().to_char(), '\u{FFFD}'];
    assert_eq![Char24::replacement_character().to_char(), '\u{FFFD}'];
    assert_eq![Char32::replacement_character().to_char(), '\u{FFFD}'];
    assert_eq![Char7::default().to_u32(), 0];
    assert_eq![Char8::default().to_u32(), 0];
    assert_eq![Char16::default().to_u32(), 0];
    assert_eq![Char24::default().to_u32(), 0];
    assert_eq![Char32::default().to_char(), '\0'];
    assert![Char7::try_from_char('a').unwrap() < Char7::try_from_char('b').unwrap()];
    assert![Char24::from_char('\u{FFFF}') < Char24::from_char('\u{10000}')];
}

fn utf8_len_of<T: Chars>(c: T) -> usize {
    c.len_utf8()
}

#[test]
fn chars_trait_gives_the_scalar_interface() {
    assert_eq![utf8_len_of(Char8::try_from_char('ñ').unwrap()), 2];
    assert_eq![utf8_len_of(Char24::from_char('\u{1D160}')), 4];
    assert_eq![utf8_len_of('€'), 3];
}
