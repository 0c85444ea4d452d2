use textos::error::TextosError;
use textos::fmt::indent::indent;
use textos::unicode::draw::box_drawing::{BoxDrawing, BoxDrawingPiece, BoxDrawingThickness};

#[test]
fn indent_lines() {
    assert_eq!["  foo\n  bar", &indent(2, "foo\nbar")];
    assert_eq!["  foo\n  bar", &indent(2, "foo\nbar\n")];
    assert_eq!["  foo\n  bar", &indent(2, "foo\r\nbar\r\n")];
    assert_eq!["foo\nbar", &indent(0, "foo\nbar")];
    assert_eq!["", &indent(3, "")];
    assert_eq!["   ", &indent(3, "\n")];
    assert_eq![" a\n \n b", &indent(1, "a\n\nb")];
    assert_eq![" a\r", &indent(1, "a\r")];
    assert_eq![" a\r", &indent(1, "a\r\r\n")];
    assert_eq![" \r", &indent(1, "\r")];
    assert_eq!["    ñ €", &indent(4, "ñ €")];
    for text in ["", "a", "a\n", "\n\n", "a\r\nb\r", "\r\n\r\n", "x\n\ny\n", "\r", "a\rb\n\rc"] {
        let expected = text.lines().map(|l| format!("  {}", l)).collect::<Vec<String>>().join("\n");
        assert_eq![indent(2, text), expected];
    }
}

#[test]
fn error_messages() {
    assert_eq![TextosError::OutOfBounds.to_string(), "The value is out of bounds."];
    assert_eq![TextosError::NotEnoughCapacity(4).to_string(), "Not enough capacity. Needed: 4"];
    assert_eq![TextosError::NotEnoughCapacity(0).to_string(), "Not enough capacity. Needed: 0"];
    assert_eq![TextosError::NotEnoughCapacity(1203).to_string(), "Not enough capacity. Needed: 1203"];
    assert_eq![
        TextosError::NotEnoughElements(usize::MAX).to_string(),
        format!("Not enough elements. Needed: {}", usize::MAX)
    ];
    assert_eq![TextosError::NotEnoughElements(10).to_string(), "Not enough elements. Needed: 10"];
    assert_eq![TextosError::Error(String::from("no")).to_string(), "Error: no"];
    let bad = [0xFFu8];
    let e = std::str::from_utf8(&bad).unwrap_err();
    assert_eq![TextosError::from(e).to_string(), format!("{:?}", e)];
    assert![TextosError::from(e).is_utf8()];
    assert_eq![TextosError::from(e), TextosError::Utf8(e)];
    assert![!TextosError::OutOfBounds.is_utf8()];
    assert![!TextosError::NotEnoughCapacity(1).is_utf8()];
}

#[test]
fn box_drawing_pieces() {
    let all = [
        BoxDrawingPiece::Horizontal,
        BoxDrawingPiece::Vertical,
        BoxDrawingPiece::DownRight,
        BoxDrawingPiece::DownLeft,
        BoxDrawingPiece::UpRight,
        BoxDrawingPiece::UpLeft,
        BoxDrawingPiece::VerticalRight,
        BoxDrawingPiece::VerticalLeft,
        BoxDrawingPiece::DownHorizontal,
        BoxDrawingPiece::UpHorizontal,
        BoxDrawingPiece::VerticalHorizontal,
    ];
    let light: Vec<char> = all.iter().map(|p| BoxDrawing::piece(*p, BoxDrawingThickness::Light)).collect();
    assert_eq![light, vec!['─', '│', '┌', '┐', '└', '┘', '├', '┤', '┬', '┴', '┼']];
    let heavy: Vec<char> = all.iter().map(|p| BoxDrawing::piece(*p, BoxDrawingThickness::Heavy)).collect();
    assert_eq![heavy, vec!['━', '┃', '┏', '┓', '┗', '┛', '┣', '┫', '┳', '┻', '╋']];
    let double: Vec<char> = all.iter().map(|p| BoxDrawing::piece(*p, BoxDrawingThickness::Double)).collect();
    assert_eq![double, vec!['═', '║', '╔', '╗', '╚', '╝', '╠', '╣', '╦', '╩', '╬']];
    let round: Vec<char> = all.iter().map(|p| BoxDrawing::piece(*p, BoxDrawingThickness::Round)).collect();
    assert_eq![round, vec!['─', '│', '┏', '┓', '┗', '┛', '├', '┤', '┬', '┴', '┼']];

    let mut b = BoxDrawing::new(BoxDrawingThickness::Double);
    assert_eq![b.thickness(), BoxDrawingThickness::Double];
    assert_eq![b.p(BoxDrawingPiece::UpLeft), '╝'];
    b.set_thickness(BoxDrawingThickness::Light);
    assert_eq![b.thickness(), BoxDrawingThickness::Light];
    assert_eq![b.p(BoxDrawingPiece::UpLeft), BoxDrawing::UP_LEFT_LIGHT];
    assert_eq![BoxDrawing::DOWN_RIGHT_ROUND, '╭'];
}
