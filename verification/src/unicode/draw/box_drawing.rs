//! Box-drawing characters.
//!
//! A form of graphical text elements used in monospaced fonts. They can be
//! used to create tables, charts, frames, and other structures within
//! text-only environments.

use vstd::prelude::*;

verus! {

/// The piece of a box that a character draws.
#[derive(Clone, Copy, Debug, PartialEq, Eq, Structural)]
pub enum BoxDrawingPiece {
    Horizontal,
    Vertical,
    DownRight,
    DownLeft,
    UpRight,
    UpLeft,
    VerticalRight,
    VerticalLeft,
    DownHorizontal,
    UpHorizontal,
    VerticalHorizontal,
}

#[allow(non_upper_case_globals)]
impl BoxDrawingPiece {
    // Aliases: the same pieces, with the two directions the other way round.
    pub const RightDown: Self = Self::DownRight;

    pub const LeftDown: Self = Self::DownLeft;

    pub const LeftRight: Self = Self::UpRight;

    pub const LeftUp: Self = Self::UpLeft;

    pub const RightVertical: Self = Self::VerticalRight;

    pub const LeftVertical: Self = Self::VerticalLeft;

    pub const HorizontalDown: Self = Self::DownHorizontal;

    pub const HorizontalUp: Self = Self::UpHorizontal;

    pub const HorizontalVertical: Self = Self::VerticalHorizontal;

    // Abbreviations.
    pub const H: Self = Self::Horizontal;

    pub const V: Self = Self::Vertical;

    pub const RD: Self = Self::DownRight;

    pub const LD: Self = Self::DownLeft;
}

/// The thickness of the lines of a box.
#[derive(Clone, Copy, Debug, PartialEq, Eq, Structural)]
pub enum BoxDrawingThickness {
    /// Light lines.
    Light,
    /// Heavy lines.
    Heavy,
    /// Double lines.
    Double,
    /// Round: light walls and joints, with the corners of the heavy set.
    Round,
}

/// A set of box-drawing characters of one thickness.
pub struct BoxDrawing {
    thickness: BoxDrawingThickness,
}

/// The code point of the light character for `piece`, in the block
/// `U+2500..=U+257F`.
pub open spec fn light_code(piece: BoxDrawingPiece) -> u32 {
    match piece {
        BoxDrawingPiece::Horizontal => 0x2500,
        BoxDrawingPiece::Vertical => 0x2502,
        BoxDrawingPiece::DownRight => 0x250C,
        BoxDrawingPiece::DownLeft => 0x2510,
        BoxDrawingPiece::UpRight => 0x2514,
        BoxDrawingPiece::UpLeft => 0x2518,
        BoxDrawingPiece::VerticalRight => 0x251C,
        BoxDrawingPiece::VerticalLeft => 0x2524,
        BoxDrawingPiece::DownHorizontal => 0x252C,
        BoxDrawingPiece::UpHorizontal => 0x2534,
        BoxDrawingPiece::VerticalHorizontal => 0x253C,
    }
}

/// The code point of the heavy character for `piece`.
pub open spec fn heavy_code(piece: BoxDrawingPiece) -> u32 {
    match piece {
        BoxDrawingPiece::Horizontal => 0x2501,
        BoxDrawingPiece::Vertical => 0x2503,
        BoxDrawingPiece::DownRight => 0x250F,
        BoxDrawingPiece::DownLeft => 0x2513,
        BoxDrawingPiece::UpRight => 0x2517,
        BoxDrawingPiece::UpLeft => 0x251B,
        BoxDrawingPiece::VerticalRight => 0x2523,
        BoxDrawingPiece::VerticalLeft => 0x252B,
        BoxDrawingPiece::DownHorizontal => 0x2533,
        BoxDrawingPiece::UpHorizontal => 0x253B,
        BoxDrawingPiece::VerticalHorizontal => 0x254B,
    }
}

/// The code point of the double character for `piece`.
pub open spec fn double_code(piece: BoxDrawingPiece) -> u32 {
    match piece {
        BoxDrawingPiece::Horizontal => 0x2550,
        BoxDrawingPiece::Vertical => 0x2551,
        BoxDrawingPiece::DownRight => 0x2554,
        BoxDrawingPiece::DownLeft => 0x2557,
        BoxDrawingPiece::UpRight => 0x255A,
        BoxDrawingPiece::UpLeft => 0x255D,
        BoxDrawingPiece::VerticalRight => 0x2560,
        BoxDrawingPiece::VerticalLeft => 0x2563,
        BoxDrawingPiece::DownHorizontal => 0x2566,
        BoxDrawingPiece::UpHorizontal => 0x2569,
        BoxDrawingPiece::VerticalHorizontal => 0x256C,
    }
}

/// True when `piece` is one of the four corners.
pub open spec fn is_corner(piece: BoxDrawingPiece) -> bool {
    ||| piece == BoxDrawingPiece::DownRight
    ||| piece == BoxDrawingPiece::DownLeft
    ||| piece == BoxDrawingPiece::UpRight
    ||| piece == BoxDrawingPiece::UpLeft
}

/// The code point of the character that draws `piece` in `thickness`.
///
/// The round set takes its corners from the heavy set and everything else
/// from the light set.
pub open spec fn piece_code(piece: BoxDrawingPiece, thickness: BoxDrawingThickness) -> u32 {
    match thickness {
        BoxDrawingThickness::Light => light_code(piece),
        BoxDrawingThickness::Heavy => heavy_code(piece),
        BoxDrawingThickness::Double => double_code(piece),
        BoxDrawingThickness::Round => if is_corner(piece) {
            heavy_code(piece)
        } else {
            light_code(piece)
        },
    }
}

impl BoxDrawing {
    // LIGHT
    pub const HORIZONTAL_LIGHT: char = '─';

    pub const VERTICAL_LIGHT: char = '│';

    pub const DOWN_RIGHT_LIGHT: char = '┌';

    pub const DOWN_LEFT_LIGHT: char = '┐';

    pub const UP_RIGHT_LIGHT: char = '└';

    pub const UP_LEFT_LIGHT: char = '┘';

    pub const VERTICAL_RIGHT_LIGHT: char = '├';

    pub const VERTICAL_LEFT_LIGHT: char = '┤';

    pub const DOWN_HORIZONTAL_LIGHT: char = '┬';

    pub const UP_HORIZONTAL_LIGHT: char = '┴';

    pub const VERTICAL_HORIZONTAL_LIGHT: char = '┼';

    // HEAVY
    pub const HORIZONTAL_HEAVY: char = '━';

    pub const VERTICAL_HEAVY: char = '┃';

    pub const DOWN_RIGHT_HEAVY: char = '┏';

    pub const DOWN_LEFT_HEAVY: char = '┓';

    pub const UP_RIGHT_HEAVY: char = '┗';

    pub const UP_LEFT_HEAVY: char = '┛';

    pub const VERTICAL_RIGHT_HEAVY: char = '┣';

    pub const VERTICAL_LEFT_HEAVY: char = '┫';

    pub const DOWN_HORIZONTAL_HEAVY: char = '┳';

    pub const UP_HORIZONTAL_HEAVY: char = '┻';

    pub const VERTICAL_HORIZONTAL_HEAVY: char = '╋';

    // DOUBLE
    pub const HORIZONTAL_DOUBLE: char = '═';

    pub const VERTICAL_DOUBLE: char = '║';

    pub const DOWN_RIGHT_DOUBLE: char = '╔';

    pub const DOWN_LEFT_DOUBLE: char = '╗';

    pub const UP_RIGHT_DOUBLE: char = '╚';

    pub const UP_LEFT_DOUBLE: char = '╝';

    pub const VERTICAL_RIGHT_DOUBLE: char = '╠';

    pub const VERTICAL_LEFT_DOUBLE: char = '╣';

    pub const DOWN_HORIZONTAL_DOUBLE: char = '╦';

    pub const UP_HORIZONTAL_DOUBLE: char = '╩';

    pub const VERTICAL_HORIZONTAL_DOUBLE: char = '╬';

    // ROUND
    pub const DOWN_RIGHT_ROUND: char = '╭';

    pub const DOWN_LEFT_ROUND: char = '╮';

    pub const UP_LEFT_ROUND: char = '╯';

    pub const UP_RIGHT_ROUND: char = '╰';

    // Abbreviations: the piece's initials, then 0 for light, 1 for heavy,
    // 2 for double and 3 for round.
    pub const H0: char = Self::HORIZONTAL_LIGHT;

    pub const V0: char = Self::VERTICAL_LIGHT;

    pub const DR0: char = Self::DOWN_RIGHT_LIGHT;

    pub const DL0: char = Self::DOWN_LEFT_LIGHT;

    pub const UR0: char = Self::UP_RIGHT_LIGHT;

    pub const UL0: char = Self::UP_LEFT_LIGHT;

    pub const VR0: char = Self::VERTICAL_RIGHT_LIGHT;

    pub const VL0: char = Self::VERTICAL_LEFT_LIGHT;

    pub const DH0: char = Self::DOWN_HORIZONTAL_LIGHT;

    pub const UH0: char = Self::UP_HORIZONTAL_LIGHT;

    pub const VH0: char = Self::VERTICAL_HORIZONTAL_LIGHT;

    pub const H1: char = Self::HORIZONTAL_HEAVY;

    pub const V1: char = Self::VERTICAL_HEAVY;

    pub const DR1: char = Self::DOWN_RIGHT_HEAVY;

    pub const DL1: char = Self::DOWN_LEFT_HEAVY;

    pub const UR1: char = Self::UP_RIGHT_HEAVY;

    pub const UL1: char = Self::UP_LEFT_HEAVY;

    pub const VR1: char = Self::VERTICAL_RIGHT_HEAVY;

    pub const VL1: char = Self::VERTICAL_LEFT_HEAVY;

    pub const DH1: char = Self::DOWN_HORIZONTAL_HEAVY;

    pub const UH1: char = Self::UP_HORIZONTAL_HEAVY;

    pub const VH1: char = Self::VERTICAL_HORIZONTAL_HEAVY;

    pub const H2: char = Self::HORIZONTAL_DOUBLE;

    pub const V2: char = Self::VERTICAL_DOUBLE;

    pub const DR2: char = Self::DOWN_RIGHT_DOUBLE;

    pub const DL2: char = Self::DOWN_LEFT_DOUBLE;

    pub const UR2: char = Self::UP_RIGHT_DOUBLE;

    pub const UL2: char = Self::UP_LEFT_DOUBLE;

    pub const VR2: char = Self::VERTICAL_RIGHT_DOUBLE;

    pub const VL2: char = Self::VERTICAL_LEFT_DOUBLE;

    pub const DH2: char = Self::DOWN_HORIZONTAL_DOUBLE;

    pub const UH2: char = Self::UP_HORIZONTAL_DOUBLE;

    pub const VH2: char = Self::VERTICAL_HORIZONTAL_DOUBLE;

    pub const DR3: char = Self::DOWN_RIGHT_ROUND;

    pub const DL3: char = Self::DOWN_LEFT_ROUND;

    pub const UR3: char = Self::UP_RIGHT_ROUND;

    pub const UL3: char = Self::UP_LEFT_ROUND;

    /// The thickness of this set.
    pub closed spec fn spec_thickness(self) -> BoxDrawingThickness {
        self.thickness
    }

    /// Creates the set of box-drawing characters of the given `thickness`.
    pub fn new(thickness: BoxDrawingThickness) -> (r: Self)
        ensures
            r.spec_thickness() == thickness,
    {
        Self { thickness }
    }

    /// Returns the thickness of this set.
    pub fn thickness(&self) -> (r: BoxDrawingThickness)
        ensures
            r == self.spec_thickness(),
    {
        self.thickness
    }

    /// Sets the thickness of this set.
    pub fn set_thickness(&mut self, thickness: BoxDrawingThickness)
        ensures
            final(self).spec_thickness() == thickness,
    {
        self.thickness = thickness;
    }

    /// Returns the character that draws `piece` in `thickness`.
    pub fn piece(piece: BoxDrawingPiece, thickness: BoxDrawingThickness) -> (r: char)
        ensures
            r as u32 == piece_code(piece, thickness),
    {
        match thickness {
            BoxDrawingThickness::Light => match piece {
                BoxDrawingPiece::Horizontal => Self::HORIZONTAL_LIGHT,
                BoxDrawingPiece::Vertical => Self::VERTICAL_LIGHT,
                BoxDrawingPiece::DownRight => Self::DOWN_RIGHT_LIGHT,
                BoxDrawingPiece::DownLeft => Self::DOWN_LEFT_LIGHT,
                BoxDrawingPiece::UpRight => Self::UP_RIGHT_LIGHT,
                BoxDrawingPiece::UpLeft => Self::UP_LEFT_LIGHT,
                BoxDrawingPiece::VerticalRight => Self::VERTICAL_RIGHT_LIGHT,
                BoxDrawingPiece::VerticalLeft => Self::VERTICAL_LEFT_LIGHT,
                BoxDrawingPiece::DownHorizontal => Self::DOWN_HORIZONTAL_LIGHT,
                BoxDrawingPiece::UpHorizontal => Self::UP_HORIZONTAL_LIGHT,
                BoxDrawingPiece::VerticalHorizontal => Self::VERTICAL_HORIZONTAL_LIGHT,
            },
            BoxDrawingThickness::Heavy => match piece {
                BoxDrawingPiece::Horizontal => Self::HORIZONTAL_HEAVY,
                BoxDrawingPiece::Vertical => Self::VERTICAL_HEAVY,
                BoxDrawingPiece::DownRight => Self::DOWN_RIGHT_HEAVY,
                BoxDrawingPiece::DownLeft => Self::DOWN_LEFT_HEAVY,
                BoxDrawingPiece::UpRight => Self::UP_RIGHT_HEAVY,
                BoxDrawingPiece::UpLeft => Self::UP_LEFT_HEAVY,
                BoxDrawingPiece::VerticalRight => Self::VERTICAL_RIGHT_HEAVY,
                BoxDrawingPiece::VerticalLeft => Self::VERTICAL_LEFT_HEAVY,
                BoxDrawingPiece::DownHorizontal => Self::DOWN_HORIZONTAL_HEAVY,
                BoxDrawingPiece::UpHorizontal => Self::UP_HORIZONTAL_HEAVY,
                BoxDrawingPiece::VerticalHorizontal => Self::VERTICAL_HORIZONTAL_HEAVY,
            },
            BoxDrawingThickness::Double => match piece {
                BoxDrawingPiece::Horizontal => Self::HORIZONTAL_DOUBLE,
                BoxDrawingPiece::Vertical => Self::VERTICAL_DOUBLE,
                BoxDrawingPiece::DownRight => Self::DOWN_RIGHT_DOUBLE,
                BoxDrawingPiece::DownLeft => Self::DOWN_LEFT_DOUBLE,
                BoxDrawingPiece::UpRight => Self::UP_RIGHT_DOUBLE,
                BoxDrawingPiece::UpLeft => Self::UP_LEFT_DOUBLE,
                BoxDrawingPiece::VerticalRight => Self::VERTICAL_RIGHT_DOUBLE,
                BoxDrawingPiece::VerticalLeft => Self::VERTICAL_LEFT_DOUBLE,
                BoxDrawingPiece::DownHorizontal => Self::DOWN_HORIZONTAL_DOUBLE,
                BoxDrawingPiece::UpHorizontal => Self::UP_HORIZONTAL_DOUBLE,
                BoxDrawingPiece::VerticalHorizontal => Self::VERTICAL_HORIZONTAL_DOUBLE,
            },
            BoxDrawingThickness::Round => match piece {
                BoxDrawingPiece::Horizontal => Self::HORIZONTAL_LIGHT,
                BoxDrawingPiece::Vertical => Self::VERTICAL_LIGHT,
                BoxDrawingPiece::DownRight => Self::DOWN_RIGHT_HEAVY,
                BoxDrawingPiece::DownLeft => Self::DOWN_LEFT_HEAVY,
                BoxDrawingPiece::UpRight => Self::UP_RIGHT_HEAVY,
                BoxDrawingPiece::UpLeft => Self::UP_LEFT_HEAVY,
                BoxDrawingPiece::VerticalRight => Self::VERTICAL_RIGHT_LIGHT,
                BoxDrawingPiece::VerticalLeft => Self::VERTICAL_LEFT_LIGHT,
                BoxDrawingPiece::DownHorizontal => Self::DOWN_HORIZONTAL_LIGHT,
                BoxDrawingPiece::UpHorizontal => Self::UP_HORIZONTAL_LIGHT,
                BoxDrawingPiece::VerticalHorizontal => Self::VERTICAL_HORIZONTAL_LIGHT,
            },
        }
    }

    /// Returns the character that draws `piece` in the thickness of this
    /// set.
    pub fn p(&self, piece: BoxDrawingPiece) -> (r: char)
        ensures
            r as u32 == piece_code(piece, self.spec_thickness()),
    {
        Self::piece(piece, self.thickness)
    }
}

} // verus!
