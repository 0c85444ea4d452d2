//! Unicode-related types and functionality.

pub mod char;
pub mod draw;
pub mod egc;
pub mod string;
pub mod utf8;

pub use self::char::{Char16, Char24, Char32, Char7, Char8, Chars, UnicodeScalar};
pub use self::draw::{BoxDrawing, BoxDrawingPiece, BoxDrawingThickness};
pub use self::egc::{Egc, StaticNonNulEgc, StaticU8Egc, StringEgc};
pub use self::string::{StaticNonNulString, StaticU8String, Strings};
