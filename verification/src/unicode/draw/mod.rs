//! Drawing with unicode.

pub mod box_drawing;

pub use self::box_drawing::{BoxDrawing, BoxDrawingPiece, BoxDrawingThickness};
