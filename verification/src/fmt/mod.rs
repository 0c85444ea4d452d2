//! Formatting.

pub mod indent;

pub use self::indent::indent;
