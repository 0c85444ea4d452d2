//! Fixed-capacity UTF-8 strings and multi-width Unicode scalar types.
//!
//! Every string of this crate lives in an array of bytes whose size is part
//! of its type. Every scalar type stores a Unicode scalar value in as few
//! bytes as its range allows.

pub mod error;
pub mod fmt;
pub mod textual;
pub mod unicode;
