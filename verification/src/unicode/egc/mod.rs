//! Extended grapheme clusters.

use vstd::prelude::*;

pub mod non_nul;
pub mod string;
pub mod u8string;

pub use self::non_nul::{
    NonNulEgc128, NonNulEgc16, NonNulEgc24, NonNulEgc32, NonNulEgc40, NonNulEgc48, NonNulEgc56,
    NonNulEgc64, NonNulEgc8, StaticNonNulEgc,
};
pub use self::string::StringEgc;
pub use self::u8string::{
    Egc128, Egc16, Egc24, Egc32, Egc40, Egc48, Egc56, Egc64, StaticU8Egc,
};

verus! {

/// Common trait for extended grapheme cluster types.
pub trait Egc {

}

} // verus!
