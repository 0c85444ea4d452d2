//! `Textual` trait.

use vstd::prelude::*;

verus! {

/// Common trait for all textual types.
pub trait Textual {

}

} // verus!
