//! `Strings` trait.

use vstd::prelude::*;

verus! {

/// Common trait for all string types.
pub trait Strings {

}

} // verus!
