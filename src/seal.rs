use vstd::prelude::*;

verus! {

/// Closes `Mutability` to the markers of this crate.
pub trait Sealed {}

} // verus!
