//! Conversion with the target type named at the call.
use vstd::prelude::*;
use vstd::std_specs::convert::IntoSpec;

verus! {

/// Moves the target type of `Into` from the trait to the method, so that a
/// conversion can stand in the middle of an expression: `x.conv::<U>()`.
pub trait Conv: Sized {
    /// Converts `self` with its `Into<T>` conversion.
    fn conv<T>(self) -> (r: T) where Self: Into<T>
        ensures
            <Self as IntoSpec<T>>::obeys_into_spec() ==> r == <Self as IntoSpec<T>>::into_spec(self),
    {
        <Self as Into<T>>::into(self)
    }
}

impl<T: Sized> Conv for T {}

} // verus!
