//! Closes the family of reference flavors.

use vstd::prelude::*;

verus! {

/// Implemented for `&T` and `&mut T` and for nothing else. The module is
/// private, so no other crate can name this trait, and none can add a flavor.
pub trait Sealed {

}

impl<T: ?Sized> Sealed for &T {

}

impl<T: ?Sized> Sealed for &mut T {

}

} // verus!
