//! The two flavors of reference.

use crate::sealed::Sealed;
use vstd::prelude::*;

verus! {

/// A reference type: `&T`, the shared flavor, or `&mut T`, the exclusive one.
///
/// The trait lets a handle be written once for both flavors while operations
/// that write stay with the exclusive one. It is sealed: there is no third
/// flavor.
pub trait Reference: Sealed {
    /// The type that the reference points to.
    type Target: ?Sized;
}

impl<T: ?Sized> Reference for &T {
    type Target = T;
}

impl<T: ?Sized> Reference for &mut T {
    type Target = T;
}

} // verus!
