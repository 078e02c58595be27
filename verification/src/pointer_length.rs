//! The length of a target, from its address alone.

use crate::pointer::{metadata_len, ConstPtr, MutPtr};
use vstd::prelude::*;

verus! {

/// Implemented for targets whose length can be had from an address of them,
/// without a place and so without reading anything.
pub trait PointerLength {
    /// The number of elements of the target at `ptr`.
    spec fn spec_len(ptr: ConstPtr<Self>) -> usize;

    /// Obtains the length of the target at `ptr`. No place is asked for:
    /// nothing is dereferenced.
    fn len(ptr: ConstPtr<Self>) -> (n: usize)
        ensures
            n == Self::spec_len(ptr),
    ;
}

/// A slice's length is part of its address.
impl<E> PointerLength for [E] {
    open spec fn spec_len(ptr: ConstPtr<Self>) -> usize {
        metadata_len(ptr.metadata)
    }

    fn len(ptr: ConstPtr<Self>) -> (n: usize) {
        ptr.len()
    }
}

/// An array's length is part of its type, and the address is not looked at.
impl<E, const N: usize> PointerLength for [E; N] {
    open spec fn spec_len(ptr: ConstPtr<Self>) -> usize {
        N
    }

    fn len(_ptr: ConstPtr<Self>) -> (n: usize) {
        N
    }
}

impl<T: PointerLength + ?Sized> ConstPtr<T> {
    /// The number of elements of the target.
    pub open spec fn spec_len(self) -> usize {
        T::spec_len(self)
    }

    /// Whether the target ends within the address space, so that the address
    /// of each of its elements, and of its end, can be computed.
    pub open spec fn valid(self) -> bool {
        self.addr + T::spec_len(self) <= usize::MAX
    }
}

impl<T: PointerLength + ?Sized> MutPtr<T> {
    /// The number of elements of the target.
    pub open spec fn spec_len(self) -> usize {
        T::spec_len(self.cast_const())
    }

    /// Whether the target ends within the address space.
    pub open spec fn valid(self) -> bool {
        self.cast_const().valid()
    }
}

} // verus!
