//! Values as places.

use crate::pointer::{slice_from_raw_parts, ConstPtr};
use core::marker::PhantomData;
use vstd::prelude::*;

verus! {

/// What a reference can point to, taken as a place of its own.
///
/// A sized value is a place of one element, itself; an array is a sized value.
/// A slice is a place of its elements. Either way the value lies at position
/// zero of the place that it is.
pub trait Place {
    /// The address of `self` in the place that `self` is.
    spec fn spec_addr_of(&self) -> ConstPtr<Self>;

    /// The address of `self` in the place that `self` is: position zero, and
    /// for a slice as many elements as it has. The reference is measured, not
    /// kept.
    fn addr_of(&self) -> (ptr: ConstPtr<Self>)
        ensures
            ptr == self.spec_addr_of(),
            ptr.addr == 0,
    ;
}

/// A sized value: its address carries no length.
impl<T> Place for T {
    open spec fn spec_addr_of(&self) -> ConstPtr<T> {
        ConstPtr { addr: 0, metadata: None, target: PhantomData }
    }

    fn addr_of(&self) -> (ptr: ConstPtr<T>) {
        ConstPtr::new(0)
    }
}

/// A slice: its address carries its length.
impl<E> Place for [E] {
    open spec fn spec_addr_of(&self) -> ConstPtr<[E]> {
        ConstPtr { addr: 0, metadata: Some(self@.len() as usize), target: PhantomData }
    }

    fn addr_of(&self) -> (ptr: ConstPtr<[E]>) {
        slice_from_raw_parts(ConstPtr::new(0), self.len())
    }
}

} // verus!
