//! Arrays and slices under one name.

use crate::place::Place;
use crate::pointer_length::PointerLength;
use vstd::prelude::*;

verus! {

/// Implemented for the two kinds of target that are runs of elements: arrays
/// `[E; N]` and slices `[E]`.
pub trait SliceLike: PointerLength + Place {
    /// The type of the elements.
    type Element;

    /// The elements of the value, in order.
    spec fn seq(&self) -> Seq<Self::Element>;

    /// The address of a value, taken as a place of its own, has the length of
    /// the value.
    proof fn lemma_addr_of_len(&self)
        ensures
            Self::spec_len(Self::spec_addr_of(self)) == self.seq().len(),
    ;
}

impl<E> SliceLike for [E] {
    type Element = E;

    open spec fn seq(&self) -> Seq<E> {
        self@
    }

    proof fn lemma_addr_of_len(&self) {
        vstd::slice::axiom_spec_len(self);
    }
}

impl<E, const N: usize> SliceLike for [E; N] {
    type Element = E;

    open spec fn seq(&self) -> Seq<E> {
        self@
    }

    proof fn lemma_addr_of_len(&self) {
    }
}

} // verus!
