//! Turning an address into a reference, once a place is presented.

use crate::pointer::{metadata_len, ConstPtr, MutPtr};
use vstd::prelude::*;

verus! {

/// A target that lies in a place of `E`s: one element, or a run of them.
///
/// This is where an address becomes a reference. The reference borrows the
/// place that was presented and covers the target only: what a write through
/// it can change is the target, and the rest of the place stays as it was.
pub trait Pointee<E> {
    /// The number of elements that a target covers whose address carries
    /// `metadata`.
    spec fn span(metadata: Option<usize>) -> nat;

    /// What the address of a target of `count` elements carries besides the
    /// position.
    spec fn metadata_for(count: int) -> Option<usize>;

    /// The target, as the run of elements that it is.
    spec fn elements(&self) -> Seq<E>;

    /// The number of elements that the target at `ptr` covers, computed.
    fn span_of(ptr: ConstPtr<Self>) -> (n: usize)
        ensures
            n == Self::span(ptr.metadata),
    ;

    /// A shared reference to the target at `ptr` in `place`.
    fn deref<'p>(ptr: ConstPtr<Self>, place: &'p [E]) -> (r: &'p Self)
        requires
            ptr.addr + Self::span(ptr.metadata) <= place@.len(),
        ensures
            Self::elements(r) == place@.subrange(ptr.addr as int, ptr.addr + Self::span(ptr.metadata)),
    ;

    /// An exclusive reference to the target at `ptr` in `place`. When the
    /// reference is given up, the place holds what the reference then held,
    /// between what lay before the target and what lay after it.
    fn deref_mut<'p>(ptr: MutPtr<Self>, place: &'p mut [E]) -> (r: &'p mut Self)
        requires
            ptr.addr + Self::span(ptr.metadata) <= old(place)@.len(),
        ensures
            Self::elements(&*r) == old(place)@.subrange(
                ptr.addr as int,
                ptr.addr + Self::span(ptr.metadata),
            ),
            final(place)@ == old(place)@.subrange(0, ptr.addr as int) + Self::elements(&*final(r))
                + old(place)@.subrange(
                ptr.addr + Self::span(ptr.metadata),
                old(place)@.len() as int,
            ),
    ;
}

/// One element of the place.
impl<E> Pointee<E> for E {
    open spec fn span(metadata: Option<usize>) -> nat {
        1
    }

    open spec fn metadata_for(count: int) -> Option<usize> {
        None
    }

    open spec fn elements(&self) -> Seq<E> {
        seq![*self]
    }

    fn span_of(ptr: ConstPtr<Self>) -> (n: usize) {
        1
    }

    fn deref<'p>(ptr: ConstPtr<Self>, place: &'p [E]) -> (r: &'p Self) {
        let r = &place[ptr.addr];
        proof {
            assert(seq![*r] =~= place@.subrange(ptr.addr as int, ptr.addr + 1));
        }
        r
    }

    fn deref_mut<'p>(ptr: MutPtr<Self>, place: &'p mut [E]) -> (r: &'p mut Self) {
        let ghost before = place@;
        let r = &mut place[ptr.addr];
        proof {
            assert(seq![*r] =~= before.subrange(ptr.addr as int, ptr.addr + 1));
            assert(before.update(ptr.addr as int, *final(r)) =~= before.subrange(
                0,
                ptr.addr as int,
            ) + seq![*final(r)] + before.subrange(ptr.addr + 1, before.len() as int));
        }
        r
    }
}

/// A run of elements of the place.
impl<E> Pointee<E> for [E] {
    open spec fn span(metadata: Option<usize>) -> nat {
        metadata_len(metadata) as nat
    }

    open spec fn metadata_for(count: int) -> Option<usize> {
        Some(count as usize)
    }

    open spec fn elements(&self) -> Seq<E> {
        self@
    }

    fn span_of(ptr: ConstPtr<Self>) -> (n: usize) {
        ptr.len()
    }

    fn deref<'p>(ptr: ConstPtr<Self>, place: &'p [E]) -> (r: &'p Self) {
        proof {
            vstd::slice::axiom_spec_len(place);
        }
        &place[ptr.addr..ptr.addr + ptr.len()]
    }

    fn deref_mut<'p>(ptr: MutPtr<Self>, place: &'p mut [E]) -> (r: &'p mut Self) {
        let (_, rest) = place.split_at_mut(ptr.addr);
        let (target, _) = rest.split_at_mut(ptr.len());
        target
    }
}

} // verus!
