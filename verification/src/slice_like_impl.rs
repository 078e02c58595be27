//! What a handle to an array or a slice can do.

use crate::deferred::Deferred;
use crate::laws::{lemma_selected_in_place, lemma_split_at_concat};
use crate::pointee::Pointee;
use crate::pointer_length::PointerLength;
use crate::reference::Reference;
use crate::slice_like::SliceLike;
use crate::slice_pointer_index::SlicePointerIndex;
use vstd::prelude::*;

verus! {

/// What a place holds once two selections with no position in common have
/// been written: `written` where the first selection lay, from `from` up to
/// `to`, and `other_written` where the second lay, from `other_from` up to
/// `other_to`. The selection that comes first in the place comes first here.
/// An empty selection that lies inside the other one is taken at the start of
/// the other.
pub open spec fn pair_written<E>(
    place: Seq<E>,
    from: int,
    to: int,
    written: Seq<E>,
    other_from: int,
    other_to: int,
    other_written: Seq<E>,
) -> Seq<E> {
    let len = place.len() as int;
    if to <= other_from {
        place.subrange(0, from) + written + place.subrange(to, other_from) + other_written
            + place.subrange(other_to, len)
    } else if other_to <= from {
        place.subrange(0, other_from) + other_written + place.subrange(other_to, from) + written
            + place.subrange(to, len)
    } else if from == to {
        place.subrange(0, other_from) + written + other_written + place.subrange(other_to, len)
    } else {
        place.subrange(0, from) + other_written + written + place.subrange(to, len)
    }
}

/// A place divided at `split`, with a stretch of each part replaced, is the
/// place with both stretches replaced; and a stretch of a part is a stretch of
/// the place.
proof fn lemma_divided_write<E>(
    before: Seq<E>,
    split: int,
    from: int,
    to: int,
    low_written: Seq<E>,
    high_to: int,
    high_written: Seq<E>,
)
    requires
        0 <= from <= to <= split <= high_to <= before.len(),
    ensures
        (before.subrange(0, split).subrange(0, from) + low_written + before.subrange(
            0,
            split,
        ).subrange(to, split)) + (before.subrange(split, before.len() as int).subrange(0, 0)
            + high_written + before.subrange(split, before.len() as int).subrange(
            high_to - split,
            before.len() - split,
        )) == before.subrange(0, from) + low_written + before.subrange(to, split) + high_written
            + before.subrange(high_to, before.len() as int),
        before.subrange(0, split).subrange(from, to) == before.subrange(from, to),
        before.subrange(split, before.len() as int).subrange(0, high_to - split)
            == before.subrange(split, high_to),
{
    let len = before.len() as int;
    assert(before.subrange(0, split).subrange(0, from) =~= before.subrange(0, from));
    assert(before.subrange(0, split).subrange(to, split) =~= before.subrange(to, split));
    assert(before.subrange(split, len).subrange(0, 0) =~= Seq::<E>::empty());
    assert(before.subrange(split, len).subrange(high_to - split, len - split)
        =~= before.subrange(high_to, len));
    assert(before.subrange(0, split).subrange(from, to) =~= before.subrange(from, to));
    assert(before.subrange(split, len).subrange(0, high_to - split) =~= before.subrange(
        split,
        high_to,
    ));
    assert((before.subrange(0, from) + low_written + before.subrange(to, split)) + (Seq::<
        E,
    >::empty() + high_written + before.subrange(high_to, len)) =~= before.subrange(0, from)
        + low_written + before.subrange(to, split) + high_written + before.subrange(high_to, len));
}

/// # Methods only available for deferred references to slices and arrays
///
/// Each of them reaches an element or a sub-slice from the address of the
/// whole, and what it hands out is a reference to that element or sub-slice
/// alone.
impl<T> Deferred<T> where T: Reference, T::Target: SliceLike {
    /// The number of elements of the target.
    pub open spec fn spec_len(&self) -> usize {
        <T::Target as PointerLength>::spec_len(self@)
    }

    /// Whether the target ends within the address space. A handle whose
    /// target lies in some place is well formed.
    pub open spec fn wf(&self) -> bool {
        self@.addr + self.spec_len() <= usize::MAX
    }

    /// Whether the target lies in `place`: the handle is valid for it.
    pub open spec fn lies_in(&self, place: Seq<<T::Target as SliceLike>::Element>) -> bool {
        self@.addr + self.spec_len() <= place.len()
    }

    /// What the handle dereferences to in `place`: the elements of its target.
    pub open spec fn target(&self, place: Seq<<T::Target as SliceLike>::Element>) -> Seq<
        <T::Target as SliceLike>::Element,
    > {
        place.subrange(self@.addr as int, self@.addr + self.spec_len())
    }

    /// `place` with the target of the handle replaced by `with`: what a place
    /// holds once `with` has been written to the target.
    pub open spec fn with_target(
        &self,
        place: Seq<<T::Target as SliceLike>::Element>,
        with: Seq<<T::Target as SliceLike>::Element>,
    ) -> Seq<<T::Target as SliceLike>::Element> {
        place.subrange(0, self@.addr as int) + with + place.subrange(
            self@.addr + self.spec_len(),
            place.len() as int,
        )
    }

    /// What `index` selects from the target in `place`.
    pub open spec fn selected<I: SlicePointerIndex<T::Target>>(
        &self,
        place: Seq<<T::Target as SliceLike>::Element>,
        index: I,
    ) -> Seq<<T::Target as SliceLike>::Element> {
        self.target(place).subrange(
            index.first(self.spec_len()),
            index.first(self.spec_len()) + index.count(self.spec_len()),
        )
    }

    /// `place` with what `index` selects from the target replaced by `with`:
    /// what a place holds once `with` has been written there.
    pub open spec fn with_selected<I: SlicePointerIndex<T::Target>>(
        &self,
        place: Seq<<T::Target as SliceLike>::Element>,
        index: I,
        with: Seq<<T::Target as SliceLike>::Element>,
    ) -> Seq<<T::Target as SliceLike>::Element> {
        let from = self@.addr + index.first(self.spec_len());
        let to = from + index.count(self.spec_len());
        place.subrange(0, from) + with + place.subrange(to, place.len() as int)
    }

    /// Obtains the length of the array or slice that this handle points to.
    /// No place is asked for: the length comes from the address.
    #[verifier::when_used_as_spec(spec_len)]
    pub fn len(&self) -> (n: usize)
        ensures
            n == self.spec_len(),
    {
        PointerLength::len(self.as_ptr())
    }

    /// Returns a reference to an element or sub-slice of the target in
    /// `place`, depending on the type of index, or `None` if the index is out
    /// of bounds.
    pub fn get<'p, I>(&self, place: &'p [<T::Target as SliceLike>::Element], index: I) -> (r:
        Option<&'p I::Output>) where I: SlicePointerIndex<T::Target>
        requires
            self.lies_in(place@),
        ensures
            r is Some <==> index.in_bounds(self.spec_len()),
            r matches Some(out) ==> <I::Output as Pointee<
                <T::Target as SliceLike>::Element,
            >>::elements(out) == self.selected(place@, index),
    {
        proof {
            vstd::slice::axiom_spec_len(place);
            if index.in_bounds(self.spec_len()) {
                lemma_selected_in_place(*self, place@, index);
            }
        }
        match index.get(self.as_ptr()) {
            Some(ptr) => Some(
                <I::Output as Pointee<<T::Target as SliceLike>::Element>>::deref(ptr, place),
            ),
            None => None,
        }
    }

    /// Returns a reference to an element or sub-slice of the target in
    /// `place`, without checking bounds: the caller has checked them.
    pub fn get_unchecked<'p, I>(
        &self,
        place: &'p [<T::Target as SliceLike>::Element],
        index: I,
    ) -> (out: &'p I::Output) where I: SlicePointerIndex<T::Target>
        requires
            self.lies_in(place@),
            index.in_bounds(self.spec_len()),
        ensures
            <I::Output as Pointee<<T::Target as SliceLike>::Element>>::elements(out)
                == self.selected(place@, index),
    {
        proof {
            vstd::slice::axiom_spec_len(place);
            lemma_selected_in_place(*self, place@, index);
        }
        <I::Output as Pointee<<T::Target as SliceLike>::Element>>::deref(
            index.get_unchecked(self.as_ptr()),
            place,
        )
    }

    /// Divides one deferred slice into two at an index, without checking
    /// bounds: the caller has checked that `mid <= self.len()`.
    ///
    /// The first handle covers the positions `[0, mid)` of the target and the
    /// second the positions `[mid, len)`.
    pub fn split_at_unchecked(&self, mid: usize) -> (r: (
        Deferred<&[<T::Target as SliceLike>::Element]>,
        Deferred<&[<T::Target as SliceLike>::Element]>,
    ))
        requires
            self.wf(),
            mid <= self.spec_len(),
        ensures
            r.0@.addr == self@.addr,
            r.0.spec_len() == mid,
            r.1@.addr == self@.addr + mid,
            r.1.spec_len() == self.spec_len() - mid,
            forall|place: Seq<<T::Target as SliceLike>::Element>|
                #![trigger r.0.target(place)]
                #![trigger r.1.target(place)]
                self.lies_in(place) ==> r.0.target(place) + r.1.target(place) == self.target(
                    place,
                ),
    {
        let r = (
            Deferred::from_raw((..mid).get_unchecked(self.as_ptr())),
            Deferred::from_raw((mid..).get_unchecked(self.as_ptr())),
        );
        proof {
            assert forall|place: Seq<<T::Target as SliceLike>::Element>|
                self.lies_in(place) implies r.0.target(place) + r.1.target(place) == self.target(
                place,
            ) by {
                lemma_split_at_concat(*self, mid, r.0, r.1, place);
            }
        }
        r
    }

    /// Divides one deferred slice into two at an index. `mid` is at most the
    /// length of the target.
    ///
    /// The first handle covers the positions `[0, mid)` of the target and the
    /// second the positions `[mid, len)`.
    pub fn split_at(&self, mid: usize) -> (r: (
        Deferred<&[<T::Target as SliceLike>::Element]>,
        Deferred<&[<T::Target as SliceLike>::Element]>,
    ))
        requires
            self.wf(),
            mid <= self.spec_len(),
        ensures
            r.0@.addr == self@.addr,
            r.0.spec_len() == mid,
            r.1@.addr == self@.addr + mid,
            r.1.spec_len() == self.spec_len() - mid,
            forall|place: Seq<<T::Target as SliceLike>::Element>|
                #![trigger r.0.target(place)]
                #![trigger r.1.target(place)]
                self.lies_in(place) ==> r.0.target(place) + r.1.target(place) == self.target(
                    place,
                ),
    {
        self.split_at_unchecked(mid)
    }
}

/// # Methods only available for deferred exclusive references to slices and arrays
///
/// The reference that comes out borrows the place exclusively, yet covers the
/// element or sub-slice only: when it is given up, the place holds what the
/// reference then held, and is otherwise as it was.
impl<T> Deferred<&mut T> where T: SliceLike + ?Sized {
    /// Returns an exclusive reference to an element or sub-slice of the
    /// target in `place`, depending on the type of index, or `None` if the
    /// index is out of bounds.
    pub fn get_mut<'p, I>(&mut self, place: &'p mut [T::Element], index: I) -> (r: Option<
        &'p mut I::Output,
    >) where I: SlicePointerIndex<T>
        requires
            old(self).lies_in(old(place)@),
        ensures
            *final(self) == *old(self),
            r is Some <==> index.in_bounds(old(self).spec_len()),
            r is None ==> final(place)@ == old(place)@,
            r matches Some(out) ==> {
                &&& <I::Output as Pointee<T::Element>>::elements(&*out) == old(self).selected(
                    old(place)@,
                    index,
                )
                &&& final(place)@ == old(self).with_selected(
                    old(place)@,
                    index,
                    <I::Output as Pointee<T::Element>>::elements(&*final(out)),
                )
            },
    {
        proof {
            vstd::slice::axiom_spec_len(place);
            if index.in_bounds(self.spec_len()) {
                lemma_selected_in_place(*self, place@, index);
            }
        }
        match index.get_mut(self.as_mut_ptr()) {
            Some(ptr) => Some(<I::Output as Pointee<T::Element>>::deref_mut(ptr, place)),
            None => None,
        }
    }

    /// Returns an exclusive reference to an element or sub-slice of the
    /// target in `place`, without checking bounds: the caller has checked
    /// them.
    pub fn get_unchecked_mut<'p, I>(&mut self, place: &'p mut [T::Element], index: I) -> (out:
        &'p mut I::Output) where I: SlicePointerIndex<T>
        requires
            old(self).lies_in(old(place)@),
            index.in_bounds(old(self).spec_len()),
        ensures
            *final(self) == *old(self),
            <I::Output as Pointee<T::Element>>::elements(&*out) == old(self).selected(
                old(place)@,
                index,
            ),
            final(place)@ == old(self).with_selected(
                old(place)@,
                index,
                <I::Output as Pointee<T::Element>>::elements(&*final(out)),
            ),
    {
        proof {
            vstd::slice::axiom_spec_len(place);
            lemma_selected_in_place(*self, place@, index);
        }
        <I::Output as Pointee<T::Element>>::deref_mut(
            index.get_unchecked_mut(self.as_mut_ptr()),
            place,
        )
    }

    /// Divides one deferred exclusive slice into two at an index, without
    /// checking bounds: the caller has checked that `mid <= self.len()`.
    ///
    /// The first handle covers the positions `[0, mid)` of the target and the
    /// second the positions `[mid, len)`.
    pub fn split_at_mut_unchecked(&mut self, mid: usize) -> (r: (
        Deferred<&mut [T::Element]>,
        Deferred<&mut [T::Element]>,
    ))
        requires
            old(self).wf(),
            mid <= old(self).spec_len(),
        ensures
            *final(self) == *old(self),
            r.0@.addr == old(self)@.addr,
            r.0.spec_len() == mid,
            r.1@.addr == old(self)@.addr + mid,
            r.1.spec_len() == old(self).spec_len() - mid,
            forall|place: Seq<T::Element>|
                #![trigger r.0.target(place)]
                #![trigger r.1.target(place)]
                old(self).lies_in(place) ==> r.0.target(place) + r.1.target(place) == old(
                    self,
                ).target(place),
    {
        let r = (
            Deferred::from_raw_mut((..mid).get_unchecked_mut(self.as_mut_ptr())),
            Deferred::from_raw_mut((mid..).get_unchecked_mut(self.as_mut_ptr())),
        );
        proof {
            assert forall|place: Seq<T::Element>| self.lies_in(place) implies r.0.target(place)
                + r.1.target(place) == self.target(place) by {
                lemma_split_at_concat(*self, mid, r.0, r.1, place);
            }
        }
        r
    }

    /// Divides one deferred exclusive slice into two at an index. `mid` is at
    /// most the length of the target.
    ///
    /// The first handle covers the positions `[0, mid)` of the target and the
    /// second the positions `[mid, len)`.
    pub fn split_at_mut(&mut self, mid: usize) -> (r: (
        Deferred<&mut [T::Element]>,
        Deferred<&mut [T::Element]>,
    ))
        requires
            old(self).wf(),
            mid <= old(self).spec_len(),
        ensures
            *final(self) == *old(self),
            r.0@.addr == old(self)@.addr,
            r.0.spec_len() == mid,
            r.1@.addr == old(self)@.addr + mid,
            r.1.spec_len() == old(self).spec_len() - mid,
            forall|place: Seq<T::Element>|
                #![trigger r.0.target(place)]
                #![trigger r.1.target(place)]
                old(self).lies_in(place) ==> r.0.target(place) + r.1.target(place) == old(
                    self,
                ).target(place),
    {
        self.split_at_mut_unchecked(mid)
    }

    /// Returns two exclusive references at once, each to what an index
    /// selects from the target of a handle: `index` from that of `self`,
    /// `other_index` from that of `other`. Both handles lie in `place`, both
    /// indices are ones that `index_failure` has nothing against, and the two
    /// selections have no position in common.
    ///
    /// The place is borrowed once and divided between the two references.
    /// When they are given up, the place holds what each of them then held,
    /// and is otherwise as it was. An empty selection that lies inside the
    /// other one holds no element of the place; its reference is taken at the
    /// start of the other selection.
    pub fn index_mut_pair<'p, U, I, J>(
        &mut self,
        other: &mut Deferred<&mut U>,
        place: &'p mut [T::Element],
        index: I,
        other_index: J,
    ) -> (r: (&'p mut I::Output, &'p mut J::Output)) where
        U: SliceLike<Element = T::Element> + ?Sized,
        I: SlicePointerIndex<T>,
        J: SlicePointerIndex<U>,

        requires
            old(self).lies_in(old(place)@),
            old(other).lies_in(old(place)@),
            index.spec_index_failure(old(self).spec_len()) is None,
            other_index.spec_index_failure(old(other).spec_len()) is None,
            ({
                let from = old(self)@.addr + index.first(old(self).spec_len());
                let to = from + index.count(old(self).spec_len());
                let other_from = old(other)@.addr + other_index.first(old(other).spec_len());
                let other_to = other_from + other_index.count(old(other).spec_len());
                to <= other_from || other_to <= from || from == to || other_from == other_to
            }),
        ensures
            *final(self) == *old(self),
            *final(other) == *old(other),
            <I::Output as Pointee<T::Element>>::elements(&*r.0) == old(self).selected(
                old(place)@,
                index,
            ),
            <J::Output as Pointee<T::Element>>::elements(&*r.1) == old(other).selected(
                old(place)@,
                other_index,
            ),
            final(place)@ == pair_written(
                old(place)@,
                old(self)@.addr + index.first(old(self).spec_len()),
                old(self)@.addr + index.first(old(self).spec_len()) + index.count(
                    old(self).spec_len(),
                ),
                <I::Output as Pointee<T::Element>>::elements(&*final(r.0)),
                old(other)@.addr + other_index.first(old(other).spec_len()),
                old(other)@.addr + other_index.first(old(other).spec_len()) + other_index.count(
                    old(other).spec_len(),
                ),
                <J::Output as Pointee<T::Element>>::elements(&*final(r.1)),
            ),
    {
        proof {
            vstd::slice::axiom_spec_len(place);
            lemma_selected_in_place(*self, place@, index);
            lemma_selected_in_place(*other, place@, other_index);
        }
        let ghost before = place@;
        let ptr = index.index_mut(self.as_mut_ptr());
        let other_ptr = other_index.index_mut(other.as_mut_ptr());
        let to = ptr.addr + <I::Output as Pointee<T::Element>>::span_of(ptr.cast_const());
        let other_to = other_ptr.addr + <J::Output as Pointee<T::Element>>::span_of(
            other_ptr.cast_const(),
        );
        if to <= other_ptr.addr || (ptr.addr == to && other_to > ptr.addr) {
            // the first selection lies before the second, or is empty inside it
            let at = if to <= other_ptr.addr {
                ptr.addr
            } else {
                other_ptr.addr
            };
            let (low, high) = place.split_at_mut(other_ptr.addr);
            let out = <I::Output as Pointee<T::Element>>::deref_mut(ptr.with_addr(at), low);
            let other_out = <J::Output as Pointee<T::Element>>::deref_mut(
                other_ptr.with_addr(0),
                high,
            );
            proof {
                lemma_divided_write(
                    before,
                    other_ptr.addr as int,
                    at as int,
                    at + (to - ptr.addr),
                    <I::Output as Pointee<T::Element>>::elements(&*final(out)),
                    other_to as int,
                    <J::Output as Pointee<T::Element>>::elements(&*final(other_out)),
                );
                assert(before.subrange(at as int, at + (to - ptr.addr)) =~= before.subrange(
                    ptr.addr as int,
                    to as int,
                ));
            }
            (out, other_out)
        } else {
            // the second selection lies before the first, or is empty inside it
            let at = if other_to <= ptr.addr {
                other_ptr.addr
            } else {
                ptr.addr
            };
            let (low, high) = place.split_at_mut(ptr.addr);
            let other_out = <J::Output as Pointee<T::Element>>::deref_mut(
                other_ptr.with_addr(at),
                low,
            );
            let out = <I::Output as Pointee<T::Element>>::deref_mut(ptr.with_addr(0), high);
            proof {
                lemma_divided_write(
                    before,
                    ptr.addr as int,
                    at as int,
                    at + (other_to - other_ptr.addr),
                    <J::Output as Pointee<T::Element>>::elements(&*final(other_out)),
                    to as int,
                    <I::Output as Pointee<T::Element>>::elements(&*final(out)),
                );
                assert(before.subrange(at as int, at + (other_to - other_ptr.addr))
                    =~= before.subrange(other_ptr.addr as int, other_to as int));
            }
            (out, other_out)
        }
    }
}

} // verus!
