//! The index shapes, computed on addresses.

use crate::pointee::Pointee;
use crate::pointer::{slice_from_raw_parts, slice_from_raw_parts_mut, ConstPtr, MutPtr};
use crate::pointer_length::PointerLength;
use crate::failure::SliceIndexFailure;
use crate::ranges::range_inclusive_is_empty;
use crate::slice_like::SliceLike;
use core::ops::{Range, RangeFrom, RangeFull, RangeInclusive, RangeTo, RangeToInclusive};
use vstd::prelude::*;

verus! {

/// An index shape: it computes the address of an element or of a sub-slice
/// from the address of an array or slice.
///
/// Modeled after slice indexing, with the same bounds rules, but on addresses
/// alone: no function here is given a place, so none can read the target or
/// anything near it.
pub trait SlicePointerIndex<T: SliceLike + ?Sized>: Sized {
    /// What the index selects: an element, or a slice of elements.
    type Output: Pointee<T::Element> + ?Sized;

    /// Whether the index lies within a target of `len` elements.
    spec fn in_bounds(self, len: usize) -> bool;

    /// The position, in a target of `len` elements, of the first element that
    /// the index selects.
    spec fn first(self, len: usize) -> int;

    /// The number of elements that the index selects from a target of `len`
    /// elements.
    spec fn count(self, len: usize) -> int;

    /// What is wrong with the index for a target of `len` elements, if
    /// anything is.
    spec fn spec_index_failure(self, len: usize) -> Option<SliceIndexFailure>;

    /// An index fails exactly when it is out of bounds, and one in bounds
    /// selects a run of elements inside the target.
    proof fn lemma_in_bounds(self, len: usize)
        ensures
            self.in_bounds(len) <==> self.spec_index_failure(len) is None,
            self.in_bounds(len) ==> 0 <= self.first(len) && 0 <= self.count(len) && self.first(len)
                + self.count(len) <= len,
    ;

    /// Returns the address of the output at this location, if in bounds.
    fn get(self, slice: ConstPtr<T>) -> (r: Option<ConstPtr<Self::Output>>)
        requires
            slice.valid(),
        ensures
            r is Some <==> self.in_bounds(slice.spec_len()),
            r matches Some(out) ==> out.addr == slice.addr + self.first(slice.spec_len())
                && out.metadata == <Self::Output as Pointee<T::Element>>::metadata_for(
                self.count(slice.spec_len()),
            ) && <Self::Output as Pointee<T::Element>>::span(out.metadata) == self.count(
                slice.spec_len(),
            ),
    ;

    /// Returns the address, with leave to write, of the output at this
    /// location, if in bounds.
    fn get_mut(self, slice: MutPtr<T>) -> (r: Option<MutPtr<Self::Output>>)
        requires
            slice.valid(),
        ensures
            r is Some <==> self.in_bounds(slice.spec_len()),
            r matches Some(out) ==> out.addr == slice.addr + self.first(slice.spec_len())
                && out.metadata == <Self::Output as Pointee<T::Element>>::metadata_for(
                self.count(slice.spec_len()),
            ) && <Self::Output as Pointee<T::Element>>::span(out.metadata) == self.count(
                slice.spec_len(),
            ),
    ;

    /// Returns the address of the output at this location, without checking
    /// bounds: the caller has checked them.
    fn get_unchecked(self, slice: ConstPtr<T>) -> (out: ConstPtr<Self::Output>)
        requires
            slice.valid(),
            self.in_bounds(slice.spec_len()),
        ensures
            out.addr == slice.addr + self.first(slice.spec_len())
                && out.metadata == <Self::Output as Pointee<T::Element>>::metadata_for(
                self.count(slice.spec_len()),
            ) && <Self::Output as Pointee<T::Element>>::span(out.metadata) == self.count(
                slice.spec_len(),
            ),
    ;

    /// Returns the address, with leave to write, of the output at this
    /// location, without checking bounds: the caller has checked them.
    fn get_unchecked_mut(self, slice: MutPtr<T>) -> (out: MutPtr<Self::Output>)
        requires
            slice.valid(),
            self.in_bounds(slice.spec_len()),
        ensures
            out.addr == slice.addr + self.first(slice.spec_len())
                && out.metadata == <Self::Output as Pointee<T::Element>>::metadata_for(
                self.count(slice.spec_len()),
            ) && <Self::Output as Pointee<T::Element>>::span(out.metadata) == self.count(
                slice.spec_len(),
            ),
    ;

    /// What `index` and `index_mut` have against this index for the target at
    /// `slice`: `None` where they accept it.
    fn index_failure(&self, slice: ConstPtr<T>) -> (r: Option<SliceIndexFailure>)
        ensures
            r == (*self).spec_index_failure(slice.spec_len()),
    ;

    /// Returns the address of the output at this location. The index is one
    /// that `index_failure` has nothing against.
    fn index(self, slice: ConstPtr<T>) -> (out: ConstPtr<Self::Output>)
        requires
            slice.valid(),
            self.spec_index_failure(slice.spec_len()) is None,
        ensures
            out.addr == slice.addr + self.first(slice.spec_len())
                && out.metadata == <Self::Output as Pointee<T::Element>>::metadata_for(
                self.count(slice.spec_len()),
            ) && <Self::Output as Pointee<T::Element>>::span(out.metadata) == self.count(
                slice.spec_len(),
            ),
    ;

    /// Returns the address, with leave to write, of the output at this
    /// location. The index is one that `index_failure` has nothing against.
    fn index_mut(self, slice: MutPtr<T>) -> (out: MutPtr<Self::Output>)
        requires
            slice.valid(),
            self.spec_index_failure(slice.spec_len()) is None,
        ensures
            out.addr == slice.addr + self.first(slice.spec_len())
                && out.metadata == <Self::Output as Pointee<T::Element>>::metadata_for(
                self.count(slice.spec_len()),
            ) && <Self::Output as Pointee<T::Element>>::span(out.metadata) == self.count(
                slice.spec_len(),
            ),
    ;
}

/// A position selects the element there.
impl<T> SlicePointerIndex<T> for usize where T: SliceLike + ?Sized {
    type Output = T::Element;

    open spec fn in_bounds(self, len: usize) -> bool {
        self < len
    }

    open spec fn first(self, len: usize) -> int {
        self as int
    }

    open spec fn count(self, len: usize) -> int {
        1
    }

    open spec fn spec_index_failure(self, len: usize) -> Option<SliceIndexFailure> {
        if self >= len {
            Some(SliceIndexFailure::Index { index: self, len })
        } else {
            None
        }
    }

    proof fn lemma_in_bounds(self, len: usize) {
    }

    fn get(self, slice: ConstPtr<T>) -> (r: Option<ConstPtr<Self::Output>>) {
        if self < PointerLength::len(slice) {
            Some(SlicePointerIndex::<T>::get_unchecked(self, slice))
        } else {
            None
        }
    }

    fn get_mut(self, slice: MutPtr<T>) -> (r: Option<MutPtr<Self::Output>>) {
        if self < PointerLength::len(slice.cast_const()) {
            Some(SlicePointerIndex::<T>::get_unchecked_mut(self, slice))
        } else {
            None
        }
    }

    fn get_unchecked(self, slice: ConstPtr<T>) -> (out: ConstPtr<Self::Output>) {
        slice.cast::<T::Element>().add(self)
    }

    fn get_unchecked_mut(self, slice: MutPtr<T>) -> (out: MutPtr<Self::Output>) {
        slice.cast::<T::Element>().add(self)
    }

    fn index_failure(&self, slice: ConstPtr<T>) -> (r: Option<SliceIndexFailure>) {
        if *self >= PointerLength::len(slice) {
            Some(SliceIndexFailure::Index { index: *self, len: PointerLength::len(slice) })
        } else {
            None
        }
    }

    fn index(self, slice: ConstPtr<T>) -> (out: ConstPtr<Self::Output>) {
        SlicePointerIndex::<T>::get_unchecked(self, slice)
    }

    fn index_mut(self, slice: MutPtr<T>) -> (out: MutPtr<Self::Output>) {
        SlicePointerIndex::<T>::get_unchecked_mut(self, slice)
    }
}

/// `start..end` selects the elements from `start` up to, not including, `end`.
impl<T> SlicePointerIndex<T> for Range<usize> where T: SliceLike + ?Sized {
    type Output = [T::Element];

    open spec fn in_bounds(self, len: usize) -> bool {
        self.start <= self.end <= len
    }

    open spec fn first(self, len: usize) -> int {
        self.start as int
    }

    open spec fn count(self, len: usize) -> int {
        self.end - self.start
    }

    open spec fn spec_index_failure(self, len: usize) -> Option<SliceIndexFailure> {
        if self.start > self.end {
            Some(SliceIndexFailure::IndexOrder { start: self.start, end: self.end })
        } else if self.end > len {
            Some(SliceIndexFailure::EndIndexLen { index: self.end, len })
        } else {
            None
        }
    }

    proof fn lemma_in_bounds(self, len: usize) {
    }

    fn get(self, slice: ConstPtr<T>) -> (r: Option<ConstPtr<Self::Output>>) {
        if self.start > self.end || self.end > PointerLength::len(slice) {
            None
        } else {
            Some(SlicePointerIndex::<T>::get_unchecked(self, slice))
        }
    }

    fn get_mut(self, slice: MutPtr<T>) -> (r: Option<MutPtr<Self::Output>>) {
        if self.start > self.end || self.end > PointerLength::len(slice.cast_const()) {
            None
        } else {
            Some(SlicePointerIndex::<T>::get_unchecked_mut(self, slice))
        }
    }

    fn get_unchecked(self, slice: ConstPtr<T>) -> (out: ConstPtr<Self::Output>) {
        slice_from_raw_parts(slice.cast::<T::Element>().add(self.start), self.end - self.start)
    }

    fn get_unchecked_mut(self, slice: MutPtr<T>) -> (out: MutPtr<Self::Output>) {
        slice_from_raw_parts_mut(slice.cast::<T::Element>().add(self.start), self.end - self.start)
    }

    fn index_failure(&self, slice: ConstPtr<T>) -> (r: Option<SliceIndexFailure>) {
        if self.start > self.end {
            Some(SliceIndexFailure::IndexOrder { start: self.start, end: self.end })
        } else if self.end > PointerLength::len(slice) {
            Some(SliceIndexFailure::EndIndexLen { index: self.end, len: PointerLength::len(slice) })
        } else {
            None
        }
    }

    fn index(self, slice: ConstPtr<T>) -> (out: ConstPtr<Self::Output>) {
        SlicePointerIndex::<T>::get_unchecked(self, slice)
    }

    fn index_mut(self, slice: MutPtr<T>) -> (out: MutPtr<Self::Output>) {
        SlicePointerIndex::<T>::get_unchecked_mut(self, slice)
    }
}

/// `..end` selects the elements before `end`.
impl<T> SlicePointerIndex<T> for RangeTo<usize> where T: SliceLike + ?Sized {
    type Output = [T::Element];

    open spec fn in_bounds(self, len: usize) -> bool {
        self.end <= len
    }

    open spec fn first(self, len: usize) -> int {
        0
    }

    open spec fn count(self, len: usize) -> int {
        self.end as int
    }

    open spec fn spec_index_failure(self, len: usize) -> Option<SliceIndexFailure> {
        if self.end > len {
            Some(SliceIndexFailure::EndIndexLen { index: self.end, len })
        } else {
            None
        }
    }

    proof fn lemma_in_bounds(self, len: usize) {
    }

    fn get(self, slice: ConstPtr<T>) -> (r: Option<ConstPtr<Self::Output>>) {
        SlicePointerIndex::<T>::get(0..self.end, slice)
    }

    fn get_mut(self, slice: MutPtr<T>) -> (r: Option<MutPtr<Self::Output>>) {
        SlicePointerIndex::<T>::get_mut(0..self.end, slice)
    }

    fn get_unchecked(self, slice: ConstPtr<T>) -> (out: ConstPtr<Self::Output>) {
        SlicePointerIndex::<T>::get_unchecked(0..self.end, slice)
    }

    fn get_unchecked_mut(self, slice: MutPtr<T>) -> (out: MutPtr<Self::Output>) {
        SlicePointerIndex::<T>::get_unchecked_mut(0..self.end, slice)
    }

    fn index_failure(&self, slice: ConstPtr<T>) -> (r: Option<SliceIndexFailure>) {
        SlicePointerIndex::<T>::index_failure(&(0..self.end), slice)
    }

    fn index(self, slice: ConstPtr<T>) -> (out: ConstPtr<Self::Output>) {
        SlicePointerIndex::<T>::index(0..self.end, slice)
    }

    fn index_mut(self, slice: MutPtr<T>) -> (out: MutPtr<Self::Output>) {
        SlicePointerIndex::<T>::index_mut(0..self.end, slice)
    }
}

/// `start..` selects the elements from `start` on.
impl<T> SlicePointerIndex<T> for RangeFrom<usize> where T: SliceLike + ?Sized {
    type Output = [T::Element];

    open spec fn in_bounds(self, len: usize) -> bool {
        self.start <= len
    }

    open spec fn first(self, len: usize) -> int {
        self.start as int
    }

    open spec fn count(self, len: usize) -> int {
        len - self.start
    }

    open spec fn spec_index_failure(self, len: usize) -> Option<SliceIndexFailure> {
        if self.start > len {
            Some(SliceIndexFailure::StartIndexLen { index: self.start, len })
        } else {
            None
        }
    }

    proof fn lemma_in_bounds(self, len: usize) {
    }

    fn get(self, slice: ConstPtr<T>) -> (r: Option<ConstPtr<Self::Output>>) {
        SlicePointerIndex::<T>::get(self.start..PointerLength::len(slice), slice)
    }

    fn get_mut(self, slice: MutPtr<T>) -> (r: Option<MutPtr<Self::Output>>) {
        SlicePointerIndex::<T>::get_mut(self.start..PointerLength::len(slice.cast_const()), slice)
    }

    fn get_unchecked(self, slice: ConstPtr<T>) -> (out: ConstPtr<Self::Output>) {
        SlicePointerIndex::<T>::get_unchecked(self.start..PointerLength::len(slice), slice)
    }

    fn get_unchecked_mut(self, slice: MutPtr<T>) -> (out: MutPtr<Self::Output>) {
        SlicePointerIndex::<T>::get_unchecked_mut(
            self.start..PointerLength::len(slice.cast_const()),
            slice,
        )
    }

    fn index_failure(&self, slice: ConstPtr<T>) -> (r: Option<SliceIndexFailure>) {
        if self.start > PointerLength::len(slice) {
            Some(
                SliceIndexFailure::StartIndexLen {
                    index: self.start,
                    len: PointerLength::len(slice),
                },
            )
        } else {
            None
        }
    }

    fn index(self, slice: ConstPtr<T>) -> (out: ConstPtr<Self::Output>) {
        SlicePointerIndex::<T>::get_unchecked(self, slice)
    }

    fn index_mut(self, slice: MutPtr<T>) -> (out: MutPtr<Self::Output>) {
        SlicePointerIndex::<T>::get_unchecked_mut(self, slice)
    }
}

/// `..` selects the whole slice: the address that comes out is the one that
/// went in.
impl<E> SlicePointerIndex<[E]> for RangeFull {
    type Output = [E];

    open spec fn in_bounds(self, len: usize) -> bool {
        true
    }

    open spec fn first(self, len: usize) -> int {
        0
    }

    open spec fn count(self, len: usize) -> int {
        len as int
    }

    open spec fn spec_index_failure(self, len: usize) -> Option<SliceIndexFailure> {
        None
    }

    proof fn lemma_in_bounds(self, len: usize) {
    }

    fn get(self, slice: ConstPtr<[E]>) -> (r: Option<ConstPtr<[E]>>) {
        Some(SlicePointerIndex::<[E]>::get_unchecked(self, slice))
    }

    fn get_mut(self, slice: MutPtr<[E]>) -> (r: Option<MutPtr<[E]>>) {
        Some(SlicePointerIndex::<[E]>::get_unchecked_mut(self, slice))
    }

    fn get_unchecked(self, slice: ConstPtr<[E]>) -> (out: ConstPtr<[E]>) {
        // the same address; one that carried no length carries zero now
        slice_from_raw_parts(slice.cast::<E>(), slice.len())
    }

    fn get_unchecked_mut(self, slice: MutPtr<[E]>) -> (out: MutPtr<[E]>) {
        // the same address; one that carried no length carries zero now
        slice_from_raw_parts_mut(slice.cast::<E>(), slice.len())
    }

    fn index_failure(&self, slice: ConstPtr<[E]>) -> (r: Option<SliceIndexFailure>) {
        None
    }

    fn index(self, slice: ConstPtr<[E]>) -> (out: ConstPtr<[E]>) {
        SlicePointerIndex::<[E]>::get_unchecked(self, slice)
    }

    fn index_mut(self, slice: MutPtr<[E]>) -> (out: MutPtr<[E]>) {
        SlicePointerIndex::<[E]>::get_unchecked_mut(self, slice)
    }
}

/// `..` selects the whole array, as a slice of its `N` elements.
impl<E, const N: usize> SlicePointerIndex<[E; N]> for RangeFull {
    type Output = [E];

    open spec fn in_bounds(self, len: usize) -> bool {
        true
    }

    open spec fn first(self, len: usize) -> int {
        0
    }

    open spec fn count(self, len: usize) -> int {
        len as int
    }

    open spec fn spec_index_failure(self, len: usize) -> Option<SliceIndexFailure> {
        None
    }

    proof fn lemma_in_bounds(self, len: usize) {
    }

    fn get(self, slice: ConstPtr<[E; N]>) -> (r: Option<ConstPtr<[E]>>) {
        Some(slice.unsize())
    }

    fn get_mut(self, slice: MutPtr<[E; N]>) -> (r: Option<MutPtr<[E]>>) {
        Some(slice.unsize())
    }

    fn get_unchecked(self, slice: ConstPtr<[E; N]>) -> (out: ConstPtr<[E]>) {
        slice.unsize()
    }

    fn get_unchecked_mut(self, slice: MutPtr<[E; N]>) -> (out: MutPtr<[E]>) {
        slice.unsize()
    }

    fn index_failure(&self, slice: ConstPtr<[E; N]>) -> (r: Option<SliceIndexFailure>) {
        None
    }

    fn index(self, slice: ConstPtr<[E; N]>) -> (out: ConstPtr<[E]>) {
        slice.unsize()
    }

    fn index_mut(self, slice: MutPtr<[E; N]>) -> (out: MutPtr<[E]>) {
        slice.unsize()
    }
}

/// The half-open range that selects what `range` selects: it ends one after
/// the last position. A range that was iterated to its end selects nothing
/// more; it becomes the empty range just after its last position, so that
/// this position is still held against the length. A range that starts after
/// its last position keeps its start, and is refused where it starts after
/// its end.
pub open spec fn spec_into_slice_range(range: RangeInclusive<usize>) -> Range<usize> {
    let exclusive_end = (range@.end + 1) as usize;
    Range {
        start: if range@.exhausted && range@.start <= range@.end {
            exclusive_end
        } else {
            range@.start
        },
        end: exclusive_end,
    }
}

/// Converts an inclusive range to the half-open range that selects the same.
/// A last position equal to the largest `usize` has no half-open form: the
/// caller has dealt with it.
pub fn into_slice_range(range_inclusive: RangeInclusive<usize>) -> (range: Range<usize>)
    requires
        range_inclusive@.end < usize::MAX,
    ensures
        range == spec_into_slice_range(range_inclusive),
{
    let exclusive_end = *range_inclusive.end() + 1;
    let start = if range_inclusive_is_empty(&range_inclusive) && *range_inclusive.start()
        <= *range_inclusive.end() {
        exclusive_end
    } else {
        *range_inclusive.start()
    };
    start..exclusive_end
}

/// `start..=end` selects the elements from `start` up to and including `end`.
/// It is in bounds where its half-open form is: the last position lies in the
/// target, and the range does not start after its end.
impl<T> SlicePointerIndex<T> for RangeInclusive<usize> where T: SliceLike + ?Sized {
    type Output = [T::Element];

    open spec fn in_bounds(self, len: usize) -> bool {
        self@.end < len && self@.start <= self@.end + 1
    }

    open spec fn first(self, len: usize) -> int {
        spec_into_slice_range(self).start as int
    }

    open spec fn count(self, len: usize) -> int {
        spec_into_slice_range(self).end - spec_into_slice_range(self).start
    }

    open spec fn spec_index_failure(self, len: usize) -> Option<SliceIndexFailure> {
        if self@.end == usize::MAX {
            Some(SliceIndexFailure::EndIndexOverflow)
        } else if self@.start > self@.end + 1 {
            Some(
                SliceIndexFailure::IndexOrder {
                    start: self@.start,
                    end: (self@.end + 1) as usize,
                },
            )
        } else if self@.end + 1 > len {
            Some(SliceIndexFailure::EndIndexLen { index: (self@.end + 1) as usize, len })
        } else {
            None
        }
    }

    proof fn lemma_in_bounds(self, len: usize) {
    }

    fn get(self, slice: ConstPtr<T>) -> (r: Option<ConstPtr<Self::Output>>) {
        if *self.end() == usize::MAX {
            None
        } else {
            SlicePointerIndex::<T>::get(into_slice_range(self), slice)
        }
    }

    fn get_mut(self, slice: MutPtr<T>) -> (r: Option<MutPtr<Self::Output>>) {
        if *self.end() == usize::MAX {
            None
        } else {
            SlicePointerIndex::<T>::get_mut(into_slice_range(self), slice)
        }
    }

    fn get_unchecked(self, slice: ConstPtr<T>) -> (out: ConstPtr<Self::Output>) {
        SlicePointerIndex::<T>::get_unchecked(into_slice_range(self), slice)
    }

    fn get_unchecked_mut(self, slice: MutPtr<T>) -> (out: MutPtr<Self::Output>) {
        SlicePointerIndex::<T>::get_unchecked_mut(into_slice_range(self), slice)
    }

    fn index_failure(&self, slice: ConstPtr<T>) -> (r: Option<SliceIndexFailure>) {
        let end = *self.end();
        if end == usize::MAX {
            Some(SliceIndexFailure::EndIndexOverflow)
        } else {
            let start = if range_inclusive_is_empty(self) && *self.start() <= end {
                end + 1
            } else {
                *self.start()
            };
            SlicePointerIndex::<T>::index_failure(&(start..end + 1), slice)
        }
    }

    fn index(self, slice: ConstPtr<T>) -> (out: ConstPtr<Self::Output>) {
        SlicePointerIndex::<T>::index(into_slice_range(self), slice)
    }

    fn index_mut(self, slice: MutPtr<T>) -> (out: MutPtr<Self::Output>) {
        SlicePointerIndex::<T>::index_mut(into_slice_range(self), slice)
    }
}

/// `..=end` selects the elements up to and including `end`.
impl<T> SlicePointerIndex<T> for RangeToInclusive<usize> where T: SliceLike + ?Sized {
    type Output = [T::Element];

    open spec fn in_bounds(self, len: usize) -> bool {
        self.end < len
    }

    open spec fn first(self, len: usize) -> int {
        0
    }

    open spec fn count(self, len: usize) -> int {
        self.end + 1
    }

    open spec fn spec_index_failure(self, len: usize) -> Option<SliceIndexFailure> {
        if self.end == usize::MAX {
            Some(SliceIndexFailure::EndIndexOverflow)
        } else if self.end + 1 > len {
            Some(SliceIndexFailure::EndIndexLen { index: (self.end + 1) as usize, len })
        } else {
            None
        }
    }

    proof fn lemma_in_bounds(self, len: usize) {
    }

    fn get(self, slice: ConstPtr<T>) -> (r: Option<ConstPtr<Self::Output>>) {
        SlicePointerIndex::<T>::get(0..=self.end, slice)
    }

    fn get_mut(self, slice: MutPtr<T>) -> (r: Option<MutPtr<Self::Output>>) {
        SlicePointerIndex::<T>::get_mut(0..=self.end, slice)
    }

    fn get_unchecked(self, slice: ConstPtr<T>) -> (out: ConstPtr<Self::Output>) {
        SlicePointerIndex::<T>::get_unchecked(0..=self.end, slice)
    }

    fn get_unchecked_mut(self, slice: MutPtr<T>) -> (out: MutPtr<Self::Output>) {
        SlicePointerIndex::<T>::get_unchecked_mut(0..=self.end, slice)
    }

    fn index_failure(&self, slice: ConstPtr<T>) -> (r: Option<SliceIndexFailure>) {
        SlicePointerIndex::<T>::index_failure(&(0..=self.end), slice)
    }

    fn index(self, slice: ConstPtr<T>) -> (out: ConstPtr<Self::Output>) {
        SlicePointerIndex::<T>::index(0..=self.end, slice)
    }

    fn index_mut(self, slice: MutPtr<T>) -> (out: MutPtr<Self::Output>) {
        SlicePointerIndex::<T>::index_mut(0..=self.end, slice)
    }
}

} // verus!
