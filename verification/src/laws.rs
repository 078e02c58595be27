//! What holds of handles, whatever the place.

use crate::deferred::Deferred;
use crate::failure::{
    end_index_len_message, end_index_overflow_message, index_order_message,
    index_overflow_message, start_index_len_message, SliceIndexFailure,
};
use crate::pointee::Pointee;
use crate::reference::Reference;
use crate::slice_like::SliceLike;
use crate::slice_pointer_index::SlicePointerIndex;
use core::ops::{Range, RangeFrom, RangeInclusive, RangeTo, RangeToInclusive};
use vstd::prelude::*;

verus! {

/// Splitting loses nothing and adds nothing. Where `left` and `right` are the
/// two handles that splitting `whole` at `mid` gives, then in every place that
/// `whole` lies in they lie too, `left` dereferences to `mid` elements and
/// `right` to the rest, and the two, one after the other, are what `whole`
/// dereferences to.
pub proof fn lemma_split_at_concat<T, L, R>(
    whole: Deferred<T>,
    mid: usize,
    left: Deferred<L>,
    right: Deferred<R>,
    place: Seq<<T::Target as SliceLike>::Element>,
) where
    T: Reference,
    T::Target: SliceLike,
    L: Reference<Target = [<T::Target as SliceLike>::Element]>,
    R: Reference<Target = [<T::Target as SliceLike>::Element]>,

    requires
        whole.lies_in(place),
        mid <= whole.spec_len(),
        left@.addr == whole@.addr,
        left.spec_len() == mid,
        right@.addr == whole@.addr + mid,
        right.spec_len() == whole.spec_len() - mid,
    ensures
        left.lies_in(place),
        right.lies_in(place),
        left.target(place).len() == mid,
        right.target(place).len() == whole.spec_len() - mid,
        left.target(place) + right.target(place) == whole.target(place),
{
    assert(left.target(place) + right.target(place) =~= whole.target(place));
}

/// What an index in bounds selects from the target is a stretch of the place
/// that lies inside the target. An index is in bounds exactly where no
/// failure is reported for it.
pub proof fn lemma_selected_in_place<T, I>(
    handle: Deferred<T>,
    place: Seq<<T::Target as SliceLike>::Element>,
    index: I,
) where T: Reference, T::Target: SliceLike, I: SlicePointerIndex<T::Target>
    requires
        handle.lies_in(place),
        index.in_bounds(handle.spec_len()) || index.spec_index_failure(handle.spec_len()) is None,
    ensures
        index.in_bounds(handle.spec_len()),
        index.spec_index_failure(handle.spec_len()) is None,
        0 <= index.first(handle.spec_len()),
        0 <= index.count(handle.spec_len()),
        index.first(handle.spec_len()) + index.count(handle.spec_len()) <= handle.spec_len(),
        handle.selected(place, index) == place.subrange(
            handle@.addr + index.first(handle.spec_len()),
            handle@.addr + index.first(handle.spec_len()) + index.count(handle.spec_len()),
        ),
        handle.with_selected(place, index, handle.selected(place, index)) == place,
{
    index.lemma_in_bounds(handle.spec_len());
    let from = handle@.addr + index.first(handle.spec_len());
    let to = from + index.count(handle.spec_len());
    assert(handle.selected(place, index) =~= place.subrange(from, to));
    assert(handle.with_selected(place, index, handle.selected(place, index)) =~= place);
}

/// Indexing by a position gives the element at that position. Where `out` is
/// what indexing `handle` by the in-bounds position `i` gives in `place`, it is
/// the element `i` of what `handle` dereferences to, which is the element of
/// the place that lies `i` elements after the start of the target.
pub proof fn lemma_index_position<T>(
    handle: Deferred<T>,
    place: Seq<<T::Target as SliceLike>::Element>,
    i: usize,
    out: <T::Target as SliceLike>::Element,
) where T: Reference, T::Target: SliceLike
    requires
        handle.lies_in(place),
        i < handle.spec_len(),
        <<T::Target as SliceLike>::Element as Pointee<
            <T::Target as SliceLike>::Element,
        >>::elements(&out) == handle.selected(place, i),
    ensures
        out == handle.target(place)[i as int],
        out == place[handle@.addr + i],
{
    let one = <<T::Target as SliceLike>::Element as Pointee<
        <T::Target as SliceLike>::Element,
    >>::elements(&out);
    assert(one[0] == out);
    assert(handle.target(place).subrange(i as int, i + 1)[0] == handle.target(place)[i as int]);
}

/// Downgrading changes what may be done through a handle, not what it is a
/// handle to. Where `shared` is what `exclusive` downgrades to, the two have
/// the same length, lie in the same places and dereference to the same there.
pub proof fn lemma_into_ref<T>(
    exclusive: Deferred<&mut T>,
    shared: Deferred<&T>,
    place: Seq<T::Element>,
) where T: SliceLike + ?Sized
    requires
        shared@ == exclusive@,
    ensures
        shared.spec_len() == exclusive.spec_len(),
        shared.lies_in(place) == exclusive.lies_in(place),
        shared.target(place) == exclusive.target(place),
{
}

/// Widening keeps length and contents. Where `slice` is what the handle
/// `array`, to an array of `N` elements, widens to, its length is `N`, it lies
/// in the same places and it dereferences to the same there.
pub proof fn lemma_unsize<A, S, E, const N: usize>(
    array: Deferred<A>,
    slice: Deferred<S>,
    place: Seq<E>,
) where A: Reference<Target = [E; N]>, S: Reference<Target = [E]>
    requires
        slice@ == array@.unsize(),
    ensures
        slice.spec_len() == N,
        slice.spec_len() == array.spec_len(),
        slice.lies_in(place) == array.lies_in(place),
        slice.target(place) == array.target(place),
{
}

/// A write through one handle leaves the target of a handle that is disjoint
/// from it alone. Where `before` is a place in which `writer` and `other` lie,
/// the two do not overlap, and `after` is the place once the reference that
/// `writer` was dereferenced to has been given up holding `written`, then
/// `writer` dereferences to `written` in `after`, `other` dereferences to what
/// it did before, and the place is as long as it was.
pub proof fn lemma_disjoint_write<W, O>(
    writer: Deferred<&mut W>,
    other: Deferred<O>,
    before: Seq<W::Element>,
    written: Seq<W::Element>,
    after: Seq<W::Element>,
) where W: SliceLike + ?Sized, O: Reference, O::Target: SliceLike<Element = W::Element>
    requires
        writer.lies_in(before),
        other.lies_in(before),
        writer@.addr + writer.spec_len() <= other@.addr || other@.addr + other.spec_len()
            <= writer@.addr,
        written.len() == writer.spec_len(),
        after == writer.with_target(before, written),
    ensures
        after.len() == before.len(),
        writer.target(after) == written,
        other.target(after) == other.target(before),
{
    assert(writer.target(after) =~= written);
    assert(other.target(after) =~= other.target(before));
}

/// A write to what one index selects leaves alone what an index selects that
/// is disjoint from it. Where `before` is a place in which `writer` and
/// `other` lie, `index` is in bounds for `writer` and `other_index` for
/// `other`, one selection ends where the other starts or before, and `after`
/// is the place once the reference that `writer` gave for `index` has been
/// given up holding `written`, then `index` selects `written` in `after`,
/// `other_index` selects what it did before, and the place is as long as it
/// was.
pub proof fn lemma_disjoint_selected_write<W, O, I, J>(
    writer: Deferred<&mut W>,
    index: I,
    other: Deferred<O>,
    other_index: J,
    before: Seq<W::Element>,
    written: Seq<W::Element>,
    after: Seq<W::Element>,
) where
    W: SliceLike + ?Sized,
    O: Reference,
    O::Target: SliceLike<Element = W::Element>,
    I: SlicePointerIndex<W>,
    J: SlicePointerIndex<O::Target>,

    requires
        writer.lies_in(before),
        other.lies_in(before),
        index.in_bounds(writer.spec_len()),
        other_index.in_bounds(other.spec_len()),
        ({
            let from = writer@.addr + index.first(writer.spec_len());
            let to = from + index.count(writer.spec_len());
            let other_from = other@.addr + other_index.first(other.spec_len());
            let other_to = other_from + other_index.count(other.spec_len());
            to <= other_from || other_to <= from
        }),
        written.len() == index.count(writer.spec_len()),
        after == writer.with_selected(before, index, written),
    ensures
        after.len() == before.len(),
        writer.lies_in(after),
        other.lies_in(after),
        writer.selected(after, index) == written,
        other.selected(after, other_index) == other.selected(before, other_index),
{
    index.lemma_in_bounds(writer.spec_len());
    other_index.lemma_in_bounds(other.spec_len());
    assert(writer.selected(after, index) =~= written);
    assert(other.selected(after, other_index) =~= other.selected(before, other_index));
}

/// Dereferencing changes nothing by itself: a place whose target is replaced
/// by what the target holds is the place.
pub proof fn lemma_with_target_unchanged<T>(
    handle: Deferred<T>,
    place: Seq<<T::Target as SliceLike>::Element>,
) where T: Reference, T::Target: SliceLike
    requires
        handle.lies_in(place),
    ensures
        handle.with_target(place, handle.target(place)) == place,
{
    assert(handle.with_target(place, handle.target(place)) =~= place);
}

/// An index is refused by the checked accessor exactly when the accessor
/// that reports has a failure to report, and what an accepted index selects
/// lies inside the target: in every place that `handle` lies in, the positions
/// it selects are positions of the place.
pub proof fn lemma_index_accepted_or_reported<T, I>(
    handle: Deferred<T>,
    index: I,
    place: Seq<<T::Target as SliceLike>::Element>,
) where T: Reference, T::Target: SliceLike, I: SlicePointerIndex<T::Target>
    requires
        handle.lies_in(place),
    ensures
        index.in_bounds(handle.spec_len()) <==> index.spec_index_failure(handle.spec_len()) is None,
        index.in_bounds(handle.spec_len()) ==> {
            &&& 0 <= index.first(handle.spec_len())
            &&& 0 <= index.count(handle.spec_len())
            &&& handle@.addr + index.first(handle.spec_len()) + index.count(handle.spec_len())
                <= handle@.addr + handle.spec_len() <= place.len()
        },
{
    index.lemma_in_bounds(handle.spec_len());
}

/// Splitting at `mid` is taking `..mid` and `mid..`. The split is defined
/// exactly where both are in bounds, which is where `mid` is at most the
/// length; past the length, the first half is reported to end and the second
/// to start out of range, each with `mid` and the length.
pub proof fn lemma_split_at_defined<T>(handle: Deferred<T>, mid: usize) where
    T: Reference,
    T::Target: SliceLike,

    ensures
        mid <= handle.spec_len() <==> <RangeTo<usize> as SlicePointerIndex<T::Target>>::in_bounds(
            RangeTo { end: mid },
            handle.spec_len(),
        ) && <RangeFrom<usize> as SlicePointerIndex<T::Target>>::in_bounds(
            RangeFrom { start: mid },
            handle.spec_len(),
        ),
        mid > handle.spec_len() ==> <RangeTo<usize> as SlicePointerIndex<
            T::Target,
        >>::spec_index_failure(RangeTo { end: mid }, handle.spec_len()) == Some(
            SliceIndexFailure::EndIndexLen { index: mid, len: handle.spec_len() },
        ) && <RangeFrom<usize> as SlicePointerIndex<T::Target>>::spec_index_failure(
            RangeFrom { start: mid },
            handle.spec_len(),
        ) == Some(SliceIndexFailure::StartIndexLen { index: mid, len: handle.spec_len() }),
{
}

/// What is reported for an index that is out of bounds, shape by shape, and
/// in which words: a position and a range are held against the length `len`
/// of the target, a range that starts after it ends is reported before its
/// end is looked at, and the words name the index, or the two ends, and the
/// length.
pub proof fn lemma_reported<T>(len: usize, position: usize, start: usize, end: usize) where
    T: SliceLike + ?Sized,

    ensures
        position >= len ==> {
            let failure = SliceIndexFailure::Index { index: position, len };
            &&& <usize as SlicePointerIndex<T>>::spec_index_failure(position, len) == Some(failure)
            &&& failure.spec_message() == index_overflow_message(position, len)
        },
        start > end ==> {
            let failure = SliceIndexFailure::IndexOrder { start, end };
            &&& <Range<usize> as SlicePointerIndex<T>>::spec_index_failure(
                Range { start, end },
                len,
            ) == Some(failure)
            &&& failure.spec_message() == index_order_message(start, end)
        },
        start <= end && end > len ==> {
            let failure = SliceIndexFailure::EndIndexLen { index: end, len };
            &&& <Range<usize> as SlicePointerIndex<T>>::spec_index_failure(
                Range { start, end },
                len,
            ) == Some(failure)
            &&& failure.spec_message() == end_index_len_message(end, len)
        },
        end > len ==> <RangeTo<usize> as SlicePointerIndex<T>>::spec_index_failure(
            RangeTo { end },
            len,
        ) == Some(SliceIndexFailure::EndIndexLen { index: end, len }),
        start > len ==> {
            let failure = SliceIndexFailure::StartIndexLen { index: start, len };
            &&& <RangeFrom<usize> as SlicePointerIndex<T>>::spec_index_failure(
                RangeFrom { start },
                len,
            ) == Some(failure)
            &&& failure.spec_message() == start_index_len_message(start, len)
        },
        end == usize::MAX ==> {
            let failure = SliceIndexFailure::EndIndexOverflow;
            &&& <RangeToInclusive<usize> as SlicePointerIndex<T>>::spec_index_failure(
                RangeToInclusive { end },
                len,
            ) == Some(failure)
            &&& failure.spec_message() == end_index_overflow_message()
        },
        end < usize::MAX && end >= len ==> <RangeToInclusive<usize> as SlicePointerIndex<
            T,
        >>::spec_index_failure(RangeToInclusive { end }, len) == Some(
            SliceIndexFailure::EndIndexLen { index: (end + 1) as usize, len },
        ),
{
}

/// What is reported for an inclusive range that is out of bounds: a last
/// position equal to the largest `usize` first, then a start that lies after
/// the end, which is one past the last position, then an end past the length.
/// An inclusive range is in bounds exactly where none of these is reported.
pub proof fn lemma_reported_inclusive<T>(range: RangeInclusive<usize>, len: usize) where
    T: SliceLike + ?Sized,

    ensures
        range@.end == usize::MAX ==> <RangeInclusive<usize> as SlicePointerIndex<
            T,
        >>::spec_index_failure(range, len) == Some(SliceIndexFailure::EndIndexOverflow),
        range@.end < usize::MAX && range@.start > range@.end + 1 ==> <RangeInclusive<
            usize,
        > as SlicePointerIndex<T>>::spec_index_failure(range, len) == Some(
            SliceIndexFailure::IndexOrder { start: range@.start, end: (range@.end + 1) as usize },
        ),
        range@.end < usize::MAX && range@.start <= range@.end + 1 && range@.end >= len
            ==> <RangeInclusive<usize> as SlicePointerIndex<T>>::spec_index_failure(range, len)
            == Some(SliceIndexFailure::EndIndexLen { index: (range@.end + 1) as usize, len }),
        <RangeInclusive<usize> as SlicePointerIndex<T>>::in_bounds(range, len) <==> range@.start
            <= range@.end + 1 <= len,
{
}

} // verus!
