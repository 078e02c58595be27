use deferred_reference::{
    into_slice_range, slice_from_raw_parts, slice_from_raw_parts_mut, ConstPtr, MutPtr,
    SliceIndexFailure, SlicePointerIndex,
};

/// The address of a slice of `len` elements that starts at position `addr`.
fn slice_at(addr: usize, len: usize) -> ConstPtr<[u8]> {
    slice_from_raw_parts(ConstPtr::new(addr), len)
}

fn slice_at_mut(addr: usize, len: usize) -> MutPtr<[u8]> {
    slice_from_raw_parts_mut(MutPtr::new(addr), len)
}

fn array_at(addr: usize) -> ConstPtr<[u8; 10]> {
    ConstPtr::new(addr)
}

/// Address and length of the slice that `index` selects, if any.
fn selected<I>(index: I, slice: ConstPtr<[u8]>) -> Option<(usize, usize)>
where
    I: SlicePointerIndex<[u8], Output = [u8]>,
{
    index.get(slice).map(|out| (out.addr, out.len()))
}

fn selected_mut<I>(index: I, slice: MutPtr<[u8]>) -> Option<(usize, usize)>
where
    I: SlicePointerIndex<[u8], Output = [u8]>,
{
    index.get_mut(slice).map(|out| (out.addr, out.len()))
}

fn selected_of_array<I>(index: I, array: ConstPtr<[u8; 10]>) -> Option<(usize, usize)>
where
    I: SlicePointerIndex<[u8; 10], Output = [u8]>,
{
    index.get(array).map(|out| (out.addr, out.len()))
}

#[test]
fn position_selects_the_element_there() {
    let slice = slice_at(100, 10);
    assert_eq!(Some(100), SlicePointerIndex::<[u8]>::get(0usize, slice).map(|p| p.addr));
    assert_eq!(Some(109), SlicePointerIndex::<[u8]>::get(9usize, slice).map(|p| p.addr));
    assert!(SlicePointerIndex::<[u8]>::get(10usize, slice).is_none());
    assert!(SlicePointerIndex::<[u8]>::get(usize::MAX, slice).is_none());
    let slice = slice_at_mut(100, 10);
    assert_eq!(Some(103), SlicePointerIndex::<[u8]>::get_mut(3usize, slice).map(|p| p.addr));
    assert!(SlicePointerIndex::<[u8]>::get_mut(10usize, slice).is_none());
    assert_eq!(107, SlicePointerIndex::<[u8]>::get_unchecked(7usize, slice_at(100, 10)).addr);
    assert_eq!(107, SlicePointerIndex::<[u8]>::get_unchecked_mut(7usize, slice).addr);
    assert_eq!(107, SlicePointerIndex::<[u8]>::index(7usize, slice_at(100, 10)).addr);
    assert_eq!(107, SlicePointerIndex::<[u8]>::index_mut(7usize, slice).addr);
}

#[test]
fn position_in_an_empty_target_is_out_of_bounds() {
    assert!(SlicePointerIndex::<[u8]>::get(0usize, slice_at(5, 0)).is_none());
    assert_eq!(
        Some(SliceIndexFailure::Index { index: 0, len: 0 }),
        SlicePointerIndex::<[u8]>::index_failure(&0usize, slice_at(5, 0))
    );
}

#[test]
fn range_selects_from_start_to_end() {
    let slice = slice_at(100, 10);
    assert_eq!(Some((105, 5)), selected(5..10, slice));
    assert_eq!(Some((100, 10)), selected(0..10, slice));
    assert_eq!(Some((102, 1)), selected(2..3, slice));
    assert_eq!(None, selected(5..11, slice));
    assert_eq!(None, selected(11..11, slice));
    assert_eq!(Some((105, 5)), selected_mut(5..10, slice_at_mut(100, 10)));
    assert_eq!(None, selected_mut(5..11, slice_at_mut(100, 10)));
    let out = SlicePointerIndex::<[u8]>::get_unchecked(2..6, slice);
    assert_eq!((102, 4), (out.addr, out.len()));
    let out = SlicePointerIndex::<[u8]>::index(2..6, slice);
    assert_eq!((102, 4), (out.addr, out.len()));
    let out = SlicePointerIndex::<[u8]>::index_mut(2..6, slice_at_mut(100, 10));
    assert_eq!((102, 4), (out.addr, out.len()));
}

#[test]
fn empty_range_is_valid_anywhere_in_the_target() {
    let slice = slice_at(100, 10);
    assert_eq!(Some((100, 0)), selected(0..0, slice));
    assert_eq!(Some((104, 0)), selected(4..4, slice));
    // also at the very end
    assert_eq!(Some((110, 0)), selected(10..10, slice));
    assert_eq!(Some((110, 0)), selected(10.., slice));
    assert_eq!(Some((100, 0)), selected(..0, slice));
    assert_eq!(None, SlicePointerIndex::<[u8]>::index_failure(&(10..10), slice));
}

#[test]
fn inverted_range_is_out_of_bounds() {
    let slice = slice_at(100, 10);
    assert_eq!(None, selected(5..3, slice));
    assert_eq!(None, selected_mut(5..3, slice_at_mut(100, 10)));
    assert_eq!(
        Some(SliceIndexFailure::IndexOrder { start: 5, end: 3 }),
        SlicePointerIndex::<[u8]>::index_failure(&(5..3), slice)
    );
    // the order is looked at before the end
    assert_eq!(
        Some(SliceIndexFailure::IndexOrder { start: 50, end: 30 }),
        SlicePointerIndex::<[u8]>::index_failure(&(50..30), slice)
    );
}

#[test]
fn range_to_selects_the_first_elements() {
    let slice = slice_at(100, 10);
    assert_eq!(Some((100, 4)), selected(..4, slice));
    assert_eq!(Some((100, 10)), selected(..10, slice));
    assert_eq!(None, selected(..11, slice));
    assert_eq!(Some((100, 4)), selected_mut(..4, slice_at_mut(100, 10)));
    assert_eq!(
        Some(SliceIndexFailure::EndIndexLen { index: 11, len: 10 }),
        SlicePointerIndex::<[u8]>::index_failure(&(..11), slice)
    );
    assert_eq!(None, SlicePointerIndex::<[u8]>::index_failure(&(..10), slice));
}

#[test]
fn range_from_selects_the_last_elements() {
    let slice = slice_at(100, 10);
    assert_eq!(Some((104, 6)), selected(4.., slice));
    assert_eq!(Some((100, 10)), selected(0.., slice));
    assert_eq!(None, selected(11.., slice));
    assert_eq!(Some((104, 6)), selected_mut(4.., slice_at_mut(100, 10)));
    assert_eq!(
        Some(SliceIndexFailure::StartIndexLen { index: 11, len: 10 }),
        SlicePointerIndex::<[u8]>::index_failure(&(11..), slice)
    );
    assert_eq!(None, SlicePointerIndex::<[u8]>::index_failure(&(10..), slice));
}

#[test]
fn full_range_passes_the_slice_through() {
    let slice = slice_at(100, 10);
    assert_eq!(Some((100, 10)), selected(.., slice));
    assert_eq!(Some((100, 10)), selected_mut(.., slice_at_mut(100, 10)));
    assert_eq!(Some((7, 0)), selected(.., slice_at(7, 0)));
    assert_eq!(None, SlicePointerIndex::<[u8]>::index_failure(&(..), slice));
}

#[test]
fn full_range_of_an_array_is_the_slice_of_all_its_elements() {
    assert_eq!(Some((100, 10)), selected_of_array(.., array_at(100)));
    let out = SlicePointerIndex::<[u8; 10]>::index(.., array_at(3));
    assert_eq!((3, 10), (out.addr, out.len()));
    let out = SlicePointerIndex::<[u8; 10]>::get_unchecked_mut(.., array_at(3).cast_mut());
    assert_eq!((3, 10), (out.addr, out.len()));
}

#[test]
fn shapes_on_an_array_go_by_its_length() {
    assert_eq!(Some((105, 5)), selected_of_array(5..10, array_at(100)));
    assert_eq!(None, selected_of_array(5..11, array_at(100)));
    assert_eq!(Some((104, 6)), selected_of_array(4.., array_at(100)));
    assert_eq!(Some((100, 4)), selected_of_array(..=3, array_at(100)));
    assert_eq!(Some((102, 3)), selected_of_array(2..=4, array_at(100)));
    assert_eq!(
        Some(109),
        SlicePointerIndex::<[u8; 10]>::get(9usize, array_at(100)).map(|p| p.addr)
    );
    assert!(SlicePointerIndex::<[u8; 10]>::get(10usize, array_at(100)).is_none());
}

#[test]
fn inclusive_range_selects_up_to_and_including_end() {
    let slice = slice_at(100, 11);
    assert_eq!(Some((105, 6)), selected(5..=10, slice));
    assert_eq!(Some((105, 5)), selected(5..10, slice));
    assert_eq!(Some((100, 1)), selected(0..=0, slice));
    assert_eq!(None, selected(5..=11, slice));
    assert_eq!(Some((105, 6)), selected_mut(5..=10, slice_at_mut(100, 11)));
    assert_eq!(
        Some(SliceIndexFailure::EndIndexLen { index: 12, len: 11 }),
        SlicePointerIndex::<[u8]>::index_failure(&(5..=11), slice)
    );
    assert_eq!(None, SlicePointerIndex::<[u8]>::index_failure(&(5..=10), slice));
    let out = SlicePointerIndex::<[u8]>::index(5..=10, slice);
    assert_eq!((105, 6), (out.addr, out.len()));
}

#[test]
fn inclusive_range_up_to_the_largest_usize_is_refused() {
    let slice = slice_at(0, usize::MAX);
    assert_eq!(None, selected(0..=usize::MAX, slice));
    assert_eq!(None, selected(..=usize::MAX, slice));
    assert_eq!(None, selected_mut(0..=usize::MAX, slice_at_mut(0, usize::MAX)));
    assert_eq!(
        Some(SliceIndexFailure::EndIndexOverflow),
        SlicePointerIndex::<[u8]>::index_failure(&(0..=usize::MAX), slice)
    );
    assert_eq!(
        Some(SliceIndexFailure::EndIndexOverflow),
        SlicePointerIndex::<[u8]>::index_failure(&(..=usize::MAX), slice)
    );
    // one less is fine
    assert_eq!(Some((0, usize::MAX)), selected(..=usize::MAX - 1, slice));
}

#[test]
fn range_to_inclusive_selects_the_first_elements() {
    let slice = slice_at(100, 11);
    assert_eq!(Some((100, 11)), selected(..=10, slice));
    assert_eq!(Some((100, 1)), selected(..=0, slice));
    assert_eq!(None, selected(..=11, slice));
    assert_eq!(Some((100, 11)), selected_mut(..=10, slice_at_mut(100, 11)));
    assert_eq!(
        Some(SliceIndexFailure::EndIndexLen { index: 12, len: 11 }),
        SlicePointerIndex::<[u8]>::index_failure(&(..=11), slice)
    );
}

#[test]
fn into_slice_range_adds_one_to_the_end() {
    assert_eq!(5..11, into_slice_range(5..=10));
    assert_eq!(0..1, into_slice_range(0..=0));
}

#[test]
fn into_slice_range_keeps_the_start_of_a_range_that_starts_after_its_end() {
    assert_eq!(5..4, into_slice_range(5..=3));
    assert_eq!(9..1, into_slice_range(9..=0));
    // one past the last position: the empty range there
    assert_eq!(4..4, into_slice_range(4..=3));
}

#[test]
fn into_slice_range_of_a_range_iterated_to_its_end_is_empty_after_its_end() {
    let mut range = 0..=2;
    for _ in range.by_ref() {}
    assert!(range.is_empty());
    assert_eq!(3..3, into_slice_range(range));
}

#[test]
fn inclusive_range_that_starts_after_its_end_is_out_of_bounds() {
    let slice = slice_at(100, 8);
    assert_eq!(None, selected(3..=1, slice));
    assert_eq!(None, selected_mut(3..=1, slice_at_mut(100, 8)));
    assert_eq!(None, selected(5..=3, slice));
    assert_eq!(None, selected_of_array(5..=3, array_at(100)));
    assert_eq!(
        Some(SliceIndexFailure::IndexOrder { start: 3, end: 2 }),
        SlicePointerIndex::<[u8]>::index_failure(&(3..=1), slice)
    );
    assert_eq!(
        "slice pointer index starts at 3 but ends at 2",
        SlicePointerIndex::<[u8]>::index_failure(&(3..=1), slice).unwrap().message()
    );
    // the order is looked at before the end
    assert_eq!(
        Some(SliceIndexFailure::IndexOrder { start: 30, end: 21 }),
        SlicePointerIndex::<[u8]>::index_failure(&(30..=20), slice)
    );
    // the largest last position is looked at before the order
    assert_eq!(
        Some(SliceIndexFailure::EndIndexOverflow),
        SlicePointerIndex::<[u8]>::index_failure(&(usize::MAX..=usize::MAX), slice)
    );
}

#[test]
fn inclusive_range_that_starts_one_past_its_last_position_is_empty() {
    let slice = slice_at(100, 8);
    assert_eq!(Some((104, 0)), selected(4..=3, slice));
    assert_eq!(Some((108, 0)), selected(8..=7, slice));
    assert_eq!(None, SlicePointerIndex::<[u8]>::index_failure(&(4..=3), slice));
    // its end is still held against the length
    assert_eq!(None, selected(9..=8, slice));
    assert_eq!(
        Some(SliceIndexFailure::EndIndexLen { index: 9, len: 8 }),
        SlicePointerIndex::<[u8]>::index_failure(&(9..=8), slice)
    );
}

#[test]
fn inclusive_range_iterated_to_its_end_selects_nothing_after_its_end() {
    let slice = slice_at(100, 10);
    let mut range = 0..=2;
    for _ in range.by_ref() {}
    assert_eq!(Some((103, 0)), selected(range, slice));
    let mut range = 0..=9;
    for _ in range.by_ref() {}
    assert_eq!(Some((110, 0)), selected(range, slice));
    let mut range = 0..=10;
    for _ in range.by_ref() {}
    assert_eq!(None, selected(range, slice));
}

#[test]
fn addresses_that_come_out_carry_what_their_target_needs() {
    let slice = slice_at(100, 10);
    // an element address carries no length
    assert_eq!(None, SlicePointerIndex::<[u8]>::get(3usize, slice).unwrap().metadata);
    assert_eq!(None, SlicePointerIndex::<[u8; 10]>::index(3usize, array_at(100)).metadata);
    // a slice address carries the number of elements selected
    assert_eq!(Some(4), SlicePointerIndex::<[u8]>::index(2..6, slice).metadata);
    assert_eq!(Some(0), SlicePointerIndex::<[u8]>::index(6..6, slice).metadata);
    assert_eq!(Some(10), SlicePointerIndex::<[u8]>::index(.., slice).metadata);
    assert_eq!(Some(10), SlicePointerIndex::<[u8; 10]>::index(.., array_at(100)).metadata);
    assert_eq!(Some(7), SlicePointerIndex::<[u8]>::index_mut(3.., slice_at_mut(100, 10)).metadata);
    // a slice address without a length is that of an empty slice
    let bare: ConstPtr<[u8]> = ConstPtr { addr: 5, metadata: None, target: core::marker::PhantomData };
    let out = SlicePointerIndex::<[u8]>::index(.., bare);
    assert_eq!((5, Some(0)), (out.addr, out.metadata));
    let out = SlicePointerIndex::<[u8]>::get_mut(.., bare.cast_mut()).unwrap();
    assert_eq!((5, Some(0)), (out.addr, out.metadata));
}
