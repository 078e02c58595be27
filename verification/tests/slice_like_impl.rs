use deferred_reference::{DeferMut, Deferred, Place};

#[test]
fn slice_like_impl_doctest1() {
    let mut buffer = [0u8; 300];
    let mut a = Deferred::from(&mut buffer); // a mutable deferred reference
    let b = a.clone_unchecked().into_ref(); // immutable deferred reference
    let mut c = a.clone_unchecked(); // another mutable deferred reference
    assert_eq!(&[0u8; 100], b.index(&buffer, 100..200));
    let (mut_ref1, last) = a.index_mut_pair(&mut c, &mut buffer, 0..100, 200..);
    last.copy_from_slice(&[1u8; 100]);
    assert_eq!(&mut [1u8; 100], last);
    assert_eq!(&mut [0u8; 100], mut_ref1);
    assert_eq!(&[0u8; 100], b.index(&buffer, 100..200));
    assert_eq!(&mut [1u8; 100], c.index_mut(&mut buffer, 200..));
}

#[test]
fn doctest2() {
    let mut buffer = [0u8; 300];
    let mut a: Deferred<&mut [u8]> = Deferred::from(&mut buffer).into(); // a slice
    let b = a.clone_unchecked().into_ref(); // immutable deferred reference
    let mut c = a.clone_unchecked(); // another mutable deferred reference
    let mut_ref1 = &mut a.deref_mut(&mut buffer)[0..100];
    assert_eq!(&mut [0u8; 100], &mut mut_ref1[0..100]);
    assert_eq!(&[0u8; 100], &b.deref(&buffer)[100..200]);
    c.deref_mut(&mut buffer)[200..].copy_from_slice(&[1u8; 100]);
    assert_eq!(&mut [1u8; 100], &mut c.deref_mut(&mut buffer)[200..]);
}

#[test]
fn len_array() {
    let buffer = [0u8; 1024];
    let ptr = buffer.addr_of();
    let deferred = Deferred::from_raw(ptr);
    assert_eq!(1024, deferred.len());

    let ptr = buffer.addr_of().cast_mut();
    let deferred = Deferred::from_raw_mut(ptr);
    assert_eq!(1024, deferred.len());
}

#[test]
fn len_slice() {
    let mut buffer = Vec::with_capacity(1024);
    buffer.resize(1024, 0u8);
    let ptr = buffer[..].addr_of();
    let deferred = Deferred::from_raw(ptr);
    Deferred::len(&deferred);
    assert_eq!(1024, deferred.len());

    let ptr = deferred_reference::slice_from_raw_parts_mut(
        deferred_reference::MutPtr::<u8>::new(0),
        buffer.len(),
    );
    let deferred = Deferred::from_raw_mut(ptr);
    assert_eq!(1024, deferred.len());
}

#[test]
fn test_array_len_ub() {
    let mut buffer = [0u8; 1024];
    let mut deferred = buffer.defer_mut();
    let mut_borrow = deferred.deref_mut(&mut buffer);
    // the length is had while the whole place is borrowed exclusively
    assert_eq!(1024, deferred.len());
    assert_eq!(0, mut_borrow[0]);
}

#[test]
fn test_slice_len_ub() {
    let mut vector = Vec::with_capacity(1024);
    vector.resize(1024, 0u8);
    let mut boxed_slice = vector.into_boxed_slice();
    let mut deferred = boxed_slice.defer_mut();
    let mut_borrow = deferred.deref_mut(&mut boxed_slice);
    // the length is had while the whole place is borrowed exclusively
    assert_eq!(1024, deferred.len());
    assert_eq!(0, mut_borrow[0]);
}

#[test]
fn core_split_at_mut() {
    let mut buffer = [1, 2, 3];
    let mut_ref = &mut buffer;
    let (left, right) = mut_ref.split_at_mut(1);
    assert_eq!(&mut [1], left);
    assert_eq!(&mut [2, 3], right);
    assert_eq!([1, 2, 3], *mut_ref);
}

#[test]
fn doc_len() {
    let buffer = [0u8; 1024];
    let deferred: Deferred<_> = Deferred::new(&buffer);
    assert_eq!(1024, deferred.len());
}

#[test]
fn doc_get() {
    let place = [10, 40, 30];
    let v = Deferred::from(&place);
    assert_eq!(Some(&40), v.get(&place, 1));
    assert_eq!(Some(&[10, 40][..]), v.get(&place, 0..2));
    assert_eq!(None, v.get(&place, 3));
    assert_eq!(None, v.get(&place, 0..4));
}

#[test]
fn doc_get_unchecked() {
    let place = [1, 2, 4];
    let x = Deferred::from(&place);
    assert_eq!(x.get_unchecked(&place, 1), &2);
}

#[test]
fn doc_split_at_unchecked() {
    let v = [1, 2, 3, 4, 5, 6];
    let deferred = Deferred::new(&v);
    {
        let (left, right) = deferred.split_at_unchecked(0);
        assert_eq!(*left.deref(&v), []);
        assert_eq!(*right.deref(&v), [1, 2, 3, 4, 5, 6]);
    }
    {
        let (left, right) = deferred.split_at_unchecked(2);
        assert_eq!(*left.deref(&v), [1, 2]);
        assert_eq!(*right.deref(&v), [3, 4, 5, 6]);
    }
    {
        let (left, right) = deferred.split_at_unchecked(6);
        assert_eq!(*left.deref(&v), [1, 2, 3, 4, 5, 6]);
        assert_eq!(*right.deref(&v), []);
    }
}

#[test]
fn doc_split_at() {
    let v = [1, 2, 3, 4, 5, 6];
    let deferred = Deferred::new(&v);
    {
        let (left, right) = deferred.split_at(0);
        assert_eq!(*left.deref(&v), []);
        assert_eq!(*right.deref(&v), [1, 2, 3, 4, 5, 6]);
    }
    {
        let (left, right) = deferred.split_at(2);
        assert_eq!(*left.deref(&v), [1, 2]);
        assert_eq!(*right.deref(&v), [3, 4, 5, 6]);
    }
    {
        let (left, right) = deferred.split_at(6);
        assert_eq!(*left.deref(&v), [1, 2, 3, 4, 5, 6]);
        assert_eq!(*right.deref(&v), []);
    }
    {
        // for slices in place of deferred slices, dereference first:
        let (left, right) = deferred.deref(&v).split_at(2);
        assert_eq!(left, [1, 2]);
        assert_eq!(right, [3, 4, 5, 6]);
    }
}

#[test]
fn doc_get_mut() {
    let mut place = [0, 1, 2];
    let mut x = Deferred::from(&mut place);
    if let Some(elem) = x.get_mut(&mut place, 1) {
        *elem = 42;
    }
    assert_eq!(x.deref(&place), &[0, 42, 2]);
    assert_eq!(None, x.get_mut(&mut place, 3));
    assert_eq!(None, x.get_mut(&mut place, 2..4));
    assert_eq!([0, 42, 2], place);
}

#[test]
fn doc_get_unchecked_mut() {
    let mut place = [1, 2, 4];
    let mut x = Deferred::from(&mut place);
    let elem = x.get_unchecked_mut(&mut place, 1);
    *elem = 13;
    assert_eq!(x.deref(&place), &[1, 13, 4]);
}

#[test]
fn doc_split_at_mut_unchecked() {
    let mut v = [1, 0, 3, 0, 5, 6];
    let mut deferred = Deferred::new_mut(&mut v);
    {
        let (mut left, mut right) = deferred.split_at_mut_unchecked(2);
        assert_eq!(*left.deref(&v), [1, 0]);
        assert_eq!(*right.deref(&v), [3, 0, 5, 6]);
        *left.index_mut(&mut v, 1) = 2;
        *right.index_mut(&mut v, 1) = 4;
    }
    assert_eq!(*deferred.deref(&v), [1, 2, 3, 4, 5, 6]);
}

#[test]
fn doc_split_at_mut() {
    let mut v = [1, 0, 3, 0, 5, 6];
    let mut deferred = Deferred::new_mut(&mut v);
    let (mut left, mut right) = deferred.split_at_mut(2);
    assert_eq!(*left.deref(&v), [1, 0]);
    assert_eq!(*right.deref(&v), [3, 0, 5, 6]);
    *left.index_mut(&mut v, 1) = 2;
    *right.index_mut(&mut v, 1) = 4;
    assert_eq!(*deferred.deref(&v), [1, 2, 3, 4, 5, 6]);
    let (left, right) = deferred.deref_mut(&mut v).split_at_mut(2);
    assert_eq!(*left, [1, 2]);
    assert_eq!(*right, [3, 4, 5, 6]);
}
