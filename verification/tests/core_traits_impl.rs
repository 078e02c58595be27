use deferred_reference::{Defer, DeferMut, Deferred};

#[test]
fn array() {
    let mut buffer = [0u8; 1024];
    let deferred = Deferred::from(&mut buffer);
    assert_eq!(1024, deferred.index(&buffer, ..).len());
    assert_eq!(23, deferred.index(&buffer, 1001..).len());
    assert_eq!(&0, deferred.index(&buffer, 0));
    assert_eq!(5, deferred.index(&buffer, 5..10).len());
    assert_eq!(10, deferred.index(&buffer, ..10).len());
    assert_eq!(11, deferred.index(&buffer, ..=10).len());
    assert_eq!(6, deferred.index(&buffer, 5..=10).len());
    assert_eq!(0, deferred.index(&buffer, 0..0).len());
    assert_eq!(1, deferred.index(&buffer, 0..1).len());
    // the canary is an exclusive reference to one element, had from a copy of the handle
    let canary = deferred.clone_unchecked().index_mut(&mut buffer, 1000);
    assert_eq!(&mut 0, canary);
}

#[test]
fn array_mut() {
    let mut buffer = [0u8; 1024];
    let mut deferred = Deferred::from(&mut buffer);
    assert_eq!(1024, deferred.index_mut(&mut buffer, ..).len());
    assert_eq!(23, deferred.index_mut(&mut buffer, 1001..).len());
    assert_eq!(&mut 0, deferred.index_mut(&mut buffer, 0));
    assert_eq!(5, deferred.index_mut(&mut buffer, 5..10).len());
    assert_eq!(10, deferred.index_mut(&mut buffer, ..10).len());
    assert_eq!(11, deferred.index_mut(&mut buffer, ..=10).len());
    assert_eq!(6, deferred.index_mut(&mut buffer, 5..=10).len());
    assert_eq!(0, deferred.index_mut(&mut buffer, 0..0).len());
    assert_eq!(1, deferred.index_mut(&mut buffer, 0..1).len());
    // the canary lives while another part of the place is borrowed exclusively too
    let mut copy = deferred.clone_unchecked();
    let (canary, rest) = copy.index_mut_pair(&mut deferred, &mut buffer, 1000, 1001..);
    assert_eq!(23, rest.len());
    assert_eq!(&mut 0, canary);
}

#[test]
fn slice() {
    let mut buffer = [0u8; 1024];
    let deferred = Deferred::from(&mut buffer[..]);
    let _x = deferred.index(&buffer, ..);
    assert_eq!(23, deferred.index(&buffer, 1001..).len());
    assert_eq!(&0, deferred.index(&buffer, 0));
    assert_eq!(5, deferred.index(&buffer, 5..10).len());
    assert_eq!(10, deferred.index(&buffer, ..10).len());
    assert_eq!(11, deferred.index(&buffer, ..=10).len());
    assert_eq!(6, deferred.index(&buffer, 5..=10).len());
    assert_eq!(0, deferred.index(&buffer, 0..0).len());
    assert_eq!(1, deferred.index(&buffer, 0..1).len());
    let canary = deferred.clone_unchecked().index_mut(&mut buffer, 1000);
    assert_eq!(&mut 0, canary);
}

#[test]
fn slice_mut() {
    let mut buffer = [0u8; 1024];
    let mut deferred = Deferred::from(&mut buffer[..]);
    let _x = deferred.index_mut(&mut buffer, ..);
    assert_eq!(23, deferred.index_mut(&mut buffer, 1001..).len());
    assert_eq!(&mut 0, deferred.index_mut(&mut buffer, 0));
    assert_eq!(5, deferred.index_mut(&mut buffer, 5..10).len());
    assert_eq!(10, deferred.index_mut(&mut buffer, ..10).len());
    assert_eq!(11, deferred.index_mut(&mut buffer, ..=10).len());
    assert_eq!(6, deferred.index_mut(&mut buffer, 5..=10).len());
    assert_eq!(0, deferred.index_mut(&mut buffer, 0..0).len());
    assert_eq!(1, deferred.index_mut(&mut buffer, 0..1).len());
    let mut copy = deferred.clone_unchecked();
    let (canary, rest) = copy.index_mut_pair(&mut deferred, &mut buffer, 1000, 1001..);
    assert_eq!(23, rest.len());
    assert_eq!(&mut 0, canary);
}

#[test]
fn from_ref() {
    let buffer = [0u8; 1024];
    let _deferred = Deferred::from(&buffer);
    let _deferred: Deferred<&[u8]> = Deferred::from(&buffer[..]);
}

#[test]
fn from_mut() {
    let mut buffer = [0u8; 1024];
    let _deferred = Deferred::from(&mut buffer);
    let _deferred: Deferred<&mut [u8]> = Deferred::from(&mut buffer[..]);
}

#[test]
fn ref_array_to_slice() {
    let buffer = [0u8; 1024];
    let deferred = buffer.defer();
    let _deferred_slice: Deferred<&[u8]> = deferred.into();
    let _deferred_slice: Deferred<&[u8]> = Deferred::from(deferred);
}

#[test]
fn mut_array_to_slice() {
    let buffer = [0u8; 1024];
    let deferred = buffer.defer_mut();
    let _deferred_slice: Deferred<&mut [u8]> = deferred.into();
    let deferred = buffer.defer_mut();
    let _deferred_slice: Deferred<&mut [u8]> = Deferred::from(deferred);
}

#[test]
fn mut_array_to_ref_slice() {
    let buffer = [0u8; 1024];
    let deferred = buffer.defer_mut();
    let _deferred_slice: Deferred<&[u8]> = deferred.into();
    let deferred = buffer.defer_mut();
    let _deferred_slice: Deferred<&[u8]> = Deferred::from(deferred);
}

#[test]
fn mut_to_ref() {
    let buffer = [0u8; 1024];
    let deferred = buffer.defer_mut();
    let _deferred_slice: Deferred<&[u8; 1024]> = deferred.into();
    let deferred = buffer.defer_mut();
    let _deferred_slice: Deferred<&[u8; 1024]> = Deferred::from(deferred);
    let mut buffer = 1u32;
    let deferred: Deferred<&mut u32> = Deferred::from(&mut buffer);
    let _deferred_u32: Deferred<&u32> = deferred.into();
    let deferred: Deferred<&mut u32> = Deferred::from(&mut buffer);
    let _deferred_u32: Deferred<&u32> = Deferred::from(deferred);
}
