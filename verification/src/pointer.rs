//! Addresses as plain values.
//!
//! A place is a run of elements that its owner keeps. An address names a
//! position in it by the number of elements that lie before that position.
//! An address of a slice also carries the number of elements the slice spans,
//! as a fat pointer does; an address of a sized target carries nothing more.
//! Addresses borrow nothing and are never read through: they are computed
//! with, compared and stored.

use core::marker::PhantomData;
use vstd::prelude::*;

verus! {

/// A read-only address of a `T`.
pub struct ConstPtr<T: ?Sized> {
    /// The number of elements of the place that lie before the target.
    pub addr: usize,
    /// For a slice target, the number of elements it spans; for a sized
    /// target, nothing.
    pub metadata: Option<usize>,
    /// Ties the address to the type of its target.
    pub target: PhantomData<T>,
}

/// An address of a `T` that may be written through.
pub struct MutPtr<T: ?Sized> {
    /// The number of elements of the place that lie before the target.
    pub addr: usize,
    /// For a slice target, the number of elements it spans; for a sized
    /// target, nothing.
    pub metadata: Option<usize>,
    /// Ties the address to the type of its target.
    pub target: PhantomData<T>,
}

impl<T: ?Sized> Clone for ConstPtr<T> {
    fn clone(&self) -> (r: Self)
        ensures
            r == *self,
    {
        *self
    }
}

impl<T: ?Sized> Copy for ConstPtr<T> {

}

impl<T: ?Sized> Clone for MutPtr<T> {
    fn clone(&self) -> (r: Self)
        ensures
            r == *self,
    {
        *self
    }
}

impl<T: ?Sized> Copy for MutPtr<T> {

}

impl<T: ?Sized> ConstPtr<T> {
    /// The same address with leave to write, for use in contracts.
    pub open spec fn spec_cast_mut(self) -> MutPtr<T> {
        MutPtr { addr: self.addr, metadata: self.metadata, target: PhantomData }
    }

    /// The same address with leave to write.
    #[verifier::when_used_as_spec(spec_cast_mut)]
    pub fn cast_mut(self) -> (r: MutPtr<T>)
        ensures
            r == self.spec_cast_mut(),
    {
        MutPtr { addr: self.addr, metadata: self.metadata, target: PhantomData }
    }

    /// The address of the same kind of target at the position `addr`.
    pub fn with_addr(self, addr: usize) -> (r: Self)
        ensures
            r.addr == addr,
            r.metadata == self.metadata,
    {
        ConstPtr { addr, metadata: self.metadata, target: PhantomData }
    }

    /// The address of the first element of the target, whatever the target is:
    /// the position is kept and the length, if there was one, is dropped.
    pub fn cast<U>(self) -> (r: ConstPtr<U>)
        ensures
            r.addr == self.addr,
            r.metadata is None,
    {
        ConstPtr { addr: self.addr, metadata: None, target: PhantomData }
    }
}

impl<T: ?Sized> MutPtr<T> {
    /// The same address without leave to write, for use in contracts.
    pub open spec fn spec_cast_const(self) -> ConstPtr<T> {
        ConstPtr { addr: self.addr, metadata: self.metadata, target: PhantomData }
    }

    /// The same address without leave to write.
    #[verifier::when_used_as_spec(spec_cast_const)]
    pub fn cast_const(self) -> (r: ConstPtr<T>)
        ensures
            r == self.spec_cast_const(),
    {
        ConstPtr { addr: self.addr, metadata: self.metadata, target: PhantomData }
    }

    /// The address of the same kind of target at the position `addr`.
    pub fn with_addr(self, addr: usize) -> (r: Self)
        ensures
            r.addr == addr,
            r.metadata == self.metadata,
    {
        MutPtr { addr, metadata: self.metadata, target: PhantomData }
    }

    /// The address of the first element of the target, whatever the target is:
    /// the position is kept and the length, if there was one, is dropped.
    pub fn cast<U>(self) -> (r: MutPtr<U>)
        ensures
            r.addr == self.addr,
            r.metadata is None,
    {
        MutPtr { addr: self.addr, metadata: None, target: PhantomData }
    }
}

impl<T> ConstPtr<T> {
    /// The address of the element at position `addr` of a place.
    pub fn new(addr: usize) -> (r: Self)
        ensures
            r.addr == addr,
            r.metadata is None,
    {
        ConstPtr { addr, metadata: None, target: PhantomData }
    }

    /// The address `count` elements further on.
    pub fn add(self, count: usize) -> (r: Self)
        requires
            self.addr + count <= usize::MAX,
        ensures
            r.addr == self.addr + count,
            r.metadata == self.metadata,
    {
        ConstPtr { addr: self.addr + count, metadata: self.metadata, target: PhantomData }
    }
}

impl<T> MutPtr<T> {
    /// The address of the element at position `addr` of a place.
    pub fn new(addr: usize) -> (r: Self)
        ensures
            r.addr == addr,
            r.metadata is None,
    {
        MutPtr { addr, metadata: None, target: PhantomData }
    }

    /// The address `count` elements further on.
    pub fn add(self, count: usize) -> (r: Self)
        requires
            self.addr + count <= usize::MAX,
        ensures
            r.addr == self.addr + count,
            r.metadata == self.metadata,
    {
        MutPtr { addr: self.addr + count, metadata: self.metadata, target: PhantomData }
    }
}

/// The length that `metadata` stands for: the number it holds, and zero where
/// it holds none.
pub open spec fn metadata_len(metadata: Option<usize>) -> usize {
    match metadata {
        Some(len) => len,
        None => 0,
    }
}

impl<E> ConstPtr<[E]> {
    /// The number of elements the slice spans, read from the address itself.
    pub fn len(self) -> (n: usize)
        ensures
            n == metadata_len(self.metadata),
    {
        match self.metadata {
            Some(len) => len,
            None => 0,
        }
    }
}

impl<E> MutPtr<[E]> {
    /// The number of elements the slice spans, read from the address itself.
    pub fn len(self) -> (n: usize)
        ensures
            n == metadata_len(self.metadata),
    {
        match self.metadata {
            Some(len) => len,
            None => 0,
        }
    }
}

impl<E, const N: usize> ConstPtr<[E; N]> {
    /// The address of the array as a slice of its `N` elements, for use in
    /// contracts.
    pub open spec fn spec_unsize(self) -> ConstPtr<[E]> {
        ConstPtr { addr: self.addr, metadata: Some(N), target: PhantomData }
    }

    /// The address of the array as a slice of its `N` elements.
    #[verifier::when_used_as_spec(spec_unsize)]
    pub fn unsize(self) -> (r: ConstPtr<[E]>)
        ensures
            r == self.spec_unsize(),
    {
        ConstPtr { addr: self.addr, metadata: Some(N), target: PhantomData }
    }
}

impl<E, const N: usize> MutPtr<[E; N]> {
    /// The address of the array as a slice of its `N` elements, for use in
    /// contracts.
    pub open spec fn spec_unsize(self) -> MutPtr<[E]> {
        MutPtr { addr: self.addr, metadata: Some(N), target: PhantomData }
    }

    /// The address of the array as a slice of its `N` elements.
    #[verifier::when_used_as_spec(spec_unsize)]
    pub fn unsize(self) -> (r: MutPtr<[E]>)
        ensures
            r == self.spec_unsize(),
    {
        MutPtr { addr: self.addr, metadata: Some(N), target: PhantomData }
    }
}

/// The address of the slice of `len` elements that starts at `data`.
pub fn slice_from_raw_parts<E>(data: ConstPtr<E>, len: usize) -> (r: ConstPtr<[E]>)
    ensures
        r.addr == data.addr,
        r.metadata == Some(len),
{
    ConstPtr { addr: data.addr, metadata: Some(len), target: PhantomData }
}

/// The address, with leave to write, of the slice of `len` elements that
/// starts at `data`.
pub fn slice_from_raw_parts_mut<E>(data: MutPtr<E>, len: usize) -> (r: MutPtr<[E]>)
    ensures
        r.addr == data.addr,
        r.metadata == Some(len),
{
    MutPtr { addr: data.addr, metadata: Some(len), target: PhantomData }
}

} // verus!
