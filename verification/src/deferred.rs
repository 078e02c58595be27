//! The handle.

use crate::pointer::{ConstPtr, MutPtr};
use crate::reference::Reference;
use crate::place::Place;
use vstd::prelude::*;

verus! {

/// A deferred reference: it has the flavor of `&T` or of `&mut T`, and holds
/// the address of the target in place of the reference.
///
/// Handles to the same target, or to targets that overlap, may exist side by
/// side, exclusive ones too. What the borrow rules forbid is two references
/// that overlap, and a handle is none. It turns into one when it is
/// dereferenced, which takes the place the address is in; the place is then
/// borrowed for as long as the reference lives, shared or exclusively as the
/// reference is, and the borrow checker sees to it that no two such borrows
/// are at odds.
///
/// A handle owns nothing and keeps nothing alive. It is valid for a place if
/// its target lies in the place; the functions that dereference ask for that.
pub struct Deferred<T> where T: Reference {
    /// The address of the target.
    ptr: MutPtr<T::Target>,
}

impl<T> View for Deferred<T> where T: Reference {
    type V = ConstPtr<T::Target>;

    /// The address that the handle holds.
    closed spec fn view(&self) -> ConstPtr<T::Target> {
        self.ptr.cast_const()
    }
}

impl<T> Deferred<T> where T: Reference {
    /// The handle that holds `ptr`.
    pub closed spec fn spec_from_raw(ptr: ConstPtr<T::Target>) -> Self {
        Deferred { ptr: ptr.cast_mut() }
    }

    /// A handle is what its address makes it: the handle that holds `ptr`
    /// holds `ptr`, and there is no other that does.
    pub proof fn lemma_spec_from_raw(self, ptr: ConstPtr<T::Target>)
        ensures
            Self::spec_from_raw(ptr)@ == ptr,
            Self::spec_from_raw(self@) == self,
    {
    }
}

/// # Constructors for deferred shared references
impl<'a, T: ?Sized> Deferred<&'a T> {
    /// Constructs a deferred shared reference to the target at `ptr`.
    ///
    /// Nothing is asked of `ptr` here. The handle is as good as the address:
    /// it can be dereferenced in the places in which the target at `ptr` lies.
    pub fn from_raw(ptr: ConstPtr<T>) -> (r: Self)
        ensures
            r == Self::spec_from_raw(ptr),
            r@ == ptr,
    {
        Deferred { ptr: ptr.cast_mut() }
    }
}

impl<'a, T: Place + ?Sized> Deferred<&'a T> {
    /// Constructs a deferred shared reference from a reference: the handle is
    /// valid for the place that `reference` points to, and covers all of it.
    /// The reference itself is given back at once.
    pub fn new(reference: &T) -> (r: Self)
        ensures
            r == Self::spec_from_raw(T::spec_addr_of(reference)),
            r@ == T::spec_addr_of(reference),
            r@.addr == 0,
    {
        Self::from_raw(T::addr_of(reference))
    }
}

/// # Constructors for deferred exclusive references
impl<'a, T: ?Sized> Deferred<&'a mut T> {
    /// Constructs a deferred exclusive reference to the target at `ptr`.
    ///
    /// Nothing is asked of `ptr` here. The handle is as good as the address:
    /// it can be dereferenced in the places in which the target at `ptr` lies.
    pub fn from_raw_mut(ptr: MutPtr<T>) -> (r: Self)
        ensures
            r == Self::spec_from_raw(ptr.cast_const()),
            r@ == ptr.cast_const(),
    {
        Deferred { ptr }
    }
}

impl<'a, T: Place + ?Sized> Deferred<&'a mut T> {
    /// Constructs a deferred exclusive reference from a reference: the handle
    /// is valid for the place that `reference` points to, and covers all of
    /// it. The reference itself is given back at once, and what it points to
    /// is as it was.
    pub fn new_mut(reference: &mut T) -> (r: Self)
        ensures
            r == Self::spec_from_raw(T::spec_addr_of(&*old(reference))),
            r@ == T::spec_addr_of(&*old(reference)),
            r@.addr == 0,
            &*final(reference) == &*old(reference),
    {
        Self::from_raw_mut(T::addr_of(&*reference).cast_mut())
    }
}

/// # Methods available on all deferred references
impl<T> Deferred<T> where T: Reference {
    /// Obtains the address that the handle holds, without leave to write.
    pub fn as_ptr(&self) -> (ptr: ConstPtr<T::Target>)
        ensures
            ptr == self@,
    {
        self.ptr.cast_const()
    }
}

/// # Methods available for all deferred exclusive references
impl<'a, T: ?Sized> Deferred<&'a mut T> {
    /// Obtains the address that the handle holds, with leave to write.
    pub fn as_mut_ptr(&self) -> (ptr: MutPtr<T>)
        ensures
            ptr == self@.cast_mut(),
    {
        self.ptr
    }

    /// Makes a copy of this deferred exclusive reference, to the same target.
    ///
    /// The two handles are of equal standing. To write through both, present
    /// the place to each in turn, or split it between them.
    pub fn clone_unchecked(&self) -> (r: Self)
        ensures
            r@ == self@,
    {
        Deferred::from_raw_mut(self.as_mut_ptr())
    }

    /// Converts this deferred exclusive reference into a deferred shared
    /// reference to the same target.
    pub fn into_ref(self) -> (r: Deferred<&'a T>)
        ensures
            r@ == self@,
    {
        Deferred::from_raw(self.as_ptr())
    }
}

/// # Methods available for deferred references to arrays
impl<'a, E, const N: usize> Deferred<&'a [E; N]> {
    /// Unsizes the deferred reference: the handle to the same target, taken
    /// as the slice of its `N` elements.
    pub fn unsize(self) -> (r: Deferred<&'a [E]>)
        ensures
            r@ == self@.unsize(),
    {
        Deferred::from_raw(self.as_ptr().unsize())
    }
}

impl<'a, E, const N: usize> Deferred<&'a mut [E; N]> {
    /// Unsizes the deferred reference: the exclusive handle to the same
    /// target, taken as the slice of its `N` elements.
    pub fn unsize(self) -> (r: Deferred<&'a mut [E]>)
        ensures
            r@ == self@.unsize(),
    {
        Deferred::from_raw_mut(self.as_mut_ptr().unsize())
    }
}

} // verus!
