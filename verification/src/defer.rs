//! Handing out deferred shared references.

use crate::deferred::Deferred;
use crate::pointer::ConstPtr;
use crate::reference::Reference;
use crate::place::Place;
use vstd::prelude::*;

verus! {

/// Implemented by what can hand out a deferred shared reference to a target:
/// a place, to itself; a handle, to its own target.
///
/// The handle that comes out does not borrow `self`. A place stays free to be
/// presented, shared or exclusively, while handles to it are kept.
pub trait Defer {
    /// The type that the deferred reference points to.
    type Target: ?Sized;

    /// The address of the target that `defer` hands out a handle to.
    spec fn deferred(&self) -> ConstPtr<Self::Target>;

    /// Obtains a deferred shared reference to the target.
    fn defer<'a>(&self) -> (r: Deferred<&'a Self::Target>) where Self::Target: 'a
        ensures
            r@ == self.deferred(),
    ;
}

/// A slice is a place: the handle is to all of it.
impl<E> Defer for [E] {
    type Target = [E];

    open spec fn deferred(&self) -> ConstPtr<[E]> {
        self.spec_addr_of()
    }

    fn defer<'a>(&self) -> (r: Deferred<&'a [E]>) where [E]: 'a {
        Deferred::from_raw(self.addr_of())
    }
}

/// An array is a place: the handle is to all of it.
impl<E, const N: usize> Defer for [E; N] {
    type Target = [E; N];

    open spec fn deferred(&self) -> ConstPtr<[E; N]> {
        self.spec_addr_of()
    }

    fn defer<'a>(&self) -> (r: Deferred<&'a [E; N]>) where [E; N]: 'a {
        Deferred::from_raw(self.addr_of())
    }
}

/// A handle of either flavor hands out shared handles to its own target.
impl<T> Defer for Deferred<T> where T: Reference {
    type Target = T::Target;

    open spec fn deferred(&self) -> ConstPtr<T::Target> {
        self@
    }

    fn defer<'a>(&self) -> (r: Deferred<&'a T::Target>) where T::Target: 'a {
        Deferred::from_raw(self.as_ptr())
    }
}

} // verus!
