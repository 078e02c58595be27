//! Copying, dereferencing, indexing and converting handles.

use crate::deferred::Deferred;
use crate::laws::lemma_selected_in_place;
use crate::place::Place;
use crate::pointee::Pointee;
use crate::reference::Reference;
use crate::slice_like::SliceLike;
use crate::slice_pointer_index::SlicePointerIndex;
use vstd::prelude::*;
use vstd::std_specs::convert::FromSpecImpl;

verus! {

/// If a reference may be copied, then so may the handle of its flavor: a
/// shared handle is `Copy`, an exclusive one is not.
impl<T: Copy + Reference> Copy for Deferred<T> {

}

impl<T: Clone + Copy + Reference> Clone for Deferred<T> {
    fn clone(&self) -> (r: Self)
        ensures
            r == *self,
    {
        *self
    }
}

/// # Dereferencing a handle to a sized target
///
/// The target is one element of a place of such targets.
impl<T> Deferred<T> where T: Reference, T::Target: Sized {
    /// Dereferences the handle in `place`: a shared reference to the target.
    pub fn deref_element<'p>(&self, place: &'p [T::Target]) -> (r: &'p T::Target)
        requires
            self@.addr < place@.len(),
        ensures
            *r == place@[self@.addr as int],
    {
        let r = <T::Target as Pointee<T::Target>>::deref(self.as_ptr(), place);
        proof {
            assert(seq![*r][0] == place@.subrange(self@.addr as int, self@.addr + 1)[0]);
        }
        r
    }
}

impl<T> Deferred<&mut T> {
    /// Dereferences the handle in `place`: an exclusive reference to the
    /// target. When it is given up, the place holds at the target what the
    /// reference then held, and is otherwise as it was.
    pub fn deref_element_mut<'p>(&mut self, place: &'p mut [T]) -> (r: &'p mut T)
        requires
            old(self)@.addr < old(place)@.len(),
        ensures
            *final(self) == *old(self),
            *r == old(place)@[old(self)@.addr as int],
            final(place)@ == old(place)@.update(old(self)@.addr as int, *final(r)),
    {
        let ghost before = place@;
        let r = <T as Pointee<T>>::deref_mut(self.as_mut_ptr(), place);
        proof {
            let at = self@.addr as int;
            assert(seq![*r][0] == before.subrange(at, at + 1)[0]);
            assert(before.subrange(0, at) + seq![*final(r)] + before.subrange(
                at + 1,
                before.len() as int,
            ) =~= before.update(at, *final(r)));
        }
        r
    }
}

/// # Dereferencing and indexing
///
/// A handle is dereferenced in a place. The reference that comes out borrows
/// the place and is to the target, or to the part of it that an index selects.
impl<T> Deferred<T> where T: Reference, T::Target: SliceLike {
    /// Dereferences the handle in `place`: a shared reference to the target.
    pub fn deref<'p>(&self, place: &'p [<T::Target as SliceLike>::Element]) -> (r: &'p [<
        T::Target as SliceLike
    >::Element])
        requires
            self.lies_in(place@),
        ensures
            r@ == self.target(place@),
    {
        let r = self.get_unchecked(place, 0..self.len());
        proof {
            assert(self.target(place@).subrange(0, self.spec_len() as int) =~= self.target(place@));
        }
        r
    }

    /// Returns a shared reference to the element or sub-slice of the target
    /// in `place` that `index` selects. The index is one that `index_failure`
    /// has nothing against.
    pub fn index<'p, I>(&self, place: &'p [<T::Target as SliceLike>::Element], index: I) -> (out:
        &'p I::Output) where I: SlicePointerIndex<T::Target>
        requires
            self.lies_in(place@),
            index.spec_index_failure(self.spec_len()) is None,
        ensures
            <I::Output as Pointee<<T::Target as SliceLike>::Element>>::elements(out)
                == self.selected(place@, index),
    {
        proof {
            vstd::slice::axiom_spec_len(place);
            lemma_selected_in_place(*self, place@, index);
        }
        <I::Output as Pointee<<T::Target as SliceLike>::Element>>::deref(
            index.index(self.as_ptr()),
            place,
        )
    }
}

impl<T> Deferred<&mut T> where T: SliceLike + ?Sized {
    /// Dereferences the handle in `place`: an exclusive reference to the
    /// target. When it is given up, the place holds what the reference then
    /// held, between what lay before the target and what lay after it.
    pub fn deref_mut<'p>(&mut self, place: &'p mut [T::Element]) -> (r: &'p mut [T::Element])
        requires
            old(self).lies_in(old(place)@),
        ensures
            *final(self) == *old(self),
            r@ == old(self).target(old(place)@),
            final(place)@ == old(self).with_target(old(place)@, final(r)@),
    {
        let n = self.len();
        self.get_unchecked_mut(place, 0..n)
    }

    /// Returns an exclusive reference to the element or sub-slice of the
    /// target in `place` that `index` selects. The index is one that
    /// `index_failure` has nothing against. When the reference is given up,
    /// the place holds what the reference then held, and is otherwise as it
    /// was.
    pub fn index_mut<'p, I>(&mut self, place: &'p mut [T::Element], index: I) -> (out:
        &'p mut I::Output) where I: SlicePointerIndex<T>
        requires
            old(self).lies_in(old(place)@),
            index.spec_index_failure(old(self).spec_len()) is None,
        ensures
            *final(self) == *old(self),
            <I::Output as Pointee<T::Element>>::elements(&*out) == old(self).selected(
                old(place)@,
                index,
            ),
            final(place)@ == old(self).with_selected(
                old(place)@,
                index,
                <I::Output as Pointee<T::Element>>::elements(&*final(out)),
            ),
    {
        proof {
            vstd::slice::axiom_spec_len(place);
            lemma_selected_in_place(*self, place@, index);
        }
        <I::Output as Pointee<T::Element>>::deref_mut(index.index_mut(self.as_mut_ptr()), place)
    }
}

/// A handle from a reference: it is valid for the place that the reference
/// points to, and covers all of it. The reference is given back at once.
impl<'a, 'b, T: Place + ?Sized> From<&'b T> for Deferred<&'a T> {
    fn from(reference: &'b T) -> (r: Self)
        ensures
            r@ == T::spec_addr_of(reference),
    {
        Deferred::new(reference)
    }
}

impl<'a, 'b, T: Place + ?Sized> FromSpecImpl<&'b T> for Deferred<&'a T> {
    open spec fn obeys_from_spec() -> bool {
        true
    }

    open spec fn from_spec(reference: &'b T) -> Self {
        Self::spec_from_raw(T::spec_addr_of(reference))
    }
}

/// An exclusive handle from an exclusive reference: it is valid for the place
/// that the reference points to, and covers all of it. The reference is given
/// back at once, and what it points to is as it was.
impl<'a, 'b, T: Place + ?Sized> From<&'b mut T> for Deferred<&'a mut T> {
    fn from(reference: &'b mut T) -> (r: Self)
        ensures
            r@ == T::spec_addr_of(&*old(reference)),
            &*final(reference) == &*old(reference),
    {
        Deferred::new_mut(reference)
    }
}

impl<'a, 'b, T: Place + ?Sized> FromSpecImpl<&'b mut T> for Deferred<&'a mut T> {
    open spec fn obeys_from_spec() -> bool {
        true
    }

    open spec fn from_spec(reference: &'b mut T) -> Self {
        Self::spec_from_raw(T::spec_addr_of(&*reference))
    }
}

/// Downgrading: an exclusive handle becomes a shared handle to the same
/// target.
impl<'a, T: ?Sized> From<Deferred<&'a mut T>> for Deferred<&'a T> {
    fn from(deferred: Deferred<&'a mut T>) -> (r: Self)
        ensures
            r@ == deferred@,
    {
        Deferred::from_raw(deferred.as_ptr())
    }
}

impl<'a, T: ?Sized> FromSpecImpl<Deferred<&'a mut T>> for Deferred<&'a T> {
    open spec fn obeys_from_spec() -> bool {
        true
    }

    open spec fn from_spec(deferred: Deferred<&'a mut T>) -> Self {
        Self::spec_from_raw(deferred@)
    }
}

/// Widening: a handle to an array becomes a handle to the slice of its `N`
/// elements.
impl<'a, E, const N: usize> From<Deferred<&'a [E; N]>> for Deferred<&'a [E]> {
    fn from(deferred: Deferred<&'a [E; N]>) -> (r: Self)
        ensures
            r@ == deferred@.unsize(),
    {
        Deferred::from_raw(deferred.as_ptr().unsize())
    }
}

impl<'a, E, const N: usize> FromSpecImpl<Deferred<&'a [E; N]>> for Deferred<&'a [E]> {
    open spec fn obeys_from_spec() -> bool {
        true
    }

    open spec fn from_spec(deferred: Deferred<&'a [E; N]>) -> Self {
        Self::spec_from_raw(deferred@.spec_unsize())
    }
}

/// Widening: an exclusive handle to an array becomes an exclusive handle to
/// the slice of its `N` elements.
impl<'a, E, const N: usize> From<Deferred<&'a mut [E; N]>> for Deferred<&'a mut [E]> {
    fn from(deferred: Deferred<&'a mut [E; N]>) -> (r: Self)
        ensures
            r@ == deferred@.unsize(),
    {
        Deferred::from_raw_mut(deferred.as_mut_ptr().unsize())
    }
}

impl<'a, E, const N: usize> FromSpecImpl<Deferred<&'a mut [E; N]>> for Deferred<&'a mut [E]> {
    open spec fn obeys_from_spec() -> bool {
        true
    }

    open spec fn from_spec(deferred: Deferred<&'a mut [E; N]>) -> Self {
        Self::spec_from_raw(deferred@.spec_unsize())
    }
}

/// Widening and downgrading at once: an exclusive handle to an array becomes
/// a shared handle to the slice of its `N` elements.
impl<'a, E, const N: usize> From<Deferred<&'a mut [E; N]>> for Deferred<&'a [E]> {
    fn from(deferred: Deferred<&'a mut [E; N]>) -> (r: Self)
        ensures
            r@ == deferred@.unsize(),
    {
        Deferred::from_raw(deferred.as_ptr().unsize())
    }
}

impl<'a, E, const N: usize> FromSpecImpl<Deferred<&'a mut [E; N]>> for Deferred<&'a [E]> {
    open spec fn obeys_from_spec() -> bool {
        true
    }

    open spec fn from_spec(deferred: Deferred<&'a mut [E; N]>) -> Self {
        Self::spec_from_raw(deferred@.spec_unsize())
    }
}

} // verus!
