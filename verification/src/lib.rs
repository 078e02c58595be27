//! Deferred references: handles that name a region of a place without
//! borrowing it.
//!
//! A [`Deferred`] holds an address, never a reference. Any number of handles,
//! shared or exclusive, may name the same or overlapping regions at once. A
//! reference comes into being only when a handle is dereferenced, and for that
//! the place itself is presented: the borrow of the place is then exactly as
//! long as the reference that came out of it. Two exclusive handles over
//! disjoint regions can therefore take turns, or split the place between them,
//! and nothing outside the region a write went to is changed.
//!
//! Everything here is address arithmetic on plain values. The rules of index
//! shapes (a position, `a..b`, `a..`, `..b`, `a..=b`, `..=b`, `..`) are those of
//! slice indexing, computed from an address and a length alone.

pub mod core_traits_impl;
pub mod defer;
pub mod defer_mut;
pub mod deferred;
pub mod failure;
pub mod laws;
pub mod place;
pub mod pointee;
pub mod pointer;
pub mod pointer_length;
pub mod ranges;
pub mod reference;
mod sealed;
pub mod slice_like;
pub mod slice_like_impl;
pub mod slice_pointer_index;

pub use defer::Defer;
pub use defer_mut::DeferMut;
pub use deferred::Deferred;
pub use failure::{
    slice_end_index_len_fail, slice_end_index_overflow_fail, slice_index_order_fail,
    slice_index_overflow_fail, slice_start_index_len_fail, SliceIndexFailure,
};
pub use place::Place;
pub use pointee::Pointee;
pub use pointer::{slice_from_raw_parts, slice_from_raw_parts_mut, ConstPtr, MutPtr};
pub use pointer_length::PointerLength;
pub use reference::Reference;
pub use slice_like::SliceLike;
pub use slice_pointer_index::{into_slice_range, SlicePointerIndex};
