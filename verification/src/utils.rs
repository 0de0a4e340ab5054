//! Collecting iterators into collections that live in a given allocator.
use vstd::prelude::*;

verus! {

/// Building a collection from the items of an iterator, inside a given allocator.
///
/// Collections that live in an allocator of their choice implement this trait themselves;
/// no type of this crate implements it.
pub trait FromIteratorIn<T>: Sized {
    /// The allocator the collection lives in.
    type Alloc;

    /// The collection of the items that `iter` yields, in order, in `alloc`.
    fn from_iter_in<I>(iter: I, alloc: Self::Alloc) -> Self where I: IntoIterator<Item = T>;
}

/// `collect`, with the allocator of the resulting collection given.
pub trait CollectIn: Iterator + Sized {
    /// Builds a `C` in `alloc` from the items of this iterator: the result is one that
    /// `C::from_iter_in` gives for this iterator and `alloc`.
    fn collect_in<C: FromIteratorIn<Self::Item>>(self, alloc: C::Alloc) -> (r: C)
        ensures
            call_ensures(C::from_iter_in::<Self>, (self, alloc), r),
    {
        C::from_iter_in(self, alloc)
    }
}

impl<I: Iterator> CollectIn for I {
}

} // verus!
