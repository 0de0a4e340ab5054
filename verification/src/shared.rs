//! Trusted declarations for the reference-counted vector of `shared_vector`.
use vstd::prelude::*;

use allocator_api2::alloc::Global;
use shared_vector::{AtomicSharedVector, Vector};

use crate::rvals::SteelVal;

verus! {

#[verifier::external_type_specification]
pub struct ExGlobal(Global);

/// An atomically reference-counted, copy-on-write buffer of values
/// (`shared_vector::AtomicSharedVector` in the global allocator).
#[verifier::external_body]
pub struct SharedBuffer {
    buf: AtomicSharedVector<SteelVal, Global>,
}

/// A uniquely owned buffer of values (`shared_vector::Vector` in the global allocator).
#[verifier::external_body]
pub struct UniqueBuffer {
    buf: Vector<SteelVal, Global>,
}

/// The elements that a uniquely owned buffer of values holds, in order.
pub uninterp spec fn unique_contents(v: UniqueBuffer) -> Seq<SteelVal>;

/// The elements that an atomically shared buffer of values holds, in order.
pub uninterp spec fn shared_contents(v: SharedBuffer) -> Seq<SteelVal>;

/// The allocator that an atomically shared buffer of values lives in.
pub uninterp spec fn shared_allocator_of(v: SharedBuffer) -> Global;

/// The allocator that a uniquely owned buffer of values lives in.
pub uninterp spec fn unique_allocator_of(v: UniqueBuffer) -> Global;

/// `RefCountedVector::len`: the number of elements.
#[verifier::external_body]
pub(crate) fn shared_len(v: &SharedBuffer) -> (n: usize)
    ensures
        n == shared_contents(*v).len(),
{
    v.buf.len()
}

/// `RefCountedVector::with_capacity_in`: a new, empty buffer in `alloc`.
///
/// Its allocation fails (and it panics) past `u32::MAX` elements, which `requires` leaves out;
/// running out of memory is not ruled out.
#[verifier::external_body]
pub(crate) fn shared_with_capacity_in(cap: usize, alloc: Global) -> (v: SharedBuffer)
    requires
        cap <= u32::MAX,
    ensures
        shared_contents(v) == Seq::<SteelVal>::empty(),
        shared_allocator_of(v) == alloc,
{
    SharedBuffer { buf: AtomicSharedVector::with_capacity_in(cap, alloc) }
}

/// `RefCountedVector::as_slice`: the elements, in order.
#[verifier::external_body]
pub(crate) fn shared_as_slice(v: &SharedBuffer) -> (s: &[SteelVal])
    ensures
        s@ == shared_contents(*v),
{
    v.buf.as_slice()
}

/// `RefCountedVector::as_mut_slice`: the elements, writable in place; the buffer is
/// copied first (in the same allocator) when it is shared, so the writes reach this
/// handle only.
#[verifier::external_body]
pub(crate) fn shared_as_mut_slice(v: &mut SharedBuffer) -> (s: &mut [SteelVal])
    ensures
        s@ == shared_contents(*old(v)),
        shared_contents(*final(v)) == final(s)@,
        shared_allocator_of(*final(v)) == shared_allocator_of(*old(v)),
{
    v.buf.as_mut_slice()
}

/// `RefCountedVector::push`: appends `val` at the end; a grown buffer is allocated in the
/// same allocator.
///
/// It panics when the length would pass `u32::MAX`, which `requires` leaves out; running
/// out of memory is not ruled out.
#[verifier::external_body]
pub(crate) fn shared_push(v: &mut SharedBuffer, val: SteelVal)
    requires
        shared_contents(*old(v)).len() < u32::MAX,
    ensures
        shared_contents(*final(v)) == shared_contents(*old(v)).push(val),
        shared_allocator_of(*final(v)) == shared_allocator_of(*old(v)),
{
    v.buf.push(val)
}

/// `Clone::clone` of `RefCountedVector`: a new handle on the same buffer (and so in the
/// same allocator).
#[verifier::external_body]
pub(crate) fn shared_clone(v: &SharedBuffer) -> (r: SharedBuffer)
    ensures
        shared_contents(r) == shared_contents(*v),
        shared_allocator_of(r) == shared_allocator_of(*v),
{
    SharedBuffer { buf: v.buf.clone() }
}

/// `RefCountedVector::allocator`: the allocator that the buffer lives in.
#[verifier::external_body]
pub(crate) fn shared_allocator(v: &SharedBuffer) -> (a: Global)
    ensures
        a == shared_allocator_of(*v),
{
    *v.buf.allocator()
}

/// `RefCountedVector::into_unique`: a uniquely owned buffer with the same elements
/// in the same allocator (copied when the buffer is shared).
#[verifier::external_body]
pub(crate) fn shared_into_unique(v: SharedBuffer) -> (u: UniqueBuffer)
    ensures
        unique_contents(u) == shared_contents(v),
        unique_allocator_of(u) == shared_allocator_of(v),
{
    UniqueBuffer { buf: v.buf.into_unique() }
}

/// `Vector::into_shared_atomic`: an atomically shared buffer with the same elements, in
/// the same allocator.
#[verifier::external_body]
pub(crate) fn unique_into_shared_atomic(u: UniqueBuffer) -> (v: SharedBuffer)
    ensures
        shared_contents(v) == unique_contents(u),
        shared_allocator_of(v) == unique_allocator_of(u),
{
    SharedBuffer { buf: u.buf.into_shared_atomic() }
}

} // verus!
