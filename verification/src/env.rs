//! The global environment: the table of top-level bindings, indexed by slot.
use vstd::prelude::*;

use allocator_api2::alloc::Global;

use crate::rvals::{SteelErr, SteelVal};
use crate::shared::{
    shared_allocator, shared_allocator_of, shared_as_mut_slice, shared_as_slice, shared_clone, shared_contents,
    shared_into_unique, shared_len, shared_push, shared_with_capacity_in, unique_into_shared_atomic,
    SharedBuffer,
};

verus! {

/// The slots of `s` after slot `idx` is defined as `val`.
///
/// A slot that exists is overwritten. Past the end, the slots between the end and `idx`
/// are filled with `Void` and `val` becomes the last slot.
pub open spec fn defined(s: Seq<SteelVal>, idx: int, val: SteelVal) -> Seq<SteelVal> {
    if idx < s.len() {
        s.update(idx, val)
    } else {
        s + Seq::new((idx - s.len()) as nat, |i: int| SteelVal::Void) + seq![val]
    }
}

/// Whether defining slot `idx` in `s` completes without running past the buffer's limit
/// of `u32::MAX` slots.
pub open spec fn definable(s: Seq<SteelVal>, idx: int) -> bool {
    idx < s.len() || idx < u32::MAX
}

/// The value a lookup of slot `idx` in `s` gives, if the slot exists.
pub open spec fn lookup(s: Seq<SteelVal>, idx: int) -> Option<SteelVal> {
    if 0 <= idx < s.len() {
        Some(s[idx])
    } else {
        None
    }
}

/// An optional lookup finds exactly the slots inside the table, each with the value it
/// holds; every index past the end, in any table (the empty one included), finds nothing.
pub proof fn lemma_lookup_finds_exactly_slots(s: Seq<SteelVal>, idx: int)
    requires
        0 <= idx,
    ensures
        lookup(s, idx) is Some <==> idx < s.len(),
        idx < s.len() ==> lookup(s, idx) == Some(s[idx]),
        idx >= s.len() ==> lookup(s, idx) == None::<SteelVal>,
        s.len() == 0 ==> lookup(s, idx) == None::<SteelVal>,
{
}

/// Looking up a slot right after defining it gives the defined value; every other slot
/// that existed keeps its value, the slots skipped over hold `Void`, and the table grows
/// to end just after `idx` when `idx` lay past its end.
pub proof fn lemma_lookup_after_define(s: Seq<SteelVal>, idx: int, val: SteelVal)
    requires
        0 <= idx,
    ensures
        lookup(defined(s, idx, val), idx) == Some(val),
        forall|j: int|
            0 <= j < s.len() && j != idx ==> #[trigger] lookup(defined(s, idx, val), j) == lookup(
                s,
                j,
            ),
        forall|j: int|
            s.len() <= j < idx ==> #[trigger] lookup(defined(s, idx, val), j) == Some(
                SteelVal::Void,
            ),
        forall|j: int| j > idx && j >= s.len() ==> #[trigger] lookup(defined(s, idx, val), j) == None::<SteelVal>,
        defined(s, idx, val).len() == if idx < s.len() {
            s.len() as int
        } else {
            idx + 1
        },
{
}

/// Defining a slot that already exists overwrites just that slot, as a set does.
pub proof fn lemma_define_existing_is_set(s: Seq<SteelVal>, idx: int, val: SteelVal)
    requires
        0 <= idx < s.len(),
    ensures
        defined(s, idx, val) == s.update(idx, val),
{
}

/// When a slot is defined twice, the second definition wins, whatever the first did
/// to the table.
pub proof fn lemma_define_twice(s: Seq<SteelVal>, idx: int, first: SteelVal, second: SteelVal)
    requires
        0 <= idx,
    ensures
        defined(defined(s, idx, first), idx, second) == defined(s, idx, second),
{
    assert(defined(defined(s, idx, first), idx, second) =~= defined(s, idx, second));
}

/// Definitions of two different slots commute: the order in which globals are defined
/// does not change the resulting table.
pub proof fn lemma_defines_commute(
    s: Seq<SteelVal>,
    i: int,
    vi: SteelVal,
    j: int,
    vj: SteelVal,
)
    requires
        0 <= i,
        0 <= j,
        i != j,
    ensures
        defined(defined(s, i, vi), j, vj) == defined(defined(s, j, vj), i, vi),
{
    let a = defined(defined(s, i, vi), j, vj);
    let b = defined(defined(s, j, vj), i, vi);
    lemma_lookup_after_define(s, i, vi);
    lemma_lookup_after_define(defined(s, i, vi), j, vj);
    lemma_lookup_after_define(s, j, vj);
    lemma_lookup_after_define(defined(s, j, vj), i, vi);
    assert(a.len() == b.len());
    assert forall|k: int| 0 <= k < a.len() implies a[k] == b[k] by {
        assert(lookup(a, k) == Some(a[k]));
        assert(lookup(b, k) == Some(b[k]));
    }
    assert(a =~= b);
}

/// Looking up a slot right after setting it gives the value set; every other slot keeps
/// its value and the table keeps its length.
pub proof fn lemma_lookup_after_set(s: Seq<SteelVal>, idx: int, val: SteelVal)
    requires
        0 <= idx < s.len(),
    ensures
        lookup(s.update(idx, val), idx) == Some(val),
        forall|j: int| j != idx ==> #[trigger] lookup(s.update(idx, val), j) == lookup(s, j),
        s.update(idx, val).len() == s.len(),
{
}

/// Setting a slot back to the value that a set of it returned restores the table.
pub proof fn lemma_set_then_restore(s: Seq<SteelVal>, idx: int, val: SteelVal)
    requires
        0 <= idx < s.len(),
    ensures
        s.update(idx, val).update(idx, s[idx]) == s,
{
    assert(s.update(idx, val).update(idx, s[idx]) =~= s);
}

/// A shared, copy-on-write buffer of binding slots.
pub struct SharedVectorWrapper(pub SharedBuffer);

impl View for SharedVectorWrapper {
    type V = Seq<SteelVal>;

    open spec fn view(&self) -> Seq<SteelVal> {
        shared_contents(self.0)
    }
}

impl SharedVectorWrapper {
    /// The allocator that the slots live in.
    pub open spec fn allocator(&self) -> Global {
        shared_allocator_of(self.0)
    }
}

impl Clone for SharedVectorWrapper {
    /// A new handle on the same slots; a later write through either handle copies the
    /// buffer first, so the other keeps its slots.
    fn clone(&self) -> (r: Self)
        ensures
            r@ == self@,
            r.allocator() == self.allocator(),
    {
        SharedVectorWrapper(shared_clone(&self.0))
    }
}

impl SharedVectorWrapper {
    /// Replaces slot `idx` with `val` and returns the value it held.
    pub fn set_idx(&mut self, idx: usize, val: SteelVal) -> (output: SteelVal)
        requires
            idx < old(self)@.len(),
        ensures
            output == old(self)@[idx as int],
            final(self)@ == old(self)@.update(idx as int, val),
            final(self).allocator() == old(self).allocator(),
    {
        let guard = shared_as_mut_slice(&mut self.0);
        let output = guard[idx];
        guard[idx] = val;
        output
    }

    /// Defines slot `idx` as `val`, growing the buffer with `Void` slots when `idx` lies
    /// past its end.
    pub fn repl_define_idx(&mut self, idx: usize, val: SteelVal)
        requires
            definable(old(self)@, idx as int),
        ensures
            final(self)@ == defined(old(self)@, idx as int, val),
            final(self).allocator() == old(self).allocator(),
    {
        let guard = &mut self.0;
        let len = shared_len(guard);
        if idx < len {
            let slots = shared_as_mut_slice(guard);
            slots[idx] = val;
        } else {
            let ghost start = shared_contents(*guard);
            let ghost alloc = shared_allocator_of(*guard);
            if idx > len {
                let missing = idx - len;
                let mut filled: usize = 0;
                while filled < missing
                    invariant
                        filled <= missing,
                        missing == idx - start.len(),
                        idx < u32::MAX,
                        shared_allocator_of(*guard) == alloc,
                        shared_contents(*guard) == start + Seq::new(
                            filled as nat,
                            |i: int| SteelVal::Void,
                        ),
                    decreases missing - filled,
                {
                    shared_push(guard, SteelVal::Void);
                    filled = filled + 1;
                    assert(shared_contents(*guard) =~= start + Seq::new(
                        filled as nat,
                        |i: int| SteelVal::Void,
                    ));
                }
            }
            assert(shared_contents(*guard) =~= start + Seq::new(
                (idx - start.len()) as nat,
                |i: int| SteelVal::Void,
            ));
            shared_push(guard, val);
        }
    }

    /// A new, empty buffer in the same allocator as `self`.
    pub fn empty_like(&self) -> (r: Self)
        ensures
            r@ == Seq::<SteelVal>::empty(),
            r.allocator() == self.allocator(),
    {
        let alloc = shared_allocator(&self.0);
        SharedVectorWrapper(shared_with_capacity_in(0, alloc))
    }
}

/// The global environment: the top-level bindings, one slot per global variable.
pub struct Env {
    pub(crate) bindings: SharedVectorWrapper,
}

impl View for Env {
    type V = Seq<SteelVal>;

    closed spec fn view(&self) -> Seq<SteelVal> {
        self.bindings@
    }
}

impl Env {
    /// The allocator that the bindings live in.
    pub closed spec fn allocator(&self) -> Global {
        self.bindings.allocator()
    }
}

impl Clone for Env {
    /// A new handle on the same bindings (copied on the first write through either).
    fn clone(&self) -> (r: Self)
        ensures
            r@ == self@,
            r.allocator() == self.allocator(),
    {
        Env { bindings: self.bindings.clone() }
    }
}

impl Env {
    /// The top-level environment, with no bindings yet, in the allocator `alloc`.
    pub fn root_in(alloc: Global) -> (env: Self)
        ensures
            env@ == Seq::<SteelVal>::empty(),
            env.allocator() == alloc,
    {
        Env { bindings: SharedVectorWrapper(shared_with_capacity_in(1024, alloc)) }
    }

    /// The number of slots.
    pub fn len(&self) -> (n: usize)
        ensures
            n == self@.len(),
    {
        shared_len(&self.bindings.0)
    }

    /// The value in slot `idx`, or `None` past the end.
    pub fn extract(&self, idx: usize) -> (r: Option<SteelVal>)
        ensures
            r == lookup(self@, idx as int),
            r is Some <==> idx < self@.len(),
            r matches Some(v) ==> v == self@[idx as int],
    {
        let slots = shared_as_slice(&self.bindings.0);
        if idx < slots.len() {
            Some(slots[idx])
        } else {
            None
        }
    }

    /// The value in slot `idx`.
    pub fn repl_lookup_idx(&self, idx: usize) -> (r: SteelVal)
        requires
            idx < self@.len(),
        ensures
            r == self@[idx as int],
    {
        let slots = shared_as_slice(&self.bindings.0);
        slots[idx]
    }

    /// The value in slot `idx`, or `None` past the end.
    pub fn repl_maybe_lookup_idx(&self, idx: usize) -> (r: Option<SteelVal>)
        ensures
            r == lookup(self@, idx as int),
            r is Some <==> idx < self@.len(),
            r matches Some(v) ==> v == self@[idx as int],
    {
        let slots = shared_as_slice(&self.bindings.0);
        if idx < slots.len() {
            Some(slots[idx])
        } else {
            None
        }
    }

    /// A reference to the value in slot `idx`.
    pub fn _repl_get_idx(&self, idx: usize) -> (r: &SteelVal)
        requires
            idx < self@.len(),
        ensures
            *r == self@[idx as int],
    {
        let slots = shared_as_slice(&self.bindings.0);
        &slots[idx]
    }

    /// Defines slot `idx` as `val`; slots skipped over past the end hold `Void`.
    pub fn repl_define_idx(&mut self, idx: usize, val: SteelVal)
        requires
            definable(old(self)@, idx as int),
        ensures
            final(self)@ == defined(old(self)@, idx as int, val),
            idx >= old(self)@.len() ==> final(self)@.len() == idx + 1,
            final(self).allocator() == old(self).allocator(),
    {
        self.bindings.repl_define_idx(idx, val);
    }

    /// Replaces slot `idx` with `val` and returns the value it held.
    pub fn repl_set_idx(&mut self, idx: usize, val: SteelVal) -> (r: Result<SteelVal, SteelErr>)
        requires
            idx < old(self)@.len(),
        ensures
            r == Ok::<SteelVal, SteelErr>(old(self)@[idx as int]),
            final(self)@ == old(self)@.update(idx as int, val),
            final(self).allocator() == old(self).allocator(),
    {
        let output = self.bindings.set_idx(idx, val);
        Ok(output)
    }

    /// Adds a root binding: defines slot `idx` as `val`.
    pub fn add_root_value(&mut self, idx: usize, val: SteelVal)
        requires
            definable(old(self)@, idx as int),
        ensures
            final(self)@ == defined(old(self)@, idx as int, val),
            final(self).allocator() == old(self).allocator(),
    {
        self.repl_define_idx(idx, val);
    }

    /// All slots, in order.
    pub fn roots(&self) -> (r: &[SteelVal])
        ensures
            r@ == self@,
    {
        shared_as_slice(&self.bindings.0)
    }

    /// An environment with the same bindings in a buffer of its own.
    pub fn deep_clone(&self) -> (r: Self)
        ensures
            r@ == self@,
            r.allocator() == self.allocator(),
    {
        Env {
            bindings: SharedVectorWrapper(
                unique_into_shared_atomic(shared_into_unique(self.bindings.clone().0)),
            ),
        }
    }

    /// Replaces the bindings with `vec`.
    pub fn update_env(&mut self, vec: SharedVectorWrapper)
        ensures
            final(self)@ == vec@,
            final(self).allocator() == vec.allocator(),
    {
        self.bindings = vec;
    }

    /// Empties the bindings; the new, empty buffer lives in the same allocator.
    pub fn default_env(&mut self)
        ensures
            final(self)@ == Seq::<SteelVal>::empty(),
            final(self).allocator() == old(self).allocator(),
    {
        self.bindings = self.bindings.empty_like();
    }

    /// Takes the bindings out, leaving the environment empty, with an empty buffer in the
    /// same allocator.
    pub fn drain_env(&mut self) -> (output: SharedVectorWrapper)
        ensures
            output@ == old(self)@,
            output.allocator() == old(self).allocator(),
            final(self)@ == Seq::<SteelVal>::empty(),
            final(self).allocator() == old(self).allocator(),
    {
        let output = self.bindings.clone();
        self.default_env();
        output
    }
}

} // verus!
