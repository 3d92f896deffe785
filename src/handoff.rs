//! Ownership transfer across the native boundary: an owned value is parked
//! under a numeric address that a C struct can carry, and taken back from
//! that address exactly once.

use vstd::prelude::*;

verus! {

/// Owned values parked under the addresses `0..len`.
pub struct ContextTable<T> {
    cells: Vec<Option<T>>,
}

impl<T> View for ContextTable<T> {
    type V = Seq<Option<T>>;

    closed spec fn view(&self) -> Seq<Option<T>> {
        self.cells@
    }
}

impl<T> ContextTable<T> {
    /// A table of `len` empty addresses.
    pub fn new(len: u32) -> (r: Self)
        ensures
            r@.len() == len,
            forall|i: int| 0 <= i < len ==> (#[trigger] r@[i]) is None,
    {
        let mut cells: Vec<Option<T>> = Vec::new();
        let mut i: u32 = 0;
        while i < len
            invariant
                i <= len,
                cells@.len() == i,
                forall|k: int| 0 <= k < i ==> (#[trigger] cells@[k]) is None,
            decreases len - i,
        {
            cells.push(None);
            i = i + 1;
        }
        ContextTable { cells }
    }

    /// Parks `value` under the empty address `address`.
    pub fn into_raw(&mut self, address: u32, value: T)
        requires
            address < old(self)@.len(),
            old(self)@[address as int] is None,
        ensures
            final(self)@ == old(self)@.update(address as int, Some(value)),
    {
        self.cells.set(address as usize, Some(value));
    }

    /// Takes back the value parked under `address`, leaving it empty; `None`
    /// where nothing is parked there.
    pub fn from_raw(&mut self, address: u32) -> (r: Option<T>)
        ensures
            address < old(self)@.len() ==> r == old(self)@[address as int] && final(self)@ == old(
                self,
            )@.update(address as int, None),
            address >= old(self)@.len() ==> r is None && final(self)@ == old(self)@,
    {
        if address as usize >= self.cells.len() {
            return None;
        }
        let mut taken: Option<T> = None;
        core::mem::swap(&mut self.cells[address as usize], &mut taken);
        taken
    }

    /// A value parked and then taken back comes back unchanged, and only
    /// once: a second take from the same address finds nothing.
    pub proof fn lemma_exactly_once(t0: Self, t1: Self, t2: Self, address: u32, value: T)
        requires
            address < t0@.len(),
            t0@[address as int] is None,
            t1@ == t0@.update(address as int, Some(value)),
            t2@ == t1@.update(address as int, None),
        ensures
            t1@[address as int] == Some(value),
            t2@[address as int] is None,
            t2@ == t0@,
    {
        assert(t2@ =~= t0@);
    }
}

} // verus!
