//! Admission-controlled pool of request slots: a slot is handed out only
//! while one is free, and every slot handed out comes back to the tail of the
//! free list.

use vstd::prelude::*;

verus! {

/// A request slot checked out of a [`ResourcePool`]. It is not `Clone`: the
/// guard is the one right to give the slot back.
#[derive(Debug)]
pub struct PacketGuard {
    packet: u32,
}

impl View for PacketGuard {
    type V = u32;

    closed spec fn view(&self) -> u32 {
        self.packet
    }
}

impl PacketGuard {
    /// Index of the slot.
    pub fn packet(&self) -> (r: u32)
        ensures
            r == self@,
    {
        self.packet
    }
}

/// The free slots of a pool of `packet_count` slots, oldest release first.
pub struct ResourcePool {
    free_packets: Vec<u32>,
    packet_count: u32,
}

impl ResourcePool {
    /// Number of slots in the pool.
    pub closed spec fn capacity(&self) -> nat {
        self.packet_count as nat
    }

    /// The free slots, in the order they are handed out.
    pub closed spec fn free(&self) -> Seq<u32> {
        self.free_packets@
    }

    /// Each free slot is a slot of the pool, listed once.
    pub open spec fn wf(&self) -> bool {
        &&& self.free().no_duplicates()
        &&& forall|k: int| 0 <= k < self.free().len() ==> #[trigger] self.free()[k] < self.capacity()
        &&& self.free().len() <= self.capacity()
        &&& self.capacity() <= u32::MAX
    }

    /// Whether slot `i` is checked out.
    pub open spec fn checked_out(&self, i: u32) -> bool {
        i < self.capacity() && !self.free().contains(i)
    }

    /// A pool of `packet_count` slots, all free, in index order.
    pub fn new(packet_count: u32) -> (r: Self)
        ensures
            r.wf(),
            r.capacity() == packet_count,
            r.free() == Seq::new(packet_count as nat, |i: int| i as u32),
    {
        let mut free_packets: Vec<u32> = Vec::new();
        let mut i: u32 = 0;
        while i < packet_count
            invariant
                i <= packet_count,
                free_packets@ == Seq::new(i as nat, |k: int| k as u32),
            decreases packet_count - i,
        {
            free_packets.push(i);
            assert(free_packets@ =~= Seq::new((i + 1) as nat, |k: int| k as u32));
            i = i + 1;
        }
        ResourcePool { free_packets, packet_count }
    }

    /// Number of free slots.
    pub fn available(&self) -> (r: usize)
        ensures
            r == self.free().len(),
    {
        self.free_packets.len()
    }

    /// Number of slots in the pool.
    pub fn packet_count(&self) -> (r: u32)
        ensures
            r == self.capacity(),
    {
        self.packet_count
    }

    /// Checks out the free slot at the head of the list; `None` when every
    /// slot is checked out, and then the pool is unchanged.
    pub fn acquire_packet(&mut self) -> (r: Option<PacketGuard>)
        requires
            old(self).wf(),
        ensures
            final(self).wf(),
            final(self).capacity() == old(self).capacity(),
            old(self).free().len() == 0 ==> r is None && final(self).free() == old(self).free(),
            old(self).free().len() > 0 ==> (r matches Some(g) && g@ == old(self).free()[0]
                && final(self).free() == old(self).free().drop_first()),
    {
        if self.free_packets.len() == 0 {
            return None;
        }
        let packet = self.free_packets.remove(0);
        proof {
            assert(self.free() =~= old(self).free().drop_first());
            assert forall|k: int| 0 <= k < self.free().len() implies #[trigger] self.free()[k]
                < self.capacity() by {
                assert(self.free()[k] == old(self).free()[k + 1]);
            }
            assert forall|a: int, b: int|
                0 <= a < self.free().len() && 0 <= b < self.free().len() && a != b implies self.free()[a]
                != self.free()[b] by {
                assert(self.free()[a] == old(self).free()[a + 1]);
                assert(self.free()[b] == old(self).free()[b + 1]);
            }
        }
        Some(PacketGuard { packet })
    }

    /// Gives a checked-out slot back, at the tail of the free list.
    pub fn release(&mut self, guard: PacketGuard)
        requires
            old(self).wf(),
            old(self).checked_out(guard@),
        ensures
            final(self).wf(),
            final(self).capacity() == old(self).capacity(),
            final(self).free() == old(self).free().push(guard@),
    {
        let PacketGuard { packet } = guard;
        self.free_packets.push(packet);
        proof {
            let f = old(self).free();
            assert(self.free() == f.push(packet));
            assert forall|a: int, b: int|
                0 <= a < self.free().len() && 0 <= b < self.free().len() && a != b implies self.free()[a]
                != self.free()[b] by {
                if a == f.len() as int {
                    assert(!f.contains(packet));
                    assert(self.free()[b] == f[b]);
                } else if b == f.len() as int {
                    assert(!f.contains(packet));
                    assert(self.free()[a] == f[a]);
                }
            }
            assert(self.free().len() <= self.capacity()) by {
                lemma_free_below_capacity(f, packet, self.capacity());
            }
        }
    }
}

/// A list of distinct slots below `cap` that misses `p < cap` has fewer
/// than `cap` entries.
proof fn lemma_free_below_capacity(f: Seq<u32>, p: u32, cap: nat)
    requires
        f.no_duplicates(),
        forall|k: int| 0 <= k < f.len() ==> #[trigger] f[k] < cap,
        !f.contains(p),
        p < cap,
    ensures
        f.len() < cap,
{
    let s = f.to_set().map(|x: u32| x as int);
    let range = vstd::set_lib::set_int_range(0, cap as int);
    f.unique_seq_to_set();
    assert(s.subset_of(range.remove(p as int))) by {
        assert forall|x: int| s.contains(x) implies range.remove(p as int).contains(x) by {
            let y = choose|y: u32| f.to_set().contains(y) && y as int == x;
            assert(f.contains(y));
        }
    }
    vstd::set_lib::lemma_int_range(0, cap as int);
    vstd::set_lib::lemma_len_subset(s, range.remove(p as int));
    assert(s.len() == f.len()) by {
        lemma_map_injective_len(f.to_set());
    }
}

proof fn lemma_map_injective_len(s: Set<u32>)
    requires
        s.finite(),
    ensures
        s.map(|x: u32| x as int).len() == s.len(),
        s.map(|x: u32| x as int).finite(),
    decreases s.len(),
{
    if s.len() == 0 {
        assert(s.map(|x: u32| x as int) =~= Set::<int>::empty());
    } else {
        let x = s.choose();
        let t = s.remove(x);
        lemma_map_injective_len(t);
        assert(s.map(|x: u32| x as int) =~= t.map(|x: u32| x as int).insert(x as int));
        assert(!t.map(|y: u32| y as int).contains(x as int));
    }
}

} // verus!
