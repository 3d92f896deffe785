//! The request-slot core: admission of requests into a bounded set of
//! slots, ownership of each request's context while it is in flight, and
//! the completion that hands the context back exactly once.
//!
//! A slot is `Free`, `Acquired` (a [`Packet`] holds it and its context) or
//! `Submitted` (the context sits in the client's in-flight table until the
//! completion for that slot takes it out).
//!
//! The slot index is the address that the native side carries for a
//! request: `submit` moves the context into the table under it, and
//! `complete` moves it out again, once; a second completion for the same
//! slot finds nothing. Contexts are owned values throughout, so no address
//! ever outlives what it names.

use vstd::prelude::*;

use crate::handoff::ContextTable;
use crate::error::{AcquirePacketError, AcquirePacketErrorKind, NewClientError, NewClientErrorKind, SendError};
use crate::operation::Operation;
use crate::pool::{PacketGuard, ResourcePool};

verus! {

/// The length of a cluster address as the native client takes it; an
/// address too long for a 32-bit length is invalid.
pub fn address_length(address: &[u8]) -> (r: Result<u32, NewClientError>)
    ensures
        address@.len() <= u32::MAX ==> r == Ok::<u32, NewClientError>(address@.len() as u32),
        address@.len() > u32::MAX ==> (r matches Err(e) && e@
            == NewClientErrorKind::AddressInvalid.spec_code()),
{
    let len = address.len();
    if len > u32::MAX as usize {
        Err(NewClientError::from_kind(NewClientErrorKind::AddressInvalid))
    } else {
        Ok(len as u32)
    }
}

/// The outcome of the native client's initialisation from its status.
pub fn init_result(status: u32) -> (r: Result<(), NewClientError>)
    ensures
        status == 0 ==> r is Ok,
        status != 0 ==> (r matches Err(e) && e@ == status),
{
    match NewClientError::new(status) {
        Some(e) => Err(e),
        None => Ok(()),
    }
}

/// The outcome of a native slot acquisition from its status.
pub fn acquire_result(status: u32) -> (r: Result<(), AcquirePacketError>)
    ensures
        status == 0 ==> r is Ok,
        status != 0 ==> (r matches Err(e) && e@ == status),
{
    match AcquirePacketError::new(status) {
        Some(e) => Err(e),
        None => Ok(()),
    }
}

/// Where a request slot stands.
#[derive(Clone, Copy, Debug, PartialEq, Eq, Structural)]
pub enum SlotState {
    Free,
    Acquired,
    Submitted,
}

/// Number of slots in `s` that are not free.
pub open spec fn count_in_use(s: Seq<SlotState>) -> nat
    decreases s.len(),
{
    if s.len() == 0 {
        0
    } else {
        count_in_use(s.drop_last()) + if s.last() == SlotState::Free {
            0nat
        } else {
            1nat
        }
    }
}

proof fn lemma_count_in_use_update(s: Seq<SlotState>, i: int, x: SlotState)
    requires
        0 <= i < s.len(),
    ensures
        count_in_use(s.update(i, x)) + (if s[i] == SlotState::Free {
            0nat
        } else {
            1nat
        }) == count_in_use(s) + (if x == SlotState::Free {
            0nat
        } else {
            1nat
        }),
    decreases s.len(),
{
    let t = s.update(i, x);
    if i == s.len() - 1 {
        assert(t.drop_last() =~= s.drop_last());
    } else {
        lemma_count_in_use_update(s.drop_last(), i, x);
        assert(t.drop_last() =~= s.drop_last().update(i, x));
    }
}

proof fn lemma_count_in_use_free(n: nat)
    ensures
        count_in_use(Seq::new(n, |i: int| SlotState::Free)) == 0,
    decreases n,
{
    if n > 0 {
        lemma_count_in_use_free((n - 1) as nat);
        assert(Seq::new(n, |i: int| SlotState::Free).drop_last() =~= Seq::new(
            (n - 1) as nat,
            |i: int| SlotState::Free,
        ));
    }
}

/// A submitted request whose completion has not come yet: its slot, its
/// operation, and the context and bytes it owns until then.
#[derive(Debug)]
pub struct InFlight<U> {
    pub guard: PacketGuard,
    pub operation: Operation,
    pub user_data: U,
    pub data: Vec<u8>,
}

/// An acquired request slot, with the context it owns until it is submitted
/// or released. Give it back through [`Client::submit`] or
/// [`Client::release`]: dropped, it keeps its slot checked out.
#[derive(Debug)]
pub struct Packet<U> {
    guard: PacketGuard,
    operation: Operation,
    status: u8,
    user_data: U,
    data: Vec<u8>,
}

impl<U> Packet<U> {
    /// Index of the slot.
    pub closed spec fn slot(&self) -> u32 {
        self.guard@
    }

    pub closed spec fn spec_operation(&self) -> Operation {
        self.operation
    }

    pub closed spec fn spec_status(&self) -> u8 {
        self.status
    }

    pub closed spec fn spec_user_data(&self) -> U {
        self.user_data
    }

    pub closed spec fn spec_data(&self) -> Seq<u8> {
        self.data@
    }

    /// Index of the slot.
    pub fn slot_index(&self) -> (r: u32)
        ensures
            r == self.slot(),
    {
        self.guard.packet()
    }

    /// The bytes this request sends.
    pub fn data(&self) -> (r: &[u8])
        ensures
            r@ == self.spec_data(),
    {
        self.data.as_slice()
    }

    pub fn operation(&self) -> (r: Operation)
        ensures
            r == self.spec_operation(),
    {
        self.operation
    }

    pub fn set_operation(&mut self, operation: Operation)
        ensures
            final(self).spec_operation() == operation,
            final(self).slot() == old(self).slot(),
            final(self).spec_status() == old(self).spec_status(),
            final(self).spec_user_data() == old(self).spec_user_data(),
            final(self).spec_data() == old(self).spec_data(),
    {
        self.operation = operation;
    }

    /// `Ok` for a zero status, else the transport error it stands for.
    pub fn status(&self) -> (r: Result<(), SendError>)
        ensures
            self.spec_status() == 0 ==> r is Ok,
            self.spec_status() != 0 ==> (r matches Err(e) && e@ == self.spec_status()),
    {
        match SendError::new(self.status) {
            Some(e) => Err(e),
            None => Ok(()),
        }
    }

    /// Sets the status: zero for `Ok`, the error's code for `Err`.
    pub fn set_status(&mut self, status: Result<(), SendError>)
        ensures
            status is Ok ==> final(self).spec_status() == 0,
            status matches Err(e) ==> final(self).spec_status() == e@,
            final(self).slot() == old(self).slot(),
            final(self).spec_operation() == old(self).spec_operation(),
            final(self).spec_user_data() == old(self).spec_user_data(),
            final(self).spec_data() == old(self).spec_data(),
    {
        self.status = match status {
            Ok(()) => 0,
            Err(e) => e.code(),
        };
    }

    /// The context of this request.
    pub fn user_data(&self) -> (r: &U)
        ensures
            *r == self.spec_user_data(),
    {
        &self.user_data
    }

    /// The context of this request, to change it.
    pub fn user_data_mut(&mut self) -> (r: &mut U)
        ensures
            *r == old(self).spec_user_data(),
            final(self).spec_user_data() == *final(r),
            final(self).slot() == old(self).slot(),
            final(self).spec_operation() == old(self).spec_operation(),
            final(self).spec_status() == old(self).spec_status(),
            final(self).spec_data() == old(self).spec_data(),
    {
        &mut self.user_data
    }

    /// Releases this packet, never submitted, to `client` and hands back its
    /// context.
    pub fn into_user_data(self, client: &mut Client<U>) -> (r: U)
        requires
            old(client).wf(),
            old(client).holds(&self),
        ensures
            final(client).wf(),
            Client::freed(&*old(client), &*final(client), self.slot()),
            r == self.spec_user_data(),
    {
        let (user_data, _data) = client.release(self);
        user_data
    }

    /// Puts `user_data` in place of the context and hands the old one back.
    pub fn replace_user_data(&mut self, user_data: U) -> (r: U)
        ensures
            r == old(self).spec_user_data(),
            final(self).spec_user_data() == user_data,
            final(self).slot() == old(self).slot(),
            final(self).spec_operation() == old(self).spec_operation(),
            final(self).spec_status() == old(self).spec_status(),
            final(self).spec_data() == old(self).spec_data(),
    {
        let mut x = user_data;
        core::mem::swap(&mut self.user_data, &mut x);
        x
    }
}

/// Why no slot was acquired.
#[derive(Debug)]
pub enum AcquireError {
    /// The bytes to send are longer than the client's limit; no slot was
    /// asked for.
    DataTooLarge,
    /// No slot could be had: every slot is in use, or the client shuts down.
    Packet(AcquirePacketError),
}

/// A refused acquisition: the reason, and the context and bytes handed back
/// untouched.
#[derive(Debug)]
pub struct Rejected<U> {
    pub error: AcquireError,
    pub user_data: U,
    pub data: Vec<u8>,
}

/// What the completion of a request hands back: its operation, its context
/// and bytes, and the reply bytes or the transport error.
#[derive(Debug)]
pub struct Completion<U> {
    pub operation: Operation,
    pub user_data: U,
    pub data: Vec<u8>,
    pub result: Result<Vec<u8>, SendError>,
}

/// The slots of one client and the contexts of its requests in flight.
pub struct Client<U> {
    pool: ResourcePool,
    states: Vec<SlotState>,
    in_flight: ContextTable<InFlight<U>>,
    max_data_size: u32,
    shut_down: bool,
}

impl<U> Client<U> {
    /// Number of slots.
    pub closed spec fn capacity(&self) -> nat {
        self.pool.capacity()
    }

    /// The free slots, in the order they are handed out.
    pub closed spec fn free(&self) -> Seq<u32> {
        self.pool.free()
    }

    /// Where each slot stands.
    pub closed spec fn states(&self) -> Seq<SlotState> {
        self.states@
    }

    /// The submitted requests, by slot.
    pub closed spec fn in_flight(&self) -> Seq<Option<InFlight<U>>> {
        self.in_flight@
    }

    /// Longest request, in bytes.
    pub closed spec fn max_data_size(&self) -> u32 {
        self.max_data_size
    }

    pub closed spec fn is_shut_down(&self) -> bool {
        self.shut_down
    }

    /// There is a state and an in-flight entry for each slot, and the free
    /// list, the slot states and the in-flight table agree.
    pub open spec fn wf(&self) -> bool {
        &&& self.states().len() == self.capacity()
        &&& self.in_flight().len() == self.capacity()
        &&& self.consistent()
    }

    /// The free list, the slot states and the in-flight table agree.
    pub closed spec fn consistent(&self) -> bool {
        &&& self.pool.wf()
        &&& self.states@.len() == self.pool.capacity()
        &&& self.in_flight@.len() == self.pool.capacity()
        &&& forall|i: int|
            0 <= i < self.pool.capacity() ==> (self.pool.free().contains(i as u32) <==> #[trigger] self.states@[i]
                == SlotState::Free)
        &&& forall|i: int|
            0 <= i < self.pool.capacity() ==> ((#[trigger] self.in_flight@[i]) is Some <==> self.states@[i]
                == SlotState::Submitted)
        &&& forall|i: int|
            0 <= i < self.pool.capacity() ==> ((#[trigger] self.in_flight@[i]) matches Some(f) ==> f.guard@
                == i)
        &&& count_in_use(self.states@) + self.pool.free().len() == self.pool.capacity()
    }

    /// Whether `p` holds an acquired slot of this client.
    pub open spec fn holds(&self, p: &Packet<U>) -> bool {
        p.slot() < self.capacity() && self.states()[p.slot() as int] == SlotState::Acquired
    }

    /// Whether a completion for `slot` finds a request to complete.
    pub open spec fn completes(&self, slot: u32) -> bool {
        slot < self.capacity() && self.states()[slot as int] == SlotState::Submitted
    }

    /// `after` has the slots of `before`, and the same settings.
    pub open spec fn same_settings(before: &Client<U>, after: &Client<U>) -> bool {
        &&& after.capacity() == before.capacity()
        &&& after.max_data_size() == before.max_data_size()
        &&& after.is_shut_down() == before.is_shut_down()
    }

    /// Nothing changed.
    pub open spec fn unchanged(before: &Client<U>, after: &Client<U>) -> bool {
        &&& Self::same_settings(before, after)
        &&& after.free() == before.free()
        &&& after.states() == before.states()
        &&& after.in_flight() == before.in_flight()
    }

    /// `slot`, the head of the free list of `before`, is acquired in `after`.
    pub open spec fn acquired(before: &Client<U>, after: &Client<U>, slot: u32) -> bool {
        &&& Self::same_settings(before, after)
        &&& before.free().len() > 0 && slot == before.free()[0]
        &&& after.free() == before.free().drop_first()
        &&& after.states() == before.states().update(slot as int, SlotState::Acquired)
        &&& after.in_flight() == before.in_flight()
    }

    /// `p` is submitted: its slot is in flight, with its context.
    pub open spec fn submitted(before: &Client<U>, after: &Client<U>, p: &Packet<U>) -> bool {
        &&& Self::same_settings(before, after)
        &&& after.free() == before.free()
        &&& after.states() == before.states().update(p.slot() as int, SlotState::Submitted)
        &&& after.in_flight().len() == before.in_flight().len()
        &&& forall|i: int|
            0 <= i < before.in_flight().len() && i != p.slot() ==> #[trigger] after.in_flight()[i]
                == before.in_flight()[i]
        &&& after.in_flight()[p.slot() as int] matches Some(f) && f.user_data == p.spec_user_data()
            && f.operation == p.spec_operation() && f.data@ == p.spec_data()
    }

    /// `slot` is free again, at the tail of the free list, and holds no
    /// context.
    pub open spec fn freed(before: &Client<U>, after: &Client<U>, slot: u32) -> bool {
        &&& Self::same_settings(before, after)
        &&& after.free() == before.free().push(slot)
        &&& after.states() == before.states().update(slot as int, SlotState::Free)
        &&& after.in_flight() == before.in_flight().update(slot as int, None)
    }

    /// A client of `concurrency_max` slots whose requests carry at most
    /// `max_data_size` bytes; a concurrency of zero is refused.
    pub fn new(concurrency_max: u32, max_data_size: u32) -> (r: Result<Self, NewClientError>)
        ensures
            concurrency_max == 0 ==> (r matches Err(e) && e@
                == NewClientErrorKind::ConcurrencyMaxInvalid.spec_code()),
            concurrency_max > 0 ==> (r matches Ok(c) && c.wf() && c.capacity() == concurrency_max
                && c.max_data_size() == max_data_size && !c.is_shut_down() && c.free() == Seq::new(
                concurrency_max as nat,
                |i: int| i as u32,
            ) && forall|i: int| 0 <= i < concurrency_max ==> #[trigger] c.states()[i] == SlotState::Free),
    {
        if concurrency_max == 0 {
            return Err(NewClientError::from_kind(NewClientErrorKind::ConcurrencyMaxInvalid));
        }
        let pool = ResourcePool::new(concurrency_max);
        let mut states: Vec<SlotState> = Vec::new();
        let in_flight: ContextTable<InFlight<U>> = ContextTable::new(concurrency_max);
        let mut i: u32 = 0;
        while i < concurrency_max
            invariant
                i <= concurrency_max,
                states@ == Seq::new(i as nat, |k: int| SlotState::Free),
            decreases concurrency_max - i,
        {
            states.push(SlotState::Free);
            assert(states@ =~= Seq::new((i + 1) as nat, |k: int| SlotState::Free));
            i = i + 1;
        }
        proof {
            lemma_count_in_use_free(concurrency_max as nat);
            assert forall|k: int| 0 <= k < concurrency_max implies (pool.free().contains(k as u32)
                <==> #[trigger] states@[k] == SlotState::Free) by {
                assert(pool.free()[k] == k as u32);
            }
        }
        let c = Client { pool, states, in_flight, max_data_size, shut_down: false };
        Ok(c)
    }

    /// Number of slots.
    pub fn concurrency_max(&self) -> (r: u32)
        ensures
            r == self.capacity(),
    {
        self.pool.packet_count()
    }

    /// Number of slots acquired or in flight.
    pub fn in_use(&self) -> (r: u32)
        requires
            self.wf(),
        ensures
            r == count_in_use(self.states()),
            r == self.capacity() - self.free().len(),
    {
        self.pool.packet_count() - self.pool.available() as u32
    }

    /// Acquires the free slot at the head of the list for a request of
    /// `operation` that sends `data`, with `user_data` as its context. The
    /// length of `data` is checked before anything else. On refusal the
    /// context and the bytes come back untouched and the client is unchanged.
    pub fn acquire(&mut self, user_data: U, data: Vec<u8>, operation: Operation) -> (r: Result<
        Packet<U>,
        Rejected<U>,
    >)
        requires
            old(self).wf(),
        ensures
            final(self).wf(),
            r is Err ==> Self::unchanged(&*old(self), &*final(self)),
            r matches Err(e) ==> e.user_data == user_data && e.data == data,
            data@.len() > old(self).max_data_size() ==> (r matches Err(e) && e.error
                is DataTooLarge),
            data@.len() <= old(self).max_data_size() && old(self).is_shut_down() ==> (r matches Err(
                e,
            ) && e.error matches AcquireError::Packet(k) && k@
                == AcquirePacketErrorKind::Shutdown.spec_code()),
            data@.len() <= old(self).max_data_size() && !old(self).is_shut_down() && old(
                self,
            ).free().len() == 0 ==> (r matches Err(e) && e.error matches AcquireError::Packet(k)
                && k@ == AcquirePacketErrorKind::ConcurrencyMaxExceeded.spec_code()),
            data@.len() <= old(self).max_data_size() && !old(self).is_shut_down() && old(
                self,
            ).free().len() > 0 ==> (r matches Ok(p) && Self::acquired(
                &*old(self),
                &*final(self),
                p.slot(),
            ) && final(self).holds(&p) && p.spec_operation() == operation && p.spec_status() == 0
                && p.spec_user_data() == user_data && p.spec_data() == data@),
    {
        if data.len() > self.max_data_size as usize {
            return Err(Rejected { error: AcquireError::DataTooLarge, user_data, data });
        }
        if self.shut_down {
            let e = AcquirePacketError::from_kind(AcquirePacketErrorKind::Shutdown);
            return Err(Rejected { error: AcquireError::Packet(e), user_data, data });
        }
        let guard = match self.pool.acquire_packet() {
            Some(g) => g,
            None => {
                let e = AcquirePacketError::from_kind(
                    AcquirePacketErrorKind::ConcurrencyMaxExceeded,
                );
                return Err(Rejected { error: AcquireError::Packet(e), user_data, data });
            },
        };
        let slot = guard.packet();
        proof {
            assert(old(self).free().contains(slot));
            assert(old(self).states@[slot as int] == SlotState::Free);
            lemma_count_in_use_update(old(self).states@, slot as int, SlotState::Acquired);
        }
        self.states.set(slot as usize, SlotState::Acquired);
        proof {
            assert forall|i: int| 0 <= i < self.pool.capacity() implies (self.pool.free().contains(
                i as u32,
            ) <==> #[trigger] self.states@[i] == SlotState::Free) by {
                let f = old(self).free();
                if i == slot as int {
                    assert(f.no_duplicates());
                    if self.pool.free().contains(i as u32) {
                        let k = choose|k: int|
                            0 <= k < self.pool.free().len() && self.pool.free()[k] == i as u32;
                        assert(f[k + 1] == f[0]);
                    }
                } else {
                    if f.contains(i as u32) {
                        let k = choose|k: int| 0 <= k < f.len() && f[k] == i as u32;
                        assert(f[0] == slot);
                        assert(k != 0);
                        assert(self.pool.free()[k - 1] == i as u32);
                    }
                    if self.pool.free().contains(i as u32) {
                        let k = choose|k: int|
                            0 <= k < self.pool.free().len() && self.pool.free()[k] == i as u32;
                        assert(f[k + 1] == i as u32);
                    }
                }
            }
        }
        Ok(Packet { guard, operation, status: 0, user_data, data })
    }

    /// Hands `packet` to the cluster. Its context stays in the in-flight
    /// table until the completion for its slot takes it out.
    pub fn submit(&mut self, packet: Packet<U>)
        requires
            old(self).wf(),
            old(self).holds(&packet),
        ensures
            final(self).wf(),
            Self::submitted(&*old(self), &*final(self), &packet),
    {
        let ghost p = packet;
        let Packet { guard, operation, status: _, user_data, data } = packet;
        let slot = guard.packet();
        proof {
            lemma_count_in_use_update(self.states@, slot as int, SlotState::Submitted);
        }
        self.states.set(slot as usize, SlotState::Submitted);
        self.in_flight.into_raw(slot, InFlight { guard, operation, user_data, data });
    }

    /// Gives back the slot of `packet`, never submitted, and hands back its
    /// context and bytes. No completion will come for it.
    pub fn release(&mut self, packet: Packet<U>) -> (r: (U, Vec<u8>))
        requires
            old(self).wf(),
            old(self).holds(&packet),
        ensures
            final(self).wf(),
            Self::freed(&*old(self), &*final(self), packet.slot()),
            r.0 == packet.spec_user_data(),
            r.1@ == packet.spec_data(),
    {
        let Packet { guard, operation: _, status: _, user_data, data } = packet;
        let slot = guard.packet();
        proof {
            lemma_count_in_use_update(self.states@, slot as int, SlotState::Free);
            assert(!self.pool.free().contains(slot));
        }
        self.pool.release(guard);
        self.states.set(slot as usize, SlotState::Free);
        proof {
            assert(self.in_flight@ =~= old(self).in_flight@.update(slot as int, None));
            self.lemma_freed_wf(old(self), slot);
        }
        (user_data, data)
    }

    /// The completion of the request in flight in `slot`, whose status is
    /// `status` and whose reply is `payload`: takes its context out of the
    /// in-flight table, frees the slot, and hands back the context with
    /// the reply bytes (zero status) or the transport error. `None`, with
    /// nothing changed, where no request is in flight in `slot`.
    pub fn complete(&mut self, slot: u32, status: u8, payload: &[u8]) -> (r: Option<Completion<U>>)
        requires
            old(self).wf(),
        ensures
            final(self).wf(),
            !old(self).completes(slot) ==> r is None && Self::unchanged(&*old(self), &*final(self)),
            old(self).completes(slot) ==> (r matches Some(c) && old(self).in_flight()[slot as int]
                matches Some(f) && c.user_data == f.user_data && c.operation == f.operation
                && c.data == f.data && Self::freed(&*old(self), &*final(self), slot)),
            old(self).completes(slot) && status == 0 ==> (r matches Some(c) && c.result matches Ok(b)
                && b@ == payload@),
            old(self).completes(slot) && status != 0 ==> (r matches Some(c) && c.result matches Err(
                e,
            ) && e@ == status),
    {
        if slot as usize >= self.states.len() {
            return None;
        }
        if self.states[slot as usize] != SlotState::Submitted {
            return None;
        }
        let f = match self.in_flight.from_raw(slot) {
            Some(f) => f,
            None => {
                return None;
            },
        };
        let InFlight { guard, operation, user_data, data } = f;
        proof {
            lemma_count_in_use_update(self.states@, slot as int, SlotState::Free);
            assert(!self.pool.free().contains(slot));
        }
        self.pool.release(guard);
        self.states.set(slot as usize, SlotState::Free);
        proof {
            self.lemma_freed_wf(old(self), slot);
        }
        let result = match SendError::new(status) {
            Some(e) => Err(e),
            None => Ok(vstd::slice::slice_to_vec(payload)),
        };
        Some(Completion { operation, user_data, data, result })
    }

    proof fn lemma_freed_wf(&self, before: &Client<U>, slot: u32)
        requires
            before.wf(),
            slot < before.capacity(),
            before.states()[slot as int] != SlotState::Free,
            Self::freed(before, self, slot),
            self.pool.wf(),
            count_in_use(self.states@) + 1 == count_in_use(before.states@),
        ensures
            self.wf(),
    {
        assert forall|i: int| 0 <= i < self.pool.capacity() implies (self.pool.free().contains(
            i as u32,
        ) <==> #[trigger] self.states@[i] == SlotState::Free) by {
            let f = before.free();
            if i != slot as int {
                if self.pool.free().contains(i as u32) {
                    let k = choose|k: int|
                        0 <= k < self.pool.free().len() && self.pool.free()[k] == i as u32;
                    assert(k < f.len());
                    assert(f[k] == i as u32);
                }
                if f.contains(i as u32) {
                    let k = choose|k: int| 0 <= k < f.len() && f[k] == i as u32;
                    assert(self.pool.free()[k] == i as u32);
                }
            } else {
                assert(self.pool.free()[f.len() as int] == slot);
            }
        }
    }

    /// No more slots are acquired or in flight than the client has: the
    /// slots in use and the free ones add up to the number of slots.
    pub proof fn lemma_in_use_at_most_capacity(&self)
        requires
            self.wf(),
        ensures
            count_in_use(self.states()) <= self.capacity(),
            count_in_use(self.states()) + self.free().len() == self.capacity(),
    {
    }

    /// A submitted request is completed exactly once: the first completion
    /// for its slot finds the context of the packet that was submitted, and
    /// once that completion has freed the slot, another finds nothing.
    pub proof fn lemma_completion_once(
        c0: &Client<U>,
        c1: &Client<U>,
        c2: &Client<U>,
        p: &Packet<U>,
    )
        requires
            c0.wf(),
            c0.holds(p),
            Self::submitted(c0, c1, p),
            Self::freed(c1, c2, p.slot()),
        ensures
            c1.completes(p.slot()),
            c1.in_flight()[p.slot() as int] matches Some(f) && f.user_data == p.spec_user_data(),
            !c2.completes(p.slot()),
    {
    }

    /// A packet released before it is submitted never meets a completion:
    /// its slot is free, holds no context, and counts as in use no more.
    pub proof fn lemma_release_before_submit(c0: &Client<U>, c1: &Client<U>, p: &Packet<U>)
        requires
            c0.wf(),
            c0.holds(p),
            Self::freed(c0, c1, p.slot()),
        ensures
            !c1.completes(p.slot()),
            c1.in_flight()[p.slot() as int] is None,
            count_in_use(c1.states()) + 1 == count_in_use(c0.states()),
    {
        lemma_count_in_use_update(c0.states(), p.slot() as int, SlotState::Free);
    }

    /// From now on every acquisition is refused with a shutdown error;
    /// requests in flight still complete.
    pub fn shutdown(&mut self)
        requires
            old(self).wf(),
        ensures
            final(self).wf(),
            final(self).is_shut_down(),
            final(self).capacity() == old(self).capacity(),
            final(self).max_data_size() == old(self).max_data_size(),
            final(self).free() == old(self).free(),
            final(self).states() == old(self).states(),
            final(self).in_flight() == old(self).in_flight(),
    {
        self.shut_down = true;
    }

    /// Whether no request is in flight: after a shutdown, the client may be
    /// torn down only then.
    pub fn is_idle(&self) -> (r: bool)
        requires
            self.wf(),
        ensures
            r <==> forall|i: int| 0 <= i < self.capacity() ==> #[trigger] self.states()[i]
                != SlotState::Submitted,
    {
        let mut i: usize = 0;
        while i < self.states.len()
            invariant
                i <= self.states@.len(),
                self.wf(),
                self.states@.len() == self.capacity(),
                forall|k: int| 0 <= k < i ==> #[trigger] self.states@[k] != SlotState::Submitted,
            decreases self.states@.len() - i,
        {
            if self.states[i] == SlotState::Submitted {
                assert(self.states()[i as int] == SlotState::Submitted);
                return false;
            }
            i = i + 1;
        }
        true
    }
}

} // verus!
