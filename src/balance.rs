//! Balances: the amounts of an account at one point in time.

use vstd::prelude::*;

use crate::codec::{
    fits, layout_bytes, layout_values, lemma_layout_round_trip, lemma_pow256_widths, read_fields,
    total, values_of, widths_of, write_fields, Record,
};

verus! {

/// The wire layout of a balance, reserved space left out.
#[derive(Clone, Copy, Debug, PartialEq, Eq)]
pub struct RawBalance {
    pub debits_pending: u128,
    pub debits_posted: u128,
    pub credits_pending: u128,
    pub credits_posted: u128,
    pub timestamp: u64,
}

/// An account balance record.
#[derive(Clone, Copy, Debug, PartialEq, Eq)]
pub struct Balance(RawBalance);

impl View for Balance {
    type V = RawBalance;

    closed spec fn view(&self) -> RawBalance {
        self.0
    }
}

/// Byte widths of the fields of a balance on the wire, reserved space included.
pub open spec fn balance_widths() -> Seq<nat> {
    seq![16nat, 16, 16, 16, 8, 16, 16, 16, 8]
}

/// The field values of a balance in wire order; reserved space is zero.
pub open spec fn balance_fields(r: RawBalance) -> Seq<nat> {
    seq![r.debits_pending as nat, r.debits_posted as nat, r.credits_pending as nat, r.credits_posted as nat, r.timestamp as nat, 0nat, 0nat, 0nat, 0nat]
}

/// The balance whose fields are `v`, in wire order.
pub open spec fn balance_from_fields(v: Seq<nat>) -> RawBalance {
    RawBalance {
        debits_pending: v[0] as u128,
        debits_posted: v[1] as u128,
        credits_pending: v[2] as u128,
        credits_posted: v[3] as u128,
        timestamp: v[4] as u64,
    }
}

fn balance_width_vec() -> (r: Vec<usize>)
    ensures
        widths_of(r@) == balance_widths(),
        forall|i: int| 0 <= i < r@.len() ==> #[trigger] r@[i] <= 16,
{
    let r: Vec<usize> = vec![16, 16, 16, 16, 8, 16, 16, 16, 8];
    assert(widths_of(r@) =~= balance_widths());
    r
}

impl Record for Balance {
    open spec fn spec_size() -> nat {
        128
    }

    closed spec fn spec_to_bytes(&self) -> Seq<u8> {
        layout_bytes(balance_fields(self.0), balance_widths())
    }

    closed spec fn spec_from_bytes(b: Seq<u8>) -> Self {
        Balance(balance_from_fields(layout_values(b, balance_widths())))
    }

    fn byte_size() -> (r: usize) {
        128
    }

    fn encode_into(&self, out: &mut Vec<u8>) {
        let r = self.0;
        let vals: Vec<u128> = vec![r.debits_pending, r.debits_posted, r.credits_pending, r.credits_posted, r.timestamp as u128, 0, 0, 0, 0];
        let ws = balance_width_vec();
        proof {
            lemma_pow256_widths();
            assert(values_of(vals@) =~= balance_fields(r));
        }
        write_fields(out, &vals, &ws);
    }

    fn decode_at(b: &[u8], off: usize) -> (r: Self) {
        let ws = balance_width_vec();
        proof {
            reveal_with_fuel(crate::codec::offset, 11);
        }
        assert(total(widths_of(ws@)) == 128);
        let v = read_fields(b, off, &ws);
        proof {
            lemma_pow256_widths();
            assert(v@[0] as nat == values_of(v@)[0]);
            assert(v@[1] as nat == values_of(v@)[1]);
            assert(v@[2] as nat == values_of(v@)[2]);
            assert(v@[3] as nat == values_of(v@)[3]);
            assert(v@[4] as nat == values_of(v@)[4]);
        }
        Balance(RawBalance {
            debits_pending: v[0],
            debits_posted: v[1],
            credits_pending: v[2],
            credits_posted: v[3],
            timestamp: v[4] as u64,
        })
    }

    proof fn lemma_record_round_trip(&self) {
        lemma_pow256_widths();
        reveal_with_fuel(crate::codec::offset, 11);
        let vals = balance_fields(self.0);
        assert(fits(vals, balance_widths()));
        lemma_layout_round_trip(vals, balance_widths());
        assert(total(balance_widths()) == 128);
    }
}

impl RawBalance {
    pub open spec fn zeroed_spec() -> RawBalance {
        RawBalance {
            debits_pending: 0,
            debits_posted: 0,
            credits_pending: 0,
            credits_posted: 0,
            timestamp: 0,
        }
    }

    /// The record with every field zero.
    pub fn zeroed() -> (r: RawBalance)
        ensures
            r == RawBalance::zeroed_spec(),
    {
        RawBalance {
            debits_pending: 0,
            debits_posted: 0,
            credits_pending: 0,
            credits_posted: 0,
            timestamp: 0,
        }
    }
}

impl Balance {
    pub fn from_raw(raw: RawBalance) -> (r: Self)
        ensures
            r@ == raw,
    {
        Balance(raw)
    }

    pub fn into_raw(self) -> (r: RawBalance)
        ensures
            r == self@,
    {
        self.0
    }

    pub fn as_raw(&self) -> (r: &RawBalance)
        ensures
            *r == self@,
    {
        &self.0
    }

    pub fn as_raw_mut(&mut self) -> (r: &mut RawBalance)
        ensures
            *r == old(self)@,
            final(self)@ == *final(r),
    {
        &mut self.0
    }

    pub fn debits_pending(&self) -> (r: u128)
        ensures
            r == self@.debits_pending,
    {
        self.0.debits_pending
    }

    pub fn set_debits_pending(&mut self, debits_pending: u128)
        ensures
            final(self)@ == (RawBalance { debits_pending, ..old(self)@ }),
    {
        self.0.debits_pending = debits_pending;
    }

    pub fn with_debits_pending(self, debits_pending: u128) -> (r: Self)
        ensures
            r@ == (RawBalance { debits_pending, ..self@ }),
    {
        let mut this = self;
        this.set_debits_pending(debits_pending);
        this
    }

    pub fn debits_posted(&self) -> (r: u128)
        ensures
            r == self@.debits_posted,
    {
        self.0.debits_posted
    }

    pub fn set_debits_posted(&mut self, debits_posted: u128)
        ensures
            final(self)@ == (RawBalance { debits_posted, ..old(self)@ }),
    {
        self.0.debits_posted = debits_posted;
    }

    pub fn with_debits_posted(self, debits_posted: u128) -> (r: Self)
        ensures
            r@ == (RawBalance { debits_posted, ..self@ }),
    {
        let mut this = self;
        this.set_debits_posted(debits_posted);
        this
    }

    pub fn credits_pending(&self) -> (r: u128)
        ensures
            r == self@.credits_pending,
    {
        self.0.credits_pending
    }

    pub fn set_credits_pending(&mut self, credits_pending: u128)
        ensures
            final(self)@ == (RawBalance { credits_pending, ..old(self)@ }),
    {
        self.0.credits_pending = credits_pending;
    }

    pub fn with_credits_pending(self, credits_pending: u128) -> (r: Self)
        ensures
            r@ == (RawBalance { credits_pending, ..self@ }),
    {
        let mut this = self;
        this.set_credits_pending(credits_pending);
        this
    }

    pub fn credits_posted(&self) -> (r: u128)
        ensures
            r == self@.credits_posted,
    {
        self.0.credits_posted
    }

    pub fn set_credits_posted(&mut self, credits_posted: u128)
        ensures
            final(self)@ == (RawBalance { credits_posted, ..old(self)@ }),
    {
        self.0.credits_posted = credits_posted;
    }

    pub fn with_credits_posted(self, credits_posted: u128) -> (r: Self)
        ensures
            r@ == (RawBalance { credits_posted, ..self@ }),
    {
        let mut this = self;
        this.set_credits_posted(credits_posted);
        this
    }

    /// Nanoseconds since the Unix epoch at which the balance was recorded.
    pub fn timestamp(&self) -> (r: u64)
        ensures
            r == self@.timestamp,
    {
        self.0.timestamp
    }

}

} // verus!
