//! Account filters: which transfers or balances of an account a query asks for.

use vstd::prelude::*;

use crate::codec::{
    fits, layout_bytes, layout_values, lemma_layout_round_trip, lemma_pow256_widths, read_fields,
    total, values_of, widths_of, write_fields, Record,
};

verus! {

/// The wire layout of an account filter, reserved space left out.
#[derive(Clone, Copy, Debug, PartialEq, Eq)]
pub struct RawFilter {
    pub account_id: u128,
    pub timestamp_min: u64,
    pub timestamp_max: u64,
    pub limit: u32,
    pub flags: u32,
}

/// A query filter over the transfers or balances of one account.
#[derive(Clone, Copy, Debug, PartialEq, Eq)]
pub struct Filter(RawFilter);

impl View for Filter {
    type V = RawFilter;

    closed spec fn view(&self) -> RawFilter {
        self.0
    }
}

/// Byte widths of the fields of a filter on the wire, reserved space included.
pub open spec fn filter_widths() -> Seq<nat> {
    seq![16nat, 8, 8, 4, 4, 16, 8]
}

/// The field values of a filter in wire order; reserved space is zero.
pub open spec fn filter_fields(r: RawFilter) -> Seq<nat> {
    seq![r.account_id as nat, r.timestamp_min as nat, r.timestamp_max as nat, r.limit as nat, r.flags as nat, 0nat, 0nat]
}

/// The filter whose fields are `v`, in wire order.
pub open spec fn filter_from_fields(v: Seq<nat>) -> RawFilter {
    RawFilter {
        account_id: v[0] as u128,
        timestamp_min: v[1] as u64,
        timestamp_max: v[2] as u64,
        limit: v[3] as u32,
        flags: v[4] as u32,
    }
}

fn filter_width_vec() -> (r: Vec<usize>)
    ensures
        widths_of(r@) == filter_widths(),
        forall|i: int| 0 <= i < r@.len() ==> #[trigger] r@[i] <= 16,
{
    let r: Vec<usize> = vec![16, 8, 8, 4, 4, 16, 8];
    assert(widths_of(r@) =~= filter_widths());
    r
}

impl Record for Filter {
    open spec fn spec_size() -> nat {
        64
    }

    closed spec fn spec_to_bytes(&self) -> Seq<u8> {
        layout_bytes(filter_fields(self.0), filter_widths())
    }

    closed spec fn spec_from_bytes(b: Seq<u8>) -> Self {
        Filter(filter_from_fields(layout_values(b, filter_widths())))
    }

    fn byte_size() -> (r: usize) {
        64
    }

    fn encode_into(&self, out: &mut Vec<u8>) {
        let r = self.0;
        let vals: Vec<u128> = vec![r.account_id, r.timestamp_min as u128, r.timestamp_max as u128, r.limit as u128, r.flags as u128, 0, 0];
        let ws = filter_width_vec();
        proof {
            lemma_pow256_widths();
            assert(values_of(vals@) =~= filter_fields(r));
        }
        write_fields(out, &vals, &ws);
    }

    fn decode_at(b: &[u8], off: usize) -> (r: Self) {
        let ws = filter_width_vec();
        proof {
            reveal_with_fuel(crate::codec::offset, 9);
        }
        assert(total(widths_of(ws@)) == 64);
        let v = read_fields(b, off, &ws);
        proof {
            lemma_pow256_widths();
            assert(v@[0] as nat == values_of(v@)[0]);
            assert(v@[1] as nat == values_of(v@)[1]);
            assert(v@[2] as nat == values_of(v@)[2]);
            assert(v@[3] as nat == values_of(v@)[3]);
            assert(v@[4] as nat == values_of(v@)[4]);
        }
        Filter(RawFilter {
            account_id: v[0],
            timestamp_min: v[1] as u64,
            timestamp_max: v[2] as u64,
            limit: v[3] as u32,
            flags: v[4] as u32,
        })
    }

    proof fn lemma_record_round_trip(&self) {
        lemma_pow256_widths();
        reveal_with_fuel(crate::codec::offset, 9);
        let vals = filter_fields(self.0);
        assert(fits(vals, filter_widths()));
        lemma_layout_round_trip(vals, filter_widths());
        assert(total(filter_widths()) == 64);
    }
}

impl RawFilter {
    pub open spec fn zeroed_spec() -> RawFilter {
        RawFilter {
            account_id: 0,
            timestamp_min: 0,
            timestamp_max: 0,
            limit: 0,
            flags: 0,
        }
    }

    /// The record with every field zero.
    pub fn zeroed() -> (r: RawFilter)
        ensures
            r == RawFilter::zeroed_spec(),
    {
        RawFilter {
            account_id: 0,
            timestamp_min: 0,
            timestamp_max: 0,
            limit: 0,
            flags: 0,
        }
    }
}

impl Filter {
    /// A new filter: all fields zero but `account_id` and `limit`.
    pub fn new(account_id: u128, limit: u32) -> (r: Self)
        requires
            limit != 0,
        ensures
            r@ == (RawFilter { account_id, limit, ..RawFilter::zeroed_spec() }),
    {
        Filter(RawFilter::zeroed()).with_account_id(account_id).with_limit(limit)
    }

    pub fn from_raw(raw: RawFilter) -> (r: Self)
        ensures
            r@ == raw,
    {
        Filter(raw)
    }

    pub fn into_raw(self) -> (r: RawFilter)
        ensures
            r == self@,
    {
        self.0
    }

    pub fn as_raw(&self) -> (r: &RawFilter)
        ensures
            *r == self@,
    {
        &self.0
    }

    pub fn as_raw_mut(&mut self) -> (r: &mut RawFilter)
        ensures
            *r == old(self)@,
            final(self)@ == *final(r),
    {
        &mut self.0
    }

    pub fn account_id(&self) -> (r: u128)
        ensures
            r == self@.account_id,
    {
        self.0.account_id
    }

    pub fn set_account_id(&mut self, account_id: u128)
        requires
            account_id != u128::MAX,
        ensures
            final(self)@ == (RawFilter { account_id, ..old(self)@ }),
    {
        self.0.account_id = account_id;
    }

    pub fn with_account_id(self, account_id: u128) -> (r: Self)
        ensures
            r@ == (RawFilter { account_id, ..self@ }),
    {
        let mut this = self;
        this.0.account_id = account_id;
        this
    }

    /// Lower bound of the timestamps, in nanoseconds since the Unix epoch.
    pub fn timestamp_min(&self) -> (r: u64)
        ensures
            r == self@.timestamp_min,
    {
        self.0.timestamp_min
    }

    pub fn set_timestamp_min(&mut self, timestamp_min: u64)
        requires
            timestamp_min != u64::MAX,
        ensures
            final(self)@ == (RawFilter { timestamp_min, ..old(self)@ }),
    {
        self.0.timestamp_min = timestamp_min;
    }

    pub fn with_timestamp_min(self, timestamp_min: u64) -> (r: Self)
        requires
            timestamp_min != u64::MAX,
        ensures
            r@ == (RawFilter { timestamp_min, ..self@ }),
    {
        let mut this = self;
        this.set_timestamp_min(timestamp_min);
        this
    }

    /// Upper bound of the timestamps, in nanoseconds since the Unix epoch.
    pub fn timestamp_max(&self) -> (r: u64)
        ensures
            r == self@.timestamp_max,
    {
        self.0.timestamp_max
    }

    pub fn set_timestamp_max(&mut self, timestamp_max: u64)
        requires
            timestamp_max != u64::MAX,
        ensures
            final(self)@ == (RawFilter { timestamp_max, ..old(self)@ }),
    {
        self.0.timestamp_max = timestamp_max;
    }

    pub fn with_timestamp_max(self, timestamp_max: u64) -> (r: Self)
        requires
            timestamp_max != u64::MAX,
        ensures
            r@ == (RawFilter { timestamp_max, ..self@ }),
    {
        let mut this = self;
        this.set_timestamp_max(timestamp_max);
        this
    }

    pub fn limit(&self) -> (r: u32)
        ensures
            r == self@.limit,
    {
        self.0.limit
    }

    pub fn set_limit(&mut self, limit: u32)
        requires
            limit != 0,
        ensures
            final(self)@ == (RawFilter { limit, ..old(self)@ }),
    {
        self.0.limit = limit;
    }

    pub fn with_limit(self, limit: u32) -> (r: Self)
        requires
            limit != 0,
        ensures
            r@ == (RawFilter { limit, ..self@ }),
    {
        let mut this = self;
        this.set_limit(limit);
        this
    }

    /// The flag bits.
    pub fn flags(&self) -> (r: u32)
        ensures
            r == self@.flags,
    {
        self.0.flags
    }

    pub fn set_flags(&mut self, flags: u32)
        ensures
            final(self)@ == (RawFilter { flags, ..old(self)@ }),
    {
        self.0.flags = flags;
    }

    pub fn with_flags(self, flags: u32) -> (r: Self)
        ensures
            r@ == (RawFilter { flags, ..self@ }),
    {
        let mut this = self;
        this.set_flags(flags);
        this
    }

}

} // verus!
