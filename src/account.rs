//! Accounts: the record that the cluster keeps for each account.

use vstd::prelude::*;

use crate::codec::{
    fits, layout_bytes, layout_values, lemma_layout_round_trip, lemma_pow256_widths, read_fields,
    total, values_of, widths_of, write_fields, Record,
};

verus! {

/// The wire layout of an account, reserved space left out.
#[derive(Clone, Copy, Debug, PartialEq, Eq)]
pub struct RawAccount {
    pub id: u128,
    pub debits_pending: u128,
    pub debits_posted: u128,
    pub credits_pending: u128,
    pub credits_posted: u128,
    pub user_data_128: u128,
    pub user_data_64: u64,
    pub user_data_32: u32,
    pub ledger: u32,
    pub code: u16,
    pub flags: u16,
    pub timestamp: u64,
}

/// An account record.
#[derive(Clone, Copy, Debug, PartialEq, Eq)]
pub struct Account(RawAccount);

impl View for Account {
    type V = RawAccount;

    closed spec fn view(&self) -> RawAccount {
        self.0
    }
}

/// Byte widths of the fields of a account on the wire, reserved space included.
pub open spec fn account_widths() -> Seq<nat> {
    seq![16nat, 16, 16, 16, 16, 16, 8, 4, 4, 4, 2, 2, 8]
}

/// The field values of a account in wire order; reserved space is zero.
pub open spec fn account_fields(r: RawAccount) -> Seq<nat> {
    seq![r.id as nat, r.debits_pending as nat, r.debits_posted as nat, r.credits_pending as nat, r.credits_posted as nat, r.user_data_128 as nat, r.user_data_64 as nat, r.user_data_32 as nat, 0nat, r.ledger as nat, r.code as nat, r.flags as nat, r.timestamp as nat]
}

/// The account whose fields are `v`, in wire order.
pub open spec fn account_from_fields(v: Seq<nat>) -> RawAccount {
    RawAccount {
        id: v[0] as u128,
        debits_pending: v[1] as u128,
        debits_posted: v[2] as u128,
        credits_pending: v[3] as u128,
        credits_posted: v[4] as u128,
        user_data_128: v[5] as u128,
        user_data_64: v[6] as u64,
        user_data_32: v[7] as u32,
        ledger: v[9] as u32,
        code: v[10] as u16,
        flags: v[11] as u16,
        timestamp: v[12] as u64,
    }
}

fn account_width_vec() -> (r: Vec<usize>)
    ensures
        widths_of(r@) == account_widths(),
        forall|i: int| 0 <= i < r@.len() ==> #[trigger] r@[i] <= 16,
{
    let r: Vec<usize> = vec![16, 16, 16, 16, 16, 16, 8, 4, 4, 4, 2, 2, 8];
    assert(widths_of(r@) =~= account_widths());
    r
}

impl Record for Account {
    open spec fn spec_size() -> nat {
        128
    }

    closed spec fn spec_to_bytes(&self) -> Seq<u8> {
        layout_bytes(account_fields(self.0), account_widths())
    }

    closed spec fn spec_from_bytes(b: Seq<u8>) -> Self {
        Account(account_from_fields(layout_values(b, account_widths())))
    }

    fn byte_size() -> (r: usize) {
        128
    }

    fn encode_into(&self, out: &mut Vec<u8>) {
        let r = self.0;
        let vals: Vec<u128> = vec![r.id, r.debits_pending, r.debits_posted, r.credits_pending, r.credits_posted, r.user_data_128, r.user_data_64 as u128, r.user_data_32 as u128, 0, r.ledger as u128, r.code as u128, r.flags as u128, r.timestamp as u128];
        let ws = account_width_vec();
        proof {
            lemma_pow256_widths();
            assert(values_of(vals@) =~= account_fields(r));
        }
        write_fields(out, &vals, &ws);
    }

    fn decode_at(b: &[u8], off: usize) -> (r: Self) {
        let ws = account_width_vec();
        proof {
            reveal_with_fuel(crate::codec::offset, 15);
        }
        assert(total(widths_of(ws@)) == 128);
        let v = read_fields(b, off, &ws);
        proof {
            lemma_pow256_widths();
            assert(v@[0] as nat == values_of(v@)[0]);
            assert(v@[1] as nat == values_of(v@)[1]);
            assert(v@[2] as nat == values_of(v@)[2]);
            assert(v@[3] as nat == values_of(v@)[3]);
            assert(v@[4] as nat == values_of(v@)[4]);
            assert(v@[5] as nat == values_of(v@)[5]);
            assert(v@[6] as nat == values_of(v@)[6]);
            assert(v@[7] as nat == values_of(v@)[7]);
            assert(v@[9] as nat == values_of(v@)[9]);
            assert(v@[10] as nat == values_of(v@)[10]);
            assert(v@[11] as nat == values_of(v@)[11]);
            assert(v@[12] as nat == values_of(v@)[12]);
        }
        Account(RawAccount {
            id: v[0],
            debits_pending: v[1],
            debits_posted: v[2],
            credits_pending: v[3],
            credits_posted: v[4],
            user_data_128: v[5],
            user_data_64: v[6] as u64,
            user_data_32: v[7] as u32,
            ledger: v[9] as u32,
            code: v[10] as u16,
            flags: v[11] as u16,
            timestamp: v[12] as u64,
        })
    }

    proof fn lemma_record_round_trip(&self) {
        lemma_pow256_widths();
        reveal_with_fuel(crate::codec::offset, 15);
        let vals = account_fields(self.0);
        assert(fits(vals, account_widths()));
        lemma_layout_round_trip(vals, account_widths());
        assert(total(account_widths()) == 128);
    }
}

impl RawAccount {
    pub open spec fn zeroed_spec() -> RawAccount {
        RawAccount {
            id: 0,
            debits_pending: 0,
            debits_posted: 0,
            credits_pending: 0,
            credits_posted: 0,
            user_data_128: 0,
            user_data_64: 0,
            user_data_32: 0,
            ledger: 0,
            code: 0,
            flags: 0,
            timestamp: 0,
        }
    }

    /// The record with every field zero.
    pub fn zeroed() -> (r: RawAccount)
        ensures
            r == RawAccount::zeroed_spec(),
    {
        RawAccount {
            id: 0,
            debits_pending: 0,
            debits_posted: 0,
            credits_pending: 0,
            credits_posted: 0,
            user_data_128: 0,
            user_data_64: 0,
            user_data_32: 0,
            ledger: 0,
            code: 0,
            flags: 0,
            timestamp: 0,
        }
    }
}

impl Account {
    /// A new account: all fields zero but `id`, `ledger` and `code`.
    pub fn new(id: u128, ledger: u32, code: u16) -> (r: Self)
        requires
            id != 0 && id != u128::MAX,
            ledger != 0,
            code != 0,
        ensures
            r@ == (RawAccount { id, ledger, code, ..RawAccount::zeroed_spec() }),
    {
        Account(RawAccount::zeroed()).with_id(id).with_ledger(ledger).with_code(code)
    }

    pub fn from_raw(raw: RawAccount) -> (r: Self)
        ensures
            r@ == raw,
    {
        Account(raw)
    }

    pub fn into_raw(self) -> (r: RawAccount)
        ensures
            r == self@,
    {
        self.0
    }

    pub fn as_raw(&self) -> (r: &RawAccount)
        ensures
            *r == self@,
    {
        &self.0
    }

    pub fn as_raw_mut(&mut self) -> (r: &mut RawAccount)
        ensures
            *r == old(self)@,
            final(self)@ == *final(r),
    {
        &mut self.0
    }

    pub fn id(&self) -> (r: u128)
        ensures
            r == self@.id,
    {
        self.0.id
    }

    pub fn set_id(&mut self, id: u128)
        requires
            id != 0 && id != u128::MAX,
        ensures
            final(self)@ == (RawAccount { id, ..old(self)@ }),
    {
        self.0.id = id;
    }

    pub fn with_id(self, id: u128) -> (r: Self)
        requires
            id != 0 && id != u128::MAX,
        ensures
            r@ == (RawAccount { id, ..self@ }),
    {
        let mut this = self;
        this.set_id(id);
        this
    }

    pub fn user_data_128(&self) -> (r: u128)
        ensures
            r == self@.user_data_128,
    {
        self.0.user_data_128
    }

    pub fn set_user_data_128(&mut self, user_data_128: u128)
        ensures
            final(self)@ == (RawAccount { user_data_128, ..old(self)@ }),
    {
        self.0.user_data_128 = user_data_128;
    }

    pub fn with_user_data_128(self, user_data_128: u128) -> (r: Self)
        ensures
            r@ == (RawAccount { user_data_128, ..self@ }),
    {
        let mut this = self;
        this.set_user_data_128(user_data_128);
        this
    }

    pub fn user_data_64(&self) -> (r: u64)
        ensures
            r == self@.user_data_64,
    {
        self.0.user_data_64
    }

    pub fn set_user_data_64(&mut self, user_data_64: u64)
        ensures
            final(self)@ == (RawAccount { user_data_64, ..old(self)@ }),
    {
        self.0.user_data_64 = user_data_64;
    }

    pub fn with_user_data_64(self, user_data_64: u64) -> (r: Self)
        ensures
            r@ == (RawAccount { user_data_64, ..self@ }),
    {
        let mut this = self;
        this.set_user_data_64(user_data_64);
        this
    }

    pub fn user_data_32(&self) -> (r: u32)
        ensures
            r == self@.user_data_32,
    {
        self.0.user_data_32
    }

    pub fn set_user_data_32(&mut self, user_data_32: u32)
        ensures
            final(self)@ == (RawAccount { user_data_32, ..old(self)@ }),
    {
        self.0.user_data_32 = user_data_32;
    }

    pub fn with_user_data_32(self, user_data_32: u32) -> (r: Self)
        ensures
            r@ == (RawAccount { user_data_32, ..self@ }),
    {
        let mut this = self;
        this.set_user_data_32(user_data_32);
        this
    }

    pub fn ledger(&self) -> (r: u32)
        ensures
            r == self@.ledger,
    {
        self.0.ledger
    }

    pub fn set_ledger(&mut self, ledger: u32)
        requires
            ledger != 0,
        ensures
            final(self)@ == (RawAccount { ledger, ..old(self)@ }),
    {
        self.0.ledger = ledger;
    }

    pub fn with_ledger(self, ledger: u32) -> (r: Self)
        requires
            ledger != 0,
        ensures
            r@ == (RawAccount { ledger, ..self@ }),
    {
        let mut this = self;
        this.set_ledger(ledger);
        this
    }

    pub fn code(&self) -> (r: u16)
        ensures
            r == self@.code,
    {
        self.0.code
    }

    pub fn set_code(&mut self, code: u16)
        requires
            code != 0,
        ensures
            final(self)@ == (RawAccount { code, ..old(self)@ }),
    {
        self.0.code = code;
    }

    pub fn with_code(self, code: u16) -> (r: Self)
        requires
            code != 0,
        ensures
            r@ == (RawAccount { code, ..self@ }),
    {
        let mut this = self;
        this.set_code(code);
        this
    }

    /// The flag bits.
    pub fn flags(&self) -> (r: u16)
        ensures
            r == self@.flags,
    {
        self.0.flags
    }

    pub fn set_flags(&mut self, flags: u16)
        ensures
            final(self)@ == (RawAccount { flags, ..old(self)@ }),
    {
        self.0.flags = flags;
    }

    pub fn with_flags(self, flags: u16) -> (r: Self)
        ensures
            r@ == (RawAccount { flags, ..self@ }),
    {
        let mut this = self;
        this.set_flags(flags);
        this
    }

    pub fn debits_pending(&self) -> (r: u128)
        ensures
            r == self@.debits_pending,
    {
        self.0.debits_pending
    }

    pub fn debits_posted(&self) -> (r: u128)
        ensures
            r == self@.debits_posted,
    {
        self.0.debits_posted
    }

    pub fn credits_pending(&self) -> (r: u128)
        ensures
            r == self@.credits_pending,
    {
        self.0.credits_pending
    }

    pub fn credits_posted(&self) -> (r: u128)
        ensures
            r == self@.credits_posted,
    {
        self.0.credits_posted
    }

    /// Nanoseconds since the Unix epoch at which the cluster created the account.
    pub fn timestamp(&self) -> (r: u64)
        ensures
            r == self@.timestamp,
    {
        self.0.timestamp
    }

}

} // verus!
