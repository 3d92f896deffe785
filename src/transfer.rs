//! Transfers: the record of a movement of an amount between two accounts.

use vstd::prelude::*;

use crate::codec::{
    fits, layout_bytes, layout_values, lemma_layout_round_trip, lemma_pow256_widths, read_fields,
    total, values_of, widths_of, write_fields, Record,
};

verus! {

/// The wire layout of a transfer, reserved space left out.
#[derive(Clone, Copy, Debug, PartialEq, Eq)]
pub struct RawTransfer {
    pub id: u128,
    pub debit_account_id: u128,
    pub credit_account_id: u128,
    pub user_data: u128,
    pub pending_id: u128,
    pub timeout: u64,
    pub ledger: u32,
    pub code: u16,
    pub flags: u16,
    pub amount: u64,
    pub timestamp: u64,
}

/// A transfer record.
#[derive(Clone, Copy, Debug, PartialEq, Eq)]
pub struct Transfer(RawTransfer);

impl View for Transfer {
    type V = RawTransfer;

    closed spec fn view(&self) -> RawTransfer {
        self.0
    }
}

/// Byte widths of the fields of a transfer on the wire, reserved space included.
pub open spec fn transfer_widths() -> Seq<nat> {
    seq![16nat, 16, 16, 16, 16, 16, 8, 4, 2, 2, 8, 8]
}

/// The field values of a transfer in wire order; reserved space is zero.
pub open spec fn transfer_fields(r: RawTransfer) -> Seq<nat> {
    seq![r.id as nat, r.debit_account_id as nat, r.credit_account_id as nat, r.user_data as nat, 0nat, r.pending_id as nat, r.timeout as nat, r.ledger as nat, r.code as nat, r.flags as nat, r.amount as nat, r.timestamp as nat]
}

/// The transfer whose fields are `v`, in wire order.
pub open spec fn transfer_from_fields(v: Seq<nat>) -> RawTransfer {
    RawTransfer {
        id: v[0] as u128,
        debit_account_id: v[1] as u128,
        credit_account_id: v[2] as u128,
        user_data: v[3] as u128,
        pending_id: v[5] as u128,
        timeout: v[6] as u64,
        ledger: v[7] as u32,
        code: v[8] as u16,
        flags: v[9] as u16,
        amount: v[10] as u64,
        timestamp: v[11] as u64,
    }
}

fn transfer_width_vec() -> (r: Vec<usize>)
    ensures
        widths_of(r@) == transfer_widths(),
        forall|i: int| 0 <= i < r@.len() ==> #[trigger] r@[i] <= 16,
{
    let r: Vec<usize> = vec![16, 16, 16, 16, 16, 16, 8, 4, 2, 2, 8, 8];
    assert(widths_of(r@) =~= transfer_widths());
    r
}

impl Record for Transfer {
    open spec fn spec_size() -> nat {
        128
    }

    closed spec fn spec_to_bytes(&self) -> Seq<u8> {
        layout_bytes(transfer_fields(self.0), transfer_widths())
    }

    closed spec fn spec_from_bytes(b: Seq<u8>) -> Self {
        Transfer(transfer_from_fields(layout_values(b, transfer_widths())))
    }

    fn byte_size() -> (r: usize) {
        128
    }

    fn encode_into(&self, out: &mut Vec<u8>) {
        let r = self.0;
        let vals: Vec<u128> = vec![r.id, r.debit_account_id, r.credit_account_id, r.user_data, 0, r.pending_id, r.timeout as u128, r.ledger as u128, r.code as u128, r.flags as u128, r.amount as u128, r.timestamp as u128];
        let ws = transfer_width_vec();
        proof {
            lemma_pow256_widths();
            assert(values_of(vals@) =~= transfer_fields(r));
        }
        write_fields(out, &vals, &ws);
    }

    fn decode_at(b: &[u8], off: usize) -> (r: Self) {
        let ws = transfer_width_vec();
        proof {
            reveal_with_fuel(crate::codec::offset, 14);
        }
        assert(total(widths_of(ws@)) == 128);
        let v = read_fields(b, off, &ws);
        proof {
            lemma_pow256_widths();
            assert(v@[0] as nat == values_of(v@)[0]);
            assert(v@[1] as nat == values_of(v@)[1]);
            assert(v@[2] as nat == values_of(v@)[2]);
            assert(v@[3] as nat == values_of(v@)[3]);
            assert(v@[5] as nat == values_of(v@)[5]);
            assert(v@[6] as nat == values_of(v@)[6]);
            assert(v@[7] as nat == values_of(v@)[7]);
            assert(v@[8] as nat == values_of(v@)[8]);
            assert(v@[9] as nat == values_of(v@)[9]);
            assert(v@[10] as nat == values_of(v@)[10]);
            assert(v@[11] as nat == values_of(v@)[11]);
        }
        Transfer(RawTransfer {
            id: v[0],
            debit_account_id: v[1],
            credit_account_id: v[2],
            user_data: v[3],
            pending_id: v[5],
            timeout: v[6] as u64,
            ledger: v[7] as u32,
            code: v[8] as u16,
            flags: v[9] as u16,
            amount: v[10] as u64,
            timestamp: v[11] as u64,
        })
    }

    proof fn lemma_record_round_trip(&self) {
        lemma_pow256_widths();
        reveal_with_fuel(crate::codec::offset, 14);
        let vals = transfer_fields(self.0);
        assert(fits(vals, transfer_widths()));
        lemma_layout_round_trip(vals, transfer_widths());
        assert(total(transfer_widths()) == 128);
    }
}

impl RawTransfer {
    pub open spec fn zeroed_spec() -> RawTransfer {
        RawTransfer {
            id: 0,
            debit_account_id: 0,
            credit_account_id: 0,
            user_data: 0,
            pending_id: 0,
            timeout: 0,
            ledger: 0,
            code: 0,
            flags: 0,
            amount: 0,
            timestamp: 0,
        }
    }

    /// The record with every field zero.
    pub fn zeroed() -> (r: RawTransfer)
        ensures
            r == RawTransfer::zeroed_spec(),
    {
        RawTransfer {
            id: 0,
            debit_account_id: 0,
            credit_account_id: 0,
            user_data: 0,
            pending_id: 0,
            timeout: 0,
            ledger: 0,
            code: 0,
            flags: 0,
            amount: 0,
            timestamp: 0,
        }
    }
}

impl Transfer {
    /// A new transfer: all fields zero but `id`.
    pub fn new(id: u128) -> (r: Self)
        requires
            id != 0 && id != u128::MAX,
        ensures
            r@ == (RawTransfer { id, ..RawTransfer::zeroed_spec() }),
    {
        Transfer(RawTransfer::zeroed()).with_id(id)
    }

    pub fn from_raw(raw: RawTransfer) -> (r: Self)
        ensures
            r@ == raw,
    {
        Transfer(raw)
    }

    pub fn into_raw(self) -> (r: RawTransfer)
        ensures
            r == self@,
    {
        self.0
    }

    pub fn as_raw(&self) -> (r: &RawTransfer)
        ensures
            *r == self@,
    {
        &self.0
    }

    pub fn as_raw_mut(&mut self) -> (r: &mut RawTransfer)
        ensures
            *r == old(self)@,
            final(self)@ == *final(r),
    {
        &mut self.0
    }

    pub fn id(&self) -> (r: u128)
        ensures
            r == self@.id,
    {
        self.0.id
    }

    pub fn set_id(&mut self, id: u128)
        requires
            id != 0 && id != u128::MAX,
        ensures
            final(self)@ == (RawTransfer { id, ..old(self)@ }),
    {
        self.0.id = id;
    }

    pub fn with_id(self, id: u128) -> (r: Self)
        requires
            id != 0 && id != u128::MAX,
        ensures
            r@ == (RawTransfer { id, ..self@ }),
    {
        let mut this = self;
        this.set_id(id);
        this
    }

    pub fn debit_account_id(&self) -> (r: u128)
        ensures
            r == self@.debit_account_id,
    {
        self.0.debit_account_id
    }

    pub fn set_debit_account_id(&mut self, debit_account_id: u128)
        ensures
            final(self)@ == (RawTransfer { debit_account_id, ..old(self)@ }),
    {
        self.0.debit_account_id = debit_account_id;
    }

    pub fn with_debit_account_id(self, debit_account_id: u128) -> (r: Self)
        ensures
            r@ == (RawTransfer { debit_account_id, ..self@ }),
    {
        let mut this = self;
        this.set_debit_account_id(debit_account_id);
        this
    }

    pub fn credit_account_id(&self) -> (r: u128)
        ensures
            r == self@.credit_account_id,
    {
        self.0.credit_account_id
    }

    pub fn set_credit_account_id(&mut self, credit_account_id: u128)
        ensures
            final(self)@ == (RawTransfer { credit_account_id, ..old(self)@ }),
    {
        self.0.credit_account_id = credit_account_id;
    }

    pub fn with_credit_account_id(self, credit_account_id: u128) -> (r: Self)
        ensures
            r@ == (RawTransfer { credit_account_id, ..self@ }),
    {
        let mut this = self;
        this.set_credit_account_id(credit_account_id);
        this
    }

    pub fn user_data(&self) -> (r: u128)
        ensures
            r == self@.user_data,
    {
        self.0.user_data
    }

    pub fn set_user_data(&mut self, user_data: u128)
        ensures
            final(self)@ == (RawTransfer { user_data, ..old(self)@ }),
    {
        self.0.user_data = user_data;
    }

    pub fn with_user_data(self, user_data: u128) -> (r: Self)
        ensures
            r@ == (RawTransfer { user_data, ..self@ }),
    {
        let mut this = self;
        this.set_user_data(user_data);
        this
    }

    pub fn ledger(&self) -> (r: u32)
        ensures
            r == self@.ledger,
    {
        self.0.ledger
    }

    pub fn set_ledger(&mut self, ledger: u32)
        ensures
            final(self)@ == (RawTransfer { ledger, ..old(self)@ }),
    {
        self.0.ledger = ledger;
    }

    pub fn with_ledger(self, ledger: u32) -> (r: Self)
        ensures
            r@ == (RawTransfer { ledger, ..self@ }),
    {
        let mut this = self;
        this.set_ledger(ledger);
        this
    }

    pub fn code(&self) -> (r: u16)
        ensures
            r == self@.code,
    {
        self.0.code
    }

    pub fn set_code(&mut self, code: u16)
        ensures
            final(self)@ == (RawTransfer { code, ..old(self)@ }),
    {
        self.0.code = code;
    }

    pub fn with_code(self, code: u16) -> (r: Self)
        ensures
            r@ == (RawTransfer { code, ..self@ }),
    {
        let mut this = self;
        this.set_code(code);
        this
    }

    pub fn pending_id(&self) -> (r: u128)
        ensures
            r == self@.pending_id,
    {
        self.0.pending_id
    }

    pub fn set_pending_id(&mut self, pending_id: u128)
        ensures
            final(self)@ == (RawTransfer { pending_id, ..old(self)@ }),
    {
        self.0.pending_id = pending_id;
    }

    pub fn with_pending_id(self, pending_id: u128) -> (r: Self)
        ensures
            r@ == (RawTransfer { pending_id, ..self@ }),
    {
        let mut this = self;
        this.set_pending_id(pending_id);
        this
    }

    /// The flag bits.
    pub fn flags(&self) -> (r: u16)
        ensures
            r == self@.flags,
    {
        self.0.flags
    }

    pub fn set_flags(&mut self, flags: u16)
        ensures
            final(self)@ == (RawTransfer { flags, ..old(self)@ }),
    {
        self.0.flags = flags;
    }

    pub fn with_flags(self, flags: u16) -> (r: Self)
        ensures
            r@ == (RawTransfer { flags, ..self@ }),
    {
        let mut this = self;
        this.set_flags(flags);
        this
    }

    /// Timeout of a pending transfer, in nanoseconds.
    pub fn timeout(&self) -> (r: u64)
        ensures
            r == self@.timeout,
    {
        self.0.timeout
    }

    pub fn set_timeout(&mut self, timeout: u64)
        ensures
            final(self)@ == (RawTransfer { timeout, ..old(self)@ }),
    {
        self.0.timeout = timeout;
    }

    pub fn with_timeout(self, timeout: u64) -> (r: Self)
        ensures
            r@ == (RawTransfer { timeout, ..self@ }),
    {
        let mut this = self;
        this.set_timeout(timeout);
        this
    }

    pub fn amount(&self) -> (r: u64)
        ensures
            r == self@.amount,
    {
        self.0.amount
    }

    pub fn set_amount(&mut self, amount: u64)
        ensures
            final(self)@ == (RawTransfer { amount, ..old(self)@ }),
    {
        self.0.amount = amount;
    }

    pub fn with_amount(self, amount: u64) -> (r: Self)
        ensures
            r@ == (RawTransfer { amount, ..self@ }),
    {
        let mut this = self;
        this.set_amount(amount);
        this
    }

    /// Nanoseconds since the Unix epoch at which the cluster created the transfer.
    pub fn timestamp(&self) -> (r: u64)
        ensures
            r == self@.timestamp,
    {
        self.0.timestamp
    }

}

} // verus!
