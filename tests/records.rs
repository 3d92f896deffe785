use tigerbeetle_unofficial::account::{Account, RawAccount};
use tigerbeetle_unofficial::balance::{Balance, RawBalance};
use tigerbeetle_unofficial::codec::{decode_batch, encode_batch, Record};
use tigerbeetle_unofficial::filter::{Filter, RawFilter};
use tigerbeetle_unofficial::transfer::{RawTransfer, Transfer};

#[test]
fn account_new_sets_three_fields() {
    let a = Account::new(1, 777, 2);
    assert_eq!(a.id(), 1);
    assert_eq!(a.ledger(), 777);
    assert_eq!(a.code(), 2);
    assert_eq!(a.user_data_128(), 0);
    assert_eq!(a.debits_posted(), 0);
    assert_eq!(a.credits_posted(), 0);
    assert_eq!(a.flags(), 0);
    assert_eq!(a.timestamp(), 0);
}

#[test]
fn account_setters_and_builders() {
    let mut a = Account::new(5, 1, 1)
        .with_user_data_128(10)
        .with_user_data_64(11)
        .with_user_data_32(12)
        .with_flags(0b101);
    a.set_id(6);
    a.set_ledger(9);
    a.set_code(3);
    a.set_user_data_64(99);
    assert_eq!(a.id(), 6);
    assert_eq!(a.ledger(), 9);
    assert_eq!(a.code(), 3);
    assert_eq!(a.user_data_128(), 10);
    assert_eq!(a.user_data_64(), 99);
    assert_eq!(a.user_data_32(), 12);
    assert_eq!(a.flags(), 0b101);
    let raw = a.into_raw();
    assert_eq!(Account::from_raw(raw), a);
    assert_eq!(a.as_raw().id, 6);
    a.as_raw_mut().debits_pending = 4;
    assert_eq!(a.debits_pending(), 4);
}

#[test]
fn account_bytes_are_little_endian_at_fixed_offsets() {
    let a = Account::new(0x0102, 7, 3).with_user_data_64(0xAABB);
    let mut out = Vec::new();
    a.encode_into(&mut out);
    assert_eq!(out.len(), 128);
    assert_eq!(Account::byte_size(), 128);
    assert_eq!(out[0], 0x02);
    assert_eq!(out[1], 0x01);
    assert!(out[2..16].iter().all(|b| *b == 0));
    // user_data_64 after six 16-byte fields
    assert_eq!(out[96], 0xBB);
    assert_eq!(out[97], 0xAA);
    // ledger after user_data_32 and reserved
    assert_eq!(out[112], 7);
    // code
    assert_eq!(out[116], 3);
    assert_eq!(Account::decode_at(&out, 0), a);
}

#[test]
fn transfer_fields() {
    let mut t = Transfer::new(9)
        .with_debit_account_id(1)
        .with_credit_account_id(2)
        .with_code(2)
        .with_ledger(777)
        .with_amount(1)
        .with_pending_id(4)
        .with_user_data(8)
        .with_timeout(1_000)
        .with_flags(2);
    assert_eq!(t.id(), 9);
    assert_eq!(t.debit_account_id(), 1);
    assert_eq!(t.credit_account_id(), 2);
    assert_eq!(t.code(), 2);
    assert_eq!(t.ledger(), 777);
    assert_eq!(t.amount(), 1);
    assert_eq!(t.pending_id(), 4);
    assert_eq!(t.user_data(), 8);
    assert_eq!(t.timeout(), 1_000);
    assert_eq!(t.flags(), 2);
    assert_eq!(t.timestamp(), 0);
    t.set_amount(50);
    t.set_id(10);
    assert_eq!(t.amount(), 50);
    assert_eq!(t.id(), 10);
    let raw: RawTransfer = t.into_raw();
    assert_eq!(raw.amount, 50);
    let mut out = Vec::new();
    t.encode_into(&mut out);
    assert_eq!(out.len(), 128);
    assert_eq!(Transfer::decode_at(&out, 0), t);
}

#[test]
fn balance_fields() {
    let b = Balance::from_raw(RawBalance::zeroed())
        .with_debits_pending(1)
        .with_debits_posted(2)
        .with_credits_pending(3)
        .with_credits_posted(4);
    assert_eq!(b.debits_pending(), 1);
    assert_eq!(b.debits_posted(), 2);
    assert_eq!(b.credits_pending(), 3);
    assert_eq!(b.credits_posted(), 4);
    assert_eq!(b.timestamp(), 0);
    let mut out = Vec::new();
    b.encode_into(&mut out);
    assert_eq!(out.len(), 128);
    assert!(out[72..].iter().all(|x| *x == 0));
    assert_eq!(Balance::decode_at(&out, 0), b);
}

#[test]
fn filter_fields() {
    let mut f = Filter::new(42, 10).with_timestamp_min(5).with_timestamp_max(6).with_flags(3);
    assert_eq!(f.account_id(), 42);
    assert_eq!(f.limit(), 10);
    assert_eq!(f.timestamp_min(), 5);
    assert_eq!(f.timestamp_max(), 6);
    assert_eq!(f.flags(), 3);
    f.set_limit(1);
    f.set_account_id(7);
    assert_eq!(f.limit(), 1);
    assert_eq!(f.account_id(), 7);
    assert_eq!(Filter::byte_size(), 64);
    let mut out = Vec::new();
    f.encode_into(&mut out);
    assert_eq!(out.len(), 64);
    assert_eq!(out[0], 7);
    assert_eq!(out[16], 5);
    assert_eq!(out[24], 6);
    assert_eq!(out[32], 1);
    assert_eq!(out[36], 3);
    assert_eq!(Filter::decode_at(&out, 0), f);
    let raw: RawFilter = f.into_raw();
    assert_eq!(raw.limit, 1);
}

#[test]
fn raw_account_zeroed_is_all_zero() {
    let raw = RawAccount::zeroed();
    let mut out = Vec::new();
    Account::from_raw(raw).encode_into(&mut out);
    assert!(out.iter().all(|b| *b == 0));
}

fn accounts(k: usize) -> Vec<Account> {
    (0..k)
        .map(|i| {
            Account::new(i as u128 + 1, 777, 2)
                .with_user_data_128(u128::MAX - i as u128)
                .with_user_data_64(i as u64 * 3)
                .with_user_data_32(i as u32)
        })
        .collect()
}

#[test]
fn batch_round_trip_for_several_sizes() {
    // empty, one, a typical batch, and the most a message body holds
    for k in [0usize, 1, 100, 8190] {
        let v = accounts(k);
        let bytes = encode_batch(&v);
        assert_eq!(bytes.len(), k * 128);
        let back: Vec<Account> = decode_batch(&bytes).unwrap();
        assert_eq!(back.len(), k);
        assert_eq!(back, v);
    }
}

#[test]
fn batch_of_ids_round_trip() {
    let ids: Vec<u128> = vec![1, 2, u128::MAX];
    let bytes = encode_batch(&ids);
    assert_eq!(bytes.len(), 48);
    assert_eq!(bytes[16], 2);
    assert_eq!(bytes[32..48], [0xFF; 16]);
    let back: Vec<u128> = decode_batch(&bytes).unwrap();
    assert_eq!(back, ids);
}

#[test]
fn partial_record_is_not_decoded() {
    let bytes = vec![0u8; 129];
    assert!(decode_batch::<Account>(&bytes).is_none());
    assert!(decode_batch::<u128>(&bytes[..17]).is_none());
}
