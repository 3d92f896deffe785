use tigerbeetle_unofficial::account::Account;
use tigerbeetle_unofficial::balance::{Balance, RawBalance};
use tigerbeetle_unofficial::codec::{encode_batch, Record};
use tigerbeetle_unofficial::error::{
    CreateAccountErrorKind, CreateAccountsError, CreateTransfersError,
    RawCreateAccountsIndividualApiResult, RawCreateTransfersIndividualApiResult, SendError,
    SendErrorKind,
};
use tigerbeetle_unofficial::operation::OperationKind;
use tigerbeetle_unofficial::reply::{reply_item_size, Reply};
use tigerbeetle_unofficial::request::{
    finish_create_accounts, finish_create_transfers, finish_lookup_accounts, finish_lookup_transfers,
};
use tigerbeetle_unofficial::transfer::Transfer;

fn results(v: &[(u32, u32)]) -> Vec<u8> {
    let raws: Vec<RawCreateAccountsIndividualApiResult> = v
        .iter()
        .map(|(index, result)| RawCreateAccountsIndividualApiResult { index: *index, result: *result })
        .collect();
    encode_batch(&raws)
}

#[test]
fn item_sizes() {
    assert_eq!(reply_item_size(OperationKind::CreateAccounts), Some(8));
    assert_eq!(reply_item_size(OperationKind::LookupTransfers), Some(128));
    assert_eq!(reply_item_size(OperationKind::UnstableUncategorized), None);
}

#[test]
fn create_accounts_reply_with_no_entries_is_success() {
    let r = Reply::copy_from_reply(OperationKind::CreateAccounts, &[]).unwrap();
    assert!(r.into_create_accounts().is_ok());
}

#[test]
fn create_accounts_reply_lists_refusals() {
    let bytes = results(&[(1, 21), (4, 14)]);
    assert_eq!(bytes.len(), 16);
    assert_eq!(bytes[0], 1);
    assert_eq!(bytes[4], 21);
    let r = Reply::copy_from_reply(OperationKind::CreateAccounts, &bytes).unwrap();
    let e = r.into_create_accounts().unwrap_err();
    let s = e.as_slice();
    assert_eq!(s.len(), 2);
    assert_eq!(s[0].index(), 1);
    assert_eq!(s[0].kind(), CreateAccountErrorKind::Exists);
    assert_eq!(s[1].index(), 4);
    assert_eq!(s[1].kind(), CreateAccountErrorKind::CodeMustNotBeZero);
}

#[test]
fn reply_of_partial_entries_is_refused() {
    assert!(Reply::copy_from_reply(OperationKind::CreateAccounts, &[0u8; 7]).is_none());
    assert!(Reply::copy_from_reply(OperationKind::LookupAccounts, &[0u8; 130]).is_none());
    assert!(Reply::copy_from_reply(OperationKind::UnstableUncategorized, &[]).is_none());
    assert!(finish_lookup_accounts(Ok(vec![1u8; 5])).is_none());
}

#[test]
fn lookup_replies_decode_the_records() {
    let a = vec![Account::new(1, 777, 2), Account::new(2, 777, 2)];
    let bytes = encode_batch(&a);
    let r = Reply::copy_from_reply(OperationKind::LookupAccounts, &bytes).unwrap();
    assert_eq!(r.into_lookup_accounts(), a);

    let t = vec![Transfer::new(3).with_amount(10)];
    let bytes = encode_batch(&t);
    let r = Reply::copy_from_reply(OperationKind::LookupTransfers, &bytes).unwrap();
    assert_eq!(r.into_lookup_transfers(), t);
    let r = Reply::copy_from_reply(OperationKind::GetAccountTransfers, &bytes).unwrap();
    assert_eq!(r.into_get_account_transfers(), t);

    let b = vec![Balance::from_raw(RawBalance::zeroed()).with_credits_posted(9)];
    let bytes = encode_batch(&b);
    let r = Reply::copy_from_reply(OperationKind::GetAccountBalances, &bytes).unwrap();
    assert_eq!(r.into_get_account_balances(), b);
}

#[test]
fn create_transfers_reply() {
    let raws = vec![RawCreateTransfersIndividualApiResult { index: 0, result: 46 }];
    let bytes = encode_batch(&raws);
    let r = Reply::copy_from_reply(OperationKind::CreateTransfers, &bytes).unwrap();
    let e = r.into_create_transfers().unwrap_err();
    assert_eq!(e.as_slice()[0].inner().code(), 46);
    match finish_create_transfers(Ok(bytes)).unwrap() {
        Err(CreateTransfersError::Api(e)) => assert_eq!(e.as_slice().len(), 1),
        other => panic!("unexpected {other:?}"),
    }
    assert!(finish_create_transfers(Ok(Vec::new())).unwrap().is_ok());
}

#[test]
fn finish_create_accounts_outcomes() {
    assert!(finish_create_accounts(Ok(results(&[]))).unwrap().is_ok());
    match finish_create_accounts(Ok(results(&[(0, 6)]))).unwrap() {
        Err(CreateAccountsError::Api(e)) => {
            assert_eq!(e.as_slice()[0].kind(), CreateAccountErrorKind::IdMustNotBeZero)
        }
        other => panic!("unexpected {other:?}"),
    }
    let send = SendError::new(1).unwrap();
    match finish_create_accounts(Err(send)).unwrap() {
        Err(CreateAccountsError::Send(e)) => assert_eq!(e.kind(), SendErrorKind::TooMuchData),
        other => panic!("unexpected {other:?}"),
    }
    assert!(finish_create_accounts(Ok(vec![0u8; 3])).is_none());
}

#[test]
fn finish_lookups() {
    let a = vec![Account::new(8, 1, 1)];
    let got = finish_lookup_accounts(Ok(encode_batch(&a))).unwrap().unwrap();
    assert_eq!(got, a);
    let send = SendError::new(2).unwrap();
    assert_eq!(finish_lookup_transfers(Err(send)).unwrap().unwrap_err().code(), 2);
    assert!(finish_lookup_transfers(Ok(Vec::new())).unwrap().unwrap().is_empty());
    assert_eq!(Transfer::byte_size(), 128);
}
