//! Replies of the cluster, decoded by the operation of the request.

use vstd::prelude::*;

use crate::account::Account;
use crate::balance::Balance;
use crate::codec::{batch_records, decode_batch, Record};
use crate::error::{
    refused_account_errors, refused_transfer_errors, views_account_errors,
    views_transfer_errors, CreateAccountsApiError, CreateTransfersApiError,
    RawCreateAccountsIndividualApiResult, RawCreateTransfersIndividualApiResult,
};
use crate::operation::OperationKind;
use crate::transfer::Transfer;

verus! {

/// Size in bytes of one record of the reply to `op`; zero for an unknown
/// operation.
pub open spec fn reply_item_size_spec(op: OperationKind) -> nat {
    match op {
        OperationKind::CreateAccounts => 8,
        OperationKind::CreateTransfers => 8,
        OperationKind::LookupAccounts => 128,
        OperationKind::LookupTransfers => 128,
        OperationKind::GetAccountTransfers => 128,
        OperationKind::GetAccountBalances => 128,
        OperationKind::UnstableUncategorized => 0,
    }
}

/// Size in bytes of one record of the reply to `op`; `None` for an unknown
/// operation.
pub fn reply_item_size(op: OperationKind) -> (r: Option<usize>)
    ensures
        op == OperationKind::UnstableUncategorized ==> r is None,
        op != OperationKind::UnstableUncategorized ==> r == Some(
            reply_item_size_spec(op) as usize,
        ),
{
    match op {
        OperationKind::CreateAccounts => Some(8),
        OperationKind::CreateTransfers => Some(8),
        OperationKind::LookupAccounts => Some(128),
        OperationKind::LookupTransfers => Some(128),
        OperationKind::GetAccountTransfers => Some(128),
        OperationKind::GetAccountBalances => Some(128),
        OperationKind::UnstableUncategorized => None,
    }
}

/// A decoded reply.
#[derive(Debug)]
pub enum Reply {
    CreateAccounts(Result<(), CreateAccountsApiError>),
    CreateTransfers(Result<(), CreateTransfersApiError>),
    GetAccountBalances(Vec<Balance>),
    GetAccountTransfers(Vec<Transfer>),
    LookupAccounts(Vec<Account>),
    LookupTransfers(Vec<Transfer>),
}

/// What a create-accounts reply `b` says: success where no entry records a
/// refusal, else exactly the refusals, in order.
pub open spec fn create_accounts_outcome(
    r: Result<(), CreateAccountsApiError>,
    b: Seq<u8>,
) -> bool {
    let refused = refused_account_errors(batch_records::<RawCreateAccountsIndividualApiResult>(b));
    match r {
        Ok(()) => refused.len() == 0,
        Err(e) => refused.len() > 0 && views_account_errors(e@) == refused,
    }
}

/// What a create-transfers reply `b` says: success where no entry records a
/// refusal, else exactly the refusals, in order.
pub open spec fn create_transfers_outcome(
    r: Result<(), CreateTransfersApiError>,
    b: Seq<u8>,
) -> bool {
    let refused = refused_transfer_errors(
        batch_records::<RawCreateTransfersIndividualApiResult>(b),
    );
    match r {
        Ok(()) => refused.len() == 0,
        Err(e) => refused.len() > 0 && views_transfer_errors(e@) == refused,
    }
}

impl Reply {
    /// Decodes the reply `payload` to a request of `operation`. `None` where
    /// the operation is unknown or the payload is not a whole number of
    /// records: a reply that cannot be read exactly is never read in part.
    pub fn copy_from_reply(operation: OperationKind, payload: &[u8]) -> (r: Option<Reply>)
        ensures
            r is Some <==> operation != OperationKind::UnstableUncategorized && payload@.len()
                % reply_item_size_spec(operation) == 0,
            r matches Some(Reply::CreateAccounts(x)) ==> operation == OperationKind::CreateAccounts
                && create_accounts_outcome(x, payload@),
            r matches Some(Reply::CreateTransfers(x)) ==> operation
                == OperationKind::CreateTransfers && create_transfers_outcome(x, payload@),
            r matches Some(Reply::GetAccountBalances(v)) ==> operation
                == OperationKind::GetAccountBalances && v@ == batch_records::<Balance>(payload@),
            r matches Some(Reply::GetAccountTransfers(v)) ==> operation
                == OperationKind::GetAccountTransfers && v@ == batch_records::<Transfer>(payload@),
            r matches Some(Reply::LookupAccounts(v)) ==> operation == OperationKind::LookupAccounts
                && v@ == batch_records::<Account>(payload@),
            r matches Some(Reply::LookupTransfers(v)) ==> operation
                == OperationKind::LookupTransfers && v@ == batch_records::<Transfer>(payload@),
    {
        match operation {
            OperationKind::CreateAccounts => {
                match decode_batch::<RawCreateAccountsIndividualApiResult>(payload) {
                    Some(results) => {
                        let e = CreateAccountsApiError::from_raw_results(results);
                        match e {
                            Some(e) => Some(Reply::CreateAccounts(Err(e))),
                            None => Some(Reply::CreateAccounts(Ok(()))),
                        }
                    },
                    None => None,
                }
            },
            OperationKind::CreateTransfers => {
                match decode_batch::<RawCreateTransfersIndividualApiResult>(payload) {
                    Some(results) => {
                        let e = CreateTransfersApiError::from_raw_results(results);
                        match e {
                            Some(e) => Some(Reply::CreateTransfers(Err(e))),
                            None => Some(Reply::CreateTransfers(Ok(()))),
                        }
                    },
                    None => None,
                }
            },
            OperationKind::GetAccountBalances => {
                match decode_batch::<Balance>(payload) {
                    Some(v) => Some(Reply::GetAccountBalances(v)),
                    None => None,
                }
            },
            OperationKind::GetAccountTransfers => {
                match decode_batch::<Transfer>(payload) {
                    Some(v) => Some(Reply::GetAccountTransfers(v)),
                    None => None,
                }
            },
            OperationKind::LookupAccounts => {
                match decode_batch::<Account>(payload) {
                    Some(v) => Some(Reply::LookupAccounts(v)),
                    None => None,
                }
            },
            OperationKind::LookupTransfers => {
                match decode_batch::<Transfer>(payload) {
                    Some(v) => Some(Reply::LookupTransfers(v)),
                    None => None,
                }
            },
            OperationKind::UnstableUncategorized => None,
        }
    }

    pub fn into_create_accounts(self) -> (r: Result<(), CreateAccountsApiError>)
        requires
            self is CreateAccounts,
        ensures
            self matches Reply::CreateAccounts(x) && r == x,
    {
        match self {
            Reply::CreateAccounts(out) => out,
            _ => Ok(()),
        }
    }

    pub fn into_create_transfers(self) -> (r: Result<(), CreateTransfersApiError>)
        requires
            self is CreateTransfers,
        ensures
            self matches Reply::CreateTransfers(x) && r == x,
    {
        match self {
            Reply::CreateTransfers(out) => out,
            _ => Ok(()),
        }
    }

    pub fn into_get_account_balances(self) -> (r: Vec<Balance>)
        requires
            self is GetAccountBalances,
        ensures
            self matches Reply::GetAccountBalances(x) && r == x,
    {
        match self {
            Reply::GetAccountBalances(out) => out,
            _ => Vec::new(),
        }
    }

    pub fn into_get_account_transfers(self) -> (r: Vec<Transfer>)
        requires
            self is GetAccountTransfers,
        ensures
            self matches Reply::GetAccountTransfers(x) && r == x,
    {
        match self {
            Reply::GetAccountTransfers(out) => out,
            _ => Vec::new(),
        }
    }

    pub fn into_lookup_accounts(self) -> (r: Vec<Account>)
        requires
            self is LookupAccounts,
        ensures
            self matches Reply::LookupAccounts(x) && r == x,
    {
        match self {
            Reply::LookupAccounts(out) => out,
            _ => Vec::new(),
        }
    }

    pub fn into_lookup_transfers(self) -> (r: Vec<Transfer>)
        requires
            self is LookupTransfers,
        ensures
            self matches Reply::LookupTransfers(x) && r == x,
    {
        match self {
            Reply::LookupTransfers(out) => out,
            _ => Vec::new(),
        }
    }
}

} // verus!
