//! What a caller gets back from a completed request: the decoded reply, or
//! why there is none.

use vstd::prelude::*;

use crate::account::Account;
use crate::codec::batch_records;
use crate::error::{
    views_account_errors, views_transfer_errors, refused_account_errors,
    refused_transfer_errors, CreateAccountsError, CreateTransfersError,
    RawCreateAccountsIndividualApiResult, RawCreateTransfersIndividualApiResult, SendError,
};
use crate::operation::OperationKind;
use crate::reply::Reply;
use crate::transfer::Transfer;

verus! {

/// The outcome of a create-accounts request from what its completion
/// handed back: the transport error, success where no entry of the reply
/// records a refusal, or the refusals. `None` where the reply is not a whole
/// number of entries.
pub fn finish_create_accounts(result: Result<Vec<u8>, SendError>) -> (r: Option<
    Result<(), CreateAccountsError>,
>)
    ensures
        result matches Err(e) ==> (r matches Some(Err(CreateAccountsError::Send(x))) && x == e),
        result matches Ok(b) ==> (r is Some <==> b@.len() % 8 == 0),
        result matches Ok(b) ==> ((r matches Some(Ok(()))) ==> refused_account_errors(
            batch_records::<RawCreateAccountsIndividualApiResult>(b@),
        ).len() == 0),
        result matches Ok(b) ==> (r matches Some(Err(x)) ==> (x matches CreateAccountsError::Api(e)
            && views_account_errors(e@) == refused_account_errors(
            batch_records::<RawCreateAccountsIndividualApiResult>(b@),
        ) && e@.len() > 0)),
{
    match result {
        Err(e) => Some(Err(CreateAccountsError::Send(e))),
        Ok(b) => match Reply::copy_from_reply(OperationKind::CreateAccounts, b.as_slice()) {
            Some(reply) => match reply.into_create_accounts() {
                Ok(()) => Some(Ok(())),
                Err(e) => Some(Err(CreateAccountsError::Api(e))),
            },
            None => None,
        },
    }
}

/// The outcome of a create-transfers request from what its completion
/// handed back: the transport error, success where no entry of the reply
/// records a refusal, or the refusals. `None` where the reply is not a whole
/// number of entries.
pub fn finish_create_transfers(result: Result<Vec<u8>, SendError>) -> (r: Option<
    Result<(), CreateTransfersError>,
>)
    ensures
        result matches Err(e) ==> (r matches Some(Err(CreateTransfersError::Send(x))) && x == e),
        result matches Ok(b) ==> (r is Some <==> b@.len() % 8 == 0),
        result matches Ok(b) ==> ((r matches Some(Ok(()))) ==> refused_transfer_errors(
            batch_records::<RawCreateTransfersIndividualApiResult>(b@),
        ).len() == 0),
        result matches Ok(b) ==> (r matches Some(Err(x)) ==> (x matches CreateTransfersError::Api(e)
            && views_transfer_errors(e@) == refused_transfer_errors(
            batch_records::<RawCreateTransfersIndividualApiResult>(b@),
        ) && e@.len() > 0)),
{
    match result {
        Err(e) => Some(Err(CreateTransfersError::Send(e))),
        Ok(b) => match Reply::copy_from_reply(OperationKind::CreateTransfers, b.as_slice()) {
            Some(reply) => match reply.into_create_transfers() {
                Ok(()) => Some(Ok(())),
                Err(e) => Some(Err(CreateTransfersError::Api(e))),
            },
            None => None,
        },
    }
}

/// The accounts that a lookup found, from what its completion handed back.
/// `None` where the reply is not a whole number of accounts.
pub fn finish_lookup_accounts(result: Result<Vec<u8>, SendError>) -> (r: Option<
    Result<Vec<Account>, SendError>,
>)
    ensures
        result matches Err(e) ==> (r matches Some(Err(x)) && x == e),
        result matches Ok(b) ==> (r is Some <==> b@.len() % 128 == 0),
        result matches Ok(b) ==> (r matches Some(Ok(v)) ==> v@ == batch_records::<Account>(b@)),
        result is Ok ==> !(r matches Some(Err(_))),
{
    match result {
        Err(e) => Some(Err(e)),
        Ok(b) => match Reply::copy_from_reply(OperationKind::LookupAccounts, b.as_slice()) {
            Some(reply) => Some(Ok(reply.into_lookup_accounts())),
            None => None,
        },
    }
}

/// The transfers that a lookup found, from what its completion handed back.
/// `None` where the reply is not a whole number of transfers.
pub fn finish_lookup_transfers(result: Result<Vec<u8>, SendError>) -> (r: Option<
    Result<Vec<Transfer>, SendError>,
>)
    ensures
        result matches Err(e) ==> (r matches Some(Err(x)) && x == e),
        result matches Ok(b) ==> (r is Some <==> b@.len() % 128 == 0),
        result matches Ok(b) ==> (r matches Some(Ok(v)) ==> v@ == batch_records::<Transfer>(b@)),
        result is Ok ==> !(r matches Some(Err(_))),
{
    match result {
        Err(e) => Some(Err(e)),
        Ok(b) => match Reply::copy_from_reply(OperationKind::LookupTransfers, b.as_slice()) {
            Some(reply) => Some(Ok(reply.into_lookup_transfers())),
            None => None,
        },
    }
}

} // verus!
