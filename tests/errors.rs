use tigerbeetle_unofficial::error::{
    AcquirePacketError, AcquirePacketErrorKind, CreateAccountError, CreateAccountErrorKind,
    CreateAccountsApiError, CreateAccountsIndividualApiError, CreateTransferError,
    CreateTransferErrorKind, CreateTransfersApiError, CreateTransfersIndividualApiError,
    NewClientError, NewClientErrorKind, RawCreateAccountsIndividualApiResult,
    RawCreateTransfersIndividualApiResult, SendError, SendErrorKind,
    MAX_CREATE_ACCOUNT_ERROR_CODE, MAX_CREATE_TRANSFER_ERROR_CODE, MAX_PACKET_ACQUIRE_STATUS_ERROR_CODE,
    MAX_PACKET_STATUS_ERROR_CODE, MAX_STATUS_ERROR_CODE, MIN_CREATE_ACCOUNT_ERROR_CODE,
    MIN_CREATE_TRANSFER_ERROR_CODE, MIN_STATUS_ERROR_CODE,
};
use tigerbeetle_unofficial::operation::{Operation, OperationKind, MAX_OPERATION_CODE, MIN_OPERATION_CODE};

#[test]
fn zero_status_is_no_error() {
    assert!(NewClientError::new(0).is_none());
    assert!(AcquirePacketError::new(0).is_none());
    assert!(SendError::new(0).is_none());
    assert!(CreateAccountError::new(0).is_none());
    assert!(CreateTransferError::new(0).is_none());
}

#[test]
fn known_codes_map_to_their_kinds() {
    assert_eq!(NewClientError::new(3).unwrap().kind(), NewClientErrorKind::AddressInvalid);
    assert_eq!(NewClientError::new(5).unwrap().kind(), NewClientErrorKind::ConcurrencyMaxInvalid);
    assert_eq!(
        AcquirePacketError::new(1).unwrap().kind(),
        AcquirePacketErrorKind::ConcurrencyMaxExceeded
    );
    assert_eq!(AcquirePacketError::new(2).unwrap().kind(), AcquirePacketErrorKind::Shutdown);
    assert_eq!(SendError::new(1).unwrap().kind(), SendErrorKind::TooMuchData);
    assert_eq!(SendError::new(3).unwrap().kind(), SendErrorKind::InvalidDataSize);
    assert_eq!(CreateAccountError::new(21).unwrap().kind(), CreateAccountErrorKind::Exists);
    assert_eq!(CreateTransferError::new(53).unwrap().kind(), CreateTransferErrorKind::ExceedsDebits);
    assert_eq!(NewClientError::new(7).unwrap().code(), 7);
}

#[test]
fn unknown_codes_are_uncategorized_and_kept() {
    let e = SendError::new(200).unwrap();
    assert_eq!(e.kind(), SendErrorKind::UnstableUncategorized);
    assert_eq!(e.code(), 200);
    assert_eq!(
        NewClientError::new(MAX_STATUS_ERROR_CODE + 1).unwrap().kind(),
        NewClientErrorKind::UnstableUncategorized
    );
    assert_eq!(
        AcquirePacketError::new(u32::MAX).unwrap().kind(),
        AcquirePacketErrorKind::UnstableUncategorized
    );
    assert_eq!(
        CreateAccountError::new(MAX_CREATE_ACCOUNT_ERROR_CODE + 1).unwrap().kind(),
        CreateAccountErrorKind::UnstableUncategorized
    );
    assert_eq!(Operation(7).kind(), OperationKind::UnstableUncategorized);
    assert_eq!(Operation(MAX_OPERATION_CODE + 1).kind(), OperationKind::UnstableUncategorized);
}

#[test]
fn codes_in_range_map_to_distinct_kinds_in_order() {
    let mut last: Option<u32> = None;
    for c in MIN_CREATE_TRANSFER_ERROR_CODE..=MAX_CREATE_TRANSFER_ERROR_CODE {
        let k = CreateTransferErrorKind::from_code(c);
        assert_ne!(k, CreateTransferErrorKind::UnstableUncategorized);
        let back = k.code().unwrap();
        assert_eq!(back, c);
        if let Some(l) = last {
            assert!(l < back);
        }
        last = Some(back);
    }
    for c in MIN_CREATE_ACCOUNT_ERROR_CODE..=MAX_CREATE_ACCOUNT_ERROR_CODE {
        assert_eq!(CreateAccountErrorKind::from_code(c).code(), Some(c));
    }
    for c in MIN_STATUS_ERROR_CODE..=MAX_STATUS_ERROR_CODE {
        assert_eq!(NewClientErrorKind::from_code(c).code(), Some(c));
    }
    for c in 1..=MAX_PACKET_ACQUIRE_STATUS_ERROR_CODE {
        assert_eq!(AcquirePacketErrorKind::from_code(c).code(), Some(c));
    }
    for c in 1..=MAX_PACKET_STATUS_ERROR_CODE {
        assert_eq!(SendErrorKind::from_code(c).code(), Some(c));
    }
    for c in MIN_OPERATION_CODE..=MAX_OPERATION_CODE {
        let op = Operation(c);
        assert_eq!(Operation::from_kind(op.kind()), op);
        assert_eq!(op.code(), c);
    }
    assert_eq!(CreateTransferErrorKind::from_code(0), CreateTransferErrorKind::UnstableUncategorized);
    assert_eq!(CreateTransferErrorKind::UnstableUncategorized.code(), None);
}

#[test]
fn error_from_kind_has_its_code() {
    assert_eq!(NewClientError::from_kind(NewClientErrorKind::ConcurrencyMaxInvalid).code(), 5);
    assert_eq!(AcquirePacketError::from_kind(AcquirePacketErrorKind::Shutdown).code(), 2);
    assert_eq!(SendError::from_kind(SendErrorKind::InvalidOperation).code(), 2);
    assert_eq!(Operation::from_kind(OperationKind::LookupAccounts).code(), 130);
}

#[test]
fn individual_errors_from_raw_results() {
    let ok = RawCreateAccountsIndividualApiResult { index: 0, result: 0 };
    assert!(CreateAccountsIndividualApiError::from_raw_result(ok).is_none());
    let bad = RawCreateAccountsIndividualApiResult { index: 3, result: 21 };
    let e = CreateAccountsIndividualApiError::from_raw_result(bad).unwrap();
    assert_eq!(e.index(), 3);
    assert_eq!(e.inner().code(), 21);
    assert_eq!(e.kind(), CreateAccountErrorKind::Exists);

    let v = vec![
        ok,
        bad,
        RawCreateAccountsIndividualApiResult { index: 4, result: 0 },
        RawCreateAccountsIndividualApiResult { index: 5, result: 13 },
    ];
    let errs = CreateAccountsIndividualApiError::vec_from_raw_results(v.clone());
    assert_eq!(errs.len(), 2);
    assert_eq!(errs[0].index(), 3);
    assert_eq!(errs[1].index(), 5);
    assert_eq!(errs[1].kind(), CreateAccountErrorKind::LedgerMustNotBeZero);

    let api = CreateAccountsApiError::from_raw_results(v).unwrap();
    assert_eq!(api.as_slice().len(), 2);
    assert!(CreateAccountsApiError::from_raw_results(vec![ok, ok]).is_none());
    assert!(CreateAccountsApiError::from_errors(Vec::new()).is_none());
    assert_eq!(CreateAccountsApiError::from_errors(errs).unwrap().as_slice()[0].index(), 3);
}

#[test]
fn transfer_errors_from_raw_results() {
    let v = vec![
        RawCreateTransfersIndividualApiResult { index: 0, result: 0 },
        RawCreateTransfersIndividualApiResult { index: 1, result: 21 },
    ];
    let api = CreateTransfersApiError::from_raw_results(v.clone()).unwrap();
    assert_eq!(api.as_slice().len(), 1);
    let e = api.as_slice()[0];
    assert_eq!(e.index(), 1);
    assert_eq!(e.kind(), CreateTransferErrorKind::DebitAccountNotFound);
    assert_eq!(e.inner().code(), 21);
    let raw = RawCreateTransfersIndividualApiResult { index: 9, result: 0 };
    assert!(CreateTransfersIndividualApiError::from_raw_result(raw).is_none());
    assert!(CreateTransfersApiError::from_errors(Vec::new()).is_none());
    let errs = CreateTransfersIndividualApiError::vec_from_raw_results(v);
    assert_eq!(errs.len(), 1);
}
