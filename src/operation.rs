//! Operation codes of requests.

use vstd::prelude::*;

verus! {

/// Smallest code of a known [`OperationKind`].
pub const MIN_OPERATION_CODE: u8 = 128;

/// Largest code of a known [`OperationKind`].
pub const MAX_OPERATION_CODE: u8 = 133;

/// The operations that a request can ask the cluster for.
#[derive(Clone, Copy, Debug, PartialEq, Eq, Structural)]
#[non_exhaustive]
pub enum OperationKind {
    CreateAccounts,
    CreateTransfers,
    LookupAccounts,
    LookupTransfers,
    GetAccountTransfers,
    GetAccountBalances,
    /// A code that this library does not know yet.
    UnstableUncategorized,
}

impl OperationKind {
    /// The code of a known kind; zero for the uncategorized one.
    pub open spec fn spec_code(self) -> u8 {
        match self {
            OperationKind::CreateAccounts => 128,
            OperationKind::CreateTransfers => 129,
            OperationKind::LookupAccounts => 130,
            OperationKind::LookupTransfers => 131,
            OperationKind::GetAccountTransfers => 132,
            OperationKind::GetAccountBalances => 133,
            OperationKind::UnstableUncategorized => 0,
        }
    }

    /// The kind that `code` stands for.
    pub open spec fn spec_from_code(code: u8) -> OperationKind {
        match code {
            128 => OperationKind::CreateAccounts,
            129 => OperationKind::CreateTransfers,
            130 => OperationKind::LookupAccounts,
            131 => OperationKind::LookupTransfers,
            132 => OperationKind::GetAccountTransfers,
            133 => OperationKind::GetAccountBalances,
            _ => OperationKind::UnstableUncategorized,
        }
    }

    /// The kind that `code` stands for: a known kind for each code in
    /// `MIN_OPERATION_CODE..=MAX_OPERATION_CODE`, the uncategorized kind for any other.
    pub fn from_code(code: u8) -> (r: OperationKind)
        ensures
            r == OperationKind::spec_from_code(code),
    {
        match code {
            128 => OperationKind::CreateAccounts,
            129 => OperationKind::CreateTransfers,
            130 => OperationKind::LookupAccounts,
            131 => OperationKind::LookupTransfers,
            132 => OperationKind::GetAccountTransfers,
            133 => OperationKind::GetAccountBalances,
            _ => OperationKind::UnstableUncategorized,
        }
    }

    /// The code of this kind; `None` for the uncategorized kind.
    pub fn code(self) -> (r: Option<u8>)
        ensures
            self == OperationKind::UnstableUncategorized ==> r is None,
            self != OperationKind::UnstableUncategorized ==> r == Some(self.spec_code()),
    {
        match self {
            OperationKind::CreateAccounts => Some(128),
            OperationKind::CreateTransfers => Some(129),
            OperationKind::LookupAccounts => Some(130),
            OperationKind::LookupTransfers => Some(131),
            OperationKind::GetAccountTransfers => Some(132),
            OperationKind::GetAccountBalances => Some(133),
            OperationKind::UnstableUncategorized => None,
        }
    }
}

/// Each code in `MIN_OPERATION_CODE..=MAX_OPERATION_CODE` names a known kind whose code it is, so
/// distinct codes name distinct kinds, in the order of their codes; every
/// other code names the uncategorized kind.
pub proof fn lemma_operation_kind_codes(a: u8, b: u8)
    ensures
        MIN_OPERATION_CODE <= a <= MAX_OPERATION_CODE ==> OperationKind::spec_from_code(a) != OperationKind::UnstableUncategorized
            && OperationKind::spec_from_code(a).spec_code() == a,
        !(MIN_OPERATION_CODE <= a <= MAX_OPERATION_CODE) ==> OperationKind::spec_from_code(a) == OperationKind::UnstableUncategorized,
        MIN_OPERATION_CODE <= a <= MAX_OPERATION_CODE && MIN_OPERATION_CODE <= b <= MAX_OPERATION_CODE && a < b ==> OperationKind::spec_from_code(a).spec_code()
            < OperationKind::spec_from_code(b).spec_code(),
        MIN_OPERATION_CODE <= a <= MAX_OPERATION_CODE && MIN_OPERATION_CODE <= b <= MAX_OPERATION_CODE && a != b ==> OperationKind::spec_from_code(a)
            != OperationKind::spec_from_code(b),
{
}

/// The operation code that a request slot carries.
#[derive(Clone, Copy, Debug, PartialEq, Eq, Structural)]
pub struct Operation(pub u8);

impl Operation {
    /// The operation of a known kind.
    pub fn from_kind(kind: OperationKind) -> (r: Operation)
        requires
            kind != OperationKind::UnstableUncategorized,
        ensures
            r.0 == kind.spec_code(),
    {
        match kind.code() {
            Some(c) => Operation(c),
            None => Operation(0),
        }
    }

    /// The kind of this operation: uncategorized where the code is unknown.
    pub fn kind(self) -> (r: OperationKind)
        ensures
            r == OperationKind::spec_from_code(self.0),
    {
        OperationKind::from_code(self.0)
    }

    pub fn code(self) -> (r: u8)
        ensures
            r == self.0,
    {
        self.0
    }
}

} // verus!
