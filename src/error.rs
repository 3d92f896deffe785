//! Status codes of the native client and of the cluster, and the errors
//! built from them. A code that this library does not know maps to an
//! uncategorized kind, so that newer codes are carried, never refused.

use vstd::prelude::*;

use crate::codec::{
    fits, layout_bytes, layout_values, lemma_layout_round_trip, lemma_pow256_widths, read_fields,
    total, values_of, widths_of, write_fields, Record,
};

verus! {

/// Byte widths of an entry of a create reply: index, then result.
pub open spec fn result_widths() -> Seq<nat> {
    seq![4nat, 4]
}

fn result_width_vec() -> (r: Vec<usize>)
    ensures
        widths_of(r@) == result_widths(),
        forall|i: int| 0 <= i < r@.len() ==> #[trigger] r@[i] <= 16,
{
    let r: Vec<usize> = vec![4, 4];
    assert(widths_of(r@) =~= result_widths());
    r
}

/// Smallest code of a known [`NewClientErrorKind`].
pub const MIN_STATUS_ERROR_CODE: u32 = 1;

/// Largest code of a known [`NewClientErrorKind`].
pub const MAX_STATUS_ERROR_CODE: u32 = 7;

/// Why a client could not be created.
#[derive(Clone, Copy, Debug, PartialEq, Eq, Structural)]
#[non_exhaustive]
pub enum NewClientErrorKind {
    Unexpected,
    OutOfMemory,
    AddressInvalid,
    AddressLimitExceeded,
    ConcurrencyMaxInvalid,
    SystemResources,
    NetworkSubsystem,
    /// A code that this library does not know yet.
    UnstableUncategorized,
}

impl NewClientErrorKind {
    /// The code of a known kind; zero for the uncategorized one.
    pub open spec fn spec_code(self) -> u32 {
        match self {
            NewClientErrorKind::Unexpected => 1,
            NewClientErrorKind::OutOfMemory => 2,
            NewClientErrorKind::AddressInvalid => 3,
            NewClientErrorKind::AddressLimitExceeded => 4,
            NewClientErrorKind::ConcurrencyMaxInvalid => 5,
            NewClientErrorKind::SystemResources => 6,
            NewClientErrorKind::NetworkSubsystem => 7,
            NewClientErrorKind::UnstableUncategorized => 0,
        }
    }

    /// The kind that `code` stands for.
    pub open spec fn spec_from_code(code: u32) -> NewClientErrorKind {
        match code {
            1 => NewClientErrorKind::Unexpected,
            2 => NewClientErrorKind::OutOfMemory,
            3 => NewClientErrorKind::AddressInvalid,
            4 => NewClientErrorKind::AddressLimitExceeded,
            5 => NewClientErrorKind::ConcurrencyMaxInvalid,
            6 => NewClientErrorKind::SystemResources,
            7 => NewClientErrorKind::NetworkSubsystem,
            _ => NewClientErrorKind::UnstableUncategorized,
        }
    }

    /// The kind that `code` stands for: a known kind for each code in
    /// `MIN_STATUS_ERROR_CODE..=MAX_STATUS_ERROR_CODE`, the uncategorized kind for any other.
    pub fn from_code(code: u32) -> (r: NewClientErrorKind)
        ensures
            r == NewClientErrorKind::spec_from_code(code),
    {
        match code {
            1 => NewClientErrorKind::Unexpected,
            2 => NewClientErrorKind::OutOfMemory,
            3 => NewClientErrorKind::AddressInvalid,
            4 => NewClientErrorKind::AddressLimitExceeded,
            5 => NewClientErrorKind::ConcurrencyMaxInvalid,
            6 => NewClientErrorKind::SystemResources,
            7 => NewClientErrorKind::NetworkSubsystem,
            _ => NewClientErrorKind::UnstableUncategorized,
        }
    }

    /// The code of this kind; `None` for the uncategorized kind.
    pub fn code(self) -> (r: Option<u32>)
        ensures
            self == NewClientErrorKind::UnstableUncategorized ==> r is None,
            self != NewClientErrorKind::UnstableUncategorized ==> r == Some(self.spec_code()),
    {
        match self {
            NewClientErrorKind::Unexpected => Some(1),
            NewClientErrorKind::OutOfMemory => Some(2),
            NewClientErrorKind::AddressInvalid => Some(3),
            NewClientErrorKind::AddressLimitExceeded => Some(4),
            NewClientErrorKind::ConcurrencyMaxInvalid => Some(5),
            NewClientErrorKind::SystemResources => Some(6),
            NewClientErrorKind::NetworkSubsystem => Some(7),
            NewClientErrorKind::UnstableUncategorized => None,
        }
    }
}

/// Each code in `MIN_STATUS_ERROR_CODE..=MAX_STATUS_ERROR_CODE` names a known kind whose code it is, so
/// distinct codes name distinct kinds, in the order of their codes; every
/// other code names the uncategorized kind.
pub proof fn lemma_new_client_error_kind_codes(a: u32, b: u32)
    ensures
        MIN_STATUS_ERROR_CODE <= a <= MAX_STATUS_ERROR_CODE ==> NewClientErrorKind::spec_from_code(a) != NewClientErrorKind::UnstableUncategorized
            && NewClientErrorKind::spec_from_code(a).spec_code() == a,
        !(MIN_STATUS_ERROR_CODE <= a <= MAX_STATUS_ERROR_CODE) ==> NewClientErrorKind::spec_from_code(a) == NewClientErrorKind::UnstableUncategorized,
        MIN_STATUS_ERROR_CODE <= a <= MAX_STATUS_ERROR_CODE && MIN_STATUS_ERROR_CODE <= b <= MAX_STATUS_ERROR_CODE && a < b ==> NewClientErrorKind::spec_from_code(a).spec_code()
            < NewClientErrorKind::spec_from_code(b).spec_code(),
        MIN_STATUS_ERROR_CODE <= a <= MAX_STATUS_ERROR_CODE && MIN_STATUS_ERROR_CODE <= b <= MAX_STATUS_ERROR_CODE && a != b ==> NewClientErrorKind::spec_from_code(a)
            != NewClientErrorKind::spec_from_code(b),
{
}

/// A failure to create a client, by its non-zero status code.
#[derive(Clone, Copy, Debug, PartialEq, Eq)]
pub struct NewClientError(u32);

impl View for NewClientError {
    type V = u32;

    /// The status code, never zero.
    closed spec fn view(&self) -> u32 {
        self.0
    }
}

impl NewClientError {
    #[verifier::type_invariant]
    spec fn code_is_nonzero(self) -> bool {
        self.0 != 0
    }

    /// The error of a non-zero status code; `None` for zero, which means success.
    pub fn new(code: u32) -> (r: Option<Self>)
        ensures
            r is Some <==> code != 0,
            r matches Some(e) ==> e@ == code,
    {
        if code == 0 {
            None
        } else {
            Some(NewClientError(code))
        }
    }

    /// The error of a known kind.
    pub fn from_kind(kind: NewClientErrorKind) -> (r: Self)
        requires
            kind != NewClientErrorKind::UnstableUncategorized,
        ensures
            r@ == kind.spec_code(),
    {
        let code = match kind.code() {
            Some(c) => c,
            None => 1,
        };
        NewClientError(code)
    }

    /// What went wrong, by kind.
    pub fn kind(self) -> (r: NewClientErrorKind)
        ensures
            r == NewClientErrorKind::spec_from_code(self@),
    {
        NewClientErrorKind::from_code(self.0)
    }

    pub fn code(self) -> (r: u32)
        ensures
            r == self@,
            r != 0,
    {
        proof {
            use_type_invariant(&self);
        }
        self.0
    }
}

/// Smallest code of a known [`AcquirePacketErrorKind`].
pub const MIN_PACKET_ACQUIRE_STATUS_ERROR_CODE: u32 = 1;

/// Largest code of a known [`AcquirePacketErrorKind`].
pub const MAX_PACKET_ACQUIRE_STATUS_ERROR_CODE: u32 = 2;

/// Why no request slot could be acquired.
#[derive(Clone, Copy, Debug, PartialEq, Eq, Structural)]
#[non_exhaustive]
pub enum AcquirePacketErrorKind {
    ConcurrencyMaxExceeded,
    Shutdown,
    /// A code that this library does not know yet.
    UnstableUncategorized,
}

impl AcquirePacketErrorKind {
    /// The code of a known kind; zero for the uncategorized one.
    pub open spec fn spec_code(self) -> u32 {
        match self {
            AcquirePacketErrorKind::ConcurrencyMaxExceeded => 1,
            AcquirePacketErrorKind::Shutdown => 2,
            AcquirePacketErrorKind::UnstableUncategorized => 0,
        }
    }

    /// The kind that `code` stands for.
    pub open spec fn spec_from_code(code: u32) -> AcquirePacketErrorKind {
        match code {
            1 => AcquirePacketErrorKind::ConcurrencyMaxExceeded,
            2 => AcquirePacketErrorKind::Shutdown,
            _ => AcquirePacketErrorKind::UnstableUncategorized,
        }
    }

    /// The kind that `code` stands for: a known kind for each code in
    /// `MIN_PACKET_ACQUIRE_STATUS_ERROR_CODE..=MAX_PACKET_ACQUIRE_STATUS_ERROR_CODE`, the uncategorized kind for any other.
    pub fn from_code(code: u32) -> (r: AcquirePacketErrorKind)
        ensures
            r == AcquirePacketErrorKind::spec_from_code(code),
    {
        match code {
            1 => AcquirePacketErrorKind::ConcurrencyMaxExceeded,
            2 => AcquirePacketErrorKind::Shutdown,
            _ => AcquirePacketErrorKind::UnstableUncategorized,
        }
    }

    /// The code of this kind; `None` for the uncategorized kind.
    pub fn code(self) -> (r: Option<u32>)
        ensures
            self == AcquirePacketErrorKind::UnstableUncategorized ==> r is None,
            self != AcquirePacketErrorKind::UnstableUncategorized ==> r == Some(self.spec_code()),
    {
        match self {
            AcquirePacketErrorKind::ConcurrencyMaxExceeded => Some(1),
            AcquirePacketErrorKind::Shutdown => Some(2),
            AcquirePacketErrorKind::UnstableUncategorized => None,
        }
    }
}

/// Each code in `MIN_PACKET_ACQUIRE_STATUS_ERROR_CODE..=MAX_PACKET_ACQUIRE_STATUS_ERROR_CODE` names a known kind whose code it is, so
/// distinct codes name distinct kinds, in the order of their codes; every
/// other code names the uncategorized kind.
pub proof fn lemma_acquire_packet_error_kind_codes(a: u32, b: u32)
    ensures
        MIN_PACKET_ACQUIRE_STATUS_ERROR_CODE <= a <= MAX_PACKET_ACQUIRE_STATUS_ERROR_CODE ==> AcquirePacketErrorKind::spec_from_code(a) != AcquirePacketErrorKind::UnstableUncategorized
            && AcquirePacketErrorKind::spec_from_code(a).spec_code() == a,
        !(MIN_PACKET_ACQUIRE_STATUS_ERROR_CODE <= a <= MAX_PACKET_ACQUIRE_STATUS_ERROR_CODE) ==> AcquirePacketErrorKind::spec_from_code(a) == AcquirePacketErrorKind::UnstableUncategorized,
        MIN_PACKET_ACQUIRE_STATUS_ERROR_CODE <= a <= MAX_PACKET_ACQUIRE_STATUS_ERROR_CODE && MIN_PACKET_ACQUIRE_STATUS_ERROR_CODE <= b <= MAX_PACKET_ACQUIRE_STATUS_ERROR_CODE && a < b ==> AcquirePacketErrorKind::spec_from_code(a).spec_code()
            < AcquirePacketErrorKind::spec_from_code(b).spec_code(),
        MIN_PACKET_ACQUIRE_STATUS_ERROR_CODE <= a <= MAX_PACKET_ACQUIRE_STATUS_ERROR_CODE && MIN_PACKET_ACQUIRE_STATUS_ERROR_CODE <= b <= MAX_PACKET_ACQUIRE_STATUS_ERROR_CODE && a != b ==> AcquirePacketErrorKind::spec_from_code(a)
            != AcquirePacketErrorKind::spec_from_code(b),
{
}

/// A failure to acquire a request slot, by its non-zero status code.
#[derive(Clone, Copy, Debug, PartialEq, Eq)]
pub struct AcquirePacketError(u32);

impl View for AcquirePacketError {
    type V = u32;

    /// The status code, never zero.
    closed spec fn view(&self) -> u32 {
        self.0
    }
}

impl AcquirePacketError {
    #[verifier::type_invariant]
    spec fn code_is_nonzero(self) -> bool {
        self.0 != 0
    }

    /// The error of a non-zero status code; `None` for zero, which means success.
    pub fn new(code: u32) -> (r: Option<Self>)
        ensures
            r is Some <==> code != 0,
            r matches Some(e) ==> e@ == code,
    {
        if code == 0 {
            None
        } else {
            Some(AcquirePacketError(code))
        }
    }

    /// The error of a known kind.
    pub fn from_kind(kind: AcquirePacketErrorKind) -> (r: Self)
        requires
            kind != AcquirePacketErrorKind::UnstableUncategorized,
        ensures
            r@ == kind.spec_code(),
    {
        let code = match kind.code() {
            Some(c) => c,
            None => 1,
        };
        AcquirePacketError(code)
    }

    /// What went wrong, by kind.
    pub fn kind(self) -> (r: AcquirePacketErrorKind)
        ensures
            r == AcquirePacketErrorKind::spec_from_code(self@),
    {
        AcquirePacketErrorKind::from_code(self.0)
    }

    pub fn code(self) -> (r: u32)
        ensures
            r == self@,
            r != 0,
    {
        proof {
            use_type_invariant(&self);
        }
        self.0
    }
}

/// Smallest code of a known [`SendErrorKind`].
pub const MIN_PACKET_STATUS_ERROR_CODE: u8 = 1;

/// Largest code of a known [`SendErrorKind`].
pub const MAX_PACKET_STATUS_ERROR_CODE: u8 = 3;

/// Why a submitted request failed in transport.
#[derive(Clone, Copy, Debug, PartialEq, Eq, Structural)]
#[non_exhaustive]
pub enum SendErrorKind {
    TooMuchData,
    InvalidOperation,
    InvalidDataSize,
    /// A code that this library does not know yet.
    UnstableUncategorized,
}

impl SendErrorKind {
    /// The code of a known kind; zero for the uncategorized one.
    pub open spec fn spec_code(self) -> u8 {
        match self {
            SendErrorKind::TooMuchData => 1,
            SendErrorKind::InvalidOperation => 2,
            SendErrorKind::InvalidDataSize => 3,
            SendErrorKind::UnstableUncategorized => 0,
        }
    }

    /// The kind that `code` stands for.
    pub open spec fn spec_from_code(code: u8) -> SendErrorKind {
        match code {
            1 => SendErrorKind::TooMuchData,
            2 => SendErrorKind::InvalidOperation,
            3 => SendErrorKind::InvalidDataSize,
            _ => SendErrorKind::UnstableUncategorized,
        }
    }

    /// The kind that `code` stands for: a known kind for each code in
    /// `MIN_PACKET_STATUS_ERROR_CODE..=MAX_PACKET_STATUS_ERROR_CODE`, the uncategorized kind for any other.
    pub fn from_code(code: u8) -> (r: SendErrorKind)
        ensures
            r == SendErrorKind::spec_from_code(code),
    {
        match code {
            1 => SendErrorKind::TooMuchData,
            2 => SendErrorKind::InvalidOperation,
            3 => SendErrorKind::InvalidDataSize,
            _ => SendErrorKind::UnstableUncategorized,
        }
    }

    /// The code of this kind; `None` for the uncategorized kind.
    pub fn code(self) -> (r: Option<u8>)
        ensures
            self == SendErrorKind::UnstableUncategorized ==> r is None,
            self != SendErrorKind::UnstableUncategorized ==> r == Some(self.spec_code()),
    {
        match self {
            SendErrorKind::TooMuchData => Some(1),
            SendErrorKind::InvalidOperation => Some(2),
            SendErrorKind::InvalidDataSize => Some(3),
            SendErrorKind::UnstableUncategorized => None,
        }
    }
}

/// Each code in `MIN_PACKET_STATUS_ERROR_CODE..=MAX_PACKET_STATUS_ERROR_CODE` names a known kind whose code it is, so
/// distinct codes name distinct kinds, in the order of their codes; every
/// other code names the uncategorized kind.
pub proof fn lemma_send_error_kind_codes(a: u8, b: u8)
    ensures
        MIN_PACKET_STATUS_ERROR_CODE <= a <= MAX_PACKET_STATUS_ERROR_CODE ==> SendErrorKind::spec_from_code(a) != SendErrorKind::UnstableUncategorized
            && SendErrorKind::spec_from_code(a).spec_code() == a,
        !(MIN_PACKET_STATUS_ERROR_CODE <= a <= MAX_PACKET_STATUS_ERROR_CODE) ==> SendErrorKind::spec_from_code(a) == SendErrorKind::UnstableUncategorized,
        MIN_PACKET_STATUS_ERROR_CODE <= a <= MAX_PACKET_STATUS_ERROR_CODE && MIN_PACKET_STATUS_ERROR_CODE <= b <= MAX_PACKET_STATUS_ERROR_CODE && a < b ==> SendErrorKind::spec_from_code(a).spec_code()
            < SendErrorKind::spec_from_code(b).spec_code(),
        MIN_PACKET_STATUS_ERROR_CODE <= a <= MAX_PACKET_STATUS_ERROR_CODE && MIN_PACKET_STATUS_ERROR_CODE <= b <= MAX_PACKET_STATUS_ERROR_CODE && a != b ==> SendErrorKind::spec_from_code(a)
            != SendErrorKind::spec_from_code(b),
{
}

/// A transport failure of a request, by the non-zero status of its slot.
#[derive(Clone, Copy, Debug, PartialEq, Eq)]
pub struct SendError(u8);

impl View for SendError {
    type V = u8;

    /// The status code, never zero.
    closed spec fn view(&self) -> u8 {
        self.0
    }
}

impl SendError {
    #[verifier::type_invariant]
    spec fn code_is_nonzero(self) -> bool {
        self.0 != 0
    }

    /// The error of a non-zero status code; `None` for zero, which means success.
    pub fn new(code: u8) -> (r: Option<Self>)
        ensures
            r is Some <==> code != 0,
            r matches Some(e) ==> e@ == code,
    {
        if code == 0 {
            None
        } else {
            Some(SendError(code))
        }
    }

    /// The error of a known kind.
    pub fn from_kind(kind: SendErrorKind) -> (r: Self)
        requires
            kind != SendErrorKind::UnstableUncategorized,
        ensures
            r@ == kind.spec_code(),
    {
        let code = match kind.code() {
            Some(c) => c,
            None => 1,
        };
        SendError(code)
    }

    /// What went wrong, by kind.
    pub fn kind(self) -> (r: SendErrorKind)
        ensures
            r == SendErrorKind::spec_from_code(self@),
    {
        SendErrorKind::from_code(self.0)
    }

    pub fn code(self) -> (r: u8)
        ensures
            r == self@,
            r != 0,
    {
        proof {
            use_type_invariant(&self);
        }
        self.0
    }
}

/// Smallest code of a known [`CreateAccountErrorKind`].
pub const MIN_CREATE_ACCOUNT_ERROR_CODE: u32 = 1;

/// Largest code of a known [`CreateAccountErrorKind`].
pub const MAX_CREATE_ACCOUNT_ERROR_CODE: u32 = 21;

/// Why the cluster refused to create one account.
#[derive(Clone, Copy, Debug, PartialEq, Eq, Structural)]
#[non_exhaustive]
pub enum CreateAccountErrorKind {
    LinkedEventFailed,
    LinkedEventChainOpen,
    TimestampMustBeZero,
    ReservedField,
    ReservedFlag,
    IdMustNotBeZero,
    IdMustNotBeIntMax,
    FlagsAreMutuallyExclusive,
    DebitsPendingMustBeZero,
    DebitsPostedMustBeZero,
    CreditsPendingMustBeZero,
    CreditsPostedMustBeZero,
    LedgerMustNotBeZero,
    CodeMustNotBeZero,
    ExistsWithDifferentFlags,
    ExistsWithDifferentUserData128,
    ExistsWithDifferentUserData64,
    ExistsWithDifferentUserData32,
    ExistsWithDifferentLedger,
    ExistsWithDifferentCode,
    Exists,
    /// A code that this library does not know yet.
    UnstableUncategorized,
}

impl CreateAccountErrorKind {
    /// The code of a known kind; zero for the uncategorized one.
    pub open spec fn spec_code(self) -> u32 {
        match self {
            CreateAccountErrorKind::LinkedEventFailed => 1,
            CreateAccountErrorKind::LinkedEventChainOpen => 2,
            CreateAccountErrorKind::TimestampMustBeZero => 3,
            CreateAccountErrorKind::ReservedField => 4,
            CreateAccountErrorKind::ReservedFlag => 5,
            CreateAccountErrorKind::IdMustNotBeZero => 6,
            CreateAccountErrorKind::IdMustNotBeIntMax => 7,
            CreateAccountErrorKind::FlagsAreMutuallyExclusive => 8,
            CreateAccountErrorKind::DebitsPendingMustBeZero => 9,
            CreateAccountErrorKind::DebitsPostedMustBeZero => 10,
            CreateAccountErrorKind::CreditsPendingMustBeZero => 11,
            CreateAccountErrorKind::CreditsPostedMustBeZero => 12,
            CreateAccountErrorKind::LedgerMustNotBeZero => 13,
            CreateAccountErrorKind::CodeMustNotBeZero => 14,
            CreateAccountErrorKind::ExistsWithDifferentFlags => 15,
            CreateAccountErrorKind::ExistsWithDifferentUserData128 => 16,
            CreateAccountErrorKind::ExistsWithDifferentUserData64 => 17,
            CreateAccountErrorKind::ExistsWithDifferentUserData32 => 18,
            CreateAccountErrorKind::ExistsWithDifferentLedger => 19,
            CreateAccountErrorKind::ExistsWithDifferentCode => 20,
            CreateAccountErrorKind::Exists => 21,
            CreateAccountErrorKind::UnstableUncategorized => 0,
        }
    }

    /// The kind that `code` stands for.
    pub open spec fn spec_from_code(code: u32) -> CreateAccountErrorKind {
        match code {
            1 => CreateAccountErrorKind::LinkedEventFailed,
            2 => CreateAccountErrorKind::LinkedEventChainOpen,
            3 => CreateAccountErrorKind::TimestampMustBeZero,
            4 => CreateAccountErrorKind::ReservedField,
            5 => CreateAccountErrorKind::ReservedFlag,
            6 => CreateAccountErrorKind::IdMustNotBeZero,
            7 => CreateAccountErrorKind::IdMustNotBeIntMax,
            8 => CreateAccountErrorKind::FlagsAreMutuallyExclusive,
            9 => CreateAccountErrorKind::DebitsPendingMustBeZero,
            10 => CreateAccountErrorKind::DebitsPostedMustBeZero,
            11 => CreateAccountErrorKind::CreditsPendingMustBeZero,
            12 => CreateAccountErrorKind::CreditsPostedMustBeZero,
            13 => CreateAccountErrorKind::LedgerMustNotBeZero,
            14 => CreateAccountErrorKind::CodeMustNotBeZero,
            15 => CreateAccountErrorKind::ExistsWithDifferentFlags,
            16 => CreateAccountErrorKind::ExistsWithDifferentUserData128,
            17 => CreateAccountErrorKind::ExistsWithDifferentUserData64,
            18 => CreateAccountErrorKind::ExistsWithDifferentUserData32,
            19 => CreateAccountErrorKind::ExistsWithDifferentLedger,
            20 => CreateAccountErrorKind::ExistsWithDifferentCode,
            21 => CreateAccountErrorKind::Exists,
            _ => CreateAccountErrorKind::UnstableUncategorized,
        }
    }

    /// The kind that `code` stands for: a known kind for each code in
    /// `MIN_CREATE_ACCOUNT_ERROR_CODE..=MAX_CREATE_ACCOUNT_ERROR_CODE`, the uncategorized kind for any other.
    pub fn from_code(code: u32) -> (r: CreateAccountErrorKind)
        ensures
            r == CreateAccountErrorKind::spec_from_code(code),
    {
        match code {
            1 => CreateAccountErrorKind::LinkedEventFailed,
            2 => CreateAccountErrorKind::LinkedEventChainOpen,
            3 => CreateAccountErrorKind::TimestampMustBeZero,
            4 => CreateAccountErrorKind::ReservedField,
            5 => CreateAccountErrorKind::ReservedFlag,
            6 => CreateAccountErrorKind::IdMustNotBeZero,
            7 => CreateAccountErrorKind::IdMustNotBeIntMax,
            8 => CreateAccountErrorKind::FlagsAreMutuallyExclusive,
            9 => CreateAccountErrorKind::DebitsPendingMustBeZero,
            10 => CreateAccountErrorKind::DebitsPostedMustBeZero,
            11 => CreateAccountErrorKind::CreditsPendingMustBeZero,
            12 => CreateAccountErrorKind::CreditsPostedMustBeZero,
            13 => CreateAccountErrorKind::LedgerMustNotBeZero,
            14 => CreateAccountErrorKind::CodeMustNotBeZero,
            15 => CreateAccountErrorKind::ExistsWithDifferentFlags,
            16 => CreateAccountErrorKind::ExistsWithDifferentUserData128,
            17 => CreateAccountErrorKind::ExistsWithDifferentUserData64,
            18 => CreateAccountErrorKind::ExistsWithDifferentUserData32,
            19 => CreateAccountErrorKind::ExistsWithDifferentLedger,
            20 => CreateAccountErrorKind::ExistsWithDifferentCode,
            21 => CreateAccountErrorKind::Exists,
            _ => CreateAccountErrorKind::UnstableUncategorized,
        }
    }

    /// The code of this kind; `None` for the uncategorized kind.
    pub fn code(self) -> (r: Option<u32>)
        ensures
            self == CreateAccountErrorKind::UnstableUncategorized ==> r is None,
            self != CreateAccountErrorKind::UnstableUncategorized ==> r == Some(self.spec_code()),
    {
        match self {
            CreateAccountErrorKind::LinkedEventFailed => Some(1),
            CreateAccountErrorKind::LinkedEventChainOpen => Some(2),
            CreateAccountErrorKind::TimestampMustBeZero => Some(3),
            CreateAccountErrorKind::ReservedField => Some(4),
            CreateAccountErrorKind::ReservedFlag => Some(5),
            CreateAccountErrorKind::IdMustNotBeZero => Some(6),
            CreateAccountErrorKind::IdMustNotBeIntMax => Some(7),
            CreateAccountErrorKind::FlagsAreMutuallyExclusive => Some(8),
            CreateAccountErrorKind::DebitsPendingMustBeZero => Some(9),
            CreateAccountErrorKind::DebitsPostedMustBeZero => Some(10),
            CreateAccountErrorKind::CreditsPendingMustBeZero => Some(11),
            CreateAccountErrorKind::CreditsPostedMustBeZero => Some(12),
            CreateAccountErrorKind::LedgerMustNotBeZero => Some(13),
            CreateAccountErrorKind::CodeMustNotBeZero => Some(14),
            CreateAccountErrorKind::ExistsWithDifferentFlags => Some(15),
            CreateAccountErrorKind::ExistsWithDifferentUserData128 => Some(16),
            CreateAccountErrorKind::ExistsWithDifferentUserData64 => Some(17),
            CreateAccountErrorKind::ExistsWithDifferentUserData32 => Some(18),
            CreateAccountErrorKind::ExistsWithDifferentLedger => Some(19),
            CreateAccountErrorKind::ExistsWithDifferentCode => Some(20),
            CreateAccountErrorKind::Exists => Some(21),
            CreateAccountErrorKind::UnstableUncategorized => None,
        }
    }
}

/// Each code in `MIN_CREATE_ACCOUNT_ERROR_CODE..=MAX_CREATE_ACCOUNT_ERROR_CODE` names a known kind whose code it is, so
/// distinct codes name distinct kinds, in the order of their codes; every
/// other code names the uncategorized kind.
pub proof fn lemma_create_account_error_kind_codes(a: u32, b: u32)
    ensures
        MIN_CREATE_ACCOUNT_ERROR_CODE <= a <= MAX_CREATE_ACCOUNT_ERROR_CODE ==> CreateAccountErrorKind::spec_from_code(a) != CreateAccountErrorKind::UnstableUncategorized
            && CreateAccountErrorKind::spec_from_code(a).spec_code() == a,
        !(MIN_CREATE_ACCOUNT_ERROR_CODE <= a <= MAX_CREATE_ACCOUNT_ERROR_CODE) ==> CreateAccountErrorKind::spec_from_code(a) == CreateAccountErrorKind::UnstableUncategorized,
        MIN_CREATE_ACCOUNT_ERROR_CODE <= a <= MAX_CREATE_ACCOUNT_ERROR_CODE && MIN_CREATE_ACCOUNT_ERROR_CODE <= b <= MAX_CREATE_ACCOUNT_ERROR_CODE && a < b ==> CreateAccountErrorKind::spec_from_code(a).spec_code()
            < CreateAccountErrorKind::spec_from_code(b).spec_code(),
        MIN_CREATE_ACCOUNT_ERROR_CODE <= a <= MAX_CREATE_ACCOUNT_ERROR_CODE && MIN_CREATE_ACCOUNT_ERROR_CODE <= b <= MAX_CREATE_ACCOUNT_ERROR_CODE && a != b ==> CreateAccountErrorKind::spec_from_code(a)
            != CreateAccountErrorKind::spec_from_code(b),
{
}

/// The cluster's refusal of one account, by its non-zero result code.
#[derive(Clone, Copy, Debug, PartialEq, Eq)]
pub struct CreateAccountError(u32);

impl View for CreateAccountError {
    type V = u32;

    /// The status code, never zero.
    closed spec fn view(&self) -> u32 {
        self.0
    }
}

impl CreateAccountError {
    #[verifier::type_invariant]
    spec fn code_is_nonzero(self) -> bool {
        self.0 != 0
    }

    /// The error of a non-zero status code; `None` for zero, which means success.
    pub fn new(code: u32) -> (r: Option<Self>)
        ensures
            r is Some <==> code != 0,
            r matches Some(e) ==> e@ == code,
    {
        if code == 0 {
            None
        } else {
            Some(CreateAccountError(code))
        }
    }

    /// The error of a known kind.
    pub fn from_kind(kind: CreateAccountErrorKind) -> (r: Self)
        requires
            kind != CreateAccountErrorKind::UnstableUncategorized,
        ensures
            r@ == kind.spec_code(),
    {
        let code = match kind.code() {
            Some(c) => c,
            None => 1,
        };
        CreateAccountError(code)
    }

    /// What went wrong, by kind.
    pub fn kind(self) -> (r: CreateAccountErrorKind)
        ensures
            r == CreateAccountErrorKind::spec_from_code(self@),
    {
        CreateAccountErrorKind::from_code(self.0)
    }

    pub fn code(self) -> (r: u32)
        ensures
            r == self@,
            r != 0,
    {
        proof {
            use_type_invariant(&self);
        }
        self.0
    }
}

/// Smallest code of a known [`CreateTransferErrorKind`].
pub const MIN_CREATE_TRANSFER_ERROR_CODE: u32 = 1;

/// Largest code of a known [`CreateTransferErrorKind`].
pub const MAX_CREATE_TRANSFER_ERROR_CODE: u32 = 53;

/// Why the cluster refused to create one transfer.
#[derive(Clone, Copy, Debug, PartialEq, Eq, Structural)]
#[non_exhaustive]
pub enum CreateTransferErrorKind {
    LinkedEventFailed,
    LinkedEventChainOpen,
    TimestampMustBeZero,
    ReservedFlag,
    IdMustNotBeZero,
    IdMustNotBeIntMax,
    FlagsAreMutuallyExclusive,
    DebitAccountIdMustNotBeZero,
    DebitAccountIdMustNotBeIntMax,
    CreditAccountIdMustNotBeZero,
    CreditAccountIdMustNotBeIntMax,
    AccountsMustBeDifferent,
    PendingIdMustBeZero,
    PendingIdMustNotBeZero,
    PendingIdMustNotBeIntMax,
    PendingIdMustBeDifferent,
    TimeoutReservedForPendingTransfer,
    AmountMustNotBeZero,
    LedgerMustNotBeZero,
    CodeMustNotBeZero,
    DebitAccountNotFound,
    CreditAccountNotFound,
    AccountsMustHaveTheSameLedger,
    TransferMustHaveTheSameLedgerAsAccounts,
    PendingTransferNotFound,
    PendingTransferNotPending,
    PendingTransferHasDifferentDebitAccountId,
    PendingTransferHasDifferentCreditAccountId,
    PendingTransferHasDifferentLedger,
    PendingTransferHasDifferentCode,
    ExceedsPendingTransferAmount,
    PendingTransferHasDifferentAmount,
    PendingTransferAlreadyPosted,
    PendingTransferAlreadyVoided,
    PendingTransferExpired,
    ExistsWithDifferentFlags,
    ExistsWithDifferentDebitAccountId,
    ExistsWithDifferentCreditAccountId,
    ExistsWithDifferentAmount,
    ExistsWithDifferentPendingId,
    ExistsWithDifferentUserData,
    ExistsWithDifferentTimeout,
    ExistsWithDifferentCode,
    Exists,
    OverflowsDebitsPending,
    OverflowsCreditsPending,
    OverflowsDebitsPosted,
    OverflowsCreditsPosted,
    OverflowsDebits,
    OverflowsCredits,
    OverflowsTimeout,
    ExceedsCredits,
    ExceedsDebits,
    /// A code that this library does not know yet.
    UnstableUncategorized,
}

impl CreateTransferErrorKind {
    /// The code of a known kind; zero for the uncategorized one.
    pub open spec fn spec_code(self) -> u32 {
        match self {
            CreateTransferErrorKind::LinkedEventFailed => 1,
            CreateTransferErrorKind::LinkedEventChainOpen => 2,
            CreateTransferErrorKind::TimestampMustBeZero => 3,
            CreateTransferErrorKind::ReservedFlag => 4,
            CreateTransferErrorKind::IdMustNotBeZero => 5,
            CreateTransferErrorKind::IdMustNotBeIntMax => 6,
            CreateTransferErrorKind::FlagsAreMutuallyExclusive => 7,
            CreateTransferErrorKind::DebitAccountIdMustNotBeZero => 8,
            CreateTransferErrorKind::DebitAccountIdMustNotBeIntMax => 9,
            CreateTransferErrorKind::CreditAccountIdMustNotBeZero => 10,
            CreateTransferErrorKind::CreditAccountIdMustNotBeIntMax => 11,
            CreateTransferErrorKind::AccountsMustBeDifferent => 12,
            CreateTransferErrorKind::PendingIdMustBeZero => 13,
            CreateTransferErrorKind::PendingIdMustNotBeZero => 14,
            CreateTransferErrorKind::PendingIdMustNotBeIntMax => 15,
            CreateTransferErrorKind::PendingIdMustBeDifferent => 16,
            CreateTransferErrorKind::TimeoutReservedForPendingTransfer => 17,
            CreateTransferErrorKind::AmountMustNotBeZero => 18,
            CreateTransferErrorKind::LedgerMustNotBeZero => 19,
            CreateTransferErrorKind::CodeMustNotBeZero => 20,
            CreateTransferErrorKind::DebitAccountNotFound => 21,
            CreateTransferErrorKind::CreditAccountNotFound => 22,
            CreateTransferErrorKind::AccountsMustHaveTheSameLedger => 23,
            CreateTransferErrorKind::TransferMustHaveTheSameLedgerAsAccounts => 24,
            CreateTransferErrorKind::PendingTransferNotFound => 25,
            CreateTransferErrorKind::PendingTransferNotPending => 26,
            CreateTransferErrorKind::PendingTransferHasDifferentDebitAccountId => 27,
            CreateTransferErrorKind::PendingTransferHasDifferentCreditAccountId => 28,
            CreateTransferErrorKind::PendingTransferHasDifferentLedger => 29,
            CreateTransferErrorKind::PendingTransferHasDifferentCode => 30,
            CreateTransferErrorKind::ExceedsPendingTransferAmount => 31,
            CreateTransferErrorKind::PendingTransferHasDifferentAmount => 32,
            CreateTransferErrorKind::PendingTransferAlreadyPosted => 33,
            CreateTransferErrorKind::PendingTransferAlreadyVoided => 34,
            CreateTransferErrorKind::PendingTransferExpired => 35,
            CreateTransferErrorKind::ExistsWithDifferentFlags => 36,
            CreateTransferErrorKind::ExistsWithDifferentDebitAccountId => 37,
            CreateTransferErrorKind::ExistsWithDifferentCreditAccountId => 38,
            CreateTransferErrorKind::ExistsWithDifferentAmount => 39,
            CreateTransferErrorKind::ExistsWithDifferentPendingId => 40,
            CreateTransferErrorKind::ExistsWithDifferentUserData => 41,
            CreateTransferErrorKind::ExistsWithDifferentTimeout => 42,
            CreateTransferErrorKind::ExistsWithDifferentCode => 43,
            CreateTransferErrorKind::Exists => 44,
            CreateTransferErrorKind::OverflowsDebitsPending => 45,
            CreateTransferErrorKind::OverflowsCreditsPending => 46,
            CreateTransferErrorKind::OverflowsDebitsPosted => 47,
            CreateTransferErrorKind::OverflowsCreditsPosted => 48,
            CreateTransferErrorKind::OverflowsDebits => 49,
            CreateTransferErrorKind::OverflowsCredits => 50,
            CreateTransferErrorKind::OverflowsTimeout => 51,
            CreateTransferErrorKind::ExceedsCredits => 52,
            CreateTransferErrorKind::ExceedsDebits => 53,
            CreateTransferErrorKind::UnstableUncategorized => 0,
        }
    }

    /// The kind that `code` stands for.
    pub open spec fn spec_from_code(code: u32) -> CreateTransferErrorKind {
        match code {
            1 => CreateTransferErrorKind::LinkedEventFailed,
            2 => CreateTransferErrorKind::LinkedEventChainOpen,
            3 => CreateTransferErrorKind::TimestampMustBeZero,
            4 => CreateTransferErrorKind::ReservedFlag,
            5 => CreateTransferErrorKind::IdMustNotBeZero,
            6 => CreateTransferErrorKind::IdMustNotBeIntMax,
            7 => CreateTransferErrorKind::FlagsAreMutuallyExclusive,
            8 => CreateTransferErrorKind::DebitAccountIdMustNotBeZero,
            9 => CreateTransferErrorKind::DebitAccountIdMustNotBeIntMax,
            10 => CreateTransferErrorKind::CreditAccountIdMustNotBeZero,
            11 => CreateTransferErrorKind::CreditAccountIdMustNotBeIntMax,
            12 => CreateTransferErrorKind::AccountsMustBeDifferent,
            13 => CreateTransferErrorKind::PendingIdMustBeZero,
            14 => CreateTransferErrorKind::PendingIdMustNotBeZero,
            15 => CreateTransferErrorKind::PendingIdMustNotBeIntMax,
            16 => CreateTransferErrorKind::PendingIdMustBeDifferent,
            17 => CreateTransferErrorKind::TimeoutReservedForPendingTransfer,
            18 => CreateTransferErrorKind::AmountMustNotBeZero,
            19 => CreateTransferErrorKind::LedgerMustNotBeZero,
            20 => CreateTransferErrorKind::CodeMustNotBeZero,
            21 => CreateTransferErrorKind::DebitAccountNotFound,
            22 => CreateTransferErrorKind::CreditAccountNotFound,
            23 => CreateTransferErrorKind::AccountsMustHaveTheSameLedger,
            24 => CreateTransferErrorKind::TransferMustHaveTheSameLedgerAsAccounts,
            25 => CreateTransferErrorKind::PendingTransferNotFound,
            26 => CreateTransferErrorKind::PendingTransferNotPending,
            27 => CreateTransferErrorKind::PendingTransferHasDifferentDebitAccountId,
            28 => CreateTransferErrorKind::PendingTransferHasDifferentCreditAccountId,
            29 => CreateTransferErrorKind::PendingTransferHasDifferentLedger,
            30 => CreateTransferErrorKind::PendingTransferHasDifferentCode,
            31 => CreateTransferErrorKind::ExceedsPendingTransferAmount,
            32 => CreateTransferErrorKind::PendingTransferHasDifferentAmount,
            33 => CreateTransferErrorKind::PendingTransferAlreadyPosted,
            34 => CreateTransferErrorKind::PendingTransferAlreadyVoided,
            35 => CreateTransferErrorKind::PendingTransferExpired,
            36 => CreateTransferErrorKind::ExistsWithDifferentFlags,
            37 => CreateTransferErrorKind::ExistsWithDifferentDebitAccountId,
            38 => CreateTransferErrorKind::ExistsWithDifferentCreditAccountId,
            39 => CreateTransferErrorKind::ExistsWithDifferentAmount,
            40 => CreateTransferErrorKind::ExistsWithDifferentPendingId,
            41 => CreateTransferErrorKind::ExistsWithDifferentUserData,
            42 => CreateTransferErrorKind::ExistsWithDifferentTimeout,
            43 => CreateTransferErrorKind::ExistsWithDifferentCode,
            44 => CreateTransferErrorKind::Exists,
            45 => CreateTransferErrorKind::OverflowsDebitsPending,
            46 => CreateTransferErrorKind::OverflowsCreditsPending,
            47 => CreateTransferErrorKind::OverflowsDebitsPosted,
            48 => CreateTransferErrorKind::OverflowsCreditsPosted,
            49 => CreateTransferErrorKind::OverflowsDebits,
            50 => CreateTransferErrorKind::OverflowsCredits,
            51 => CreateTransferErrorKind::OverflowsTimeout,
            52 => CreateTransferErrorKind::ExceedsCredits,
            53 => CreateTransferErrorKind::ExceedsDebits,
            _ => CreateTransferErrorKind::UnstableUncategorized,
        }
    }

    /// The kind that `code` stands for: a known kind for each code in
    /// `MIN_CREATE_TRANSFER_ERROR_CODE..=MAX_CREATE_TRANSFER_ERROR_CODE`, the uncategorized kind for any other.
    pub fn from_code(code: u32) -> (r: CreateTransferErrorKind)
        ensures
            r == CreateTransferErrorKind::spec_from_code(code),
    {
        match code {
            1 => CreateTransferErrorKind::LinkedEventFailed,
            2 => CreateTransferErrorKind::LinkedEventChainOpen,
            3 => CreateTransferErrorKind::TimestampMustBeZero,
            4 => CreateTransferErrorKind::ReservedFlag,
            5 => CreateTransferErrorKind::IdMustNotBeZero,
            6 => CreateTransferErrorKind::IdMustNotBeIntMax,
            7 => CreateTransferErrorKind::FlagsAreMutuallyExclusive,
            8 => CreateTransferErrorKind::DebitAccountIdMustNotBeZero,
            9 => CreateTransferErrorKind::DebitAccountIdMustNotBeIntMax,
            10 => CreateTransferErrorKind::CreditAccountIdMustNotBeZero,
            11 => CreateTransferErrorKind::CreditAccountIdMustNotBeIntMax,
            12 => CreateTransferErrorKind::AccountsMustBeDifferent,
            13 => CreateTransferErrorKind::PendingIdMustBeZero,
            14 => CreateTransferErrorKind::PendingIdMustNotBeZero,
            15 => CreateTransferErrorKind::PendingIdMustNotBeIntMax,
            16 => CreateTransferErrorKind::PendingIdMustBeDifferent,
            17 => CreateTransferErrorKind::TimeoutReservedForPendingTransfer,
            18 => CreateTransferErrorKind::AmountMustNotBeZero,
            19 => CreateTransferErrorKind::LedgerMustNotBeZero,
            20 => CreateTransferErrorKind::CodeMustNotBeZero,
            21 => CreateTransferErrorKind::DebitAccountNotFound,
            22 => CreateTransferErrorKind::CreditAccountNotFound,
            23 => CreateTransferErrorKind::AccountsMustHaveTheSameLedger,
            24 => CreateTransferErrorKind::TransferMustHaveTheSameLedgerAsAccounts,
            25 => CreateTransferErrorKind::PendingTransferNotFound,
            26 => CreateTransferErrorKind::PendingTransferNotPending,
            27 => CreateTransferErrorKind::PendingTransferHasDifferentDebitAccountId,
            28 => CreateTransferErrorKind::PendingTransferHasDifferentCreditAccountId,
            29 => CreateTransferErrorKind::PendingTransferHasDifferentLedger,
            30 => CreateTransferErrorKind::PendingTransferHasDifferentCode,
            31 => CreateTransferErrorKind::ExceedsPendingTransferAmount,
            32 => CreateTransferErrorKind::PendingTransferHasDifferentAmount,
            33 => CreateTransferErrorKind::PendingTransferAlreadyPosted,
            34 => CreateTransferErrorKind::PendingTransferAlreadyVoided,
            35 => CreateTransferErrorKind::PendingTransferExpired,
            36 => CreateTransferErrorKind::ExistsWithDifferentFlags,
            37 => CreateTransferErrorKind::ExistsWithDifferentDebitAccountId,
            38 => CreateTransferErrorKind::ExistsWithDifferentCreditAccountId,
            39 => CreateTransferErrorKind::ExistsWithDifferentAmount,
            40 => CreateTransferErrorKind::ExistsWithDifferentPendingId,
            41 => CreateTransferErrorKind::ExistsWithDifferentUserData,
            42 => CreateTransferErrorKind::ExistsWithDifferentTimeout,
            43 => CreateTransferErrorKind::ExistsWithDifferentCode,
            44 => CreateTransferErrorKind::Exists,
            45 => CreateTransferErrorKind::OverflowsDebitsPending,
            46 => CreateTransferErrorKind::OverflowsCreditsPending,
            47 => CreateTransferErrorKind::OverflowsDebitsPosted,
            48 => CreateTransferErrorKind::OverflowsCreditsPosted,
            49 => CreateTransferErrorKind::OverflowsDebits,
            50 => CreateTransferErrorKind::OverflowsCredits,
            51 => CreateTransferErrorKind::OverflowsTimeout,
            52 => CreateTransferErrorKind::ExceedsCredits,
            53 => CreateTransferErrorKind::ExceedsDebits,
            _ => CreateTransferErrorKind::UnstableUncategorized,
        }
    }

    /// The code of this kind; `None` for the uncategorized kind.
    pub fn code(self) -> (r: Option<u32>)
        ensures
            self == CreateTransferErrorKind::UnstableUncategorized ==> r is None,
            self != CreateTransferErrorKind::UnstableUncategorized ==> r == Some(self.spec_code()),
    {
        match self {
            CreateTransferErrorKind::LinkedEventFailed => Some(1),
            CreateTransferErrorKind::LinkedEventChainOpen => Some(2),
            CreateTransferErrorKind::TimestampMustBeZero => Some(3),
            CreateTransferErrorKind::ReservedFlag => Some(4),
            CreateTransferErrorKind::IdMustNotBeZero => Some(5),
            CreateTransferErrorKind::IdMustNotBeIntMax => Some(6),
            CreateTransferErrorKind::FlagsAreMutuallyExclusive => Some(7),
            CreateTransferErrorKind::DebitAccountIdMustNotBeZero => Some(8),
            CreateTransferErrorKind::DebitAccountIdMustNotBeIntMax => Some(9),
            CreateTransferErrorKind::CreditAccountIdMustNotBeZero => Some(10),
            CreateTransferErrorKind::CreditAccountIdMustNotBeIntMax => Some(11),
            CreateTransferErrorKind::AccountsMustBeDifferent => Some(12),
            CreateTransferErrorKind::PendingIdMustBeZero => Some(13),
            CreateTransferErrorKind::PendingIdMustNotBeZero => Some(14),
            CreateTransferErrorKind::PendingIdMustNotBeIntMax => Some(15),
            CreateTransferErrorKind::PendingIdMustBeDifferent => Some(16),
            CreateTransferErrorKind::TimeoutReservedForPendingTransfer => Some(17),
            CreateTransferErrorKind::AmountMustNotBeZero => Some(18),
            CreateTransferErrorKind::LedgerMustNotBeZero => Some(19),
            CreateTransferErrorKind::CodeMustNotBeZero => Some(20),
            CreateTransferErrorKind::DebitAccountNotFound => Some(21),
            CreateTransferErrorKind::CreditAccountNotFound => Some(22),
            CreateTransferErrorKind::AccountsMustHaveTheSameLedger => Some(23),
            CreateTransferErrorKind::TransferMustHaveTheSameLedgerAsAccounts => Some(24),
            CreateTransferErrorKind::PendingTransferNotFound => Some(25),
            CreateTransferErrorKind::PendingTransferNotPending => Some(26),
            CreateTransferErrorKind::PendingTransferHasDifferentDebitAccountId => Some(27),
            CreateTransferErrorKind::PendingTransferHasDifferentCreditAccountId => Some(28),
            CreateTransferErrorKind::PendingTransferHasDifferentLedger => Some(29),
            CreateTransferErrorKind::PendingTransferHasDifferentCode => Some(30),
            CreateTransferErrorKind::ExceedsPendingTransferAmount => Some(31),
            CreateTransferErrorKind::PendingTransferHasDifferentAmount => Some(32),
            CreateTransferErrorKind::PendingTransferAlreadyPosted => Some(33),
            CreateTransferErrorKind::PendingTransferAlreadyVoided => Some(34),
            CreateTransferErrorKind::PendingTransferExpired => Some(35),
            CreateTransferErrorKind::ExistsWithDifferentFlags => Some(36),
            CreateTransferErrorKind::ExistsWithDifferentDebitAccountId => Some(37),
            CreateTransferErrorKind::ExistsWithDifferentCreditAccountId => Some(38),
            CreateTransferErrorKind::ExistsWithDifferentAmount => Some(39),
            CreateTransferErrorKind::ExistsWithDifferentPendingId => Some(40),
            CreateTransferErrorKind::ExistsWithDifferentUserData => Some(41),
            CreateTransferErrorKind::ExistsWithDifferentTimeout => Some(42),
            CreateTransferErrorKind::ExistsWithDifferentCode => Some(43),
            CreateTransferErrorKind::Exists => Some(44),
            CreateTransferErrorKind::OverflowsDebitsPending => Some(45),
            CreateTransferErrorKind::OverflowsCreditsPending => Some(46),
            CreateTransferErrorKind::OverflowsDebitsPosted => Some(47),
            CreateTransferErrorKind::OverflowsCreditsPosted => Some(48),
            CreateTransferErrorKind::OverflowsDebits => Some(49),
            CreateTransferErrorKind::OverflowsCredits => Some(50),
            CreateTransferErrorKind::OverflowsTimeout => Some(51),
            CreateTransferErrorKind::ExceedsCredits => Some(52),
            CreateTransferErrorKind::ExceedsDebits => Some(53),
            CreateTransferErrorKind::UnstableUncategorized => None,
        }
    }
}

/// Each code in `MIN_CREATE_TRANSFER_ERROR_CODE..=MAX_CREATE_TRANSFER_ERROR_CODE` names a known kind whose code it is, so
/// distinct codes name distinct kinds, in the order of their codes; every
/// other code names the uncategorized kind.
pub proof fn lemma_create_transfer_error_kind_codes(a: u32, b: u32)
    ensures
        MIN_CREATE_TRANSFER_ERROR_CODE <= a <= MAX_CREATE_TRANSFER_ERROR_CODE ==> CreateTransferErrorKind::spec_from_code(a) != CreateTransferErrorKind::UnstableUncategorized
            && CreateTransferErrorKind::spec_from_code(a).spec_code() == a,
        !(MIN_CREATE_TRANSFER_ERROR_CODE <= a <= MAX_CREATE_TRANSFER_ERROR_CODE) ==> CreateTransferErrorKind::spec_from_code(a) == CreateTransferErrorKind::UnstableUncategorized,
        MIN_CREATE_TRANSFER_ERROR_CODE <= a <= MAX_CREATE_TRANSFER_ERROR_CODE && MIN_CREATE_TRANSFER_ERROR_CODE <= b <= MAX_CREATE_TRANSFER_ERROR_CODE && a < b ==> CreateTransferErrorKind::spec_from_code(a).spec_code()
            < CreateTransferErrorKind::spec_from_code(b).spec_code(),
        MIN_CREATE_TRANSFER_ERROR_CODE <= a <= MAX_CREATE_TRANSFER_ERROR_CODE && MIN_CREATE_TRANSFER_ERROR_CODE <= b <= MAX_CREATE_TRANSFER_ERROR_CODE && a != b ==> CreateTransferErrorKind::spec_from_code(a)
            != CreateTransferErrorKind::spec_from_code(b),
{
}

/// The cluster's refusal of one transfer, by its non-zero result code.
#[derive(Clone, Copy, Debug, PartialEq, Eq)]
pub struct CreateTransferError(u32);

impl View for CreateTransferError {
    type V = u32;

    /// The status code, never zero.
    closed spec fn view(&self) -> u32 {
        self.0
    }
}

impl CreateTransferError {
    #[verifier::type_invariant]
    spec fn code_is_nonzero(self) -> bool {
        self.0 != 0
    }

    /// The error of a non-zero status code; `None` for zero, which means success.
    pub fn new(code: u32) -> (r: Option<Self>)
        ensures
            r is Some <==> code != 0,
            r matches Some(e) ==> e@ == code,
    {
        if code == 0 {
            None
        } else {
            Some(CreateTransferError(code))
        }
    }

    /// The error of a known kind.
    pub fn from_kind(kind: CreateTransferErrorKind) -> (r: Self)
        requires
            kind != CreateTransferErrorKind::UnstableUncategorized,
        ensures
            r@ == kind.spec_code(),
    {
        let code = match kind.code() {
            Some(c) => c,
            None => 1,
        };
        CreateTransferError(code)
    }

    /// What went wrong, by kind.
    pub fn kind(self) -> (r: CreateTransferErrorKind)
        ensures
            r == CreateTransferErrorKind::spec_from_code(self@),
    {
        CreateTransferErrorKind::from_code(self.0)
    }

    pub fn code(self) -> (r: u32)
        ensures
            r == self@,
            r != 0,
    {
        proof {
            use_type_invariant(&self);
        }
        self.0
    }
}

/// One entry of the reply to a request that creates accounts: the index of a
/// account in the request and the cluster's result code for it.
#[derive(Clone, Copy, Debug, PartialEq, Eq)]
pub struct RawCreateAccountsIndividualApiResult {
    pub index: u32,
    pub result: u32,
}

impl Record for RawCreateAccountsIndividualApiResult {
    open spec fn spec_size() -> nat {
        8
    }

    open spec fn spec_to_bytes(&self) -> Seq<u8> {
        layout_bytes(seq![self.index as nat, self.result as nat], result_widths())
    }

    open spec fn spec_from_bytes(b: Seq<u8>) -> Self {
        RawCreateAccountsIndividualApiResult {
            index: layout_values(b, result_widths())[0] as u32,
            result: layout_values(b, result_widths())[1] as u32,
        }
    }

    fn byte_size() -> (r: usize) {
        8
    }

    fn encode_into(&self, out: &mut Vec<u8>) {
        let vals: Vec<u128> = vec![self.index as u128, self.result as u128];
        let ws = result_width_vec();
        proof {
            lemma_pow256_widths();
            assert(values_of(vals@) =~= seq![self.index as nat, self.result as nat]);
        }
        write_fields(out, &vals, &ws);
    }

    fn decode_at(b: &[u8], off: usize) -> (r: Self) {
        let ws = result_width_vec();
        proof {
            reveal_with_fuel(crate::codec::offset, 4);
        }
        assert(total(widths_of(ws@)) == 8);
        let v = read_fields(b, off, &ws);
        proof {
            lemma_pow256_widths();
            assert(v@[0] as nat == values_of(v@)[0]);
            assert(v@[1] as nat == values_of(v@)[1]);
        }
        RawCreateAccountsIndividualApiResult { index: v[0] as u32, result: v[1] as u32 }
    }

    proof fn lemma_record_round_trip(&self) {
        lemma_pow256_widths();
        reveal_with_fuel(crate::codec::offset, 4);
        let vals = seq![self.index as nat, self.result as nat];
        assert(fits(vals, result_widths()));
        lemma_layout_round_trip(vals, result_widths());
        assert(total(result_widths()) == 8);
    }
}

/// One entry of the reply to a request that creates transfers: the index of a
/// transfer in the request and the cluster's result code for it.
#[derive(Clone, Copy, Debug, PartialEq, Eq)]
pub struct RawCreateTransfersIndividualApiResult {
    pub index: u32,
    pub result: u32,
}

impl Record for RawCreateTransfersIndividualApiResult {
    open spec fn spec_size() -> nat {
        8
    }

    open spec fn spec_to_bytes(&self) -> Seq<u8> {
        layout_bytes(seq![self.index as nat, self.result as nat], result_widths())
    }

    open spec fn spec_from_bytes(b: Seq<u8>) -> Self {
        RawCreateTransfersIndividualApiResult {
            index: layout_values(b, result_widths())[0] as u32,
            result: layout_values(b, result_widths())[1] as u32,
        }
    }

    fn byte_size() -> (r: usize) {
        8
    }

    fn encode_into(&self, out: &mut Vec<u8>) {
        let vals: Vec<u128> = vec![self.index as u128, self.result as u128];
        let ws = result_width_vec();
        proof {
            lemma_pow256_widths();
            assert(values_of(vals@) =~= seq![self.index as nat, self.result as nat]);
        }
        write_fields(out, &vals, &ws);
    }

    fn decode_at(b: &[u8], off: usize) -> (r: Self) {
        let ws = result_width_vec();
        proof {
            reveal_with_fuel(crate::codec::offset, 4);
        }
        assert(total(widths_of(ws@)) == 8);
        let v = read_fields(b, off, &ws);
        proof {
            lemma_pow256_widths();
            assert(v@[0] as nat == values_of(v@)[0]);
            assert(v@[1] as nat == values_of(v@)[1]);
        }
        RawCreateTransfersIndividualApiResult { index: v[0] as u32, result: v[1] as u32 }
    }

    proof fn lemma_record_round_trip(&self) {
        lemma_pow256_widths();
        reveal_with_fuel(crate::codec::offset, 4);
        let vals = seq![self.index as nat, self.result as nat];
        assert(fits(vals, result_widths()));
        lemma_layout_round_trip(vals, result_widths());
        assert(total(result_widths()) == 8);
    }
}

/// The cluster's refusal of one account of a batch: its index and result code.
#[derive(Clone, Copy, Debug, PartialEq, Eq)]
pub struct CreateAccountsIndividualApiError(RawCreateAccountsIndividualApiResult);

impl View for CreateAccountsIndividualApiError {
    type V = RawCreateAccountsIndividualApiResult;

    closed spec fn view(&self) -> RawCreateAccountsIndividualApiResult {
        self.0
    }
}

impl CreateAccountsIndividualApiError {
    #[verifier::type_invariant]
    spec fn result_is_nonzero(self) -> bool {
        self.0.result != 0
    }

    /// The refusal that `raw` records; `None` where its result is zero
    /// (success).
    pub fn from_raw_result(raw: RawCreateAccountsIndividualApiResult) -> (r: Option<Self>)
        ensures
            r is Some <==> raw.result != 0,
            r matches Some(e) ==> e@ == raw,
    {
        if raw.result != 0 {
            Some(CreateAccountsIndividualApiError(raw))
        } else {
            None
        }
    }

    /// The refusals among `v`, in order: the entries whose result is not zero.
    pub fn vec_from_raw_results(v: Vec<RawCreateAccountsIndividualApiResult>) -> (r: Vec<Self>)
        ensures
            views_account_errors(r@) == refused_account_errors(v@),
    {
        let mut out: Vec<Self> = Vec::new();
        let mut i: usize = 0;
        while i < v.len()
            invariant
                i <= v@.len(),
                views_account_errors(out@) == refused_account_errors(v@.take(i as int)),
            decreases v@.len() - i,
        {
            let raw = v[i];
            let ghost t = v@.take(i + 1);
            let ghost before = out@;
            assert(t.drop_last() =~= v@.take(i as int));
            assert(t.last() == raw);
            proof {
                reveal(Seq::filter);
            }
            if raw.result != 0 {
                out.push(CreateAccountsIndividualApiError(raw));
                assert(refused_account_errors(t) == refused_account_errors(v@.take(i as int)).push(raw));
                assert(views_account_errors(out@) =~= views_account_errors(before).push(raw));
            } else {
                assert(refused_account_errors(t) == refused_account_errors(v@.take(i as int)));
            }
            i = i + 1;
        }
        assert(v@.take(v@.len() as int) =~= v@);
        out
    }

    /// Index of the refused account in the request.
    pub fn index(&self) -> (r: u32)
        ensures
            r == self@.index,
    {
        self.0.index
    }

    /// The refusal without its index.
    pub fn inner(&self) -> (r: CreateAccountError)
        ensures
            r@ == self@.result,
    {
        proof {
            use_type_invariant(self);
        }
        CreateAccountError(self.0.result)
    }

    /// Why the account was refused, by kind.
    pub fn kind(&self) -> (r: CreateAccountErrorKind)
        ensures
            r == CreateAccountErrorKind::spec_from_code(self@.result),
    {
        self.inner().kind()
    }
}

/// The entries of `s` that record a refusal, in order.
pub open spec fn refused_account_errors(s: Seq<RawCreateAccountsIndividualApiResult>) -> Seq<RawCreateAccountsIndividualApiResult> {
    s.filter(|x: RawCreateAccountsIndividualApiResult| x.result != 0)
}

/// The raw entries behind refusals.
pub open spec fn views_account_errors(s: Seq<CreateAccountsIndividualApiError>) -> Seq<RawCreateAccountsIndividualApiResult> {
    s.map_values(|e: CreateAccountsIndividualApiError| e@)
}

/// The refusals of some accounts of a batch; never empty.
#[derive(Debug)]
pub struct CreateAccountsApiError(Vec<CreateAccountsIndividualApiError>);

impl View for CreateAccountsApiError {
    type V = Seq<CreateAccountsIndividualApiError>;

    closed spec fn view(&self) -> Seq<CreateAccountsIndividualApiError> {
        self.0@
    }
}

impl CreateAccountsApiError {
    #[verifier::type_invariant]
    spec fn not_empty(self) -> bool {
        self.0@.len() > 0
    }

    /// The refusals, in the order of the reply; never empty.
    pub fn as_slice(&self) -> (r: &[CreateAccountsIndividualApiError])
        ensures
            r@ == self@,
            r@.len() > 0,
    {
        proof {
            use_type_invariant(self);
        }
        self.0.as_slice()
    }

    /// The error made of refusals `v`; `None` where `v` is empty.
    pub fn from_errors(v: Vec<CreateAccountsIndividualApiError>) -> (r: Option<Self>)
        ensures
            r is Some <==> v@.len() > 0,
            r matches Some(e) ==> e@ == v@,
    {
        if v.len() == 0 {
            None
        } else {
            Some(CreateAccountsApiError(v))
        }
    }

    /// The error made of the refusals among the entries `v`; `None` where
    /// every entry is a success.
    pub fn from_raw_results(v: Vec<RawCreateAccountsIndividualApiResult>) -> (r: Option<Self>)
        ensures
            r is Some <==> refused_account_errors(v@).len() > 0,
            r matches Some(e) ==> views_account_errors(e@) == refused_account_errors(v@),
    {
        let errors = CreateAccountsIndividualApiError::vec_from_raw_results(v);
        Self::from_errors(errors)
    }
}

/// Why a batch of accounts was not created.
#[derive(Debug)]
pub enum CreateAccountsError {
    /// The request failed in transport.
    Send(SendError),
    /// The cluster refused some of the accounts.
    Api(CreateAccountsApiError),
}

/// The cluster's refusal of one transfer of a batch: its index and result code.
#[derive(Clone, Copy, Debug, PartialEq, Eq)]
pub struct CreateTransfersIndividualApiError(RawCreateTransfersIndividualApiResult);

impl View for CreateTransfersIndividualApiError {
    type V = RawCreateTransfersIndividualApiResult;

    closed spec fn view(&self) -> RawCreateTransfersIndividualApiResult {
        self.0
    }
}

impl CreateTransfersIndividualApiError {
    #[verifier::type_invariant]
    spec fn result_is_nonzero(self) -> bool {
        self.0.result != 0
    }

    /// The refusal that `raw` records; `None` where its result is zero
    /// (success).
    pub fn from_raw_result(raw: RawCreateTransfersIndividualApiResult) -> (r: Option<Self>)
        ensures
            r is Some <==> raw.result != 0,
            r matches Some(e) ==> e@ == raw,
    {
        if raw.result != 0 {
            Some(CreateTransfersIndividualApiError(raw))
        } else {
            None
        }
    }

    /// The refusals among `v`, in order: the entries whose result is not zero.
    pub fn vec_from_raw_results(v: Vec<RawCreateTransfersIndividualApiResult>) -> (r: Vec<Self>)
        ensures
            views_transfer_errors(r@) == refused_transfer_errors(v@),
    {
        let mut out: Vec<Self> = Vec::new();
        let mut i: usize = 0;
        while i < v.len()
            invariant
                i <= v@.len(),
                views_transfer_errors(out@) == refused_transfer_errors(v@.take(i as int)),
            decreases v@.len() - i,
        {
            let raw = v[i];
            let ghost t = v@.take(i + 1);
            let ghost before = out@;
            assert(t.drop_last() =~= v@.take(i as int));
            assert(t.last() == raw);
            proof {
                reveal(Seq::filter);
            }
            if raw.result != 0 {
                out.push(CreateTransfersIndividualApiError(raw));
                assert(refused_transfer_errors(t) == refused_transfer_errors(v@.take(i as int)).push(raw));
                assert(views_transfer_errors(out@) =~= views_transfer_errors(before).push(raw));
            } else {
                assert(refused_transfer_errors(t) == refused_transfer_errors(v@.take(i as int)));
            }
            i = i + 1;
        }
        assert(v@.take(v@.len() as int) =~= v@);
        out
    }

    /// Index of the refused transfer in the request.
    pub fn index(&self) -> (r: u32)
        ensures
            r == self@.index,
    {
        self.0.index
    }

    /// The refusal without its index.
    pub fn inner(&self) -> (r: CreateTransferError)
        ensures
            r@ == self@.result,
    {
        proof {
            use_type_invariant(self);
        }
        CreateTransferError(self.0.result)
    }

    /// Why the transfer was refused, by kind.
    pub fn kind(&self) -> (r: CreateTransferErrorKind)
        ensures
            r == CreateTransferErrorKind::spec_from_code(self@.result),
    {
        self.inner().kind()
    }
}

/// The entries of `s` that record a refusal, in order.
pub open spec fn refused_transfer_errors(s: Seq<RawCreateTransfersIndividualApiResult>) -> Seq<RawCreateTransfersIndividualApiResult> {
    s.filter(|x: RawCreateTransfersIndividualApiResult| x.result != 0)
}

/// The raw entries behind refusals.
pub open spec fn views_transfer_errors(s: Seq<CreateTransfersIndividualApiError>) -> Seq<RawCreateTransfersIndividualApiResult> {
    s.map_values(|e: CreateTransfersIndividualApiError| e@)
}

/// The refusals of some transfers of a batch; never empty.
#[derive(Debug)]
pub struct CreateTransfersApiError(Vec<CreateTransfersIndividualApiError>);

impl View for CreateTransfersApiError {
    type V = Seq<CreateTransfersIndividualApiError>;

    closed spec fn view(&self) -> Seq<CreateTransfersIndividualApiError> {
        self.0@
    }
}

impl CreateTransfersApiError {
    #[verifier::type_invariant]
    spec fn not_empty(self) -> bool {
        self.0@.len() > 0
    }

    /// The refusals, in the order of the reply; never empty.
    pub fn as_slice(&self) -> (r: &[CreateTransfersIndividualApiError])
        ensures
            r@ == self@,
            r@.len() > 0,
    {
        proof {
            use_type_invariant(self);
        }
        self.0.as_slice()
    }

    /// The error made of refusals `v`; `None` where `v` is empty.
    pub fn from_errors(v: Vec<CreateTransfersIndividualApiError>) -> (r: Option<Self>)
        ensures
            r is Some <==> v@.len() > 0,
            r matches Some(e) ==> e@ == v@,
    {
        if v.len() == 0 {
            None
        } else {
            Some(CreateTransfersApiError(v))
        }
    }

    /// The error made of the refusals among the entries `v`; `None` where
    /// every entry is a success.
    pub fn from_raw_results(v: Vec<RawCreateTransfersIndividualApiResult>) -> (r: Option<Self>)
        ensures
            r is Some <==> refused_transfer_errors(v@).len() > 0,
            r matches Some(e) ==> views_transfer_errors(e@) == refused_transfer_errors(v@),
    {
        let errors = CreateTransfersIndividualApiError::vec_from_raw_results(v);
        Self::from_errors(errors)
    }
}

/// Why a batch of transfers was not created.
#[derive(Debug)]
pub enum CreateTransfersError {
    /// The request failed in transport.
    Send(SendError),
    /// The cluster refused some of the transfers.
    Api(CreateTransfersApiError),
}

} // verus!
