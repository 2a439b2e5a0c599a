//! Authorization response codes and the system's error codes.
use vstd::prelude::*;

verus! {

/// Authorization response codes, each with its two-digit wire code.
#[derive(Clone, Copy, Debug, PartialEq, Eq, Structural)]
pub enum ResponseCodes {
    Approved,
    ReferToCardIssuer,
    InvalidMerchant,
    CaptureCard,
    DoNotHonor,
    HonorWithId,
    PartialApproval,
    InvalidTransaction,
    InvalidAmount,
    InvalidCardNumber,
    InvalidIssuer,
    FormatError,
    LostCard,
    StolenCard,
    InsufficientFunds,
    ExpiredCard,
    InvalidPin,
    TransactionNotPermittedToCardholder,
    TransactionNotPermittedToTerminal,
    ExceedsWithdrawalAmountLimit,
    RestrictedCard,
    ExceedsWithdrawalCountLimit,
    AllowableNumberOfPinTriesExceeded,
    DeactivatedCard,
    InvalidNonexistentAccountSpecified,
    DoNotHonorSwitch,
    CancelledCard,
    AuthorizationPlatformOrIssuerSystemInoperative,
    NotDeclined,
    PinValidationNotPossible,
    ApprovedPurchaseAmountOnlyNoCashBackAllowed,
    CryptographicFailure,
    InvalidCryptogram,
    AuthorizationSystemOrIssuerSystemInoperative,
    DuplicateTransmissionDetected,
    SystemError,
}

/// The wire code of a response.
pub open spec fn response_code_of(r: ResponseCodes) -> u8 {
    match r {
        ResponseCodes::Approved => 0,
        ResponseCodes::ReferToCardIssuer => 1,
        ResponseCodes::InvalidMerchant => 3,
        ResponseCodes::CaptureCard => 4,
        ResponseCodes::DoNotHonor => 5,
        ResponseCodes::HonorWithId => 8,
        ResponseCodes::PartialApproval => 10,
        ResponseCodes::InvalidTransaction => 12,
        ResponseCodes::InvalidAmount => 13,
        ResponseCodes::InvalidCardNumber => 14,
        ResponseCodes::InvalidIssuer => 15,
        ResponseCodes::FormatError => 30,
        ResponseCodes::LostCard => 41,
        ResponseCodes::StolenCard => 43,
        ResponseCodes::InsufficientFunds => 51,
        ResponseCodes::ExpiredCard => 54,
        ResponseCodes::InvalidPin => 55,
        ResponseCodes::TransactionNotPermittedToCardholder => 57,
        ResponseCodes::TransactionNotPermittedToTerminal => 58,
        ResponseCodes::ExceedsWithdrawalAmountLimit => 61,
        ResponseCodes::RestrictedCard => 62,
        ResponseCodes::ExceedsWithdrawalCountLimit => 65,
        ResponseCodes::AllowableNumberOfPinTriesExceeded => 75,
        ResponseCodes::DeactivatedCard => 78,
        ResponseCodes::InvalidNonexistentAccountSpecified => 79,
        ResponseCodes::DoNotHonorSwitch => 80,
        ResponseCodes::CancelledCard => 81,
        ResponseCodes::AuthorizationPlatformOrIssuerSystemInoperative => 84,
        ResponseCodes::NotDeclined => 85,
        ResponseCodes::PinValidationNotPossible => 86,
        ResponseCodes::ApprovedPurchaseAmountOnlyNoCashBackAllowed => 87,
        ResponseCodes::CryptographicFailure => 88,
        ResponseCodes::InvalidCryptogram => 89,
        ResponseCodes::AuthorizationSystemOrIssuerSystemInoperative => 91,
        ResponseCodes::DuplicateTransmissionDetected => 94,
        ResponseCodes::SystemError => 96,
    }
}

impl ResponseCodes {
    /// The wire code of this response.
    pub fn code(&self) -> (r: u8)
        ensures
            r == response_code_of(*self),
    {
        match self {
            ResponseCodes::Approved => 0,
            ResponseCodes::ReferToCardIssuer => 1,
            ResponseCodes::InvalidMerchant => 3,
            ResponseCodes::CaptureCard => 4,
            ResponseCodes::DoNotHonor => 5,
            ResponseCodes::HonorWithId => 8,
            ResponseCodes::PartialApproval => 10,
            ResponseCodes::InvalidTransaction => 12,
            ResponseCodes::InvalidAmount => 13,
            ResponseCodes::InvalidCardNumber => 14,
            ResponseCodes::InvalidIssuer => 15,
            ResponseCodes::FormatError => 30,
            ResponseCodes::LostCard => 41,
            ResponseCodes::StolenCard => 43,
            ResponseCodes::InsufficientFunds => 51,
            ResponseCodes::ExpiredCard => 54,
            ResponseCodes::InvalidPin => 55,
            ResponseCodes::TransactionNotPermittedToCardholder => 57,
            ResponseCodes::TransactionNotPermittedToTerminal => 58,
            ResponseCodes::ExceedsWithdrawalAmountLimit => 61,
            ResponseCodes::RestrictedCard => 62,
            ResponseCodes::ExceedsWithdrawalCountLimit => 65,
            ResponseCodes::AllowableNumberOfPinTriesExceeded => 75,
            ResponseCodes::DeactivatedCard => 78,
            ResponseCodes::InvalidNonexistentAccountSpecified => 79,
            ResponseCodes::DoNotHonorSwitch => 80,
            ResponseCodes::CancelledCard => 81,
            ResponseCodes::AuthorizationPlatformOrIssuerSystemInoperative => 84,
            ResponseCodes::NotDeclined => 85,
            ResponseCodes::PinValidationNotPossible => 86,
            ResponseCodes::ApprovedPurchaseAmountOnlyNoCashBackAllowed => 87,
            ResponseCodes::CryptographicFailure => 88,
            ResponseCodes::InvalidCryptogram => 89,
            ResponseCodes::AuthorizationSystemOrIssuerSystemInoperative => 91,
            ResponseCodes::DuplicateTransmissionDetected => 94,
            ResponseCodes::SystemError => 96,
        }
    }

    /// The response with wire code `code`. `ApprovedPurchaseAmountOnlyNoCashBackAllowed`
    /// is never read back from a code.
    pub fn from_code(code: u8) -> (r: Option<Self>)
        ensures
            r matches Some(c) ==> response_code_of(c) == code
                && c != ResponseCodes::ApprovedPurchaseAmountOnlyNoCashBackAllowed,
            r is None ==> forall|c: ResponseCodes|
                c != ResponseCodes::ApprovedPurchaseAmountOnlyNoCashBackAllowed
                    ==> #[trigger] response_code_of(c) != code,
    {
        match code {
            0 => Some(ResponseCodes::Approved),
            1 => Some(ResponseCodes::ReferToCardIssuer),
            3 => Some(ResponseCodes::InvalidMerchant),
            4 => Some(ResponseCodes::CaptureCard),
            5 => Some(ResponseCodes::DoNotHonor),
            8 => Some(ResponseCodes::HonorWithId),
            10 => Some(ResponseCodes::PartialApproval),
            12 => Some(ResponseCodes::InvalidTransaction),
            13 => Some(ResponseCodes::InvalidAmount),
            14 => Some(ResponseCodes::InvalidCardNumber),
            15 => Some(ResponseCodes::InvalidIssuer),
            30 => Some(ResponseCodes::FormatError),
            41 => Some(ResponseCodes::LostCard),
            43 => Some(ResponseCodes::StolenCard),
            51 => Some(ResponseCodes::InsufficientFunds),
            54 => Some(ResponseCodes::ExpiredCard),
            55 => Some(ResponseCodes::InvalidPin),
            57 => Some(ResponseCodes::TransactionNotPermittedToCardholder),
            58 => Some(ResponseCodes::TransactionNotPermittedToTerminal),
            61 => Some(ResponseCodes::ExceedsWithdrawalAmountLimit),
            62 => Some(ResponseCodes::RestrictedCard),
            65 => Some(ResponseCodes::ExceedsWithdrawalCountLimit),
            75 => Some(ResponseCodes::AllowableNumberOfPinTriesExceeded),
            78 => Some(ResponseCodes::DeactivatedCard),
            79 => Some(ResponseCodes::InvalidNonexistentAccountSpecified),
            80 => Some(ResponseCodes::DoNotHonorSwitch),
            81 => Some(ResponseCodes::CancelledCard),
            84 => Some(ResponseCodes::AuthorizationPlatformOrIssuerSystemInoperative),
            85 => Some(ResponseCodes::NotDeclined),
            86 => Some(ResponseCodes::PinValidationNotPossible),
            88 => Some(ResponseCodes::CryptographicFailure),
            89 => Some(ResponseCodes::InvalidCryptogram),
            91 => Some(ResponseCodes::AuthorizationSystemOrIssuerSystemInoperative),
            94 => Some(ResponseCodes::DuplicateTransmissionDetected),
            96 => Some(ResponseCodes::SystemError),
            _ => None,
        }
    }
}

impl Default for ResponseCodes {
    fn default() -> (r: Self)
        ensures
            r == ResponseCodes::SystemError,
    {
        ResponseCodes::SystemError
    }
}

/// Error codes of the system. A code is a block number times 100, plus the
/// detail that the variant carries, if it carries one.
#[derive(Clone, Copy, Debug, PartialEq, Eq, Structural)]
pub enum SystemErrorCodes {
    Unknown,
    UnknownReason,
    UnReachable(u8),
    ClosedChannel(u8),
    BufferFull,
    DbNoConn(u8),
    DbQuery(u8),
    DbStmt(u8),
    DbTransaction(u8),
    DbRollback(u8),
    DbCommit(u8),
    NoInsertId(u8),
    BadFormat,
    DecimalToF64,
    StringParse(u8),
    JsonParse(u8),
    ExchangeConfiguration,
    MissingCreditCurrency(u8),
    MissingDebitCurrency(u8),
    MissingFromCurrency(u8),
    MissingToCurrency(u8),
    ScriptError(u8),
    MissingKey(u8),
    InvalidCipherResponse,
    CipherError,
    TcpConn,
    InvalidProductId(u8),
    InvalidEntityId,
    InvalidFraudRuleGroup,
    TransactionGroupNotFound(u8),
    TransactionLogNotFound,
    UnknownBlocksId(u8),
    UnknownOperation,
    NoBalancesLock(u8),
    UnknownWalletsId,
    InconsistentTransactionGroup(u8),
    Encryption,
    RequestError,
    LastLogIdChanged,
    NoCollectingBalances,
}

/// The block number (hundreds) of an error code.
pub open spec fn error_block(e: SystemErrorCodes) -> u16 {
    match e {
        SystemErrorCodes::Unknown => 10,
        SystemErrorCodes::UnknownReason => 11,
        SystemErrorCodes::UnReachable(_) => 12,
        SystemErrorCodes::ClosedChannel(_) => 13,
        SystemErrorCodes::BufferFull => 14,
        SystemErrorCodes::DbNoConn(_) => 20,
        SystemErrorCodes::DbQuery(_) => 21,
        SystemErrorCodes::DbStmt(_) => 22,
        SystemErrorCodes::DbTransaction(_) => 23,
        SystemErrorCodes::DbRollback(_) => 24,
        SystemErrorCodes::DbCommit(_) => 25,
        SystemErrorCodes::NoInsertId(_) => 26,
        SystemErrorCodes::BadFormat => 30,
        SystemErrorCodes::DecimalToF64 => 31,
        SystemErrorCodes::StringParse(_) => 32,
        SystemErrorCodes::JsonParse(_) => 33,
        SystemErrorCodes::ExchangeConfiguration => 40,
        SystemErrorCodes::MissingCreditCurrency(_) => 41,
        SystemErrorCodes::MissingDebitCurrency(_) => 42,
        SystemErrorCodes::MissingFromCurrency(_) => 43,
        SystemErrorCodes::MissingToCurrency(_) => 44,
        SystemErrorCodes::ScriptError(_) => 50,
        SystemErrorCodes::MissingKey(_) => 51,
        SystemErrorCodes::InvalidCipherResponse => 52,
        SystemErrorCodes::CipherError => 53,
        SystemErrorCodes::TcpConn => 54,
        SystemErrorCodes::InvalidProductId(_) => 60,
        SystemErrorCodes::InvalidEntityId => 61,
        SystemErrorCodes::InvalidFraudRuleGroup => 62,
        SystemErrorCodes::TransactionGroupNotFound(_) => 63,
        SystemErrorCodes::TransactionLogNotFound => 64,
        SystemErrorCodes::UnknownBlocksId(_) => 65,
        SystemErrorCodes::UnknownOperation => 66,
        SystemErrorCodes::NoBalancesLock(_) => 67,
        SystemErrorCodes::UnknownWalletsId => 68,
        SystemErrorCodes::InconsistentTransactionGroup(_) => 69,
        SystemErrorCodes::Encryption => 70,
        SystemErrorCodes::RequestError => 71,
        SystemErrorCodes::LastLogIdChanged => 72,
        SystemErrorCodes::NoCollectingBalances => 73,
    }
}

/// The detail that an error code carries, zero for those that carry none.
pub open spec fn error_detail(e: SystemErrorCodes) -> u8 {
    match e {
        SystemErrorCodes::UnReachable(v) => v,
        SystemErrorCodes::ClosedChannel(v) => v,
        SystemErrorCodes::DbNoConn(v) => v,
        SystemErrorCodes::DbQuery(v) => v,
        SystemErrorCodes::DbStmt(v) => v,
        SystemErrorCodes::DbTransaction(v) => v,
        SystemErrorCodes::DbRollback(v) => v,
        SystemErrorCodes::DbCommit(v) => v,
        SystemErrorCodes::NoInsertId(v) => v,
        SystemErrorCodes::StringParse(v) => v,
        SystemErrorCodes::JsonParse(v) => v,
        SystemErrorCodes::MissingCreditCurrency(v) => v,
        SystemErrorCodes::MissingDebitCurrency(v) => v,
        SystemErrorCodes::MissingFromCurrency(v) => v,
        SystemErrorCodes::MissingToCurrency(v) => v,
        SystemErrorCodes::ScriptError(v) => v,
        SystemErrorCodes::MissingKey(v) => v,
        SystemErrorCodes::InvalidProductId(v) => v,
        SystemErrorCodes::TransactionGroupNotFound(v) => v,
        SystemErrorCodes::UnknownBlocksId(v) => v,
        SystemErrorCodes::NoBalancesLock(v) => v,
        SystemErrorCodes::InconsistentTransactionGroup(v) => v,
        _ => 0,
    }
}

/// Whether the variant carries a detail.
pub open spec fn carries_detail(e: SystemErrorCodes) -> bool {
    match e {
        SystemErrorCodes::UnReachable(_) => true,
        SystemErrorCodes::ClosedChannel(_) => true,
        SystemErrorCodes::DbNoConn(_) => true,
        SystemErrorCodes::DbQuery(_) => true,
        SystemErrorCodes::DbStmt(_) => true,
        SystemErrorCodes::DbTransaction(_) => true,
        SystemErrorCodes::DbRollback(_) => true,
        SystemErrorCodes::DbCommit(_) => true,
        SystemErrorCodes::NoInsertId(_) => true,
        SystemErrorCodes::StringParse(_) => true,
        SystemErrorCodes::JsonParse(_) => true,
        SystemErrorCodes::MissingCreditCurrency(_) => true,
        SystemErrorCodes::MissingDebitCurrency(_) => true,
        SystemErrorCodes::MissingFromCurrency(_) => true,
        SystemErrorCodes::MissingToCurrency(_) => true,
        SystemErrorCodes::ScriptError(_) => true,
        SystemErrorCodes::MissingKey(_) => true,
        SystemErrorCodes::InvalidProductId(_) => true,
        SystemErrorCodes::TransactionGroupNotFound(_) => true,
        SystemErrorCodes::UnknownBlocksId(_) => true,
        SystemErrorCodes::NoBalancesLock(_) => true,
        SystemErrorCodes::InconsistentTransactionGroup(_) => true,
        _ => false,
    }
}

impl SystemErrorCodes {
    /// The numeric code: block times 100 plus detail.
    pub fn code(&self) -> (r: u16)
        ensures
            r == error_block(*self) * 100 + error_detail(*self),
    {
        match self {
            Self::Unknown => 1000,
            Self::UnknownReason => 1100,
            Self::UnReachable(v) => 1200 + *v as u16,
            Self::ClosedChannel(v) => 1300 + *v as u16,
            Self::BufferFull => 1400,
            Self::DbNoConn(v) => 2000 + *v as u16,
            Self::DbQuery(v) => 2100 + *v as u16,
            Self::DbStmt(v) => 2200 + *v as u16,
            Self::DbTransaction(v) => 2300 + *v as u16,
            Self::DbRollback(v) => 2400 + *v as u16,
            Self::DbCommit(v) => 2500 + *v as u16,
            Self::NoInsertId(v) => 2600 + *v as u16,
            Self::BadFormat => 3000,
            Self::DecimalToF64 => 3100,
            Self::StringParse(v) => 3200 + *v as u16,
            Self::JsonParse(v) => 3300 + *v as u16,
            Self::ExchangeConfiguration => 4000,
            Self::MissingCreditCurrency(v) => 4100 + *v as u16,
            Self::MissingDebitCurrency(v) => 4200 + *v as u16,
            Self::MissingFromCurrency(v) => 4300 + *v as u16,
            Self::MissingToCurrency(v) => 4400 + *v as u16,
            Self::ScriptError(v) => 5000 + *v as u16,
            Self::MissingKey(v) => 5100 + *v as u16,
            Self::InvalidCipherResponse => 5200,
            Self::CipherError => 5300,
            Self::TcpConn => 5400,
            Self::InvalidProductId(v) => 6000 + *v as u16,
            Self::InvalidEntityId => 6100,
            Self::InvalidFraudRuleGroup => 6200,
            Self::TransactionGroupNotFound(v) => 6300 + *v as u16,
            Self::TransactionLogNotFound => 6400,
            Self::UnknownBlocksId(v) => 6500 + *v as u16,
            Self::UnknownOperation => 6600,
            Self::NoBalancesLock(v) => 6700 + *v as u16,
            Self::UnknownWalletsId => 6800,
            Self::InconsistentTransactionGroup(v) => 6900 + *v as u16,
            Self::Encryption => 7000,
            Self::RequestError => 7100,
            Self::LastLogIdChanged => 7200,
            Self::NoCollectingBalances => 7300,
        }
    }

    /// The response code that an error is reported with.
    pub fn as_response_code(&self) -> (r: ResponseCodes)
        ensures
            r == ResponseCodes::SystemError,
    {
        ResponseCodes::SystemError
    }

    /// The error code whose block is `code / 100`; a variant that carries a
    /// detail takes `code % 100`.
    pub fn from_u16(code: u16) -> (r: Option<Self>)
        ensures
            r matches Some(e) ==> error_block(e) == code / 100 && (carries_detail(e)
                ==> error_detail(e) == code % 100),
            r is None ==> forall|e: SystemErrorCodes| #[trigger] error_block(e) != code / 100,
    {
        let detail = (code % 100) as u8;
        match code / 100 {
            10 => Some(Self::Unknown),
            11 => Some(Self::UnknownReason),
            12 => Some(Self::UnReachable(detail)),
            13 => Some(Self::ClosedChannel(detail)),
            14 => Some(Self::BufferFull),
            20 => Some(Self::DbNoConn(detail)),
            21 => Some(Self::DbQuery(detail)),
            22 => Some(Self::DbStmt(detail)),
            23 => Some(Self::DbTransaction(detail)),
            24 => Some(Self::DbRollback(detail)),
            25 => Some(Self::DbCommit(detail)),
            26 => Some(Self::NoInsertId(detail)),
            30 => Some(Self::BadFormat),
            31 => Some(Self::DecimalToF64),
            32 => Some(Self::StringParse(detail)),
            33 => Some(Self::JsonParse(detail)),
            40 => Some(Self::ExchangeConfiguration),
            41 => Some(Self::MissingCreditCurrency(detail)),
            42 => Some(Self::MissingDebitCurrency(detail)),
            43 => Some(Self::MissingFromCurrency(detail)),
            44 => Some(Self::MissingToCurrency(detail)),
            50 => Some(Self::ScriptError(detail)),
            51 => Some(Self::MissingKey(detail)),
            52 => Some(Self::InvalidCipherResponse),
            53 => Some(Self::CipherError),
            54 => Some(Self::TcpConn),
            60 => Some(Self::InvalidProductId(detail)),
            61 => Some(Self::InvalidEntityId),
            62 => Some(Self::InvalidFraudRuleGroup),
            63 => Some(Self::TransactionGroupNotFound(detail)),
            64 => Some(Self::TransactionLogNotFound),
            65 => Some(Self::UnknownBlocksId(detail)),
            66 => Some(Self::UnknownOperation),
            67 => Some(Self::NoBalancesLock(detail)),
            68 => Some(Self::UnknownWalletsId),
            69 => Some(Self::InconsistentTransactionGroup(detail)),
            70 => Some(Self::Encryption),
            71 => Some(Self::RequestError),
            72 => Some(Self::LastLogIdChanged),
            73 => Some(Self::NoCollectingBalances),
            _ => None,
        }
    }
}

} // verus!
