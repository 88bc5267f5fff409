//! Error types of the treasury, of the price oracle and of the ledger.
use vstd::prelude::*;

verus! {

/// Failures of the treasury's lifecycle operations.
#[derive(Clone, Copy, Debug, PartialEq, Eq, Structural)]
pub enum TreasuryError {
    AlreadyInitialized,
    NotInitialized,
    NotASigner,
    AlreadyApproved,
    InsufficientApprovals,
    NotProposer,
    ProposalNotFound,
    ProposalAlreadyExecuted,
    ProposalExpired,
    ProposalCancelled,
    InvalidProposalType,
    ProposalStillPending,
    DailyMintLimitExceeded,
    DailyBurnLimitExceeded,
    SingleOpLimitExceeded,
    InvalidAmount,
    InvalidThreshold,
    TooManySigners,
    SignerAlreadyExists,
    SignerNotFound,
    CannotRemoveLastSigner,
    InvalidRateLimit,
    TokenAddressRequired,
    OracleNotConfigured,
    OraclePriceInvalid,
    InvalidUsdtAmount,
    /// The oracle refused a conversion; its own error is carried through.
    Oracle(OracleError),
}

impl TreasuryError {
    /// The numeric code under which the error is reported to callers.
    pub fn code(&self) -> (r: u32)
        ensures
            1 <= r <= 53,
    {
        match self {
            TreasuryError::Oracle(e) => e.code(),
            TreasuryError::AlreadyInitialized => 1,
            TreasuryError::NotInitialized => 2,
            TreasuryError::NotASigner => 11,
            TreasuryError::AlreadyApproved => 12,
            TreasuryError::InsufficientApprovals => 13,
            TreasuryError::NotProposer => 14,
            TreasuryError::ProposalNotFound => 21,
            TreasuryError::ProposalAlreadyExecuted => 22,
            TreasuryError::ProposalExpired => 23,
            TreasuryError::ProposalCancelled => 24,
            TreasuryError::InvalidProposalType => 25,
            TreasuryError::ProposalStillPending => 26,
            TreasuryError::DailyMintLimitExceeded => 31,
            TreasuryError::DailyBurnLimitExceeded => 32,
            TreasuryError::SingleOpLimitExceeded => 33,
            TreasuryError::InvalidAmount => 34,
            TreasuryError::InvalidThreshold => 41,
            TreasuryError::TooManySigners => 42,
            TreasuryError::SignerAlreadyExists => 43,
            TreasuryError::SignerNotFound => 44,
            TreasuryError::CannotRemoveLastSigner => 45,
            TreasuryError::InvalidRateLimit => 46,
            TreasuryError::TokenAddressRequired => 47,
            TreasuryError::OracleNotConfigured => 51,
            TreasuryError::OraclePriceInvalid => 52,
            TreasuryError::InvalidUsdtAmount => 53,
        }
    }
}

/// Failures of the price oracle.
#[derive(Clone, Copy, Debug, PartialEq, Eq, Structural)]
pub enum OracleError {
    AlreadyInitialized,
    NotInitialized,
    Unauthorized,
    NotAnOperator,
    InvalidPrice,
    PriceStale,
    PriceDeviationTooHigh,
    InsufficientSources,
    InvalidExchange,
    InvalidConfiguration,
    OperatorAlreadyExists,
    OperatorNotFound,
}

/// The numeric code under which an oracle error is reported.
pub open spec fn oracle_error_code(e: OracleError) -> u32 {
    match e {
        OracleError::AlreadyInitialized => 1,
        OracleError::NotInitialized => 2,
        OracleError::Unauthorized => 11,
        OracleError::NotAnOperator => 12,
        OracleError::InvalidPrice => 21,
        OracleError::PriceStale => 22,
        OracleError::PriceDeviationTooHigh => 23,
        OracleError::InsufficientSources => 24,
        OracleError::InvalidExchange => 25,
        OracleError::InvalidConfiguration => 31,
        OracleError::OperatorAlreadyExists => 32,
        OracleError::OperatorNotFound => 33,
    }
}

impl OracleError {
    /// The numeric code under which the error is reported to callers.
    pub fn code(&self) -> (r: u32)
        ensures
            r == oracle_error_code(*self),
            1 <= r <= 33,
    {
        match self {
            OracleError::AlreadyInitialized => 1,
            OracleError::NotInitialized => 2,
            OracleError::Unauthorized => 11,
            OracleError::NotAnOperator => 12,
            OracleError::InvalidPrice => 21,
            OracleError::PriceStale => 22,
            OracleError::PriceDeviationTooHigh => 23,
            OracleError::InsufficientSources => 24,
            OracleError::InvalidExchange => 25,
            OracleError::InvalidConfiguration => 31,
            OracleError::OperatorAlreadyExists => 32,
            OracleError::OperatorNotFound => 33,
        }
    }

    /// The error reported under `code`, if any.
    pub fn from_code(code: u32) -> (r: Option<OracleError>)
        ensures
            r matches Some(e) ==> oracle_error_code(e) == code,
            r is None ==> forall|e: OracleError| oracle_error_code(e) != code,
    {
        match code {
            1 => Some(OracleError::AlreadyInitialized),
            2 => Some(OracleError::NotInitialized),
            11 => Some(OracleError::Unauthorized),
            12 => Some(OracleError::NotAnOperator),
            21 => Some(OracleError::InvalidPrice),
            22 => Some(OracleError::PriceStale),
            23 => Some(OracleError::PriceDeviationTooHigh),
            24 => Some(OracleError::InsufficientSources),
            25 => Some(OracleError::InvalidExchange),
            31 => Some(OracleError::InvalidConfiguration),
            32 => Some(OracleError::OperatorAlreadyExists),
            33 => Some(OracleError::OperatorNotFound),
            _ => None,
        }
    }
}

/// Failures of the value ledger.
#[derive(Clone, Copy, Debug, PartialEq, Eq, Structural)]
pub enum BOBTError {
    Unauthorized,
    InvalidRole,
    RoleAlreadyGranted,
    RoleNotGranted,
    InvalidNewOwner,
    ContractPaused,
    ContractNotPaused,
    AccountFrozen,
    AccountNotFrozen,
    CannotFreezeZeroAddress,
    OperationOnFrozenAccount,
    InsufficientBalance,
    InsufficientAllowance,
    NegativeAmount,
    OverflowError,
    InvalidRecipient,
    InvalidSender,
    AmountTooLarge,
    CannotTransferToSelf,
    RequestAlreadyExists,
    RequestNotFound,
    InvalidRequestId,
    CannotRescueOwnToken,
    InsufficientRescueBalance,
    MigrationFailed,
    InvalidWasmHash,
    AlreadyInitialized,
    NotInitialized,
}

} // verus!
