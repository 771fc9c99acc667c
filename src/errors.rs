//! Error kinds of the signal protocol and small checks that produce them.

use vstd::prelude::*;

verus! {

/// Base of the numeric error codes: the first kind has this code, each later
/// kind the next number.
pub const ERROR_CODE_OFFSET: u32 = 6000;

/// Every reason for which an operation can be rejected.
#[derive(Clone, Copy, Debug, PartialEq, Eq, Structural)]
pub enum SsoError {
    // Authorization
    ProviderNotRegistered,
    Unauthorized,
    ProviderNotActive,
    AdminRequired,
    ProviderAuthorityMismatch,
    // Slots and validity
    SignalExpired,
    ValidityPeriodTooLong,
    ValidityPeriodTooShort,
    InvalidSlotTimestamp,
    StaleMarketData,
    // Market context
    InvalidMarketContext,
    ZeroPrice,
    InsufficientSources,
    SourceBitmapMismatch,
    InvalidAssetSymbol,
    // Signal assessment
    InvalidSignalAssessment,
    InsufficientConfidence,
    BasisPointOverflow,
    InvalidSignalDirection,
    InvalidStrengthScore,
    // Attestation
    TeeVerificationFailed,
    EnclaveNotAllowed,
    InvalidTeeSignature,
    UnsupportedTeePlatform,
    InvalidTeeTimestamp,
    ReportDataMismatch,
    // Account state
    InvalidSignalState,
    AlreadyInitialized,
    SignalNotFound,
    AlreadyRevoked,
    CannotUpdateExpired,
    CorruptedAccountData,
    // Protocol configuration
    ProtocolPaused,
    ConfigNotInitialized,
    InvalidConfigParameter,
    MaxEnclavesExceeded,
    EnclaveAlreadyExists,
    EnclaveNotFound,
    VersionMismatch,
    // General
    ArithmeticOverflow,
    InvalidPdaSeeds,
    AccountAlreadyExists,
    OperationNotAllowed,
}

/// Position of a kind in the declaration order above.
pub open spec fn error_index(e: SsoError) -> nat {
    match e {
        SsoError::ProviderNotRegistered => 0,
        SsoError::Unauthorized => 1,
        SsoError::ProviderNotActive => 2,
        SsoError::AdminRequired => 3,
        SsoError::ProviderAuthorityMismatch => 4,
        SsoError::SignalExpired => 5,
        SsoError::ValidityPeriodTooLong => 6,
        SsoError::ValidityPeriodTooShort => 7,
        SsoError::InvalidSlotTimestamp => 8,
        SsoError::StaleMarketData => 9,
        SsoError::InvalidMarketContext => 10,
        SsoError::ZeroPrice => 11,
        SsoError::InsufficientSources => 12,
        SsoError::SourceBitmapMismatch => 13,
        SsoError::InvalidAssetSymbol => 14,
        SsoError::InvalidSignalAssessment => 15,
        SsoError::InsufficientConfidence => 16,
        SsoError::BasisPointOverflow => 17,
        SsoError::InvalidSignalDirection => 18,
        SsoError::InvalidStrengthScore => 19,
        SsoError::TeeVerificationFailed => 20,
        SsoError::EnclaveNotAllowed => 21,
        SsoError::InvalidTeeSignature => 22,
        SsoError::UnsupportedTeePlatform => 23,
        SsoError::InvalidTeeTimestamp => 24,
        SsoError::ReportDataMismatch => 25,
        SsoError::InvalidSignalState => 26,
        SsoError::AlreadyInitialized => 27,
        SsoError::SignalNotFound => 28,
        SsoError::AlreadyRevoked => 29,
        SsoError::CannotUpdateExpired => 30,
        SsoError::CorruptedAccountData => 31,
        SsoError::ProtocolPaused => 32,
        SsoError::ConfigNotInitialized => 33,
        SsoError::InvalidConfigParameter => 34,
        SsoError::MaxEnclavesExceeded => 35,
        SsoError::EnclaveAlreadyExists => 36,
        SsoError::EnclaveNotFound => 37,
        SsoError::VersionMismatch => 38,
        SsoError::ArithmeticOverflow => 39,
        SsoError::InvalidPdaSeeds => 40,
        SsoError::AccountAlreadyExists => 41,
        SsoError::OperationNotAllowed => 42,
    }
}

impl SsoError {
    /// The numeric code reported for this kind: the offset plus its position.
    pub fn code(&self) -> (r: u32)
        ensures
            r == ERROR_CODE_OFFSET + error_index(*self),
    {
        let index: u32 = match self {
            SsoError::ProviderNotRegistered => 0,
            SsoError::Unauthorized => 1,
            SsoError::ProviderNotActive => 2,
            SsoError::AdminRequired => 3,
            SsoError::ProviderAuthorityMismatch => 4,
            SsoError::SignalExpired => 5,
            SsoError::ValidityPeriodTooLong => 6,
            SsoError::ValidityPeriodTooShort => 7,
            SsoError::InvalidSlotTimestamp => 8,
            SsoError::StaleMarketData => 9,
            SsoError::InvalidMarketContext => 10,
            SsoError::ZeroPrice => 11,
            SsoError::InsufficientSources => 12,
            SsoError::SourceBitmapMismatch => 13,
            SsoError::InvalidAssetSymbol => 14,
            SsoError::InvalidSignalAssessment => 15,
            SsoError::InsufficientConfidence => 16,
            SsoError::BasisPointOverflow => 17,
            SsoError::InvalidSignalDirection => 18,
            SsoError::InvalidStrengthScore => 19,
            SsoError::TeeVerificationFailed => 20,
            SsoError::EnclaveNotAllowed => 21,
            SsoError::InvalidTeeSignature => 22,
            SsoError::UnsupportedTeePlatform => 23,
            SsoError::InvalidTeeTimestamp => 24,
            SsoError::ReportDataMismatch => 25,
            SsoError::InvalidSignalState => 26,
            SsoError::AlreadyInitialized => 27,
            SsoError::SignalNotFound => 28,
            SsoError::AlreadyRevoked => 29,
            SsoError::CannotUpdateExpired => 30,
            SsoError::CorruptedAccountData => 31,
            SsoError::ProtocolPaused => 32,
            SsoError::ConfigNotInitialized => 33,
            SsoError::InvalidConfigParameter => 34,
            SsoError::MaxEnclavesExceeded => 35,
            SsoError::EnclaveAlreadyExists => 36,
            SsoError::EnclaveNotFound => 37,
            SsoError::VersionMismatch => 38,
            SsoError::ArithmeticOverflow => 39,
            SsoError::InvalidPdaSeeds => 40,
            SsoError::AccountAlreadyExists => 41,
            SsoError::OperationNotAllowed => 42,
        };
        ERROR_CODE_OFFSET + index
    }
}

/// Turns an absent value into a chosen error.
pub trait IntoSsoError<T>: Sized {
    /// What `require_or` returns for this value and error.
    spec fn required(self, error: SsoError) -> Result<T, SsoError>;

    fn require_or(self, error: SsoError) -> (r: Result<T, SsoError>)
        ensures
            r == self.required(error),
    ;
}

impl<T> IntoSsoError<T> for Option<T> {
    open spec fn required(self, error: SsoError) -> Result<T, SsoError> {
        match self {
            Some(v) => Ok(v),
            None => Err(error),
        }
    }

    fn require_or(self, error: SsoError) -> (r: Result<T, SsoError>) {
        match self {
            Some(v) => Ok(v),
            None => Err(error),
        }
    }
}

/// A signal is live at `current_slot` while that slot has not passed its
/// last valid slot.
pub fn check_slot_validity(current_slot: u64, valid_until_slot: u64) -> (r: Result<(), SsoError>)
    ensures
        r == (if current_slot <= valid_until_slot {
            Ok(())
        } else {
            Err(SsoError::SignalExpired)
        }),
{
    if current_slot <= valid_until_slot {
        Ok(())
    } else {
        Err(SsoError::SignalExpired)
    }
}

/// A basis-point value must not exceed 10000.
pub fn check_bps_bounds(value: u16) -> (r: Result<(), SsoError>)
    ensures
        r == (if value <= 10000 {
            Ok(())
        } else {
            Err(SsoError::BasisPointOverflow)
        }),
{
    if value <= 10000 {
        Ok(())
    } else {
        Err(SsoError::BasisPointOverflow)
    }
}

/// Operations that need a running protocol fail while it is paused.
pub fn check_protocol_active(is_paused: bool) -> (r: Result<(), SsoError>)
    ensures
        r == (if is_paused {
            Err(SsoError::ProtocolPaused)
        } else {
            Ok(())
        }),
{
    if is_paused {
        Err(SsoError::ProtocolPaused)
    } else {
        Ok(())
    }
}

} // verus!
