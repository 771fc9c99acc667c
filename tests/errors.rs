use sso_signal::errors::{
    check_bps_bounds, check_protocol_active, check_slot_validity, IntoSsoError, SsoError,
};

#[test]
fn test_check_slot_validity() {
    // Valid: current <= valid_until
    assert!(check_slot_validity(500, 1000).is_ok());
    assert!(check_slot_validity(1000, 1000).is_ok());

    // Invalid: current > valid_until
    assert!(check_slot_validity(1001, 1000).is_err());
}

#[test]
fn test_check_bps_bounds() {
    // Valid
    assert!(check_bps_bounds(0).is_ok());
    assert!(check_bps_bounds(5000).is_ok());
    assert!(check_bps_bounds(10000).is_ok());

    // Invalid
    assert!(check_bps_bounds(10001).is_err());
}

#[test]
fn test_check_protocol_active() {
    assert!(check_protocol_active(false).is_ok());
    assert!(check_protocol_active(true).is_err());
}

#[test]
fn check_errors_name_their_kind() {
    assert_eq!(check_slot_validity(1001, 1000), Err(SsoError::SignalExpired));
    assert_eq!(check_bps_bounds(10001), Err(SsoError::BasisPointOverflow));
    assert_eq!(check_bps_bounds(u16::MAX), Err(SsoError::BasisPointOverflow));
    assert_eq!(check_protocol_active(true), Err(SsoError::ProtocolPaused));
    assert_eq!(check_slot_validity(u64::MAX, u64::MAX), Ok(()));
}

#[test]
fn error_codes_count_from_offset() {
    assert_eq!(SsoError::ProviderNotRegistered.code(), 6000);
    assert_eq!(SsoError::SignalExpired.code(), 6005);
    assert_eq!(SsoError::InvalidMarketContext.code(), 6010);
    assert_eq!(SsoError::EnclaveNotAllowed.code(), 6021);
    assert_eq!(SsoError::ProtocolPaused.code(), 6032);
    assert_eq!(SsoError::MaxEnclavesExceeded.code(), 6035);
    assert_eq!(SsoError::OperationNotAllowed.code(), 6042);
}

#[test]
fn require_or_maps_absence_to_error() {
    assert_eq!(Some(7u64).require_or(SsoError::SignalNotFound), Ok(7));
    assert_eq!(None::<u64>.require_or(SsoError::SignalNotFound), Err(SsoError::SignalNotFound));
}
