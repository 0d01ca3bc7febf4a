use quic_bridge::client::PemKind;
use quic_bridge::transport::{ConnectionFailure, ErrorCode, ReadFailure, ERROR_CODE_LIMIT};

#[test]
fn error_code_limit_is_two_to_the_sixty_two() {
    assert_eq!(ERROR_CODE_LIMIT, 1u64 << 62);
}

#[test]
fn error_code_accepts_values_below_the_limit() {
    assert_eq!(ErrorCode::from_u64(0).unwrap().value(), 0);
    assert_eq!(ErrorCode::from_u64(42).unwrap().value(), 42);
    let largest = (1u64 << 62) - 1;
    assert_eq!(ErrorCode::from_u64(largest).unwrap().value(), largest);
}

#[test]
fn error_code_refuses_values_from_the_limit_on() {
    assert_eq!(
        ErrorCode::from_u64(1u64 << 62),
        Err(String::from("value too large for varint encoding"))
    );
    assert_eq!(
        ErrorCode::from_u64(u64::MAX),
        Err(String::from("value too large for varint encoding"))
    );
}

#[test]
fn error_code_from_u32_keeps_the_value() {
    assert_eq!(ErrorCode::from_u32(0).value(), 0);
    assert_eq!(ErrorCode::from_u32(7).value(), 7);
    assert_eq!(ErrorCode::from_u32(u32::MAX).value(), 4294967295);
}

#[test]
fn default_error_code_is_zero() {
    assert_eq!(ErrorCode::default().value(), 0);
    assert_eq!(ErrorCode::default(), ErrorCode::from_u32(0));
}

#[test]
fn orderly_ends_of_a_connection_are_benign() {
    assert!(ConnectionFailure::ConnectionClosed.benign());
    assert!(ConnectionFailure::ApplicationClosed.benign());
    assert!(ConnectionFailure::Reset.benign());
    assert!(ConnectionFailure::LocallyClosed.benign());
}

#[test]
fn faults_of_a_connection_are_not_benign() {
    assert!(!ConnectionFailure::VersionMismatch.benign());
    assert!(!ConnectionFailure::TransportError.benign());
    assert!(!ConnectionFailure::TimedOut.benign());
    assert!(!ConnectionFailure::CidsExhausted.benign());
}

#[test]
fn read_failures_that_end_the_stream_are_fatal() {
    assert!(ReadFailure::Reset.fatal());
    assert!(ReadFailure::ConnectionLost.fatal());
    assert!(ReadFailure::ClosedStream.fatal());
    assert!(!ReadFailure::IllegalOrderedRead.fatal());
    assert!(!ReadFailure::ZeroRttRejected.fatal());
}

#[test]
fn only_the_three_key_encodings_are_private_keys() {
    assert!(PemKind::Pkcs1Key.private_key());
    assert!(PemKind::Pkcs8Key.private_key());
    assert!(PemKind::Sec1Key.private_key());
    assert!(!PemKind::X509Certificate.private_key());
    assert!(!PemKind::SubjectPublicKeyInfo.private_key());
    assert!(!PemKind::Crl.private_key());
    assert!(!PemKind::Csr.private_key());
    assert!(!PemKind::Other.private_key());
}
