use privchat_protocol::error_code::ErrorCode;

#[test]
fn test_error_code_values() {
    assert_eq!(ErrorCode::Success.code(), 0);

    // System errors (1-999)
    assert_eq!(ErrorCode::SystemBusy.code(), 2);
    assert_eq!(ErrorCode::ProtocolError.code(), 100);
    assert_eq!(ErrorCode::ClientVersionTooOld.code(), 201);

    // Common errors (10000-19999)
    assert_eq!(ErrorCode::AuthRequired.code(), 10000);
    assert_eq!(ErrorCode::InvalidParams.code(), 10100);
    assert_eq!(ErrorCode::RateLimitExceeded.code(), 10300);

    // Business errors (20000+)
    assert_eq!(ErrorCode::MessageNotFound.code(), 20000);
    assert_eq!(ErrorCode::OfflineMessageFull.code(), 20100);
    assert_eq!(ErrorCode::UserNotFound.code(), 20200);
    assert_eq!(ErrorCode::GroupNotFound.code(), 20300);
    assert_eq!(ErrorCode::FriendNotFound.code(), 20400);
    assert_eq!(ErrorCode::FileNotFound.code(), 20600);
}

#[test]
fn test_error_code_messages() {
    assert_eq!(ErrorCode::Success.message(), "Operation successful");
    assert_eq!(ErrorCode::SystemBusy.message(), "System busy, please retry later");
    assert_eq!(ErrorCode::AuthRequired.message(), "Authentication required");
    assert_eq!(ErrorCode::MessageNotFound.message(), "Message not found");
}

#[test]
fn test_error_code_classification() {
    assert!(ErrorCode::SystemBusy.is_system_error());
    assert!(!ErrorCode::SystemBusy.is_common_error());
    assert!(!ErrorCode::SystemBusy.is_business_error());

    assert!(!ErrorCode::AuthRequired.is_system_error());
    assert!(ErrorCode::AuthRequired.is_common_error());
    assert!(!ErrorCode::AuthRequired.is_business_error());

    assert!(!ErrorCode::MessageNotFound.is_system_error());
    assert!(!ErrorCode::MessageNotFound.is_common_error());
    assert!(ErrorCode::MessageNotFound.is_business_error());
}

#[test]
fn test_error_code_from_code() {
    assert_eq!(ErrorCode::from_code(0), Some(ErrorCode::Success));
    assert_eq!(ErrorCode::from_code(2), Some(ErrorCode::SystemBusy));
    assert_eq!(ErrorCode::from_code(10000), Some(ErrorCode::AuthRequired));
    assert_eq!(ErrorCode::from_code(10100), Some(ErrorCode::InvalidParams));
    assert_eq!(ErrorCode::from_code(20000), Some(ErrorCode::MessageNotFound));
    assert_eq!(ErrorCode::from_code(99999), None);
}

#[test]
fn test_error_code_display() {
    let err = ErrorCode::AuthRequired;
    assert_eq!(err.to_string(), "[10000] Authentication required");

    let err = ErrorCode::SystemBusy;
    assert_eq!(err.to_string(), "[2] System busy, please retry later");

    let err = ErrorCode::GroupNotFound;
    assert_eq!(err.to_string(), "[20300] Group not found");
}

#[test]
fn error_code_default_is_success() {
    assert_eq!(ErrorCode::default(), ErrorCode::Success);
    assert_eq!(ErrorCode::Success.to_string(), "[0] Operation successful");
}

#[test]
fn error_code_round_trips_through_from_code() {
    for e in [ErrorCode::Success, ErrorCode::DeviceNotVerified, ErrorCode::QRCodeExpired, ErrorCode::NetworkError] {
        assert_eq!(ErrorCode::from_code(e.code()), Some(e));
    }
    assert_eq!(ErrorCode::from_code(1000), None);
}
