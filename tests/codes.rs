use senhasegura::{ExceptionCode, PAMCoreExceptionCode, ProtectedInformationExceptionCode, StatusCode};

#[test]
fn unknown_exception_code_decodes_to_unknown() {
    assert_eq!(ExceptionCode::from_u16(9999), ExceptionCode::Unknown(9999));
}

#[test]
fn known_exception_code_decodes_to_named_variant() {
    assert_eq!(
        ExceptionCode::from_u16(1023),
        ExceptionCode::PAMCore(PAMCoreExceptionCode::ProtectedInformation(
            ProtectedInformationExceptionCode::InformationNotFound
        ))
    );
    assert_eq!(
        ExceptionCode::from_u16(1024),
        ExceptionCode::PAMCore(PAMCoreExceptionCode::ProtectedInformation(
            ProtectedInformationExceptionCode::InactiveInformation
        ))
    );
    assert_eq!(
        ExceptionCode::from_u16(1026),
        ExceptionCode::PAMCore(PAMCoreExceptionCode::ProtectedInformation(
            ProtectedInformationExceptionCode::MissingContentParameter
        ))
    );
    assert_eq!(ExceptionCode::from_u16(1025), ExceptionCode::Unknown(1025));
}

#[test]
fn exception_code_numbers_round_trip() {
    for v in [0u16, 1, 1022, 1023, 1024, 1025, 1026, 1027, 9999, u16::MAX] {
        assert_eq!(ExceptionCode::from_u16(v).as_u16(), v);
    }
    assert_eq!(ProtectedInformationExceptionCode::InformationNotFound.code(), 1023);
    assert_eq!(
        ProtectedInformationExceptionCode::from_repr(1026),
        Some(ProtectedInformationExceptionCode::MissingContentParameter)
    );
    assert_eq!(ProtectedInformationExceptionCode::from_repr(9999), None);
}

#[test]
fn status_codes_in_range_only() {
    assert!(StatusCode::from_u16(99).is_none());
    assert!(StatusCode::from_u16(1000).is_none());
    assert!(StatusCode::from_u16(0).is_none());
    assert_eq!(StatusCode::from_u16(100).unwrap().as_u16(), 100);
    assert_eq!(StatusCode::from_u16(999).unwrap().as_u16(), 999);
}

#[test]
fn status_success_family() {
    assert!(StatusCode::from_u16(200).unwrap().is_success());
    assert!(StatusCode::from_u16(201).unwrap().is_success());
    assert!(StatusCode::from_u16(299).unwrap().is_success());
    assert!(!StatusCode::from_u16(199).unwrap().is_success());
    assert!(!StatusCode::from_u16(300).unwrap().is_success());
    assert!(!StatusCode::from_u16(400).unwrap().is_success());
    assert!(!StatusCode::from_u16(500).unwrap().is_success());
}
