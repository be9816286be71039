use storekit::error::{
    error_from_status, parse_framework_error, parse_verification_error, FrameworkErrorPayload,
    VerificationErrorPayload,
};
use storekit::status;
use storekit::{StoreKitError, StoreKitFrameworkError, VerificationErrorCode, VerificationFailure};

fn framework_payload() -> FrameworkErrorPayload {
    FrameworkErrorPayload {
        kind: "framework".to_owned(),
        domain: "SKErrorDomain".to_owned(),
        code: 2,
        localized_description: "Payment cancelled".to_owned(),
    }
}

fn verification_payload(code: &str) -> VerificationErrorPayload {
    VerificationErrorPayload {
        kind: "verification".to_owned(),
        code: code.to_owned(),
        localized_description: "Signature mismatch".to_owned(),
    }
}

#[test]
fn each_status_gives_its_error_variant() {
    let message = || Some("details".to_owned());
    assert!(matches!(
        error_from_status(status::INVALID_ARGUMENT, message(), None, None),
        StoreKitError::InvalidArgument(m) if m == "details"
    ));
    assert!(matches!(
        error_from_status(status::TIMED_OUT, message(), None, None),
        StoreKitError::TimedOut(m) if m == "details"
    ));
    assert!(matches!(
        error_from_status(status::NOT_SUPPORTED, message(), None, None),
        StoreKitError::NotSupported(m) if m == "details"
    ));
    assert!(matches!(
        error_from_status(status::UNKNOWN, message(), None, None),
        StoreKitError::Unknown(m) if m == "details"
    ));
}

#[test]
fn missing_messages_fall_back_to_defaults() {
    assert_eq!(
        error_from_status(status::INVALID_ARGUMENT, None, None, None).to_string(),
        "StoreKit reported an invalid argument"
    );
    assert_eq!(
        error_from_status(status::TIMED_OUT, None, None, None).to_string(),
        "StoreKit operation timed out"
    );
    assert_eq!(
        error_from_status(status::NOT_SUPPORTED, None, None, None).to_string(),
        "StoreKit operation is not supported"
    );
    assert_eq!(
        error_from_status(42, None, None, None).to_string(),
        "StoreKit bridge returned unexpected status 42"
    );
    assert_eq!(
        error_from_status(-7, None, None, None).to_string(),
        "StoreKit bridge returned unexpected status -7"
    );
}

#[test]
fn framework_errors_keep_their_domain_and_code() {
    let error = error_from_status(
        status::FRAMEWORK_ERROR,
        Some("{...}".to_owned()),
        Some(framework_payload()),
        None,
    );
    match &error {
        StoreKitError::Framework(StoreKitFrameworkError { domain, code, localized_description }) => {
            assert_eq!(domain, "SKErrorDomain");
            assert_eq!(*code, 2);
            assert_eq!(localized_description, "Payment cancelled");
        }
        other => panic!("expected a framework error, got {other:?}"),
    }
    assert_eq!(error.to_string(), "Payment cancelled (domain=SKErrorDomain, code=2)");
}

#[test]
fn framework_errors_without_an_object_use_the_message() {
    let error = parse_framework_error(Some("plain text".to_owned()), None);
    assert_eq!(error.to_string(), "plain text (domain=StoreKit, code=-4)");
    let error = parse_framework_error(None, None);
    assert_eq!(error.to_string(), "StoreKit framework error (domain=StoreKit, code=-4)");
}

#[test]
fn verification_errors_map_their_code() {
    let error = error_from_status(
        status::VERIFICATION_ERROR,
        Some("{...}".to_owned()),
        None,
        Some(verification_payload("invalidSignature")),
    );
    match &error {
        StoreKitError::Verification(VerificationFailure { code, localized_description }) => {
            assert_eq!(*code, VerificationErrorCode::InvalidSignature);
            assert_eq!(localized_description, "Signature mismatch");
        }
        other => panic!("expected a verification error, got {other:?}"),
    }
    assert_eq!(error.to_string(), "Signature mismatch (invalidSignature)");
}

#[test]
fn verification_errors_without_an_object_are_unknown() {
    let error = parse_verification_error(Some("not json".to_owned()), None);
    assert_eq!(error.to_string(), "not json (unknown)");
    let error = parse_verification_error(None, None);
    assert_eq!(error.to_string(), "StoreKit verification failed (unknown)");
    let error = parse_verification_error(Some("x".to_owned()), Some(verification_payload("brandNew")));
    match error {
        StoreKitError::Verification(failure) => {
            assert_eq!(failure.code, VerificationErrorCode::Unknown("brandNew".into()));
            assert_eq!(failure.code.as_str(), "brandNew");
        }
        other => panic!("expected a verification error, got {other:?}"),
    }
}

#[test]
fn verification_error_codes_round_trip() {
    let cases = [
        ("revokedCertificate", VerificationErrorCode::RevokedCertificate),
        ("invalidCertificateChain", VerificationErrorCode::InvalidCertificateChain),
        ("invalidDeviceVerification", VerificationErrorCode::InvalidDeviceVerification),
        ("invalidEncoding", VerificationErrorCode::InvalidEncoding),
        ("invalidSignature", VerificationErrorCode::InvalidSignature),
        ("missingRequiredProperties", VerificationErrorCode::MissingRequiredProperties),
    ];
    for (raw, code) in cases {
        assert_eq!(VerificationErrorCode::from_raw(raw.to_owned()), code);
        assert_eq!(code.as_str(), raw);
    }
}

#[test]
fn verification_failure_from_payload_and_duplicate() {
    let failure = VerificationFailure::from_payload(verification_payload("revokedCertificate"));
    assert_eq!(failure.code, VerificationErrorCode::RevokedCertificate);
    assert_eq!(failure.duplicate(), failure);
}
