//! Typed errors surfaced by the `StoreKit` framework and its bridge.

use vstd::prelude::*;

use crate::status;
use crate::text::{concat2, decimal, i64_to_decimal, owned};

verus! {

/// The error returned by every fallible call of the library.
#[derive(Debug, Clone)]
pub enum StoreKitError {
    /// An argument or a payload was rejected.
    InvalidArgument(String),
    /// The call did not finish in time.
    TimedOut(String),
    /// The call is not available on this system.
    NotSupported(String),
    /// `StoreKit` reported an error.
    Framework(StoreKitFrameworkError),
    /// A signed payload failed verification.
    Verification(VerificationFailure),
    /// Anything else.
    Unknown(String),
}

/// An error reported by the `StoreKit` framework.
#[derive(Debug, Clone, PartialEq, Eq)]
pub struct StoreKitFrameworkError {
    /// Error domain.
    pub domain: String,
    /// Error code within the domain.
    pub code: i64,
    /// Localized description.
    pub localized_description: String,
}

/// A verification failure reported by `StoreKit`.
#[derive(Debug, Clone, PartialEq, Eq)]
pub struct VerificationFailure {
    /// Why verification failed.
    pub code: VerificationErrorCode,
    /// Localized description.
    pub localized_description: String,
}

/// What a `StoreKitError` says, as text.
pub enum ErrorView {
    /// See [`StoreKitError::InvalidArgument`].
    InvalidArgument(Seq<char>),
    /// See [`StoreKitError::TimedOut`].
    TimedOut(Seq<char>),
    /// See [`StoreKitError::NotSupported`].
    NotSupported(Seq<char>),
    /// See [`StoreKitError::Framework`].
    Framework { domain: Seq<char>, code: i64, description: Seq<char> },
    /// See [`StoreKitError::Verification`].
    Verification { code: Seq<char>, description: Seq<char> },
    /// See [`StoreKitError::Unknown`].
    Unknown(Seq<char>),
}

impl View for StoreKitError {
    type V = ErrorView;

    open spec fn view(&self) -> ErrorView {
        match self {
            StoreKitError::InvalidArgument(m) => ErrorView::InvalidArgument(m@),
            StoreKitError::TimedOut(m) => ErrorView::TimedOut(m@),
            StoreKitError::NotSupported(m) => ErrorView::NotSupported(m@),
            StoreKitError::Framework(e) => ErrorView::Framework {
                domain: e.domain@,
                code: e.code,
                description: e.localized_description@,
            },
            StoreKitError::Verification(f) => ErrorView::Verification {
                code: f.code@,
                description: f.localized_description@,
            },
            StoreKitError::Unknown(m) => ErrorView::Unknown(m@),
        }
    }
}

/// Why `StoreKit` could not verify a signed payload.
#[derive(Debug, Clone, PartialEq, Eq)]
pub enum VerificationErrorCode {
    /// The signing certificate was revoked.
    RevokedCertificate,
    /// The certificate chain is invalid.
    InvalidCertificateChain,
    /// The device verification value does not match this device.
    InvalidDeviceVerification,
    /// The payload is not correctly encoded.
    InvalidEncoding,
    /// The signature does not match the payload.
    InvalidSignature,
    /// The payload lacks properties that verification needs.
    MissingRequiredProperties,
    /// An unrecognized raw value, kept as it was received.
    Unknown(String),
}

impl View for VerificationErrorCode {
    type V = Seq<char>;

    /// The raw `StoreKit` text of the value.
    open spec fn view(&self) -> Seq<char> {
        match self {
            VerificationErrorCode::RevokedCertificate => "revokedCertificate"@,
            VerificationErrorCode::InvalidCertificateChain => "invalidCertificateChain"@,
            VerificationErrorCode::InvalidDeviceVerification => "invalidDeviceVerification"@,
            VerificationErrorCode::InvalidEncoding => "invalidEncoding"@,
            VerificationErrorCode::InvalidSignature => "invalidSignature"@,
            VerificationErrorCode::MissingRequiredProperties => "missingRequiredProperties"@,
            VerificationErrorCode::Unknown(value) => value@,
        }
    }
}

impl VerificationErrorCode {
    /// `true` when the raw text names a known case.
    pub open spec fn is_known_text(text: Seq<char>) -> bool {
        text == "revokedCertificate"@ || text == "invalidCertificateChain"@ || text == "invalidDeviceVerification"@ || text == "invalidEncoding"@ || text == "invalidSignature"@ || text == "missingRequiredProperties"@
    }

    /// A value is canonical when `Unknown` only holds text that names no known case.
    pub open spec fn is_canonical(&self) -> bool {
        match self {
            VerificationErrorCode::Unknown(value) => !Self::is_known_text(value@),
            _ => true,
        }
    }

    /// The value that `from_raw` builds from `raw`.
    pub open spec fn spec_from_raw(raw: String) -> Self {
        if raw@ == "revokedCertificate"@ {
            VerificationErrorCode::RevokedCertificate
        } else if raw@ == "invalidCertificateChain"@ {
            VerificationErrorCode::InvalidCertificateChain
        } else if raw@ == "invalidDeviceVerification"@ {
            VerificationErrorCode::InvalidDeviceVerification
        } else if raw@ == "invalidEncoding"@ {
            VerificationErrorCode::InvalidEncoding
        } else if raw@ == "invalidSignature"@ {
            VerificationErrorCode::InvalidSignature
        } else if raw@ == "missingRequiredProperties"@ {
            VerificationErrorCode::MissingRequiredProperties
        } else {
            VerificationErrorCode::Unknown(raw)
        }
    }

    /// Returns the raw `StoreKit` text for this value.
    pub fn as_str(&self) -> (s: &str)
        ensures
            s@ == self@,
    {
        match self {
            VerificationErrorCode::RevokedCertificate => "revokedCertificate",
            VerificationErrorCode::InvalidCertificateChain => "invalidCertificateChain",
            VerificationErrorCode::InvalidDeviceVerification => "invalidDeviceVerification",
            VerificationErrorCode::InvalidEncoding => "invalidEncoding",
            VerificationErrorCode::InvalidSignature => "invalidSignature",
            VerificationErrorCode::MissingRequiredProperties => "missingRequiredProperties",
            VerificationErrorCode::Unknown(value) => value.as_str(),
        }
    }

    /// Builds a value from the raw `StoreKit` text, keeping unrecognized text in `Unknown`.
    pub fn from_raw(raw: String) -> (r: Self)
        ensures
            r == Self::spec_from_raw(raw),
            r@ == raw@,
            r.is_canonical(),
    {
        if crate::text::text_eq(raw.as_str(), "revokedCertificate") {
            VerificationErrorCode::RevokedCertificate
        } else if crate::text::text_eq(raw.as_str(), "invalidCertificateChain") {
            VerificationErrorCode::InvalidCertificateChain
        } else if crate::text::text_eq(raw.as_str(), "invalidDeviceVerification") {
            VerificationErrorCode::InvalidDeviceVerification
        } else if crate::text::text_eq(raw.as_str(), "invalidEncoding") {
            VerificationErrorCode::InvalidEncoding
        } else if crate::text::text_eq(raw.as_str(), "invalidSignature") {
            VerificationErrorCode::InvalidSignature
        } else if crate::text::text_eq(raw.as_str(), "missingRequiredProperties") {
            VerificationErrorCode::MissingRequiredProperties
        } else {
            VerificationErrorCode::Unknown(raw)
        }
    }

    /// Reading a value back as text gives the text it was built from, and the value is canonical.
    pub proof fn raw_text_round_trip(raw: String)
        ensures
            Self::spec_from_raw(raw)@ == raw@,
            Self::spec_from_raw(raw).is_canonical(),
    {
    }

    /// Two canonical values with the same raw text are the same case; for a known case they are equal.
    pub proof fn canonical_text_determines_value(a: Self, b: Self)
        requires
            a.is_canonical(),
            b.is_canonical(),
            a@ == b@,
        ensures
            (a is Unknown) == (b is Unknown),
            !(a is Unknown) ==> a == b,
    {
        reveal_strlit("revokedCertificate");
        reveal_strlit("invalidCertificateChain");
        reveal_strlit("invalidDeviceVerification");
        reveal_strlit("invalidEncoding");
        reveal_strlit("invalidSignature");
        reveal_strlit("missingRequiredProperties");
        assert("revokedCertificate"@.len() != "invalidCertificateChain"@.len());
        assert("revokedCertificate"@.len() != "invalidDeviceVerification"@.len());
        assert("revokedCertificate"@.len() != "invalidEncoding"@.len());
        assert("revokedCertificate"@.len() != "invalidSignature"@.len());
        assert("revokedCertificate"@.len() != "missingRequiredProperties"@.len());
        assert("invalidCertificateChain"@.len() != "invalidDeviceVerification"@.len());
        assert("invalidCertificateChain"@.len() != "invalidEncoding"@.len());
        assert("invalidCertificateChain"@.len() != "invalidSignature"@.len());
        assert("invalidCertificateChain"@.len() != "missingRequiredProperties"@.len());
        assert("invalidDeviceVerification"@.len() != "invalidEncoding"@.len());
        assert("invalidDeviceVerification"@.len() != "invalidSignature"@.len());
        assert("invalidDeviceVerification"@[0] != "missingRequiredProperties"@[0]);
        assert("invalidEncoding"@.len() != "invalidSignature"@.len());
        assert("invalidEncoding"@.len() != "missingRequiredProperties"@.len());
        assert("invalidSignature"@.len() != "missingRequiredProperties"@.len());
    }
}


/// The verification error object that the bridge sends as JSON.
pub struct VerificationErrorPayload {
    /// Tag of the object.
    pub kind: String,
    /// Raw verification error code.
    pub code: String,
    /// Localized description.
    pub localized_description: String,
}

/// The framework error object that the bridge sends as JSON.
pub struct FrameworkErrorPayload {
    /// Tag of the object.
    pub kind: String,
    /// Error domain.
    pub domain: String,
    /// Error code.
    pub code: i64,
    /// Localized description.
    pub localized_description: String,
}

impl VerificationFailure {
    /// The failure that `from_payload` builds.
    pub open spec fn spec_from_payload(payload: VerificationErrorPayload) -> Self {
        VerificationFailure {
            code: VerificationErrorCode::spec_from_raw(payload.code),
            localized_description: payload.localized_description,
        }
    }

    /// Converts the bridge's verification error object.
    pub fn from_payload(payload: VerificationErrorPayload) -> (r: Self)
        ensures
            r == Self::spec_from_payload(payload),
    {
        VerificationFailure {
            code: VerificationErrorCode::from_raw(payload.code),
            localized_description: payload.localized_description,
        }
    }

    /// Copies the failure.
    pub fn duplicate(&self) -> (r: Self)
        ensures
            r == *self,
    {
        let code = match &self.code {
            VerificationErrorCode::RevokedCertificate => VerificationErrorCode::RevokedCertificate,
            VerificationErrorCode::InvalidCertificateChain => VerificationErrorCode::InvalidCertificateChain,
            VerificationErrorCode::InvalidDeviceVerification => VerificationErrorCode::InvalidDeviceVerification,
            VerificationErrorCode::InvalidEncoding => VerificationErrorCode::InvalidEncoding,
            VerificationErrorCode::InvalidSignature => VerificationErrorCode::InvalidSignature,
            VerificationErrorCode::MissingRequiredProperties => VerificationErrorCode::MissingRequiredProperties,
            VerificationErrorCode::Unknown(value) => VerificationErrorCode::Unknown(value.clone()),
        };
        VerificationFailure { code, localized_description: self.localized_description.clone() }
    }
}

/// Relates the outcome of a fallible call to what its specification gives: the value by its
/// view, or the error by its view.
pub open spec fn outcome<T: View>(r: Result<T, StoreKitError>, spec: Result<T::V, ErrorView>) -> bool {
    match spec {
        Ok(v) => r matches Ok(x) && x@ == v,
        Err(e) => r matches Err(err) && err@ == e,
    }
}

/// The text that `StoreKitError::to_string` gives.
pub open spec fn display_text(e: ErrorView) -> Seq<char> {
    match e {
        ErrorView::InvalidArgument(m) => m,
        ErrorView::TimedOut(m) => m,
        ErrorView::NotSupported(m) => m,
        ErrorView::Unknown(m) => m,
        ErrorView::Framework { domain, code, description } => description + " (domain="@ + domain
            + ", code="@ + decimal(code as int) + ")"@,
        ErrorView::Verification { code, description } => description + " ("@ + code + ")"@,
    }
}

/// The text of a framework error when the bridge sent no usable JSON object.
pub open spec fn default_framework_error(description: Seq<char>) -> ErrorView {
    ErrorView::Framework {
        domain: "StoreKit"@,
        code: status::FRAMEWORK_ERROR as i64,
        description,
    }
}

/// The error that `parse_framework_error` builds.
pub open spec fn spec_framework_error(
    message: Option<String>,
    parsed: Option<FrameworkErrorPayload>,
) -> ErrorView {
    match message {
        None => default_framework_error("StoreKit framework error"@),
        Some(json) => match parsed {
            None => default_framework_error(json@),
            Some(p) => ErrorView::Framework {
                domain: p.domain@,
                code: p.code,
                description: p.localized_description@,
            },
        },
    }
}

/// The error that `parse_verification_error` builds.
pub open spec fn spec_verification_error(
    message: Option<String>,
    parsed: Option<VerificationErrorPayload>,
) -> ErrorView {
    match message {
        None => ErrorView::Verification {
            code: "unknown"@,
            description: "StoreKit verification failed"@,
        },
        Some(json) => match parsed {
            None => ErrorView::Verification { code: "unknown"@, description: json@ },
            Some(p) => ErrorView::Verification {
                code: VerificationErrorCode::spec_from_raw(p.code)@,
                description: p.localized_description@,
            },
        },
    }
}

/// The message carried when the bridge sent one, or the given default.
pub open spec fn message_or(message: Option<String>, default: Seq<char>) -> Seq<char> {
    match message {
        Some(m) => m@,
        None => default,
    }
}

/// The error that `error_from_status` builds for a status that is not `OK`.
pub open spec fn spec_error_from_status(
    status: i32,
    message: Option<String>,
    framework: Option<FrameworkErrorPayload>,
    verification: Option<VerificationErrorPayload>,
) -> ErrorView {
    if status == status::INVALID_ARGUMENT {
        ErrorView::InvalidArgument(message_or(message, "StoreKit reported an invalid argument"@))
    } else if status == status::TIMED_OUT {
        ErrorView::TimedOut(message_or(message, "StoreKit operation timed out"@))
    } else if status == status::NOT_SUPPORTED {
        ErrorView::NotSupported(message_or(message, "StoreKit operation is not supported"@))
    } else if status == status::FRAMEWORK_ERROR {
        spec_framework_error(message, framework)
    } else if status == status::VERIFICATION_ERROR {
        spec_verification_error(message, verification)
    } else {
        ErrorView::Unknown(
            message_or(
                message,
                "StoreKit bridge returned unexpected status "@ + decimal(status as int),
            ),
        )
    }
}

/// The bridge's error message is what the error shows, for every status whose error carries
/// the message as it is (all but the framework and verification errors, which read it as an
/// object).
pub proof fn status_error_shows_the_message(
    status: i32,
    message: String,
    framework: Option<FrameworkErrorPayload>,
    verification: Option<VerificationErrorPayload>,
)
    requires
        status != status::FRAMEWORK_ERROR,
        status != status::VERIFICATION_ERROR,
    ensures
        display_text(spec_error_from_status(status, Some(message), framework, verification))
            == message@,
{
}

/// A framework or verification error whose message is not the bridge's error object shows
/// that message, followed by the domain and code, or by the verification code.
pub proof fn unparsed_error_shows_the_message(status: i32, message: String)
    requires
        status == status::FRAMEWORK_ERROR || status == status::VERIFICATION_ERROR,
    ensures
        status == status::FRAMEWORK_ERROR ==> display_text(
            spec_error_from_status(status, Some(message), None, None),
        ) == message@ + " (domain=StoreKit, code=-4)"@,
        status == status::VERIFICATION_ERROR ==> display_text(
            spec_error_from_status(status, Some(message), None, None),
        ) == message@ + " (unknown)"@,
{
    reveal_strlit("-4");
    reveal_strlit(" (domain=");
    reveal_strlit("StoreKit");
    reveal_strlit(", code=");
    reveal_strlit(")");
    reveal_strlit(" (domain=StoreKit, code=-4)");
    reveal_strlit(" (");
    reveal_strlit("unknown");
    reveal_strlit(" (unknown)");
    assert(decimal(-4) =~= "-4"@);
    assert(" (domain="@ + "StoreKit"@ + ", code="@ + "-4"@ + ")"@ =~= " (domain=StoreKit, code=-4)"@);
    assert(" ("@ + "unknown"@ + ")"@ =~= " (unknown)"@);
    let m = message@;
    assert(m + " (domain="@ + "StoreKit"@ + ", code="@ + "-4"@ + ")"@ =~= m + (" (domain="@
        + "StoreKit"@ + ", code="@ + "-4"@ + ")"@));
    assert(m + " ("@ + "unknown"@ + ")"@ =~= m + (" ("@ + "unknown"@ + ")"@));
}

fn message_or_default(message: Option<String>, default: &str) -> (r: String)
    ensures
        r@ == message_or(message, default@),
{
    match message {
        Some(m) => m,
        None => owned(default),
    }
}

/// Builds the framework error for the bridge's error message. `parsed` is that message read as
/// a framework error object, or `None` when it is absent or not such an object.
pub fn parse_framework_error(
    message: Option<String>,
    parsed: Option<FrameworkErrorPayload>,
) -> (r: StoreKitError)
    ensures
        r@ == spec_framework_error(message, parsed),
        r is Framework,
{
    match message {
        None => StoreKitError::Framework(
            StoreKitFrameworkError {
                domain: owned("StoreKit"),
                code: status::FRAMEWORK_ERROR as i64,
                localized_description: owned("StoreKit framework error"),
            },
        ),
        Some(json) => match parsed {
            None => StoreKitError::Framework(
                StoreKitFrameworkError {
                    domain: owned("StoreKit"),
                    code: status::FRAMEWORK_ERROR as i64,
                    localized_description: json,
                },
            ),
            Some(payload) => StoreKitError::Framework(
                StoreKitFrameworkError {
                    domain: payload.domain,
                    code: payload.code,
                    localized_description: payload.localized_description,
                },
            ),
        },
    }
}

/// Builds the verification error for the bridge's error message. `parsed` is that message read
/// as a verification error object, or `None` when it is absent or not such an object.
pub fn parse_verification_error(
    message: Option<String>,
    parsed: Option<VerificationErrorPayload>,
) -> (r: StoreKitError)
    ensures
        r@ == spec_verification_error(message, parsed),
        r is Verification,
        message.is_some() && parsed.is_some() ==> r == StoreKitError::Verification(
            VerificationFailure::spec_from_payload(parsed.unwrap()),
        ),
{
    match message {
        None => StoreKitError::Verification(
            VerificationFailure {
                code: VerificationErrorCode::Unknown(owned("unknown")),
                localized_description: owned("StoreKit verification failed"),
            },
        ),
        Some(json) => match parsed {
            None => StoreKitError::Verification(
                VerificationFailure {
                    code: VerificationErrorCode::Unknown(owned("unknown")),
                    localized_description: json,
                },
            ),
            Some(payload) => StoreKitError::Verification(VerificationFailure::from_payload(payload)),
        },
    }
}

/// Builds the error for a bridge call that did not return `OK`. `message` is the bridge's error
/// message; `framework` and `verification` are that message read as the bridge's framework and
/// verification error objects, `None` where it is not one.
pub fn error_from_status(
    status: i32,
    message: Option<String>,
    framework: Option<FrameworkErrorPayload>,
    verification: Option<VerificationErrorPayload>,
) -> (r: StoreKitError)
    ensures
        r@ == spec_error_from_status(status, message, framework, verification),
{
    if status == status::INVALID_ARGUMENT {
        StoreKitError::InvalidArgument(
            message_or_default(message, "StoreKit reported an invalid argument"),
        )
    } else if status == status::TIMED_OUT {
        StoreKitError::TimedOut(message_or_default(message, "StoreKit operation timed out"))
    } else if status == status::NOT_SUPPORTED {
        StoreKitError::NotSupported(
            message_or_default(message, "StoreKit operation is not supported"),
        )
    } else if status == status::FRAMEWORK_ERROR {
        parse_framework_error(message, framework)
    } else if status == status::VERIFICATION_ERROR {
        parse_verification_error(message, verification)
    } else {
        match message {
            Some(m) => StoreKitError::Unknown(m),
            None => {
                let code = i64_to_decimal(status as i64);
                StoreKitError::Unknown(
                    concat2("StoreKit bridge returned unexpected status ", code.as_str()),
                )
            },
        }
    }
}

impl StoreKitError {
    /// Describes the error in one line.
    pub fn to_string(&self) -> (r: String)
        ensures
            r@ == display_text(self@),
    {
        match self {
            StoreKitError::InvalidArgument(m) => m.clone(),
            StoreKitError::TimedOut(m) => m.clone(),
            StoreKitError::NotSupported(m) => m.clone(),
            StoreKitError::Unknown(m) => m.clone(),
            StoreKitError::Framework(e) => {
                let mut out = e.localized_description.clone();
                out.append(" (domain=");
                out.append(e.domain.as_str());
                out.append(", code=");
                let code = i64_to_decimal(e.code);
                out.append(code.as_str());
                out.append(")");
                out
            },
            StoreKitError::Verification(f) => {
                let mut out = f.localized_description.clone();
                out.append(" (");
                out.append(f.code.as_str());
                out.append(")");
                out
            },
        }
    }
}


/// A verification failure read from its object keeps the raw text of the code and the
/// description; a framework error read from its object keeps its domain, code and description.
pub proof fn error_objects_carry_every_field(
    verification: VerificationErrorPayload,
    framework: FrameworkErrorPayload,
    message: String,
)
    ensures
        VerificationFailure::spec_from_payload(verification).code@ == verification.code@,
        VerificationFailure::spec_from_payload(verification).localized_description
            == verification.localized_description,
        spec_framework_error(Some(message), Some(framework)) == (ErrorView::Framework {
            domain: framework.domain@,
            code: framework.code,
            description: framework.localized_description@,
        }),
        spec_verification_error(Some(message), Some(verification)) == (ErrorView::Verification {
            code: verification.code@,
            description: verification.localized_description@,
        }),
{
    VerificationErrorCode::raw_text_round_trip(verification.code);
}

} // verus!
