//! `StoreKit` refund requests.

use vstd::prelude::*;

use crate::error::{ErrorView, StoreKitError};
use crate::text::owned;

verus! {

/// The outcome of a `StoreKit` refund request.
#[derive(Debug, Clone, PartialEq, Eq)]
pub enum RefundRequestStatus {
    /// The request was submitted.
    Success,
    /// The person cancelled the request.
    UserCancelled,
    /// An unrecognized raw value, kept as it was received.
    Unknown(String),
}

impl View for RefundRequestStatus {
    type V = Seq<char>;

    /// The raw `StoreKit` text of the value.
    open spec fn view(&self) -> Seq<char> {
        match self {
            RefundRequestStatus::Success => "success"@,
            RefundRequestStatus::UserCancelled => "userCancelled"@,
            RefundRequestStatus::Unknown(value) => value@,
        }
    }
}

impl RefundRequestStatus {
    /// `true` when the raw text names a known case.
    pub open spec fn is_known_text(text: Seq<char>) -> bool {
        text == "success"@ || text == "userCancelled"@
    }

    /// A value is canonical when `Unknown` only holds text that names no known case.
    pub open spec fn is_canonical(&self) -> bool {
        match self {
            RefundRequestStatus::Unknown(value) => !Self::is_known_text(value@),
            _ => true,
        }
    }

    /// The value that `from_raw` builds from `raw`.
    pub open spec fn spec_from_raw(raw: String) -> Self {
        if raw@ == "success"@ {
            RefundRequestStatus::Success
        } else if raw@ == "userCancelled"@ {
            RefundRequestStatus::UserCancelled
        } else {
            RefundRequestStatus::Unknown(raw)
        }
    }

    /// Returns the raw `StoreKit` text for this value.
    pub fn as_str(&self) -> (s: &str)
        ensures
            s@ == self@,
    {
        match self {
            RefundRequestStatus::Success => "success",
            RefundRequestStatus::UserCancelled => "userCancelled",
            RefundRequestStatus::Unknown(value) => value.as_str(),
        }
    }

    /// Builds a value from the raw `StoreKit` text, keeping unrecognized text in `Unknown`.
    pub fn from_raw(raw: String) -> (r: Self)
        ensures
            r == Self::spec_from_raw(raw),
            r@ == raw@,
            r.is_canonical(),
    {
        if crate::text::text_eq(raw.as_str(), "success") {
            RefundRequestStatus::Success
        } else if crate::text::text_eq(raw.as_str(), "userCancelled") {
            RefundRequestStatus::UserCancelled
        } else {
            RefundRequestStatus::Unknown(raw)
        }
    }

    /// Reading a value back as text gives the text it was built from, and the value is canonical.
    pub proof fn raw_text_round_trip(raw: String)
        ensures
            Self::spec_from_raw(raw)@ == raw@,
            Self::spec_from_raw(raw).is_canonical(),
    {
    }

    /// Two canonical values with the same raw text are the same case; for a known case they are equal.
    pub proof fn canonical_text_determines_value(a: Self, b: Self)
        requires
            a.is_canonical(),
            b.is_canonical(),
            a@ == b@,
        ensures
            (a is Unknown) == (b is Unknown),
            !(a is Unknown) ==> a == b,
    {
        reveal_strlit("success");
        reveal_strlit("userCancelled");
        assert("success"@.len() != "userCancelled"@.len());
    }
}

/// Entry point of refund requests; the request itself goes through the bridge.
#[derive(Debug, Clone, Copy, Default)]
pub struct Refund;

impl Refund {
    /// Reads the status text that the bridge returned for a refund request.
    pub fn status_from_bridge(raw_status: Option<String>) -> (r: Result<RefundRequestStatus, StoreKitError>)
        ensures
            match raw_status {
                Some(raw) => r == Ok::<RefundRequestStatus, StoreKitError>(
                    RefundRequestStatus::spec_from_raw(raw),
                ),
                None => r matches Err(e) && e@ == ErrorView::Unknown("missing refund status payload"@),
            },
    {
        match raw_status {
            Some(raw) => Ok(RefundRequestStatus::from_raw(raw)),
            None => Err(StoreKitError::Unknown(owned("missing refund status payload"))),
        }
    }
}

} // verus!
