//! `StoreKit` external purchase values: notice results, custom link notice types and tokens.

use vstd::prelude::*;

use crate::error::{ErrorView, StoreKitError};
use crate::text::{concat3, decimal, i64_to_decimal};

verus! {

/// The outcome of the external purchase notice sheet.
#[derive(Debug, Clone, PartialEq, Eq)]
pub enum ExternalPurchaseNoticeResult {
    /// The person continued.
    Continued,
    /// The person cancelled.
    Cancelled,
    /// The person continued and `StoreKit` issued an external purchase token.
    ContinuedWithExternalPurchaseToken {
        /// The token.
        token: String,
    },
    /// An unrecognized raw value, kept as it was received.
    Unknown(String),
}

impl View for ExternalPurchaseNoticeResult {
    type V = Seq<char>;

    /// The raw `StoreKit` text of the value.
    open spec fn view(&self) -> Seq<char> {
        match self {
            ExternalPurchaseNoticeResult::Continued => "continued"@,
            ExternalPurchaseNoticeResult::Cancelled => "cancelled"@,
            ExternalPurchaseNoticeResult::ContinuedWithExternalPurchaseToken { .. } => "continuedWithExternalPurchaseToken"@,
            ExternalPurchaseNoticeResult::Unknown(value) => value@,
        }
    }
}

impl ExternalPurchaseNoticeResult {
    /// Returns the raw `StoreKit` text for this value.
    pub fn as_str(&self) -> (s: &str)
        ensures
            s@ == self@,
    {
        match self {
            ExternalPurchaseNoticeResult::Continued => "continued",
            ExternalPurchaseNoticeResult::Cancelled => "cancelled",
            ExternalPurchaseNoticeResult::ContinuedWithExternalPurchaseToken { .. } => "continuedWithExternalPurchaseToken",
            ExternalPurchaseNoticeResult::Unknown(value) => value.as_str(),
        }
    }
}

/// Entry point of the external purchase notice calls, which go through the bridge.
#[derive(Debug, Clone, Copy, Default)]
pub struct ExternalPurchase;

/// Entry point of the external purchase link calls, which go through the bridge.
#[derive(Debug, Clone, Copy, Default)]
pub struct ExternalPurchaseLink;

/// Where the external purchase custom link notice is shown.
#[derive(Debug, Clone, Copy, PartialEq, Eq, Structural)]
pub enum ExternalPurchaseCustomLinkNoticeType {
    /// Within the app.
    WithinApp,
    /// In the browser.
    Browser,
    /// A raw value not named here.
    Unknown(i64),
}

impl ExternalPurchaseCustomLinkNoticeType {
    /// The raw `StoreKit` value.
    pub open spec fn spec_raw(self) -> i64 {
        match self {
            ExternalPurchaseCustomLinkNoticeType::WithinApp => 0,
            ExternalPurchaseCustomLinkNoticeType::Browser => 1,
            ExternalPurchaseCustomLinkNoticeType::Unknown(value) => value,
        }
    }

    /// Returns the raw `StoreKit` value.
    pub fn as_raw(&self) -> (r: i64)
        ensures
            r == self.spec_raw(),
    {
        match self {
            ExternalPurchaseCustomLinkNoticeType::WithinApp => 0,
            ExternalPurchaseCustomLinkNoticeType::Browser => 1,
            ExternalPurchaseCustomLinkNoticeType::Unknown(value) => *value,
        }
    }

    /// Returns the value that the bridge takes, or an error when the raw value does not fit in
    /// an `i32`.
    pub fn bridge_code(&self) -> (r: Result<i32, StoreKitError>)
        ensures
            i32::MIN <= self.spec_raw() <= i32::MAX ==> r == Ok::<i32, StoreKitError>(
                self.spec_raw() as i32,
            ),
            !(i32::MIN <= self.spec_raw() <= i32::MAX) ==> (r matches Err(e) && e@
                == ErrorView::InvalidArgument(
                "external purchase custom link notice type '"@ + decimal(self.spec_raw() as int)
                    + "' does not fit in i32"@,
            )),
    {
        let raw = self.as_raw();
        if i32::MIN as i64 <= raw && raw <= i32::MAX as i64 {
            Ok(raw as i32)
        } else {
            let text = i64_to_decimal(raw);
            Err(
                StoreKitError::InvalidArgument(
                    concat3(
                        "external purchase custom link notice type '",
                        text.as_str(),
                        "' does not fit in i32",
                    ),
                ),
            )
        }
    }
}

/// The outcome of an external purchase custom link notice.
#[derive(Debug, Clone, PartialEq, Eq)]
pub enum ExternalPurchaseCustomLinkNoticeResult {
    /// The person cancelled.
    Cancelled,
    /// The person continued.
    Continued,
    /// An unrecognized raw value, kept as it was received.
    Unknown(String),
}

impl View for ExternalPurchaseCustomLinkNoticeResult {
    type V = Seq<char>;

    /// The raw `StoreKit` text of the value.
    open spec fn view(&self) -> Seq<char> {
        match self {
            ExternalPurchaseCustomLinkNoticeResult::Cancelled => "cancelled"@,
            ExternalPurchaseCustomLinkNoticeResult::Continued => "continued"@,
            ExternalPurchaseCustomLinkNoticeResult::Unknown(value) => value@,
        }
    }
}

impl ExternalPurchaseCustomLinkNoticeResult {
    /// `true` when the raw text names a known case.
    pub open spec fn is_known_text(text: Seq<char>) -> bool {
        text == "cancelled"@ || text == "continued"@
    }

    /// A value is canonical when `Unknown` only holds text that names no known case.
    pub open spec fn is_canonical(&self) -> bool {
        match self {
            ExternalPurchaseCustomLinkNoticeResult::Unknown(value) => !Self::is_known_text(value@),
            _ => true,
        }
    }

    /// The value that `from_raw` builds from `raw`.
    pub open spec fn spec_from_raw(raw: String) -> Self {
        if raw@ == "cancelled"@ {
            ExternalPurchaseCustomLinkNoticeResult::Cancelled
        } else if raw@ == "continued"@ {
            ExternalPurchaseCustomLinkNoticeResult::Continued
        } else {
            ExternalPurchaseCustomLinkNoticeResult::Unknown(raw)
        }
    }

    /// Returns the raw `StoreKit` text for this value.
    pub fn as_str(&self) -> (s: &str)
        ensures
            s@ == self@,
    {
        match self {
            ExternalPurchaseCustomLinkNoticeResult::Cancelled => "cancelled",
            ExternalPurchaseCustomLinkNoticeResult::Continued => "continued",
            ExternalPurchaseCustomLinkNoticeResult::Unknown(value) => value.as_str(),
        }
    }

    /// Builds a value from the raw `StoreKit` text, keeping unrecognized text in `Unknown`.
    pub fn from_raw(raw: String) -> (r: Self)
        ensures
            r == Self::spec_from_raw(raw),
            r@ == raw@,
            r.is_canonical(),
    {
        if crate::text::text_eq(raw.as_str(), "cancelled") {
            ExternalPurchaseCustomLinkNoticeResult::Cancelled
        } else if crate::text::text_eq(raw.as_str(), "continued") {
            ExternalPurchaseCustomLinkNoticeResult::Continued
        } else {
            ExternalPurchaseCustomLinkNoticeResult::Unknown(raw)
        }
    }

    /// Reading a value back as text gives the text it was built from, and the value is canonical.
    pub proof fn raw_text_round_trip(raw: String)
        ensures
            Self::spec_from_raw(raw)@ == raw@,
            Self::spec_from_raw(raw).is_canonical(),
    {
    }

    /// Two canonical values with the same raw text are the same case; for a known case they are equal.
    pub proof fn canonical_text_determines_value(a: Self, b: Self)
        requires
            a.is_canonical(),
            b.is_canonical(),
            a@ == b@,
        ensures
            (a is Unknown) == (b is Unknown),
            !(a is Unknown) ==> a == b,
    {
        reveal_strlit("cancelled");
        reveal_strlit("continued");
        assert("cancelled"@[1] != "continued"@[1]);
    }
}

/// An external purchase custom link token.
#[derive(Debug, Clone, PartialEq, Eq)]
pub struct ExternalPurchaseCustomLinkToken {
    /// The token.
    pub value: String,
}

/// Entry point of the external purchase custom link calls, which go through the bridge.
#[derive(Debug, Clone, Copy, Default)]
pub struct ExternalPurchaseCustomLink;

/// The notice result object that the bridge sends as JSON.
pub struct ExternalPurchaseNoticeResultPayload {
    pub kind: String,
    pub token: Option<String>,
}

impl ExternalPurchaseNoticeResultPayload {
    /// Converts the bridge's notice result object; a missing token reads as empty.
    pub fn into_notice_result(self) -> (r: ExternalPurchaseNoticeResult)
        ensures
            self.kind@ == "continued"@ ==> r is Continued,
            self.kind@ == "cancelled"@ ==> r is Cancelled,
            self.kind@ == "continuedWithExternalPurchaseToken"@ ==> (r matches ExternalPurchaseNoticeResult::ContinuedWithExternalPurchaseToken { token } && token@ == match self.token {
                Some(t) => t@,
                None => Seq::<char>::empty(),
            }),
            self.kind@ != "continued"@ && self.kind@ != "cancelled"@ && self.kind@
                != "continuedWithExternalPurchaseToken"@ ==> r == ExternalPurchaseNoticeResult::Unknown(self.kind),
            r@ == self.kind@,
    {
        proof {
            reveal_strlit("continued");
            reveal_strlit("cancelled");
            reveal_strlit("continuedWithExternalPurchaseToken");
            assert("continued"@[1] != "cancelled"@[1]);
            assert("continued"@.len() != "continuedWithExternalPurchaseToken"@.len());
            assert("cancelled"@.len() != "continuedWithExternalPurchaseToken"@.len());
        }
        if crate::text::text_eq(self.kind.as_str(), "continued") {
            ExternalPurchaseNoticeResult::Continued
        } else if crate::text::text_eq(self.kind.as_str(), "cancelled") {
            ExternalPurchaseNoticeResult::Cancelled
        } else if crate::text::text_eq(self.kind.as_str(), "continuedWithExternalPurchaseToken") {
            let token = match self.token {
                Some(t) => t,
                None => String::new(),
            };
            ExternalPurchaseNoticeResult::ContinuedWithExternalPurchaseToken { token }
        } else {
            ExternalPurchaseNoticeResult::Unknown(self.kind)
        }
    }
}

/// The custom link notice result object that the bridge sends as JSON.
pub struct ExternalPurchaseCustomLinkNoticeResultPayload {
    pub kind: String,
}

impl ExternalPurchaseCustomLinkNoticeResultPayload {
    /// Converts the bridge's custom link notice result object.
    pub fn into_notice_result(self) -> (r: ExternalPurchaseCustomLinkNoticeResult)
        ensures
            r == ExternalPurchaseCustomLinkNoticeResult::spec_from_raw(self.kind),
    {
        ExternalPurchaseCustomLinkNoticeResult::from_raw(self.kind)
    }
}

/// The custom link token object that the bridge sends as JSON.
pub struct ExternalPurchaseCustomLinkTokenPayload {
    pub value: String,
}

impl ExternalPurchaseCustomLinkTokenPayload {
    /// Converts the bridge's custom link token object.
    pub fn into_token(self) -> (r: ExternalPurchaseCustomLinkToken)
        ensures
            r.value == self.value,
    {
        ExternalPurchaseCustomLinkToken { value: self.value }
    }
}

} // verus!
