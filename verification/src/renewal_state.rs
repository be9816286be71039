//! `StoreKit.Product.SubscriptionInfo.RenewalState`.

use vstd::prelude::*;

verus! {

/// Wraps `StoreKit.Product.SubscriptionInfo.RenewalState`.
#[derive(Debug, Clone, PartialEq, Eq)]
pub enum RenewalState {
    /// The subscription is active.
    Subscribed,
    /// The subscription expired.
    Expired,
    /// Billing is being retried.
    InBillingRetryPeriod,
    /// The subscription is in its grace period.
    InGracePeriod,
    /// The subscription was revoked.
    Revoked,
    /// An unrecognized raw value, kept as it was received.
    Unknown(String),
}

impl View for RenewalState {
    type V = Seq<char>;

    /// The raw `StoreKit` text of the value.
    open spec fn view(&self) -> Seq<char> {
        match self {
            RenewalState::Subscribed => "subscribed"@,
            RenewalState::Expired => "expired"@,
            RenewalState::InBillingRetryPeriod => "inBillingRetryPeriod"@,
            RenewalState::InGracePeriod => "inGracePeriod"@,
            RenewalState::Revoked => "revoked"@,
            RenewalState::Unknown(value) => value@,
        }
    }
}

impl RenewalState {
    /// `true` when the raw text names a known case.
    pub open spec fn is_known_text(text: Seq<char>) -> bool {
        text == "subscribed"@ || text == "expired"@ || text == "inBillingRetryPeriod"@ || text == "inGracePeriod"@ || text == "revoked"@
    }

    /// A value is canonical when `Unknown` only holds text that names no known case.
    pub open spec fn is_canonical(&self) -> bool {
        match self {
            RenewalState::Unknown(value) => !Self::is_known_text(value@),
            _ => true,
        }
    }

    /// Returns the raw `StoreKit` text for this value.
    pub fn as_str(&self) -> (s: &str)
        ensures
            s@ == self@,
    {
        match self {
            RenewalState::Subscribed => "subscribed",
            RenewalState::Expired => "expired",
            RenewalState::InBillingRetryPeriod => "inBillingRetryPeriod",
            RenewalState::InGracePeriod => "inGracePeriod",
            RenewalState::Revoked => "revoked",
            RenewalState::Unknown(value) => value.as_str(),
        }
    }

    /// Builds a value from the raw `StoreKit` text, keeping unrecognized text in `Unknown`.
    pub fn from_raw(raw: &str) -> (r: Self)
        ensures
            r@ == raw@,
            r.is_canonical(),
    {
        if crate::text::text_eq(raw, "subscribed") {
            RenewalState::Subscribed
        } else if crate::text::text_eq(raw, "expired") {
            RenewalState::Expired
        } else if crate::text::text_eq(raw, "inBillingRetryPeriod") {
            RenewalState::InBillingRetryPeriod
        } else if crate::text::text_eq(raw, "inGracePeriod") {
            RenewalState::InGracePeriod
        } else if crate::text::text_eq(raw, "revoked") {
            RenewalState::Revoked
        } else {
            RenewalState::Unknown(crate::text::owned(raw))
        }
    }

    /// Two canonical values with the same raw text are the same case; for a known case they are equal.
    pub proof fn canonical_text_determines_value(a: Self, b: Self)
        requires
            a.is_canonical(),
            b.is_canonical(),
            a@ == b@,
        ensures
            (a is Unknown) == (b is Unknown),
            !(a is Unknown) ==> a == b,
    {
        reveal_strlit("subscribed");
        reveal_strlit("expired");
        reveal_strlit("inBillingRetryPeriod");
        reveal_strlit("inGracePeriod");
        reveal_strlit("revoked");
        assert("subscribed"@.len() != "expired"@.len());
        assert("subscribed"@.len() != "inBillingRetryPeriod"@.len());
        assert("subscribed"@.len() != "inGracePeriod"@.len());
        assert("subscribed"@.len() != "revoked"@.len());
        assert("expired"@.len() != "inBillingRetryPeriod"@.len());
        assert("expired"@.len() != "inGracePeriod"@.len());
        assert("expired"@[0] != "revoked"@[0]);
        assert("inBillingRetryPeriod"@.len() != "inGracePeriod"@.len());
        assert("inBillingRetryPeriod"@.len() != "revoked"@.len());
        assert("inGracePeriod"@.len() != "revoked"@.len());
    }
}

} // verus!
