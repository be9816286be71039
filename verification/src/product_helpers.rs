//! Product formatting, subscription period shorthands, and the keys of localized
//! descriptions.

use vstd::prelude::*;

use crate::error::{ErrorView, StoreKitError};
use crate::product::ProductType;
use crate::renewal_info::{ExpirationReason, PriceIncreaseStatus};
use crate::renewal_state::RenewalState;
use crate::subscription::{
    SubscriptionOfferType, SubscriptionPaymentMode, SubscriptionPeriod, SubscriptionPeriodUnit,
};
use crate::text::owned;
use crate::transaction::{OfferType, OwnershipType, RevocationReason};

verus! {

/// Localized formatting of a product's price and subscription period.
#[derive(Debug, Clone, PartialEq, Eq)]
pub struct ProductFormatting {
    /// Formatted price.
    pub formatted_price: String,
    /// Formatted subscription period, for a subscription.
    pub formatted_subscription_period: Option<String>,
    /// Formatted subscription period unit, for a subscription.
    pub formatted_subscription_period_unit: Option<String>,
}

/// The product formatting object that the bridge sends as JSON.
pub struct ProductFormattingPayload {
    pub price: String,
    pub subscription_period: Option<String>,
    pub subscription_period_unit: Option<String>,
}

/// The formatting that `into_product_formatting` builds.
pub open spec fn spec_into_product_formatting(p: ProductFormattingPayload) -> ProductFormatting {
    ProductFormatting {
        formatted_price: p.price,
        formatted_subscription_period: p.subscription_period,
        formatted_subscription_period_unit: p.subscription_period_unit,
    }
}

/// Product formatting read from its object keeps the formatted price, period and period unit,
/// each in its own field.
pub proof fn product_formatting_carries_every_field(p: ProductFormattingPayload, r: ProductFormatting)
    requires
        r == spec_into_product_formatting(p),
    ensures
        r.formatted_price == p.price,
        r.formatted_subscription_period == p.subscription_period,
        r.formatted_subscription_period_unit == p.subscription_period_unit,
{
}

impl ProductFormattingPayload {
    /// Converts the bridge's product formatting object.
    pub fn into_product_formatting(self) -> (r: ProductFormatting)
        ensures
            r == spec_into_product_formatting(self),
    {
        ProductFormatting {
            formatted_price: self.price,
            formatted_subscription_period: self.subscription_period,
            formatted_subscription_period_unit: self.subscription_period_unit,
        }
    }
}

impl SubscriptionPeriod {
    /// One week.
    pub fn weekly() -> (r: Self)
        ensures
            r == (SubscriptionPeriod { unit: SubscriptionPeriodUnit::Week, value: 1 }),
    {
        SubscriptionPeriod { unit: SubscriptionPeriodUnit::Week, value: 1 }
    }

    /// One month.
    pub fn monthly() -> (r: Self)
        ensures
            r == (SubscriptionPeriod { unit: SubscriptionPeriodUnit::Month, value: 1 }),
    {
        SubscriptionPeriod { unit: SubscriptionPeriodUnit::Month, value: 1 }
    }

    /// One year.
    pub fn yearly() -> (r: Self)
        ensures
            r == (SubscriptionPeriod { unit: SubscriptionPeriodUnit::Year, value: 1 }),
    {
        SubscriptionPeriod { unit: SubscriptionPeriodUnit::Year, value: 1 }
    }

    /// Three days.
    pub fn every_three_days() -> (r: Self)
        ensures
            r == (SubscriptionPeriod { unit: SubscriptionPeriodUnit::Day, value: 3 }),
    {
        SubscriptionPeriod { unit: SubscriptionPeriodUnit::Day, value: 3 }
    }

    /// Two weeks.
    pub fn every_two_weeks() -> (r: Self)
        ensures
            r == (SubscriptionPeriod { unit: SubscriptionPeriodUnit::Week, value: 2 }),
    {
        SubscriptionPeriod { unit: SubscriptionPeriodUnit::Week, value: 2 }
    }

    /// Two months.
    pub fn every_two_months() -> (r: Self)
        ensures
            r == (SubscriptionPeriod { unit: SubscriptionPeriodUnit::Month, value: 2 }),
    {
        SubscriptionPeriod { unit: SubscriptionPeriodUnit::Month, value: 2 }
    }

    /// Three months.
    pub fn every_three_months() -> (r: Self)
        ensures
            r == (SubscriptionPeriod { unit: SubscriptionPeriodUnit::Month, value: 3 }),
    {
        SubscriptionPeriod { unit: SubscriptionPeriodUnit::Month, value: 3 }
    }

    /// Six months.
    pub fn every_six_months() -> (r: Self)
        ensures
            r == (SubscriptionPeriod { unit: SubscriptionPeriodUnit::Month, value: 6 }),
    {
        SubscriptionPeriod { unit: SubscriptionPeriodUnit::Month, value: 6 }
    }
}

/// Reads the localized description that the bridge returned.
pub fn localized_description_from_bridge(text: Option<String>) -> (r: Result<String, StoreKitError>)
    ensures
        match text {
            Some(t) => r == Ok::<String, StoreKitError>(t),
            None => r matches Err(e) && e@ == ErrorView::Unknown("missing localized description payload"@),
        },
{
    match text {
        Some(t) => Ok(t),
        None => Err(StoreKitError::Unknown(owned("missing localized description payload"))),
    }
}

impl ProductType {
    /// The kind and raw value under which the bridge looks up the localized description.
    pub open spec fn spec_localized_description_key(&self) -> (Seq<char>, Seq<char>) {
        ("productType"@, self@)
    }

    /// The key and raw value under which the bridge looks up the localized description.
    pub fn localized_description_key(&self) -> (r: (&'static str, &str))
        ensures
            (r.0@, r.1@) == self.spec_localized_description_key(),
    {
        ("productType", self.as_str())
    }

    /// The localized description of the value read from any raw text is asked for under the
    /// kind `"productType"` and that raw text itself; what the bridge answers is then read by
    /// `localized_description_from_bridge`.
    pub proof fn localized_description_asks_for_the_raw_text(raw: String)
        ensures
            Self::spec_from_raw(raw).spec_localized_description_key() == ("productType"@, raw@),
    {
    }
}

impl RenewalState {
    /// The kind and raw value under which the bridge looks up the localized description.
    pub open spec fn spec_localized_description_key(&self) -> (Seq<char>, Seq<char>) {
        ("renewalState"@, self@)
    }

    /// The key and raw value under which the bridge looks up the localized description.
    pub fn localized_description_key(&self) -> (r: (&'static str, &str))
        ensures
            (r.0@, r.1@) == self.spec_localized_description_key(),
    {
        ("renewalState", self.as_str())
    }
}

impl ExpirationReason {
    /// The kind and raw value under which the bridge looks up the localized description.
    pub open spec fn spec_localized_description_key(&self) -> (Seq<char>, Seq<char>) {
        ("expirationReason"@, self@)
    }

    /// The key and raw value under which the bridge looks up the localized description.
    pub fn localized_description_key(&self) -> (r: (&'static str, &str))
        ensures
            (r.0@, r.1@) == self.spec_localized_description_key(),
    {
        ("expirationReason", self.as_str())
    }

    /// The localized description of the value read from any raw text is asked for under the
    /// kind `"expirationReason"` and that raw text itself; what the bridge answers is then read by
    /// `localized_description_from_bridge`.
    pub proof fn localized_description_asks_for_the_raw_text(raw: String)
        ensures
            Self::spec_from_raw(raw).spec_localized_description_key() == ("expirationReason"@, raw@),
    {
    }
}

impl PriceIncreaseStatus {
    /// The kind and raw value under which the bridge looks up the localized description.
    pub open spec fn spec_localized_description_key(&self) -> (Seq<char>, Seq<char>) {
        ("priceIncreaseStatus"@, self@)
    }

    /// The key and raw value under which the bridge looks up the localized description.
    pub fn localized_description_key(&self) -> (r: (&'static str, &str))
        ensures
            (r.0@, r.1@) == self.spec_localized_description_key(),
    {
        ("priceIncreaseStatus", self.as_str())
    }

    /// The localized description of the value read from any raw text is asked for under the
    /// kind `"priceIncreaseStatus"` and that raw text itself; what the bridge answers is then read by
    /// `localized_description_from_bridge`.
    pub proof fn localized_description_asks_for_the_raw_text(raw: String)
        ensures
            Self::spec_from_raw(raw).spec_localized_description_key() == ("priceIncreaseStatus"@, raw@),
    {
    }
}

impl SubscriptionOfferType {
    /// The kind and raw value under which the bridge looks up the localized description.
    pub open spec fn spec_localized_description_key(&self) -> (Seq<char>, Seq<char>) {
        ("subscriptionOfferType"@, self@)
    }

    /// The key and raw value under which the bridge looks up the localized description.
    pub fn localized_description_key(&self) -> (r: (&'static str, &str))
        ensures
            (r.0@, r.1@) == self.spec_localized_description_key(),
    {
        ("subscriptionOfferType", self.as_str())
    }

    /// The localized description of the value read from any raw text is asked for under the
    /// kind `"subscriptionOfferType"` and that raw text itself; what the bridge answers is then read by
    /// `localized_description_from_bridge`.
    pub proof fn localized_description_asks_for_the_raw_text(raw: String)
        ensures
            Self::spec_from_raw(raw).spec_localized_description_key() == ("subscriptionOfferType"@, raw@),
    {
    }
}

impl OfferType {
    /// The kind and raw value under which the bridge looks up the localized description.
    pub open spec fn spec_localized_description_key(&self) -> (Seq<char>, Seq<char>) {
        ("transactionOfferType"@, self@)
    }

    /// The key and raw value under which the bridge looks up the localized description.
    pub fn localized_description_key(&self) -> (r: (&'static str, &str))
        ensures
            (r.0@, r.1@) == self.spec_localized_description_key(),
    {
        ("transactionOfferType", self.as_str())
    }

    /// The localized description of the value read from any raw text is asked for under the
    /// kind `"transactionOfferType"` and that raw text itself; what the bridge answers is then read by
    /// `localized_description_from_bridge`.
    pub proof fn localized_description_asks_for_the_raw_text(raw: String)
        ensures
            Self::spec_from_raw(raw).spec_localized_description_key() == ("transactionOfferType"@, raw@),
    {
    }
}

impl SubscriptionPaymentMode {
    /// The kind and raw value under which the bridge looks up the localized description.
    pub open spec fn spec_localized_description_key(&self) -> (Seq<char>, Seq<char>) {
        ("subscriptionPaymentMode"@, self@)
    }

    /// The key and raw value under which the bridge looks up the localized description.
    pub fn localized_description_key(&self) -> (r: (&'static str, &str))
        ensures
            (r.0@, r.1@) == self.spec_localized_description_key(),
    {
        ("subscriptionPaymentMode", self.as_str())
    }

    /// The localized description of the value read from any raw text is asked for under the
    /// kind `"subscriptionPaymentMode"` and that raw text itself; what the bridge answers is then read by
    /// `localized_description_from_bridge`.
    pub proof fn localized_description_asks_for_the_raw_text(raw: String)
        ensures
            Self::spec_from_raw(raw).spec_localized_description_key() == ("subscriptionPaymentMode"@, raw@),
    {
    }
}

impl SubscriptionPeriodUnit {
    /// The kind and raw value under which the bridge looks up the localized description.
    pub open spec fn spec_localized_description_key(&self) -> (Seq<char>, Seq<char>) {
        ("subscriptionPeriodUnit"@, self@)
    }

    /// The key and raw value under which the bridge looks up the localized description.
    pub fn localized_description_key(&self) -> (r: (&'static str, &str))
        ensures
            (r.0@, r.1@) == self.spec_localized_description_key(),
    {
        ("subscriptionPeriodUnit", self.as_str())
    }

    /// The localized description of the value read from any raw text is asked for under the
    /// kind `"subscriptionPeriodUnit"` and that raw text itself; what the bridge answers is then read by
    /// `localized_description_from_bridge`.
    pub proof fn localized_description_asks_for_the_raw_text(raw: String)
        ensures
            Self::spec_from_raw(raw).spec_localized_description_key() == ("subscriptionPeriodUnit"@, raw@),
    {
    }
}

impl RevocationReason {
    /// The kind and raw value under which the bridge looks up the localized description.
    pub open spec fn spec_localized_description_key(&self) -> (Seq<char>, Seq<char>) {
        ("revocationReason"@, self@)
    }

    /// The key and raw value under which the bridge looks up the localized description.
    pub fn localized_description_key(&self) -> (r: (&'static str, &str))
        ensures
            (r.0@, r.1@) == self.spec_localized_description_key(),
    {
        ("revocationReason", self.as_str())
    }

    /// The localized description of the value read from any raw text is asked for under the
    /// kind `"revocationReason"` and that raw text itself; what the bridge answers is then read by
    /// `localized_description_from_bridge`.
    pub proof fn localized_description_asks_for_the_raw_text(raw: String)
        ensures
            Self::spec_from_raw(raw).spec_localized_description_key() == ("revocationReason"@, raw@),
    {
    }
}

impl OwnershipType {
    /// The kind and raw value under which the bridge looks up the localized description.
    pub open spec fn spec_localized_description_key(&self) -> (Seq<char>, Seq<char>) {
        ("ownershipType"@, self@)
    }

    /// The key and raw value under which the bridge looks up the localized description.
    pub fn localized_description_key(&self) -> (r: (&'static str, &str))
        ensures
            (r.0@, r.1@) == self.spec_localized_description_key(),
    {
        ("ownershipType", self.as_str())
    }

    /// The localized description of the value read from any raw text is asked for under the
    /// kind `"ownershipType"` and that raw text itself; what the bridge answers is then read by
    /// `localized_description_from_bridge`.
    pub proof fn localized_description_asks_for_the_raw_text(raw: String)
        ensures
            Self::spec_from_raw(raw).spec_localized_description_key() == ("ownershipType"@, raw@),
    {
    }
}
} // verus!
