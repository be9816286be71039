//! `StoreKit` advanced-commerce values: products, transaction and renewal metadata, and
//! merchandising.

use vstd::prelude::*;

use crate::error::{outcome, ErrorView, StoreKitError};
use crate::private::convert_all;
use crate::product::ProductType;
use crate::subscription::{
    keeps_subscription_period, periods_carry_every_field, spec_into_subscription_period,
    SubscriptionPeriod, SubscriptionPeriodPayload,
};
use crate::purchase_option::{purchase_outcome, PurchaseResult, PurchaseResultPayload};
use crate::text::{concat2, concat3, owned};
use crate::transaction::TransactionHandle;

verus! {

/// What App Store merchandising presents.
#[derive(Debug, Clone, PartialEq, Eq)]
pub enum AppStoreMerchandisingKind {
    /// The subscriptions of a subscription group.
    SubscriptionBundle {
        /// Subscription group identifier.
        group_id: String,
    },
}

impl AppStoreMerchandisingKind {
    /// Merchandising for the subscription group `group_id`.
    pub fn subscription_bundle(group_id: String) -> (r: Self)
        ensures
            r == (AppStoreMerchandisingKind::SubscriptionBundle { group_id }),
    {
        AppStoreMerchandisingKind::SubscriptionBundle { group_id }
    }
}

/// Options passed to an advanced-commerce purchase.
#[derive(Debug, Clone, PartialEq, Eq)]
pub enum AdvancedCommercePurchaseOption {
    /// What to do when the storefront changes during the purchase.
    OnStorefrontChange {
        /// Whether the purchase continues.
        should_continue_purchase: bool,
    },
}

/// An advanced-commerce product.
#[derive(Debug, Clone, PartialEq, Eq)]
pub struct AdvancedCommerceProduct {
    /// Product identifier.
    pub id: String,
    /// Product type.
    pub product_type: ProductType,
}

/// The advanced-commerce product object that the bridge sends as JSON.
pub struct AdvancedCommerceProductPayload {
    pub id: String,
    pub product_type: String,
}

/// The product that `into_product` builds.
pub open spec fn spec_into_ac_product(p: AdvancedCommerceProductPayload) -> AdvancedCommerceProduct {
    AdvancedCommerceProduct { id: p.id, product_type: ProductType::spec_from_raw(p.product_type) }
}

impl AdvancedCommerceProductPayload {
    /// Converts the bridge's advanced-commerce product object.
    pub fn into_product(self) -> (r: AdvancedCommerceProduct)
        ensures
            r == spec_into_ac_product(self),
    {
        AdvancedCommerceProduct { id: self.id, product_type: ProductType::from_raw(self.product_type) }
    }
}

/// Why an advanced-commerce offer applied.
#[derive(Debug, Clone, PartialEq, Eq)]
pub enum TransactionAdvancedCommerceOfferReason {
    /// To acquire a customer.
    Acquisition,
    /// To retain a customer.
    Retention,
    /// To win a customer back.
    WinBack,
    /// An unrecognized raw value, kept as it was received.
    Unknown(String),
}

impl View for TransactionAdvancedCommerceOfferReason {
    type V = Seq<char>;

    /// The raw `StoreKit` text of the value.
    open spec fn view(&self) -> Seq<char> {
        match self {
            TransactionAdvancedCommerceOfferReason::Acquisition => "acquisition"@,
            TransactionAdvancedCommerceOfferReason::Retention => "retention"@,
            TransactionAdvancedCommerceOfferReason::WinBack => "winBack"@,
            TransactionAdvancedCommerceOfferReason::Unknown(value) => value@,
        }
    }
}

impl TransactionAdvancedCommerceOfferReason {
    /// `true` when the raw text names a known case.
    pub open spec fn is_known_text(text: Seq<char>) -> bool {
        text == "acquisition"@ || text == "retention"@ || text == "winBack"@
    }

    /// A value is canonical when `Unknown` only holds text that names no known case.
    pub open spec fn is_canonical(&self) -> bool {
        match self {
            TransactionAdvancedCommerceOfferReason::Unknown(value) => !Self::is_known_text(value@),
            _ => true,
        }
    }

    /// The value that `from_raw` builds from `raw`.
    pub open spec fn spec_from_raw(raw: String) -> Self {
        if raw@ == "acquisition"@ {
            TransactionAdvancedCommerceOfferReason::Acquisition
        } else if raw@ == "retention"@ {
            TransactionAdvancedCommerceOfferReason::Retention
        } else if raw@ == "winBack"@ {
            TransactionAdvancedCommerceOfferReason::WinBack
        } else {
            TransactionAdvancedCommerceOfferReason::Unknown(raw)
        }
    }

    /// Returns the raw `StoreKit` text for this value.
    pub fn as_str(&self) -> (s: &str)
        ensures
            s@ == self@,
    {
        match self {
            TransactionAdvancedCommerceOfferReason::Acquisition => "acquisition",
            TransactionAdvancedCommerceOfferReason::Retention => "retention",
            TransactionAdvancedCommerceOfferReason::WinBack => "winBack",
            TransactionAdvancedCommerceOfferReason::Unknown(value) => value.as_str(),
        }
    }

    /// Builds a value from the raw `StoreKit` text, keeping unrecognized text in `Unknown`.
    pub fn from_raw(raw: String) -> (r: Self)
        ensures
            r == Self::spec_from_raw(raw),
            r@ == raw@,
            r.is_canonical(),
    {
        if crate::text::text_eq(raw.as_str(), "acquisition") {
            TransactionAdvancedCommerceOfferReason::Acquisition
        } else if crate::text::text_eq(raw.as_str(), "retention") {
            TransactionAdvancedCommerceOfferReason::Retention
        } else if crate::text::text_eq(raw.as_str(), "winBack") {
            TransactionAdvancedCommerceOfferReason::WinBack
        } else {
            TransactionAdvancedCommerceOfferReason::Unknown(raw)
        }
    }

    /// Reading a value back as text gives the text it was built from, and the value is canonical.
    pub proof fn raw_text_round_trip(raw: String)
        ensures
            Self::spec_from_raw(raw)@ == raw@,
            Self::spec_from_raw(raw).is_canonical(),
    {
    }

    /// Two canonical values with the same raw text are the same case; for a known case they are equal.
    pub proof fn canonical_text_determines_value(a: Self, b: Self)
        requires
            a.is_canonical(),
            b.is_canonical(),
            a@ == b@,
        ensures
            (a is Unknown) == (b is Unknown),
            !(a is Unknown) ==> a == b,
    {
        reveal_strlit("acquisition");
        reveal_strlit("retention");
        reveal_strlit("winBack");
        assert("acquisition"@.len() != "retention"@.len());
        assert("acquisition"@.len() != "winBack"@.len());
        assert("retention"@.len() != "winBack"@.len());
    }
}

/// Why an advanced-commerce item was refunded.
#[derive(Debug, Clone, PartialEq, Eq)]
pub enum TransactionAdvancedCommerceRefundReason {
    /// For legal reasons.
    Legal,
    /// The items were modified.
    ModifyItems,
    /// The purchase was unintended.
    Unintended,
    /// The purchase was not fulfilled.
    Unfulfilled,
    /// The customer was not satisfied.
    Unsatisfied,
    /// Another reason.
    Other,
    /// An unrecognized raw value, kept as it was received.
    Unknown(String),
}

impl View for TransactionAdvancedCommerceRefundReason {
    type V = Seq<char>;

    /// The raw `StoreKit` text of the value.
    open spec fn view(&self) -> Seq<char> {
        match self {
            TransactionAdvancedCommerceRefundReason::Legal => "legal"@,
            TransactionAdvancedCommerceRefundReason::ModifyItems => "modifyItems"@,
            TransactionAdvancedCommerceRefundReason::Unintended => "unintended"@,
            TransactionAdvancedCommerceRefundReason::Unfulfilled => "unfulfilled"@,
            TransactionAdvancedCommerceRefundReason::Unsatisfied => "unsatisfied"@,
            TransactionAdvancedCommerceRefundReason::Other => "other"@,
            TransactionAdvancedCommerceRefundReason::Unknown(value) => value@,
        }
    }
}

impl TransactionAdvancedCommerceRefundReason {
    /// `true` when the raw text names a known case.
    pub open spec fn is_known_text(text: Seq<char>) -> bool {
        text == "legal"@ || text == "modifyItems"@ || text == "unintended"@ || text == "unfulfilled"@ || text == "unsatisfied"@ || text == "other"@
    }

    /// A value is canonical when `Unknown` only holds text that names no known case.
    pub open spec fn is_canonical(&self) -> bool {
        match self {
            TransactionAdvancedCommerceRefundReason::Unknown(value) => !Self::is_known_text(value@),
            _ => true,
        }
    }

    /// The value that `from_raw` builds from `raw`.
    pub open spec fn spec_from_raw(raw: String) -> Self {
        if raw@ == "legal"@ {
            TransactionAdvancedCommerceRefundReason::Legal
        } else if raw@ == "modifyItems"@ {
            TransactionAdvancedCommerceRefundReason::ModifyItems
        } else if raw@ == "unintended"@ {
            TransactionAdvancedCommerceRefundReason::Unintended
        } else if raw@ == "unfulfilled"@ {
            TransactionAdvancedCommerceRefundReason::Unfulfilled
        } else if raw@ == "unsatisfied"@ {
            TransactionAdvancedCommerceRefundReason::Unsatisfied
        } else if raw@ == "other"@ {
            TransactionAdvancedCommerceRefundReason::Other
        } else {
            TransactionAdvancedCommerceRefundReason::Unknown(raw)
        }
    }

    /// Returns the raw `StoreKit` text for this value.
    pub fn as_str(&self) -> (s: &str)
        ensures
            s@ == self@,
    {
        match self {
            TransactionAdvancedCommerceRefundReason::Legal => "legal",
            TransactionAdvancedCommerceRefundReason::ModifyItems => "modifyItems",
            TransactionAdvancedCommerceRefundReason::Unintended => "unintended",
            TransactionAdvancedCommerceRefundReason::Unfulfilled => "unfulfilled",
            TransactionAdvancedCommerceRefundReason::Unsatisfied => "unsatisfied",
            TransactionAdvancedCommerceRefundReason::Other => "other",
            TransactionAdvancedCommerceRefundReason::Unknown(value) => value.as_str(),
        }
    }

    /// Builds a value from the raw `StoreKit` text, keeping unrecognized text in `Unknown`.
    pub fn from_raw(raw: String) -> (r: Self)
        ensures
            r == Self::spec_from_raw(raw),
            r@ == raw@,
            r.is_canonical(),
    {
        if crate::text::text_eq(raw.as_str(), "legal") {
            TransactionAdvancedCommerceRefundReason::Legal
        } else if crate::text::text_eq(raw.as_str(), "modifyItems") {
            TransactionAdvancedCommerceRefundReason::ModifyItems
        } else if crate::text::text_eq(raw.as_str(), "unintended") {
            TransactionAdvancedCommerceRefundReason::Unintended
        } else if crate::text::text_eq(raw.as_str(), "unfulfilled") {
            TransactionAdvancedCommerceRefundReason::Unfulfilled
        } else if crate::text::text_eq(raw.as_str(), "unsatisfied") {
            TransactionAdvancedCommerceRefundReason::Unsatisfied
        } else if crate::text::text_eq(raw.as_str(), "other") {
            TransactionAdvancedCommerceRefundReason::Other
        } else {
            TransactionAdvancedCommerceRefundReason::Unknown(raw)
        }
    }

    /// Reading a value back as text gives the text it was built from, and the value is canonical.
    pub proof fn raw_text_round_trip(raw: String)
        ensures
            Self::spec_from_raw(raw)@ == raw@,
            Self::spec_from_raw(raw).is_canonical(),
    {
    }

    /// Two canonical values with the same raw text are the same case; for a known case they are equal.
    pub proof fn canonical_text_determines_value(a: Self, b: Self)
        requires
            a.is_canonical(),
            b.is_canonical(),
            a@ == b@,
        ensures
            (a is Unknown) == (b is Unknown),
            !(a is Unknown) ==> a == b,
    {
        reveal_strlit("legal");
        reveal_strlit("modifyItems");
        reveal_strlit("unintended");
        reveal_strlit("unfulfilled");
        reveal_strlit("unsatisfied");
        reveal_strlit("other");
        assert("legal"@.len() != "modifyItems"@.len());
        assert("legal"@.len() != "unintended"@.len());
        assert("legal"@.len() != "unfulfilled"@.len());
        assert("legal"@.len() != "unsatisfied"@.len());
        assert("legal"@[0] != "other"@[0]);
        assert("modifyItems"@.len() != "unintended"@.len());
        assert("modifyItems"@[0] != "unfulfilled"@[0]);
        assert("modifyItems"@[0] != "unsatisfied"@[0]);
        assert("modifyItems"@.len() != "other"@.len());
        assert("unintended"@.len() != "unfulfilled"@.len());
        assert("unintended"@.len() != "unsatisfied"@.len());
        assert("unintended"@.len() != "other"@.len());
        assert("unfulfilled"@[2] != "unsatisfied"@[2]);
        assert("unfulfilled"@.len() != "other"@.len());
        assert("unsatisfied"@.len() != "other"@.len());
    }
}

/// How an advanced-commerce item was refunded.
#[derive(Debug, Clone, PartialEq, Eq)]
pub enum TransactionAdvancedCommerceRefundType {
    /// A custom amount.
    Custom,
    /// A pro-rated amount.
    ProRated,
    /// The full amount.
    Full,
    /// An unrecognized raw value, kept as it was received.
    Unknown(String),
}

impl View for TransactionAdvancedCommerceRefundType {
    type V = Seq<char>;

    /// The raw `StoreKit` text of the value.
    open spec fn view(&self) -> Seq<char> {
        match self {
            TransactionAdvancedCommerceRefundType::Custom => "custom"@,
            TransactionAdvancedCommerceRefundType::ProRated => "proRated"@,
            TransactionAdvancedCommerceRefundType::Full => "full"@,
            TransactionAdvancedCommerceRefundType::Unknown(value) => value@,
        }
    }
}

impl TransactionAdvancedCommerceRefundType {
    /// `true` when the raw text names a known case.
    pub open spec fn is_known_text(text: Seq<char>) -> bool {
        text == "custom"@ || text == "proRated"@ || text == "full"@
    }

    /// A value is canonical when `Unknown` only holds text that names no known case.
    pub open spec fn is_canonical(&self) -> bool {
        match self {
            TransactionAdvancedCommerceRefundType::Unknown(value) => !Self::is_known_text(value@),
            _ => true,
        }
    }

    /// The value that `from_raw` builds from `raw`.
    pub open spec fn spec_from_raw(raw: String) -> Self {
        if raw@ == "custom"@ {
            TransactionAdvancedCommerceRefundType::Custom
        } else if raw@ == "proRated"@ {
            TransactionAdvancedCommerceRefundType::ProRated
        } else if raw@ == "full"@ {
            TransactionAdvancedCommerceRefundType::Full
        } else {
            TransactionAdvancedCommerceRefundType::Unknown(raw)
        }
    }

    /// Returns the raw `StoreKit` text for this value.
    pub fn as_str(&self) -> (s: &str)
        ensures
            s@ == self@,
    {
        match self {
            TransactionAdvancedCommerceRefundType::Custom => "custom",
            TransactionAdvancedCommerceRefundType::ProRated => "proRated",
            TransactionAdvancedCommerceRefundType::Full => "full",
            TransactionAdvancedCommerceRefundType::Unknown(value) => value.as_str(),
        }
    }

    /// Builds a value from the raw `StoreKit` text, keeping unrecognized text in `Unknown`.
    pub fn from_raw(raw: String) -> (r: Self)
        ensures
            r == Self::spec_from_raw(raw),
            r@ == raw@,
            r.is_canonical(),
    {
        if crate::text::text_eq(raw.as_str(), "custom") {
            TransactionAdvancedCommerceRefundType::Custom
        } else if crate::text::text_eq(raw.as_str(), "proRated") {
            TransactionAdvancedCommerceRefundType::ProRated
        } else if crate::text::text_eq(raw.as_str(), "full") {
            TransactionAdvancedCommerceRefundType::Full
        } else {
            TransactionAdvancedCommerceRefundType::Unknown(raw)
        }
    }

    /// Reading a value back as text gives the text it was built from, and the value is canonical.
    pub proof fn raw_text_round_trip(raw: String)
        ensures
            Self::spec_from_raw(raw)@ == raw@,
            Self::spec_from_raw(raw).is_canonical(),
    {
    }

    /// Two canonical values with the same raw text are the same case; for a known case they are equal.
    pub proof fn canonical_text_determines_value(a: Self, b: Self)
        requires
            a.is_canonical(),
            b.is_canonical(),
            a@ == b@,
        ensures
            (a is Unknown) == (b is Unknown),
            !(a is Unknown) ==> a == b,
    {
        reveal_strlit("custom");
        reveal_strlit("proRated");
        reveal_strlit("full");
        assert("custom"@.len() != "proRated"@.len());
        assert("custom"@.len() != "full"@.len());
        assert("proRated"@.len() != "full"@.len());
    }
}

/// The state of an advanced-commerce price increase.
#[derive(Debug, Clone, PartialEq, Eq)]
pub enum RenewalInfoAdvancedCommercePriceIncreaseStatus {
    /// Awaiting the customer.
    Pending,
    /// Accepted by the customer.
    Accepted,
    /// Scheduled.
    Scheduled,
    /// An unrecognized raw value, kept as it was received.
    Unknown(String),
}

impl View for RenewalInfoAdvancedCommercePriceIncreaseStatus {
    type V = Seq<char>;

    /// The raw `StoreKit` text of the value.
    open spec fn view(&self) -> Seq<char> {
        match self {
            RenewalInfoAdvancedCommercePriceIncreaseStatus::Pending => "pending"@,
            RenewalInfoAdvancedCommercePriceIncreaseStatus::Accepted => "accepted"@,
            RenewalInfoAdvancedCommercePriceIncreaseStatus::Scheduled => "scheduled"@,
            RenewalInfoAdvancedCommercePriceIncreaseStatus::Unknown(value) => value@,
        }
    }
}

impl RenewalInfoAdvancedCommercePriceIncreaseStatus {
    /// `true` when the raw text names a known case.
    pub open spec fn is_known_text(text: Seq<char>) -> bool {
        text == "pending"@ || text == "accepted"@ || text == "scheduled"@
    }

    /// A value is canonical when `Unknown` only holds text that names no known case.
    pub open spec fn is_canonical(&self) -> bool {
        match self {
            RenewalInfoAdvancedCommercePriceIncreaseStatus::Unknown(value) => !Self::is_known_text(value@),
            _ => true,
        }
    }

    /// The value that `from_raw` builds from `raw`.
    pub open spec fn spec_from_raw(raw: String) -> Self {
        if raw@ == "pending"@ {
            RenewalInfoAdvancedCommercePriceIncreaseStatus::Pending
        } else if raw@ == "accepted"@ {
            RenewalInfoAdvancedCommercePriceIncreaseStatus::Accepted
        } else if raw@ == "scheduled"@ {
            RenewalInfoAdvancedCommercePriceIncreaseStatus::Scheduled
        } else {
            RenewalInfoAdvancedCommercePriceIncreaseStatus::Unknown(raw)
        }
    }

    /// Returns the raw `StoreKit` text for this value.
    pub fn as_str(&self) -> (s: &str)
        ensures
            s@ == self@,
    {
        match self {
            RenewalInfoAdvancedCommercePriceIncreaseStatus::Pending => "pending",
            RenewalInfoAdvancedCommercePriceIncreaseStatus::Accepted => "accepted",
            RenewalInfoAdvancedCommercePriceIncreaseStatus::Scheduled => "scheduled",
            RenewalInfoAdvancedCommercePriceIncreaseStatus::Unknown(value) => value.as_str(),
        }
    }

    /// Builds a value from the raw `StoreKit` text, keeping unrecognized text in `Unknown`.
    pub fn from_raw(raw: String) -> (r: Self)
        ensures
            r == Self::spec_from_raw(raw),
            r@ == raw@,
            r.is_canonical(),
    {
        if crate::text::text_eq(raw.as_str(), "pending") {
            RenewalInfoAdvancedCommercePriceIncreaseStatus::Pending
        } else if crate::text::text_eq(raw.as_str(), "accepted") {
            RenewalInfoAdvancedCommercePriceIncreaseStatus::Accepted
        } else if crate::text::text_eq(raw.as_str(), "scheduled") {
            RenewalInfoAdvancedCommercePriceIncreaseStatus::Scheduled
        } else {
            RenewalInfoAdvancedCommercePriceIncreaseStatus::Unknown(raw)
        }
    }

    /// Reading a value back as text gives the text it was built from, and the value is canonical.
    pub proof fn raw_text_round_trip(raw: String)
        ensures
            Self::spec_from_raw(raw)@ == raw@,
            Self::spec_from_raw(raw).is_canonical(),
    {
    }

    /// Two canonical values with the same raw text are the same case; for a known case they are equal.
    pub proof fn canonical_text_determines_value(a: Self, b: Self)
        requires
            a.is_canonical(),
            b.is_canonical(),
            a@ == b@,
        ensures
            (a is Unknown) == (b is Unknown),
            !(a is Unknown) ==> a == b,
    {
        reveal_strlit("pending");
        reveal_strlit("accepted");
        reveal_strlit("scheduled");
        assert("pending"@.len() != "accepted"@.len());
        assert("pending"@.len() != "scheduled"@.len());
        assert("accepted"@.len() != "scheduled"@.len());
    }
}

/// Advanced-commerce metadata attached to a transaction.
#[derive(Debug, Clone, PartialEq, Eq)]
pub struct TransactionAdvancedCommerceInfo {
    pub request_reference_id: String,
    pub estimated_tax: String,
    pub tax_rate: String,
    pub tax_code: String,
    pub tax_exclusive_price: String,
    pub description: Option<String>,
    pub display_name: Option<String>,
    pub period: Option<SubscriptionPeriod>,
    pub items: Vec<TransactionAdvancedCommerceItem>,
}

/// An item of an advanced-commerce transaction.
#[derive(Debug, Clone, PartialEq, Eq)]
pub struct TransactionAdvancedCommerceItem {
    pub details: TransactionAdvancedCommerceItemDetails,
    pub refunds: Option<Vec<TransactionAdvancedCommerceRefund>>,
    pub revocation_date: Option<String>,
}

/// What an advanced-commerce item is.
#[derive(Debug, Clone, PartialEq, Eq)]
pub struct TransactionAdvancedCommerceItemDetails {
    pub sku: String,
    pub display_name: String,
    pub description: String,
    pub offer: Option<TransactionAdvancedCommerceOffer>,
    pub price: String,
}

/// An offer applied to an advanced-commerce item.
#[derive(Debug, Clone, PartialEq, Eq)]
pub struct TransactionAdvancedCommerceOffer {
    pub price: String,
    pub period: SubscriptionPeriod,
    pub period_count: i64,
    pub reason: TransactionAdvancedCommerceOfferReason,
}

/// A refund of an advanced-commerce item.
#[derive(Debug, Clone, PartialEq, Eq)]
pub struct TransactionAdvancedCommerceRefund {
    pub reason: TransactionAdvancedCommerceRefundReason,
    pub refund_type: TransactionAdvancedCommerceRefundType,
    pub date: String,
    pub amount: String,
}

/// Advanced-commerce metadata attached to renewal info.
#[derive(Debug, Clone, PartialEq, Eq)]
pub struct RenewalInfoAdvancedCommerceInfo {
    pub consistency_token: String,
    pub request_reference_id: String,
    pub tax_code: String,
    pub description: String,
    pub display_name: String,
    pub period: SubscriptionPeriod,
    pub items: Vec<RenewalInfoAdvancedCommerceItem>,
}

/// An item of advanced-commerce renewal info.
#[derive(Debug, Clone, PartialEq, Eq)]
pub struct RenewalInfoAdvancedCommerceItem {
    pub details: TransactionAdvancedCommerceItemDetails,
    pub price_increase_info: Option<RenewalInfoAdvancedCommercePriceIncreaseInfo>,
}

/// A price increase of an advanced-commerce item.
#[derive(Debug, Clone, PartialEq, Eq)]
pub struct RenewalInfoAdvancedCommercePriceIncreaseInfo {
    pub status: RenewalInfoAdvancedCommercePriceIncreaseStatus,
    pub price: String,
    pub dependent_skus: Vec<String>,
}

/// The transaction advanced-commerce object that the bridge sends as JSON.
pub struct TransactionAdvancedCommerceInfoPayload {
    pub request_reference_id: String,
    pub estimated_tax: String,
    pub tax_rate: String,
    pub tax_code: String,
    pub tax_exclusive_price: String,
    pub description: Option<String>,
    pub display_name: Option<String>,
    pub period: Option<SubscriptionPeriodPayload>,
    pub items: Vec<TransactionAdvancedCommerceItemPayload>,
}

/// The advanced-commerce item object that the bridge sends as JSON.
pub struct TransactionAdvancedCommerceItemPayload {
    pub details: TransactionAdvancedCommerceItemDetailsPayload,
    pub refunds: Option<Vec<TransactionAdvancedCommerceRefundPayload>>,
    pub revocation_date: Option<String>,
}

/// The advanced-commerce item details object that the bridge sends as JSON.
pub struct TransactionAdvancedCommerceItemDetailsPayload {
    pub sku: String,
    pub display_name: String,
    pub description: String,
    pub offer: Option<TransactionAdvancedCommerceOfferPayload>,
    pub price: String,
}

/// The advanced-commerce offer object that the bridge sends as JSON.
pub struct TransactionAdvancedCommerceOfferPayload {
    pub price: String,
    pub period: SubscriptionPeriodPayload,
    pub period_count: i64,
    pub reason: String,
}

/// The advanced-commerce refund object that the bridge sends as JSON.
pub struct TransactionAdvancedCommerceRefundPayload {
    pub reason: String,
    pub refund_type: String,
    pub date: String,
    pub amount: String,
}

/// The renewal advanced-commerce object that the bridge sends as JSON.
pub struct RenewalInfoAdvancedCommerceInfoPayload {
    pub consistency_token: String,
    pub request_reference_id: String,
    pub tax_code: String,
    pub description: String,
    pub display_name: String,
    pub period: SubscriptionPeriodPayload,
    pub items: Vec<RenewalInfoAdvancedCommerceItemPayload>,
}

/// The renewal advanced-commerce item object that the bridge sends as JSON.
pub struct RenewalInfoAdvancedCommerceItemPayload {
    pub details: TransactionAdvancedCommerceItemDetailsPayload,
    pub price_increase_info: Option<RenewalInfoAdvancedCommercePriceIncreaseInfoPayload>,
}

/// The renewal price increase object that the bridge sends as JSON.
pub struct RenewalInfoAdvancedCommercePriceIncreaseInfoPayload {
    pub status: String,
    pub price: String,
    pub dependent_skus: Vec<String>,
}

/// The signed transaction payload, read for its advanced-commerce object.
pub struct TransactionSignedPayload {
    pub advanced_commerce_info: Option<TransactionAdvancedCommerceInfoPayload>,
}

/// The signed renewal payload, read for its advanced-commerce object.
pub struct RenewalSignedPayload {
    pub advanced_commerce_info: Option<RenewalInfoAdvancedCommerceInfoPayload>,
}

/// The offer that `into_transaction_advanced_commerce_offer` builds.
pub open spec fn spec_into_offer(p: TransactionAdvancedCommerceOfferPayload) -> TransactionAdvancedCommerceOffer {
    TransactionAdvancedCommerceOffer {
        price: p.price,
        period: spec_into_subscription_period(p.period),
        period_count: p.period_count,
        reason: TransactionAdvancedCommerceOfferReason::spec_from_raw(p.reason),
    }
}

/// The details that `into_transaction_advanced_commerce_item_details` builds.
pub open spec fn spec_into_item_details(p: TransactionAdvancedCommerceItemDetailsPayload) -> TransactionAdvancedCommerceItemDetails {
    TransactionAdvancedCommerceItemDetails {
        sku: p.sku,
        display_name: p.display_name,
        description: p.description,
        offer: match p.offer {
            Some(o) => Some(spec_into_offer(o)),
            None => None,
        },
        price: p.price,
    }
}

/// The refund that `into_transaction_advanced_commerce_refund` builds.
pub open spec fn spec_into_refund(p: TransactionAdvancedCommerceRefundPayload) -> TransactionAdvancedCommerceRefund {
    TransactionAdvancedCommerceRefund {
        reason: TransactionAdvancedCommerceRefundReason::spec_from_raw(p.reason),
        refund_type: TransactionAdvancedCommerceRefundType::spec_from_raw(p.refund_type),
        date: p.date,
        amount: p.amount,
    }
}

/// `item` is what `into_transaction_advanced_commerce_item` builds from `p`.
pub open spec fn is_item_of(item: TransactionAdvancedCommerceItem, p: TransactionAdvancedCommerceItemPayload) -> bool {
    &&& item.details == spec_into_item_details(p.details)
    &&& item.revocation_date == p.revocation_date
    &&& match (item.refunds, p.refunds) {
        (Some(rs), Some(ps)) => rs@ == ps@.map_values(
            |r: TransactionAdvancedCommerceRefundPayload| spec_into_refund(r),
        ),
        (None, None) => true,
        _ => false,
    }
}

/// `info` is what `into_transaction_advanced_commerce_info` builds from `p`.
pub open spec fn is_transaction_info_of(info: TransactionAdvancedCommerceInfo, p: TransactionAdvancedCommerceInfoPayload) -> bool {
    &&& info.request_reference_id == p.request_reference_id
    &&& info.estimated_tax == p.estimated_tax
    &&& info.tax_rate == p.tax_rate
    &&& info.tax_code == p.tax_code
    &&& info.tax_exclusive_price == p.tax_exclusive_price
    &&& info.description == p.description
    &&& info.display_name == p.display_name
    &&& info.period == match p.period {
        Some(x) => Some(spec_into_subscription_period(x)),
        None => None,
    }
    &&& info.items@.len() == p.items@.len()
    &&& forall|i: int| 0 <= i < p.items@.len() ==> is_item_of(#[trigger] info.items@[i], p.items@[i])
}

/// The price increase that `into_renewal_info_advanced_commerce_price_increase_info` builds.
pub open spec fn spec_into_price_increase(p: RenewalInfoAdvancedCommercePriceIncreaseInfoPayload) -> RenewalInfoAdvancedCommercePriceIncreaseInfo {
    RenewalInfoAdvancedCommercePriceIncreaseInfo {
        status: RenewalInfoAdvancedCommercePriceIncreaseStatus::spec_from_raw(p.status),
        price: p.price,
        dependent_skus: p.dependent_skus,
    }
}

/// The item that `into_renewal_info_advanced_commerce_item` builds.
pub open spec fn spec_into_renewal_item(p: RenewalInfoAdvancedCommerceItemPayload) -> RenewalInfoAdvancedCommerceItem {
    RenewalInfoAdvancedCommerceItem {
        details: spec_into_item_details(p.details),
        price_increase_info: match p.price_increase_info {
            Some(x) => Some(spec_into_price_increase(x)),
            None => None,
        },
    }
}

/// `info` is what `into_renewal_info_advanced_commerce_info` builds from `p`.
pub open spec fn is_renewal_info_of(info: RenewalInfoAdvancedCommerceInfo, p: RenewalInfoAdvancedCommerceInfoPayload) -> bool {
    &&& info.consistency_token == p.consistency_token
    &&& info.request_reference_id == p.request_reference_id
    &&& info.tax_code == p.tax_code
    &&& info.description == p.description
    &&& info.display_name == p.display_name
    &&& info.period == spec_into_subscription_period(p.period)
    &&& info.items@ == p.items@.map_values(
        |x: RenewalInfoAdvancedCommerceItemPayload| spec_into_renewal_item(x),
    )
}

impl TransactionAdvancedCommerceOfferPayload {
    /// Converts the bridge's advanced-commerce offer object.
    pub fn into_transaction_advanced_commerce_offer(self) -> (r: TransactionAdvancedCommerceOffer)
        ensures
            r == spec_into_offer(self),
    {
        TransactionAdvancedCommerceOffer {
            price: self.price,
            period: self.period.into_subscription_period(),
            period_count: self.period_count,
            reason: TransactionAdvancedCommerceOfferReason::from_raw(self.reason),
        }
    }
}

impl TransactionAdvancedCommerceItemDetailsPayload {
    /// Converts the bridge's advanced-commerce item details object.
    pub fn into_transaction_advanced_commerce_item_details(self) -> (r: TransactionAdvancedCommerceItemDetails)
        ensures
            r == spec_into_item_details(self),
    {
        let offer = match self.offer {
            Some(o) => Some(o.into_transaction_advanced_commerce_offer()),
            None => None,
        };
        TransactionAdvancedCommerceItemDetails {
            sku: self.sku,
            display_name: self.display_name,
            description: self.description,
            offer,
            price: self.price,
        }
    }
}

impl TransactionAdvancedCommerceRefundPayload {
    /// Converts the bridge's advanced-commerce refund object.
    pub fn into_transaction_advanced_commerce_refund(self) -> (r: TransactionAdvancedCommerceRefund)
        ensures
            r == spec_into_refund(self),
    {
        TransactionAdvancedCommerceRefund {
            reason: TransactionAdvancedCommerceRefundReason::from_raw(self.reason),
            refund_type: TransactionAdvancedCommerceRefundType::from_raw(self.refund_type),
            date: self.date,
            amount: self.amount,
        }
    }
}

impl TransactionAdvancedCommerceItemPayload {
    /// Converts the bridge's advanced-commerce item object.
    pub fn into_transaction_advanced_commerce_item(self) -> (r: TransactionAdvancedCommerceItem)
        ensures
            is_item_of(r, self),
    {
        let refunds = match self.refunds {
            Some(rs) => {
                let ghost before = rs@;
                let converted = convert_all(
                    rs,
                    TransactionAdvancedCommerceRefundPayload::into_transaction_advanced_commerce_refund,
                );
                assert(converted@ =~= before.map_values(
                    |r: TransactionAdvancedCommerceRefundPayload| spec_into_refund(r),
                ));
                Some(converted)
            },
            None => None,
        };
        TransactionAdvancedCommerceItem {
            details: self.details.into_transaction_advanced_commerce_item_details(),
            refunds,
            revocation_date: self.revocation_date,
        }
    }
}

impl TransactionAdvancedCommerceInfoPayload {
    /// Converts the bridge's transaction advanced-commerce object.
    pub fn into_transaction_advanced_commerce_info(self) -> (r: TransactionAdvancedCommerceInfo)
        ensures
            is_transaction_info_of(r, self),
    {
        let ghost items = self.items@;
        let period = match self.period {
            Some(p) => Some(p.into_subscription_period()),
            None => None,
        };
        let converted = convert_all(
            self.items,
            TransactionAdvancedCommerceItemPayload::into_transaction_advanced_commerce_item,
        );
        TransactionAdvancedCommerceInfo {
            request_reference_id: self.request_reference_id,
            estimated_tax: self.estimated_tax,
            tax_rate: self.tax_rate,
            tax_code: self.tax_code,
            tax_exclusive_price: self.tax_exclusive_price,
            description: self.description,
            display_name: self.display_name,
            period,
            items: converted,
        }
    }
}

impl RenewalInfoAdvancedCommercePriceIncreaseInfoPayload {
    /// Converts the bridge's renewal price increase object.
    pub fn into_renewal_info_advanced_commerce_price_increase_info(self) -> (r: RenewalInfoAdvancedCommercePriceIncreaseInfo)
        ensures
            r == spec_into_price_increase(self),
    {
        RenewalInfoAdvancedCommercePriceIncreaseInfo {
            status: RenewalInfoAdvancedCommercePriceIncreaseStatus::from_raw(self.status),
            price: self.price,
            dependent_skus: self.dependent_skus,
        }
    }
}

impl RenewalInfoAdvancedCommerceItemPayload {
    /// Converts the bridge's renewal advanced-commerce item object.
    pub fn into_renewal_info_advanced_commerce_item(self) -> (r: RenewalInfoAdvancedCommerceItem)
        ensures
            r == spec_into_renewal_item(self),
    {
        let price_increase_info = match self.price_increase_info {
            Some(x) => Some(x.into_renewal_info_advanced_commerce_price_increase_info()),
            None => None,
        };
        RenewalInfoAdvancedCommerceItem {
            details: self.details.into_transaction_advanced_commerce_item_details(),
            price_increase_info,
        }
    }
}

impl RenewalInfoAdvancedCommerceInfoPayload {
    /// Converts the bridge's renewal advanced-commerce object.
    pub fn into_renewal_info_advanced_commerce_info(self) -> (r: RenewalInfoAdvancedCommerceInfo)
        ensures
            is_renewal_info_of(r, self),
    {
        let ghost items = self.items@;
        let converted = convert_all(
            self.items,
            RenewalInfoAdvancedCommerceItemPayload::into_renewal_info_advanced_commerce_item,
        );
        assert(converted@ =~= items.map_values(
            |x: RenewalInfoAdvancedCommerceItemPayload| spec_into_renewal_item(x),
        ));
        RenewalInfoAdvancedCommerceInfo {
            consistency_token: self.consistency_token,
            request_reference_id: self.request_reference_id,
            tax_code: self.tax_code,
            description: self.description,
            display_name: self.display_name,
            period: self.period.into_subscription_period(),
            items: converted,
        }
    }
}

/// Reads the advanced-commerce metadata of a signed transaction payload. `parsed` is that
/// payload read as JSON, or the parser's error text.
pub fn transaction_advanced_commerce_info_from_signed(
    parsed: Result<TransactionSignedPayload, String>,
) -> (r: Result<Option<TransactionAdvancedCommerceInfo>, StoreKitError>)
    ensures
        match parsed {
            Err(text) => r matches Err(e) && e@ == ErrorView::InvalidArgument(
                "failed to parse signed transaction payload JSON: "@ + text@,
            ),
            Ok(p) => match p.advanced_commerce_info {
                None => r matches Ok(None),
                Some(info) => r matches Ok(Some(x)) && is_transaction_info_of(x, info),
            },
        },
{
    match parsed {
        Err(text) => Err(
            StoreKitError::InvalidArgument(
                concat2("failed to parse signed transaction payload JSON: ", text.as_str()),
            ),
        ),
        Ok(p) => match p.advanced_commerce_info {
            None => Ok(None),
            Some(info) => Ok(Some(info.into_transaction_advanced_commerce_info())),
        },
    }
}

/// Reads the advanced-commerce metadata of a signed renewal payload. `parsed` is that payload
/// read as JSON, or the parser's error text.
pub fn renewal_advanced_commerce_info_from_signed(
    parsed: Result<RenewalSignedPayload, String>,
) -> (r: Result<Option<RenewalInfoAdvancedCommerceInfo>, StoreKitError>)
    ensures
        match parsed {
            Err(text) => r matches Err(e) && e@ == ErrorView::InvalidArgument(
                "failed to parse signed renewal payload JSON: "@ + text@,
            ),
            Ok(p) => match p.advanced_commerce_info {
                None => r matches Ok(None),
                Some(info) => r matches Ok(Some(x)) && is_renewal_info_of(x, info),
            },
        },
{
    match parsed {
        Err(text) => Err(
            StoreKitError::InvalidArgument(
                concat2("failed to parse signed renewal payload JSON: ", text.as_str()),
            ),
        ),
        Ok(p) => match p.advanced_commerce_info {
            None => Ok(None),
            Some(info) => Ok(Some(info.into_renewal_info_advanced_commerce_info())),
        },
    }
}

/// The outcome of App Store merchandising.
#[derive(Debug)]
pub enum AppStoreMerchandisingPresentationResult {
    /// The person dismissed the sheet.
    Dismissed,
    /// The person completed a purchase from the sheet.
    PurchaseCompleted(PurchaseResult),
}

/// The merchandising result object that the bridge sends as JSON.
pub struct AppStoreMerchandisingPresentationResultPayload {
    /// `"dismissed"` or `"purchaseCompleted"`.
    pub kind: String,
    /// The purchase result, for a completed purchase.
    pub purchase_result: Option<PurchaseResultPayload>,
}

/// How `into_result` reads a merchandising result object.
pub open spec fn merchandising_outcome(
    p: AppStoreMerchandisingPresentationResultPayload,
    handle: Option<TransactionHandle>,
    r: Result<AppStoreMerchandisingPresentationResult, StoreKitError>,
) -> bool {
    if p.kind@ == "dismissed"@ {
        r matches Ok(AppStoreMerchandisingPresentationResult::Dismissed)
    } else if p.kind@ == "purchaseCompleted"@ {
        match p.purchase_result {
            None => r matches Err(e) && e@ == ErrorView::Unknown(
                "App Store merchandising reported a purchase completion without a purchase result"@,
            ),
            Some(pr) => match r {
                Ok(AppStoreMerchandisingPresentationResult::PurchaseCompleted(x)) => purchase_outcome(
                    pr,
                    handle,
                    Ok(x),
                ),
                Ok(_) => false,
                Err(e) => purchase_outcome(pr, handle, Err(e)),
            },
        }
    } else {
        r matches Err(e) && e@ == ErrorView::Unknown(
            "unknown App Store merchandising presentation result kind '"@ + p.kind@ + "'"@,
        )
    }
}

impl AppStoreMerchandisingPresentationResultPayload {
    /// Reads the bridge's merchandising result object; `handle` is the live transaction that
    /// came with it.
    pub fn into_result(self, handle: Option<TransactionHandle>) -> (r: Result<
        AppStoreMerchandisingPresentationResult,
        StoreKitError,
    >)
        ensures
            merchandising_outcome(self, handle, r),
    {
        if crate::text::text_eq(self.kind.as_str(), "dismissed") {
            Ok(AppStoreMerchandisingPresentationResult::Dismissed)
        } else if crate::text::text_eq(self.kind.as_str(), "purchaseCompleted") {
            match self.purchase_result {
                None => Err(
                    StoreKitError::Unknown(
                        owned(
                            "App Store merchandising reported a purchase completion without a purchase result",
                        ),
                    ),
                ),
                Some(pr) => match pr.into_purchase_result(handle) {
                    Ok(x) => Ok(AppStoreMerchandisingPresentationResult::PurchaseCompleted(x)),
                    Err(e) => Err(e),
                },
            }
        } else {
            Err(
                StoreKitError::Unknown(
                    concat3(
                        "unknown App Store merchandising presentation result kind '",
                        self.kind.as_str(),
                        "'",
                    ),
                ),
            )
        }
    }
}


/// An advanced-commerce offer keeps its price, period, period count and the raw text of its
/// reason.
pub open spec fn keeps_ac_offer(r: TransactionAdvancedCommerceOffer, p: TransactionAdvancedCommerceOfferPayload) -> bool {
    &&& r.price == p.price
    &&& keeps_subscription_period(r.period, p.period)
    &&& r.period_count == p.period_count
    &&& r.reason@ == p.reason@
}

/// Item details keep their SKU, display name, description and price, each in the field of the
/// same name, and their offer.
pub open spec fn keeps_item_details(
    r: TransactionAdvancedCommerceItemDetails,
    p: TransactionAdvancedCommerceItemDetailsPayload,
) -> bool {
    &&& r.sku == p.sku
    &&& r.display_name == p.display_name
    &&& r.description == p.description
    &&& r.price == p.price
    &&& match (r.offer, p.offer) {
        (Some(o), Some(q)) => keeps_ac_offer(o, q),
        (None, None) => true,
        _ => false,
    }
}

/// A refund keeps the raw text of its reason and type, its date and its amount.
pub open spec fn keeps_refund(r: TransactionAdvancedCommerceRefund, p: TransactionAdvancedCommerceRefundPayload) -> bool {
    r.reason@ == p.reason@ && r.refund_type@ == p.refund_type@ && r.date == p.date && r.amount
        == p.amount
}

/// A price increase keeps the raw text of its status, its price and its dependent SKUs.
pub open spec fn keeps_price_increase(
    r: RenewalInfoAdvancedCommercePriceIncreaseInfo,
    p: RenewalInfoAdvancedCommercePriceIncreaseInfoPayload,
) -> bool {
    r.status@ == p.status@ && r.price == p.price && r.dependent_skus == p.dependent_skus
}

/// An advanced-commerce offer read from its object keeps each of its fields.
pub proof fn ac_offers_carry_every_field(p: TransactionAdvancedCommerceOfferPayload, r: TransactionAdvancedCommerceOffer)
    requires
        r == spec_into_offer(p),
    ensures
        keeps_ac_offer(r, p),
{
    TransactionAdvancedCommerceOfferReason::raw_text_round_trip(p.reason);
    periods_carry_every_field(p.period, r.period);
}

/// Item details read from their object keep each of its fields.
pub proof fn item_details_carry_every_field(
    p: TransactionAdvancedCommerceItemDetailsPayload,
    r: TransactionAdvancedCommerceItemDetails,
)
    requires
        r == spec_into_item_details(p),
    ensures
        keeps_item_details(r, p),
{
    match p.offer {
        Some(o) => { ac_offers_carry_every_field(o, r.offer->0); },
        None => {},
    }
}

/// A refund read from its object keeps each of its fields.
pub proof fn refunds_carry_every_field(p: TransactionAdvancedCommerceRefundPayload, r: TransactionAdvancedCommerceRefund)
    requires
        r == spec_into_refund(p),
    ensures
        keeps_refund(r, p),
{
    TransactionAdvancedCommerceRefundReason::raw_text_round_trip(p.reason);
    TransactionAdvancedCommerceRefundType::raw_text_round_trip(p.refund_type);
}

/// The advanced-commerce metadata of a transaction keeps each field of its object, and one item
/// per item object, in order, each with its details, revocation date and refunds in order.
pub proof fn transaction_ac_info_carries_every_field(
    p: TransactionAdvancedCommerceInfoPayload,
    r: TransactionAdvancedCommerceInfo,
)
    requires
        is_transaction_info_of(r, p),
    ensures
        r.request_reference_id == p.request_reference_id,
        r.estimated_tax == p.estimated_tax,
        r.tax_rate == p.tax_rate,
        r.tax_code == p.tax_code,
        r.tax_exclusive_price == p.tax_exclusive_price,
        r.description == p.description,
        r.display_name == p.display_name,
        match (r.period, p.period) {
            (Some(x), Some(y)) => keeps_subscription_period(x, y),
            (None, None) => true,
            _ => false,
        },
        r.items@.len() == p.items@.len(),
        forall|i: int|
            0 <= i < p.items@.len() ==> {
                &&& keeps_item_details(#[trigger] r.items@[i].details, p.items@[i].details)
                &&& r.items@[i].revocation_date == p.items@[i].revocation_date
                &&& match (r.items@[i].refunds, p.items@[i].refunds) {
                    (Some(rs), Some(ps)) => rs@.len() == ps@.len() && forall|k: int|
                        0 <= k < ps@.len() ==> keeps_refund(#[trigger] rs@[k], ps@[k]),
                    (None, None) => true,
                    _ => false,
                }
            },
{
    match p.period {
        Some(x) => { periods_carry_every_field(x, r.period->0); },
        None => {},
    }
    assert forall|i: int| 0 <= i < p.items@.len() implies {
        &&& keeps_item_details(#[trigger] r.items@[i].details, p.items@[i].details)
        &&& r.items@[i].revocation_date == p.items@[i].revocation_date
        &&& match (r.items@[i].refunds, p.items@[i].refunds) {
            (Some(rs), Some(ps)) => rs@.len() == ps@.len() && forall|k: int|
                0 <= k < ps@.len() ==> keeps_refund(#[trigger] rs@[k], ps@[k]),
            (None, None) => true,
            _ => false,
        }
    } by {
        assert(is_item_of(r.items@[i], p.items@[i]));
        item_details_carry_every_field(p.items@[i].details, r.items@[i].details);
        match (r.items@[i].refunds, p.items@[i].refunds) {
            (Some(rs), Some(ps)) => {
                assert forall|k: int| 0 <= k < ps@.len() implies keeps_refund(#[trigger] rs@[k], ps@[k]) by {
                    refunds_carry_every_field(ps@[k], rs@[k]);
                }
            },
            _ => {},
        }
    }
}

/// The advanced-commerce metadata of a renewal keeps each field of its object, and one item per
/// item object, in order, each with its details and price increase.
pub proof fn renewal_ac_info_carries_every_field(
    p: RenewalInfoAdvancedCommerceInfoPayload,
    r: RenewalInfoAdvancedCommerceInfo,
)
    requires
        is_renewal_info_of(r, p),
    ensures
        r.consistency_token == p.consistency_token,
        r.request_reference_id == p.request_reference_id,
        r.tax_code == p.tax_code,
        r.description == p.description,
        r.display_name == p.display_name,
        keeps_subscription_period(r.period, p.period),
        r.items@.len() == p.items@.len(),
        forall|i: int|
            0 <= i < p.items@.len() ==> {
                &&& keeps_item_details(#[trigger] r.items@[i].details, p.items@[i].details)
                &&& match (r.items@[i].price_increase_info, p.items@[i].price_increase_info) {
                    (Some(x), Some(y)) => keeps_price_increase(x, y),
                    (None, None) => true,
                    _ => false,
                }
            },
{
    periods_carry_every_field(p.period, r.period);
    assert forall|i: int| 0 <= i < p.items@.len() implies {
        &&& keeps_item_details(#[trigger] r.items@[i].details, p.items@[i].details)
        &&& match (r.items@[i].price_increase_info, p.items@[i].price_increase_info) {
            (Some(x), Some(y)) => keeps_price_increase(x, y),
            (None, None) => true,
            _ => false,
        }
    } by {
        assert(r.items@[i] == spec_into_renewal_item(p.items@[i]));
        item_details_carry_every_field(p.items@[i].details, r.items@[i].details);
        match p.items@[i].price_increase_info {
            Some(y) => {
                RenewalInfoAdvancedCommercePriceIncreaseStatus::raw_text_round_trip(y.status);
            },
            None => {},
        }
    }
}

/// An advanced-commerce product read from its object keeps its identifier and the raw text of
/// its type.
pub proof fn ac_products_carry_every_field(p: AdvancedCommerceProductPayload, r: AdvancedCommerceProduct)
    requires
        r == spec_into_ac_product(p),
    ensures
        r.id == p.id,
        r.product_type@ == p.product_type@,
{
    ProductType::raw_text_round_trip(p.product_type);
}

} // verus!
