//! `StoreKit.RenewalInfo` and its enums.

use vstd::prelude::*;

use crate::app_store::AppStoreEnvironment;
use crate::transaction::{
    keeps_offer, keeps_optional_text, spec_into_transaction_offer, TransactionOffer,
    TransactionOfferPayload,
};

verus! {

/// Wraps `StoreKit.RenewalInfo.ExpirationReason`.
#[derive(Debug, Clone, PartialEq, Eq)]
pub enum ExpirationReason {
    /// Auto-renewal was turned off.
    AutoRenewDisabled,
    /// Billing failed.
    BillingError,
    /// The person did not agree to a price increase.
    DidNotConsentToPriceIncrease,
    /// The product was no longer available.
    ProductUnavailable,
    /// An unrecognized raw value, kept as it was received.
    Unknown(String),
}

impl View for ExpirationReason {
    type V = Seq<char>;

    /// The raw `StoreKit` text of the value.
    open spec fn view(&self) -> Seq<char> {
        match self {
            ExpirationReason::AutoRenewDisabled => "autoRenewDisabled"@,
            ExpirationReason::BillingError => "billingError"@,
            ExpirationReason::DidNotConsentToPriceIncrease => "didNotConsentToPriceIncrease"@,
            ExpirationReason::ProductUnavailable => "productUnavailable"@,
            ExpirationReason::Unknown(value) => value@,
        }
    }
}

impl ExpirationReason {
    /// `true` when the raw text names a known case.
    pub open spec fn is_known_text(text: Seq<char>) -> bool {
        text == "autoRenewDisabled"@ || text == "billingError"@ || text == "didNotConsentToPriceIncrease"@ || text == "productUnavailable"@
    }

    /// A value is canonical when `Unknown` only holds text that names no known case.
    pub open spec fn is_canonical(&self) -> bool {
        match self {
            ExpirationReason::Unknown(value) => !Self::is_known_text(value@),
            _ => true,
        }
    }

    /// The value that `from_raw` builds from `raw`.
    pub open spec fn spec_from_raw(raw: String) -> Self {
        if raw@ == "autoRenewDisabled"@ {
            ExpirationReason::AutoRenewDisabled
        } else if raw@ == "billingError"@ {
            ExpirationReason::BillingError
        } else if raw@ == "didNotConsentToPriceIncrease"@ {
            ExpirationReason::DidNotConsentToPriceIncrease
        } else if raw@ == "productUnavailable"@ {
            ExpirationReason::ProductUnavailable
        } else {
            ExpirationReason::Unknown(raw)
        }
    }

    /// Returns the raw `StoreKit` text for this value.
    pub fn as_str(&self) -> (s: &str)
        ensures
            s@ == self@,
    {
        match self {
            ExpirationReason::AutoRenewDisabled => "autoRenewDisabled",
            ExpirationReason::BillingError => "billingError",
            ExpirationReason::DidNotConsentToPriceIncrease => "didNotConsentToPriceIncrease",
            ExpirationReason::ProductUnavailable => "productUnavailable",
            ExpirationReason::Unknown(value) => value.as_str(),
        }
    }

    /// Builds a value from the raw `StoreKit` text, keeping unrecognized text in `Unknown`.
    pub fn from_raw(raw: String) -> (r: Self)
        ensures
            r == Self::spec_from_raw(raw),
            r@ == raw@,
            r.is_canonical(),
    {
        if crate::text::text_eq(raw.as_str(), "autoRenewDisabled") {
            ExpirationReason::AutoRenewDisabled
        } else if crate::text::text_eq(raw.as_str(), "billingError") {
            ExpirationReason::BillingError
        } else if crate::text::text_eq(raw.as_str(), "didNotConsentToPriceIncrease") {
            ExpirationReason::DidNotConsentToPriceIncrease
        } else if crate::text::text_eq(raw.as_str(), "productUnavailable") {
            ExpirationReason::ProductUnavailable
        } else {
            ExpirationReason::Unknown(raw)
        }
    }

    /// Reading a value back as text gives the text it was built from, and the value is canonical.
    pub proof fn raw_text_round_trip(raw: String)
        ensures
            Self::spec_from_raw(raw)@ == raw@,
            Self::spec_from_raw(raw).is_canonical(),
    {
    }

    /// Two canonical values with the same raw text are the same case; for a known case they are equal.
    pub proof fn canonical_text_determines_value(a: Self, b: Self)
        requires
            a.is_canonical(),
            b.is_canonical(),
            a@ == b@,
        ensures
            (a is Unknown) == (b is Unknown),
            !(a is Unknown) ==> a == b,
    {
        reveal_strlit("autoRenewDisabled");
        reveal_strlit("billingError");
        reveal_strlit("didNotConsentToPriceIncrease");
        reveal_strlit("productUnavailable");
        assert("autoRenewDisabled"@.len() != "billingError"@.len());
        assert("autoRenewDisabled"@.len() != "didNotConsentToPriceIncrease"@.len());
        assert("autoRenewDisabled"@.len() != "productUnavailable"@.len());
        assert("billingError"@.len() != "didNotConsentToPriceIncrease"@.len());
        assert("billingError"@.len() != "productUnavailable"@.len());
        assert("didNotConsentToPriceIncrease"@.len() != "productUnavailable"@.len());
    }
}

/// Wraps `StoreKit.RenewalInfo.PriceIncreaseStatus`.
#[derive(Debug, Clone, PartialEq, Eq)]
pub enum PriceIncreaseStatus {
    /// No price increase is pending.
    NoIncreasePending,
    /// The person has not answered a price increase yet.
    Pending,
    /// The person agreed to a price increase.
    Agreed,
    /// An unrecognized raw value, kept as it was received.
    Unknown(String),
}

impl View for PriceIncreaseStatus {
    type V = Seq<char>;

    /// The raw `StoreKit` text of the value.
    open spec fn view(&self) -> Seq<char> {
        match self {
            PriceIncreaseStatus::NoIncreasePending => "noIncreasePending"@,
            PriceIncreaseStatus::Pending => "pending"@,
            PriceIncreaseStatus::Agreed => "agreed"@,
            PriceIncreaseStatus::Unknown(value) => value@,
        }
    }
}

impl PriceIncreaseStatus {
    /// `true` when the raw text names a known case.
    pub open spec fn is_known_text(text: Seq<char>) -> bool {
        text == "noIncreasePending"@ || text == "pending"@ || text == "agreed"@
    }

    /// A value is canonical when `Unknown` only holds text that names no known case.
    pub open spec fn is_canonical(&self) -> bool {
        match self {
            PriceIncreaseStatus::Unknown(value) => !Self::is_known_text(value@),
            _ => true,
        }
    }

    /// The value that `from_raw` builds from `raw`.
    pub open spec fn spec_from_raw(raw: String) -> Self {
        if raw@ == "noIncreasePending"@ {
            PriceIncreaseStatus::NoIncreasePending
        } else if raw@ == "pending"@ {
            PriceIncreaseStatus::Pending
        } else if raw@ == "agreed"@ {
            PriceIncreaseStatus::Agreed
        } else {
            PriceIncreaseStatus::Unknown(raw)
        }
    }

    /// Returns the raw `StoreKit` text for this value.
    pub fn as_str(&self) -> (s: &str)
        ensures
            s@ == self@,
    {
        match self {
            PriceIncreaseStatus::NoIncreasePending => "noIncreasePending",
            PriceIncreaseStatus::Pending => "pending",
            PriceIncreaseStatus::Agreed => "agreed",
            PriceIncreaseStatus::Unknown(value) => value.as_str(),
        }
    }

    /// Builds a value from the raw `StoreKit` text, keeping unrecognized text in `Unknown`.
    pub fn from_raw(raw: String) -> (r: Self)
        ensures
            r == Self::spec_from_raw(raw),
            r@ == raw@,
            r.is_canonical(),
    {
        if crate::text::text_eq(raw.as_str(), "noIncreasePending") {
            PriceIncreaseStatus::NoIncreasePending
        } else if crate::text::text_eq(raw.as_str(), "pending") {
            PriceIncreaseStatus::Pending
        } else if crate::text::text_eq(raw.as_str(), "agreed") {
            PriceIncreaseStatus::Agreed
        } else {
            PriceIncreaseStatus::Unknown(raw)
        }
    }

    /// Reading a value back as text gives the text it was built from, and the value is canonical.
    pub proof fn raw_text_round_trip(raw: String)
        ensures
            Self::spec_from_raw(raw)@ == raw@,
            Self::spec_from_raw(raw).is_canonical(),
    {
    }

    /// Two canonical values with the same raw text are the same case; for a known case they are equal.
    pub proof fn canonical_text_determines_value(a: Self, b: Self)
        requires
            a.is_canonical(),
            b.is_canonical(),
            a@ == b@,
        ensures
            (a is Unknown) == (b is Unknown),
            !(a is Unknown) ==> a == b,
    {
        reveal_strlit("noIncreasePending");
        reveal_strlit("pending");
        reveal_strlit("agreed");
        assert("noIncreasePending"@.len() != "pending"@.len());
        assert("noIncreasePending"@.len() != "agreed"@.len());
        assert("pending"@.len() != "agreed"@.len());
    }
}

/// Wraps `StoreKit.RenewalInfo`.
#[derive(Debug, Clone, PartialEq, Eq)]
pub struct RenewalInfo {
    pub original_transaction_id: u64,
    pub current_product_id: String,
    pub will_auto_renew: bool,
    pub auto_renew_preference: Option<String>,
    pub expiration_reason: Option<ExpirationReason>,
    pub price_increase_status: PriceIncreaseStatus,
    pub is_in_billing_retry: bool,
    pub grace_period_expiration_date: Option<String>,
    pub offer: Option<TransactionOffer>,
    pub environment: Option<AppStoreEnvironment>,
    pub recent_subscription_start_date: String,
    pub renewal_date: Option<String>,
    pub renewal_price: Option<String>,
    pub currency_code: Option<String>,
    pub eligible_win_back_offer_ids: Vec<String>,
    pub app_account_token: Option<String>,
    pub app_transaction_id: Option<String>,
}

/// The renewal info object that the bridge sends as JSON.
pub struct RenewalInfoPayload {
    pub original_transaction_id: u64,
    pub current_product_id: String,
    pub will_auto_renew: bool,
    pub auto_renew_preference: Option<String>,
    pub expiration_reason: Option<String>,
    pub price_increase_status: String,
    pub is_in_billing_retry: bool,
    pub grace_period_expiration_date: Option<String>,
    pub offer: Option<TransactionOfferPayload>,
    pub environment: Option<String>,
    pub recent_subscription_start_date: String,
    pub renewal_date: Option<String>,
    pub renewal_price: Option<String>,
    pub currency_code: Option<String>,
    pub eligible_win_back_offer_ids: Vec<String>,
    pub app_account_token: Option<String>,
    pub app_transaction_id: Option<String>,
}

/// The renewal info that `into_renewal_info` builds.
pub open spec fn spec_into_renewal_info(p: RenewalInfoPayload) -> RenewalInfo {
    RenewalInfo {
        original_transaction_id: p.original_transaction_id,
        current_product_id: p.current_product_id,
        will_auto_renew: p.will_auto_renew,
        auto_renew_preference: p.auto_renew_preference,
        expiration_reason: match p.expiration_reason {
            Some(x) => Some(ExpirationReason::spec_from_raw(x)),
            None => None,
        },
        price_increase_status: PriceIncreaseStatus::spec_from_raw(p.price_increase_status),
        is_in_billing_retry: p.is_in_billing_retry,
        grace_period_expiration_date: p.grace_period_expiration_date,
        offer: match p.offer {
            Some(x) => Some(spec_into_transaction_offer(x)),
            None => None,
        },
        environment: match p.environment {
            Some(x) => Some(AppStoreEnvironment::spec_from_raw(x)),
            None => None,
        },
        recent_subscription_start_date: p.recent_subscription_start_date,
        renewal_date: p.renewal_date,
        renewal_price: p.renewal_price,
        currency_code: p.currency_code,
        eligible_win_back_offer_ids: p.eligible_win_back_offer_ids,
        app_account_token: p.app_account_token,
        app_transaction_id: p.app_transaction_id,
    }
}

impl RenewalInfoPayload {
    /// Converts the bridge's renewal info object.
    pub fn into_renewal_info(self) -> (r: RenewalInfo)
        ensures
            r == spec_into_renewal_info(self),
    {
        let expiration_reason = match self.expiration_reason {
            Some(x) => Some(ExpirationReason::from_raw(x)),
            None => None,
        };
        let offer = match self.offer {
            Some(x) => Some(x.into_transaction_offer()),
            None => None,
        };
        let environment = match self.environment {
            Some(x) => Some(AppStoreEnvironment::from_raw(x)),
            None => None,
        };
        RenewalInfo {
            original_transaction_id: self.original_transaction_id,
            current_product_id: self.current_product_id,
            will_auto_renew: self.will_auto_renew,
            auto_renew_preference: self.auto_renew_preference,
            expiration_reason,
            price_increase_status: PriceIncreaseStatus::from_raw(self.price_increase_status),
            is_in_billing_retry: self.is_in_billing_retry,
            grace_period_expiration_date: self.grace_period_expiration_date,
            offer,
            environment,
            recent_subscription_start_date: self.recent_subscription_start_date,
            renewal_date: self.renewal_date,
            renewal_price: self.renewal_price,
            currency_code: self.currency_code,
            eligible_win_back_offer_ids: self.eligible_win_back_offer_ids,
            app_account_token: self.app_account_token,
            app_transaction_id: self.app_transaction_id,
        }
    }

    /// Converts the bridge's renewal info object; it cannot fail.
    pub fn into_renewal_info_result(self) -> (r: Result<RenewalInfo, crate::error::StoreKitError>)
        ensures
            r == Ok::<RenewalInfo, crate::error::StoreKitError>(spec_into_renewal_info(self)),
    {
        Ok(self.into_renewal_info())
    }
}


/// The renewal info read from a renewal info object carries each of its fields over unchanged:
/// the same identifiers, flags, dates, prices and tokens, each enumeration with the raw text it
/// was read from, and the offer field by field.
pub proof fn renewal_info_carries_every_field(p: RenewalInfoPayload, r: RenewalInfo)
    requires
        r == spec_into_renewal_info(p),
    ensures
        r.original_transaction_id == p.original_transaction_id,
        r.current_product_id == p.current_product_id,
        r.will_auto_renew == p.will_auto_renew,
        r.auto_renew_preference == p.auto_renew_preference,
        keeps_optional_text(r.expiration_reason, p.expiration_reason),
        r.price_increase_status@ == p.price_increase_status@,
        r.is_in_billing_retry == p.is_in_billing_retry,
        r.grace_period_expiration_date == p.grace_period_expiration_date,
        match (r.offer, p.offer) {
            (Some(o), Some(q)) => keeps_offer(o, q),
            (None, None) => true,
            _ => false,
        },
        keeps_optional_text(r.environment, p.environment),
        r.recent_subscription_start_date == p.recent_subscription_start_date,
        r.renewal_date == p.renewal_date,
        r.renewal_price == p.renewal_price,
        r.currency_code == p.currency_code,
        r.eligible_win_back_offer_ids == p.eligible_win_back_offer_ids,
        r.app_account_token == p.app_account_token,
        r.app_transaction_id == p.app_transaction_id,
{
    PriceIncreaseStatus::raw_text_round_trip(p.price_increase_status);
    match p.expiration_reason {
        Some(x) => { ExpirationReason::raw_text_round_trip(x); },
        None => {},
    }
    match p.environment {
        Some(x) => { AppStoreEnvironment::raw_text_round_trip(x); },
        None => {},
    }
    match p.offer {
        Some(o) => {
            crate::transaction::OfferType::raw_text_round_trip(o.offer_type);
            match o.payment_mode {
                Some(m) => { crate::transaction::OfferPaymentMode::raw_text_round_trip(m); },
                None => {},
            }
            match o.period {
                Some(x) => { crate::subscription::SubscriptionPeriodUnit::raw_text_round_trip(x.unit); },
                None => {},
            }
        },
        None => {},
    }
}

} // verus!
