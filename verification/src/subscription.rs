//! `StoreKit.Product.SubscriptionPeriod` and `StoreKit.Product.SubscriptionOffer`.

use vstd::prelude::*;

use crate::private::convert_all;

verus! {

/// Wraps `StoreKit.Product.SubscriptionPeriod.Unit`.
#[derive(Debug, Clone, PartialEq, Eq)]
pub enum SubscriptionPeriodUnit {
    /// A day.
    Day,
    /// A week.
    Week,
    /// A month.
    Month,
    /// A year.
    Year,
    /// An unrecognized raw value, kept as it was received.
    Unknown(String),
}

impl View for SubscriptionPeriodUnit {
    type V = Seq<char>;

    /// The raw `StoreKit` text of the value.
    open spec fn view(&self) -> Seq<char> {
        match self {
            SubscriptionPeriodUnit::Day => "day"@,
            SubscriptionPeriodUnit::Week => "week"@,
            SubscriptionPeriodUnit::Month => "month"@,
            SubscriptionPeriodUnit::Year => "year"@,
            SubscriptionPeriodUnit::Unknown(value) => value@,
        }
    }
}

impl SubscriptionPeriodUnit {
    /// `true` when the raw text names a known case.
    pub open spec fn is_known_text(text: Seq<char>) -> bool {
        text == "day"@ || text == "week"@ || text == "month"@ || text == "year"@
    }

    /// A value is canonical when `Unknown` only holds text that names no known case.
    pub open spec fn is_canonical(&self) -> bool {
        match self {
            SubscriptionPeriodUnit::Unknown(value) => !Self::is_known_text(value@),
            _ => true,
        }
    }

    /// The value that `from_raw` builds from `raw`.
    pub open spec fn spec_from_raw(raw: String) -> Self {
        if raw@ == "day"@ {
            SubscriptionPeriodUnit::Day
        } else if raw@ == "week"@ {
            SubscriptionPeriodUnit::Week
        } else if raw@ == "month"@ {
            SubscriptionPeriodUnit::Month
        } else if raw@ == "year"@ {
            SubscriptionPeriodUnit::Year
        } else {
            SubscriptionPeriodUnit::Unknown(raw)
        }
    }

    /// Returns the raw `StoreKit` text for this value.
    pub fn as_str(&self) -> (s: &str)
        ensures
            s@ == self@,
    {
        match self {
            SubscriptionPeriodUnit::Day => "day",
            SubscriptionPeriodUnit::Week => "week",
            SubscriptionPeriodUnit::Month => "month",
            SubscriptionPeriodUnit::Year => "year",
            SubscriptionPeriodUnit::Unknown(value) => value.as_str(),
        }
    }

    /// Builds a value from the raw `StoreKit` text, keeping unrecognized text in `Unknown`.
    pub fn from_raw(raw: String) -> (r: Self)
        ensures
            r == Self::spec_from_raw(raw),
            r@ == raw@,
            r.is_canonical(),
    {
        if crate::text::text_eq(raw.as_str(), "day") {
            SubscriptionPeriodUnit::Day
        } else if crate::text::text_eq(raw.as_str(), "week") {
            SubscriptionPeriodUnit::Week
        } else if crate::text::text_eq(raw.as_str(), "month") {
            SubscriptionPeriodUnit::Month
        } else if crate::text::text_eq(raw.as_str(), "year") {
            SubscriptionPeriodUnit::Year
        } else {
            SubscriptionPeriodUnit::Unknown(raw)
        }
    }

    /// Reading a value back as text gives the text it was built from, and the value is canonical.
    pub proof fn raw_text_round_trip(raw: String)
        ensures
            Self::spec_from_raw(raw)@ == raw@,
            Self::spec_from_raw(raw).is_canonical(),
    {
    }

    /// Two canonical values with the same raw text are the same case; for a known case they are equal.
    pub proof fn canonical_text_determines_value(a: Self, b: Self)
        requires
            a.is_canonical(),
            b.is_canonical(),
            a@ == b@,
        ensures
            (a is Unknown) == (b is Unknown),
            !(a is Unknown) ==> a == b,
    {
        reveal_strlit("day");
        reveal_strlit("week");
        reveal_strlit("month");
        reveal_strlit("year");
        assert("day"@.len() != "week"@.len());
        assert("day"@.len() != "month"@.len());
        assert("day"@.len() != "year"@.len());
        assert("week"@.len() != "month"@.len());
        assert("week"@[0] != "year"@[0]);
        assert("month"@.len() != "year"@.len());
    }
}

/// Wraps `StoreKit.Product.SubscriptionPeriod`.
#[derive(Debug, Clone, PartialEq, Eq)]
pub struct SubscriptionPeriod {
    /// Unit of the period.
    pub unit: SubscriptionPeriodUnit,
    /// Number of units.
    pub value: i64,
}

/// Wraps `StoreKit.Product.SubscriptionOffer.OfferType`.
#[derive(Debug, Clone, PartialEq, Eq)]
pub enum SubscriptionOfferType {
    /// An introductory offer.
    Introductory,
    /// A promotional offer.
    Promotional,
    /// A win-back offer.
    WinBack,
    /// An unrecognized raw value, kept as it was received.
    Unknown(String),
}

impl View for SubscriptionOfferType {
    type V = Seq<char>;

    /// The raw `StoreKit` text of the value.
    open spec fn view(&self) -> Seq<char> {
        match self {
            SubscriptionOfferType::Introductory => "introductory"@,
            SubscriptionOfferType::Promotional => "promotional"@,
            SubscriptionOfferType::WinBack => "winBack"@,
            SubscriptionOfferType::Unknown(value) => value@,
        }
    }
}

impl SubscriptionOfferType {
    /// `true` when the raw text names a known case.
    pub open spec fn is_known_text(text: Seq<char>) -> bool {
        text == "introductory"@ || text == "promotional"@ || text == "winBack"@
    }

    /// A value is canonical when `Unknown` only holds text that names no known case.
    pub open spec fn is_canonical(&self) -> bool {
        match self {
            SubscriptionOfferType::Unknown(value) => !Self::is_known_text(value@),
            _ => true,
        }
    }

    /// The value that `from_raw` builds from `raw`.
    pub open spec fn spec_from_raw(raw: String) -> Self {
        if raw@ == "introductory"@ {
            SubscriptionOfferType::Introductory
        } else if raw@ == "promotional"@ {
            SubscriptionOfferType::Promotional
        } else if raw@ == "winBack"@ {
            SubscriptionOfferType::WinBack
        } else {
            SubscriptionOfferType::Unknown(raw)
        }
    }

    /// Returns the raw `StoreKit` text for this value.
    pub fn as_str(&self) -> (s: &str)
        ensures
            s@ == self@,
    {
        match self {
            SubscriptionOfferType::Introductory => "introductory",
            SubscriptionOfferType::Promotional => "promotional",
            SubscriptionOfferType::WinBack => "winBack",
            SubscriptionOfferType::Unknown(value) => value.as_str(),
        }
    }

    /// Builds a value from the raw `StoreKit` text, keeping unrecognized text in `Unknown`.
    pub fn from_raw(raw: String) -> (r: Self)
        ensures
            r == Self::spec_from_raw(raw),
            r@ == raw@,
            r.is_canonical(),
    {
        if crate::text::text_eq(raw.as_str(), "introductory") {
            SubscriptionOfferType::Introductory
        } else if crate::text::text_eq(raw.as_str(), "promotional") {
            SubscriptionOfferType::Promotional
        } else if crate::text::text_eq(raw.as_str(), "winBack") {
            SubscriptionOfferType::WinBack
        } else {
            SubscriptionOfferType::Unknown(raw)
        }
    }

    /// Reading a value back as text gives the text it was built from, and the value is canonical.
    pub proof fn raw_text_round_trip(raw: String)
        ensures
            Self::spec_from_raw(raw)@ == raw@,
            Self::spec_from_raw(raw).is_canonical(),
    {
    }

    /// Two canonical values with the same raw text are the same case; for a known case they are equal.
    pub proof fn canonical_text_determines_value(a: Self, b: Self)
        requires
            a.is_canonical(),
            b.is_canonical(),
            a@ == b@,
        ensures
            (a is Unknown) == (b is Unknown),
            !(a is Unknown) ==> a == b,
    {
        reveal_strlit("introductory");
        reveal_strlit("promotional");
        reveal_strlit("winBack");
        assert("introductory"@.len() != "promotional"@.len());
        assert("introductory"@.len() != "winBack"@.len());
        assert("promotional"@.len() != "winBack"@.len());
    }
}

/// Wraps `StoreKit.Product.SubscriptionOffer.PaymentMode`.
#[derive(Debug, Clone, PartialEq, Eq)]
pub enum SubscriptionPaymentMode {
    /// Pay each period.
    PayAsYouGo,
    /// Pay once up front.
    PayUpFront,
    /// A free trial.
    FreeTrial,
    /// An unrecognized raw value, kept as it was received.
    Unknown(String),
}

impl View for SubscriptionPaymentMode {
    type V = Seq<char>;

    /// The raw `StoreKit` text of the value.
    open spec fn view(&self) -> Seq<char> {
        match self {
            SubscriptionPaymentMode::PayAsYouGo => "payAsYouGo"@,
            SubscriptionPaymentMode::PayUpFront => "payUpFront"@,
            SubscriptionPaymentMode::FreeTrial => "freeTrial"@,
            SubscriptionPaymentMode::Unknown(value) => value@,
        }
    }
}

impl SubscriptionPaymentMode {
    /// `true` when the raw text names a known case.
    pub open spec fn is_known_text(text: Seq<char>) -> bool {
        text == "payAsYouGo"@ || text == "payUpFront"@ || text == "freeTrial"@
    }

    /// A value is canonical when `Unknown` only holds text that names no known case.
    pub open spec fn is_canonical(&self) -> bool {
        match self {
            SubscriptionPaymentMode::Unknown(value) => !Self::is_known_text(value@),
            _ => true,
        }
    }

    /// The value that `from_raw` builds from `raw`.
    pub open spec fn spec_from_raw(raw: String) -> Self {
        if raw@ == "payAsYouGo"@ {
            SubscriptionPaymentMode::PayAsYouGo
        } else if raw@ == "payUpFront"@ {
            SubscriptionPaymentMode::PayUpFront
        } else if raw@ == "freeTrial"@ {
            SubscriptionPaymentMode::FreeTrial
        } else {
            SubscriptionPaymentMode::Unknown(raw)
        }
    }

    /// Returns the raw `StoreKit` text for this value.
    pub fn as_str(&self) -> (s: &str)
        ensures
            s@ == self@,
    {
        match self {
            SubscriptionPaymentMode::PayAsYouGo => "payAsYouGo",
            SubscriptionPaymentMode::PayUpFront => "payUpFront",
            SubscriptionPaymentMode::FreeTrial => "freeTrial",
            SubscriptionPaymentMode::Unknown(value) => value.as_str(),
        }
    }

    /// Builds a value from the raw `StoreKit` text, keeping unrecognized text in `Unknown`.
    pub fn from_raw(raw: String) -> (r: Self)
        ensures
            r == Self::spec_from_raw(raw),
            r@ == raw@,
            r.is_canonical(),
    {
        if crate::text::text_eq(raw.as_str(), "payAsYouGo") {
            SubscriptionPaymentMode::PayAsYouGo
        } else if crate::text::text_eq(raw.as_str(), "payUpFront") {
            SubscriptionPaymentMode::PayUpFront
        } else if crate::text::text_eq(raw.as_str(), "freeTrial") {
            SubscriptionPaymentMode::FreeTrial
        } else {
            SubscriptionPaymentMode::Unknown(raw)
        }
    }

    /// Reading a value back as text gives the text it was built from, and the value is canonical.
    pub proof fn raw_text_round_trip(raw: String)
        ensures
            Self::spec_from_raw(raw)@ == raw@,
            Self::spec_from_raw(raw).is_canonical(),
    {
    }

    /// Two canonical values with the same raw text are the same case; for a known case they are equal.
    pub proof fn canonical_text_determines_value(a: Self, b: Self)
        requires
            a.is_canonical(),
            b.is_canonical(),
            a@ == b@,
        ensures
            (a is Unknown) == (b is Unknown),
            !(a is Unknown) ==> a == b,
    {
        reveal_strlit("payAsYouGo");
        reveal_strlit("payUpFront");
        reveal_strlit("freeTrial");
        assert("payAsYouGo"@[3] != "payUpFront"@[3]);
        assert("payAsYouGo"@.len() != "freeTrial"@.len());
        assert("payUpFront"@.len() != "freeTrial"@.len());
    }
}

/// Wraps `StoreKit.Product.SubscriptionOffer`.
#[derive(Debug, Clone, PartialEq, Eq)]
pub struct SubscriptionOffer {
    /// Offer identifier.
    pub id: Option<String>,
    /// Offer type.
    pub offer_type: SubscriptionOfferType,
    /// Price.
    pub price: String,
    /// Localized display price.
    pub display_price: String,
    /// Period of the offer.
    pub period: SubscriptionPeriod,
    /// Number of periods.
    pub period_count: i64,
    /// Payment mode.
    pub payment_mode: SubscriptionPaymentMode,
}

/// The subscription period object that the bridge sends as JSON.
pub struct SubscriptionPeriodPayload {
    pub unit: String,
    pub value: i64,
}

/// The period that `into_subscription_period` builds.
pub open spec fn spec_into_subscription_period(p: SubscriptionPeriodPayload) -> SubscriptionPeriod {
    SubscriptionPeriod { unit: SubscriptionPeriodUnit::spec_from_raw(p.unit), value: p.value }
}

impl SubscriptionPeriodPayload {
    /// Converts the bridge's subscription period object.
    pub fn into_subscription_period(self) -> (r: SubscriptionPeriod)
        ensures
            r == spec_into_subscription_period(self),
    {
        SubscriptionPeriod { unit: SubscriptionPeriodUnit::from_raw(self.unit), value: self.value }
    }
}

/// The subscription offer object that the bridge sends as JSON.
pub struct SubscriptionOfferPayload {
    pub id: Option<String>,
    pub offer_type: String,
    pub price: String,
    pub display_price: String,
    pub period: SubscriptionPeriodPayload,
    pub period_count: i64,
    pub payment_mode: String,
}

/// The offer that `into_subscription_offer` builds.
pub open spec fn spec_into_subscription_offer(p: SubscriptionOfferPayload) -> SubscriptionOffer {
    SubscriptionOffer {
        id: p.id,
        offer_type: SubscriptionOfferType::spec_from_raw(p.offer_type),
        price: p.price,
        display_price: p.display_price,
        period: spec_into_subscription_period(p.period),
        period_count: p.period_count,
        payment_mode: SubscriptionPaymentMode::spec_from_raw(p.payment_mode),
    }
}

impl SubscriptionOfferPayload {
    /// Converts the bridge's subscription offer object.
    pub fn into_subscription_offer(self) -> (r: SubscriptionOffer)
        ensures
            r == spec_into_subscription_offer(self),
    {
        SubscriptionOffer {
            id: self.id,
            offer_type: SubscriptionOfferType::from_raw(self.offer_type),
            price: self.price,
            display_price: self.display_price,
            period: self.period.into_subscription_period(),
            period_count: self.period_count,
            payment_mode: SubscriptionPaymentMode::from_raw(self.payment_mode),
        }
    }
}

/// Converts a list of the bridge's subscription offer objects, keeping their order.
pub fn into_subscription_offers(payloads: Vec<SubscriptionOfferPayload>) -> (r: Vec<SubscriptionOffer>)
    ensures
        r@ == payloads@.map_values(|p: SubscriptionOfferPayload| spec_into_subscription_offer(p)),
{
    let r = convert_all(payloads, SubscriptionOfferPayload::into_subscription_offer);
    assert(r@ =~= payloads@.map_values(|p: SubscriptionOfferPayload| spec_into_subscription_offer(p)));
    r
}


/// A period keeps the raw text of its unit and its count.
pub open spec fn keeps_subscription_period(r: SubscriptionPeriod, p: SubscriptionPeriodPayload) -> bool {
    r.unit@ == p.unit@ && r.value == p.value
}

/// An offer keeps each field of its offer object: identifier, price and display price each in
/// the field of the same name, the raw text of its type and payment mode, its period and its
/// period count.
pub open spec fn keeps_subscription_offer(r: SubscriptionOffer, p: SubscriptionOfferPayload) -> bool {
    &&& r.id == p.id
    &&& r.offer_type@ == p.offer_type@
    &&& r.price == p.price
    &&& r.display_price == p.display_price
    &&& keeps_subscription_period(r.period, p.period)
    &&& r.period_count == p.period_count
    &&& r.payment_mode@ == p.payment_mode@
}

/// A period read from a period object keeps its unit's raw text and its count.
pub proof fn periods_carry_every_field(p: SubscriptionPeriodPayload, r: SubscriptionPeriod)
    requires
        r == spec_into_subscription_period(p),
    ensures
        keeps_subscription_period(r, p),
{
    SubscriptionPeriodUnit::raw_text_round_trip(p.unit);
}

/// An offer read from an offer object keeps each of its fields.
pub proof fn offers_carry_every_field(p: SubscriptionOfferPayload, r: SubscriptionOffer)
    requires
        r == spec_into_subscription_offer(p),
    ensures
        keeps_subscription_offer(r, p),
{
    SubscriptionOfferType::raw_text_round_trip(p.offer_type);
    SubscriptionPaymentMode::raw_text_round_trip(p.payment_mode);
    periods_carry_every_field(p.period, r.period);
}

/// A list of offers read from a list of offer objects has one offer for each object, in the
/// same order, each keeping the fields of its object.
pub proof fn offer_lists_keep_every_offer(ps: Seq<SubscriptionOfferPayload>, rs: Seq<SubscriptionOffer>)
    requires
        rs == ps.map_values(|p: SubscriptionOfferPayload| spec_into_subscription_offer(p)),
    ensures
        rs.len() == ps.len(),
        forall|i: int| 0 <= i < ps.len() ==> keeps_subscription_offer(#[trigger] rs[i], ps[i]),
{
    assert forall|i: int| 0 <= i < ps.len() implies keeps_subscription_offer(#[trigger] rs[i], ps[i]) by {
        offers_carry_every_field(ps[i], rs[i]);
    }
}

} // verus!
