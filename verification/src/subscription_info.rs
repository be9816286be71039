//! `StoreKit.Product.SubscriptionInfo` and `StoreKit.Product.SubscriptionInfo.Status`.

use vstd::prelude::*;

use crate::error::StoreKitError;
use crate::private::convert_all;
use crate::renewal_info::{spec_into_renewal_info, RenewalInfo, RenewalInfoPayload};
use crate::renewal_state::RenewalState;
use crate::subscription::{
    into_subscription_offers, keeps_subscription_offer, keeps_subscription_period,
    offer_lists_keep_every_offer, offers_carry_every_field, periods_carry_every_field,
    spec_into_subscription_offer, spec_into_subscription_period, SubscriptionOffer, SubscriptionOfferPayload, SubscriptionPeriod, SubscriptionPeriodPayload,
};
use crate::purchase_option::live_transaction_result_of;
use crate::transaction::{Transaction, TransactionPayload};
use crate::verification_result::{finish_outcome, VerificationResult, VerificationResultPayload};

verus! {

/// Wraps `StoreKit.Product.SubscriptionInfo.BillingPlanType`.
#[derive(Debug, Clone, PartialEq, Eq)]
pub enum BillingPlanType {
    /// Billed monthly.
    Monthly,
    /// Billed up front.
    UpFront,
    /// An unrecognized raw value, kept as it was received.
    Unknown(String),
}

impl View for BillingPlanType {
    type V = Seq<char>;

    /// The raw `StoreKit` text of the value.
    open spec fn view(&self) -> Seq<char> {
        match self {
            BillingPlanType::Monthly => "monthly"@,
            BillingPlanType::UpFront => "upFront"@,
            BillingPlanType::Unknown(value) => value@,
        }
    }
}

impl BillingPlanType {
    /// `true` when the raw text names a known case.
    pub open spec fn is_known_text(text: Seq<char>) -> bool {
        text == "monthly"@ || text == "upFront"@
    }

    /// A value is canonical when `Unknown` only holds text that names no known case.
    pub open spec fn is_canonical(&self) -> bool {
        match self {
            BillingPlanType::Unknown(value) => !Self::is_known_text(value@),
            _ => true,
        }
    }

    /// The value that `from_raw` builds from `raw`.
    pub open spec fn spec_from_raw(raw: String) -> Self {
        if raw@ == "monthly"@ {
            BillingPlanType::Monthly
        } else if raw@ == "upFront"@ {
            BillingPlanType::UpFront
        } else {
            BillingPlanType::Unknown(raw)
        }
    }

    /// Returns the raw `StoreKit` text for this value.
    pub fn as_str(&self) -> (s: &str)
        ensures
            s@ == self@,
    {
        match self {
            BillingPlanType::Monthly => "monthly",
            BillingPlanType::UpFront => "upFront",
            BillingPlanType::Unknown(value) => value.as_str(),
        }
    }

    /// Builds a value from the raw `StoreKit` text, keeping unrecognized text in `Unknown`.
    pub fn from_raw(raw: String) -> (r: Self)
        ensures
            r == Self::spec_from_raw(raw),
            r@ == raw@,
            r.is_canonical(),
    {
        if crate::text::text_eq(raw.as_str(), "monthly") {
            BillingPlanType::Monthly
        } else if crate::text::text_eq(raw.as_str(), "upFront") {
            BillingPlanType::UpFront
        } else {
            BillingPlanType::Unknown(raw)
        }
    }

    /// Reading a value back as text gives the text it was built from, and the value is canonical.
    pub proof fn raw_text_round_trip(raw: String)
        ensures
            Self::spec_from_raw(raw)@ == raw@,
            Self::spec_from_raw(raw).is_canonical(),
    {
    }

    /// Two canonical values with the same raw text are the same case; for a known case they are equal.
    pub proof fn canonical_text_determines_value(a: Self, b: Self)
        requires
            a.is_canonical(),
            b.is_canonical(),
            a@ == b@,
        ensures
            (a is Unknown) == (b is Unknown),
            !(a is Unknown) ==> a == b,
    {
        reveal_strlit("monthly");
        reveal_strlit("upFront");
        assert("monthly"@[0] != "upFront"@[0]);
    }
}

/// Wraps `StoreKit.Product.SubscriptionInfo.CommitmentInfo`.
#[derive(Debug, Clone, PartialEq, Eq)]
pub struct SubscriptionCommitmentInfo {
    /// Price.
    pub price: String,
    /// Localized display price.
    pub display_price: String,
    /// Billing period.
    pub period: SubscriptionPeriod,
}

/// Wraps `StoreKit.Product.SubscriptionInfo.PricingTerms`.
#[derive(Debug, Clone, PartialEq, Eq)]
pub struct SubscriptionPricingTerms {
    pub billing_price: String,
    pub billing_display_price: String,
    pub billing_period: SubscriptionPeriod,
    pub billing_plan_type: BillingPlanType,
    pub commitment_info: SubscriptionCommitmentInfo,
    pub subscription_offers: Vec<SubscriptionOffer>,
}

/// Wraps `StoreKit.Product.SubscriptionInfo`.
#[derive(Debug, Clone, PartialEq, Eq)]
pub struct SubscriptionInfo {
    pub introductory_offer: Option<SubscriptionOffer>,
    pub promotional_offers: Vec<SubscriptionOffer>,
    pub win_back_offers: Vec<SubscriptionOffer>,
    pub subscription_group_id: String,
    pub subscription_period: SubscriptionPeriod,
    pub pricing_terms: Vec<SubscriptionPricingTerms>,
    pub group_level: Option<i64>,
    pub group_display_name: Option<String>,
}

impl SubscriptionInfo {
    /// Returns the subscription group identifier that the bridge's status and eligibility
    /// calls take.
    pub fn group_id(&self) -> (r: &str)
        ensures
            r@ == self.subscription_group_id@,
    {
        self.subscription_group_id.as_str()
    }
}

/// Wraps `StoreKit.Product.SubscriptionInfo.Status`.
#[derive(Debug)]
pub struct SubscriptionStatus {
    /// Renewal state.
    pub state: RenewalState,
    /// The latest transaction of the subscription, as a snapshot.
    pub transaction: VerificationResult<Transaction>,
    /// Renewal info.
    pub renewal_info: VerificationResult<RenewalInfo>,
}

/// The commitment info object that the bridge sends as JSON.
pub struct SubscriptionCommitmentInfoPayload {
    pub price: String,
    pub display_price: String,
    pub period: SubscriptionPeriodPayload,
}

/// The pricing terms object that the bridge sends as JSON.
pub struct SubscriptionPricingTermsPayload {
    pub billing_price: String,
    pub billing_display_price: String,
    pub billing_period: SubscriptionPeriodPayload,
    pub billing_plan_type: String,
    pub commitment_info: SubscriptionCommitmentInfoPayload,
    pub subscription_offers: Vec<SubscriptionOfferPayload>,
}

/// The subscription info object that the bridge sends as JSON.
pub struct SubscriptionInfoPayload {
    pub introductory_offer: Option<SubscriptionOfferPayload>,
    pub promotional_offers: Vec<SubscriptionOfferPayload>,
    pub win_back_offers: Vec<SubscriptionOfferPayload>,
    pub subscription_group_id: String,
    pub subscription_period: SubscriptionPeriodPayload,
    pub pricing_terms: Vec<SubscriptionPricingTermsPayload>,
    pub group_level: Option<i64>,
    pub group_display_name: Option<String>,
}

/// The subscription status object that the bridge sends as JSON.
pub struct SubscriptionStatusPayload {
    pub state: String,
    pub transaction: VerificationResultPayload<TransactionPayload>,
    pub renewal_info: VerificationResultPayload<RenewalInfoPayload>,
}

/// The commitment info that `into_subscription_commitment_info` builds.
pub open spec fn spec_into_commitment_info(p: SubscriptionCommitmentInfoPayload) -> SubscriptionCommitmentInfo {
    SubscriptionCommitmentInfo {
        price: p.price,
        display_price: p.display_price,
        period: spec_into_subscription_period(p.period),
    }
}

/// The offers converted from a list of offer objects.
pub open spec fn spec_offers(ps: Seq<SubscriptionOfferPayload>) -> Seq<SubscriptionOffer> {
    ps.map_values(|p: SubscriptionOfferPayload| spec_into_subscription_offer(p))
}

/// `t` is what `into_subscription_pricing_terms` builds from `p`.
pub open spec fn is_pricing_terms_of(t: SubscriptionPricingTerms, p: SubscriptionPricingTermsPayload) -> bool {
    &&& t.billing_price == p.billing_price
    &&& t.billing_display_price == p.billing_display_price
    &&& t.billing_period == spec_into_subscription_period(p.billing_period)
    &&& t.billing_plan_type == BillingPlanType::spec_from_raw(p.billing_plan_type)
    &&& t.commitment_info == spec_into_commitment_info(p.commitment_info)
    &&& t.subscription_offers@ == spec_offers(p.subscription_offers@)
}

/// `i` is what `into_subscription_info` builds from `p`.
pub open spec fn is_subscription_info_of(i: SubscriptionInfo, p: SubscriptionInfoPayload) -> bool {
    &&& i.introductory_offer == match p.introductory_offer {
        Some(o) => Some(spec_into_subscription_offer(o)),
        None => None,
    }
    &&& i.promotional_offers@ == spec_offers(p.promotional_offers@)
    &&& i.win_back_offers@ == spec_offers(p.win_back_offers@)
    &&& i.subscription_group_id == p.subscription_group_id
    &&& i.subscription_period == spec_into_subscription_period(p.subscription_period)
    &&& i.pricing_terms@.len() == p.pricing_terms@.len()
    &&& forall|k: int|
        0 <= k < p.pricing_terms@.len() ==> is_pricing_terms_of(
            #[trigger] i.pricing_terms@[k],
            p.pricing_terms@[k],
        )
    &&& i.group_level == p.group_level
    &&& i.group_display_name == p.group_display_name
}

impl SubscriptionCommitmentInfoPayload {
    /// Converts the bridge's commitment info object.
    pub fn into_subscription_commitment_info(self) -> (r: SubscriptionCommitmentInfo)
        ensures
            r == spec_into_commitment_info(self),
    {
        SubscriptionCommitmentInfo {
            price: self.price,
            display_price: self.display_price,
            period: self.period.into_subscription_period(),
        }
    }
}

impl SubscriptionPricingTermsPayload {
    /// Converts the bridge's pricing terms object.
    pub fn into_subscription_pricing_terms(self) -> (r: SubscriptionPricingTerms)
        ensures
            is_pricing_terms_of(r, self),
    {
        SubscriptionPricingTerms {
            billing_price: self.billing_price,
            billing_display_price: self.billing_display_price,
            billing_period: self.billing_period.into_subscription_period(),
            billing_plan_type: BillingPlanType::from_raw(self.billing_plan_type),
            commitment_info: self.commitment_info.into_subscription_commitment_info(),
            subscription_offers: into_subscription_offers(self.subscription_offers),
        }
    }
}

impl SubscriptionInfoPayload {
    /// Converts the bridge's subscription info object.
    pub fn into_subscription_info(self) -> (r: SubscriptionInfo)
        ensures
            is_subscription_info_of(r, self),
    {
        let introductory_offer = match self.introductory_offer {
            Some(o) => Some(o.into_subscription_offer()),
            None => None,
        };
        let pricing_terms = convert_all(
            self.pricing_terms,
            SubscriptionPricingTermsPayload::into_subscription_pricing_terms,
        );
        SubscriptionInfo {
            introductory_offer,
            promotional_offers: into_subscription_offers(self.promotional_offers),
            win_back_offers: into_subscription_offers(self.win_back_offers),
            subscription_group_id: self.subscription_group_id,
            subscription_period: self.subscription_period.into_subscription_period(),
            pricing_terms,
            group_level: self.group_level,
            group_display_name: self.group_display_name,
        }
    }
}

/// The transaction snapshot result that the bridge's verification result object yields: the
/// transaction without a live handle, marked with the failure of an unverified result.
pub open spec fn transaction_result_of(
    p: VerificationResultPayload<TransactionPayload>,
    r: Result<VerificationResult<Transaction>, StoreKitError>,
) -> bool {
    live_transaction_result_of(p, None, r)
}

/// The renewal info result that the bridge's verification result object yields.
pub open spec fn renewal_result_of(
    p: VerificationResultPayload<RenewalInfoPayload>,
    r: Result<VerificationResult<RenewalInfo>, StoreKitError>,
) -> bool {
    finish_outcome(
        p.kind@,
        Ok::<RenewalInfo, StoreKitError>(spec_into_renewal_info(p.payload)),
        p.metadata,
        p.verification_error,
        r,
    )
}

/// How `into_subscription_status` converts a status object: the transaction's error first,
/// then the renewal info's.
pub open spec fn status_outcome(p: SubscriptionStatusPayload, r: Result<SubscriptionStatus, StoreKitError>) -> bool {
    match r {
        Ok(s) => {
            &&& s.state@ == p.state@
            &&& s.state.is_canonical()
            &&& transaction_result_of(p.transaction, Ok(s.transaction))
            &&& renewal_result_of(p.renewal_info, Ok(s.renewal_info))
        },
        Err(e) => {
            ||| transaction_result_of(p.transaction, Err(e))
            ||| (exists|t: VerificationResult<Transaction>|
                transaction_result_of(p.transaction, Ok(t)))
                && renewal_result_of(p.renewal_info, Err(e))
        },
    }
}

impl SubscriptionStatusPayload {
    /// Converts the bridge's subscription status object; the transaction becomes a snapshot.
    pub fn into_subscription_status(self) -> (r: Result<SubscriptionStatus, StoreKitError>)
        ensures
            status_outcome(self, r),
    {
        let state = RenewalState::from_raw(self.state.as_str());
        let transaction = self.transaction.into_transaction_result(None);
        let ghost converted = transaction;
        let transaction = match transaction {
            Ok(t) => t,
            Err(e) => {
                return Err(e);
            },
        };
        let renewal_info = self.renewal_info.into_result(RenewalInfoPayload::into_renewal_info_result);
        let renewal_info = match renewal_info {
            Ok(r) => r,
            Err(e) => {
                proof {
                    assert(converted == Ok::<VerificationResult<Transaction>, StoreKitError>(transaction));
                    assert(transaction_result_of(self.transaction, Ok(transaction)));
                }
                return Err(e);
            },
        };
        Ok(SubscriptionStatus { state, transaction, renewal_info })
    }
}

/// How a list of status objects converts: every status in order, or the error of the first one
/// that fails.
pub open spec fn statuses_outcome(
    ps: Seq<SubscriptionStatusPayload>,
    r: Result<Vec<SubscriptionStatus>, StoreKitError>,
) -> bool {
    match r {
        Ok(v) => v@.len() == ps.len() && forall|i: int|
            0 <= i < ps.len() ==> status_outcome(ps[i], Ok(#[trigger] v@[i])),
        Err(e) => exists|k: int|
            #![trigger status_outcome(ps[k], Err(e))]
            0 <= k < ps.len() && statuses_convert_before(ps, k) && status_outcome(ps[k], Err(e)),
    }
}

/// The status object converts without error.
pub open spec fn status_converts(p: SubscriptionStatusPayload) -> bool {
    exists|s: SubscriptionStatus| status_outcome(p, Ok(s))
}

/// Every status object before index `k` converts.
pub open spec fn statuses_convert_before(ps: Seq<SubscriptionStatusPayload>, k: int) -> bool {
    forall|i: int| 0 <= i < k ==> status_converts(#[trigger] ps[i])
}

/// Converts the bridge's list of status objects, stopping at the first that fails.
pub fn into_subscription_statuses(payloads: Vec<SubscriptionStatusPayload>) -> (r: Result<
    Vec<SubscriptionStatus>,
    StoreKitError,
>)
    ensures
        statuses_outcome(payloads@, r),
{
    let ghost all = payloads@;
    let mut out: Vec<SubscriptionStatus> = Vec::new();
    for p in it: payloads
        invariant
            it.seq() == all,
            out@.len() == it.index(),
            forall|i: int| 0 <= i < out@.len() ==> status_outcome(all[i], Ok(#[trigger] out@[i])),
    {
        let ghost k = it.index() as int;
        let ghost pk = p;
        assert(pk == all[k]);
        match p.into_subscription_status() {
            Ok(s) => {
                out.push(s);
                proof {
                    assert(out@[k] == s);
                }
            },
            Err(e) => {
                proof {
                    assert(status_outcome(all[k], Err(e)));
                    assert(0 <= k < all.len());
                    assert forall|i: int| 0 <= i < k implies status_converts(#[trigger] all[i]) by {
                        let w = out@[i];
                        assert(status_outcome(all[i], Ok(w)));
                    }
                    assert(statuses_convert_before(all, k));
                }
                return Err(e);
            },
        }
    }
    Ok(out)
}


/// Commitment info keeps its price, display price and period.
pub open spec fn keeps_commitment(r: SubscriptionCommitmentInfo, p: SubscriptionCommitmentInfoPayload) -> bool {
    r.price == p.price && r.display_price == p.display_price && keeps_subscription_period(
        r.period,
        p.period,
    )
}

/// Pricing terms keep each field of their object, and one offer per offer object in order.
pub open spec fn keeps_pricing_terms(r: SubscriptionPricingTerms, p: SubscriptionPricingTermsPayload) -> bool {
    &&& r.billing_price == p.billing_price
    &&& r.billing_display_price == p.billing_display_price
    &&& keeps_subscription_period(r.billing_period, p.billing_period)
    &&& r.billing_plan_type@ == p.billing_plan_type@
    &&& keeps_commitment(r.commitment_info, p.commitment_info)
    &&& r.subscription_offers@.len() == p.subscription_offers@.len()
    &&& forall|i: int|
        0 <= i < p.subscription_offers@.len() ==> keeps_subscription_offer(
            #[trigger] r.subscription_offers@[i],
            p.subscription_offers@[i],
        )
}

/// Commitment info read from its object keeps its price, display price and period.
pub proof fn commitments_carry_every_field(p: SubscriptionCommitmentInfoPayload, r: SubscriptionCommitmentInfo)
    requires
        r == spec_into_commitment_info(p),
    ensures
        keeps_commitment(r, p),
{
    periods_carry_every_field(p.period, r.period);
}

/// Pricing terms read from their object keep each of its fields.
pub proof fn pricing_terms_carry_every_field(p: SubscriptionPricingTermsPayload, r: SubscriptionPricingTerms)
    requires
        is_pricing_terms_of(r, p),
    ensures
        keeps_pricing_terms(r, p),
{
    periods_carry_every_field(p.billing_period, r.billing_period);
    BillingPlanType::raw_text_round_trip(p.billing_plan_type);
    commitments_carry_every_field(p.commitment_info, r.commitment_info);
    offer_lists_keep_every_offer(p.subscription_offers@, r.subscription_offers@);
}

/// Subscription info read from its object keeps each of its fields: the group identifier, level
/// and display name, the period, each list of offers in order, and each pricing term in order.
pub proof fn subscription_info_carries_every_field(p: SubscriptionInfoPayload, r: SubscriptionInfo)
    requires
        is_subscription_info_of(r, p),
    ensures
        r.subscription_group_id == p.subscription_group_id,
        r.group_level == p.group_level,
        r.group_display_name == p.group_display_name,
        keeps_subscription_period(r.subscription_period, p.subscription_period),
        match (r.introductory_offer, p.introductory_offer) {
            (Some(o), Some(q)) => keeps_subscription_offer(o, q),
            (None, None) => true,
            _ => false,
        },
        r.promotional_offers@.len() == p.promotional_offers@.len(),
        forall|i: int|
            0 <= i < p.promotional_offers@.len() ==> keeps_subscription_offer(
                #[trigger] r.promotional_offers@[i],
                p.promotional_offers@[i],
            ),
        r.win_back_offers@.len() == p.win_back_offers@.len(),
        forall|i: int|
            0 <= i < p.win_back_offers@.len() ==> keeps_subscription_offer(
                #[trigger] r.win_back_offers@[i],
                p.win_back_offers@[i],
            ),
        r.pricing_terms@.len() == p.pricing_terms@.len(),
        forall|i: int|
            0 <= i < p.pricing_terms@.len() ==> keeps_pricing_terms(
                #[trigger] r.pricing_terms@[i],
                p.pricing_terms@[i],
            ),
{
    periods_carry_every_field(p.subscription_period, r.subscription_period);
    match p.introductory_offer {
        Some(q) => { offers_carry_every_field(q, r.introductory_offer->0); },
        None => {},
    }
    offer_lists_keep_every_offer(p.promotional_offers@, r.promotional_offers@);
    offer_lists_keep_every_offer(p.win_back_offers@, r.win_back_offers@);
    assert forall|i: int| 0 <= i < p.pricing_terms@.len() implies keeps_pricing_terms(
        #[trigger] r.pricing_terms@[i],
        p.pricing_terms@[i],
    ) by {
        pricing_terms_carry_every_field(p.pricing_terms@[i], r.pricing_terms@[i]);
    }
}

} // verus!
