//! `StoreKit.Transaction`: its values, the decisions on a transaction, and the bridge's
//! transaction objects.

use vstd::prelude::*;

use crate::advanced_commerce::{
    is_transaction_info_of, TransactionAdvancedCommerceInfo, TransactionAdvancedCommerceInfoPayload,
};
use crate::app_store::AppStoreEnvironment;
use crate::error::{
    ErrorView, StoreKitError, VerificationErrorCode, VerificationErrorPayload, VerificationFailure,
};
use crate::private::{base64_standard, decode_base64, spec_decode_base64};
use crate::product::ProductType;
use crate::storefront::{spec_into_storefront, Storefront, StorefrontPayload};
use crate::subscription::{spec_into_subscription_period, SubscriptionPeriod, SubscriptionPeriodPayload};
use crate::text::owned;
use crate::verification_result::VerificationResult;

verus! {

/// Wraps `StoreKit.Transaction.Reason`.
#[derive(Debug, Clone, PartialEq, Eq)]
pub enum TransactionReason {
    /// A purchase.
    Purchase,
    /// A renewal.
    Renewal,
    /// An unrecognized raw value, kept as it was received.
    Unknown(String),
}

impl View for TransactionReason {
    type V = Seq<char>;

    /// The raw `StoreKit` text of the value.
    open spec fn view(&self) -> Seq<char> {
        match self {
            TransactionReason::Purchase => "purchase"@,
            TransactionReason::Renewal => "renewal"@,
            TransactionReason::Unknown(value) => value@,
        }
    }
}

impl TransactionReason {
    /// `true` when the raw text names a known case.
    pub open spec fn is_known_text(text: Seq<char>) -> bool {
        text == "purchase"@ || text == "renewal"@
    }

    /// A value is canonical when `Unknown` only holds text that names no known case.
    pub open spec fn is_canonical(&self) -> bool {
        match self {
            TransactionReason::Unknown(value) => !Self::is_known_text(value@),
            _ => true,
        }
    }

    /// The value that `from_raw` builds from `raw`.
    pub open spec fn spec_from_raw(raw: String) -> Self {
        if raw@ == "purchase"@ {
            TransactionReason::Purchase
        } else if raw@ == "renewal"@ {
            TransactionReason::Renewal
        } else {
            TransactionReason::Unknown(raw)
        }
    }

    /// Returns the raw `StoreKit` text for this value.
    pub fn as_str(&self) -> (s: &str)
        ensures
            s@ == self@,
    {
        match self {
            TransactionReason::Purchase => "purchase",
            TransactionReason::Renewal => "renewal",
            TransactionReason::Unknown(value) => value.as_str(),
        }
    }

    /// Builds a value from the raw `StoreKit` text, keeping unrecognized text in `Unknown`.
    pub fn from_raw(raw: String) -> (r: Self)
        ensures
            r == Self::spec_from_raw(raw),
            r@ == raw@,
            r.is_canonical(),
    {
        if crate::text::text_eq(raw.as_str(), "purchase") {
            TransactionReason::Purchase
        } else if crate::text::text_eq(raw.as_str(), "renewal") {
            TransactionReason::Renewal
        } else {
            TransactionReason::Unknown(raw)
        }
    }

    /// Reading a value back as text gives the text it was built from, and the value is canonical.
    pub proof fn raw_text_round_trip(raw: String)
        ensures
            Self::spec_from_raw(raw)@ == raw@,
            Self::spec_from_raw(raw).is_canonical(),
    {
    }

    /// Two canonical values with the same raw text are the same case; for a known case they are equal.
    pub proof fn canonical_text_determines_value(a: Self, b: Self)
        requires
            a.is_canonical(),
            b.is_canonical(),
            a@ == b@,
        ensures
            (a is Unknown) == (b is Unknown),
            !(a is Unknown) ==> a == b,
    {
        reveal_strlit("purchase");
        reveal_strlit("renewal");
        assert("purchase"@.len() != "renewal"@.len());
    }
}

/// Wraps `StoreKit.Transaction.RevocationReason`.
#[derive(Debug, Clone, PartialEq, Eq)]
pub enum RevocationReason {
    /// Revoked because of an issue in the app.
    DeveloperIssue,
    /// Revoked for another reason.
    Other,
    /// An unrecognized raw value, kept as it was received.
    Unknown(String),
}

impl View for RevocationReason {
    type V = Seq<char>;

    /// The raw `StoreKit` text of the value.
    open spec fn view(&self) -> Seq<char> {
        match self {
            RevocationReason::DeveloperIssue => "developerIssue"@,
            RevocationReason::Other => "other"@,
            RevocationReason::Unknown(value) => value@,
        }
    }
}

impl RevocationReason {
    /// `true` when the raw text names a known case.
    pub open spec fn is_known_text(text: Seq<char>) -> bool {
        text == "developerIssue"@ || text == "other"@
    }

    /// A value is canonical when `Unknown` only holds text that names no known case.
    pub open spec fn is_canonical(&self) -> bool {
        match self {
            RevocationReason::Unknown(value) => !Self::is_known_text(value@),
            _ => true,
        }
    }

    /// The value that `from_raw` builds from `raw`.
    pub open spec fn spec_from_raw(raw: String) -> Self {
        if raw@ == "developerIssue"@ {
            RevocationReason::DeveloperIssue
        } else if raw@ == "other"@ {
            RevocationReason::Other
        } else {
            RevocationReason::Unknown(raw)
        }
    }

    /// Returns the raw `StoreKit` text for this value.
    pub fn as_str(&self) -> (s: &str)
        ensures
            s@ == self@,
    {
        match self {
            RevocationReason::DeveloperIssue => "developerIssue",
            RevocationReason::Other => "other",
            RevocationReason::Unknown(value) => value.as_str(),
        }
    }

    /// Builds a value from the raw `StoreKit` text, keeping unrecognized text in `Unknown`.
    pub fn from_raw(raw: String) -> (r: Self)
        ensures
            r == Self::spec_from_raw(raw),
            r@ == raw@,
            r.is_canonical(),
    {
        if crate::text::text_eq(raw.as_str(), "developerIssue") {
            RevocationReason::DeveloperIssue
        } else if crate::text::text_eq(raw.as_str(), "other") {
            RevocationReason::Other
        } else {
            RevocationReason::Unknown(raw)
        }
    }

    /// Reading a value back as text gives the text it was built from, and the value is canonical.
    pub proof fn raw_text_round_trip(raw: String)
        ensures
            Self::spec_from_raw(raw)@ == raw@,
            Self::spec_from_raw(raw).is_canonical(),
    {
    }

    /// Two canonical values with the same raw text are the same case; for a known case they are equal.
    pub proof fn canonical_text_determines_value(a: Self, b: Self)
        requires
            a.is_canonical(),
            b.is_canonical(),
            a@ == b@,
        ensures
            (a is Unknown) == (b is Unknown),
            !(a is Unknown) ==> a == b,
    {
        reveal_strlit("developerIssue");
        reveal_strlit("other");
        assert("developerIssue"@.len() != "other"@.len());
    }
}

/// The offer type attached to `StoreKit.Transaction`.
#[derive(Debug, Clone, PartialEq, Eq)]
pub enum OfferType {
    /// An introductory offer.
    Introductory,
    /// A promotional offer.
    Promotional,
    /// An offer code.
    Code,
    /// A win-back offer.
    WinBack,
    /// An unrecognized raw value, kept as it was received.
    Unknown(String),
}

impl View for OfferType {
    type V = Seq<char>;

    /// The raw `StoreKit` text of the value.
    open spec fn view(&self) -> Seq<char> {
        match self {
            OfferType::Introductory => "introductory"@,
            OfferType::Promotional => "promotional"@,
            OfferType::Code => "code"@,
            OfferType::WinBack => "winBack"@,
            OfferType::Unknown(value) => value@,
        }
    }
}

impl OfferType {
    /// `true` when the raw text names a known case.
    pub open spec fn is_known_text(text: Seq<char>) -> bool {
        text == "introductory"@ || text == "promotional"@ || text == "code"@ || text == "winBack"@
    }

    /// A value is canonical when `Unknown` only holds text that names no known case.
    pub open spec fn is_canonical(&self) -> bool {
        match self {
            OfferType::Unknown(value) => !Self::is_known_text(value@),
            _ => true,
        }
    }

    /// The value that `from_raw` builds from `raw`.
    pub open spec fn spec_from_raw(raw: String) -> Self {
        if raw@ == "introductory"@ {
            OfferType::Introductory
        } else if raw@ == "promotional"@ {
            OfferType::Promotional
        } else if raw@ == "code"@ {
            OfferType::Code
        } else if raw@ == "winBack"@ {
            OfferType::WinBack
        } else {
            OfferType::Unknown(raw)
        }
    }

    /// Returns the raw `StoreKit` text for this value.
    pub fn as_str(&self) -> (s: &str)
        ensures
            s@ == self@,
    {
        match self {
            OfferType::Introductory => "introductory",
            OfferType::Promotional => "promotional",
            OfferType::Code => "code",
            OfferType::WinBack => "winBack",
            OfferType::Unknown(value) => value.as_str(),
        }
    }

    /// Builds a value from the raw `StoreKit` text, keeping unrecognized text in `Unknown`.
    pub fn from_raw(raw: String) -> (r: Self)
        ensures
            r == Self::spec_from_raw(raw),
            r@ == raw@,
            r.is_canonical(),
    {
        if crate::text::text_eq(raw.as_str(), "introductory") {
            OfferType::Introductory
        } else if crate::text::text_eq(raw.as_str(), "promotional") {
            OfferType::Promotional
        } else if crate::text::text_eq(raw.as_str(), "code") {
            OfferType::Code
        } else if crate::text::text_eq(raw.as_str(), "winBack") {
            OfferType::WinBack
        } else {
            OfferType::Unknown(raw)
        }
    }

    /// Reading a value back as text gives the text it was built from, and the value is canonical.
    pub proof fn raw_text_round_trip(raw: String)
        ensures
            Self::spec_from_raw(raw)@ == raw@,
            Self::spec_from_raw(raw).is_canonical(),
    {
    }

    /// Two canonical values with the same raw text are the same case; for a known case they are equal.
    pub proof fn canonical_text_determines_value(a: Self, b: Self)
        requires
            a.is_canonical(),
            b.is_canonical(),
            a@ == b@,
        ensures
            (a is Unknown) == (b is Unknown),
            !(a is Unknown) ==> a == b,
    {
        reveal_strlit("introductory");
        reveal_strlit("promotional");
        reveal_strlit("code");
        reveal_strlit("winBack");
        assert("introductory"@.len() != "promotional"@.len());
        assert("introductory"@.len() != "code"@.len());
        assert("introductory"@.len() != "winBack"@.len());
        assert("promotional"@.len() != "code"@.len());
        assert("promotional"@.len() != "winBack"@.len());
        assert("code"@.len() != "winBack"@.len());
    }
}

/// The offer payment mode attached to `StoreKit.Transaction`.
#[derive(Debug, Clone, PartialEq, Eq)]
pub enum OfferPaymentMode {
    /// A free trial.
    FreeTrial,
    /// Pay each period.
    PayAsYouGo,
    /// Pay once up front.
    PayUpFront,
    /// A one-time payment.
    OneTime,
    /// An unrecognized raw value, kept as it was received.
    Unknown(String),
}

impl View for OfferPaymentMode {
    type V = Seq<char>;

    /// The raw `StoreKit` text of the value.
    open spec fn view(&self) -> Seq<char> {
        match self {
            OfferPaymentMode::FreeTrial => "freeTrial"@,
            OfferPaymentMode::PayAsYouGo => "payAsYouGo"@,
            OfferPaymentMode::PayUpFront => "payUpFront"@,
            OfferPaymentMode::OneTime => "oneTime"@,
            OfferPaymentMode::Unknown(value) => value@,
        }
    }
}

impl OfferPaymentMode {
    /// `true` when the raw text names a known case.
    pub open spec fn is_known_text(text: Seq<char>) -> bool {
        text == "freeTrial"@ || text == "payAsYouGo"@ || text == "payUpFront"@ || text == "oneTime"@
    }

    /// A value is canonical when `Unknown` only holds text that names no known case.
    pub open spec fn is_canonical(&self) -> bool {
        match self {
            OfferPaymentMode::Unknown(value) => !Self::is_known_text(value@),
            _ => true,
        }
    }

    /// The value that `from_raw` builds from `raw`.
    pub open spec fn spec_from_raw(raw: String) -> Self {
        if raw@ == "freeTrial"@ {
            OfferPaymentMode::FreeTrial
        } else if raw@ == "payAsYouGo"@ {
            OfferPaymentMode::PayAsYouGo
        } else if raw@ == "payUpFront"@ {
            OfferPaymentMode::PayUpFront
        } else if raw@ == "oneTime"@ {
            OfferPaymentMode::OneTime
        } else {
            OfferPaymentMode::Unknown(raw)
        }
    }

    /// Returns the raw `StoreKit` text for this value.
    pub fn as_str(&self) -> (s: &str)
        ensures
            s@ == self@,
    {
        match self {
            OfferPaymentMode::FreeTrial => "freeTrial",
            OfferPaymentMode::PayAsYouGo => "payAsYouGo",
            OfferPaymentMode::PayUpFront => "payUpFront",
            OfferPaymentMode::OneTime => "oneTime",
            OfferPaymentMode::Unknown(value) => value.as_str(),
        }
    }

    /// Builds a value from the raw `StoreKit` text, keeping unrecognized text in `Unknown`.
    pub fn from_raw(raw: String) -> (r: Self)
        ensures
            r == Self::spec_from_raw(raw),
            r@ == raw@,
            r.is_canonical(),
    {
        if crate::text::text_eq(raw.as_str(), "freeTrial") {
            OfferPaymentMode::FreeTrial
        } else if crate::text::text_eq(raw.as_str(), "payAsYouGo") {
            OfferPaymentMode::PayAsYouGo
        } else if crate::text::text_eq(raw.as_str(), "payUpFront") {
            OfferPaymentMode::PayUpFront
        } else if crate::text::text_eq(raw.as_str(), "oneTime") {
            OfferPaymentMode::OneTime
        } else {
            OfferPaymentMode::Unknown(raw)
        }
    }

    /// Reading a value back as text gives the text it was built from, and the value is canonical.
    pub proof fn raw_text_round_trip(raw: String)
        ensures
            Self::spec_from_raw(raw)@ == raw@,
            Self::spec_from_raw(raw).is_canonical(),
    {
    }

    /// Two canonical values with the same raw text are the same case; for a known case they are equal.
    pub proof fn canonical_text_determines_value(a: Self, b: Self)
        requires
            a.is_canonical(),
            b.is_canonical(),
            a@ == b@,
        ensures
            (a is Unknown) == (b is Unknown),
            !(a is Unknown) ==> a == b,
    {
        reveal_strlit("freeTrial");
        reveal_strlit("payAsYouGo");
        reveal_strlit("payUpFront");
        reveal_strlit("oneTime");
        assert("freeTrial"@.len() != "payAsYouGo"@.len());
        assert("freeTrial"@.len() != "payUpFront"@.len());
        assert("freeTrial"@.len() != "oneTime"@.len());
        assert("payAsYouGo"@[3] != "payUpFront"@[3]);
        assert("payAsYouGo"@.len() != "oneTime"@.len());
        assert("payUpFront"@.len() != "oneTime"@.len());
    }
}

/// Offer metadata attached to `StoreKit.Transaction`.
#[derive(Debug, Clone, PartialEq, Eq)]
pub struct TransactionOffer {
    /// Offer identifier.
    pub id: Option<String>,
    /// Offer type.
    pub offer_type: OfferType,
    /// Payment mode.
    pub payment_mode: Option<OfferPaymentMode>,
    /// Period of the offer.
    pub period: Option<SubscriptionPeriod>,
}

/// Wraps `StoreKit.Transaction.OwnershipType`.
#[derive(Debug, Clone, PartialEq, Eq)]
pub enum OwnershipType {
    /// Bought by this account.
    Purchased,
    /// Shared through Family Sharing.
    FamilyShared,
    /// An unrecognized raw value, kept as it was received.
    Unknown(String),
}

impl View for OwnershipType {
    type V = Seq<char>;

    /// The raw `StoreKit` text of the value.
    open spec fn view(&self) -> Seq<char> {
        match self {
            OwnershipType::Purchased => "purchased"@,
            OwnershipType::FamilyShared => "familyShared"@,
            OwnershipType::Unknown(value) => value@,
        }
    }
}

impl OwnershipType {
    /// `true` when the raw text names a known case.
    pub open spec fn is_known_text(text: Seq<char>) -> bool {
        text == "purchased"@ || text == "familyShared"@
    }

    /// A value is canonical when `Unknown` only holds text that names no known case.
    pub open spec fn is_canonical(&self) -> bool {
        match self {
            OwnershipType::Unknown(value) => !Self::is_known_text(value@),
            _ => true,
        }
    }

    /// The value that `from_raw` builds from `raw`.
    pub open spec fn spec_from_raw(raw: String) -> Self {
        if raw@ == "purchased"@ {
            OwnershipType::Purchased
        } else if raw@ == "familyShared"@ {
            OwnershipType::FamilyShared
        } else {
            OwnershipType::Unknown(raw)
        }
    }

    /// Returns the raw `StoreKit` text for this value.
    pub fn as_str(&self) -> (s: &str)
        ensures
            s@ == self@,
    {
        match self {
            OwnershipType::Purchased => "purchased",
            OwnershipType::FamilyShared => "familyShared",
            OwnershipType::Unknown(value) => value.as_str(),
        }
    }

    /// Builds a value from the raw `StoreKit` text, keeping unrecognized text in `Unknown`.
    pub fn from_raw(raw: String) -> (r: Self)
        ensures
            r == Self::spec_from_raw(raw),
            r@ == raw@,
            r.is_canonical(),
    {
        if crate::text::text_eq(raw.as_str(), "purchased") {
            OwnershipType::Purchased
        } else if crate::text::text_eq(raw.as_str(), "familyShared") {
            OwnershipType::FamilyShared
        } else {
            OwnershipType::Unknown(raw)
        }
    }

    /// Reading a value back as text gives the text it was built from, and the value is canonical.
    pub proof fn raw_text_round_trip(raw: String)
        ensures
            Self::spec_from_raw(raw)@ == raw@,
            Self::spec_from_raw(raw).is_canonical(),
    {
    }

    /// Two canonical values with the same raw text are the same case; for a known case they are equal.
    pub proof fn canonical_text_determines_value(a: Self, b: Self)
        requires
            a.is_canonical(),
            b.is_canonical(),
            a@ == b@,
        ensures
            (a is Unknown) == (b is Unknown),
            !(a is Unknown) ==> a == b,
    {
        reveal_strlit("purchased");
        reveal_strlit("familyShared");
        assert("purchased"@.len() != "familyShared"@.len());
    }
}

/// Decoded fields of a `StoreKit.Transaction` payload.
#[derive(Debug, Clone, PartialEq, Eq)]
pub struct TransactionData {
    pub id: u64,
    pub original_id: u64,
    pub web_order_line_item_id: Option<String>,
    pub product_id: String,
    pub subscription_group_id: Option<String>,
    pub app_bundle_id: String,
    pub purchase_date: String,
    pub original_purchase_date: String,
    pub expiration_date: Option<String>,
    pub purchased_quantity: u64,
    pub is_upgraded: bool,
    pub ownership_type: OwnershipType,
    pub signed_date: String,
    pub jws_representation: String,
    pub verification_failure: Option<VerificationFailure>,
    pub revocation_date: Option<String>,
    pub revocation_reason: Option<RevocationReason>,
    pub product_type: Option<ProductType>,
    pub app_account_token: Option<String>,
    pub environment: Option<AppStoreEnvironment>,
    pub reason: Option<TransactionReason>,
    pub storefront: Option<Storefront>,
    pub price: Option<String>,
    pub currency_code: Option<String>,
    pub app_transaction_id: Option<String>,
    pub offer: Option<TransactionOffer>,
    /// Decoded JSON representation.
    pub json_representation: Vec<u8>,
}

/// The address of a live `StoreKit.Transaction` object held by the bridge; never zero.
#[derive(Debug, Clone, Copy, PartialEq, Eq, Structural)]
pub struct TransactionHandle {
    raw: usize,
}

impl TransactionHandle {
    /// The address.
    pub closed spec fn spec_raw(self) -> usize {
        self.raw
    }

    /// Wraps an address that the bridge returned; zero means that there is no object.
    pub fn from_raw(raw: usize) -> (r: Option<Self>)
        ensures
            raw == 0 ==> r is None,
            raw != 0 ==> (r matches Some(h) && h.spec_raw() == raw),
    {
        if raw == 0 {
            None
        } else {
            Some(TransactionHandle { raw })
        }
    }

    /// Returns the address.
    pub fn raw(&self) -> (r: usize)
        ensures
            r == self.spec_raw(),
            r != 0,
    {
        proof {
            use_type_invariant(self);
        }
        self.raw
    }

    #[verifier::type_invariant]
    spec fn non_zero(self) -> bool {
        self.raw != 0
    }
}

/// A `StoreKit.Transaction`: the decoded payload, plus the handle of the live object when the
/// bridge keeps one. A transaction without a handle is a snapshot.
#[derive(Debug)]
pub struct Transaction {
    handle: Option<TransactionHandle>,
    data: TransactionData,
    advanced_commerce_info: Option<TransactionAdvancedCommerceInfo>,
}

/// The message of the error that `finish_request` returns for a snapshot.
pub open spec fn snapshot_cannot_finish() -> ErrorView {
    ErrorView::NotSupported(
        "transaction snapshots cannot be finished because they do not carry a live StoreKit handle"@,
    )
}

impl Transaction {
    /// The handle of the live object, if any.
    pub closed spec fn spec_handle(&self) -> Option<TransactionHandle> {
        self.handle
    }

    /// The decoded payload data.
    pub closed spec fn spec_data(&self) -> TransactionData {
        self.data
    }

    /// The advanced-commerce metadata.
    pub closed spec fn spec_advanced_commerce_info(&self) -> Option<TransactionAdvancedCommerceInfo> {
        self.advanced_commerce_info
    }

    /// Returns the decoded payload data.
    pub fn data(&self) -> (r: &TransactionData)
        ensures
            *r == self.spec_data(),
    {
        &self.data
    }

    /// Returns the advanced-commerce metadata attached to the transaction.
    pub fn advanced_commerce_info(&self) -> (r: Option<&TransactionAdvancedCommerceInfo>)
        ensures
            match self.spec_advanced_commerce_info() {
                Some(i) => r matches Some(x) && *x == i,
                None => r is None,
            },
    {
        match &self.advanced_commerce_info {
            Some(info) => Some(info),
            None => None,
        }
    }

    /// Returns whether the transaction still has a live `StoreKit` handle.
    pub fn has_live_handle(&self) -> (r: bool)
        ensures
            r == self.spec_handle().is_some(),
    {
        self.handle.is_some()
    }

    /// Returns the handle of the live object, if any.
    pub fn handle(&self) -> (r: Option<TransactionHandle>)
        ensures
            r == self.spec_handle(),
    {
        self.handle
    }

    /// Decides how to verify the transaction again. A live transaction is verified by the
    /// bridge, so its handle is returned; a snapshot answers from the failure it carries.
    pub fn verification_request(&self) -> (r: Result<Option<TransactionHandle>, StoreKitError>)
        ensures
            match self.spec_handle() {
                Some(h) => r == Ok::<Option<TransactionHandle>, StoreKitError>(Some(h)),
                None => match self.spec_data().verification_failure {
                    None => r == Ok::<Option<TransactionHandle>, StoreKitError>(None),
                    Some(f) => r matches Err(e) && e == StoreKitError::Verification(f),
                },
            },
    {
        match self.handle {
            Some(h) => Ok(Some(h)),
            None => match &self.data.verification_failure {
                None => Ok(None),
                Some(f) => Err(StoreKitError::Verification(f.duplicate())),
            },
        }
    }

    /// Decides whether the transaction may be finished: only a live transaction that passed
    /// verification may, and its handle is returned for the bridge's call.
    pub fn finish_request(&self) -> (r: Result<TransactionHandle, StoreKitError>)
        ensures
            match self.spec_handle() {
                None => r matches Err(e) && e@ == snapshot_cannot_finish(),
                Some(h) => match self.spec_data().verification_failure {
                    None => r == Ok::<TransactionHandle, StoreKitError>(h),
                    Some(f) => r matches Err(e) && e == StoreKitError::Verification(f),
                },
            },
            r is Ok ==> self.spec_data().verification_failure is None,
    {
        match self.handle {
            None => Err(
                StoreKitError::NotSupported(
                    owned(
                        "transaction snapshots cannot be finished because they do not carry a live StoreKit handle",
                    ),
                ),
            ),
            Some(h) => match &self.data.verification_failure {
                None => Ok(h),
                Some(f) => Err(StoreKitError::Verification(f.duplicate())),
            },
        }
    }

    /// Builds a transaction from the bridge's transaction object and the handle that came with
    /// it.
    pub fn from_raw_parts(handle: Option<TransactionHandle>, payload: TransactionPayload) -> (r:
        Result<Self, StoreKitError>)
        ensures
            transaction_outcome(handle, payload, r),
    {
        let (data, advanced_commerce_info) = payload.into_transaction_parts()?;
        Ok(Transaction { handle, data, advanced_commerce_info })
    }

    /// Assembles a transaction from its handle, its data and its advanced-commerce metadata.
    pub fn from_parts(
        handle: Option<TransactionHandle>,
        data: TransactionData,
        advanced_commerce_info: Option<TransactionAdvancedCommerceInfo>,
    ) -> (r: Self)
        ensures
            r.spec_handle() == handle,
            r.spec_data() == data,
            r.spec_advanced_commerce_info() == advanced_commerce_info,
    {
        Transaction { handle, data, advanced_commerce_info }
    }

    /// Builds a snapshot, without a live handle, from the bridge's transaction object.
    pub fn from_snapshot_payload(payload: TransactionPayload) -> (r: Result<Self, StoreKitError>)
        ensures
            transaction_outcome(None, payload, r),
    {
        let (data, advanced_commerce_info) = payload.into_transaction_parts()?;
        Ok(Transaction { handle: None, data, advanced_commerce_info })
    }
}

/// The data of a transaction that sat in an unverified result: the result's failure, unless
/// the transaction carries a failure of its own.
pub open spec fn spec_marked_data(d: TransactionData, failure: VerificationFailure) -> TransactionData {
    if d.verification_failure is None {
        TransactionData { verification_failure: Some(failure), ..d }
    } else {
        d
    }
}

/// `after` is `before` marked with the failure of the unverified result it sat in.
pub open spec fn is_marked(after: Transaction, before: Transaction, failure: VerificationFailure) -> bool {
    &&& after.spec_handle() == before.spec_handle()
    &&& after.spec_data() == spec_marked_data(before.spec_data(), failure)
    &&& after.spec_advanced_commerce_info() == before.spec_advanced_commerce_info()
}

/// `after` is `before` with the transaction of an unverified result marked with its failure; a
/// verified result is unchanged.
pub open spec fn is_marked_result(
    after: VerificationResult<Transaction>,
    before: VerificationResult<Transaction>,
) -> bool {
    match before {
        VerificationResult::Verified { .. } => after == before,
        VerificationResult::Unverified { payload, metadata, failure } => after matches VerificationResult::Unverified {
            payload: p,
            metadata: m,
            failure: f,
        } && m == metadata && f == failure && is_marked(p, payload, failure),
    }
}

/// Marks the transaction of an unverified result with the result's failure, so that it cannot
/// be finished (and, as a snapshot, verifies to that failure), whether or not the transaction
/// object carried a failure of its own; a verified result is returned as it is.
pub fn mark_unverified(result: VerificationResult<Transaction>) -> (r: VerificationResult<Transaction>)
    ensures
        is_marked_result(r, result),
{
    match result {
        VerificationResult::Verified { payload, metadata } => VerificationResult::Verified {
            payload,
            metadata,
        },
        VerificationResult::Unverified { payload, metadata, failure } => {
            let mut transaction = payload;
            if transaction.data.verification_failure.is_none() {
                transaction.data.verification_failure = Some(failure.duplicate());
            }
            VerificationResult::Unverified { payload: transaction, metadata, failure }
        },
    }
}

/// A transaction taken from an unverified result, once marked, carries a verification failure,
/// so `finish_request` refuses it; the result keeps its own failure.
pub proof fn marked_unverified_transactions_carry_a_failure(
    after: VerificationResult<Transaction>,
    before: VerificationResult<Transaction>,
)
    requires
        is_marked_result(after, before),
    ensures
        after matches VerificationResult::Unverified { payload, .. }
            ==> payload.spec_data().verification_failure is Some,
        after.spec_failure() == before.spec_failure(),
{
}


/// What a transaction stream of the bridge yields.
#[derive(Debug, Clone, PartialEq, Eq)]
pub struct TransactionStreamConfig {
    /// The sequence: `all`, `currentEntitlements`, `updates`, `unfinished`, `allFor` or
    /// `currentEntitlementsFor`.
    pub kind: &'static str,
    /// The product, for the sequences of one product.
    pub product_id: Option<String>,
}

impl TransactionStreamConfig {
    /// Every transaction.
    pub fn all() -> (r: Self)
        ensures
            r.kind@ == "all"@,
            r.product_id is None,
    {
        TransactionStreamConfig { kind: "all", product_id: None }
    }

    /// The current entitlements.
    pub fn current_entitlements() -> (r: Self)
        ensures
            r.kind@ == "currentEntitlements"@,
            r.product_id is None,
    {
        TransactionStreamConfig { kind: "currentEntitlements", product_id: None }
    }

    /// Transactions as they arrive.
    pub fn updates() -> (r: Self)
        ensures
            r.kind@ == "updates"@,
            r.product_id is None,
    {
        TransactionStreamConfig { kind: "updates", product_id: None }
    }

    /// Transactions that were not finished.
    pub fn unfinished() -> (r: Self)
        ensures
            r.kind@ == "unfinished"@,
            r.product_id is None,
    {
        TransactionStreamConfig { kind: "unfinished", product_id: None }
    }

    /// Every transaction of one product.
    pub fn all_for(product_id: &str) -> (r: Self)
        ensures
            r.kind@ == "allFor"@,
            r.product_id matches Some(p) && p@ == product_id@,
    {
        TransactionStreamConfig { kind: "allFor", product_id: Some(owned(product_id)) }
    }

    /// The current entitlements of one product.
    pub fn current_entitlements_for(product_id: &str) -> (r: Self)
        ensures
            r.kind@ == "currentEntitlementsFor"@,
            r.product_id matches Some(p) && p@ == product_id@,
    {
        TransactionStreamConfig { kind: "currentEntitlementsFor", product_id: Some(owned(product_id)) }
    }
}

/// The transaction offer object that the bridge sends as JSON.
pub struct TransactionOfferPayload {
    pub id: Option<String>,
    pub offer_type: String,
    pub payment_mode: Option<String>,
    pub period: Option<SubscriptionPeriodPayload>,
}

/// The offer that `into_transaction_offer` builds.
pub open spec fn spec_into_transaction_offer(p: TransactionOfferPayload) -> TransactionOffer {
    TransactionOffer {
        id: p.id,
        offer_type: OfferType::spec_from_raw(p.offer_type),
        payment_mode: match p.payment_mode {
            Some(m) => Some(OfferPaymentMode::spec_from_raw(m)),
            None => None,
        },
        period: match p.period {
            Some(x) => Some(spec_into_subscription_period(x)),
            None => None,
        },
    }
}

impl TransactionOfferPayload {
    /// Converts the bridge's transaction offer object.
    pub fn into_transaction_offer(self) -> (r: TransactionOffer)
        ensures
            r == spec_into_transaction_offer(self),
    {
        let payment_mode = match self.payment_mode {
            Some(m) => Some(OfferPaymentMode::from_raw(m)),
            None => None,
        };
        let period = match self.period {
            Some(x) => Some(x.into_subscription_period()),
            None => None,
        };
        TransactionOffer {
            id: self.id,
            offer_type: OfferType::from_raw(self.offer_type),
            payment_mode,
            period,
        }
    }
}

/// The transaction object that the bridge sends as JSON.
pub struct TransactionPayload {
    pub id: u64,
    pub original_id: u64,
    pub web_order_line_item_id: Option<String>,
    pub product_id: String,
    pub subscription_group_id: Option<String>,
    pub app_bundle_id: String,
    pub purchase_date: String,
    pub original_purchase_date: String,
    pub expiration_date: Option<String>,
    pub purchased_quantity: u64,
    pub is_upgraded: bool,
    pub ownership_type: String,
    pub signed_date: String,
    pub jws_representation: String,
    pub verification_error: Option<VerificationErrorPayload>,
    pub revocation_date: Option<String>,
    pub revocation_reason: Option<String>,
    pub product_type: Option<String>,
    pub app_account_token: Option<String>,
    pub environment: Option<String>,
    pub reason: Option<String>,
    pub storefront: Option<StorefrontPayload>,
    pub price: Option<String>,
    pub currency_code: Option<String>,
    pub app_transaction_id: Option<String>,
    pub offer: Option<TransactionOfferPayload>,
    pub advanced_commerce_info: Option<TransactionAdvancedCommerceInfoPayload>,
    pub json_representation_base64: String,
}

/// `d` holds the fields of `p`, converted, with `json` as the decoded JSON representation.
pub open spec fn is_transaction_data_of(d: TransactionData, p: TransactionPayload, json: Seq<u8>) -> bool {
    &&& d.id == p.id
    &&& d.original_id == p.original_id
    &&& d.web_order_line_item_id == p.web_order_line_item_id
    &&& d.product_id == p.product_id
    &&& d.subscription_group_id == p.subscription_group_id
    &&& d.app_bundle_id == p.app_bundle_id
    &&& d.purchase_date == p.purchase_date
    &&& d.original_purchase_date == p.original_purchase_date
    &&& d.expiration_date == p.expiration_date
    &&& d.purchased_quantity == p.purchased_quantity
    &&& d.is_upgraded == p.is_upgraded
    &&& d.ownership_type == OwnershipType::spec_from_raw(p.ownership_type)
    &&& d.signed_date == p.signed_date
    &&& d.jws_representation == p.jws_representation
    &&& d.verification_failure == match p.verification_error {
        Some(e) => Some(VerificationFailure::spec_from_payload(e)),
        None => None,
    }
    &&& d.revocation_date == p.revocation_date
    &&& d.revocation_reason == match p.revocation_reason {
        Some(x) => Some(RevocationReason::spec_from_raw(x)),
        None => None,
    }
    &&& d.product_type == match p.product_type {
        Some(x) => Some(ProductType::spec_from_raw(x)),
        None => None,
    }
    &&& d.app_account_token == p.app_account_token
    &&& d.environment == match p.environment {
        Some(x) => Some(AppStoreEnvironment::spec_from_raw(x)),
        None => None,
    }
    &&& d.reason == match p.reason {
        Some(x) => Some(TransactionReason::spec_from_raw(x)),
        None => None,
    }
    &&& d.storefront == match p.storefront {
        Some(x) => Some(spec_into_storefront(x)),
        None => None,
    }
    &&& d.price == p.price
    &&& d.currency_code == p.currency_code
    &&& d.app_transaction_id == p.app_transaction_id
    &&& d.offer == match p.offer {
        Some(x) => Some(spec_into_transaction_offer(x)),
        None => None,
    }
    &&& d.json_representation@ == json
}

/// `a` is the advanced-commerce metadata converted from `p`.
pub open spec fn is_advanced_info_of(
    a: Option<TransactionAdvancedCommerceInfo>,
    p: Option<TransactionAdvancedCommerceInfoPayload>,
) -> bool {
    match (a, p) {
        (Some(x), Some(y)) => is_transaction_info_of(x, y),
        (None, None) => true,
        _ => false,
    }
}

/// How `into_transaction_parts` converts a transaction object: it fails only when the JSON
/// representation is not Base64.
pub open spec fn transaction_parts_outcome(
    p: TransactionPayload,
    r: Result<(TransactionData, Option<TransactionAdvancedCommerceInfo>), StoreKitError>,
) -> bool {
    match spec_decode_base64(p.json_representation_base64@, "transaction JSON representation"@) {
        Err(e) => r matches Err(x) && x@ == e,
        Ok(json) => r matches Ok((d, a)) && is_transaction_data_of(d, p, json) && is_advanced_info_of(
            a,
            p.advanced_commerce_info,
        ),
    }
}

/// How `Transaction::from_raw_parts` builds a transaction with the given handle.
pub open spec fn transaction_outcome(
    handle: Option<TransactionHandle>,
    p: TransactionPayload,
    r: Result<Transaction, StoreKitError>,
) -> bool {
    match spec_decode_base64(p.json_representation_base64@, "transaction JSON representation"@) {
        Err(e) => r matches Err(x) && x@ == e,
        Ok(json) => r matches Ok(t) && t.spec_handle() == handle && is_transaction_data_of(
            t.spec_data(),
            p,
            json,
        ) && is_advanced_info_of(t.spec_advanced_commerce_info(), p.advanced_commerce_info),
    }
}

impl TransactionPayload {
    /// Converts the bridge's transaction object into the payload data and the advanced-commerce
    /// metadata.
    pub fn into_transaction_parts(self) -> (r: Result<
        (TransactionData, Option<TransactionAdvancedCommerceInfo>),
        StoreKitError,
    >)
        ensures
            transaction_parts_outcome(self, r),
    {
        let advanced_commerce_info = match self.advanced_commerce_info {
            Some(info) => Some(info.into_transaction_advanced_commerce_info()),
            None => None,
        };
        let json_representation = decode_base64(
            self.json_representation_base64.as_str(),
            "transaction JSON representation",
        )?;
        let verification_failure = match self.verification_error {
            Some(e) => Some(VerificationFailure::from_payload(e)),
            None => None,
        };
        let revocation_reason = match self.revocation_reason {
            Some(x) => Some(RevocationReason::from_raw(x)),
            None => None,
        };
        let product_type = match self.product_type {
            Some(x) => Some(ProductType::from_raw(x)),
            None => None,
        };
        let environment = match self.environment {
            Some(x) => Some(AppStoreEnvironment::from_raw(x)),
            None => None,
        };
        let reason = match self.reason {
            Some(x) => Some(TransactionReason::from_raw(x)),
            None => None,
        };
        let storefront = match self.storefront {
            Some(x) => Some(x.into_storefront()),
            None => None,
        };
        let offer = match self.offer {
            Some(x) => Some(x.into_transaction_offer()),
            None => None,
        };
        Ok(
            (
                TransactionData {
                    id: self.id,
                    original_id: self.original_id,
                    web_order_line_item_id: self.web_order_line_item_id,
                    product_id: self.product_id,
                    subscription_group_id: self.subscription_group_id,
                    app_bundle_id: self.app_bundle_id,
                    purchase_date: self.purchase_date,
                    original_purchase_date: self.original_purchase_date,
                    expiration_date: self.expiration_date,
                    purchased_quantity: self.purchased_quantity,
                    is_upgraded: self.is_upgraded,
                    ownership_type: OwnershipType::from_raw(self.ownership_type),
                    signed_date: self.signed_date,
                    jws_representation: self.jws_representation,
                    verification_failure,
                    revocation_date: self.revocation_date,
                    revocation_reason,
                    product_type,
                    app_account_token: self.app_account_token,
                    environment,
                    reason,
                    storefront,
                    price: self.price,
                    currency_code: self.currency_code,
                    app_transaction_id: self.app_transaction_id,
                    offer,
                    json_representation,
                },
                advanced_commerce_info,
            ),
        )
    }
}


/// An optional value read from optional raw text keeps that text: both are absent, or the
/// value's raw text is the text.
pub open spec fn keeps_optional_text<T: View<V = Seq<char>>>(value: Option<T>, raw: Option<String>) -> bool {
    match (value, raw) {
        (Some(v), Some(t)) => v@ == t@,
        (None, None) => true,
        _ => false,
    }
}

/// A period read from a period object keeps its unit's raw text and its count.
pub open spec fn keeps_period(period: SubscriptionPeriod, p: SubscriptionPeriodPayload) -> bool {
    period.unit@ == p.unit@ && period.value == p.value
}

/// An offer read from an offer object keeps each of its fields.
pub open spec fn keeps_offer(offer: TransactionOffer, p: TransactionOfferPayload) -> bool {
    &&& offer.id == p.id
    &&& offer.offer_type@ == p.offer_type@
    &&& keeps_optional_text(offer.payment_mode, p.payment_mode)
    &&& match (offer.period, p.period) {
        (Some(x), Some(y)) => keeps_period(x, y),
        (None, None) => true,
        _ => false,
    }
}

/// `d` carries each field of the transaction object `p` over unchanged: the same identifiers,
/// dates, prices, flags and tokens, each enumeration with the raw text it was read from, the
/// verification failure with the code and description of the error object, the storefront and
/// offer field by field, and the JSON representation as the Base64 decoding of its field.
pub open spec fn carries_transaction_fields(d: TransactionData, p: TransactionPayload) -> bool {
    &&& d.id == p.id
    &&& d.original_id == p.original_id
    &&& d.web_order_line_item_id == p.web_order_line_item_id
    &&& d.product_id == p.product_id
    &&& d.subscription_group_id == p.subscription_group_id
    &&& d.app_bundle_id == p.app_bundle_id
    &&& d.purchase_date == p.purchase_date
    &&& d.original_purchase_date == p.original_purchase_date
    &&& d.expiration_date == p.expiration_date
    &&& d.purchased_quantity == p.purchased_quantity
    &&& d.is_upgraded == p.is_upgraded
    &&& d.ownership_type@ == p.ownership_type@
    &&& d.signed_date == p.signed_date
    &&& d.jws_representation == p.jws_representation
    &&& match (d.verification_failure, p.verification_error) {
        (Some(f), Some(e)) => f.code@ == e.code@ && f.localized_description
            == e.localized_description,
        (None, None) => true,
        _ => false,
    }
    &&& d.revocation_date == p.revocation_date
    &&& keeps_optional_text(d.revocation_reason, p.revocation_reason)
    &&& keeps_optional_text(d.product_type, p.product_type)
    &&& d.app_account_token == p.app_account_token
    &&& keeps_optional_text(d.environment, p.environment)
    &&& keeps_optional_text(d.reason, p.reason)
    &&& match (d.storefront, p.storefront) {
        (Some(s), Some(q)) => s.country_code == q.country_code && s.id == q.id && s.currency_code
            == q.currency_code,
        (None, None) => true,
        _ => false,
    }
    &&& d.price == p.price
    &&& d.currency_code == p.currency_code
    &&& d.app_transaction_id == p.app_transaction_id
    &&& match (d.offer, p.offer) {
        (Some(o), Some(q)) => keeps_offer(o, q),
        (None, None) => true,
        _ => false,
    }
    &&& base64_standard(p.json_representation_base64@) == Ok::<Seq<u8>, Seq<char>>(
        d.json_representation@,
    )
}

/// Converting a transaction object succeeds exactly when its JSON representation is valid
/// Base64, and the transaction then carries every field of the object over unchanged, keeps the
/// handle it was given and has advanced-commerce metadata exactly when the object has.
pub proof fn transactions_carry_every_field(
    handle: Option<TransactionHandle>,
    p: TransactionPayload,
    r: Result<Transaction, StoreKitError>,
)
    requires
        transaction_outcome(handle, p, r),
    ensures
        r is Ok <==> base64_standard(p.json_representation_base64@) is Ok,
        r matches Ok(t) ==> carries_transaction_fields(t.spec_data(), p),
        r matches Ok(t) ==> t.spec_handle() == handle,
        r matches Ok(t) ==> (t.spec_advanced_commerce_info() is Some
            <==> p.advanced_commerce_info is Some),
{
    lemma_transaction_data_carries_fields(p);
}

/// The parts of a converted transaction object carry every field of it over unchanged.
pub proof fn transaction_parts_carry_every_field(
    p: TransactionPayload,
    r: Result<(TransactionData, Option<TransactionAdvancedCommerceInfo>), StoreKitError>,
)
    requires
        transaction_parts_outcome(p, r),
    ensures
        r is Ok <==> base64_standard(p.json_representation_base64@) is Ok,
        r matches Ok((d, a)) ==> carries_transaction_fields(d, p) && (a is Some
            <==> p.advanced_commerce_info is Some),
{
    lemma_transaction_data_carries_fields(p);
}

proof fn lemma_transaction_data_carries_fields(p: TransactionPayload)
    ensures
        forall|d: TransactionData, json: Seq<u8>|
            #![trigger is_transaction_data_of(d, p, json)]
            is_transaction_data_of(d, p, json) && base64_standard(p.json_representation_base64@)
                == Ok::<Seq<u8>, Seq<char>>(json) ==> carries_transaction_fields(d, p),
{
    assert forall|d: TransactionData, json: Seq<u8>|
        #![trigger is_transaction_data_of(d, p, json)]
        is_transaction_data_of(d, p, json) && base64_standard(p.json_representation_base64@) == Ok::<
            Seq<u8>,
            Seq<char>,
        >(json) implies carries_transaction_fields(d, p) by {
        match p.verification_error {
            Some(e) => {
                VerificationErrorCode::raw_text_round_trip(e.code);
            },
            None => {},
        }
        match p.revocation_reason {
            Some(x) => { RevocationReason::raw_text_round_trip(x); },
            None => {},
        }
        match p.product_type {
            Some(x) => { ProductType::raw_text_round_trip(x); },
            None => {},
        }
        match p.environment {
            Some(x) => { AppStoreEnvironment::raw_text_round_trip(x); },
            None => {},
        }
        match p.reason {
            Some(x) => { TransactionReason::raw_text_round_trip(x); },
            None => {},
        }
        OwnershipType::raw_text_round_trip(p.ownership_type);
        match p.offer {
            Some(o) => {
                OfferType::raw_text_round_trip(o.offer_type);
                match o.payment_mode {
                    Some(m) => { OfferPaymentMode::raw_text_round_trip(m); },
                    None => {},
                }
                match o.period {
                    Some(x) => { crate::subscription::SubscriptionPeriodUnit::raw_text_round_trip(x.unit); },
                    None => {},
                }
            },
            None => {},
        }
    }
}

} // verus!
