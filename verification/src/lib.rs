//! Safe bindings for Apple's `StoreKit` framework on macOS.
//!
//! This crate holds the value types of `StoreKit`, the conversions of the objects that the
//! `StoreKit` bridge sends, and the decisions taken on them, each with its contract. The calls
//! into the bridge itself live beside it.

pub mod advanced_commerce;
pub mod app_store;
pub mod app_transaction;
pub mod bridge;
pub mod error;
pub mod external_purchase;
pub mod message;
pub mod prelude;
pub mod private;
pub mod product;
pub mod product_helpers;
pub mod purchase_intent;
pub mod purchase_option;
pub mod receipt_validator;
pub mod refund;
pub mod renewal_info;
pub mod renewal_state;
pub mod status;
pub mod store_context;
pub mod storefront;
pub mod stream;
pub mod subscription;
pub mod subscription_info;
pub mod subscription_status_stream;
pub mod text;
pub mod transaction;
pub mod verification_result;

pub use advanced_commerce::{
    AdvancedCommerceProduct, AdvancedCommercePurchaseOption, AppStoreMerchandisingKind,
    AppStoreMerchandisingPresentationResult, RenewalInfoAdvancedCommerceInfo,
    RenewalInfoAdvancedCommerceItem, RenewalInfoAdvancedCommercePriceIncreaseInfo,
    RenewalInfoAdvancedCommercePriceIncreaseStatus, TransactionAdvancedCommerceInfo,
    TransactionAdvancedCommerceItem, TransactionAdvancedCommerceItemDetails,
    TransactionAdvancedCommerceOffer, TransactionAdvancedCommerceOfferReason,
    TransactionAdvancedCommerceRefund, TransactionAdvancedCommerceRefundReason,
    TransactionAdvancedCommerceRefundType,
};
pub use app_store::{AppStore, AppStoreEnvironment, AppStorePlatform};
pub use app_transaction::AppTransaction;
pub use error::{StoreKitError, StoreKitFrameworkError, VerificationErrorCode, VerificationFailure};
pub use external_purchase::{
    ExternalPurchase, ExternalPurchaseCustomLink, ExternalPurchaseCustomLinkNoticeResult,
    ExternalPurchaseCustomLinkNoticeType, ExternalPurchaseCustomLinkToken, ExternalPurchaseLink,
    ExternalPurchaseNoticeResult,
};
pub use message::{Message, MessageReason, MessageStream};
pub use product::{Product, ProductType};
pub use product_helpers::ProductFormatting;
pub use purchase_intent::PurchaseIntent;
pub use purchase_option::PurchaseResult;
pub use receipt_validator::{AppReceipt, ReceiptValidator};
pub use refund::{Refund, RefundRequestStatus};
pub use renewal_info::{ExpirationReason, PriceIncreaseStatus, RenewalInfo};
pub use renewal_state::RenewalState;
pub use store_context::StoreContext;
pub use storefront::Storefront;
pub use subscription::{
    SubscriptionOffer, SubscriptionOfferType, SubscriptionPaymentMode, SubscriptionPeriod,
    SubscriptionPeriodUnit,
};
pub use subscription_info::{
    BillingPlanType, SubscriptionCommitmentInfo, SubscriptionInfo, SubscriptionPricingTerms,
    SubscriptionStatus,
};
pub use subscription_status_stream::SubscriptionGroupStatuses;
pub use transaction::{
    OfferPaymentMode, OfferType, OwnershipType, RevocationReason, Transaction, TransactionData,
    TransactionHandle, TransactionOffer, TransactionReason,
};
pub use verification_result::{VerificationMetadata, VerificationResult};
