//! Common imports.

pub use crate::advanced_commerce::{
    AdvancedCommerceProduct, AdvancedCommercePurchaseOption, AppStoreMerchandisingKind,
    AppStoreMerchandisingPresentationResult, RenewalInfoAdvancedCommerceInfo,
    RenewalInfoAdvancedCommerceItem, RenewalInfoAdvancedCommercePriceIncreaseInfo,
    RenewalInfoAdvancedCommercePriceIncreaseStatus, TransactionAdvancedCommerceInfo,
    TransactionAdvancedCommerceItem, TransactionAdvancedCommerceItemDetails,
    TransactionAdvancedCommerceOffer, TransactionAdvancedCommerceOfferReason,
    TransactionAdvancedCommerceRefund, TransactionAdvancedCommerceRefundReason,
    TransactionAdvancedCommerceRefundType,
};
pub use crate::app_store::{AppStore, AppStoreEnvironment, AppStorePlatform};
pub use crate::app_transaction::AppTransaction;
pub use crate::error::{
    StoreKitError, StoreKitFrameworkError, VerificationErrorCode, VerificationFailure,
};
pub use crate::external_purchase::{
    ExternalPurchase, ExternalPurchaseCustomLink, ExternalPurchaseCustomLinkNoticeResult,
    ExternalPurchaseCustomLinkNoticeType, ExternalPurchaseCustomLinkToken, ExternalPurchaseLink,
    ExternalPurchaseNoticeResult,
};
pub use crate::message::{Message, MessageReason, MessageStream};
pub use crate::product::{Product, ProductType};
pub use crate::product_helpers::ProductFormatting;
pub use crate::purchase_intent::PurchaseIntent;
pub use crate::purchase_option::PurchaseResult;
pub use crate::receipt_validator::{AppReceipt, ReceiptValidator};
pub use crate::refund::{Refund, RefundRequestStatus};
pub use crate::renewal_info::{ExpirationReason, PriceIncreaseStatus, RenewalInfo};
pub use crate::renewal_state::RenewalState;
pub use crate::store_context::StoreContext;
pub use crate::storefront::Storefront;
pub use crate::subscription::{
    SubscriptionOffer, SubscriptionOfferType, SubscriptionPaymentMode, SubscriptionPeriod,
    SubscriptionPeriodUnit,
};
pub use crate::subscription_info::{
    BillingPlanType, SubscriptionCommitmentInfo, SubscriptionInfo, SubscriptionPricingTerms,
    SubscriptionStatus,
};
pub use crate::subscription_status_stream::SubscriptionGroupStatuses;
pub use crate::transaction::{
    OfferPaymentMode, OfferType, OwnershipType, RevocationReason, Transaction, TransactionData,
    TransactionHandle, TransactionOffer, TransactionReason,
};
pub use crate::verification_result::{VerificationMetadata, VerificationResult};
