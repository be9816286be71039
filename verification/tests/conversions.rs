use storekit::advanced_commerce::{
    renewal_advanced_commerce_info_from_signed, transaction_advanced_commerce_info_from_signed,
    AdvancedCommerceProductPayload, AppStoreMerchandisingPresentationResultPayload,
    TransactionSignedPayload,
};
use storekit::app_transaction::AppTransactionPayload;
use storekit::bridge::{reply_json, reply_result, BridgeReply};
use storekit::external_purchase::{ExternalPurchaseCustomLinkTokenPayload, ExternalPurchaseNoticeResultPayload};
use storekit::private::{decode_base64, decode_base64_urlsafe, duration_to_timeout_ms};
use storekit::product::{into_products, ProductPayload};
use storekit::product_helpers::{localized_description_from_bridge, ProductFormattingPayload};
use storekit::receipt_validator::{jws_payload_segment, AppReceiptPayload};
use storekit::status;
use storekit::store_context::StoreContextPayload;
use storekit::storefront::{into_optional_storefront, StorefrontPayload};
use storekit::text::{i64_to_decimal, u64_to_decimal};
use storekit::{
    AdvancedCommerceProduct, AppStore, AppStoreEnvironment, AppStoreMerchandisingKind,
    AppStoreMerchandisingPresentationResult, AppStorePlatform, ExternalPurchaseCustomLinkNoticeResult,
    ExternalPurchaseCustomLinkNoticeType, ExternalPurchaseNoticeResult, ProductType, ReceiptValidator,
    Refund, RefundRequestStatus, StoreKitError, TransactionHandle,
};

#[test]
fn decimal_text_of_integers() {
    assert_eq!(u64_to_decimal(0), "0");
    assert_eq!(u64_to_decimal(1907), "1907");
    assert_eq!(u64_to_decimal(u64::MAX), "18446744073709551615");
    assert_eq!(i64_to_decimal(-42), "-42");
    assert_eq!(i64_to_decimal(i64::MIN), "-9223372036854775808");
}

#[test]
fn timeouts_saturate_at_u32_max() {
    assert_eq!(duration_to_timeout_ms(0), 0);
    assert_eq!(duration_to_timeout_ms(1_500), 1_500);
    assert_eq!(duration_to_timeout_ms(u32::MAX as u128), u32::MAX);
    assert_eq!(duration_to_timeout_ms(u32::MAX as u128 + 1), u32::MAX);
}

#[test]
fn base64_payloads_decode() {
    assert_eq!(decode_base64("aGk=", "value").expect("valid"), b"hi".to_vec());
    assert_eq!(decode_base64("", "value").expect("valid"), Vec::<u8>::new());
    assert_eq!(
        decode_base64("aGk", "receipt").unwrap_err().to_string(),
        "invalid base64 in receipt: Invalid padding"
    );
    assert_eq!(decode_base64_urlsafe("_-8", "payload").expect("valid"), vec![0xff, 0xef]);
    assert_eq!(
        decode_base64_urlsafe("aGk=", "JWS payload").unwrap_err().to_string(),
        "invalid base64url payload in JWS payload: Invalid padding"
    );
}

#[test]
fn jws_payload_segments() {
    assert_eq!(jws_payload_segment("head.body.sig").expect("three segments"), "body");
    assert_eq!(jws_payload_segment("..").expect("three empty segments"), "");
    assert_eq!(
        jws_payload_segment("head").unwrap_err().to_string(),
        "JWS is missing a payload segment"
    );
    assert_eq!(
        jws_payload_segment("head.body").unwrap_err().to_string(),
        "JWS is missing a signature segment"
    );
    assert_eq!(
        jws_payload_segment("a.b.c.d").unwrap_err().to_string(),
        "JWS contains too many segments"
    );
}

#[test]
fn unverified_jws_payloads_are_decoded() {
    let value = ReceiptValidator::extract_unverified_payload("eyJhbGciOiJub25lIn0.eyJhIjoxfQ.sig")
        .expect("a decodable payload");
    assert_eq!(value.get("a").and_then(|a| a.as_i64()), Some(1));
    let error = ReceiptValidator::extract_unverified_payload("x.bm90IGpzb24.y").unwrap_err();
    assert!(error.to_string().starts_with("failed to decode JWS payload JSON: "));
    let error = ReceiptValidator::extract_unverified_payload("x.@.y").unwrap_err();
    assert!(error.to_string().starts_with("invalid base64url payload in JWS payload: "));
}

#[test]
fn receipts_from_the_bridge() {
    assert!(matches!(ReceiptValidator::receipt_from_bridge(None), Ok(None)));
    let receipt = ReceiptValidator::receipt_from_bridge(Some(AppReceiptPayload {
        path: "/tmp/receipt".to_owned(),
        data_base64: "AQID".to_owned(),
    }))
    .expect("valid")
    .expect("present");
    assert_eq!(receipt.path, "/tmp/receipt");
    assert_eq!(receipt.data, vec![1, 2, 3]);
    let error = ReceiptValidator::receipt_from_bridge(Some(AppReceiptPayload {
        path: "/tmp/receipt".to_owned(),
        data_base64: "A".to_owned(),
    }))
    .unwrap_err();
    assert_eq!(error.to_string(), "invalid base64 in receipt data: Invalid input length: 1");
}

fn reply(status: i32, json: Option<&str>) -> BridgeReply {
    BridgeReply {
        status,
        json: json.map(str::to_owned),
        transaction: None,
        error: Some("bridge said no".to_owned()),
        framework_error: None,
        verification_error: None,
    }
}

#[test]
fn bridge_replies_are_checked() {
    let (json, transaction) = reply_result(Ok(reply(status::OK, Some("{}")))).expect("ok");
    assert_eq!(json.as_deref(), Some("{}"));
    assert!(transaction.is_none());
    assert!(matches!(
        reply_result(Ok(reply(status::INVALID_ARGUMENT, None))),
        Err(StoreKitError::InvalidArgument(m)) if m == "bridge said no"
    ));
    assert!(matches!(
        reply_result(Err("callback dropped".to_owned())),
        Err(StoreKitError::Unknown(m)) if m == "callback dropped"
    ));
    assert_eq!(reply_json(Some("[]".to_owned()), "products").expect("present"), "[]");
    assert_eq!(
        reply_json(None, "products").unwrap_err().to_string(),
        "missing JSON payload for products"
    );
}

#[test]
fn storefronts_are_converted() {
    let storefront = into_optional_storefront(Some(StorefrontPayload {
        country_code: "USA".to_owned(),
        id: "143441".to_owned(),
        currency_code: Some("USD".to_owned()),
    }))
    .expect("present");
    assert_eq!(storefront.country_code, "USA");
    assert_eq!(storefront.id, "143441");
    assert_eq!(storefront.currency_code.as_deref(), Some("USD"));
    assert!(into_optional_storefront(None).is_none());
}

#[test]
fn refund_statuses_from_the_bridge() {
    assert_eq!(
        Refund::status_from_bridge(Some("success".to_owned())).expect("ok"),
        RefundRequestStatus::Success
    );
    assert_eq!(
        Refund::status_from_bridge(Some("userCancelled".to_owned())).expect("ok"),
        RefundRequestStatus::UserCancelled
    );
    assert_eq!(
        Refund::status_from_bridge(Some("later".to_owned())).expect("ok"),
        RefundRequestStatus::Unknown("later".into())
    );
    assert_eq!(
        Refund::status_from_bridge(None).unwrap_err().to_string(),
        "missing refund status payload"
    );
}

#[test]
fn age_ratings_from_the_bridge() {
    assert_eq!(AppStore::age_rating_from_bridge(12, 1), Some(12));
    assert_eq!(AppStore::age_rating_from_bridge(12, 0), None);
}

#[test]
fn custom_link_notice_types_fit_the_bridge() {
    assert_eq!(ExternalPurchaseCustomLinkNoticeType::WithinApp.as_raw(), 0);
    assert_eq!(ExternalPurchaseCustomLinkNoticeType::Browser.as_raw(), 1);
    assert_eq!(ExternalPurchaseCustomLinkNoticeType::Browser.bridge_code().expect("fits"), 1);
    assert_eq!(ExternalPurchaseCustomLinkNoticeType::Unknown(-3).bridge_code().expect("fits"), -3);
    assert_eq!(
        ExternalPurchaseCustomLinkNoticeType::Unknown(5_000_000_000).bridge_code().unwrap_err().to_string(),
        "external purchase custom link notice type '5000000000' does not fit in i32"
    );
}

#[test]
fn external_purchase_results_are_converted() {
    let result = ExternalPurchaseCustomLinkNoticeResult::from_raw("continued".to_owned());
    assert_eq!(result.as_str(), "continued");
    let token = ExternalPurchaseCustomLinkTokenPayload { value: "tok".to_owned() }.into_token();
    assert_eq!(token.value, "tok");
    let notice = |kind: &str, token: Option<&str>| ExternalPurchaseNoticeResultPayload {
        kind: kind.to_owned(),
        token: token.map(str::to_owned),
    }
    .into_notice_result();
    assert_eq!(notice("continued", None), ExternalPurchaseNoticeResult::Continued);
    assert_eq!(notice("cancelled", Some("x")), ExternalPurchaseNoticeResult::Cancelled);
    assert_eq!(
        notice("continuedWithExternalPurchaseToken", Some("tok-1")),
        ExternalPurchaseNoticeResult::ContinuedWithExternalPurchaseToken { token: "tok-1".to_owned() }
    );
    assert_eq!(
        notice("continuedWithExternalPurchaseToken", None),
        ExternalPurchaseNoticeResult::ContinuedWithExternalPurchaseToken { token: String::new() }
    );
    assert_eq!(notice("declined", None), ExternalPurchaseNoticeResult::Unknown("declined".into()));
    assert_eq!(notice("declined", None).as_str(), "declined");
}

#[test]
fn localized_descriptions_need_a_payload() {
    assert_eq!(localized_description_from_bridge(Some("Monthly".to_owned())).expect("ok"), "Monthly");
    assert_eq!(
        localized_description_from_bridge(None).unwrap_err().to_string(),
        "missing localized description payload"
    );
    assert_eq!(ProductType::Consumable.localized_description_key(), ("productType", "consumable"));
}

#[test]
fn product_formatting_is_converted() {
    let formatting = ProductFormattingPayload {
        price: "$9.99".to_owned(),
        subscription_period: Some("1 month".to_owned()),
        subscription_period_unit: None,
    }
    .into_product_formatting();
    assert_eq!(formatting.formatted_price, "$9.99");
    assert_eq!(formatting.formatted_subscription_period.as_deref(), Some("1 month"));
    assert_eq!(formatting.formatted_subscription_period_unit, None);
}

#[test]
fn products_keep_their_order() {
    let product = |id: &str, kind: &str| ProductPayload {
        id: id.to_owned(),
        display_name: format!("{id} name"),
        description: String::new(),
        price: "1.00".to_owned(),
        display_price: "$1.00".to_owned(),
        product_type: kind.to_owned(),
        subscription: None,
    };
    let products = into_products(vec![product("a", "consumable"), product("b", "nonRenewing"), product("c", "bundle")]);
    assert_eq!(products.len(), 3);
    assert_eq!(products[0].id, "a");
    assert_eq!(products[0].product_type, ProductType::Consumable);
    assert_eq!(products[1].product_type, ProductType::NonRenewing);
    assert_eq!(products[2].product_type, ProductType::Unknown("bundle".into()));
    assert_eq!(products[2].display_name, "c name");
}

#[test]
fn advanced_commerce_products_are_converted() {
    let product: AdvancedCommerceProduct = AdvancedCommerceProductPayload {
        id: "ac.pro".to_owned(),
        product_type: "autoRenewable".to_owned(),
    }
    .into_product();
    assert_eq!(product.id, "ac.pro");
    assert_eq!(product.product_type, ProductType::AutoRenewable);
    assert_eq!(
        AppStoreMerchandisingKind::subscription_bundle("group-9".to_owned()),
        AppStoreMerchandisingKind::SubscriptionBundle { group_id: "group-9".to_owned() }
    );
}

#[test]
fn signed_payloads_without_advanced_commerce_info() {
    let info = transaction_advanced_commerce_info_from_signed(Ok(TransactionSignedPayload {
        advanced_commerce_info: None,
    }))
    .expect("ok");
    assert!(info.is_none());
    assert_eq!(
        transaction_advanced_commerce_info_from_signed(Err("EOF while parsing".to_owned()))
            .unwrap_err()
            .to_string(),
        "failed to parse signed transaction payload JSON: EOF while parsing"
    );
    assert_eq!(
        renewal_advanced_commerce_info_from_signed(Err("bad".to_owned())).unwrap_err().to_string(),
        "failed to parse signed renewal payload JSON: bad"
    );
}

#[test]
fn merchandising_results_are_converted() {
    let dismissed = AppStoreMerchandisingPresentationResultPayload {
        kind: "dismissed".to_owned(),
        purchase_result: None,
    };
    assert!(matches!(
        dismissed.into_result(None),
        Ok(AppStoreMerchandisingPresentationResult::Dismissed)
    ));
    let missing = AppStoreMerchandisingPresentationResultPayload {
        kind: "purchaseCompleted".to_owned(),
        purchase_result: None,
    };
    assert_eq!(
        missing.into_result(TransactionHandle::from_raw(3)).unwrap_err().to_string(),
        "App Store merchandising reported a purchase completion without a purchase result"
    );
    let odd = AppStoreMerchandisingPresentationResultPayload {
        kind: "other".to_owned(),
        purchase_result: None,
    };
    assert_eq!(
        odd.into_result(None).unwrap_err().to_string(),
        "unknown App Store merchandising presentation result kind 'other'"
    );
}

#[test]
fn app_transactions_are_converted() {
    let payload = AppTransactionPayload {
        app_id: Some(42),
        app_transaction_id: "at-1".to_owned(),
        app_version: "2.0".to_owned(),
        app_version_id: None,
        bundle_id: "com.example.app".to_owned(),
        environment: "production".to_owned(),
        original_app_version: "1.0".to_owned(),
        original_purchase_date: "2020-01-01".to_owned(),
        original_platform: Some("macOS".to_owned()),
        preorder_date: None,
        json_representation_base64: "e30=".to_owned(),
    };
    let app_transaction = payload.into_app_transaction().expect("valid");
    assert_eq!(app_transaction.app_id, Some(42));
    assert_eq!(app_transaction.environment, AppStoreEnvironment::Production);
    assert_eq!(app_transaction.original_platform, Some(AppStorePlatform::MacOS));
    assert_eq!(app_transaction.json_representation, b"{}".to_vec());
}

#[test]
fn store_contexts_are_converted() {
    let context = StoreContextPayload {
        bundle_identifier: Some("com.example.app".to_owned()),
        bundle_name: None,
        bundle_version: Some("3".to_owned()),
        receipt_url: None,
        can_make_payments: true,
        device_verification_id: None,
        is_bundled: false,
        executable_path: Some("/usr/bin/tool".to_owned()),
    }
    .into_store_context();
    assert_eq!(context.bundle_identifier.as_deref(), Some("com.example.app"));
    assert!(context.can_make_payments);
    assert!(!context.is_bundled);
    assert_eq!(context.executable_path.as_deref(), Some("/usr/bin/tool"));
}

#[test]
fn ownership_types_ask_for_their_raw_text() {
    for raw in ["purchased", "familyShared", "gifted"] {
        assert_eq!(
            storekit::OwnershipType::from_raw(raw.to_owned()).localized_description_key(),
            ("ownershipType", raw)
        );
    }
}
