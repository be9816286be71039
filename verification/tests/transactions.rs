use storekit::error::VerificationErrorPayload;
use storekit::purchase_option::PurchaseResultPayload;
use storekit::storefront::StorefrontPayload;
use storekit::transaction::{TransactionOfferPayload, TransactionPayload, TransactionStreamConfig};
use storekit::verification_result::{finish, VerificationMetadataPayload, VerificationResultPayload};
use storekit::{
    AppStoreEnvironment, OfferPaymentMode, OfferType, OwnershipType, ProductType, PurchaseResult,
    StoreKitError, Transaction, TransactionHandle, TransactionReason, VerificationErrorCode,
    VerificationResult,
};

fn transaction_payload(product_id: &str) -> TransactionPayload {
    TransactionPayload {
        id: 1001,
        original_id: 1000,
        web_order_line_item_id: None,
        product_id: product_id.to_owned(),
        subscription_group_id: Some("group-1".to_owned()),
        app_bundle_id: "com.example.app".to_owned(),
        purchase_date: "2024-01-01T00:00:00Z".to_owned(),
        original_purchase_date: "2023-12-01T00:00:00Z".to_owned(),
        expiration_date: None,
        purchased_quantity: 1,
        is_upgraded: false,
        ownership_type: "purchased".to_owned(),
        signed_date: "2024-01-01T00:00:01Z".to_owned(),
        jws_representation: "a.b.c".to_owned(),
        verification_error: None,
        revocation_date: None,
        revocation_reason: None,
        product_type: Some("autoRenewable".to_owned()),
        app_account_token: None,
        environment: Some("sandbox".to_owned()),
        reason: Some("renewal".to_owned()),
        storefront: Some(StorefrontPayload {
            country_code: "USA".to_owned(),
            id: "143441".to_owned(),
            currency_code: Some("USD".to_owned()),
        }),
        price: Some("9.99".to_owned()),
        currency_code: Some("USD".to_owned()),
        app_transaction_id: None,
        offer: Some(TransactionOfferPayload {
            id: Some("promo".to_owned()),
            offer_type: "promotional".to_owned(),
            payment_mode: Some("freeTrial".to_owned()),
            period: None,
        }),
        advanced_commerce_info: None,
        json_representation_base64: "e30=".to_owned(),
    }
}

fn metadata_payload() -> VerificationMetadataPayload {
    VerificationMetadataPayload {
        jws_representation: "a.b.c".to_owned(),
        header_data_base64: "aGk=".to_owned(),
        payload_data_base64: "".to_owned(),
        signature_data_base64: "AAE=".to_owned(),
        signed_data_base64: "".to_owned(),
        signed_date: "2024-01-01T00:00:01Z".to_owned(),
        device_verification_base64: "".to_owned(),
        device_verification_nonce: "nonce".to_owned(),
    }
}

fn verification_error() -> VerificationErrorPayload {
    VerificationErrorPayload {
        kind: "verification".to_owned(),
        code: "invalidSignature".to_owned(),
        localized_description: "bad signature".to_owned(),
    }
}

#[test]
fn transaction_payload_converts_every_field() {
    let transaction = Transaction::from_snapshot_payload(transaction_payload("pro.monthly"))
        .expect("valid payload");
    let data = transaction.data();
    assert_eq!(data.id, 1001);
    assert_eq!(data.original_id, 1000);
    assert_eq!(data.product_id, "pro.monthly");
    assert_eq!(data.ownership_type, OwnershipType::Purchased);
    assert_eq!(data.product_type, Some(ProductType::AutoRenewable));
    assert_eq!(data.environment, Some(AppStoreEnvironment::Sandbox));
    assert_eq!(data.reason, Some(TransactionReason::Renewal));
    assert_eq!(data.json_representation, b"{}".to_vec());
    let storefront = data.storefront.as_ref().expect("storefront");
    assert_eq!(storefront.country_code, "USA");
    let offer = data.offer.as_ref().expect("offer");
    assert_eq!(offer.offer_type, OfferType::Promotional);
    assert_eq!(offer.payment_mode, Some(OfferPaymentMode::FreeTrial));
    assert!(!transaction.has_live_handle());
    assert!(transaction.advanced_commerce_info().is_none());
}

#[test]
fn transaction_with_bad_json_representation_is_rejected() {
    let mut payload = transaction_payload("pro.monthly");
    payload.json_representation_base64 = "%%%".to_owned();
    let error = Transaction::from_snapshot_payload(payload).expect_err("not base64");
    assert!(matches!(&error, StoreKitError::InvalidArgument(_)));
    assert_eq!(
        error.to_string(),
        "invalid base64 in transaction JSON representation: Invalid symbol 37, offset 0."
    );
}

#[test]
fn snapshots_cannot_be_finished() {
    let transaction = Transaction::from_snapshot_payload(transaction_payload("pro")).unwrap();
    let error = transaction.finish_request().expect_err("snapshot");
    assert!(matches!(error, StoreKitError::NotSupported(_)));
    assert!(matches!(transaction.verification_request(), Ok(None)));
}

#[test]
fn live_transactions_can_be_finished() {
    let handle = TransactionHandle::from_raw(0x1234).expect("non-null handle");
    assert_eq!(handle.raw(), 0x1234);
    let transaction =
        Transaction::from_raw_parts(Some(handle), transaction_payload("pro")).expect("valid");
    assert!(transaction.has_live_handle());
    assert_eq!(transaction.handle(), Some(handle));
    assert_eq!(transaction.finish_request().expect("finishable").raw(), 0x1234);
    assert_eq!(transaction.verification_request().expect("verifiable"), Some(handle));
}

#[test]
fn unverified_transactions_are_not_finished() {
    let handle = TransactionHandle::from_raw(7).unwrap();
    let mut payload = transaction_payload("pro");
    payload.verification_error = Some(verification_error());
    let transaction = Transaction::from_raw_parts(Some(handle), payload).unwrap();
    match transaction.finish_request() {
        Err(StoreKitError::Verification(failure)) => {
            assert_eq!(failure.code, VerificationErrorCode::InvalidSignature)
        }
        other => panic!("expected a verification error, got {other:?}"),
    }
}

#[test]
fn unverified_snapshots_fail_verification() {
    let mut payload = transaction_payload("pro");
    payload.verification_error = Some(verification_error());
    let transaction = Transaction::from_snapshot_payload(payload).unwrap();
    assert!(matches!(transaction.verification_request(), Err(StoreKitError::Verification(_))));
}

#[test]
fn null_handles_are_refused() {
    assert!(TransactionHandle::from_raw(0).is_none());
}

#[test]
fn verified_results_give_their_payload() {
    let result = finish("verified".to_owned(), Ok(5u32), metadata_payload(), None).expect("ok");
    assert!(result.is_verified());
    assert_eq!(result.payload_value().ok(), Some(&5));
    assert_eq!(*result.unverified_payload(), 5);
    assert!(result.verification_failure().is_none());
    let metadata = result.metadata();
    assert_eq!(metadata.header_data, b"hi".to_vec());
    assert_eq!(metadata.signature_data, vec![0u8, 1u8]);
    assert_eq!(metadata.jws_representation(), "a.b.c");
    assert_eq!(result.jws_representation(), "a.b.c");
    assert_eq!(result.into_payload_value().ok(), Some(5));
}

#[test]
fn unverified_results_refuse_their_payload() {
    let result =
        finish("unverified".to_owned(), Ok(5u32), metadata_payload(), Some(verification_error()))
            .expect("ok");
    assert!(!result.is_verified());
    match result.payload_value() {
        Err(StoreKitError::Verification(failure)) => {
            assert_eq!(failure.code, VerificationErrorCode::InvalidSignature);
            assert_eq!(failure.localized_description, "bad signature");
        }
        other => panic!("expected a verification error, got {other:?}"),
    }
    assert_eq!(*result.payload(), 5);
    assert!(result.verification_failure().is_some());
    let (payload, _metadata, failure) = result.clone().into_parts();
    assert_eq!(payload, 5);
    assert!(failure.is_some());
    assert_eq!(result.clone().into_unverified_payload(), 5);
    assert!(matches!(result.into_payload_value(), Err(StoreKitError::Verification(_))));
}

#[test]
fn unverified_results_need_a_verification_error() {
    let error = finish("unverified".to_owned(), Ok(1u8), metadata_payload(), None).unwrap_err();
    assert_eq!(
        error.to_string(),
        "StoreKit returned an unverified result without a verification error"
    );
}

#[test]
fn unknown_result_kinds_are_refused() {
    let error = finish("maybe".to_owned(), Ok(1u8), metadata_payload(), None).unwrap_err();
    assert_eq!(error.to_string(), "StoreKit returned an unknown verification result kind 'maybe'");
}

#[test]
fn bad_metadata_is_refused() {
    let mut metadata = metadata_payload();
    metadata.signed_data_base64 = "a".to_owned();
    let error = finish("verified".to_owned(), Ok(1u8), metadata, None).unwrap_err();
    assert_eq!(
        error.to_string(),
        "invalid base64 in verification signed data: Invalid input length: 1"
    );
}

#[test]
fn payload_errors_come_first() {
    let error = finish::<u8>(
        "verified".to_owned(),
        Err(StoreKitError::Unknown("payload failed".to_owned())),
        metadata_payload(),
        None,
    )
    .unwrap_err();
    assert_eq!(error.to_string(), "payload failed");
}

#[test]
fn verification_result_payload_maps_its_payload() {
    let payload = VerificationResultPayload {
        kind: "verified".to_owned(),
        payload: 20u32,
        metadata: metadata_payload(),
        verification_error: None,
    };
    let result = payload.into_result(|n| Ok(n + 1)).expect("ok");
    assert!(matches!(result, VerificationResult::Verified { payload: 21, .. }));
}

#[test]
fn purchase_results_are_converted() {
    let cancelled = PurchaseResultPayload { kind: "userCancelled".to_owned(), verification_result: None };
    assert!(matches!(cancelled.into_purchase_result(None), Ok(PurchaseResult::UserCancelled)));
    let pending = PurchaseResultPayload { kind: "pending".to_owned(), verification_result: None };
    assert!(matches!(pending.into_purchase_result(None), Ok(PurchaseResult::Pending)));
    let odd = PurchaseResultPayload { kind: "odd".to_owned(), verification_result: None };
    assert_eq!(
        odd.into_purchase_result(None).unwrap_err().to_string(),
        "StoreKit returned an unknown purchase result kind 'odd'"
    );
    let empty = PurchaseResultPayload { kind: "success".to_owned(), verification_result: None };
    assert_eq!(
        empty.into_purchase_result(None).unwrap_err().to_string(),
        "StoreKit reported a successful purchase without a verification result"
    );
    let handle = TransactionHandle::from_raw(99).unwrap();
    let success = PurchaseResultPayload {
        kind: "success".to_owned(),
        verification_result: Some(VerificationResultPayload {
            kind: "verified".to_owned(),
            payload: transaction_payload("pro"),
            metadata: metadata_payload(),
            verification_error: None,
        }),
    };
    match success.into_purchase_result(Some(handle)) {
        Ok(PurchaseResult::Success(result)) => {
            assert!(result.is_verified());
            assert_eq!(result.payload().handle(), Some(handle));
            assert_eq!(result.payload().data().product_id, "pro");
        }
        other => panic!("expected a successful purchase, got {other:?}"),
    }
}

#[test]
fn transaction_stream_configs_name_their_kind() {
    assert_eq!(TransactionStreamConfig::all().kind, "all");
    assert_eq!(TransactionStreamConfig::current_entitlements().kind, "currentEntitlements");
    assert_eq!(TransactionStreamConfig::updates().kind, "updates");
    assert_eq!(TransactionStreamConfig::unfinished().kind, "unfinished");
    let filtered = TransactionStreamConfig::all_for("pro");
    assert_eq!(filtered.kind, "allFor");
    assert_eq!(filtered.product_id.as_deref(), Some("pro"));
    let entitled = TransactionStreamConfig::current_entitlements_for("pro");
    assert_eq!(entitled.kind, "currentEntitlementsFor");
    assert_eq!(entitled.product_id.as_deref(), Some("pro"));
}

#[test]
fn transactions_of_unverified_results_are_not_finished() {
    let handle = TransactionHandle::from_raw(41).unwrap();
    let payload = VerificationResultPayload {
        kind: "unverified".to_owned(),
        payload: transaction_payload("pro"),
        metadata: metadata_payload(),
        verification_error: Some(verification_error()),
    };
    let result = payload.into_transaction_result(Some(handle)).expect("converts");
    assert!(!result.is_verified());
    let transaction = result.payload();
    assert_eq!(transaction.handle(), Some(handle));
    match transaction.finish_request() {
        Err(StoreKitError::Verification(failure)) => {
            assert_eq!(failure.code, VerificationErrorCode::InvalidSignature)
        }
        other => panic!("expected a verification error, got {other:?}"),
    }
}

#[test]
fn transactions_of_verified_results_stay_finishable() {
    let handle = TransactionHandle::from_raw(42).unwrap();
    let payload = VerificationResultPayload {
        kind: "verified".to_owned(),
        payload: transaction_payload("pro"),
        metadata: metadata_payload(),
        verification_error: None,
    };
    let result = payload.into_transaction_result(Some(handle)).expect("converts");
    assert!(result.is_verified());
    assert_eq!(result.payload().finish_request().expect("finishable").raw(), 42);
}

#[test]
fn unverified_purchases_keep_the_result_failure_on_the_transaction() {
    let success = PurchaseResultPayload {
        kind: "success".to_owned(),
        verification_result: Some(VerificationResultPayload {
            kind: "unverified".to_owned(),
            payload: transaction_payload("pro"),
            metadata: metadata_payload(),
            verification_error: Some(verification_error()),
        }),
    };
    match success.into_purchase_result(TransactionHandle::from_raw(43)) {
        Ok(PurchaseResult::Success(result)) => {
            assert_eq!(
                result.payload().data().verification_failure.as_ref().map(|f| f.code.clone()),
                Some(VerificationErrorCode::InvalidSignature)
            );
            assert!(result.payload().finish_request().is_err());
        }
        other => panic!("expected a successful purchase, got {other:?}"),
    }
}
