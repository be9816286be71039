use storekit::error::VerificationErrorPayload;
use storekit::renewal_info::RenewalInfoPayload;
use storekit::subscription_info::{into_subscription_statuses, SubscriptionStatusPayload};
use storekit::subscription_status_stream::SubscriptionGroupStatusesPayload;
use storekit::transaction::TransactionPayload;
use storekit::verification_result::{VerificationMetadataPayload, VerificationResultPayload};
use storekit::{ExpirationReason, PriceIncreaseStatus, RenewalState, StoreKitError};

fn metadata() -> VerificationMetadataPayload {
    VerificationMetadataPayload {
        jws_representation: "h.p.s".to_owned(),
        header_data_base64: String::new(),
        payload_data_base64: String::new(),
        signature_data_base64: String::new(),
        signed_data_base64: String::new(),
        signed_date: "2024-01-01".to_owned(),
        device_verification_base64: String::new(),
        device_verification_nonce: String::new(),
    }
}

fn transaction(json_base64: &str) -> TransactionPayload {
    TransactionPayload {
        id: 7,
        original_id: 7,
        web_order_line_item_id: None,
        product_id: "pro.yearly".to_owned(),
        subscription_group_id: Some("group".to_owned()),
        app_bundle_id: "com.example".to_owned(),
        purchase_date: "2024-01-01".to_owned(),
        original_purchase_date: "2024-01-01".to_owned(),
        expiration_date: Some("2025-01-01".to_owned()),
        purchased_quantity: 1,
        is_upgraded: false,
        ownership_type: "familyShared".to_owned(),
        signed_date: "2024-01-01".to_owned(),
        jws_representation: "h.p.s".to_owned(),
        verification_error: None,
        revocation_date: None,
        revocation_reason: None,
        product_type: None,
        app_account_token: None,
        environment: None,
        reason: None,
        storefront: None,
        price: None,
        currency_code: None,
        app_transaction_id: None,
        offer: None,
        advanced_commerce_info: None,
        json_representation_base64: json_base64.to_owned(),
    }
}

fn renewal_info() -> RenewalInfoPayload {
    RenewalInfoPayload {
        original_transaction_id: 7,
        current_product_id: "pro.yearly".to_owned(),
        will_auto_renew: false,
        auto_renew_preference: None,
        expiration_reason: Some("billingError".to_owned()),
        price_increase_status: "agreed".to_owned(),
        is_in_billing_retry: true,
        grace_period_expiration_date: None,
        offer: None,
        environment: Some("sandbox".to_owned()),
        recent_subscription_start_date: "2024-01-01".to_owned(),
        renewal_date: None,
        renewal_price: None,
        currency_code: None,
        eligible_win_back_offer_ids: vec!["wb".to_owned()],
        app_account_token: None,
        app_transaction_id: None,
    }
}

fn status(state: &str, json_base64: &str, renewal_kind: &str) -> SubscriptionStatusPayload {
    SubscriptionStatusPayload {
        state: state.to_owned(),
        transaction: VerificationResultPayload {
            kind: "verified".to_owned(),
            payload: transaction(json_base64),
            metadata: metadata(),
            verification_error: None,
        },
        renewal_info: VerificationResultPayload {
            kind: renewal_kind.to_owned(),
            payload: renewal_info(),
            metadata: metadata(),
            verification_error: Some(VerificationErrorPayload {
                kind: "verification".to_owned(),
                code: "invalidEncoding".to_owned(),
                localized_description: "bad encoding".to_owned(),
            }),
        },
    }
}

#[test]
fn subscription_statuses_are_converted_in_order() {
    let statuses = into_subscription_statuses(vec![
        status("inGracePeriod", "e30=", "verified"),
        status("expired", "", "unverified"),
    ])
    .expect("both convert");
    assert_eq!(statuses.len(), 2);
    assert_eq!(statuses[0].state, RenewalState::InGracePeriod);
    assert_eq!(statuses[1].state, RenewalState::Expired);
    let transaction = statuses[0].transaction.payload();
    assert!(!transaction.has_live_handle());
    assert_eq!(transaction.data().product_id, "pro.yearly");
    assert!(statuses[0].renewal_info.is_verified());
    assert!(!statuses[1].renewal_info.is_verified());
    let info = statuses[0].renewal_info.payload();
    assert_eq!(info.expiration_reason, Some(ExpirationReason::BillingError));
    assert_eq!(info.price_increase_status, PriceIncreaseStatus::Agreed);
    assert!(info.is_in_billing_retry);
    assert_eq!(info.eligible_win_back_offer_ids, vec!["wb".to_owned()]);
}

#[test]
fn the_first_failing_status_stops_the_conversion() {
    let error = into_subscription_statuses(vec![
        status("subscribed", "e30=", "verified"),
        status("subscribed", "e30", "verified"),
        status("subscribed", "e30=", "bogus"),
    ])
    .unwrap_err();
    assert!(matches!(error, StoreKitError::InvalidArgument(_)));
    assert_eq!(
        error.to_string(),
        "invalid base64 in transaction JSON representation: Invalid padding"
    );
}

#[test]
fn renewal_errors_come_after_the_transaction() {
    let error = status("subscribed", "e30=", "bogus").into_subscription_status().unwrap_err();
    assert_eq!(error.to_string(), "StoreKit returned an unknown verification result kind 'bogus'");
}

#[test]
fn group_statuses_are_converted() {
    let group = SubscriptionGroupStatusesPayload {
        group_id: "group".to_owned(),
        statuses: vec![status("revoked", "", "verified")],
    }
    .into_group_statuses()
    .expect("converts");
    assert_eq!(group.group_id, "group");
    assert_eq!(group.statuses.len(), 1);
    assert_eq!(group.statuses[0].state, RenewalState::Revoked);
}
