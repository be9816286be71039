use storekit::advanced_commerce::{
    renewal_advanced_commerce_info_from_signed, transaction_advanced_commerce_info_from_signed,
    RenewalInfoAdvancedCommerceInfoPayload, RenewalInfoAdvancedCommerceItemPayload,
    RenewalInfoAdvancedCommercePriceIncreaseInfoPayload, RenewalSignedPayload,
    TransactionAdvancedCommerceInfoPayload, TransactionAdvancedCommerceItemDetailsPayload,
    TransactionAdvancedCommerceItemPayload, TransactionAdvancedCommerceOfferPayload,
    TransactionAdvancedCommerceRefundPayload, TransactionSignedPayload,
};
use storekit::subscription::SubscriptionPeriodPayload;
use storekit::{
    RenewalInfoAdvancedCommercePriceIncreaseStatus, SubscriptionPeriod, SubscriptionPeriodUnit,
    TransactionAdvancedCommerceOfferReason, TransactionAdvancedCommerceRefundReason,
    TransactionAdvancedCommerceRefundType,
};

fn details(sku: &str, offer_reason: Option<&str>) -> TransactionAdvancedCommerceItemDetailsPayload {
    TransactionAdvancedCommerceItemDetailsPayload {
        sku: sku.to_owned(),
        display_name: format!("{sku} name"),
        description: format!("{sku} description"),
        offer: offer_reason.map(|reason| TransactionAdvancedCommerceOfferPayload {
            price: "1.00".to_owned(),
            period: SubscriptionPeriodPayload { unit: "month".to_owned(), value: 1 },
            period_count: 3,
            reason: reason.to_owned(),
        }),
        price: "4.99".to_owned(),
    }
}

#[test]
fn transaction_advanced_commerce_info_keeps_items_in_order() {
    let payload = TransactionAdvancedCommerceInfoPayload {
        request_reference_id: "req-1".to_owned(),
        estimated_tax: "0.40".to_owned(),
        tax_rate: "0.08".to_owned(),
        tax_code: "C003".to_owned(),
        tax_exclusive_price: "4.99".to_owned(),
        description: None,
        display_name: Some("Bundle".to_owned()),
        period: Some(SubscriptionPeriodPayload { unit: "year".to_owned(), value: 1 }),
        items: vec![
            TransactionAdvancedCommerceItemPayload {
                details: details("sku-a", Some("retention")),
                refunds: Some(vec![TransactionAdvancedCommerceRefundPayload {
                    reason: "modifyItems".to_owned(),
                    refund_type: "proRated".to_owned(),
                    date: "2024-02-01".to_owned(),
                    amount: "1.25".to_owned(),
                }]),
                revocation_date: None,
            },
            TransactionAdvancedCommerceItemPayload {
                details: details("sku-b", None),
                refunds: None,
                revocation_date: Some("2024-03-01".to_owned()),
            },
        ],
    };
    let info = transaction_advanced_commerce_info_from_signed(Ok(TransactionSignedPayload {
        advanced_commerce_info: Some(payload),
    }))
    .expect("ok")
    .expect("present");
    assert_eq!(info.request_reference_id, "req-1");
    assert_eq!(info.period, Some(SubscriptionPeriod { unit: SubscriptionPeriodUnit::Year, value: 1 }));
    assert_eq!(info.items.len(), 2);
    assert_eq!(info.items[0].details.sku, "sku-a");
    let offer = info.items[0].details.offer.as_ref().expect("offer");
    assert_eq!(offer.reason, TransactionAdvancedCommerceOfferReason::Retention);
    assert_eq!(offer.period_count, 3);
    let refunds = info.items[0].refunds.as_ref().expect("refunds");
    assert_eq!(refunds[0].reason, TransactionAdvancedCommerceRefundReason::ModifyItems);
    assert_eq!(refunds[0].refund_type, TransactionAdvancedCommerceRefundType::ProRated);
    assert_eq!(info.items[1].details.sku, "sku-b");
    assert!(info.items[1].refunds.is_none());
    assert_eq!(info.items[1].revocation_date.as_deref(), Some("2024-03-01"));
}

#[test]
fn renewal_advanced_commerce_info_is_converted() {
    let payload = RenewalInfoAdvancedCommerceInfoPayload {
        consistency_token: "token".to_owned(),
        request_reference_id: "req-2".to_owned(),
        tax_code: "C003".to_owned(),
        description: "Renewal".to_owned(),
        display_name: "Plan".to_owned(),
        period: SubscriptionPeriodPayload { unit: "month".to_owned(), value: 1 },
        items: vec![RenewalInfoAdvancedCommerceItemPayload {
            details: details("sku-c", Some("surprise")),
            price_increase_info: Some(RenewalInfoAdvancedCommercePriceIncreaseInfoPayload {
                status: "scheduled".to_owned(),
                price: "5.99".to_owned(),
                dependent_skus: vec!["sku-d".to_owned()],
            }),
        }],
    };
    let info = renewal_advanced_commerce_info_from_signed(Ok(RenewalSignedPayload {
        advanced_commerce_info: Some(payload),
    }))
    .expect("ok")
    .expect("present");
    assert_eq!(info.consistency_token, "token");
    assert_eq!(info.period, SubscriptionPeriod { unit: SubscriptionPeriodUnit::Month, value: 1 });
    let item = &info.items[0];
    assert_eq!(
        item.details.offer.as_ref().map(|offer| offer.reason.clone()),
        Some(TransactionAdvancedCommerceOfferReason::Unknown("surprise".into()))
    );
    let increase = item.price_increase_info.as_ref().expect("price increase");
    assert_eq!(increase.status, RenewalInfoAdvancedCommercePriceIncreaseStatus::Scheduled);
    assert_eq!(increase.dependent_skus, vec!["sku-d".to_owned()]);
}

#[test]
fn advanced_commerce_enums_round_trip() {
    for raw in ["acquisition", "retention", "winBack", "other"] {
        assert_eq!(TransactionAdvancedCommerceOfferReason::from_raw(raw.to_owned()).as_str(), raw);
    }
    for raw in ["legal", "modifyItems", "unintended", "unfulfilled", "unsatisfied", "other", "x"] {
        assert_eq!(TransactionAdvancedCommerceRefundReason::from_raw(raw.to_owned()).as_str(), raw);
    }
    for raw in ["custom", "proRated", "full", "partial"] {
        assert_eq!(TransactionAdvancedCommerceRefundType::from_raw(raw.to_owned()).as_str(), raw);
    }
    for raw in ["pending", "accepted", "scheduled", "declined"] {
        assert_eq!(RenewalInfoAdvancedCommercePriceIncreaseStatus::from_raw(raw.to_owned()).as_str(), raw);
    }
    assert_eq!(
        TransactionAdvancedCommerceRefundReason::from_raw("other".to_owned()),
        TransactionAdvancedCommerceRefundReason::Other
    );
}
