use storekit::subscription::{SubscriptionOfferPayload, SubscriptionPeriodPayload};
use storekit::subscription_info::{
    SubscriptionCommitmentInfoPayload, SubscriptionInfoPayload, SubscriptionPricingTermsPayload,
};
use storekit::{
    BillingPlanType, SubscriptionInfo, SubscriptionOfferType, SubscriptionPaymentMode,
    SubscriptionPeriod, SubscriptionPeriodUnit,
};

fn period(unit: &str, value: i64) -> SubscriptionPeriodPayload {
    SubscriptionPeriodPayload { unit: unit.to_owned(), value }
}

#[test]
fn billing_plan_types_round_trip_known_values() {
    let cases = [
        ("monthly", BillingPlanType::Monthly),
        ("upFront", BillingPlanType::UpFront),
    ];

    for (raw, billing_plan_type) in cases {
        assert_eq!(BillingPlanType::from_raw(raw.to_owned()), billing_plan_type);
        assert_eq!(billing_plan_type.as_str(), raw);
    }
}

#[test]
fn unknown_billing_plan_type_is_preserved() {
    let billing_plan_type = BillingPlanType::from_raw("seasonal".to_owned());

    assert_eq!(billing_plan_type, BillingPlanType::Unknown("seasonal".into()));
    assert_eq!(billing_plan_type.as_str(), "seasonal");
}

#[test]
fn subscription_pricing_terms_payload_converts_nested_fields() {
    let payload = SubscriptionPricingTermsPayload {
        billing_price: "59.99".to_owned(),
        billing_display_price: "$59.99".to_owned(),
        billing_period: period("year", 1),
        billing_plan_type: "upFront".to_owned(),
        commitment_info: SubscriptionCommitmentInfoPayload {
            price: "59.99".to_owned(),
            display_price: "$59.99".to_owned(),
            period: period("year", 1),
        },
        subscription_offers: vec![SubscriptionOfferPayload {
            id: Some("winback".to_owned()),
            offer_type: "winBack".to_owned(),
            price: "29.99".to_owned(),
            display_price: "$29.99".to_owned(),
            period: period("month", 3),
            period_count: 1,
            payment_mode: "payUpFront".to_owned(),
        }],
    };
    let pricing_terms = payload.into_subscription_pricing_terms();

    assert_eq!(pricing_terms.billing_plan_type, BillingPlanType::UpFront);
    assert_eq!(
        pricing_terms.billing_period,
        SubscriptionPeriod {
            unit: SubscriptionPeriodUnit::Year,
            value: 1,
        }
    );
    assert_eq!(pricing_terms.commitment_info.price, "59.99");
    let offer = pricing_terms
        .subscription_offers
        .first()
        .expect("one subscription offer");
    assert_eq!(offer.offer_type, SubscriptionOfferType::WinBack);
    assert_eq!(offer.payment_mode, SubscriptionPaymentMode::PayUpFront);
}

#[test]
fn subscription_info_payload_converts_optional_fields() {
    let payload = SubscriptionInfoPayload {
        introductory_offer: None,
        promotional_offers: vec![],
        win_back_offers: vec![],
        subscription_group_id: "group-1".to_owned(),
        subscription_period: period("month", 1),
        pricing_terms: vec![],
        group_level: Some(2),
        group_display_name: Some("Pro".to_owned()),
    };
    let info = payload.into_subscription_info();

    assert_eq!(info.subscription_group_id, "group-1");
    assert_eq!(
        info.subscription_period,
        SubscriptionPeriod {
            unit: SubscriptionPeriodUnit::Month,
            value: 1,
        }
    );
    assert_eq!(info.group_level, Some(2));
    assert_eq!(info.group_display_name.as_deref(), Some("Pro"));
    assert!(info.pricing_terms.is_empty());
}

#[test]
fn subscription_info_keeps_offer_order_and_introductory_offer() {
    let offer = |id: &str, kind: &str, mode: &str| SubscriptionOfferPayload {
        id: Some(id.to_owned()),
        offer_type: kind.to_owned(),
        price: "0.00".to_owned(),
        display_price: "Free".to_owned(),
        period: period("week", 1),
        period_count: 2,
        payment_mode: mode.to_owned(),
    };
    let payload = SubscriptionInfoPayload {
        introductory_offer: Some(offer("intro", "introductory", "freeTrial")),
        promotional_offers: vec![
            offer("first", "promotional", "payAsYouGo"),
            offer("second", "promotional", "somethingNew"),
        ],
        win_back_offers: vec![],
        subscription_group_id: "group-2".to_owned(),
        subscription_period: period("day", 7),
        pricing_terms: vec![],
        group_level: None,
        group_display_name: None,
    };
    let info: SubscriptionInfo = payload.into_subscription_info();

    let intro = info.introductory_offer.as_ref().expect("introductory offer");
    assert_eq!(intro.offer_type, SubscriptionOfferType::Introductory);
    assert_eq!(intro.payment_mode, SubscriptionPaymentMode::FreeTrial);
    assert_eq!(info.promotional_offers.len(), 2);
    assert_eq!(info.promotional_offers[0].id.as_deref(), Some("first"));
    assert_eq!(info.promotional_offers[1].id.as_deref(), Some("second"));
    assert_eq!(
        info.promotional_offers[1].payment_mode,
        SubscriptionPaymentMode::Unknown("somethingNew".into())
    );
    assert_eq!(
        info.subscription_period,
        SubscriptionPeriod { unit: SubscriptionPeriodUnit::Day, value: 7 }
    );
    assert_eq!(info.group_id(), "group-2");
    assert_eq!(info.group_level, None);
}

#[test]
fn subscription_period_constructors_give_their_unit_and_count() {
    assert_eq!(SubscriptionPeriod::weekly(), SubscriptionPeriod { unit: SubscriptionPeriodUnit::Week, value: 1 });
    assert_eq!(SubscriptionPeriod::monthly(), SubscriptionPeriod { unit: SubscriptionPeriodUnit::Month, value: 1 });
    assert_eq!(SubscriptionPeriod::yearly(), SubscriptionPeriod { unit: SubscriptionPeriodUnit::Year, value: 1 });
    assert_eq!(SubscriptionPeriod::every_three_days(), SubscriptionPeriod { unit: SubscriptionPeriodUnit::Day, value: 3 });
    assert_eq!(SubscriptionPeriod::every_two_weeks(), SubscriptionPeriod { unit: SubscriptionPeriodUnit::Week, value: 2 });
    assert_eq!(SubscriptionPeriod::every_two_months(), SubscriptionPeriod { unit: SubscriptionPeriodUnit::Month, value: 2 });
    assert_eq!(SubscriptionPeriod::every_three_months(), SubscriptionPeriod { unit: SubscriptionPeriodUnit::Month, value: 3 });
    assert_eq!(SubscriptionPeriod::every_six_months(), SubscriptionPeriod { unit: SubscriptionPeriodUnit::Month, value: 6 });
}
