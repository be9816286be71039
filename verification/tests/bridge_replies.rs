use serde_json::Value;
use storekit::bridge::{reply_json, reply_result, BridgeReply};
use storekit::error::VerificationErrorPayload;
use storekit::status;
use storekit::storefront::{into_optional_storefront, StorefrontPayload};
use storekit::{Storefront, StoreKitError, VerificationErrorCode};

fn field(value: &Value, name: &str) -> Option<String> {
    value.get(name).and_then(Value::as_str).map(str::to_owned)
}

fn verification_object(text: &str) -> Option<VerificationErrorPayload> {
    let value: Value = serde_json::from_str(text).ok()?;
    Some(VerificationErrorPayload {
        kind: field(&value, "kind")?,
        code: field(&value, "code")?,
        localized_description: field(&value, "localizedDescription")?,
    })
}

fn fire(status: i32, json: Option<&str>, error: Option<&str>) -> BridgeReply {
    BridgeReply {
        status,
        json: json.map(str::to_owned),
        transaction: None,
        error: error.map(str::to_owned),
        framework_error: None,
        verification_error: error.and_then(verification_object),
    }
}

fn storefront_reply(reply: BridgeReply) -> Result<Option<Storefront>, StoreKitError> {
    let (json, _) = reply_result(Ok(reply))?;
    let json = reply_json(json, "storefront")?;
    let value: Value = serde_json::from_str(&json)
        .map_err(|error| storekit::private::json_error(&error, "storefront"))?;
    let payload = value.get("storefront").filter(|s| !s.is_null()).map(|s| StorefrontPayload {
        country_code: field(s, "countryCode").unwrap_or_default(),
        id: field(s, "id").unwrap_or_default(),
        currency_code: field(s, "currencyCode"),
    });
    Ok(into_optional_storefront(payload))
}

#[test]
fn bridge_statuses_map_to_their_error_variants() {
    match reply_result(Ok(fire(status::NOT_SUPPORTED, None, Some("needs macOS 13.0+")))) {
        Err(StoreKitError::NotSupported(message)) => assert_eq!(message, "needs macOS 13.0+"),
        other => panic!("expected NotSupported, got {other:?}"),
    }

    let reply = fire(
        status::VERIFICATION_ERROR,
        None,
        Some(r#"{"kind":"verification","code":"invalidSignature","localizedDescription":"bad signature"}"#),
    );
    match reply_result(Ok(reply)) {
        Err(StoreKitError::Verification(failure)) => {
            assert_eq!(failure.code, VerificationErrorCode::InvalidSignature);
        }
        other => panic!("expected a verification error, got {other:?}"),
    }

    assert!(matches!(
        reply_result(Ok(fire(status::TIMED_OUT, None, None))),
        Err(StoreKitError::TimedOut(_))
    ));
}

#[test]
fn successful_replies_decode_their_payload() {
    let storefront = storefront_reply(fire(
        status::OK,
        Some(r#"{"storefront":{"countryCode":"USA","id":"143441","currencyCode":"USD"}}"#),
        None,
    ))
    .expect("storefront reply")
    .expect("storefront present");
    assert_eq!(storefront.country_code, "USA");
    assert_eq!(storefront.currency_code.as_deref(), Some("USD"));

    assert!(matches!(
        storefront_reply(fire(status::OK, None, None)),
        Err(StoreKitError::InvalidArgument(_))
    ));
}
