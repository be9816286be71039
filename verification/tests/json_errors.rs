use serde::de::{Deserializer, Error as _, IgnoredAny, MapAccess, Visitor};
use storekit::private::{json_error, json_error_from_parts, JsonErrorCategory};
use storekit::StoreKitError;

#[derive(Debug)]
#[allow(dead_code)]
struct Probe {
    flag: bool,
    token: String,
}

struct ProbeVisitor;

impl<'de> Visitor<'de> for ProbeVisitor {
    type Value = Probe;

    fn expecting(&self, formatter: &mut std::fmt::Formatter) -> std::fmt::Result {
        formatter.write_str("struct Probe")
    }

    fn visit_map<A: MapAccess<'de>>(self, mut map: A) -> Result<Probe, A::Error> {
        let mut flag = None;
        let mut token = None;
        while let Some(key) = map.next_key::<String>()? {
            match key.as_str() {
                "flag" => {
                    if flag.is_some() {
                        return Err(A::Error::duplicate_field("flag"));
                    }
                    flag = Some(map.next_value::<bool>()?);
                }
                "token" => {
                    if token.is_some() {
                        return Err(A::Error::duplicate_field("token"));
                    }
                    token = Some(map.next_value::<String>()?);
                }
                _ => {
                    map.next_value::<IgnoredAny>()?;
                }
            }
        }
        let flag = flag.ok_or_else(|| A::Error::missing_field("flag"))?;
        let token = token.ok_or_else(|| A::Error::missing_field("token"))?;
        Ok(Probe { flag, token })
    }
}

impl<'de> serde::Deserialize<'de> for Probe {
    fn deserialize<D: Deserializer<'de>>(deserializer: D) -> Result<Self, D::Error> {
        deserializer.deserialize_struct("Probe", &["flag", "token"], ProbeVisitor)
    }
}

fn parse_probe(json: &str, context: &str) -> Result<Probe, StoreKitError> {
    serde_json::from_str::<Probe>(json).map_err(|error| json_error(&error, context))
}

#[test]
fn parse_errors_do_not_echo_payload_values() {
    let json = r#"{"flag":"eyJhbGciOiJFUzI1NiJ9.c2VjcmV0.c2ln","token":"8c2f59b0-5c6e-4d4f-9f55-0d3d6f1f7a11"}"#;
    let message = parse_probe(json, "probe")
        .expect_err("a string is not a bool")
        .to_string();
    assert!(message.contains("failed to parse probe JSON"));
    assert!(!message.contains("eyJhbGciOiJFUzI1NiJ9"));
    assert!(!message.contains("c2VjcmV0"));
    assert!(!message.contains("8c2f59b0"));
}

#[test]
fn parse_errors_keep_missing_field_names() {
    let message = parse_probe(r#"{"flag":true}"#, "probe")
        .expect_err("token is required")
        .to_string();
    assert!(message.contains("missing field `token`"));
}

#[test]
fn syntax_errors_report_position_only() {
    let message = parse_probe(r#"{"flag":true,"token":"abc"#, "probe")
        .expect_err("unterminated JSON")
        .to_string();
    assert!(message.contains("line 1"));
    assert!(!message.contains("abc"));
}

#[test]
fn json_errors_are_invalid_argument_errors() {
    let error = parse_probe("[1,2]", "probe").expect_err("an array is not a probe");
    assert!(matches!(error, StoreKitError::InvalidArgument(_)));
}

#[test]
fn duplicate_field_messages_are_kept() {
    let message = parse_probe(r#"{"flag":true,"flag":false,"token":"x"}"#, "probe")
        .expect_err("flag appears twice")
        .to_string();
    assert!(message.starts_with("failed to parse probe JSON: duplicate field `flag`"));
}

#[test]
fn json_error_from_parts_reports_category_and_position() {
    let error = json_error_from_parts(
        "invalid type: string \"secret\", expected a boolean",
        JsonErrorCategory::Data,
        3,
        17,
        "transaction",
    );
    match error {
        StoreKitError::InvalidArgument(message) => {
            assert_eq!(message, "failed to parse transaction JSON: Data error at line 3 column 17")
        }
        other => panic!("expected an invalid argument error, got {other:?}"),
    }
}

#[test]
fn json_error_from_parts_keeps_missing_field_messages() {
    let error = json_error_from_parts(
        "missing field `id` at line 1 column 2",
        JsonErrorCategory::Data,
        1,
        2,
        "product",
    );
    assert_eq!(error.to_string(), "failed to parse product JSON: missing field `id` at line 1 column 2");
}

#[test]
fn two_hidden_messages_give_the_same_error() {
    let first = json_error_from_parts("expected value", JsonErrorCategory::Syntax, 1, 0, "probe");
    let second = json_error_from_parts("trailing characters", JsonErrorCategory::Syntax, 1, 0, "probe");
    assert_eq!(first.to_string(), second.to_string());
    assert_eq!(first.to_string(), "failed to parse probe JSON: Syntax error at line 1 column 0");
}

#[test]
fn json_error_category_names() {
    assert_eq!(JsonErrorCategory::Io.name(), "Io");
    assert_eq!(JsonErrorCategory::Syntax.name(), "Syntax");
    assert_eq!(JsonErrorCategory::Data.name(), "Data");
    assert_eq!(JsonErrorCategory::Eof.name(), "Eof");
}

#[test]
fn errors_of_different_payload_values_read_the_same() {
    let first = parse_probe(r#"{"flag":"secret-one","token":"x"}"#, "probe").unwrap_err();
    let second = parse_probe(r#"{"flag":"public-two","token":"x"}"#, "probe").unwrap_err();
    assert_eq!(first.to_string(), second.to_string());
    assert!(first.to_string().starts_with("failed to parse probe JSON: Data error at line 1 column "));
}
