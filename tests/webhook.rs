use gravity::timestamp::{deserialize, serialize};
use gravity::{
    constant_time_eq, signature_for, signature_matches, validate_request, verify_signature,
    Error, Json, Timestamp, Verification, WebhookConfig, WebhookError, DEFAULT_WEBHOOK_PATH,
};

const JEFE_DIGEST: &str = "5bdcc146bf60754e6a042426089575c75a003f089d2739839dec58b964ec3843";
const JEFE_BODY: &[u8] = b"what do ya want for nothing?";

#[test]
fn post_with_json_is_valid() {
    assert_eq!(Ok(()), validate_request("POST", "/webhooks", Some("application/json"), Some("issues"), "/webhooks"));
}

#[test]
fn method_is_checked_before_path_and_content_type() {
    let r = validate_request("GET", "/other", Some("text/plain"), None, "/webhooks");
    assert_eq!(Err(WebhookError::MethodNotAllowed("GET".to_string())), r);
}

#[test]
fn wrong_path_is_not_found() {
    let e = validate_request("POST", "/webhook", Some("application/json"), Some("issues"), "/webhooks").unwrap_err();
    assert_eq!(WebhookError::NotFound("/webhook".to_string()), e);
    assert_eq!(404, e.status());
    assert_eq!("404 Not Found (GOT: /webhook)\n", e.message());
}

#[test]
fn content_type_must_match_exactly() {
    let e = validate_request("POST", "/webhooks", Some("application/json; charset=utf-8"), Some("issues"), "/webhooks")
        .unwrap_err();
    assert_eq!(WebhookError::UnsupportedMediaType(Some("application/json; charset=utf-8".to_string())), e);
    assert_eq!(400, e.status());
    let e = validate_request("POST", "/webhooks", None, Some("issues"), "/webhooks").unwrap_err();
    assert_eq!(WebhookError::UnsupportedMediaType(None), e);
}

#[test]
fn missing_event_tag_is_rejected() {
    let e = validate_request("POST", "/webhooks", Some("application/json"), None, "/webhooks").unwrap_err();
    assert_eq!(WebhookError::MissingEventTag, e);
    assert_eq!(400, e.status());
}

#[test]
fn default_config_uses_the_webhooks_path() {
    let config = WebhookConfig::new(None);
    assert_eq!("/webhooks", config.path);
    assert_eq!("/webhooks", DEFAULT_WEBHOOK_PATH);
    assert_eq!(None, config.secret);
}

#[test]
fn error_keeps_code_and_message() {
    let e = Error::new(418, "teapot".to_string());
    assert_eq!(418, e.code());
    assert_eq!("teapot", e.message());
    assert_eq!(500, WebhookError::BodyRead("reset".to_string()).status());
    assert_eq!("FAILED GET PAYLOAD BYTES (MSG: reset)\n", WebhookError::BodyRead("reset".to_string()).message());
}

#[test]
fn signature_text_is_prefixed_lowercase_hex() {
    assert_eq!(b"sha256=01ab0f".to_vec(), signature_for(&[0x01, 0xab, 0x0f]));
    assert_eq!(b"sha256=".to_vec(), signature_for(&[]));
    assert!(signature_matches(&[0xff, 0x10], b"sha256=ff10"));
    assert!(!signature_matches(&[0xff, 0x10], b"sha256=FF10"));
    assert!(!signature_matches(&[0xff, 0x10], b"ff10"));
}

#[test]
fn known_hmac_vector_authenticates() {
    let header = format!("sha256={}", JEFE_DIGEST);
    assert_eq!(Verification::Authenticated, verify_signature(JEFE_BODY, Some(header.as_bytes()), Some(b"Jefe")));
}

#[test]
fn provider_example_authenticates() {
    let header = b"sha256=757107ea0eb2509fc211221cce984b8a37570b6d7586c22c46f4379c8b043e17";
    let secret = b"It's a Secret to Everybody";
    assert_eq!(Verification::Authenticated, verify_signature(b"Hello, World!", Some(header), Some(secret)));
}

#[test]
fn flipped_signature_or_body_is_rejected() {
    let header = format!("sha256={}", JEFE_DIGEST).into_bytes();
    for i in 0..header.len() {
        let mut flipped = header.clone();
        flipped[i] ^= 0x01;
        assert_eq!(Verification::Rejected, verify_signature(JEFE_BODY, Some(&flipped), Some(b"Jefe")));
    }
    for i in 0..JEFE_BODY.len() {
        let mut body = JEFE_BODY.to_vec();
        body[i] ^= 0x01;
        assert_eq!(Verification::Rejected, verify_signature(&body, Some(&header), Some(b"Jefe")));
    }
    assert_eq!(Verification::Rejected, verify_signature(JEFE_BODY, Some(&header), Some(b"jefe")));
}

#[test]
fn absent_signature_with_secret_is_rejected() {
    assert_eq!(Verification::Rejected, verify_signature(JEFE_BODY, None, Some(b"Jefe")));
}

#[test]
fn no_secret_skips_verification() {
    assert_eq!(Verification::Skipped, verify_signature(JEFE_BODY, None, None));
    assert_eq!(Verification::Skipped, verify_signature(JEFE_BODY, Some(b"sha256=00"), None));
}

#[test]
fn constant_time_comparison() {
    assert!(constant_time_eq(b"", b""));
    assert!(constant_time_eq(b"abc", b"abc"));
    assert!(!constant_time_eq(b"abc", b"abd"));
    assert!(!constant_time_eq(b"abc", b"ab"));
}

#[test]
fn json_text_is_parsed_into_plain_values() {
    let j = Json::parse(b"{\"a\": [1, -2, 18446744073709551615, 1.5], \"b\": {\"c\": null, \"d\": true}, \"e\": \"x\"}").unwrap();
    match j.get("a") {
        Some(Json::Array(items)) => {
            assert!(matches!(items[0], Json::Int(1)));
            assert!(matches!(items[1], Json::Int(-2)));
            assert!(matches!(&items[2], Json::Number(t) if t == "18446744073709551615"));
            assert!(matches!(&items[3], Json::Number(t) if t == "1.5"));
        },
        other => panic!("unexpected member: {:?}", other),
    }
    assert!(matches!(j.get("b").unwrap().get("c"), Some(Json::Null)));
    assert!(matches!(j.get("b").unwrap().get("d"), Some(Json::Bool(true))));
    assert!(matches!(j.get("e"), Some(Json::Str(s)) if s == "x"));
    assert!(j.get("z").is_none());
    assert!(Json::parse(b"{\"a\": ").is_none());
    assert!(Json::parse(b"").is_none());
}

#[test]
fn json_copy_is_equal_in_content() {
    let j = Json::parse(b"{\"k\": [\"v\", {\"n\": 7}]}").unwrap();
    assert_eq!(format!("{:?}", j), format!("{:?}", j.copy()));
}

#[test]
fn unix_seconds_range() {
    assert_eq!(Some(Timestamp { seconds: 0, nanos: 0 }), Timestamp::from_unix_seconds(0));
    assert!(Timestamp::from_unix_seconds(253_402_300_799).is_some());
    assert!(Timestamp::from_unix_seconds(253_402_300_800).is_none());
    assert!(Timestamp::from_unix_seconds(-377_705_116_800).is_some());
    assert!(Timestamp::from_unix_seconds(-377_705_116_801).is_none());
}

#[test]
fn rfc3339_round_trip_from_integer() {
    let t = Timestamp::from_unix_seconds(1_690_000_000).unwrap();
    let text = t.to_rfc3339().unwrap();
    assert_eq!("2023-07-22T04:26:40Z", text);
    assert_eq!(Some(t), Timestamp::parse_rfc3339(&text));
}

#[test]
fn rfc3339_round_trip_from_text() {
    let t = Timestamp::parse_rfc3339("2023-07-22T06:26:40.250+02:00").unwrap();
    assert_eq!(Timestamp { seconds: 1_690_000_000, nanos: 250_000_000 }, t);
    assert_eq!(1_690_000_000_250_000_000, t.unix_nanos());
    let text = t.to_rfc3339().unwrap();
    assert_eq!("2023-07-22T04:26:40.25Z", text);
    assert_eq!(Some(t), Timestamp::parse_rfc3339(&text));
    assert_eq!(None, Timestamp::parse_rfc3339("2023-07-22 04:26:40"));
}

#[test]
fn years_before_zero_have_no_rfc3339_text() {
    let t = Timestamp::from_unix_seconds(-62_167_219_201).unwrap();
    assert_eq!(None, t.to_rfc3339());
    let t = Timestamp::from_unix_seconds(-62_167_219_200).unwrap();
    assert_eq!(Some("0000-01-01T00:00:00Z".to_string()), t.to_rfc3339());
}

#[test]
fn timestamp_encodes_as_rfc3339_json_text() {
    let t = Timestamp::from_unix_seconds(1_690_000_000).unwrap();
    match t.to_json() {
        Some(Json::Str(s)) => {
            assert_eq!("2023-07-22T04:26:40Z", s);
            assert_eq!(Some(t), Timestamp::parse_rfc3339(&s));
        },
        other => panic!("unexpected encoding: {:?}", other),
    }
    assert!(Timestamp::from_unix_seconds(-62_167_219_201).unwrap().to_json().is_none());
}

#[test]
fn optional_timestamp_decodes_both_forms_and_null() {
    let from_int = deserialize(&Json::Int(1_690_000_000)).unwrap().unwrap();
    let from_text = deserialize(&Json::Str("2023-07-22T04:26:40Z".to_string())).unwrap().unwrap();
    assert_eq!(from_int, from_text);
    assert_eq!(Ok(None), deserialize(&Json::Null));
    assert!(deserialize(&Json::Bool(true)).is_err());
    assert!(deserialize(&Json::Str("not a time".to_string())).is_err());
    assert!(deserialize(&Json::Int(i64::MAX)).is_err());
}

#[test]
fn optional_timestamp_round_trip() {
    for input in [Json::Int(1_690_000_000), Json::Str("2023-07-22T06:26:40.5+02:00".to_string())] {
        let decoded = deserialize(&input).unwrap();
        let encoded = serialize(&decoded).unwrap();
        assert!(matches!(encoded, Json::Str(_)));
        assert_eq!(decoded, deserialize(&encoded).unwrap());
    }
    assert!(matches!(serialize(&None), Some(Json::Null)));
}

#[test]
fn offsets_can_carry_an_instant_past_the_writable_years() {
    let late = Timestamp::parse_rfc3339("9999-12-31T23:59:59-23:59").unwrap();
    assert_eq!(Timestamp { seconds: 253_402_387_139, nanos: 0 }, late);
    assert_eq!(None, late.to_rfc3339());
    assert!(late.to_json().is_none());
    assert!(serialize(&Some(late)).is_none());
    let early = deserialize(&Json::Str("0000-01-01T00:30:00+01:00".to_string())).unwrap().unwrap();
    assert_eq!(Timestamp { seconds: -62_167_221_000, nanos: 0 }, early);
    assert!(serialize(&Some(early)).is_none());
    let edge = Timestamp::parse_rfc3339("9999-12-31T23:59:59.999999999Z").unwrap();
    assert_eq!(Some("9999-12-31T23:59:59.999999999Z".to_string()), edge.to_rfc3339());
}

#[test]
fn repeated_member_keeps_last_value_and_members_sort_by_name() {
    match Json::parse(b"{\"b\": 1, \"a\": 2, \"b\": 3}").unwrap() {
        Json::Object(members) => {
            let names: Vec<&str> = members.iter().map(|(k, _)| k.as_str()).collect();
            assert_eq!(vec!["a", "b"], names);
            assert!(matches!(members[1].1, Json::Int(3)));
        },
        other => panic!("unexpected document: {:?}", other),
    }
}
