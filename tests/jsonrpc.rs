use arni::error::Error;
use arni::jsonrpc::{JsonRPC, JsonRPCBuilder, JsonRPCError, JsonRPCMethod, JsonRPCResponse, JsonValue};

fn obj(entries: Vec<(&str, JsonValue)>) -> JsonValue {
    JsonValue::Object(entries.into_iter().map(|(k, v)| (k.to_string(), v)).collect())
}

fn text(s: &str) -> JsonValue {
    JsonValue::Str(s.to_string())
}

fn error_response(code: JsonValue) -> JsonRPCResponse {
    JsonRPCResponse {
        value: obj(vec![("id", text("arni")), ("error", obj(vec![("code", code), ("message", text("m"))]))]),
        method: JsonRPCMethod::AddUri,
    }
}

#[test]
fn builder_without_method_is_not_ready() {
    let r = JsonRPCBuilder::new("arni/0.1.0").build();
    assert!(matches!(r, Err(Error::JsonRPCNotReady)));
    let r = JsonRPC::builder("arni/0.1.0").build();
    assert!(matches!(r, Err(Error::JsonRPCNotReady)));
}

#[test]
fn builder_with_two_methods_is_not_ready() {
    let r = JsonRPCBuilder::new("arni/0.1").aria2_get_version(None).aria2_add_uri(None, "l").build();
    assert!(matches!(r, Err(Error::JsonRPCNotReady)));
    let r = JsonRPCBuilder::new("ua")
        .aria2_add_uri(None, "l")
        .aria2_add_uri(None, "l")
        .aria2_tell_status(None, "g")
        .build();
    assert!(matches!(r, Err(Error::JsonRPCNotReady)));
}

#[test]
fn add_uri_request_text() {
    let r = JsonRPCBuilder::new("arni/0.1.0")
        .aria2_add_uri(None, "http://example.org/a.torrent")
        .build()
        .unwrap();
    assert!(matches!(r.get_method(), JsonRPCMethod::AddUri));
    assert_eq!(
        r.to_string(),
        r#"{"jsonrpc":"2.0","method":"aria2.addUri","id":"arni/0.1.0","params":["token:",["http://example.org/a.torrent"]]}"#
    );
}

#[test]
fn add_uri_request_with_secret() {
    let r = JsonRPCBuilder::new("ua")
        .aria2_add_uri(Some("s3".to_string()), "u")
        .build()
        .unwrap();
    assert_eq!(
        r.to_string(),
        r#"{"jsonrpc":"2.0","method":"aria2.addUri","id":"ua","params":["token:s3",["u"]]}"#
    );
}

#[test]
fn get_version_request_text() {
    let r = JsonRPCBuilder::new("ua").aria2_get_version(None).build().unwrap();
    assert!(matches!(r.get_method(), JsonRPCMethod::GetVersion));
    assert_eq!(r.to_string(), r#"{"jsonrpc":"2.0","method":"aria2.getVersion","id":"ua","params":["token:"]}"#);
}

#[test]
fn tell_status_request_text() {
    let r = JsonRPCBuilder::new("ua")
        .aria2_tell_status(Some("k".to_string()), "2089b05ecca3d829")
        .build()
        .unwrap();
    assert!(matches!(r.get_method(), JsonRPCMethod::TellStatus));
    assert_eq!(
        r.to_string(),
        r#"{"jsonrpc":"2.0","method":"aria2.tellStatus","id":"ua","params":["token:k","2089b05ecca3d829",["status"]]}"#
    );
}

#[test]
fn request_strings_are_escaped() {
    let r = JsonRPCBuilder::new("a\"b").aria2_add_uri(None, "x\\y\n").build().unwrap();
    assert_eq!(
        r.to_string(),
        r#"{"jsonrpc":"2.0","method":"aria2.addUri","id":"a\"b","params":["token:",["x\\y\n"]]}"#
    );
}

#[test]
fn error_codes_map_to_errors() {
    let cases = [
        (-32700, JsonRPCError::ParseError),
        (-32600, JsonRPCError::InvalidRequest),
        (-32601, JsonRPCError::MethodNotFound),
        (-32602, JsonRPCError::InvalidParams),
        (-32603, JsonRPCError::InternalError),
        (-32000, JsonRPCError::ServerError),
        (-32050, JsonRPCError::ServerError),
        (-32099, JsonRPCError::ServerError),
        (-32100, JsonRPCError::OtherError),
        (-31999, JsonRPCError::OtherError),
        (1, JsonRPCError::OtherError),
    ];
    for (code, expected) in cases {
        assert_eq!(error_response(JsonValue::Int(code)).unwrap_response(), Err(expected));
        assert_eq!(JsonRPCError::from_code(code), expected);
    }
}

#[test]
fn error_without_integer_code_is_not_standard() {
    let r = error_response(text("-32700")).unwrap_response();
    assert_eq!(r, Err(JsonRPCError::NotStandardResponse));
}

#[test]
fn error_wins_over_result() {
    let resp = JsonRPCResponse {
        value: obj(vec![("result", text("g")), ("error", obj(vec![("code", JsonValue::Int(-32601))]))]),
        method: JsonRPCMethod::AddUri,
    };
    assert_eq!(resp.unwrap_response(), Err(JsonRPCError::MethodNotFound));
}

#[test]
fn response_without_result_or_error() {
    let resp = JsonRPCResponse { value: obj(vec![("id", text("x"))]), method: JsonRPCMethod::GetVersion };
    assert_eq!(resp.unwrap_response(), Err(JsonRPCError::NotStandardResponse));
    let resp = JsonRPCResponse { value: JsonValue::Null, method: JsonRPCMethod::GetVersion };
    assert_eq!(resp.unwrap_response(), Err(JsonRPCError::NotStandardResponse));
}

#[test]
fn add_uri_result_is_the_gid() {
    let resp = JsonRPCResponse {
        value: obj(vec![("id", text("arni")), ("jsonrpc", text("2.0")), ("result", text("2089b05ecca3d829"))]),
        method: JsonRPCMethod::AddUri,
    };
    assert_eq!(resp.unwrap_response(), Ok(("gid".to_string(), "2089b05ecca3d829".to_string())));
}

#[test]
fn get_version_result_is_json_text() {
    let resp = JsonRPCResponse {
        value: obj(vec![("result", obj(vec![("enabledFeatures", JsonValue::Array(vec![])), ("version", text("1.36.0"))]))]),
        method: JsonRPCMethod::GetVersion,
    };
    assert_eq!(resp.unwrap_response(), Ok(("version".to_string(), "\"1.36.0\"".to_string())));
}

#[test]
fn version_of_any_shape_is_its_json_text() {
    let cases = vec![
        (JsonValue::Int(5), "5"),
        (JsonValue::Int(-1200), "-1200"),
        (JsonValue::Int(i64::MIN), "-9223372036854775808"),
        (JsonValue::Number("1.5".to_string()), "1.5"),
        (JsonValue::Bool(true), "true"),
        (JsonValue::Null, "null"),
        (text("a\"b"), "\"a\\\"b\""),
        (JsonValue::Array(vec![JsonValue::Int(1), text("x"), JsonValue::Array(vec![])]), "[1,\"x\",[]]"),
        (obj(vec![("major", JsonValue::Int(1)), ("minor", JsonValue::Int(37))]), "{\"major\":1,\"minor\":37}"),
    ];
    for (version, expected) in cases {
        let resp = JsonRPCResponse { value: obj(vec![("result", obj(vec![("version", version)]))]), method: JsonRPCMethod::GetVersion };
        assert_eq!(resp.unwrap_response(), Ok(("version".to_string(), expected.to_string())));
    }
}

#[test]
fn json_text_of_values() {
    assert_eq!(JsonValue::Int(0).to_json_text(), "0");
    assert_eq!(JsonValue::Int(1234567890).to_json_text(), "1234567890");
    assert_eq!(JsonValue::Bool(false).to_json_text(), "false");
    assert_eq!(obj(vec![]).to_json_text(), "{}");
    assert_eq!(text("tab\t").to_json_text(), "\"tab\\t\"");
}

#[test]
fn status_is_returned_as_sent() {
    let resp = JsonRPCResponse {
        value: obj(vec![("result", obj(vec![("status", text("a\"b\\c"))]))]),
        method: JsonRPCMethod::TellStatus,
    };
    assert_eq!(resp.unwrap_response(), Ok(("status".to_string(), "a\"b\\c".to_string())));
    let resp = JsonRPCResponse {
        value: obj(vec![("result", obj(vec![("status", JsonValue::Int(3))]))]),
        method: JsonRPCMethod::TellStatus,
    };
    assert_eq!(resp.unwrap_response(), Ok(("status".to_string(), "3".to_string())));
}

#[test]
fn tell_status_result_is_unquoted() {
    let resp = JsonRPCResponse {
        value: obj(vec![("result", obj(vec![("status", text("complete"))]))]),
        method: JsonRPCMethod::TellStatus,
    };
    assert_eq!(resp.unwrap_response(), Ok(("status".to_string(), "complete".to_string())));
}

#[test]
fn missing_result_field_is_not_standard() {
    let resp = JsonRPCResponse {
        value: obj(vec![("result", obj(vec![("gid", text("x"))]))]),
        method: JsonRPCMethod::TellStatus,
    };
    assert_eq!(resp.unwrap_response(), Err(JsonRPCError::NotStandardResponse));
    let resp = JsonRPCResponse { value: obj(vec![("result", text("1.0"))]), method: JsonRPCMethod::GetVersion };
    assert_eq!(resp.unwrap_response(), Err(JsonRPCError::NotStandardResponse));
    let resp = JsonRPCResponse { value: obj(vec![("result", JsonValue::Int(3))]), method: JsonRPCMethod::AddUri };
    assert_eq!(resp.unwrap_response(), Err(JsonRPCError::NotStandardResponse));
}

#[test]
fn json_value_get_reads_objects_only() {
    let v = obj(vec![("a", JsonValue::Bool(true)), ("b", JsonValue::Int(2))]);
    assert!(matches!(v.get("b"), Some(JsonValue::Int(2))));
    assert!(v.get("c").is_none());
    assert!(text("a").get("a").is_none());
}

#[test]
fn error_messages() {
    assert_eq!(Error::BadTorrentLink.message(), "can not find torrent link");
    assert_eq!(Error::JsonRPCNotReady.message(), "jsonrpc not ready");
    assert_eq!(Error::ImpossibleEpisodeState.message(), "Impossible Episode State");
    assert_eq!(Error::Aria2ConnectionError.message(), "Can't connect to aria2");
    assert_eq!(Error::RPCServerError(JsonRPCError::ServerError).message(), "server error");
    assert_eq!(Error::from(JsonRPCError::ParseError), Error::RPCServerError(JsonRPCError::ParseError));
    assert_eq!(JsonRPCError::NotStandardResponse.message(), "server returns non-standard response");
}
