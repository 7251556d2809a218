use sd_proxy::compose::{compose, confine, ComposeError, Origin, UrlInfo};
use sd_proxy::envelope::{default_timeout, DecodeError, Field, RequestEnvelope};
use sd_proxy::error::ProxyError;
use sd_proxy::json::JsonValue;
use sd_proxy::proxy::{decode_request, error_line, plan};
use sd_proxy::response::{route, OutgoingResponse, OutputMode};

fn decode_err(line: &str) -> ProxyError {
    decode_request(line).unwrap_err()
}

#[test]
fn default_timeout_is_ten() {
    assert_eq!(default_timeout(), 10);
}

#[test]
fn missing_timeout_defaults_to_ten() {
    let e = decode_request("{\"method\":\"GET\",\"path_query\":\"/x\",\"stream\":false}\n").unwrap();
    assert_eq!(e.method, "GET");
    assert_eq!(e.path_query, "/x");
    assert!(!e.stream);
    assert_eq!(e.timeout, 10);
    assert!(e.headers.is_empty());
    assert_eq!(e.body, None);
}

#[test]
fn decodes_every_field() {
    let line = "{\"method\":\"POST\",\"path_query\":\"/a?b=1\",\"stream\":true,\"headers\":{\"X-A\":\"1\"},\"body\":\"hi\",\"timeout\":5}";
    let e = decode_request(line).unwrap();
    assert_eq!(e.method, "POST");
    assert_eq!(e.path_query, "/a?b=1");
    assert!(e.stream);
    assert_eq!(e.headers, vec![("X-A".to_string(), "1".to_string())]);
    assert_eq!(e.body, Some("hi".to_string()));
    assert_eq!(e.timeout, 5);
}

#[test]
fn null_body_is_absent() {
    let e = decode_request("{\"method\":\"GET\",\"path_query\":\"/\",\"stream\":false,\"body\":null}").unwrap();
    assert_eq!(e.body, None);
}

#[test]
fn malformed_json_is_a_decode_error() {
    assert_eq!(decode_err("not json"), ProxyError::Decode(DecodeError::NotJson));
    let line = error_line(&decode_err("not json"));
    let v: serde_json::Value = serde_json::from_str(&line).unwrap();
    let o = v.as_object().unwrap();
    assert_eq!(o.len(), 1);
    assert!(o["error"].is_string());
}

#[test]
fn non_object_is_rejected() {
    assert_eq!(decode_err("[1, 2]"), ProxyError::Decode(DecodeError::NotObject));
}

#[test]
fn unknown_field_is_rejected() {
    let line = "{\"method\":\"GET\",\"path_query\":\"/x\",\"stream\":false,\"extra\":1}";
    assert_eq!(decode_err(line), ProxyError::Decode(DecodeError::UnknownField));
}

#[test]
fn missing_fields_are_rejected() {
    assert_eq!(decode_err("{\"path_query\":\"/x\",\"stream\":false}"), ProxyError::Decode(DecodeError::Missing(Field::Method)));
    assert_eq!(decode_err("{\"method\":\"GET\",\"stream\":false}"), ProxyError::Decode(DecodeError::Missing(Field::PathQuery)));
    assert_eq!(decode_err("{\"method\":\"GET\",\"path_query\":\"/x\"}"), ProxyError::Decode(DecodeError::Missing(Field::Stream)));
}

#[test]
fn wrong_types_are_rejected() {
    let base = "\"method\":\"GET\",\"path_query\":\"/x\",\"stream\":false";
    assert_eq!(decode_err(&format!("{{{base},\"timeout\":\"5\"}}")), ProxyError::Decode(DecodeError::WrongType(Field::Timeout)));
    assert_eq!(decode_err(&format!("{{{base},\"timeout\":-1}}")), ProxyError::Decode(DecodeError::WrongType(Field::Timeout)));
    assert_eq!(decode_err(&format!("{{{base},\"timeout\":1.5}}")), ProxyError::Decode(DecodeError::WrongType(Field::Timeout)));
    assert_eq!(decode_err(&format!("{{{base},\"headers\":{{\"a\":1}}}}")), ProxyError::Decode(DecodeError::WrongType(Field::Headers)));
    assert_eq!(decode_err(&format!("{{{base},\"headers\":null}}")), ProxyError::Decode(DecodeError::WrongType(Field::Headers)));
    assert_eq!(decode_err(&format!("{{{base},\"body\":3}}")), ProxyError::Decode(DecodeError::WrongType(Field::Body)));
    assert_eq!(decode_err("{\"method\":\"GET\",\"path_query\":\"/x\",\"stream\":\"no\"}"), ProxyError::Decode(DecodeError::WrongType(Field::Stream)));
    assert_eq!(decode_err("{\"method\":1,\"path_query\":\"/x\",\"stream\":false}"), ProxyError::Decode(DecodeError::WrongType(Field::Method)));
}

#[test]
fn invalid_method_is_rejected() {
    assert_eq!(decode_err("{\"method\":\"GE T\",\"path_query\":\"/x\",\"stream\":false}"), ProxyError::Decode(DecodeError::InvalidMethod));
    assert_eq!(decode_err("{\"method\":\"\",\"path_query\":\"/x\",\"stream\":false}"), ProxyError::Decode(DecodeError::InvalidMethod));
    assert!(decode_request("{\"method\":\"PURGE\",\"path_query\":\"/x\",\"stream\":false}").is_ok());
}

fn origin() -> Origin {
    Origin::parse("https://api.example.com").unwrap()
}

#[test]
fn bad_origin_is_a_config_error() {
    assert_eq!(Origin::parse("not a url").err(), Some(ProxyError::Config));
}

#[test]
fn path_is_joined_under_the_origin() {
    let u = compose(&origin(), "/v1/ping?x=1").unwrap();
    assert_eq!(u.text, "https://api.example.com/v1/ping?x=1");
    assert_eq!(u.host.as_deref(), Some("api.example.com"));
    assert_eq!(u.port, Some(443));
    assert_eq!(u.scheme, "https");
}

#[test]
fn foreign_hosts_are_refused() {
    let o = origin();
    assert_eq!(compose(&o, "//evil.example.org/x").err(), Some(ComposeError::ForeignAuthority));
    assert_eq!(compose(&o, "https://evil.example.org/x").err(), Some(ComposeError::ForeignAuthority));
    assert_eq!(compose(&o, "http://api.example.com/x").err(), Some(ComposeError::ForeignAuthority));
    assert_eq!(compose(&o, "https://api.example.com:8443/x").err(), Some(ComposeError::ForeignAuthority));
    assert!(compose(&o, "https://api.example.com/x").is_ok());
}

#[test]
fn unresolvable_path_is_refused() {
    let u = UrlInfo { text: "https://a.example/".to_string(), scheme: "https".to_string(), host: Some("a.example".to_string()), port: Some(443) };
    assert_eq!(confine(&u, None).err(), Some(ComposeError::Unresolvable));
    let other = UrlInfo { text: "https://b.example/".to_string(), scheme: "https".to_string(), host: Some("b.example".to_string()), port: Some(443) };
    assert_eq!(confine(&u, Some(other)).err(), Some(ComposeError::ForeignAuthority));
}

#[test]
fn plan_carries_the_envelope() {
    let e = decode_request("{\"method\":\"PUT\",\"path_query\":\"/v1/x\",\"stream\":true,\"headers\":{\"A\":\"b\"},\"body\":\"z\",\"timeout\":3}").unwrap();
    let p = plan(&origin(), e).unwrap();
    assert_eq!(p.method, "PUT");
    assert_eq!(p.url, "https://api.example.com/v1/x");
    assert_eq!(p.headers, vec![("A".to_string(), "b".to_string())]);
    assert_eq!(p.body, Some("z".to_string()));
    assert_eq!(p.timeout_secs, 3);
    assert!(p.stream);
    let e = decode_request("{\"method\":\"GET\",\"path_query\":\"//evil.example.org/\",\"stream\":false}").unwrap();
    assert_eq!(plan(&origin(), e).err(), Some(ProxyError::Compose(ComposeError::ForeignAuthority)));
}

#[test]
fn routing_follows_status_and_intent() {
    assert_eq!(route(200, false), OutputMode::Buffered);
    assert_eq!(route(200, true), OutputMode::Streamed);
    assert_eq!(route(101, true), OutputMode::Streamed);
    assert_eq!(route(302, true), OutputMode::Streamed);
    assert_eq!(route(399, true), OutputMode::Streamed);
    assert_eq!(route(400, true), OutputMode::Buffered);
    assert_eq!(route(404, true), OutputMode::Buffered);
    assert_eq!(route(599, true), OutputMode::Buffered);
    assert_eq!(route(600, true), OutputMode::Buffered);
    assert_eq!(route(999, true), OutputMode::Buffered);
    assert_eq!(route(99, true), OutputMode::Buffered);
}

#[test]
fn server_error_with_stream_is_buffered() {
    assert_eq!(route(503, true), OutputMode::Buffered);
    let r = OutgoingResponse::build(503, &vec![], "down".to_string()).unwrap();
    assert_eq!(r.to_json_line(), "{\"status\":503,\"headers\":{},\"body\":\"down\"}");
}

#[test]
fn example_ping_is_buffered_json() {
    assert_eq!(route(200, false), OutputMode::Buffered);
    let raw = vec![("Content-Type".to_string(), b"text/plain".to_vec())];
    let r = OutgoingResponse::build(200, &raw, "ok".to_string()).unwrap();
    assert_eq!(r.to_json_line(), "{\"status\":200,\"headers\":{\"Content-Type\":\"text/plain\"},\"body\":\"ok\"}");
}

#[test]
fn header_values_become_text() {
    let raw = vec![("a".to_string(), b"x\ty z".to_vec())];
    let r = OutgoingResponse::build(200, &raw, String::new()).unwrap();
    assert_eq!(r.headers, vec![("a".to_string(), "x\ty z".to_string())]);
}

#[test]
fn non_text_header_value_fails() {
    let raw = vec![("a".to_string(), b"ok".to_vec()), ("b".to_string(), vec![0xC3, 0xA9])];
    assert_eq!(OutgoingResponse::build(200, &raw, String::new()).err(), Some(ProxyError::Encoding));
    let raw = vec![("a".to_string(), vec![1])];
    assert_eq!(OutgoingResponse::build(200, &raw, String::new()).err(), Some(ProxyError::Encoding));
}

#[test]
fn repeated_headers_keep_the_last_value() {
    let raw = vec![
        ("set-cookie".to_string(), b"a=1".to_vec()),
        ("x".to_string(), b"2".to_vec()),
        ("set-cookie".to_string(), b"b=2".to_vec()),
    ];
    let r = OutgoingResponse::build(200, &raw, String::new()).unwrap();
    assert_eq!(r.headers, vec![("set-cookie".to_string(), "b=2".to_string()), ("x".to_string(), "2".to_string())]);
}

#[test]
fn response_json_round_trips() {
    let raw = vec![("a".to_string(), b"1".to_vec()), ("b".to_string(), b"two".to_vec())];
    let r = OutgoingResponse::build(404, &raw, "no \"such\" page\n".to_string()).unwrap();
    let line = r.to_json_line();
    assert!(!line.contains('\n'));
    assert_eq!(line, r.to_json_line());
    let back = OutgoingResponse::from_json_line(&line).unwrap();
    assert_eq!(back.status, 404);
    assert_eq!(back.headers, r.headers);
    assert_eq!(back.body, r.body);
}

#[test]
fn response_json_has_three_members() {
    let r = OutgoingResponse::build(200, &vec![], "b".to_string()).unwrap();
    match r.to_json() {
        JsonValue::Object(m) => {
            let keys: Vec<&str> = m.iter().map(|(k, _)| k.as_str()).collect();
            assert_eq!(keys, vec!["status", "headers", "body"]);
        }
        _ => panic!("not an object"),
    }
}

#[test]
fn malformed_response_lines_are_refused() {
    assert!(OutgoingResponse::from_json_line("nope").is_none());
    assert!(OutgoingResponse::from_json_line("{\"status\":70000,\"headers\":{},\"body\":\"\"}").is_none());
    assert!(OutgoingResponse::from_json_line("{\"status\":200,\"headers\":{\"a\":1},\"body\":\"\"}").is_none());
    assert!(OutgoingResponse::from_json_line("{\"status\":200,\"body\":\"\"}").is_none());
}

#[test]
fn error_line_holds_the_message() {
    assert_eq!(error_line(&ProxyError::Dispatch("connection refused".to_string())), "{\"error\":\"connection refused\"}");
    assert_eq!(error_line(&ProxyError::Compose(ComposeError::ForeignAuthority)), "{\"error\":\"path leaves the origin's host\"}");
    assert_eq!(error_line(&ProxyError::Input), "{\"error\":\"unable to read the input line\"}");
}

#[test]
fn envelope_from_json_value() {
    let j = JsonValue::Object(vec![
        ("method".to_string(), JsonValue::Str("GET".to_string())),
        ("path_query".to_string(), JsonValue::Str("/".to_string())),
        ("stream".to_string(), JsonValue::Bool(true)),
    ]);
    let e = RequestEnvelope::from_json(&j).unwrap();
    assert!(e.stream);
    assert_eq!(e.timeout, 10);
}

fn plan_with_headers(headers: &str) -> Result<sd_proxy::proxy::DispatchPlan, ProxyError> {
    let line = format!("{{\"method\":\"GET\",\"path_query\":\"/\",\"stream\":false,\"headers\":{headers}}}");
    plan(&origin(), decode_request(&line).unwrap())
}

#[test]
fn invalid_request_headers_are_refused() {
    assert_eq!(plan_with_headers("{\"bad name\":\"x\"}").err(), Some(ProxyError::InvalidHeader));
    assert_eq!(plan_with_headers("{\"\":\"x\"}").err(), Some(ProxyError::InvalidHeader));
    assert_eq!(plan_with_headers("{\"a\":\"x\\ny\"}").err(), Some(ProxyError::InvalidHeader));
    assert_eq!(plan_with_headers("{\"a\":\"\\u007f\"}").err(), Some(ProxyError::InvalidHeader));
}

#[test]
fn valid_request_headers_pass() {
    assert!(plan_with_headers("{\"X-Token\":\"a b\\tc\"}").is_ok());
    assert!(plan_with_headers("{\"accept\":\"caf\u{e9}\"}").is_ok());
    assert!(plan_with_headers("{}").is_ok());
}

#[test]
fn error_messages_name_the_stage() {
    assert_eq!(ProxyError::InvalidHeader.message(), "invalid request header name or value");
    assert_eq!(ProxyError::Decode(DecodeError::NotJson).message(), "input is not valid JSON");
    assert_eq!(ProxyError::Encoding.message(), "response header value is not text");
}

