use contain::requests::{NetTapCreateRequest, NetTapCreateResponse, NetTapDeleteRequest};
use contain::wire::{encode_field_object, parse_field_object};

#[test]
fn encode_create_request_is_wire_exact() {
    let r = NetTapCreateRequest { user: "alice".to_string() };
    assert_eq!(r.encode(), "{\"user\":\"alice\"}");
}

#[test]
fn encode_delete_request_is_wire_exact() {
    let r = NetTapDeleteRequest { name: "contain-abc123".to_string() };
    assert_eq!(r.encode(), "{\"name\":\"contain-abc123\"}");
}

#[test]
fn encode_escapes_quotes_backslashes_and_controls() {
    assert_eq!(encode_field_object("user", "a\"b"), "{\"user\":\"a\\\"b\"}");
    assert_eq!(encode_field_object("user", "a\\b"), "{\"user\":\"a\\\\b\"}");
    assert_eq!(encode_field_object("user", "a\nb"), "{\"user\":\"a\\nb\"}");
    assert_eq!(encode_field_object("user", "a\tb"), "{\"user\":\"a\\tb\"}");
    assert_eq!(encode_field_object("user", "a\rb"), "{\"user\":\"a\\rb\"}");
    assert_eq!(encode_field_object("user", "a\u{8}b"), "{\"user\":\"a\\bb\"}");
    assert_eq!(encode_field_object("user", "a\u{c}b"), "{\"user\":\"a\\fb\"}");
    assert_eq!(encode_field_object("user", "a\u{1}b"), "{\"user\":\"a\\u0001b\"}");
    assert_eq!(encode_field_object("user", "a\u{1f}b"), "{\"user\":\"a\\u001fb\"}");
}

#[test]
fn parse_accepts_canonical_response() {
    let r = NetTapCreateResponse::parse("{\"name\":\"contain-abc123\"}").unwrap();
    assert_eq!(r.name, "contain-abc123");
}

#[test]
fn parse_accepts_whitespace_between_tokens() {
    let r = parse_field_object(" {  \"name\" :\t\"x\" }\n", "name").unwrap();
    assert_eq!(r, "x");
}

#[test]
fn parse_decodes_escapes() {
    assert_eq!(parse_field_object("{\"name\":\"a\\\"b\"}", "name").unwrap(), "a\"b");
    assert_eq!(parse_field_object("{\"name\":\"a\\\\b\"}", "name").unwrap(), "a\\b");
    assert_eq!(parse_field_object("{\"name\":\"a\\/b\"}", "name").unwrap(), "a/b");
    assert_eq!(parse_field_object("{\"name\":\"a\\nb\"}", "name").unwrap(), "a\nb");
    assert_eq!(parse_field_object("{\"name\":\"a\\u0041b\"}", "name").unwrap(), "aAb");
    assert_eq!(parse_field_object("{\"name\":\"a\\u001fb\"}", "name").unwrap(), "a\u{1f}b");
}

#[test]
fn parse_rejects_malformed_bodies() {
    for body in [
        "",
        "{",
        "{}",
        "{\"name\"}",
        "{\"name\":}",
        "{\"name\":\"x\"",
        "{\"name\":\"x\"}}",
        "{\"name\":\"x\"} trailing",
        "{\"user\":\"x\"}",
        "{\"name\":\"x\",\"extra\":\"y\"}",
        "{\"name\":42}",
        "{\"name\":\"a\\u00e9\"}",
        "{\"name\":\"a\\q\"}",
        "{\"name\":\"a\nb\"}",
        "[\"name\"]",
    ] {
        assert!(parse_field_object(body, "name").is_none(), "{body}");
    }
}

#[test]
fn parse_requires_matching_key() {
    assert!(NetTapCreateRequest::parse("{\"name\":\"x\"}").is_none());
    assert_eq!(
        NetTapCreateRequest::parse("{\"user\":\"bob\"}").unwrap().user,
        "bob"
    );
    assert_eq!(
        NetTapDeleteRequest::parse("{\"name\":\"contain-1\"}").unwrap().name,
        "contain-1"
    );
}

#[test]
fn round_trip_through_encoder_and_parser() {
    for value in ["", "alice", "a\"b\\c\nd\u{1}e", "sp ace", "\u{e9}\u{4e2d}", "contain-xyz"] {
        let body = encode_field_object("name", value);
        assert_eq!(parse_field_object(&body, "name").unwrap(), value, "{value}");
    }
}
