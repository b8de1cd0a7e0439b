use contain::ident::{check_is_valid_identifier, IdentifierValidationError};

#[test]
fn accepts_simple_names() {
    for name in ["abc", "ABC", "a1b2", "0", "a.b", "a_b", "a-b", "x.y-z_9.W", "."] {
        let r = check_is_valid_identifier(name.to_string());
        assert_eq!(r.unwrap(), name);
    }
}

#[test]
fn rejects_empty_string() {
    assert!(check_is_valid_identifier(String::new()).is_err());
}

#[test]
fn rejects_slash_and_whitespace() {
    for name in ["bad/tag", "a b", "a\tb", "a\nb", "/", "a/", "/a"] {
        assert!(check_is_valid_identifier(name.to_string()).is_err(), "{name}");
    }
}

#[test]
fn rejects_shell_metacharacters() {
    for name in ["a;b", "a|b", "a&b", "$a", "`a`", "a*", "a'b", "a\"b", "(a)"] {
        assert!(check_is_valid_identifier(name.to_string()).is_err(), "{name}");
    }
}

#[test]
fn rejects_non_ascii() {
    for name in ["\u{e9}", "caf\u{e9}", "\u{4e2d}", "a\u{0301}"] {
        assert!(check_is_valid_identifier(name.to_string()).is_err(), "{name}");
    }
}

#[test]
fn error_carries_name_and_message_quotes_it() {
    let e: IdentifierValidationError =
        check_is_valid_identifier("bad/tag".to_string()).unwrap_err();
    assert_eq!(e.name(), "bad/tag");
    assert_eq!(
        e.message(),
        "\"bad/tag\" is not a valid identifier, should match ^[a-zA-Z0-9._-]+$"
    );
}
