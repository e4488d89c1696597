use rsfullstack::{
    contains_sql_escape_chars, is_empty_or_whitespace, is_too_long, is_valid_text_input,
    sanitize_email, sanitize_username, Data, ExtractError, Field, InvalidInput, Sanitize,
    SecretText, UpdateUser,
};

const FORBIDDEN_CHARACTERS: [char; 9] = ['/', '(', ')', '"', '<', '>', '\\', '{', '}'];

#[test]
fn test_contains_sql_escape_chars() {
    assert!(FORBIDDEN_CHARACTERS
        .iter()
        .all(|c| contains_sql_escape_chars(&c.to_string())))
}

#[test]
fn contains_sql_escape_chars_is_false_for_plain_text() {
    assert!(!contains_sql_escape_chars("plain text; with 'quotes' & @ signs"));
    assert!(!contains_sql_escape_chars(""));
    assert!(contains_sql_escape_chars("te/;<st"));
}

#[test]
fn test_is_not_too_long() {
    assert!(!is_too_long(&"🦀".repeat(256), 256));
    assert!(!is_too_long(&"a".repeat(256), 256));
}

#[test]
fn test_has_is_too_long() {
    assert!(is_too_long(&"🦀".repeat(257), 256));
    assert!(is_too_long(&"a".repeat(257), 256));
}

#[test]
fn is_too_long_counts_combining_sequences_once() {
    let accented = "e\u{301}";
    assert!(!is_too_long(&accented.repeat(256), 256));
    assert!(is_too_long(&accented.repeat(257), 256));
    assert!(!is_too_long("", 0));
    assert!(is_too_long("a", 0));
    assert!(!is_too_long("abc", 3));
}

#[test]
fn test_is_empty_or_whitespace() {
    for input in ["", " ", "\t", "\n"] {
        assert!(is_empty_or_whitespace(input));
    }
    assert!(is_empty_or_whitespace(" \u{3000}\u{a0}\r\n"));
}

#[test]
fn test_is_not_empty_or_whitespace() {
    for input in ["a", "🦀", "  a  "] {
        assert!(!is_empty_or_whitespace(input));
    }
}

#[test]
fn blank_text_is_not_valid_input() {
    for input in ["", "   ", "\t\n"] {
        assert!(!is_valid_text_input(input));
    }
}

#[test]
fn text_with_a_forbidden_character_is_not_valid_input() {
    for c in FORBIDDEN_CHARACTERS {
        assert!(!is_valid_text_input(&format!("ab{}cd", c)));
    }
    assert!(is_valid_text_input("abcd"));
}

#[test]
fn valid_input_is_capped_at_256_graphemes() {
    assert!(is_valid_text_input(&"a".repeat(256)));
    assert!(!is_valid_text_input(&"a".repeat(257)));
}

#[test]
fn sanitize_username_trims() {
    assert_eq!(sanitize_username("  test \n".to_string()), Ok("test".to_string()));
}

#[test]
fn sanitize_username_rejects_invalid_text() {
    let err = Err(InvalidInput { field: Field::Name });
    assert_eq!(sanitize_username("te/;<st".to_string()), err);
    assert_eq!(sanitize_username("   ".to_string()), err);
}

#[test]
fn sanitize_email_trims_and_lowers() {
    assert_eq!(
        sanitize_email("  Test@TEST.test ".to_string()),
        Ok("test@test.test".to_string())
    );
    assert_eq!(sanitize_email("ÄB@Ö.DE".to_string()), Ok("äb@ö.de".to_string()));
}

#[test]
fn sanitize_email_rejects_bad_shapes() {
    let err = Err(InvalidInput { field: Field::Email });
    for input in ["test", "@test.test", "test@", "a@b@c", " @b", "", "a<b@c"] {
        assert_eq!(sanitize_email(input.to_string()), err, "{}", input);
    }
}

#[test]
fn sanitize_email_is_idempotent() {
    for input in ["  Test@TEST.test ", "a@b", "Straße@Example.ORG"] {
        let once = sanitize_email(input.to_string()).unwrap();
        assert_eq!(sanitize_email(once.clone()), Ok(once));
    }
}

#[test]
fn update_user_sanitizes_present_fields_only() {
    let mut u = UpdateUser {
        name: None,
        email: Some(" A@B.C ".to_string()),
        password: None,
    };
    assert_eq!(u.sanitize(), Ok(()));
    assert_eq!(u.name, None);
    assert_eq!(u.email, Some("a@b.c".to_string()));
    assert!(u.password.is_none());
}

#[test]
fn update_user_reports_the_failing_field() {
    let mut u = UpdateUser {
        name: Some("ok".to_string()),
        email: Some("nope".to_string()),
        password: Some(SecretText::new("pw".to_string())),
    };
    assert_eq!(u.sanitize(), Err(InvalidInput { field: Field::Email }));
    assert_eq!(u.name, Some("ok".to_string()));
    assert_eq!(u.email, Some("nope".to_string()));
}

#[test]
fn extract_yields_only_sanitized_payloads() {
    let parsed = UpdateUser {
        name: Some(" bob ".to_string()),
        email: None,
        password: None,
    };
    let data = Data::extract(Some(parsed)).ok().unwrap();
    assert_eq!(data.data.name, Some("bob".to_string()));

    let bad = UpdateUser {
        name: Some("{bob}".to_string()),
        email: None,
        password: None,
    };
    assert_eq!(
        Data::extract(Some(bad)).err(),
        Some(ExtractError::InvalidInput(InvalidInput { field: Field::Name }))
    );
    assert_eq!(
        Data::<UpdateUser>::extract(None).err(),
        Some(ExtractError::MalformedBody)
    );
}

#[test]
fn sanitized_name_is_canonical() {
    let once = sanitize_username(" \u{3000}Ada Lovelace\t".to_string()).unwrap();
    assert_eq!(once, "Ada Lovelace");
    assert_eq!(sanitize_username(once.clone()), Ok(once));
}
