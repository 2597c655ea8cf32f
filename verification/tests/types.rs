use rusty_exercise::types::{Email, Name, Password};

// ---- e-mail addresses ----

#[test]
fn email_empty_string_is_invalid() {
    let email = "".to_string();

    assert!(Email::parse(email).is_err());
}

#[test]
fn whitespace_only_email_is_invalid() {
    let email = " ".repeat(12);

    assert!(Email::parse(email).is_err());
}

#[test]
fn email_missing_at_symbol_is_invalid() {
    let email = "email.example.com".to_string();

    assert!(Email::parse(email).is_err());
}

#[test]
fn email_missing_subject_is_invalid() {
    let email = "@example.com".to_string();

    assert!(Email::parse(email).is_err());
}

#[test]
fn valid_email_is_parsed_and_kept() {
    let email = Email::parse("user@example.com".to_string()).unwrap();
    assert_eq!(email.as_ref(), "user@example.com");
}

#[test]
fn refused_email_message_names_the_address() {
    let err = Email::parse("nobody".to_string()).unwrap_err();
    assert_eq!(err, "nobody is not a valid email address");
}

#[test]
fn email_with_too_long_local_part_is_invalid() {
    let email = format!("{}@example.com", "a".repeat(65));
    assert!(Email::parse(email).is_err());
}

#[test]
fn email_parse_checked_follows_the_answer() {
    assert!(Email::parse_checked("anything".to_string(), true).is_ok());
    assert_eq!(
        Email::parse_checked("x@y.z".to_string(), false).unwrap_err(),
        "x@y.z is not a valid email address"
    );
}

// ---- names ----

#[test]
fn name_empty_string_is_invalid() {
    let name = "".to_string();

    assert!(Name::parse(name).is_err());
}

#[test]
fn whitespace_only_name_is_invalid() {
    let name = " ".repeat(12);

    assert!(Name::parse(name).is_err());
}

#[test]
fn a_256_grapheme_name_is_valid() {
    let name = "a".repeat(256);

    assert!(Name::parse(name).is_ok());
}

#[test]
fn a_name_longer_than_256_graphemes_is_invalid() {
    let name = "a".repeat(257);

    assert!(Name::parse(name).is_err());
}

#[test]
fn a_name_with_invalid_characters_is_invalid() {
    for c in &['/', '(', ')', '"', '<', '>', '\\', '{', '}'] {
        let name = format!("{}{}", "a".repeat(12), c);

        assert!(Name::parse(name).is_err());
    }
}

#[test]
fn a_name_with_valid_characters_is_valid() {
    let name = "valid name".to_string();

    assert!(Name::parse(name).is_ok());
}

#[test]
fn names_are_measured_in_graphemes_not_characters() {
    // "e" followed by a combining acute accent is one grapheme of two characters.
    let name = "e\u{301}".repeat(256);
    assert_eq!(name.chars().count(), 512);
    assert!(Name::parse(name).is_ok());
    assert!(Name::parse("e\u{301}".repeat(257)).is_err());
}

#[test]
fn tabs_and_newlines_are_blank_too() {
    assert!(Name::parse("\t\n \u{a0}".to_string()).is_err());
}

#[test]
fn refused_name_message_names_the_name() {
    assert_eq!(Name::parse("a/b".to_string()).unwrap_err(), "a/b is not a valid name");
}

#[test]
fn accepted_name_is_kept() {
    let name = Name::parse("  Ada Lovelace ".to_string()).unwrap();
    assert_eq!(name.as_ref(), "  Ada Lovelace ");
}

#[test]
fn name_parse_counted_uses_the_given_count() {
    assert!(Name::parse_counted("ab".to_string(), 256).is_ok());
    assert!(Name::parse_counted("ab".to_string(), 257).is_err());
}

// ---- passwords ----

fn refusal(r: Result<Password, String>) -> String {
    match r {
        Ok(_) => panic!("the password was accepted"),
        Err(e) => e,
    }
}

#[test]
fn password_empty_string_is_invalid() {
    let password = "".to_string();

    assert!(Password::parse(password.into()).is_err());
}

#[test]
fn password_less_than_12_characters_is_invalid() {
    let password = "a".repeat(11);

    assert!(Password::parse(password.into()).is_err());
}

#[test]
fn password_greater_than_128_characters_is_invalid() {
    let password = "a".repeat(129);

    assert!(Password::parse(password.into()).is_err());
}

#[test]
fn password_rules_are_reported_in_order() {
    assert_eq!(
        refusal(Password::parse("short".to_string())),
        "Password must be at least 12 characters"
    );
    assert_eq!(
        refusal(Password::parse("A".repeat(129))),
        "Password must be less than 128 characters"
    );
    assert_eq!(
        refusal(Password::parse("abcdefgh123!".to_string())),
        "Password must contain at least one uppercase letter"
    );
    assert_eq!(
        refusal(Password::parse("ABCDEFGH123!".to_string())),
        "Password must contain at least one lowercase letter"
    );
    assert_eq!(
        refusal(Password::parse("ABCDefghijk!".to_string())),
        "Password must contain at least one number"
    );
    assert_eq!(
        refusal(Password::parse("ABCDefgh1234".to_string())),
        "Password must contain at least one special character"
    );
}

#[test]
fn password_length_is_counted_in_bytes() {
    // Four characters of three bytes each, then eight ASCII ones: twelve
    // characters but twenty bytes, so the length rule is met.
    assert_eq!(
        rusty_exercise::types::password::check_password_policy("€€€€Aa1!aaaa"),
        Ok(())
    );
    // Eleven characters, one of them two bytes long: twelve bytes.
    assert_eq!(
        rusty_exercise::types::password::check_password_policy("éAa1!aaaaaa"),
        Ok(())
    );
    assert_eq!(
        rusty_exercise::types::password::check_password_policy("Aa1!aaaaaaa"),
        Err("Password must be at least 12 characters".to_string())
    );
}

#[test]
fn valid_password_is_hashed_with_argon2id() {
    let password = Password::parse("Correct-Horse-9".to_string()).unwrap();
    let hash = password.as_ref();
    assert!(hash.starts_with("$argon2id$v=19$"));
    assert!(!hash.contains("Correct-Horse-9"));
}

#[test]
fn salt_decides_the_hash() {
    let a = Password::parse_with_salt("Correct-Horse-9".to_string(), "c2FsdHNhbHRzYWx0c2FsdA").unwrap();
    let b = Password::parse_with_salt("Correct-Horse-9".to_string(), "c2FsdHNhbHRzYWx0c2FsdA").unwrap();
    let c = Password::parse_with_salt("Correct-Horse-9".to_string(), "b3RoZXJzYWx0b3RoZXJzYQ").unwrap();
    assert_eq!(a.as_ref(), b.as_ref());
    assert_ne!(a.as_ref(), c.as_ref());
}

#[test]
fn a_bad_salt_fails_the_hashing() {
    assert_eq!(
        refusal(Password::parse_with_salt("Correct-Horse-9".to_string(), "!")),
        "Failed to hash password"
    );
    // The policy is checked before the salt is used.
    assert_eq!(
        refusal(Password::parse_with_salt("short".to_string(), "!")),
        "Password must be at least 12 characters"
    );
}

#[test]
fn password_with_every_class_is_accepted() {
    for special in "!#$%&*][(){}+-^@~".chars() {
        let password = format!("QWERTY{}asdf0{}", "Z", special);
        assert!(Password::parse(password.clone()).is_ok(), "password {:?}", password);
    }
    assert!(Password::parse(format!("Aa1!{}", "b".repeat(124))).is_ok());
    assert!(Password::parse(format!("Aa1!{}", "b".repeat(125))).is_err());
}

#[test]
fn hash_holds_a_fresh_sixteen_byte_salt() {
    let a = Password::parse("Correct-Horse-9".to_string()).unwrap();
    let b = Password::parse("Correct-Horse-9".to_string()).unwrap();
    let fields: Vec<&str> = a.as_ref().split('$').collect();
    assert_eq!(fields.len(), 6);
    let salt = fields[4];
    assert_eq!(salt.len(), 22);
    assert!(salt.chars().all(|c| c.is_ascii_alphanumeric() || c == '+' || c == '/'));
    assert!("AQgw".contains(salt.chars().last().unwrap()));
    assert_ne!(a.as_ref(), b.as_ref());
}

#[test]
fn whitespace_is_the_white_space_property() {
    for u in 0u32..=0x10FFFF {
        if let Some(c) = char::from_u32(u) {
            assert_eq!(
                rusty_exercise::unicode::trims_to_empty(&c.to_string()),
                c.is_whitespace(),
                "character U+{:04X}",
                u
            );
        }
    }
}

#[test]
fn email_without_domain_is_invalid() {
    assert!(Email::parse("user@".to_string()).is_err());
}
