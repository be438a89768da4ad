use velora::auth_domain::{check_email_shape, DomainError, Email, HashedPassword, RawPassword, User};

#[test]
fn valid_email() {
    let email = Email::parse(" BriceOwen@Velora.com ").unwrap();
    assert_eq!(email.as_str(), "briceowen@velora.com");
}

#[test]
fn invalid_email() {
    for bad in ["", " brice", "@velora.com", "a@@b@c.com", "a b@c.com"] {
        assert_eq!(Email::parse(bad).map(|e| e.as_str().to_string()), Err(DomainError::InvalidEmail));
    }
}

#[test]
fn email_edge_cases() {
    // trailing '@' is refused
    assert!(Email::parse("brice@").is_err());
    // three bytes is the shortest accepted address
    assert_eq!(Email::parse("a@b").unwrap().as_str(), "a@b");
    assert!(Email::parse("@b").is_err());
    // 254 bytes is accepted, 255 is not
    let local = "a".repeat(252);
    assert!(Email::parse(&format!("{local}@b")).is_ok());
    let local = "a".repeat(253);
    assert!(Email::parse(&format!("{local}@b")).is_err());
    // inner Unicode whitespace is refused, surrounding whitespace trimmed
    assert!(Email::parse("a\u{3000}b@c.com").is_err());
    assert_eq!(Email::parse("\u{2003}X@Y.Z\t").unwrap().as_str(), "x@y.z");
    // non-ASCII letters are lowercased as std does
    assert_eq!(Email::parse("ÉLODIE@Ex.fr").unwrap().as_str(), "élodie@ex.fr");
}

#[test]
fn email_from_trusted_keeps_text() {
    let e = Email::from_trusted("Any Text".to_string());
    assert_eq!(e.as_str(), "Any Text");
}

#[test]
fn password_length_bounds() {
    match RawPassword::parse("short".to_string()) {
        Err(DomainError::WeakPassword(m)) => assert_eq!(m, "password too short (8 characters min)"),
        _ => panic!("expected a weak password"),
    }
    assert!(RawPassword::parse("12345678".to_string()).is_ok());
    assert!(RawPassword::parse("a".repeat(128)).is_ok());
    match RawPassword::parse("a".repeat(129)) {
        Err(DomainError::WeakPassword(m)) => assert_eq!(m, "password too long (128 characters max)"),
        _ => panic!("expected a weak password"),
    }
    // the length is counted in characters, not in UTF-8 bytes
    match RawPassword::parse("éééé".to_string()) {
        Err(DomainError::WeakPassword(m)) => assert_eq!(m, "password too short (8 characters min)"),
        _ => panic!("expected a weak password"),
    }
    assert_eq!(RawPassword::parse("é".repeat(100)).unwrap().expose(), "é".repeat(100));
    assert!(RawPassword::parse("é".repeat(128)).is_ok());
    match RawPassword::parse("é".repeat(129)) {
        Err(DomainError::WeakPassword(m)) => assert_eq!(m, "password too long (128 characters max)"),
        _ => panic!("expected a weak password"),
    }
}

#[test]
fn password_text_form_is_masked() {
    let p = RawPassword::parse("StrongPass1!".to_string()).unwrap();
    assert_eq!(p.to_string(), "RawPassword(***)");
    assert_eq!(p.expose(), "StrongPass1!");
}

#[test]
fn domain_error_codes_and_messages() {
    assert_eq!(DomainError::InvalidEmail.error_code(), "INVALID_EMAIL");
    assert_eq!(DomainError::WeakPassword("x").error_code(), "WEAK_PASSWORD");
    assert_eq!(DomainError::InvalidEmail.message(), "invalid email address");
    assert_eq!(DomainError::WeakPassword("too short").message(), "invalid password: too short");
}

#[test]
fn user_accessors() {
    let email = Email::from_trusted("a@b.c".to_string());
    let hash = HashedPassword::from_trusted("$argon2id$x".to_string());
    let u = User::from_persisted(7, email, hash, 123);
    assert_eq!(u.id(), 7);
    assert_eq!(u.email().as_str(), "a@b.c");
    assert_eq!(u.password_hash().as_str(), "$argon2id$x");
    assert_eq!(u.created_at(), 123);
    let fresh = User::register(Email::from_trusted("x@y.z".to_string()), HashedPassword::from_trusted("h".to_string()));
    assert_eq!(fresh.email().as_str(), "x@y.z");
    assert_eq!(fresh.password_hash().as_str(), "h");
}

#[test]
fn email_shape_of_normalized_addresses() {
    assert!(check_email_shape("a@b"));
    assert!(check_email_shape("jean.dupont@example.fr"));
    assert!(!check_email_shape("ab"));
    assert!(!check_email_shape("a@b@c"));
    assert!(!check_email_shape("a b@c"));
    assert!(!check_email_shape(""));
}
