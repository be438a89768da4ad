use pasetors::keys::{AsymmetricKeyPair, Generate};
use pasetors::version4::V4;
use pasetors::claims::Claims;
use velora::auth_domain::{HashedPassword, RawPassword};
use velora::crypto::{generate_refresh_token, hash_token, Argon2Cipher, PasswordCipher};
use velora::auth_app::{session_user_id, session_value};
use velora::users_app::parse_uuid;
use velora::paseto::{PasetoIssuer, PasetoVerifier, TokenIssuer};

fn keys() -> (String, String) {
    let kp = AsymmetricKeyPair::<V4>::generate().unwrap();
    (hex::encode(kp.secret.as_bytes()), hex::encode(kp.public.as_bytes()))
}

#[test]
fn hash_token_is_hex_sha256() {
    // SHA-256("abc")
    assert_eq!(hash_token("abc"), "ba7816bf8f01cfea414140de5dae2223b00361a396177a9cb410ff61f20015ad");
    assert_ne!(hash_token("abc"), "abc");
}

#[test]
fn refresh_tokens_are_64_hex_digits_and_fresh() {
    let a = generate_refresh_token();
    let b = generate_refresh_token();
    assert_eq!(a.len(), 64);
    assert!(a.chars().all(|c| c.is_ascii_hexdigit() && !c.is_ascii_uppercase()));
    assert_ne!(a, b);
}

#[test]
fn uuid_text_round_trip() {
    let u: u128 = 0xa1a2a3a4_b1b2_c1c2_d1d2_d3d4d5d6d7d8;
    let text = session_value(u);
    assert_eq!(text, "a1a2a3a4-b1b2-c1c2-d1d2-d3d4d5d6d7d8");
    assert_eq!(session_user_id(Some(text)), Some(u));
    assert_eq!(parse_uuid("A1A2A3A4B1B2C1C2D1D2D3D4D5D6D7D8", "id").ok(), Some(u));
    assert_eq!(session_user_id(Some("not-a-uuid".to_string())), None);
}

#[test]
fn argon2_hash_then_verify() {
    let cipher = Argon2Cipher;
    let pw = RawPassword::parse("StrongPass1!".to_string()).unwrap();
    let other = RawPassword::parse("WrongPassword!".to_string()).unwrap();
    let h = cipher.hash(&pw).unwrap();
    assert!(h.as_str().starts_with("$argon2id$"));
    assert_eq!(cipher.verify(&pw, &h).unwrap(), true);
    assert_eq!(cipher.verify(&other, &h).unwrap(), false);
    assert!(cipher.verify(&pw, &HashedPassword::from_trusted("garbage".to_string())).is_err());
}

#[test]
fn paseto_issue_and_verify() {
    let (secret, public) = keys();
    let issuer = PasetoIssuer::from_hex(&secret, 900).unwrap();
    let verifier = PasetoVerifier::from_hex(&public).unwrap();
    let user: u128 = 0x1234_5678_9abc_4def_8123_456789abcdef;
    let t = issuer.issue(user).unwrap();
    assert!(t.token.starts_with("v4.public."));
    assert_eq!(t.expires_in_secs, 900);
    assert_eq!(verifier.verify(&t.token), Some(user));
    assert_eq!(verifier.verify("v4.public.garbage"), None);
    assert_eq!(verifier.verify("invalid-token"), None);
    let (_, other_public) = keys();
    let stranger = PasetoVerifier::from_hex(&other_public).unwrap();
    assert_eq!(stranger.verify(&t.token), None);
}

#[test]
fn hashed_from_keeps_the_phc_text_or_reports_the_failure() {
    let phc = "$argon2id$v=19$m=19456,t=2,p=1$c2FsdHNhbHRzYWx0$aGFzaGhhc2hoYXNo".to_string();
    let h = Argon2Cipher::hashed_from(Ok(phc.clone())).unwrap();
    assert_eq!(h.as_str(), phc);
    let e = Argon2Cipher::hashed_from(Err(argon2::password_hash::Error::Crypto)).unwrap_err();
    assert_eq!(e, "argon2 hash failed");
}

#[test]
fn access_token_from_keeps_the_signed_text_and_the_lifetime() {
    let (secret, _) = keys();
    let issuer = PasetoIssuer::from_hex(&secret, 900).unwrap();
    match issuer.access_token_from(Ok("v4.public.payload".to_string())) {
        Ok(t) => {
            assert_eq!(t.token, "v4.public.payload");
            assert_eq!(t.expires_in_secs, 900);
        }
        Err(m) => panic!("unexpected error {m}"),
    }
    match issuer.access_token_from(Err(pasetors::errors::Error::Key)) {
        Ok(_) => panic!("a signing failure must not give a token"),
        Err(m) => assert_eq!(m, "PASETO signature"),
    }
}

fn signed_with(kp: &AsymmetricKeyPair<V4>, iss: &str, sub: &str, exp: Option<&str>) -> String {
    let mut claims = Claims::new().unwrap();
    claims.issuer(iss).unwrap();
    claims.subject(sub).unwrap();
    if let Some(e) = exp {
        claims.expiration(e).unwrap();
    }
    pasetors::public::sign(&kp.secret, &claims, None, None).unwrap()
}

#[test]
fn verify_checks_issuer_subject_and_expiry() {
    let kp = AsymmetricKeyPair::<V4>::generate().unwrap();
    let verifier = PasetoVerifier::from_hex(&hex::encode(kp.public.as_bytes())).unwrap();
    let user: u128 = 0x0f0e0d0c_0b0a_4908_8706_050403020100;
    let sub = "0f0e0d0c-0b0a-4908-8706-050403020100";
    // a token from the auth service for that user is accepted
    assert_eq!(verifier.verify(&signed_with(&kp, "velora-auth", sub, None)), Some(user));
    // another issuer is refused
    assert_eq!(verifier.verify(&signed_with(&kp, "someone-else", sub, None)), None);
    // a subject that is not a UUID is refused
    assert_eq!(verifier.verify(&signed_with(&kp, "velora-auth", "alice", None)), None);
    // an expired token is refused
    let expired = signed_with(&kp, "velora-auth", sub, Some("2000-01-01T00:00:00+00:00"));
    assert_eq!(verifier.verify(&expired), None);
}

#[test]
fn issued_token_verifies_to_its_user_only() {
    let (secret, public) = keys();
    let issuer = PasetoIssuer::from_hex(&secret, 60).unwrap();
    let verifier = PasetoVerifier::from_hex(&public).unwrap();
    let a: u128 = 1;
    let b: u128 = 2;
    let ta = issuer.issue(a).unwrap();
    let tb = issuer.issue(b).unwrap();
    assert_eq!(verifier.verify(&ta.token), Some(a));
    assert_eq!(verifier.verify(&tb.token), Some(b));
}

#[test]
fn issued_token_carries_issuer_subject_and_lifetime() {
    let kp = AsymmetricKeyPair::<V4>::generate().unwrap();
    let issuer = PasetoIssuer::from_hex(&hex::encode(kp.secret.as_bytes()), 900).unwrap();
    let user: u128 = 0x1234_5678_9abc_4def_8123_456789abcdef;
    let t = issuer.issue(user).unwrap();
    let untrusted =
        pasetors::token::UntrustedToken::<pasetors::Public, V4>::try_from(t.token.as_str()).unwrap();
    let rules = pasetors::claims::ClaimsValidationRules::new();
    let trusted = pasetors::public::verify(&kp.public, &untrusted, &rules, None, None).unwrap();
    let claims = trusted.payload_claims().unwrap();
    let text = |name: &str| claims.get_claim(name).unwrap().as_str().unwrap().to_string();
    assert_eq!(text("iss"), "velora-auth");
    assert_eq!(text("sub"), "12345678-9abc-4def-8123-456789abcdef");
    let rfc = time::format_description::well_known::Rfc3339;
    let exp = time::OffsetDateTime::parse(&text("exp"), &rfc).unwrap();
    let iat = time::OffsetDateTime::parse(&text("iat"), &rfc).unwrap();
    assert_eq!(exp.unix_timestamp() - iat.unix_timestamp(), 900);
}

#[test]
fn paseto_key_errors() {
    assert!(PasetoIssuer::from_hex("zz", 1).is_err());
    assert!(PasetoIssuer::from_hex(&"11".repeat(32), 1).is_err());
    let (secret, _) = keys();
    // a secret key whose public half does not match its seed
    let mut tampered = secret.clone();
    tampered.replace_range(126..128, if &secret[126..128] == "00" { "01" } else { "00" });
    assert!(PasetoIssuer::from_hex(&tampered, 1).is_err());
    assert!(PasetoVerifier::from_hex(&"ab".repeat(31)).is_err());
    assert!(PasetoVerifier::from_hex("xyz").is_err());
}

#[test]
fn zero_seed_keys_are_detected() {
    assert!(PasetoIssuer::has_zero_seed(&"00".repeat(64)));
    assert!(!PasetoIssuer::has_zero_seed(&"00".repeat(63)));
    assert!(!PasetoIssuer::has_zero_seed("not hex"));
    let (secret, _) = keys();
    assert!(!PasetoIssuer::has_zero_seed(&secret));
}
