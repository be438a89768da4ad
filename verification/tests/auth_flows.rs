use pasetors::keys::{AsymmetricKeyPair, Generate};
use pasetors::version4::V4;
use velora::auth_app::{
    classify_insert_error, session_key, session_user_id, session_value, AuthError, AuthUseCases,
    RepositoryError,
};
use velora::auth_domain::{DomainError, Email, HashedPassword, User};
use velora::gateway::{ApiError, CurrentUser};
use velora::paseto::AccessToken;
use velora::crypto::{hash_token, Argon2Cipher};
use velora::grpc::{to_proto, to_status, GrpcCode};
use velora::paseto::{PasetoIssuer, PasetoVerifier};

fn use_cases() -> (AuthUseCases<Argon2Cipher, PasetoIssuer>, PasetoVerifier) {
    let kp = AsymmetricKeyPair::<V4>::generate().unwrap();
    let issuer = PasetoIssuer::from_hex(&hex::encode(kp.secret.as_bytes()), 900).unwrap();
    let verifier = PasetoVerifier::from_hex(&hex::encode(kp.public.as_bytes())).unwrap();
    (AuthUseCases::new(Argon2Cipher, issuer, 86_400), verifier)
}

#[test]
fn register_then_login_opens_sessions() {
    let (uc, verifier) = use_cases();
    let user = uc.begin_register(" New@Velora.test ", "StrongPass1!").unwrap();
    assert_eq!(user.email().as_str(), "new@velora.test");
    let event = uc.registration_event(&user);
    assert_eq!(event.user_id, user.id());
    assert_eq!(event.email, "new@velora.test");
    let pending = uc.finish_register(&user, Ok(())).unwrap();
    assert_eq!(pending.user_id, user.id());
    assert_eq!(pending.ttl_secs, 86_400);
    assert_eq!(pending.refresh_hash, hash_token(&pending.refresh));
    let pair = pending.complete(Ok(())).unwrap();
    assert!(pair.access.token.starts_with("v4.public."));
    assert!(!pair.refresh.is_empty());
    assert!(pair.access.expires_in_secs > 0);
    assert_eq!(verifier.verify(&pair.access.token), Some(user.id()));

    let (_, password) = uc.begin_login("new@velora.test", "StrongPass1!").unwrap();
    let pending = uc.finish_login(&password, Ok(Some(user.clone()))).unwrap();
    assert_eq!(pending.user_id, user.id());

    let (_, wrong) = uc.begin_login("new@velora.test", "WrongPassword!").unwrap();
    assert!(matches!(uc.finish_login(&wrong, Ok(Some(user))), Err(AuthError::InvalidCredentials)));
}

#[test]
fn register_rejections() {
    let (uc, _) = use_cases();
    assert!(matches!(uc.begin_register("not-an-email", "StrongPass1!"), Err(AuthError::Domain(DomainError::InvalidEmail))));
    assert!(matches!(uc.begin_register("a@b.c", "short"), Err(AuthError::Domain(DomainError::WeakPassword(_)))));
    // the address is checked before the password
    assert!(matches!(uc.begin_register("bad", "short"), Err(AuthError::Domain(DomainError::InvalidEmail))));
    let user = uc.begin_register("a@b.c", "StrongPass1!").unwrap();
    assert!(matches!(uc.finish_register(&user, Err(RepositoryError::Conflict)), Err(AuthError::EmailTaken)));
    match uc.finish_register(&user, Err(RepositoryError::Other("db".into()))) {
        Err(AuthError::Internal(m)) => assert_eq!(m, "db"),
        _ => panic!("expected an internal error"),
    }
}

#[test]
fn login_unknown_email_and_storage_errors() {
    let (uc, _) = use_cases();
    let (_, password) = uc.begin_login("x@y.z", "StrongPass1!").unwrap();
    assert!(matches!(uc.finish_login(&password, Ok(None)), Err(AuthError::InvalidCredentials)));
    match uc.finish_login(&password, Err(RepositoryError::Conflict)) {
        Err(AuthError::Internal(m)) => assert_eq!(m, "uniqueness conflict"),
        _ => panic!("expected an internal error"),
    }
}

#[test]
fn refresh_and_logout_decisions() {
    let (uc, _) = use_cases();
    assert_eq!(uc.begin_refresh("invalid-token"), hash_token("invalid-token"));
    assert!(matches!(uc.finish_refresh(Ok(None)), Err(AuthError::SessionNotFound)));
    let p = uc.finish_refresh(Ok(Some(77))).unwrap();
    assert_eq!(p.user_id, 77);
    assert!(matches!(uc.finish_refresh(Err("redis".into())), Err(AuthError::Internal(_))));
    assert!(uc.finish_logout(Ok(None)).is_ok());
    assert!(uc.finish_logout(Ok(Some(1))).is_ok());
    assert!(matches!(uc.finish_logout(Err("redis".into())), Err(AuthError::Internal(_))));
    assert_eq!(uc.begin_logout("t"), hash_token("t"));
    let p = uc.finish_refresh(Ok(Some(5))).unwrap();
    assert!(matches!(p.complete(Err("down".into())), Err(AuthError::Internal(_))));
}

#[test]
fn session_store_keys_and_values() {
    assert_eq!(session_key("abc"), "auth:refresh:abc");
    let v = session_value(0xfeed);
    assert_eq!(v, "00000000-0000-0000-0000-00000000feed");
    assert_eq!(session_user_id(Some(v)), Some(0xfeed));
    assert_eq!(session_user_id(Some("garbage".into())), None);
    assert_eq!(session_user_id(None), None);
}

#[test]
fn insert_errors_are_classified() {
    assert!(matches!(classify_insert_error(Some("23505"), "dup".into()), RepositoryError::Conflict));
    assert!(matches!(classify_insert_error(Some("23503"), "fk".into()), RepositoryError::Other(_)));
    assert!(matches!(classify_insert_error(None, "io".into()), RepositoryError::Other(_)));
}

#[test]
fn auth_error_codes_and_statuses() {
    let cases: Vec<(AuthError, &str, GrpcCode, &str, Option<&str>)> = vec![
        (AuthError::Domain(DomainError::InvalidEmail), "INVALID_EMAIL", GrpcCode::InvalidArgument, "invalid email address", Some("INVALID_EMAIL")),
        (AuthError::Domain(DomainError::WeakPassword("too short")), "WEAK_PASSWORD", GrpcCode::InvalidArgument, "invalid password: too short", Some("WEAK_PASSWORD")),
        (AuthError::EmailTaken, "EMAIL_TAKEN", GrpcCode::AlreadyExists, "email already taken", Some("EMAIL_TAKEN")),
        (AuthError::InvalidCredentials, "INVALID_CREDENTIALS", GrpcCode::Unauthenticated, "invalid credentials", Some("INVALID_CREDENTIALS")),
        (AuthError::SessionNotFound, "SESSION_NOT_FOUND", GrpcCode::Unauthenticated, "expired or revoked session", Some("SESSION_NOT_FOUND")),
        (AuthError::Internal("secret detail".into()), "INTERNAL_ERROR", GrpcCode::Internal, "internal error", None),
    ];
    for (err, code, grpc, message, meta) in cases {
        assert_eq!(err.error_code(), code);
        let s = to_status(err);
        assert_eq!(s.code, grpc);
        assert_eq!(s.message, message);
        assert_eq!(s.error_code.as_deref(), meta);
    }
    assert_eq!(velora::grpc::error_code_metadata_key(), "x-error-code");
}

#[test]
fn token_pair_to_proto() {
    let (uc, _) = use_cases();
    let pair = uc.finish_refresh(Ok(Some(3))).unwrap().complete(Ok(())).unwrap();
    let access = pair.access.token.clone();
    let refresh = pair.refresh.clone();
    let t = to_proto(pair);
    assert_eq!(t.access_token, access);
    assert_eq!(t.refresh_token, refresh);
    assert_eq!(t.expires_in, 900);
}

/// A session store that behaves as Redis SET / GETDEL do.
struct MemorySessions(std::collections::HashMap<String, String>);

impl MemorySessions {
    fn store(&mut self, hash: &str, user_id: u128) {
        self.0.insert(session_key(hash), session_value(user_id));
    }
    fn consume(&mut self, hash: &str) -> Option<u128> {
        session_user_id(self.0.remove(&session_key(hash)))
    }
}

#[test]
fn refresh_rotates_and_logout_revokes_with_a_getdel_store() {
    let (uc, _) = use_cases();
    let mut store = MemorySessions(Default::default());
    let first = uc.finish_refresh(Ok(Some(11))).unwrap();
    store.store(&first.refresh_hash, first.user_id);
    let first = first.complete(Ok(())).unwrap();

    let key = uc.begin_refresh(&first.refresh);
    let second = uc.finish_refresh(Ok(store.consume(&key))).unwrap();
    assert_eq!(second.user_id, 11);
    store.store(&second.refresh_hash, second.user_id);
    let second = second.complete(Ok(())).unwrap();
    assert_ne!(second.refresh, first.refresh);

    let key = uc.begin_refresh(&first.refresh);
    assert!(matches!(uc.finish_refresh(Ok(store.consume(&key))), Err(AuthError::SessionNotFound)));

    let key = uc.begin_logout(&second.refresh);
    assert!(uc.finish_logout(Ok(store.consume(&key))).is_ok());
    let key = uc.begin_refresh(&second.refresh);
    assert!(matches!(uc.finish_refresh(Ok(store.consume(&key))), Err(AuthError::SessionNotFound)));
}

#[test]
fn decision_steps_on_given_outcomes() {
    let (uc, _) = use_cases();
    let token = AccessToken { token: "v4.public.x".into(), expires_in_secs: 5 };
    let p = uc.session_for(9, Ok(token)).unwrap();
    assert_eq!((p.access.token.as_str(), p.access.expires_in_secs, p.user_id, p.ttl_secs), ("v4.public.x", 5, 9, 86_400));
    assert_eq!(p.refresh.len(), 64);
    assert_eq!(p.refresh_hash, hash_token(&p.refresh));
    match uc.session_for(9, Err("clock".into())) {
        Err(AuthError::Internal(m)) => assert_eq!(m, "clock"),
        _ => panic!("expected an internal error"),
    }
    type Uc = AuthUseCases<Argon2Cipher, PasetoIssuer>;
    let u = Uc::user_for(Email::from_trusted("a@b.c".into()), Ok(HashedPassword::from_trusted("h".into()))).unwrap();
    assert_eq!((u.email().as_str(), u.password_hash().as_str()), ("a@b.c", "h"));
    assert!(matches!(Uc::user_for(Email::from_trusted("a@b.c".into()), Err("argon".into())), Err(AuthError::Internal(_))));
    assert!(Uc::check_password(Ok(true)).is_ok());
    assert!(matches!(Uc::check_password(Ok(false)), Err(AuthError::InvalidCredentials)));
    assert!(matches!(Uc::check_password(Err("corrupted".into())), Err(AuthError::Internal(_))));
}

#[test]
fn subject_and_current_user_steps() {
    assert_eq!(PasetoVerifier::user_of_subject(Some("00000000-0000-0000-0000-00000000002a".into())), Some(42));
    assert_eq!(PasetoVerifier::user_of_subject(Some("42".into())), None);
    assert_eq!(PasetoVerifier::user_of_subject(None), None);
    assert_eq!(CurrentUser::from_verified(Some(7)).ok().map(|c| c.0), Some(7));
    assert!(matches!(CurrentUser::from_verified(None), Err(ApiError::Unauthorized)));
    let (_, verifier) = use_cases();
    assert!(matches!(CurrentUser::authenticate(None, &verifier), Err(ApiError::Unauthorized)));
    assert!(matches!(CurrentUser::authenticate(Some("Basic x"), &verifier), Err(ApiError::Unauthorized)));
    assert!(matches!(CurrentUser::authenticate(Some("Bearer nope"), &verifier), Err(ApiError::Unauthorized)));
}

#[test]
fn authenticate_accepts_an_issued_token() {
    let (uc, verifier) = use_cases();
    let pair = uc.finish_refresh(Ok(Some(0x77))).unwrap().complete(Ok(())).unwrap();
    let header = format!("Bearer {}", pair.access.token);
    assert_eq!(CurrentUser::authenticate(Some(&header), &verifier).ok().map(|c| c.0), Some(0x77));
}

#[test]
fn login_with_an_unreadable_stored_hash_is_internal() {
    let (uc, _) = use_cases();
    let user = User::register(
        Email::from_trusted("x@velora.test".to_string()),
        HashedPassword::from_trusted("not a PHC string".to_string()),
    );
    let (_, password) = uc.begin_login("x@velora.test", "StrongPass1!").unwrap();
    match uc.finish_login(&password, Ok(Some(user))) {
        Err(AuthError::Internal(_)) => {}
        _ => panic!("expected an internal error"),
    }
}
