//! The auth service's use cases: register, login, refresh and logout.
//!
//! Storage (users in Postgres, sessions in Redis) is reached over the network,
//! so each use case is split at those calls: a `begin_*` step computes what to
//! store or look up, and a `finish_*` step takes what storage answered and
//! decides the outcome. The service runs the steps around its storage calls.

use vstd::prelude::*;
use crate::auth_domain::{
    email_well_formed, normalize_email, password_problem, DomainError, Email, HashedPassword,
    RawPassword, User,
};
use crate::crypto::{
    generate_refresh_token, hash_token, is_refresh_token, token_hash_spec, PasswordCipher,
};
use crate::events::UserRegistered;
use crate::ids;
use crate::ids::{uuid_hyphenated, uuid_parse_spec};
use crate::paseto::{AccessToken, TokenIssuer};
use crate::crypto::sha256_spec;
use crate::hexcodec::hex_lower;
use vstd::utf8::encode_utf8;
use crate::text::concat_str;

verus! {

/// Failures of the auth use cases.
#[derive(Debug)]
pub enum AuthError {
    Domain(DomainError),
    EmailTaken,
    InvalidCredentials,
    SessionNotFound,
    Internal(String),
}

impl AuthError {
    /// The stable machine-readable code of the error.
    pub fn error_code(&self) -> (r: &'static str)
        ensures
            r@ == match self {
                AuthError::Domain(DomainError::InvalidEmail) => "INVALID_EMAIL"@,
                AuthError::Domain(DomainError::WeakPassword(_)) => "WEAK_PASSWORD"@,
                AuthError::EmailTaken => "EMAIL_TAKEN"@,
                AuthError::InvalidCredentials => "INVALID_CREDENTIALS"@,
                AuthError::SessionNotFound => "SESSION_NOT_FOUND"@,
                AuthError::Internal(_) => "INTERNAL_ERROR"@,
            },
    {
        match self {
            AuthError::Domain(e) => e.error_code(),
            AuthError::EmailTaken => "EMAIL_TAKEN",
            AuthError::InvalidCredentials => "INVALID_CREDENTIALS",
            AuthError::SessionNotFound => "SESSION_NOT_FOUND",
            AuthError::Internal(_) => "INTERNAL_ERROR",
        }
    }
}

/// Failures of the user repository.
#[derive(Debug)]
pub enum RepositoryError {
    /// The e-mail address is already registered.
    Conflict,
    Other(String),
}

/// The text of a repository error (its `Display`).
pub open spec fn repository_message(e: RepositoryError) -> Seq<char> {
    match e {
        RepositoryError::Conflict => "uniqueness conflict"@,
        RepositoryError::Other(m) => m@,
    }
}

impl RepositoryError {
    pub fn message(&self) -> (r: String)
        ensures
            r@ == repository_message(*self),
    {
        match self {
            RepositoryError::Conflict => String::from_str("uniqueness conflict"),
            RepositoryError::Other(m) => m.clone(),
        }
    }
}

/// Classifies a failed insert of a user: Postgres reports a uniqueness
/// violation (the address is taken) with the SQLSTATE code `23505`.
pub fn classify_insert_error(db_code: Option<&str>, message: String) -> (r: RepositoryError)
    ensures
        r == (if db_code matches Some(c) && c@ == "23505"@ {
            RepositoryError::Conflict
        } else {
            RepositoryError::Other(message)
        }),
{
    match db_code {
        Some(c) => {
            if crate::text::str_equal(c, "23505") {
                RepositoryError::Conflict
            } else {
                RepositoryError::Other(message)
            }
        },
        None => RepositoryError::Other(message),
    }
}

/// The pair handed to a client that signs in.
pub struct TokenPair {
    pub access: AccessToken,
    /// Sent in plain text to the client, once; the server keeps only its hash.
    pub refresh: String,
}

/// A session whose tokens are issued and which waits to be stored.
pub struct PendingSession {
    pub access: AccessToken,
    pub refresh: String,
    /// The key under which the session is stored: the hash of `refresh`.
    pub refresh_hash: String,
    pub user_id: u128,
    pub ttl_secs: u64,
}

/// `p` is a new session for `user_id`: an access token from the issuer, a
/// fresh refresh token stored under its hash, living the configured time.
pub open spec fn opens_session<C: PasswordCipher, T: TokenIssuer>(
    uc: AuthUseCases<C, T>,
    p: PendingSession,
    user_id: u128,
) -> bool {
    &&& p.user_id == user_id
    &&& p.ttl_secs == uc.refresh_ttl()
    &&& uc.spec_tokens().well_formed_token(p.access)
    &&& uc.spec_tokens().issued_for_user(p.access, user_id)
    &&& is_refresh_token(p.refresh@)
    &&& p.refresh_hash@ == token_hash_spec(p.refresh@)
}

impl PendingSession {
    /// Once the store answered: the pair on success, an internal error else.
    pub fn complete(self, stored: Result<(), String>) -> (r: Result<TokenPair, AuthError>)
        ensures
            match stored {
                Ok(()) => r matches Ok(pair) && pair.access == self.access && pair.refresh
                    == self.refresh,
                Err(m) => r == Err::<TokenPair, AuthError>(AuthError::Internal(m)),
            },
    {
        match stored {
            Ok(()) => Ok(TokenPair { access: self.access, refresh: self.refresh }),
            Err(m) => Err(AuthError::Internal(m)),
        }
    }
}

/// The key of a session in the session store.
pub open spec fn session_key_spec(refresh_hash: Seq<char>) -> Seq<char> {
    "auth:refresh:"@ + refresh_hash
}

pub fn session_key(refresh_hash: &str) -> (r: String)
    ensures
        r@ == session_key_spec(refresh_hash@),
{
    concat_str("auth:refresh:", refresh_hash)
}

/// The value stored for a session: the user id as hyphenated UUID text.
pub fn session_value(user_id: u128) -> (r: String)
    ensures
        r@ == uuid_hyphenated(user_id),
{
    ids::uuid_to_string(user_id)
}

/// The user of a session, read back from the stored value: a value that is
/// missing or not a UUID gives no user.
pub fn session_user_id(value: Option<String>) -> (r: Option<u128>)
    ensures
        r == match value {
            Some(v) => uuid_parse_spec(v@),
            None => None,
        },
        value matches Some(v) ==> forall|u: u128| v@ == uuid_hyphenated(u) ==> r == Some(u),
{
    match value {
        Some(v) => ids::uuid_parse(v.as_str()),
        None => None,
    }
}

/// What the session store gives back is what it was given: reading the
/// user of a stored session value (`session_user_id`) yields the user id that
/// was written (`session_value`).
pub proof fn session_value_round_trip(user_id: u128, stored: Seq<char>, read: Option<u128>)
    requires
        stored == uuid_hyphenated(user_id),
        forall|u: u128| stored == uuid_hyphenated(u) ==> read == Some(u),
    ensures
        read == Some(user_id),
{
}

/// The auth use cases, over a password cipher and an access-token issuer.
pub struct AuthUseCases<C: PasswordCipher, T: TokenIssuer> {
    cipher: C,
    tokens: T,
    refresh_ttl_secs: u64,
}

impl<C: PasswordCipher, T: TokenIssuer> AuthUseCases<C, T> {
    pub closed spec fn spec_cipher(&self) -> C {
        self.cipher
    }

    pub closed spec fn spec_tokens(&self) -> T {
        self.tokens
    }

    pub closed spec fn refresh_ttl(&self) -> u64 {
        self.refresh_ttl_secs
    }

    pub fn new(cipher: C, tokens: T, refresh_ttl_secs: u64) -> (r: AuthUseCases<C, T>)
        ensures
            r.spec_cipher() == cipher,
            r.spec_tokens() == tokens,
            r.refresh_ttl() == refresh_ttl_secs,
    {
        AuthUseCases { cipher, tokens, refresh_ttl_secs }
    }

    /// Issues an access token and a fresh refresh token for `user_id`.
    pub fn open_session(&self, user_id: u128) -> (r: Result<PendingSession, AuthError>)
        ensures
            r matches Ok(p) ==> opens_session(*self, p, user_id),
            r matches Err(e) ==> e is Internal,
    {
        let issued = self.tokens.issue(user_id);
        self.session_for(user_id, issued)
    }

    /// The session for `user_id` once the issuer answered: its token with a
    /// fresh refresh token, or an internal error when no token was issued.
    pub fn session_for(&self, user_id: u128, issued: Result<AccessToken, String>) -> (r: Result<
        PendingSession,
        AuthError,
    >)
        ensures
            match issued {
                Ok(t) => r matches Ok(p) && p.access == t && p.user_id == user_id && p.ttl_secs
                    == self.refresh_ttl() && is_refresh_token(p.refresh@) && p.refresh_hash@
                    == token_hash_spec(p.refresh@),
                Err(m) => r == Err::<PendingSession, AuthError>(AuthError::Internal(m)),
            },
    {
        let access = match issued {
            Ok(a) => a,
            Err(m) => {
                return Err(AuthError::Internal(m));
            },
        };
        let refresh = generate_refresh_token();
        let refresh_hash = hash_token(refresh.as_str());
        Ok(PendingSession { access, refresh, refresh_hash, user_id, ttl_secs: self.refresh_ttl_secs })
    }

    /// Checks both credentials, in this order: the e-mail address, then the password.
    pub fn check_credentials(email: &str, password: &str) -> (r: Result<
        (Email, RawPassword),
        AuthError,
    >)
        ensures
            credentials_outcome(email@, password@, r),
            r matches Ok(c) ==> c.0@ == normalize_email(email@) && c.1@ == password@,
            r matches Err(e) ==> e is Domain,
    {
        let email = match Email::parse(email) {
            Ok(e) => e,
            Err(e) => {
                return Err(AuthError::Domain(e));
            },
        };
        let password = match RawPassword::parse(String::from_str(password)) {
            Ok(p) => p,
            Err(e) => {
                return Err(AuthError::Domain(e));
            },
        };
        Ok((email, password))
    }

    /// Registration, before the insert: the checked credentials, the password
    /// hashed, and the new user that is to be inserted.
    pub fn begin_register(&self, email: &str, password: &str) -> (r: Result<User, AuthError>)
        ensures
            register_outcome(*self, email@, password@, r),
    {
        let (email, password) = match Self::check_credentials(email, password) {
            Ok(c) => c,
            Err(e) => {
                return Err(e);
            },
        };
        let hashed = self.cipher.hash(&password);
        Self::user_for(email, hashed)
    }

    /// The user to insert once the password was hashed, or an internal error
    /// when hashing failed.
    pub fn user_for(email: Email, hashed: Result<HashedPassword, String>) -> (r: Result<
        User,
        AuthError,
    >)
        ensures
            match hashed {
                Ok(h) => r matches Ok(u) && u.spec_email() == email && u.spec_password_hash() == h
                    && ids::is_v4_uuid(u.spec_id()) && u.spec_id() != 0,
                Err(m) => r == Err::<User, AuthError>(AuthError::Internal(m)),
            },
    {
        match hashed {
            Ok(h) => Ok(User::register(email, h)),
            Err(m) => Err(AuthError::Internal(m)),
        }
    }

    /// The `user.registered` event written to the outbox with a new user.
    pub fn registration_event(&self, user: &User) -> (r: UserRegistered)
        ensures
            r.user_id == user.spec_id(),
            r.email@ == user.spec_email()@,
    {
        UserRegistered {
            user_id: user.id(),
            email: String::from_str(user.email().as_str()),
            occured_at: crate::auth_domain::now_unix_nanos(),
        }
    }

    /// Registration, once the insert answered: a taken address is refused,
    /// a stored user gets a session.
    pub fn finish_register(&self, user: &User, inserted: Result<(), RepositoryError>) -> (r: Result<
        PendingSession,
        AuthError,
    >)
        ensures
            match inserted {
                Err(RepositoryError::Conflict) => r == Err::<PendingSession, AuthError>(
                    AuthError::EmailTaken,
                ),
                Err(RepositoryError::Other(m)) => r == Err::<PendingSession, AuthError>(
                    AuthError::Internal(m),
                ),
                Ok(()) => (r matches Ok(p) ==> opens_session(*self, p, user.spec_id()))
                    && (r matches Err(e) ==> e is Internal),
            },
    {
        match inserted {
            Err(RepositoryError::Conflict) => Err(AuthError::EmailTaken),
            Err(RepositoryError::Other(m)) => Err(AuthError::Internal(m)),
            Ok(()) => self.open_session(user.id()),
        }
    }

    /// Login, before the lookup: the checked credentials; the address is the
    /// one to look up.
    pub fn begin_login(&self, email: &str, password: &str) -> (r: Result<
        (Email, RawPassword),
        AuthError,
    >)
        ensures
            credentials_outcome(email@, password@, r),
            r matches Ok(c) ==> c.0@ == normalize_email(email@) && c.1@ == password@,
    {
        Self::check_credentials(email, password)
    }

    /// Login, once the lookup answered: an unknown address and a wrong
    /// password both give `InvalidCredentials`; a match gets a session.
    pub fn finish_login(&self, password: &RawPassword, found: Result<Option<User>, RepositoryError>) -> (r: Result<
        PendingSession,
        AuthError,
    >)
        ensures
            login_outcome(*self, password@, found, r),
    {
        let user = match found {
            Err(e) => {
                return Err(AuthError::Internal(e.message()));
            },
            Ok(None) => {
                return Err(AuthError::InvalidCredentials);
            },
            Ok(Some(u)) => u,
        };
        let verified = self.cipher.verify(password, user.password_hash());
        match Self::check_password(verified) {
            Ok(()) => self.open_session(user.id()),
            Err(e) => Err(e),
        }
    }

    /// What the password check decides: a match goes on, a mismatch is
    /// `InvalidCredentials`, a failed check is internal.
    pub fn check_password(verified: Result<bool, String>) -> (r: Result<(), AuthError>)
        ensures
            r == match verified {
                Ok(true) => Ok::<(), AuthError>(()),
                Ok(false) => Err::<(), AuthError>(AuthError::InvalidCredentials),
                Err(m) => Err::<(), AuthError>(AuthError::Internal(m)),
            },
    {
        match verified {
            Ok(true) => Ok(()),
            Ok(false) => Err(AuthError::InvalidCredentials),
            Err(m) => Err(AuthError::Internal(m)),
        }
    }

    /// Refresh, before the store is asked: the key of the presented token.
    pub fn begin_refresh(&self, refresh_token: &str) -> (r: String)
        ensures
            r@ == token_hash_spec(refresh_token@),
            r@ == hex_lower(sha256_spec(encode_utf8(refresh_token@))),
    {
        hash_token(refresh_token)
    }

    /// Refresh, once the store consumed the token (read and deleted it): an
    /// unknown token is refused, a known one gets a new session.
    pub fn finish_refresh(&self, consumed: Result<Option<u128>, String>) -> (r: Result<
        PendingSession,
        AuthError,
    >)
        ensures
            match consumed {
                Err(m) => r == Err::<PendingSession, AuthError>(AuthError::Internal(m)),
                Ok(None) => r == Err::<PendingSession, AuthError>(AuthError::SessionNotFound),
                Ok(Some(u)) => (r matches Ok(p) ==> opens_session(*self, p, u)) && (
                r matches Err(e) ==> e is Internal),
            },
    {
        match consumed {
            Err(m) => Err(AuthError::Internal(m)),
            Ok(None) => Err(AuthError::SessionNotFound),
            Ok(Some(u)) => self.open_session(u),
        }
    }

    /// Logout, before the store is asked: the key of the presented token.
    pub fn begin_logout(&self, refresh_token: &str) -> (r: String)
        ensures
            r@ == token_hash_spec(refresh_token@),
            r@ == hex_lower(sha256_spec(encode_utf8(refresh_token@))),
    {
        hash_token(refresh_token)
    }

    /// Logout, once the store consumed the token: consuming without
    /// reissuing revokes the session, and an unknown token is no error.
    pub fn finish_logout(&self, consumed: Result<Option<u128>, String>) -> (r: Result<(), AuthError>)
        ensures
            match consumed {
                Err(m) => r == Err::<(), AuthError>(AuthError::Internal(m)),
                Ok(_) => r == Ok::<(), AuthError>(()),
            },
    {
        match consumed {
            Err(m) => Err(AuthError::Internal(m)),
            Ok(_) => Ok(()),
        }
    }
}

/// How registration ends before the insert: refused credentials as
/// `credentials_outcome` says; for valid ones, a user with the normalized
/// address whose stored hash accepts the password, or an internal error
/// (the cipher failed).
pub open spec fn register_outcome<C: PasswordCipher, T: TokenIssuer>(
    uc: AuthUseCases<C, T>,
    email: Seq<char>,
    password: Seq<char>,
    r: Result<User, AuthError>,
) -> bool {
    &&& credentials_outcome(email, password, r)
    &&& credentials_valid(email, password) ==> match r {
        Ok(u) => u.spec_email()@ == normalize_email(email) && uc.spec_cipher().accepts(
            password,
            u.spec_password_hash()@,
        ) && ids::is_v4_uuid(u.spec_id()) && u.spec_id() != 0,
        Err(e) => e is Internal,
    }
}

/// How login ends once the lookup answered: a failed lookup is internal, an
/// unknown address is `InvalidCredentials`; for a known user, a session only
/// when the stored hash accepts the password, `InvalidCredentials` exactly
/// when the cipher checks the hash and it does not accept the password, and
/// an internal error when the cipher cannot check the stored hash.
pub open spec fn login_outcome<C: PasswordCipher, T: TokenIssuer>(
    uc: AuthUseCases<C, T>,
    password: Seq<char>,
    found: Result<Option<User>, RepositoryError>,
    r: Result<PendingSession, AuthError>,
) -> bool {
    match found {
        Err(e) => r matches Err(AuthError::Internal(m)) && m@ == repository_message(e),
        Ok(None) => r == Err::<PendingSession, AuthError>(AuthError::InvalidCredentials),
        Ok(Some(u)) => {
            &&& r matches Ok(p) ==> uc.spec_cipher().accepts(password, u.spec_password_hash()@)
                && opens_session(uc, p, u.spec_id())
            &&& r matches Err(e) ==> (e is InvalidCredentials || e is Internal)
            &&& r matches Err(AuthError::InvalidCredentials) ==> !uc.spec_cipher().accepts(
                password,
                u.spec_password_hash()@,
            )
            &&& (uc.spec_cipher().can_check(u.spec_password_hash()@) && !uc.spec_cipher().accepts(
                password,
                u.spec_password_hash()@,
            )) ==> r == Err::<PendingSession, AuthError>(AuthError::InvalidCredentials)
            &&& !uc.spec_cipher().can_check(u.spec_password_hash()@) ==> r matches Err(
                AuthError::Internal(_),
            )
        },
    }
}

/// A session is stored under the fingerprint of its refresh token, which is
/// the key that refreshing or logging out with that token looks up.
pub proof fn refresh_looks_up_the_stored_session<C: PasswordCipher, T: TokenIssuer>(
    uc: AuthUseCases<C, T>,
    opened: PendingSession,
    user_id: u128,
    presented_key: Seq<char>,
)
    requires
        opens_session(uc, opened, user_id),
        presented_key == token_hash_spec(opened.refresh@),
    ensures
        session_key_spec(presented_key) == session_key_spec(opened.refresh_hash@),
{
}

/// A user who registered with a password is never refused with
/// `InvalidCredentials` when logging in with the same password.
pub proof fn registered_password_is_accepted_at_login<C: PasswordCipher, T: TokenIssuer>(
    uc: AuthUseCases<C, T>,
    email: Seq<char>,
    password: Seq<char>,
    user: User,
    login: Result<PendingSession, AuthError>,
)
    requires
        credentials_valid(email, password),
        register_outcome(uc, email, password, Ok(user)),
        login_outcome(uc, password, Ok(Some(user)), login),
    ensures
        !(login matches Err(AuthError::InvalidCredentials)),
{
}

/// Both credentials pass the domain's checks.
pub open spec fn credentials_valid(email: Seq<char>, password: Seq<char>) -> bool {
    email_well_formed(normalize_email(email)) && password_problem(password) is None
}

/// How checking the credentials ends: an invalid address is reported first,
/// then a weak password.
pub open spec fn credentials_outcome<V>(email: Seq<char>, password: Seq<char>, r: Result<V, AuthError>) -> bool {
    if !email_well_formed(normalize_email(email)) {
        r matches Err(AuthError::Domain(DomainError::InvalidEmail))
    } else if let Some(reason) = password_problem(password) {
        r matches Err(AuthError::Domain(DomainError::WeakPassword(m))) && m@ == reason
    } else {
        !(r matches Err(AuthError::Domain(_)))
    }
}

} // verus!
