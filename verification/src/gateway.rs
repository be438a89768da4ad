//! The REST gateway: its configuration, the structural checks of request
//! bodies, the single error type of the API and how it is derived from gRPC
//! statuses, and the bearer-token authentication of protected routes.

use vstd::prelude::*;
use crate::config::{required, required_parse, required_parse_spec, required_spec, ConfigError, Env};
use crate::grpc::{AuthTokens, GrpcCode};
use crate::paseto::{accepted_for, PasetoVerifier};
use crate::text::{chars_of, trim, trim_spec};

verus! {

pub struct Config {
    pub http_port: u16,
    pub auth_grpc_url: String,
    pub paseto_public_hex: String,
}

/// The gateway configuration read from `vars`: `HTTP_PORT`, `AUTH_GRPC_URL`
/// and `PASETO_PUBLIC_KEY`, all required, in this order.
pub open spec fn gateway_config_outcome(vars: Seq<(String, String)>, r: Result<Config, ConfigError>) -> bool {
    match required_parse_spec(vars, "HTTP_PORT"@, 65535) {
        Err(f) => r matches Err(e) && e@ == f,
        Ok(port) => match required_spec(vars, "AUTH_GRPC_URL"@) {
            Err(f) => r matches Err(e) && e@ == f,
            Ok(url) => match required_spec(vars, "PASETO_PUBLIC_KEY"@) {
                Err(f) => r matches Err(e) && e@ == f,
                Ok(key) => r matches Ok(c) && c.http_port == port && c.auth_grpc_url@ == url
                    && c.paseto_public_hex@ == key,
            },
        },
    }
}

impl Config {
    pub fn load(env: &Env) -> (r: Result<Config, ConfigError>)
        ensures
            gateway_config_outcome(env.entries(), r),
    {
        let http_port = match required_parse(env, "HTTP_PORT") {
            Ok(v) => v,
            Err(e) => {
                return Err(e);
            },
        };
        let auth_grpc_url = match required(env, "AUTH_GRPC_URL") {
            Ok(v) => v,
            Err(e) => {
                return Err(e);
            },
        };
        let paseto_public_hex = match required(env, "PASETO_PUBLIC_KEY") {
            Ok(v) => v,
            Err(e) => {
                return Err(e);
            },
        };
        Ok(Config { http_port, auth_grpc_url, paseto_public_hex })
    }
}

/// The single error of the REST API.
#[derive(Debug)]
pub enum ApiError {
    /// An HTTP status, a message and an optional machine-readable code.
    Status { status: u16, message: String, code: Option<String> },
    /// Missing or invalid bearer token.
    Unauthorized,
    Internal(String),
}

/// What an `ApiError` answers with: HTTP status, the `error` text of the JSON
/// body and its optional `code` entry.
pub struct ErrorResponse {
    pub status: u16,
    pub error: String,
    pub code: Option<String>,
}

pub open spec fn opt_view(o: Option<String>) -> Option<Seq<char>> {
    match o {
        Some(s) => Some(s@),
        None => None,
    }
}

/// The HTTP status that a gRPC code is answered with.
pub open spec fn http_status_spec(code: GrpcCode) -> u16 {
    match code {
        GrpcCode::InvalidArgument => 400,
        GrpcCode::Unauthenticated => 401,
        GrpcCode::PermissionDenied => 403,
        GrpcCode::NotFound => 404,
        GrpcCode::AlreadyExists => 409,
        GrpcCode::ResourceExhausted => 429,
        GrpcCode::Unavailable => 502,
        _ => 500,
    }
}

impl ApiError {
    /// A gateway-level validation error: HTTP 400 with a message and a code.
    pub fn bad_request(message: String, code: &str) -> (r: ApiError)
        ensures
            r matches ApiError::Status { status, message: m, code: c } && status == 400 && m
                == message && opt_view(c) == Some(code@),
    {
        ApiError::Status { status: 400, message, code: Some(String::from_str(code)) }
    }

    /// Mapping of an upstream gRPC status: its code maps to an HTTP
    /// status, its message and `x-error-code` entry are passed on as they are.
    pub fn from_grpc(code: GrpcCode, message: String, error_code: Option<String>) -> (r: ApiError)
        ensures
            r == (ApiError::Status {
                status: http_status_spec(code),
                message: message,
                code: error_code,
            }),
    {
        let status: u16 = match code {
            GrpcCode::InvalidArgument => 400,
            GrpcCode::Unauthenticated => 401,
            GrpcCode::PermissionDenied => 403,
            GrpcCode::NotFound => 404,
            GrpcCode::AlreadyExists => 409,
            GrpcCode::ResourceExhausted => 429,
            GrpcCode::Unavailable => 502,
            _ => 500,
        };
        ApiError::Status { status, message, code: error_code }
    }

    /// The response that the error is rendered as.
    pub fn response(self) -> (r: ErrorResponse)
        ensures
            match self {
                ApiError::Status { status, message, code } => r.status == status && r.error
                    == message && r.code == code,
                ApiError::Unauthorized => r.status == 401 && r.error@
                    == "missing or invalid token"@ && opt_view(r.code) == Some("UNAUTHORIZED"@),
                ApiError::Internal(_) => r.status == 500 && r.error@ == "internal error"@
                    && r.code is None,
            },
    {
        match self {
            ApiError::Status { status, message, code } => ErrorResponse {
                status,
                error: message,
                code,
            },
            ApiError::Unauthorized => ErrorResponse {
                status: 401,
                error: String::from_str("missing or invalid token"),
                code: Some(String::from_str("UNAUTHORIZED")),
            },
            ApiError::Internal(_) => ErrorResponse {
                status: 500,
                error: String::from_str("internal error"),
                code: None,
            },
        }
    }
}

/// The address has a first `@` that is neither its first nor its last
/// character: `splitn(2, '@')` gives two non-empty parts.
pub open spec fn splits_at_sign(s: Seq<char>) -> bool {
    exists|i: int|
        0 < i < s.len() - 1 && #[trigger] s[i] == '@' && forall|j: int| 0 <= j < i ==> s[j] != '@'
}

/// Which check a credentials body fails first, as (message, code).
pub open spec fn credentials_problem(email: Seq<char>, password: Seq<char>) -> Option<
    (Seq<char>, Seq<char>),
> {
    if trim_spec(email).len() == 0 {
        Some(("email is required"@, "EMAIL_REQUIRED"@))
    } else if !splits_at_sign(email) {
        Some(("email is invalid"@, "EMAIL_INVALID"@))
    } else if password.len() == 0 {
        Some(("password is required"@, "PASSWORD_REQUIRED"@))
    } else {
        None
    }
}

/// `r` is the outcome of a structural check that found `problem`.
pub open spec fn check_outcome(problem: Option<(Seq<char>, Seq<char>)>, r: Result<(), ApiError>) -> bool {
    match problem {
        None => r is Ok,
        Some((m, c)) => r matches Err(ApiError::Status { status, message, code }) && status == 400
            && message@ == m && opt_view(code) == Some(c),
    }
}

fn splits_at_sign_exec(s: &str) -> (r: bool)
    ensures
        r == splits_at_sign(s@),
{
    let v = chars_of(s);
    let n = v.len();
    let mut i: usize = 0;
    while i < n && v[i] != '@'
        invariant
            i <= n == v.len(),
            v@ == s@,
            forall|j: int| 0 <= j < i ==> v@[j] != '@',
        decreases n - i,
    {
        i = i + 1;
    }
    if i < n && 0 < i && i + 1 < n {
        assert(v@[i as int] == '@');
        true
    } else {
        assert forall|k: int|
            0 < k < s@.len() - 1 && #[trigger] s@[k] == '@' implies !(forall|j: int|
            0 <= j < k ==> s@[j] != '@') by {
            if k != i {
                assert(k > i);
                assert(s@[i as int] == '@');
            }
        }
        false
    }
}

/// Body of the register and login requests.
pub struct CredentialsBody {
    pub email: String,
    pub password: String,
}

impl CredentialsBody {
    /// Structural checks only (empty fields, the shape around `@`); the
    /// business rules stay with the auth service.
    pub fn validate(&self) -> (r: Result<(), ApiError>)
        ensures
            check_outcome(credentials_problem(self.email@, self.password@), r),
    {
        let trimmed = trim(self.email.as_str());
        if trimmed.as_str().is_empty() {
            return Err(ApiError::bad_request(String::from_str("email is required"), "EMAIL_REQUIRED"));
        }
        if !splits_at_sign_exec(self.email.as_str()) {
            return Err(ApiError::bad_request(String::from_str("email is invalid"), "EMAIL_INVALID"));
        }
        if self.password.as_str().is_empty() {
            return Err(
                ApiError::bad_request(String::from_str("password is required"), "PASSWORD_REQUIRED"),
            );
        }
        Ok(())
    }
}

/// Body of the refresh and logout requests.
pub struct RefreshBody {
    pub refresh_token: String,
}

impl RefreshBody {
    pub fn validate(&self) -> (r: Result<(), ApiError>)
        ensures
            check_outcome(
                if self.refresh_token@.len() == 0 {
                    Some(("refresh_token is required"@, "REFRESH_TOKEN_REQUIRED"@))
                } else {
                    None
                },
                r,
            ),
    {
        if self.refresh_token.as_str().is_empty() {
            return Err(
                ApiError::bad_request(
                    String::from_str("refresh_token is required"),
                    "REFRESH_TOKEN_REQUIRED",
                ),
            );
        }
        Ok(())
    }
}

/// The tokens answer of the REST API.
pub struct TokensResponse {
    pub access_token: String,
    pub refresh_token: String,
    /// Token lifetime in seconds.
    pub expires_in: i64,
    pub token_type: String,
}

impl TokensResponse {
    pub fn from(t: AuthTokens) -> (r: TokensResponse)
        ensures
            r.access_token == t.access_token,
            r.refresh_token == t.refresh_token,
            r.expires_in == t.expires_in,
            r.token_type@ == "Bearer"@,
    {
        TokensResponse {
            access_token: t.access_token,
            refresh_token: t.refresh_token,
            expires_in: t.expires_in,
            token_type: String::from_str("Bearer"),
        }
    }
}

pub open spec fn bearer_prefix() -> Seq<char> {
    "Bearer "@
}

/// The token of an `Authorization: Bearer <token>` header value.
pub open spec fn bearer_token_spec(header: Seq<char>) -> Option<Seq<char>> {
    if bearer_prefix().len() <= header.len() && header.subrange(0, bearer_prefix().len() as int)
        == bearer_prefix() {
        Some(header.subrange(bearer_prefix().len() as int, header.len() as int))
    } else {
        None
    }
}

pub fn bearer_token(header: &str) -> (r: Option<String>)
    ensures
        match bearer_token_spec(header@) {
            Some(t) => r matches Some(s) && s@ == t,
            None => r is None,
        },
{
    let v = chars_of(header);
    let p = chars_of("Bearer ");
    proof {
        reveal_strlit("Bearer ");
    }
    let n = v.len();
    let m = p.len();
    if n < m {
        return None;
    }
    let mut i: usize = 0;
    while i < m
        invariant
            i <= m <= n,
            v@ == header@,
            p@ == bearer_prefix(),
            m == p.len(),
            n == v.len(),
            forall|k: int| 0 <= k < i ==> v@[k] == p@[k],
        decreases m - i,
    {
        if v[i] != p[i] {
            assert(v@.subrange(0, m as int)[i as int] != p@[i as int]);
            return None;
        }
        i = i + 1;
    }
    assert(v@.subrange(0, m as int) =~= p@);
    Some(crate::text::string_from_chars(&v, m, n))
}

/// The authenticated user of a protected route.
pub struct CurrentUser(pub u128);

impl CurrentUser {
    /// Authenticates a request from its `Authorization` header: a bearer
    /// token that the verifier accepts, for the user that its subject names.
    /// Anything else is `Unauthorized`.
    pub fn authenticate(authorization: Option<&str>, verifier: &PasetoVerifier) -> (r: Result<
        CurrentUser,
        ApiError,
    >)
        ensures
            authorization is None ==> r matches Err(ApiError::Unauthorized),
            authorization matches Some(h) && bearer_token_spec(h@) is None ==> r matches Err(
                ApiError::Unauthorized,
            ),
            r matches Err(e) ==> e is Unauthorized,
            r matches Ok(c) ==> (authorization matches Some(h) && (bearer_token_spec(h@) matches Some(
                t,
            ) && accepted_for(t, c.0))),
    {
        let header = match authorization {
            Some(h) => h,
            None => {
                return Err(ApiError::Unauthorized);
            },
        };
        let token = match bearer_token(header) {
            Some(t) => t,
            None => {
                return Err(ApiError::Unauthorized);
            },
        };
        Self::from_verified(verifier.verify(token.as_str()))
    }

    /// The user once the token was checked: a rejected token is `Unauthorized`.
    pub fn from_verified(verified: Option<u128>) -> (r: Result<CurrentUser, ApiError>)
        ensures
            match verified {
                Some(u) => r matches Ok(c) && c.0 == u,
                None => r matches Err(ApiError::Unauthorized),
            },
    {
        match verified {
            Some(user_id) => Ok(CurrentUser(user_id)),
            None => Err(ApiError::Unauthorized),
        }
    }
}

} // verus!
