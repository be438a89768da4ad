//! PASETO v4.public access tokens: issued by the auth service with the
//! Ed25519 secret key, checked by the gateway with the public key only.

use vstd::prelude::*;
use vstd::utf8::encode_utf8;
use crate::hexcodec;
use crate::hexcodec::hex_decode_spec;
use crate::ids;

verus! {

#[verifier::external_type_specification]
#[verifier::external_body]
pub struct ExV4(pasetors::version4::V4);

#[verifier::external_type_specification]
#[verifier::external_body]
#[verifier::reject_recursive_types(V)]
pub struct ExAsymmetricSecretKey<V>(pasetors::keys::AsymmetricSecretKey<V>);

#[verifier::external_type_specification]
#[verifier::external_body]
#[verifier::reject_recursive_types(V)]
pub struct ExAsymmetricPublicKey<V>(pasetors::keys::AsymmetricPublicKey<V>);

#[verifier::external_type_specification]
#[verifier::external_body]
pub struct ExClaims(pasetors::claims::Claims);

#[verifier::external_type_specification]
#[verifier::external_body]
pub struct ExPasetoError(pasetors::errors::Error);

/// The issuer claim that the auth service writes and the gateway demands.
pub open spec fn issuer_spec() -> Seq<char> {
    "velora-auth"@
}

/// The header of every v4.public token.
pub open spec fn v4_public_header() -> Seq<char> {
    "v4.public."@
}

pub open spec fn has_prefix(s: Seq<char>, prefix: Seq<char>) -> bool {
    prefix.len() <= s.len() && s.subrange(0, prefix.len() as int) == prefix
}

/// 64 key bytes whose Ed25519 seed (the first 32 bytes) is all zero: the
/// input on which `AsymmetricSecretKey::<V4>::from` panics.
pub open spec fn is_zero_seed_key(bytes: Seq<u8>) -> bool {
    bytes.len() == 64 && forall|i: int| 0 <= i < 32 ==> #[trigger] bytes[i] == 0
}

/// Whether `AsymmetricSecretKey::<V4>::from` accepts the bytes: 64 bytes made of
/// an Ed25519 seed followed by the public key that the seed derives.
pub uninterp spec fn v4_secret_key_accepts(bytes: Seq<u8>) -> bool;

/// `AsymmetricSecretKey::<V4>::from(bytes)`. Per the crate's source it succeeds
/// only on 64 bytes (seed and matching public key), and panics on an all-zero
/// seed, which `requires` leaves out.
#[verifier::external_body]
fn secret_key_from_bytes(bytes: &[u8]) -> (r: Result<
    pasetors::keys::AsymmetricSecretKey<pasetors::version4::V4>,
    pasetors::errors::Error,
>)
    requires
        !is_zero_seed_key(bytes@),
    ensures
        r is Ok <==> v4_secret_key_accepts(bytes@),
        r is Ok ==> bytes@.len() == 64,
{
    pasetors::keys::AsymmetricSecretKey::<pasetors::version4::V4>::from(bytes)
}

/// `AsymmetricPublicKey::<V4>::from(bytes)`: accepts exactly 32 bytes.
#[verifier::external_body]
fn public_key_from_bytes(bytes: &[u8]) -> (r: Result<
    pasetors::keys::AsymmetricPublicKey<pasetors::version4::V4>,
    pasetors::errors::Error,
>)
    ensures
        r is Ok <==> bytes@.len() == 32,
{
    pasetors::keys::AsymmetricPublicKey::<pasetors::version4::V4>::from(bytes)
}

/// The longest token lifetime that can be asked for, in seconds (about 317
/// years).
pub const MAX_TOKEN_TTL_SECS: u64 = 10_000_000_000;

/// The string-valued claims that a set of claims holds, by claim name.
pub uninterp spec fn claims_strings(claims: pasetors::claims::Claims) -> Map<Seq<char>, Seq<char>>;

/// The string value of the claim `name` in a map of string-valued claims.
pub open spec fn claim_in(claims: Map<Seq<char>, Seq<char>>, name: Seq<char>) -> Option<
    Seq<char>,
> {
    if claims.dom().contains(name) {
        Some(claims[name])
    } else {
        None
    }
}

/// The string value of the member `name` of the JSON object that a PASETO
/// v4.public token text carries as its payload (the decoded message without
/// its signature), read as `serde_json` reads it into a map (a repeated member
/// counts once, with its last value): `None` where that member is absent or
/// not a JSON string. It means something only for text that
/// `UntrustedToken::<Public, V4>::try_from` parses.
pub uninterp spec fn v4_public_claim(token: Seq<char>, name: Seq<char>) -> Option<Seq<char>>;

/// The Unix time, in whole seconds, that `OffsetDateTime::parse(text, &Rfc3339)`
/// reads from the text (`unix_timestamp()`), or `None` where it does not parse.
pub uninterp spec fn rfc3339_unix_seconds(text: Seq<char>) -> Option<int>;

/// The lifetime, in seconds, that string claims announce: `exp` minus `iat`,
/// both read as RFC 3339 times.
pub open spec fn lifetime_of(exp: Option<Seq<char>>, iat: Option<Seq<char>>) -> Option<int> {
    match (exp, iat) {
        (Some(e), Some(i)) => match (rfc3339_unix_seconds(e), rfc3339_unix_seconds(i)) {
            (Some(a), Some(b)) => Some(a - b),
            _ => None,
        },
        _ => None,
    }
}

/// The lifetime that a set of string claims announces.
pub open spec fn claims_lifetime(claims: Map<Seq<char>, Seq<char>>) -> Option<int> {
    lifetime_of(claim_in(claims, "exp"@), claim_in(claims, "iat"@))
}

/// The lifetime that a v4.public token text announces in its claims.
pub open spec fn token_lifetime(token: Seq<char>) -> Option<int> {
    lifetime_of(v4_public_claim(token, "exp"@), v4_public_claim(token, "iat"@))
}

/// `Claims::new_expires_in(&Duration::from_secs(secs))`: claims holding
/// exactly the string claims `iat` and `nbf`, set to the current time, and
/// `exp`, `secs` later. Both times are written in RFC 3339 without their
/// fractions of a second, so `exp` reads exactly `secs` seconds after `iat`.
/// Whether it succeeds and the times themselves depend on the clock and are
/// not stated. The crate adds the lifetime to the current time
/// with `+=`, which panics past the end of `time`'s calendar (year 9999);
/// `requires` bounds the lifetime so that this cannot happen before the year
/// 9680.
#[verifier::external_body]
fn claims_expiring_in(secs: u64) -> (r: Result<pasetors::claims::Claims, pasetors::errors::Error>)
    requires
        secs <= MAX_TOKEN_TTL_SECS,
    ensures
        r matches Ok(c) ==> claims_strings(c).dom() == set!["iat"@, "nbf"@, "exp"@],
        r matches Ok(c) ==> (claim_in(claims_strings(c), "exp"@) matches Some(exp) && (claim_in(
            claims_strings(c),
            "iat"@,
        ) matches Some(iat) && (rfc3339_unix_seconds(exp) matches Some(e) && (rfc3339_unix_seconds(
            iat,
        ) matches Some(i) && e - i == secs)))),
{
    pasetors::claims::Claims::new_expires_in(&std::time::Duration::from_secs(secs))
}

/// `Claims::issuer`: fails exactly on an empty issuer, leaving the claims as
/// they were; otherwise sets the string claim `iss`.
#[verifier::external_body]
fn claims_set_issuer(claims: &mut pasetors::claims::Claims, iss: &str) -> (r: Result<
    (),
    pasetors::errors::Error,
>)
    ensures
        r is Ok <==> iss@.len() > 0,
        r is Ok ==> claims_strings(*final(claims)) == claims_strings(*old(claims)).insert(
            "iss"@,
            iss@,
        ),
        r is Err ==> claims_strings(*final(claims)) == claims_strings(*old(claims)),
{
    claims.issuer(iss)
}

/// `Claims::subject`: fails exactly on an empty subject, leaving the claims as
/// they were; otherwise sets the string claim `sub`.
#[verifier::external_body]
fn claims_set_subject(claims: &mut pasetors::claims::Claims, sub: &str) -> (r: Result<
    (),
    pasetors::errors::Error,
>)
    ensures
        r is Ok <==> sub@.len() > 0,
        r is Ok ==> claims_strings(*final(claims)) == claims_strings(*old(claims)).insert(
            "sub"@,
            sub@,
        ),
        r is Err ==> claims_strings(*final(claims)) == claims_strings(*old(claims)),
{
    claims.subject(sub)
}

/// `AsymmetricSecretKey::<V4>::from(secret)`, then
/// `public::sign(&key, claims, None, None)`: a token without footer, which
/// starts with the `v4.public.` header and carries the claims, serialised as
/// a JSON object, as its payload; so each string claim of the token is the
/// one signed. The key bytes are a seed and the public key it derives (the
/// crate checks that on `from`), and the Ed25519 signature made with them is
/// valid under that public key, the second half of the bytes.
#[verifier::external_body]
fn sign_v4_public(secret: &[u8], claims: &pasetors::claims::Claims) -> (r: Result<
    String,
    pasetors::errors::Error,
>)
    requires
        v4_secret_key_accepts(secret@),
        !is_zero_seed_key(secret@),
    ensures
        r matches Ok(t) ==> has_prefix(t@, v4_public_header()),
        r matches Ok(t) ==> v4_public_signed_by(secret@.subrange(32, 64), t@),
        r matches Ok(t) ==> forall|name: Seq<char>|
            #[trigger] v4_public_claim(t@, name) == claim_in(claims_strings(*claims), name),
{
    let key = pasetors::keys::AsymmetricSecretKey::<pasetors::version4::V4>::from(secret)?;
    pasetors::public::sign(&key, claims, None, None)
}

/// Whether the Ed25519 signature that a v4.public token text carries is
/// valid under the public key `public_key` (32 bytes) for the token's header,
/// message and footer, with no implicit assertion: what
/// `version4::PublicToken::verify` checks of the text.
pub uninterp spec fn v4_public_signed_by(public_key: Seq<u8>, token: Seq<char>) -> bool;

/// Whether `UntrustedToken::<Public, V4>::try_from` parses the text.
pub uninterp spec fn v4_public_token_parses(token: Seq<char>) -> bool;

/// `AsymmetricPublicKey::<V4>::from(key)` and
/// `UntrustedToken::<Public, V4>::try_from(token)`, then
/// `public::verify(&key, .., rules, None, None)` with the rules of
/// `ClaimsValidationRules::new()` made to demand the issuer `issuer`
/// (`validate_issuer_with`), then the verified token's `payload_claims()`.
/// When it succeeds, the text parses, its signature is valid under `key`,
/// its claims are those that `verify` read from its payload, and its `iss`
/// claim is the string `issuer`. Whether it succeeds also depends on the
/// clock (`nbf`, `iat`, `exp`), which is not stated.
#[verifier::external_body]
fn verify_v4_public(key: &[u8], token: &str, issuer: &str) -> (r: Result<
    Option<pasetors::claims::Claims>,
    pasetors::errors::Error,
>)
    requires
        key@.len() == 32,
    ensures
        r is Ok ==> v4_public_token_parses(token@),
        r is Ok ==> v4_public_signed_by(key@, token@),
        r is Ok ==> v4_public_claim(token@, "iss"@) == Some(issuer@),
        r matches Ok(Some(c)) ==> forall|name: Seq<char>|
            #[trigger] v4_public_claim(token@, name) == claim_in(claims_strings(c), name),
{
    let key = pasetors::keys::AsymmetricPublicKey::<pasetors::version4::V4>::from(key)?;
    let untrusted =
        pasetors::token::UntrustedToken::<pasetors::Public, pasetors::version4::V4>::try_from(token)?;
    let mut rules = pasetors::claims::ClaimsValidationRules::new();
    rules.validate_issuer_with(issuer);
    let trusted = pasetors::public::verify(&key, &untrusted, &rules, None, None)?;
    Ok(trusted.payload_claims().cloned())
}

/// `claims.get_claim(name)?.as_str()`, as an owned string: the claim `name`
/// when it is a JSON string.
#[verifier::external_body]
fn string_claim(claims: &pasetors::claims::Claims, name: &str) -> (r: Option<String>)
    ensures
        match r {
            Some(s) => claim_in(claims_strings(*claims), name@) == Some(s@),
            None => claim_in(claims_strings(*claims), name@) is None,
        },
{
    match claims.get_claim(name) {
        Some(value) => match value.as_str() {
            Some(s) => Some(s.to_string()),
            None => None,
        },
        None => None,
    }
}

/// Setting a claim changes that claim alone.
proof fn lemma_claim_in_insert(
    claims: Map<Seq<char>, Seq<char>>,
    key: Seq<char>,
    value: Seq<char>,
    name: Seq<char>,
)
    ensures
        claim_in(claims.insert(key, value), name) == if name == key {
            Some(value)
        } else {
            claim_in(claims, name)
        },
{
}

/// What a token that `issue` made for `user` says: it is a v4.public token
/// from the auth service whose subject is the user's UUID text.
pub open spec fn issued_for(token: Seq<char>, user: u128) -> bool {
    &&& has_prefix(token, v4_public_header())
    &&& v4_public_claim(token, "iss"@) == Some(issuer_spec())
    &&& v4_public_claim(token, "sub"@) == Some(crate::ids::uuid_hyphenated(user))
}

/// What `verify` has checked of a token that it accepts for the user `u`:
/// the issuer is the auth service, and the subject is UUID text that parses
/// to `u`, `u` being the only id whose hyphenated text it could be.
pub open spec fn accepted_for(token: Seq<char>, u: u128) -> bool {
    &&& v4_public_claim(token, "iss"@) == Some(issuer_spec())
    &&& v4_public_claim(token, "sub"@) matches Some(s)
    &&& crate::ids::uuid_parse_spec(s) == Some(u)
    &&& forall|w: u128| s == crate::ids::uuid_hyphenated(w) ==> w == u
}

/// A token issued for a user verifies back to that user only: whenever
/// `verify` accepts a token that `issue` made for `user`, the id it answers
/// is `user`.
pub proof fn lemma_issued_token_names_its_user(token: Seq<char>, user: u128, u: u128)
    requires
        issued_for(token, user),
        accepted_for(token, u),
    ensures
        u == user,
{
}

/// The bytes that a hexadecimal key text decodes to, if it decodes.
pub open spec fn key_bytes(hex: Seq<char>) -> Option<Seq<u8>> {
    hex_decode_spec(encode_utf8(hex))
}

/// An access token as handed to the client.
pub struct AccessToken {
    pub token: String,
    pub expires_in_secs: i64,
}

/// Issues access tokens for a user id.
pub trait TokenIssuer {
    /// What every token that this issuer hands out satisfies.
    spec fn well_formed_token(&self, token: AccessToken) -> bool;

    /// What a token that this issuer hands out for `user_id` says of that user.
    spec fn issued_for_user(&self, token: AccessToken, user_id: u128) -> bool;

    fn issue(&self, user_id: u128) -> (r: Result<AccessToken, String>)
        ensures
            r matches Ok(t) ==> self.well_formed_token(t),
            r matches Ok(t) ==> self.issued_for_user(t, user_id),
    ;
}

/// Signs PASETO v4.public tokens. It holds the Ed25519 secret key.
pub struct PasetoIssuer {
    secret: Vec<u8>,
    ttl_secs: u64,
}

impl PasetoIssuer {
    /// The key bytes are a v4 secret key (a seed that is not all zero and the
    /// public key it derives), and the lifetime is in range.
    #[verifier::type_invariant]
    spec fn well_formed(&self) -> bool {
        &&& self.ttl_secs <= MAX_TOKEN_TTL_SECS
        &&& v4_secret_key_accepts(self.secret@)
        &&& !is_zero_seed_key(self.secret@)
    }

    pub closed spec fn ttl(&self) -> u64 {
        self.ttl_secs
    }

    /// The 64 bytes of the secret key: the seed, then the public key.
    pub closed spec fn secret_key(&self) -> Seq<u8> {
        self.secret@
    }

    /// The public key under which this issuer's tokens are signed.
    pub open spec fn public_key(&self) -> Seq<u8> {
        self.secret_key().subrange(32, 64)
    }

    /// Whether a secret key text decodes to 64 bytes whose seed is all zero,
    /// which `from_hex` does not take (the key library panics on it).
    pub fn has_zero_seed(secret_hex: &str) -> (r: bool)
        ensures
            r == (key_bytes(secret_hex@) matches Some(b) && is_zero_seed_key(b)),
    {
        let bytes = match hexcodec::decode(secret_hex) {
            Ok(b) => b,
            Err(_) => {
                return false;
            },
        };
        assert(key_bytes(secret_hex@) == Some(bytes@));
        if bytes.len() != 64 {
            return false;
        }
        let mut i: usize = 0;
        while i < 32
            invariant
                i <= 32,
                bytes@.len() == 64,
                key_bytes(secret_hex@) == Some(bytes@),
                forall|k: int| 0 <= k < i ==> #[trigger] bytes@[k] == 0,
            decreases 32 - i,
        {
            if bytes[i] != 0 {
                assert(bytes@[i as int] != 0);
                return false;
            }
            i = i + 1;
        }
        true
    }

    /// Reads the secret key from hexadecimal text. It fails when the text is
    /// not hexadecimal or the bytes are not a v4 secret key. The token
    /// lifetime is bounded by `MAX_TOKEN_TTL_SECS`.
    pub fn from_hex(secret_hex: &str, ttl_secs: u64) -> (r: Result<PasetoIssuer, String>)
        requires
            !(key_bytes(secret_hex@) matches Some(b) && is_zero_seed_key(b)),
            ttl_secs <= MAX_TOKEN_TTL_SECS,
        ensures
            r is Ok <==> (key_bytes(secret_hex@) matches Some(b) && v4_secret_key_accepts(b)),
            r matches Ok(i) ==> i.ttl() == ttl_secs && key_bytes(secret_hex@) == Some(
                i.secret_key(),
            ),
    {
        let bytes = match hexcodec::decode(secret_hex) {
            Ok(b) => b,
            Err(_) => {
                return Err(String::from_str("invalid hexadecimal key"));
            },
        };
        match secret_key_from_bytes(bytes.as_slice()) {
            Ok(_) => Ok(PasetoIssuer { secret: bytes, ttl_secs }),
            Err(_) => Err(String::from_str("invalid PASETO key")),
        }
    }

    /// What `issue` answers once the claims are signed: the signed text,
    /// announced to live the configured number of seconds, or the signing
    /// failure.
    pub fn access_token_from(&self, signed: Result<String, pasetors::errors::Error>) -> (r: Result<
        AccessToken,
        String,
    >)
        ensures
            match signed {
                Ok(t) => r matches Ok(a) && a.token@ == t@ && a.expires_in_secs == self.ttl() as i64,
                Err(_) => r matches Err(m) && m@ == "PASETO signature"@,
            },
    {
        proof {
            use_type_invariant(self);
        }
        match signed {
            Ok(token) => Ok(AccessToken { token, expires_in_secs: self.ttl_secs as i64 }),
            Err(_) => Err(String::from_str("PASETO signature")),
        }
    }
}

impl TokenIssuer for PasetoIssuer {
    /// A v4.public token, announced to live the configured number of seconds.
    open spec fn well_formed_token(&self, token: AccessToken) -> bool {
        has_prefix(token.token@, v4_public_header()) && token.expires_in_secs == self.ttl() as i64
    }

    /// Signed with this issuer's key, by the auth service, for the user's
    /// UUID, and living the configured number of seconds.
    open spec fn issued_for_user(&self, token: AccessToken, user_id: u128) -> bool {
        &&& issued_for(token.token@, user_id)
        &&& v4_public_signed_by(self.public_key(), token.token@)
        &&& token_lifetime(token.token@) == Some(self.ttl() as int)
    }

    /// A token, when one is issued, is a v4.public token, announced to live
    /// the configured number of seconds.
    fn issue(&self, user_id: u128) -> (r: Result<AccessToken, String>)
        ensures
            r matches Ok(t) ==> has_prefix(t.token@, v4_public_header()) && t.expires_in_secs
                == self.ttl() as i64,
            r matches Ok(t) ==> issued_for(t.token@, user_id),
            r matches Ok(t) ==> v4_public_signed_by(self.public_key(), t.token@),
            r matches Ok(t) ==> token_lifetime(t.token@) == Some(self.ttl() as int),
    {
        proof {
            use_type_invariant(self);
            reveal_strlit("iss");
            reveal_strlit("sub");
            reveal_strlit("exp");
            reveal_strlit("iat");
        }
        let mut claims = match claims_expiring_in(self.ttl_secs) {
            Ok(c) => c,
            Err(_) => {
                return Err(String::from_str("claims"));
            },
        };
        let ghost before = claims_strings(claims);
        if claims_set_issuer(&mut claims, "velora-auth").is_err() {
            return Err(String::from_str("claims"));
        }
        let subject = ids::uuid_to_string(user_id);
        if claims_set_subject(&mut claims, subject.as_str()).is_err() {
            return Err(String::from_str("claims"));
        }
        proof {
            let with_iss = before.insert("iss"@, issuer_spec());
            lemma_claim_in_insert(before, "iss"@, issuer_spec(), "iss"@);
            lemma_claim_in_insert(with_iss, "sub"@, subject@, "iss"@);
            lemma_claim_in_insert(with_iss, "sub"@, subject@, "sub"@);
            lemma_claim_in_insert(before, "iss"@, issuer_spec(), "exp"@);
            lemma_claim_in_insert(before, "iss"@, issuer_spec(), "iat"@);
            lemma_claim_in_insert(with_iss, "sub"@, subject@, "exp"@);
            lemma_claim_in_insert(with_iss, "sub"@, subject@, "iat"@);
            assert("exp"@[0] != "iss"@[0] && "exp"@[0] != "sub"@[0]);
            assert("iat"@[1] != "iss"@[1] && "iat"@[0] != "sub"@[0]);
            assert(claims_lifetime(claims_strings(claims)) == claims_lifetime(before));
            assert("iss"@[0] != "sub"@[0]);
            assert(claims_strings(claims) == with_iss.insert("sub"@, subject@));
            assert(claim_in(claims_strings(claims), "iss"@) == Some(issuer_spec()));
        }
        let signed = sign_v4_public(self.secret.as_slice(), &claims);
        self.access_token_from(signed)
    }
}

/// Checks PASETO v4.public tokens with the public key alone: it can verify,
/// never sign.
pub struct PasetoVerifier {
    public_key: Vec<u8>,
}

impl PasetoVerifier {
    /// The key is an Ed25519 public key: 32 bytes.
    #[verifier::type_invariant]
    spec fn well_formed(&self) -> bool {
        self.public_key@.len() == 32
    }

    /// The public key that tokens must be signed for.
    pub closed spec fn key(&self) -> Seq<u8> {
        self.public_key@
    }

    /// Reads the public key from hexadecimal text: 32 bytes.
    pub fn from_hex(public_hex: &str) -> (r: Result<PasetoVerifier, String>)
        ensures
            r is Ok <==> (key_bytes(public_hex@) matches Some(b) && b.len() == 32),
            r matches Ok(v) ==> key_bytes(public_hex@) == Some(v.key()),
    {
        let bytes = match hexcodec::decode(public_hex) {
            Ok(b) => b,
            Err(_) => {
                return Err(String::from_str("invalid hexadecimal key"));
            },
        };
        match public_key_from_bytes(bytes.as_slice()) {
            Ok(_) => Ok(PasetoVerifier { public_key: bytes }),
            Err(_) => Err(String::from_str("invalid PASETO public key")),
        }
    }

    /// The user id carried by an authentic, unexpired token issued by the
    /// auth service, whose subject is a UUID. An accepted token parses, is
    /// signed for this verifier's key, names the auth service as its issuer
    /// and the returned user as its subject.
    pub fn verify(&self, token: &str) -> (r: Option<u128>)
        ensures
            r is Some ==> v4_public_token_parses(token@),
            r is Some ==> v4_public_signed_by(self.key(), token@),
            r matches Some(u) ==> accepted_for(token@, u),
    {
        proof {
            use_type_invariant(self);
        }
        let claims = match verify_v4_public(self.public_key.as_slice(), token, "velora-auth") {
            Ok(Some(c)) => c,
            _ => {
                return None;
            },
        };
        Self::user_of_subject(string_claim(&claims, "sub"))
    }

    /// The user id that a verified token's subject claim names: the claim must
    /// be present and be UUID text.
    pub fn user_of_subject(subject: Option<String>) -> (r: Option<u128>)
        ensures
            r == match subject {
                Some(s) => crate::ids::uuid_parse_spec(s@),
                None => None,
            },
            subject matches Some(s) ==> forall|u: u128|
                s@ == crate::ids::uuid_hyphenated(u) ==> r == Some(u),
    {
        match subject {
            Some(s) => ids::uuid_parse(s.as_str()),
            None => None,
        }
    }
}

} // verus!
