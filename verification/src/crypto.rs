//! Password hashing (Argon2id) and refresh-token material (random tokens and
//! their SHA-256 fingerprints).

use vstd::prelude::*;
use vstd::utf8::encode_utf8;
use crate::auth_domain::{HashedPassword, RawPassword};
use crate::hexcodec;
use crate::hexcodec::hex_lower;

verus! {

/// The SHA-256 digest of the given bytes (`Sha256::digest`).
pub uninterp spec fn sha256_spec(data: Seq<u8>) -> Seq<u8>;

/// `Sha256::digest(data)`: the result is named by `sha256_spec`; a SHA-256
/// digest is 32 bytes long.
#[verifier::external_body]
fn sha256(data: &[u8]) -> (r: Vec<u8>)
    ensures
        r@ == sha256_spec(data@),
        r@.len() == 32,
{
    <sha2::Sha256 as sha2::Digest>::digest(data).to_vec()
}

/// `rand::thread_rng().fill_bytes(..)` on a 32-byte buffer: 32 bytes from the
/// thread's cryptographic generator. Nothing is stated of their values.
#[verifier::external_body]
fn random_bytes_32() -> (r: Vec<u8>)
    ensures
        r@.len() == 32,
{
    let mut bytes = [0u8; 32];
    rand::RngCore::fill_bytes(&mut rand::thread_rng(), &mut bytes);
    bytes.to_vec()
}

/// What the server keeps of a refresh token: the lowercase hexadecimal SHA-256
/// digest of its UTF-8 bytes.
pub open spec fn token_hash_spec(token: Seq<char>) -> Seq<char> {
    hex_lower(sha256_spec(encode_utf8(token)))
}

/// A refresh token as it is handed out: 64 lowercase hexadecimal digits.
pub open spec fn is_refresh_token(token: Seq<char>) -> bool {
    exists|bytes: Seq<u8>| bytes.len() == 32 && token == #[trigger] hex_lower(bytes)
}

/// The fingerprint of a refresh token is the lowercase hexadecimal SHA-256
/// digest of all of the token's UTF-8 bytes, whatever the token.
pub proof fn lemma_token_hash_covers_the_whole_token(token: Seq<char>)
    ensures
        token_hash_spec(token) == hex_lower(sha256_spec(encode_utf8(token))),
{
}

/// Fingerprint under which a refresh token is stored: the lowercase
/// hexadecimal SHA-256 digest of the token's UTF-8 bytes, all of them.
pub fn hash_token(token: &str) -> (r: String)
    ensures
        r@ == token_hash_spec(token@),
        r@ == hex_lower(sha256_spec(encode_utf8(token@))),
        r@.len() == 64,
{
    let digest = sha256(token.as_bytes());
    proof {
        hexcodec::lemma_hex_lower_len(digest@);
    }
    hexcodec::encode(digest.as_slice())
}

/// 256 bits of cryptographic randomness, encoded in hexadecimal.
pub fn generate_refresh_token() -> (r: String)
    ensures
        is_refresh_token(r@),
{
    let bytes = random_bytes_32();
    let r = hexcodec::encode(bytes.as_slice());
    assert(bytes@.len() == 32 && r@ == hex_lower(bytes@));
    r
}

/// Password hashing, as the auth use cases need it.
pub trait PasswordCipher {
    /// Whether the stored hash `hash` accepts the password `password`.
    spec fn accepts(&self, password: Seq<char>, hash: Seq<char>) -> bool;

    /// Hashes a password; a hash that is returned accepts that password.
    fn hash(&self, raw: &RawPassword) -> (r: Result<HashedPassword, String>)
        ensures
            r matches Ok(h) ==> self.accepts(raw@, h@),
    ;

    /// Whether the stored hash `hash` is one that the cipher can check a
    /// password against.
    spec fn can_check(&self, hash: Seq<char>) -> bool;

    /// Checks a password against a stored hash: it answers exactly for the
    /// hashes that it can check.
    fn verify(&self, raw: &RawPassword, hash: &HashedPassword) -> (r: Result<bool, String>)
        ensures
            r is Ok <==> self.can_check(hash@),
            r matches Ok(b) ==> b == self.accepts(raw@, hash@),
    ;
}

#[verifier::external_type_specification]
#[verifier::external_body]
pub struct ExPasswordHashError(argon2::password_hash::Error);

#[verifier::external_type_specification]
#[verifier::external_body]
pub struct ExSaltString(argon2::password_hash::SaltString);

/// Whether `PasswordHash::new` parses the text as a PHC string.
pub uninterp spec fn phc_parses(phc: Seq<char>) -> bool;

/// Whether Argon2 (default parameters) accepts `password` for the PHC string
/// `phc`, as `PasswordVerifier::verify_password` decides.
pub uninterp spec fn argon2_accepts(password: Seq<u8>, phc: Seq<char>) -> bool;

/// `SaltString::generate(&mut OsRng)`: a fresh random salt. Nothing is stated
/// of it.
#[verifier::external_body]
fn generate_salt() -> (r: argon2::password_hash::SaltString) {
    argon2::password_hash::SaltString::generate(&mut argon2::password_hash::rand_core::OsRng)
}

/// `Argon2::default().hash_password(password, salt)`, as PHC text. A hash
/// that it returns parses, and verifies the password it was made from (the
/// contract of the `password-hash` traits); nothing else is stated, since the
/// text depends on the salt.
#[verifier::external_body]
fn argon2_hash(password: &[u8], salt: &argon2::password_hash::SaltString) -> (r: Result<
    String,
    argon2::password_hash::Error,
>)
    ensures
        r matches Ok(phc) ==> phc_parses(phc@) && argon2_accepts(password@, phc@),
{
    match argon2::PasswordHasher::hash_password(&argon2::Argon2::default(), password, salt) {
        Ok(h) => Ok(h.to_string()),
        Err(e) => Err(e),
    }
}

/// `PasswordHash::new(phc)`, then `Argon2::default().verify_password(password, ..)`
/// (whose `Ok` means a match). It fails exactly when the PHC text does not
/// parse; otherwise it answers whether Argon2 accepts the password.
#[verifier::external_body]
fn argon2_verify(password: &[u8], phc: &str) -> (r: Result<bool, argon2::password_hash::Error>)
    ensures
        r is Ok <==> phc_parses(phc@),
        r matches Ok(b) ==> b == argon2_accepts(password@, phc@),
{
    match argon2::password_hash::PasswordHash::new(phc) {
        Ok(parsed) => Ok(
            argon2::PasswordVerifier::verify_password(
                &argon2::Argon2::default(),
                password,
                &parsed,
            ).is_ok(),
        ),
        Err(e) => Err(e),
    }
}

/// What `Argon2Cipher::verify` answers for a password and a stored hash:
/// `None` for a hash that does not parse.
pub open spec fn argon2_verify_outcome(password: Seq<char>, hash: Seq<char>) -> Option<bool> {
    if phc_parses(hash) {
        Some(argon2_accepts(encode_utf8(password), hash))
    } else {
        None
    }
}

/// Argon2id with the crate's default parameters and a random salt per hash.
pub struct Argon2Cipher;

impl Argon2Cipher {
    /// What `hash` answers once Argon2 has run: the stored hash is the PHC
    /// text, or the hashing failed.
    pub fn hashed_from(phc: Result<String, argon2::password_hash::Error>) -> (r: Result<
        HashedPassword,
        String,
    >)
        ensures
            match phc {
                Ok(p) => r matches Ok(h) && h@ == p@,
                Err(_) => r matches Err(m) && m@ == "argon2 hash failed"@,
            },
    {
        match phc {
            Ok(p) => Ok(HashedPassword::from_trusted(p)),
            Err(_) => Err(String::from_str("argon2 hash failed")),
        }
    }
}

impl PasswordCipher for Argon2Cipher {
    open spec fn accepts(&self, password: Seq<char>, hash: Seq<char>) -> bool {
        argon2_verify_outcome(password, hash) == Some(true)
    }

    /// A hash that parses as PHC text.
    open spec fn can_check(&self, hash: Seq<char>) -> bool {
        phc_parses(hash)
    }

    /// A hash that is returned verifies the password it was made from.
    fn hash(&self, raw: &RawPassword) -> (r: Result<HashedPassword, String>)
        ensures
            r matches Ok(h) ==> argon2_verify_outcome(raw@, h@) == Some(true),
    {
        let salt = generate_salt();
        let phc = argon2_hash(raw.expose().as_bytes(), &salt);
        Self::hashed_from(phc)
    }

    /// Fails exactly on a hash that does not parse as PHC text.
    fn verify(&self, raw: &RawPassword, hash: &HashedPassword) -> (r: Result<bool, String>)
        ensures
            match argon2_verify_outcome(raw@, hash@) {
                Some(b) => r == Ok::<bool, String>(b),
                None => r is Err,
            },
    {
        match argon2_verify(raw.expose().as_bytes(), hash.as_str()) {
            Ok(b) => Ok(b),
            Err(_) => Err(String::from_str("corrupted hash")),
        }
    }
}

} // verus!
