//! The auth service's domain: e-mail addresses, passwords and users.

use vstd::prelude::*;
use crate::ids;
use crate::text::{chars_of, concat_str, is_white_space, is_whitespace_char, trim, trim_spec, utf8_len, utf8_len_capped};

verus! {

/// Why a value was refused by the auth domain.
#[derive(Debug, Clone, PartialEq, Eq)]
pub enum DomainError {
    InvalidEmail,
    WeakPassword(&'static str),
}

impl DomainError {
    /// The stable machine-readable code of the error.
    pub fn error_code(&self) -> (r: &'static str)
        ensures
            r@ == match self {
                DomainError::InvalidEmail => "INVALID_EMAIL"@,
                DomainError::WeakPassword(_) => "WEAK_PASSWORD"@,
            },
    {
        match self {
            DomainError::InvalidEmail => "INVALID_EMAIL",
            DomainError::WeakPassword(_) => "WEAK_PASSWORD",
        }
    }

    /// The human-readable text of the error (its `Display`).
    pub fn message(&self) -> (r: String)
        ensures
            r@ == match self {
                DomainError::InvalidEmail => "invalid email address"@,
                DomainError::WeakPassword(reason) => "invalid password: "@ + reason@,
            },
    {
        match self {
            DomainError::InvalidEmail => String::from_str("invalid email address"),
            DomainError::WeakPassword(reason) => concat_str("invalid password: ", reason),
        }
    }
}

/// What `str::to_lowercase` returns for the given characters (the full Unicode
/// lowercase mapping, which depends on context for some characters).
pub uninterp spec fn unicode_lowercase(s: Seq<char>) -> Seq<char>;

/// `str::to_lowercase`: the result is named by `unicode_lowercase`.
#[verifier::external_body]
fn to_lowercase(s: &str) -> (r: String)
    ensures
        r@ == unicode_lowercase(s@),
{
    s.to_lowercase()
}

/// Number of occurrences of `c` in `s`.
pub open spec fn count_char(s: Seq<char>, c: char) -> nat
    decreases s.len(),
{
    if s.len() == 0 {
        0
    } else {
        count_char(s.drop_last(), c) + if s.last() == c {
            1nat
        } else {
            0nat
        }
    }
}

/// The form in which an address is checked and kept: trimmed, then lowercased.
pub open spec fn normalize_email(value: Seq<char>) -> Seq<char> {
    unicode_lowercase(trim_spec(value))
}

/// A normalized address is accepted when it is 3 to 254 bytes long, holds
/// exactly one `@`, neither at its start nor at its end, and no whitespace.
pub open spec fn email_well_formed(n: Seq<char>) -> bool {
    &&& 2 < utf8_len(n) < 255
    &&& count_char(n, '@') == 1
    &&& !(n.len() > 0 && n[0] == '@')
    &&& !(n.len() > 0 && n.last() == '@')
    &&& forall|i: int| 0 <= i < n.len() ==> !is_white_space(#[trigger] n[i])
}

/// Which normalized addresses are accepted, condition by condition: those of
/// 3 to 254 UTF-8 bytes with exactly one `@`, at neither end, and no
/// whitespace character; any other character (`+`, `.`, `-`, letters of any
/// script) is allowed.
pub proof fn lemma_email_shape_conditions(n: Seq<char>)
    ensures
        email_well_formed(n) <==> (2 < utf8_len(n) < 255 && count_char(n, '@') == 1 && n[0]
            != '@' && n[n.len() - 1] != '@' && forall|i: int|
            0 <= i < n.len() ==> !is_white_space(#[trigger] n[i])),
{
    if n.len() == 0 {
        assert(utf8_len(n) == 0);
    }
}

/// A syntactically valid, normalized e-mail address.
#[derive(Debug, Clone)]
pub struct Email(String);

impl View for Email {
    type V = Seq<char>;

    closed spec fn view(&self) -> Seq<char> {
        self.0@
    }
}

/// Checks the shape of a normalized address.
pub fn check_email_shape(n: &str) -> (r: bool)
    ensures
        r == email_well_formed(n@),
        r <==> (2 < utf8_len(n@) < 255 && count_char(n@, '@') == 1 && n@[0] != '@' && n@[n@.len()
            - 1] != '@' && forall|i: int| 0 <= i < n@.len() ==> !is_white_space(#[trigger] n@[i])),
{
    proof {
        lemma_email_shape_conditions(n@);
    }
    let len = utf8_len_capped(n, 255);
    let v = chars_of(n);
    let count_len = v.len();
    let mut ats: usize = 0;
    let mut i: usize = 0;
    let mut has_ws = false;
    while i < count_len
        invariant
            i <= count_len == v.len(),
            v@ == n@,
            ats == count_char(v@.take(i as int), '@'),
            ats <= i,
            has_ws == exists|k: int| 0 <= k < i && is_white_space(#[trigger] v@[k]),
        decreases count_len - i,
    {
        assert(v@.take(i + 1).drop_last() =~= v@.take(i as int));
        if v[i] == '@' {
            ats = ats + 1;
        }
        if is_whitespace_char(v[i]) {
            has_ws = true;
        }
        i = i + 1;
    }
    assert(v@.take(count_len as int) =~= v@);
    let starts = count_len > 0 && v[0] == '@';
    let ends = count_len > 0 && v[count_len - 1] == '@';
    2 < len && len < 255 && ats == 1 && !starts && !ends && !has_ws
}

impl Email {
    /// Trims and lowercases `value`, then accepts it when it is well formed.
    pub fn parse(value: &str) -> (r: Result<Email, DomainError>)
        ensures
            email_well_formed(normalize_email(value@)) ==> (r matches Ok(e) && e@
                == normalize_email(value@)),
            !email_well_formed(normalize_email(value@)) ==> r == Err::<Email, DomainError>(
                DomainError::InvalidEmail,
            ),
            (2 < utf8_len(normalize_email(value@)) < 255 && count_char(normalize_email(value@), '@')
                == 1 && normalize_email(value@)[0] != '@' && normalize_email(value@)[normalize_email(
                value@,
            ).len() - 1] != '@' && forall|i: int|
                0 <= i < normalize_email(value@).len() ==> !is_white_space(
                    #[trigger] normalize_email(value@)[i],
                )) <==> (r matches Ok(e) && e@ == normalize_email(value@)),
    {
        proof {
            lemma_email_shape_conditions(normalize_email(value@));
        }
        let trimmed = trim(value);
        let normalized = to_lowercase(trimmed.as_str());
        if check_email_shape(normalized.as_str()) {
            Ok(Email(normalized))
        } else {
            Err(DomainError::InvalidEmail)
        }
    }

    /// Wraps an address read back from storage, where it was checked on the way in.
    pub fn from_trusted(value: String) -> (r: Email)
        ensures
            r@ == value@,
    {
        Email(value)
    }

    pub fn as_str(&self) -> (r: &str)
        ensures
            r@ == self@,
    {
        self.0.as_str()
    }
}

pub open spec fn too_short_message() -> Seq<char> {
    "password too short (8 characters min)"@
}

pub open spec fn too_long_message() -> Seq<char> {
    "password too long (128 characters max)"@
}

/// Why a candidate password is refused, if it is: it must be 8 to 128
/// characters long.
pub open spec fn password_problem(value: Seq<char>) -> Option<Seq<char>> {
    if value.len() < 8 {
        Some(too_short_message())
    } else if value.len() > 128 {
        Some(too_long_message())
    } else {
        None
    }
}

/// A password as the user typed it. It has no `Debug`, and its text form
/// never shows the secret.
#[derive(Clone)]
pub struct RawPassword(String);

impl View for RawPassword {
    type V = Seq<char>;

    closed spec fn view(&self) -> Seq<char> {
        self.0@
    }
}

impl RawPassword {
    /// Accepts a password of 8 to 128 characters.
    pub fn parse(value: String) -> (r: Result<RawPassword, DomainError>)
        ensures
            match password_problem(value@) {
                Some(reason) => r matches Err(DomainError::WeakPassword(m)) && m@ == reason,
                None => r matches Ok(p) && p@ == value@,
            },
    {
        let len = chars_of(value.as_str()).len();
        if len < 8 {
            return Err(DomainError::WeakPassword("password too short (8 characters min)"));
        }
        if len > 128 {
            return Err(DomainError::WeakPassword("password too long (128 characters max)"));
        }
        Ok(RawPassword(value))
    }

    pub fn expose(&self) -> (r: &str)
        ensures
            r@ == self@,
    {
        self.0.as_str()
    }

    /// The text form of the password: a fixed mask, never the secret.
    pub fn to_string(&self) -> (r: String)
        ensures
            r@ == "RawPassword(***)"@,
    {
        String::from_str("RawPassword(***)")
    }
}

/// A password hash in PHC string form.
#[derive(Debug, Clone)]
pub struct HashedPassword(String);

impl View for HashedPassword {
    type V = Seq<char>;

    closed spec fn view(&self) -> Seq<char> {
        self.0@
    }
}

impl HashedPassword {
    pub fn from_trusted(value: String) -> (r: HashedPassword)
        ensures
            r@ == value@,
    {
        HashedPassword(value)
    }

    pub fn as_str(&self) -> (r: &str)
        ensures
            r@ == self@,
    {
        self.0.as_str()
    }
}

/// `OffsetDateTime::now_utc().unix_timestamp_nanos()`: the current time in
/// nanoseconds since the Unix epoch. Nothing is stated of the value.
#[verifier::external_body]
pub(crate) fn now_unix_nanos() -> (r: i128) {
    time::OffsetDateTime::now_utc().unix_timestamp_nanos()
}

/// A registered user. The id is a UUID (as `u128`), the creation time is in
/// nanoseconds since the Unix epoch.
#[derive(Debug, Clone)]
pub struct User {
    id: u128,
    email: Email,
    password_hash: HashedPassword,
    created_at: i128,
}

impl User {
    pub closed spec fn spec_id(&self) -> u128 {
        self.id
    }

    pub closed spec fn spec_email(&self) -> Email {
        self.email
    }

    pub closed spec fn spec_password_hash(&self) -> HashedPassword {
        self.password_hash
    }

    pub closed spec fn spec_created_at(&self) -> i128 {
        self.created_at
    }

    /// A new user with a fresh random id (a version-4 UUID, never the nil
    /// UUID), created now.
    pub fn register(email: Email, password_hash: HashedPassword) -> (r: User)
        ensures
            r.spec_email() == email,
            r.spec_password_hash() == password_hash,
            ids::is_v4_uuid(r.spec_id()),
            r.spec_id() != 0,
    {
        let id = ids::new_v4();
        proof {
            ids::lemma_v4_uuid_is_not_nil(id);
        }
        User { id, email, password_hash, created_at: now_unix_nanos() }
    }

    /// A registered user's id is never the nil UUID: it is a version-4 UUID,
    /// whose version nibble is 4.
    pub proof fn lemma_registered_id_is_not_nil(user: User)
        requires
            ids::is_v4_uuid(user.spec_id()),
        ensures
            user.spec_id() != 0,
            (user.spec_id() >> 76u128) & 0xfu128 == 4,
    {
        ids::lemma_v4_uuid_is_not_nil(user.spec_id());
    }

    pub fn from_persisted(
        id: u128,
        email: Email,
        password_hash: HashedPassword,
        created_at: i128,
    ) -> (r: User)
        ensures
            r.spec_id() == id,
            r.spec_email() == email,
            r.spec_password_hash() == password_hash,
            r.spec_created_at() == created_at,
    {
        User { id, email, password_hash, created_at }
    }

    pub fn id(&self) -> (r: u128)
        ensures
            r == self.spec_id(),
    {
        self.id
    }

    pub fn email(&self) -> (r: &Email)
        ensures
            *r == self.spec_email(),
    {
        &self.email
    }

    pub fn password_hash(&self) -> (r: &HashedPassword)
        ensures
            *r == self.spec_password_hash(),
    {
        &self.password_hash
    }

    pub fn created_at(&self) -> (r: i128)
        ensures
            r == self.spec_created_at(),
    {
        self.created_at
    }
}

} // verus!
