//! The users service's use cases and the conversions at its edges: storage
//! rows, gRPC statuses and messages, and the handling of incoming events.
//!
//! Accounts live in Postgres, so each use case is split at the storage calls:
//! a step computes what to look up or store, the next one takes what storage
//! answered and decides.

use vstd::prelude::*;
use crate::grpc::{GrpcCode, GrpcStatus};
use crate::ids;
use crate::ids::{uuid_hyphenated, uuid_parse_spec};
use crate::text::concat_str;
use crate::users_domain::{
    has_id, has_name, profile_name_problem, Account, DomainError, Profile, ProfileKind, ProfileName,
    MAX_PROFILES,
};

verus! {

/// Failures of the users use cases.
#[derive(Debug)]
pub enum UserError {
    Domain(DomainError),
    AccountNotFound,
    Internal(String),
}

/// The use cases of the users service.
pub struct UserUseCases;

/// The kind of a new profile: a kids profile when asked for, else adult.
pub open spec fn kind_for(kids: bool) -> ProfileKind {
    if kids {
        ProfileKind::Kids
    } else {
        ProfileKind::Adult
    }
}

/// A profile is a kids profile exactly when one was asked for; any other is
/// an adult profile.
pub proof fn lemma_kind_follows_the_request(kids: bool)
    ensures
        (kind_for(kids) is Kids) <==> kids,
        (kind_for(kids) is Adult) <==> !kids,
{
}

impl UserUseCases {
    pub fn new() -> (r: UserUseCases) {
        UserUseCases
    }

    /// The account created for a newly registered user, to be inserted.
    pub fn account_for_registered_user(&self, user_id: u128, email: String) -> (r: Account)
        ensures
            r.spec_id() == user_id,
            r.spec_email() == email@,
            r.spec_profiles().len() == 1,
            r.spec_profiles()[0].name@ == "Main Profile"@,
            r.spec_profiles()[0].kind == ProfileKind::Adult,
    {
        Account::create(user_id, email)
    }

    /// Handling of `user.registered`, once the insert answered.
    pub fn finish_user_registered(&self, inserted: Result<(), String>) -> (r: Result<(), UserError>)
        ensures
            match inserted {
                Ok(()) => r is Ok,
                Err(m) => r == Err::<(), UserError>(UserError::Internal(m)),
            },
    {
        match inserted {
            Ok(()) => Ok(()),
            Err(m) => Err(UserError::Internal(m)),
        }
    }

    /// Profile creation, before the lookup: the checked name and the kind.
    pub fn begin_create_profile(&self, name: &str, kids: bool) -> (r: Result<
        (ProfileName, ProfileKind),
        UserError,
    >)
        ensures
            match profile_name_problem(name@) {
                Some(reason) => r matches Err(UserError::Domain(DomainError::InvalidProfileName(m)))
                    && m@ == reason,
                None => r matches Ok(c) && c.0@ == crate::text::trim_spec(name@) && c.1 == kind_for(
                    kids,
                ),
            },
            r matches Ok(c) ==> ((c.1 is Kids) <==> kids) && ((c.1 is Adult) <==> !kids),
    {
        let name = match ProfileName::parse(name) {
            Ok(n) => n,
            Err(e) => {
                return Err(UserError::Domain(e));
            },
        };
        let kind = if kids {
            ProfileKind::Kids
        } else {
            ProfileKind::Adult
        };
        Ok((name, kind))
    }

    /// The account that a lookup found: a missing one is `AccountNotFound`.
    pub fn require_account(&self, found: Result<Option<Account>, String>) -> (r: Result<
        Account,
        UserError,
    >)
        ensures
            match found {
                Err(m) => r == Err::<Account, UserError>(UserError::Internal(m)),
                Ok(None) => r == Err::<Account, UserError>(UserError::AccountNotFound),
                Ok(Some(a)) => r == Ok::<Account, UserError>(a),
            },
    {
        match found {
            Err(m) => Err(UserError::Internal(m)),
            Ok(None) => Err(UserError::AccountNotFound),
            Ok(Some(a)) => Ok(a),
        }
    }

    /// Profile creation, once the lookup answered: the account's rules decide,
    /// and the new profile is the one to insert.
    pub fn apply_create_profile(
        &self,
        found: Result<Option<Account>, String>,
        name: ProfileName,
        kind: ProfileKind,
    ) -> (r: Result<Profile, UserError>)
        ensures
            match found {
                Err(m) => r == Err::<Profile, UserError>(UserError::Internal(m)),
                Ok(None) => r == Err::<Profile, UserError>(UserError::AccountNotFound),
                Ok(Some(a)) => if a.spec_profiles().len() >= MAX_PROFILES {
                    r == Err::<Profile, UserError>(UserError::Domain(DomainError::TooManyProfiles))
                } else if has_name(a.spec_profiles(), name@) {
                    r == Err::<Profile, UserError>(
                        UserError::Domain(DomainError::DuplicateProfileName),
                    )
                } else {
                    r matches Ok(p) && p.name == name && p.kind == kind
                },
            },
    {
        let mut account = match self.require_account(found) {
            Ok(a) => a,
            Err(e) => {
                return Err(e);
            },
        };
        match account.add_profile(name, kind) {
            Ok(p) => Ok(p),
            Err(e) => Err(UserError::Domain(e)),
        }
    }

    /// Profile creation, once the insert answered.
    pub fn finish_create_profile(&self, profile: Profile, inserted: Result<(), String>) -> (r: Result<
        Profile,
        UserError,
    >)
        ensures
            match inserted {
                Ok(()) => r == Ok::<Profile, UserError>(profile),
                Err(m) => r == Err::<Profile, UserError>(UserError::Internal(m)),
            },
    {
        match inserted {
            Ok(()) => Ok(profile),
            Err(m) => Err(UserError::Internal(m)),
        }
    }

    /// Listing, once the lookup answered: the account's profiles in order.
    pub fn finish_list_profiles(&self, found: Result<Option<Account>, String>) -> (r: Result<
        Vec<Profile>,
        UserError,
    >)
        ensures
            match found {
                Err(m) => r == Err::<Vec<Profile>, UserError>(UserError::Internal(m)),
                Ok(None) => r == Err::<Vec<Profile>, UserError>(UserError::AccountNotFound),
                Ok(Some(a)) => r matches Ok(v) && v@ == a.spec_profiles(),
            },
    {
        let account = match self.require_account(found) {
            Ok(a) => a,
            Err(e) => {
                return Err(e);
            },
        };
        let ps = account.profiles();
        let mut v: Vec<Profile> = Vec::new();
        let mut i: usize = 0;
        while i < ps.len()
            invariant
                i <= ps@.len(),
                v@ == ps@.take(i as int),
            decreases ps@.len() - i,
        {
            v.push(ps[i].clone());
            i = i + 1;
            assert(v@ =~= ps@.take(i as int));
        }
        assert(ps@.take(ps@.len() as int) =~= ps@);
        Ok(v)
    }

    /// Deletion, once the lookup answered: the account's rules decide; on
    /// success the profile is the one to delete from storage.
    pub fn apply_delete_profile(&self, found: Result<Option<Account>, String>, profile_id: u128) -> (r: Result<
        (),
        UserError,
    >)
        ensures
            match found {
                Err(m) => r == Err::<(), UserError>(UserError::Internal(m)),
                Ok(None) => r == Err::<(), UserError>(UserError::AccountNotFound),
                Ok(Some(a)) => if a.spec_profiles().len() == 1 {
                    r == Err::<(), UserError>(UserError::Domain(DomainError::LastProfile))
                } else if !has_id(a.spec_profiles(), profile_id) {
                    r == Err::<(), UserError>(UserError::Domain(DomainError::ProfileNotFound))
                } else {
                    r is Ok
                },
            },
    {
        let mut account = match self.require_account(found) {
            Ok(a) => a,
            Err(e) => {
                return Err(e);
            },
        };
        match account.remove_profile(profile_id) {
            Ok(()) => Ok(()),
            Err(e) => Err(UserError::Domain(e)),
        }
    }

    /// Deletion, once storage answered.
    pub fn finish_delete_profile(&self, deleted: Result<(), String>) -> (r: Result<(), UserError>)
        ensures
            match deleted {
                Ok(()) => r is Ok,
                Err(m) => r == Err::<(), UserError>(UserError::Internal(m)),
            },
    {
        match deleted {
            Ok(()) => Ok(()),
            Err(m) => Err(UserError::Internal(m)),
        }
    }
}

/// The stored text of a profile kind.
pub open spec fn kind_db_spec(kind: ProfileKind) -> Seq<char> {
    match kind {
        ProfileKind::Adult => "adult"@,
        ProfileKind::Kids => "kids"@,
    }
}

pub fn kind_to_db(kind: ProfileKind) -> (r: &'static str)
    ensures
        r@ == kind_db_spec(kind),
{
    match kind {
        ProfileKind::Adult => "adult",
        ProfileKind::Kids => "kids",
    }
}

impl Profile {
    /// A profile read back from a row: the kind `kids` is a kids profile,
    /// any other text an adult one.
    pub fn from_row(id: u128, name: String, kind: &str) -> (r: Profile)
        ensures
            r.id == id,
            r.name@ == name@,
            r.kind == (if kind@ == "kids"@ {
                ProfileKind::Kids
            } else {
                ProfileKind::Adult
            }),
    {
        Profile {
            id,
            name: ProfileName::from_trusted(name),
            kind: if crate::text::str_equal(kind, "kids") {
                ProfileKind::Kids
            } else {
                ProfileKind::Adult
            },
        }
    }
}

/// A profile row to insert.
pub struct ProfileRecord {
    pub id: u128,
    pub account_id: u128,
    pub name: String,
    pub kind: &'static str,
}

/// The profile rows that go with an account insert. The account insert does
/// nothing when the account exists (a replayed event), and then no profile
/// is inserted either: creating an account is idempotent.
pub fn profile_rows_for_insert(account: &Account, accounts_inserted: u64) -> (r: Vec<ProfileRecord>)
    ensures
        accounts_inserted == 0 ==> r@.len() == 0,
        accounts_inserted > 0 ==> r@.len() == account.spec_profiles().len() && forall|i: int|
            0 <= i < r@.len() ==> {
                let p = #[trigger] account.spec_profiles()[i];
                &&& r@[i].id == p.id
                &&& r@[i].account_id == account.spec_id()
                &&& r@[i].name@ == p.name@
                &&& r@[i].kind@ == kind_db_spec(p.kind)
            },
{
    let mut rows: Vec<ProfileRecord> = Vec::new();
    if accounts_inserted == 0 {
        return rows;
    }
    let ps = account.profiles();
    let account_id = account.id();
    let mut i: usize = 0;
    while i < ps.len()
        invariant
            i <= ps@.len(),
            ps@ == account.spec_profiles(),
            account_id == account.spec_id(),
            rows@.len() == i,
            forall|k: int|
                0 <= k < i ==> {
                    let p = #[trigger] ps@[k];
                    &&& rows@[k].id == p.id
                    &&& rows@[k].account_id == account_id
                    &&& rows@[k].name@ == p.name@
                    &&& rows@[k].kind@ == kind_db_spec(p.kind)
                },
        decreases ps@.len() - i,
    {
        let p = &ps[i];
        rows.push(
            ProfileRecord {
                id: p.id,
                account_id,
                name: String::from_str(p.name.as_str()),
                kind: kind_to_db(p.kind),
            },
        );
        i = i + 1;
    }
    rows
}

/// The status that a users error is answered with.
pub open spec fn user_status_spec(err: UserError) -> (GrpcCode, Seq<char>) {
    match err {
        UserError::Domain(e) => (GrpcCode::InvalidArgument, crate::users_app::domain_message(e)),
        UserError::AccountNotFound => (GrpcCode::NotFound, "account not found"@),
        UserError::Internal(_) => (GrpcCode::Internal, "internal error"@),
    }
}

pub open spec fn domain_message(e: DomainError) -> Seq<char> {
    match e {
        DomainError::InvalidProfileName(reason) => "profile name invalid : "@ + reason@,
        DomainError::TooManyProfiles => "5-profile limit reached"@,
        DomainError::DuplicateProfileName => "a profile already has that name"@,
        DomainError::LastProfile => "unable to delete the last profile"@,
        DomainError::ProfileNotFound => "profile not found"@,
    }
}

/// Maps a users error to the status the client receives.
pub fn to_status(err: UserError) -> (r: GrpcStatus)
    ensures
        (r.code, r.message@) == user_status_spec(err),
        r.error_code is None,
{
    match err {
        UserError::Domain(e) => GrpcStatus {
            code: GrpcCode::InvalidArgument,
            message: e.message(),
            error_code: None,
        },
        UserError::AccountNotFound => GrpcStatus {
            code: GrpcCode::NotFound,
            message: String::from_str("account not found"),
            error_code: None,
        },
        UserError::Internal(_) => GrpcStatus {
            code: GrpcCode::Internal,
            message: String::from_str("internal error"),
            error_code: None,
        },
    }
}

/// Reads an id field of a request: a UUID, or an invalid-argument status
/// naming the field.
pub fn parse_uuid(value: &str, field: &str) -> (r: Result<u128, GrpcStatus>)
    ensures
        match uuid_parse_spec(value@) {
            Some(u) => r == Ok::<u128, GrpcStatus>(u),
            None => r matches Err(s) && s.code == GrpcCode::InvalidArgument && s.message@ == "invalid "@
                + field@ && s.error_code is None,
        },
        forall|u: u128| value@ == uuid_hyphenated(u) ==> r == Ok::<u128, GrpcStatus>(u),
{
    match ids::uuid_parse(value) {
        Some(u) => Ok(u),
        None => Err(
            GrpcStatus {
                code: GrpcCode::InvalidArgument,
                message: concat_str("invalid ", field),
                error_code: None,
            },
        ),
    }
}

/// The profile message of the users API.
pub struct ProtoProfile {
    pub id: String,
    pub name: String,
    pub kids: bool,
}

pub fn to_proto(p: Profile) -> (r: ProtoProfile)
    ensures
        r.id@ == uuid_hyphenated(p.id),
        r.name@ == p.name@,
        r.kids == (p.kind == ProfileKind::Kids),
{
    ProtoProfile {
        id: ids::uuid_to_string(p.id),
        name: String::from_str(p.name.as_str()),
        kids: match p.kind {
            ProfileKind::Kids => true,
            ProfileKind::Adult => false,
        },
    }
}

/// What became of an incoming `user.registered` message.
pub enum MessageOutcome {
    /// The payload is not a readable event.
    Unreadable,
    /// The event was handled, with this result.
    Handled(Result<(), UserError>),
}

/// Whether to acknowledge a message. A handled event is acknowledged only
/// on success, so that JetStream delivers it again after a failure; an
/// unreadable payload is acknowledged anyway, since delivering it again
/// would not make it readable.
pub fn should_ack(outcome: &MessageOutcome) -> (r: bool)
    ensures
        r == match outcome {
            MessageOutcome::Unreadable => true,
            MessageOutcome::Handled(res) => res is Ok,
        },
{
    match outcome {
        MessageOutcome::Unreadable => true,
        MessageOutcome::Handled(Ok(())) => true,
        MessageOutcome::Handled(Err(_)) => false,
    }
}

} // verus!
