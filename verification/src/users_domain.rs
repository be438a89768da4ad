//! The users service's domain: accounts and their profiles.

use vstd::prelude::*;
use crate::ids;
use crate::text::{chars_of, concat_str, eq_ignore_ascii_case, eq_ignore_ascii_case_spec, trim, trim_spec};

verus! {

/// Why the users domain refused an operation.
#[derive(Debug, Clone, PartialEq, Eq)]
pub enum DomainError {
    InvalidProfileName(&'static str),
    TooManyProfiles,
    DuplicateProfileName,
    LastProfile,
    ProfileNotFound,
}

impl DomainError {
    /// The human-readable text of the error (its `Display`).
    pub fn message(&self) -> (r: String)
        ensures
            r@ == match self {
                DomainError::InvalidProfileName(reason) => "profile name invalid : "@ + reason@,
                DomainError::TooManyProfiles => "5-profile limit reached"@,
                DomainError::DuplicateProfileName => "a profile already has that name"@,
                DomainError::LastProfile => "unable to delete the last profile"@,
                DomainError::ProfileNotFound => "profile not found"@,
            },
    {
        match self {
            DomainError::InvalidProfileName(reason) => concat_str("profile name invalid : ", reason),
            DomainError::TooManyProfiles => String::from_str("5-profile limit reached"),
            DomainError::DuplicateProfileName => String::from_str("a profile already has that name"),
            DomainError::LastProfile => String::from_str("unable to delete the last profile"),
            DomainError::ProfileNotFound => String::from_str("profile not found"),
        }
    }
}

/// The name of a profile. Two names are the same when they differ at most
/// in the case of ASCII letters.
#[derive(Debug, Eq)]
pub struct ProfileName(String);

impl View for ProfileName {
    type V = Seq<char>;

    closed spec fn view(&self) -> Seq<char> {
        self.0@
    }
}

impl Clone for ProfileName {
    fn clone(&self) -> (r: ProfileName)
        ensures
            r == *self,
    {
        ProfileName(self.0.clone())
    }
}

impl PartialEq for ProfileName {
    fn eq(&self, other: &ProfileName) -> (r: bool) {
        eq_ignore_ascii_case(self.0.as_str(), other.0.as_str())
    }
}

impl vstd::std_specs::cmp::PartialEqSpecImpl for ProfileName {
    open spec fn obeys_eq_spec() -> bool {
        true
    }

    open spec fn eq_spec(&self, other: &ProfileName) -> bool {
        eq_ignore_ascii_case_spec(self@, other@)
    }
}

/// Why a candidate profile name is refused, if it is: once trimmed it must
/// be non-empty and at most 30 characters long.
pub open spec fn profile_name_problem(value: Seq<char>) -> Option<Seq<char>> {
    if trim_spec(value).len() == 0 {
        Some("cannot be empty"@)
    } else if trim_spec(value).len() > 30 {
        Some("30 characters maximum"@)
    } else {
        None
    }
}

impl ProfileName {
    /// Trims `value` and accepts 1 to 30 characters.
    pub fn parse(value: &str) -> (r: Result<ProfileName, DomainError>)
        ensures
            match profile_name_problem(value@) {
                Some(reason) => r matches Err(DomainError::InvalidProfileName(m)) && m@ == reason,
                None => r matches Ok(n) && n@ == trim_spec(value@),
            },
    {
        let trimmed = trim(value);
        let count = chars_of(trimmed.as_str()).len();
        if count == 0 {
            return Err(DomainError::InvalidProfileName("cannot be empty"));
        }
        if count > 30 {
            return Err(DomainError::InvalidProfileName("30 characters maximum"));
        }
        Ok(ProfileName(trimmed))
    }

    pub fn from_trusted(value: String) -> (r: ProfileName)
        ensures
            r@ == value@,
    {
        ProfileName(value)
    }

    pub fn as_str(&self) -> (r: &str)
        ensures
            r@ == self@,
    {
        self.0.as_str()
    }
}

#[derive(Debug, Clone, Copy, PartialEq, Eq)]
pub enum ProfileKind {
    Adult,
    Kids,
}

/// A profile of an account; the id is a UUID (as `u128`).
#[derive(Debug)]
pub struct Profile {
    pub id: u128,
    pub name: ProfileName,
    pub kind: ProfileKind,
}

impl Clone for Profile {
    fn clone(&self) -> (r: Profile)
        ensures
            r == *self,
    {
        Profile { id: self.id, name: self.name.clone(), kind: self.kind }
    }
}

/// The largest number of profiles an account may hold.
pub const MAX_PROFILES: usize = 5;

/// No two profiles have the same name.
pub open spec fn names_distinct(ps: Seq<Profile>) -> bool {
    forall|i: int, j: int|
        0 <= i < ps.len() && 0 <= j < ps.len() && i != j ==> !eq_ignore_ascii_case_spec(
            #[trigger] ps[i].name@,
            #[trigger] ps[j].name@,
        )
}

/// No two profiles have the same id.
pub open spec fn ids_distinct(ps: Seq<Profile>) -> bool {
    forall|i: int, j: int| 0 <= i < ps.len() && 0 <= j < ps.len() && i != j ==> #[trigger] ps[i].id != #[trigger] ps[j].id
}

/// A valid account holds one to five profiles, with distinct names.
pub open spec fn profiles_valid(ps: Seq<Profile>) -> bool {
    &&& 1 <= ps.len() <= MAX_PROFILES
    &&& names_distinct(ps)
}

/// Some profile of `ps` has a name that is the same as `name`.
pub open spec fn has_name(ps: Seq<Profile>, name: Seq<char>) -> bool {
    exists|i: int| 0 <= i < ps.len() && eq_ignore_ascii_case_spec(#[trigger] ps[i].name@, name)
}

/// Some profile of `ps` has the id `id`.
pub open spec fn has_id(ps: Seq<Profile>, id: u128) -> bool {
    exists|i: int| 0 <= i < ps.len() && #[trigger] ps[i].id == id
}

pub open spec fn id_differs(id: u128) -> spec_fn(Profile) -> bool {
    |p: Profile| p.id != id
}

/// An account and its profiles.
#[derive(Debug)]
pub struct Account {
    id: u128,
    email: String,
    profiles: Vec<Profile>,
}

impl Account {
    pub closed spec fn spec_id(&self) -> u128 {
        self.id
    }

    pub closed spec fn spec_email(&self) -> Seq<char> {
        self.email@
    }

    pub closed spec fn spec_profiles(&self) -> Seq<Profile> {
        self.profiles@
    }

    /// A new account, as the `user.registered` event creates it: with one
    /// adult profile named "Main Profile".
    pub fn create(id: u128, email: String) -> (r: Account)
        ensures
            r.spec_id() == id,
            r.spec_email() == email@,
            r.spec_profiles().len() == 1,
            r.spec_profiles()[0].name@ == "Main Profile"@,
            r.spec_profiles()[0].kind == ProfileKind::Adult,
            profiles_valid(r.spec_profiles()),
    {
        let default_profile = Profile {
            id: ids::new_v4(),
            name: ProfileName::from_trusted(String::from_str("Main Profile")),
            kind: ProfileKind::Adult,
        };
        let mut profiles = Vec::new();
        profiles.push(default_profile);
        Account { id, email, profiles }
    }

    /// An account as it was stored; no check is made.
    pub fn from_persistence(id: u128, email: String, profiles: Vec<Profile>) -> (r: Account)
        ensures
            r.spec_id() == id,
            r.spec_email() == email@,
            r.spec_profiles() == profiles@,
    {
        Account { id, email, profiles }
    }

    /// Adds a profile with a fresh random id. Refused when the account already
    /// holds five profiles, or one with the same name; then nothing changes.
    pub fn add_profile(&mut self, name: ProfileName, kind: ProfileKind) -> (r: Result<
        Profile,
        DomainError,
    >)
        ensures
            final(self).spec_id() == old(self).spec_id(),
            final(self).spec_email() == old(self).spec_email(),
            old(self).spec_profiles().len() >= MAX_PROFILES ==> r == Err::<Profile, DomainError>(
                DomainError::TooManyProfiles,
            ) && final(self).spec_profiles() == old(self).spec_profiles(),
            old(self).spec_profiles().len() < MAX_PROFILES && has_name(
                old(self).spec_profiles(),
                name@,
            ) ==> r == Err::<Profile, DomainError>(DomainError::DuplicateProfileName) && final(self).spec_profiles() == old(self).spec_profiles(),
            old(self).spec_profiles().len() < MAX_PROFILES && !has_name(
                old(self).spec_profiles(),
                name@,
            ) ==> (r matches Ok(p) && p.name == name && p.kind == kind && final(self).spec_profiles()
                == old(self).spec_profiles().push(p)),
            profiles_valid(old(self).spec_profiles()) ==> profiles_valid(final(self).spec_profiles()),
    {
        if self.profiles.len() >= MAX_PROFILES {
            return Err(DomainError::TooManyProfiles);
        }
        let n = self.profiles.len();
        let mut i: usize = 0;
        while i < n
            invariant
                i <= n == self.profiles@.len(),
                n < MAX_PROFILES,
                forall|k: int| 0 <= k < i ==> !eq_ignore_ascii_case_spec(
                    #[trigger] self.profiles@[k].name@,
                    name@,
                ),
            decreases n - i,
        {
            if self.profiles[i].name == name {
                return Err(DomainError::DuplicateProfileName);
            }
            i = i + 1;
        }
        let profile = Profile { id: ids::new_v4(), name, kind };
        let ghost before = self.profiles@;
        self.profiles.push(profile.clone());
        proof {
            let after = self.profiles@;
            if profiles_valid(before) {
                assert forall|a: int, b: int|
                    0 <= a < after.len() && 0 <= b < after.len() && a != b implies !eq_ignore_ascii_case_spec(
                    #[trigger] after[a].name@,
                    #[trigger] after[b].name@,
                ) by {
                    if a == before.len() as int {
                        assert(!eq_ignore_ascii_case_spec(before[b].name@, profile.name@));
                    } else if b == before.len() as int {
                        assert(!eq_ignore_ascii_case_spec(before[a].name@, profile.name@));
                    } else {
                        assert(after[a] == before[a] && after[b] == before[b]);
                    }
                }
            }
        }
        Ok(profile)
    }

    /// Removes the profile with the given id. Refused when it is the last
    /// profile, or when no profile has that id; then nothing changes.
    pub fn remove_profile(&mut self, profile_id: u128) -> (r: Result<(), DomainError>)
        ensures
            final(self).spec_id() == old(self).spec_id(),
            final(self).spec_email() == old(self).spec_email(),
            old(self).spec_profiles().len() == 1 ==> r == Err::<(), DomainError>(
                DomainError::LastProfile,
            ) && final(self).spec_profiles() == old(self).spec_profiles(),
            old(self).spec_profiles().len() != 1 && !has_id(old(self).spec_profiles(), profile_id)
                ==> r == Err::<(), DomainError>(DomainError::ProfileNotFound) && final(self).spec_profiles() == old(self).spec_profiles(),
            old(self).spec_profiles().len() != 1 && has_id(old(self).spec_profiles(), profile_id)
                ==> r == Ok::<(), DomainError>(()) && final(self).spec_profiles() == old(self).spec_profiles().filter(id_differs(profile_id)),
            profiles_valid(old(self).spec_profiles()) && ids_distinct(old(self).spec_profiles())
                ==> profiles_valid(final(self).spec_profiles()) && ids_distinct(
                final(self).spec_profiles(),
            ),
    {
        if self.profiles.len() == 1 {
            return Err(DomainError::LastProfile);
        }
        let ghost old_ps = self.profiles@;
        let ghost pred = id_differs(profile_id);
        let n = self.profiles.len();
        let mut kept: Vec<Profile> = Vec::new();
        let mut found = false;
        let mut i: usize = 0;
        while i < n
            invariant
                i <= n == self.profiles@.len(),
                self.profiles@ == old_ps,
                pred == id_differs(profile_id),
                kept@ == old_ps.take(i as int).filter(pred),
                found == exists|k: int| 0 <= k < i && #[trigger] old_ps[k].id == profile_id,
            decreases n - i,
        {
            proof {
                reveal_with_fuel(Seq::<_>::filter, 1);
                assert(old_ps.take(i + 1).drop_last() =~= old_ps.take(i as int));
            }
            if self.profiles[i].id != profile_id {
                kept.push(self.profiles[i].clone());
            } else {
                found = true;
            }
            i = i + 1;
        }
        assert(old_ps.take(n as int) =~= old_ps);
        if !found {
            return Err(DomainError::ProfileNotFound);
        }
        proof {
            if profiles_valid(old_ps) && ids_distinct(old_ps) {
                lemma_filter_keeps_distinct(old_ps, profile_id);
                lemma_filter_removes_one(old_ps, profile_id);
            }
        }
        self.profiles = kept;
        Ok(())
    }

    pub fn id(&self) -> (r: u128)
        ensures
            r == self.spec_id(),
    {
        self.id
    }

    pub fn email(&self) -> (r: &str)
        ensures
            r@ == self.spec_email(),
    {
        self.email.as_str()
    }

    pub fn profiles(&self) -> (r: &[Profile])
        ensures
            r@ == self.spec_profiles(),
    {
        self.profiles.as_slice()
    }
}

/// Removing a profile undoes adding it: when the added profile's id was not
/// in use, the profiles after `add_profile` then `remove_profile` of that id
/// are the profiles before.
pub proof fn remove_undoes_add(before: Seq<Profile>, added: Profile)
    requires
        !has_id(before, added.id),
    ensures
        before.push(added).filter(id_differs(added.id)) == before,
{
    let pred = id_differs(added.id);
    reveal_with_fuel(Seq::<_>::filter, 1);
    assert(before.push(added).drop_last() =~= before);
    assert forall|k: int| 0 <= k < before.len() implies pred(#[trigger] before[k]) by {
        if !pred(before[k]) {
            assert(before[k].id == added.id);
        }
    }
    lemma_filter_all_kept(before, pred);
}

/// Keeping a part of the profiles keeps their names and ids distinct.
proof fn lemma_filter_keeps_distinct(ps: Seq<Profile>, id: u128)
    requires
        names_distinct(ps),
        ids_distinct(ps),
    ensures
        names_distinct(ps.filter(id_differs(id))),
        ids_distinct(ps.filter(id_differs(id))),
    decreases ps.len(),
{
    let pred = id_differs(id);
    reveal_with_fuel(Seq::<_>::filter, 1);
    if ps.len() > 0 {
        let init = ps.drop_last();
        assert(names_distinct(init) && ids_distinct(init)) by {
            assert forall|i: int, j: int|
                0 <= i < init.len() && 0 <= j < init.len() && i != j implies !eq_ignore_ascii_case_spec(
                #[trigger] init[i].name@,
                #[trigger] init[j].name@,
            ) by {
                assert(init[i] == ps[i] && init[j] == ps[j]);
            }
            assert forall|i: int, j: int|
                0 <= i < init.len() && 0 <= j < init.len() && i != j implies #[trigger] init[i].id
                != #[trigger] init[j].id by {
                assert(init[i] == ps[i] && init[j] == ps[j]);
            }
        }
        lemma_filter_keeps_distinct(init, id);
        let f = init.filter(pred);
        if pred(ps.last()) {
            let g = f.push(ps.last());
            assert(ps.filter(pred) == g);
            assert forall|m: int| 0 <= m < f.len() implies #[trigger] init.contains(f[m]) by {
                assert(f.contains(f[m]));
                init.lemma_filter_contains_rev(pred, f[m]);
            }
            assert forall|a: int, b: int|
                0 <= a < g.len() && 0 <= b < g.len() && a != b implies !eq_ignore_ascii_case_spec(
                #[trigger] g[a].name@,
                #[trigger] g[b].name@,
            ) && g[a].id != g[b].id by {
                if a == f.len() as int {
                    assert(init.contains(f[b]));
                    let k = choose|k: int| 0 <= k < init.len() && #[trigger] init[k] == f[b];
                    assert(ps[k] == g[b] && ps[ps.len() - 1] == g[a]);
                } else if b == f.len() as int {
                    assert(init.contains(f[a]));
                    let k = choose|k: int| 0 <= k < init.len() && #[trigger] init[k] == f[a];
                    assert(ps[k] == g[a] && ps[ps.len() - 1] == g[b]);
                } else {
                    assert(g[a] == f[a] && g[b] == f[b]);
                }
            }
            assert forall|a: int, b: int|
                0 <= a < g.len() && 0 <= b < g.len() && a != b implies #[trigger] g[a].id != #[trigger] g[b].id by {
                if a == f.len() as int {
                    assert(init.contains(f[b]));
                    let k = choose|k: int| 0 <= k < init.len() && #[trigger] init[k] == f[b];
                    assert(ps[k] == g[b] && ps[ps.len() - 1] == g[a]);
                } else if b == f.len() as int {
                    assert(init.contains(f[a]));
                    let k = choose|k: int| 0 <= k < init.len() && #[trigger] init[k] == f[a];
                    assert(ps[k] == g[a] && ps[ps.len() - 1] == g[b]);
                } else {
                    assert(g[a] == f[a] && g[b] == f[b]);
                }
            }
        } else {
            assert(ps.filter(pred) == f);
        }
    }
}

/// Where ids are distinct, removing a present id removes one profile.
proof fn lemma_filter_removes_one(ps: Seq<Profile>, id: u128)
    requires
        ids_distinct(ps),
        has_id(ps, id),
    ensures
        ps.filter(id_differs(id)).len() == ps.len() - 1,
    decreases ps.len(),
{
    let pred = id_differs(id);
    reveal_with_fuel(Seq::<_>::filter, 1);
    let init = ps.drop_last();
    assert(ids_distinct(init)) by {
        assert forall|i: int, j: int|
            0 <= i < init.len() && 0 <= j < init.len() && i != j implies #[trigger] init[i].id
            != #[trigger] init[j].id by {
            assert(init[i] == ps[i] && init[j] == ps[j]);
        }
    }
    if ps.last().id == id {
        assert forall|k: int| 0 <= k < init.len() implies pred(#[trigger] init[k]) by {
            assert(init[k] == ps[k]);
        }
        lemma_filter_all_kept(init, pred);
    } else {
        let k = choose|k: int| 0 <= k < ps.len() && #[trigger] ps[k].id == id;
        assert(init[k].id == id);
        lemma_filter_removes_one(init, id);
    }
}

proof fn lemma_filter_all_kept(s: Seq<Profile>, pred: spec_fn(Profile) -> bool)
    requires
        forall|k: int| 0 <= k < s.len() ==> pred(#[trigger] s[k]),
    ensures
        s.filter(pred) == s,
    decreases s.len(),
{
    reveal_with_fuel(Seq::<_>::filter, 1);
    if s.len() > 0 {
        let init = s.drop_last();
        assert forall|k: int| 0 <= k < init.len() implies pred(#[trigger] init[k]) by {
            assert(init[k] == s[k]);
        }
        lemma_filter_all_kept(init, pred);
        assert(init.push(s.last()) =~= s);
    }
}

} // verus!
