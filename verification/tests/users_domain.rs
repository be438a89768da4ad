use velora::users_domain::{Account, DomainError, ProfileKind, ProfileName};

fn name(s: &str) -> ProfileName {
    ProfileName::parse(s).unwrap()
}

#[test]
fn account_created_with_default_profile() {
    let account = Account::create(0x6f1e_2b3c_4d5e_4f60_8172_8394a5b6c7d8, "a@b.com".into());
    assert_eq!(account.profiles().len(), 1);
}

#[test]
fn refuse_sixth_profile() {
    let mut account = Account::create(0x6f1e_2b3c_4d5e_4f60_8172_8394a5b6c7d8, "a@b.com".into());
    for i in 1..5 {
        account
            .add_profile(name(&format!("P{i}")), ProfileKind::Adult)
            .unwrap();
    }
    let err = account
        .add_profile(name("P6"), ProfileKind::Adult)
        .unwrap_err();
    assert_eq!(err, DomainError::TooManyProfiles);
}

#[test]
fn refuse_duplicate_names_and_last_profile() {
    let mut account = Account::create(0x6f1e_2b3c_4d5e_4f60_8172_8394a5b6c7d8, "a@b.com".into());
    let err = account
        .add_profile(name("Main profile"), ProfileKind::Kids)
        .unwrap_err();
    assert_eq!(err, DomainError::DuplicateProfileName);

    let only = account.profiles()[0].id;
    assert_eq!(
        account.remove_profile(only).unwrap_err(),
        DomainError::LastProfile
    );
}

#[test]
fn default_profile_is_adult_main_profile() {
    let account = Account::create(42, "a@b.com".into());
    assert_eq!(account.id(), 42);
    assert_eq!(account.email(), "a@b.com");
    assert_eq!(account.profiles()[0].name.as_str(), "Main Profile");
    assert_eq!(account.profiles()[0].kind, ProfileKind::Adult);
}

#[test]
fn added_profile_is_appended_and_removed_again() {
    let mut account = Account::create(1, "a@b.com".into());
    let p = account.add_profile(name("Kids corner"), ProfileKind::Kids).unwrap();
    assert_eq!(p.name.as_str(), "Kids corner");
    assert_eq!(p.kind, ProfileKind::Kids);
    assert_eq!(account.profiles().len(), 2);
    assert_eq!(account.profiles()[1].id, p.id);
    account.remove_profile(p.id).unwrap();
    assert_eq!(account.profiles().len(), 1);
    assert_eq!(account.profiles()[0].name.as_str(), "Main Profile");
}

#[test]
fn removing_an_unknown_profile_changes_nothing() {
    let mut account = Account::create(1, "a@b.com".into());
    account.add_profile(name("Second"), ProfileKind::Adult).unwrap();
    let before: Vec<u128> = account.profiles().iter().map(|p| p.id).collect();
    let unknown = before.iter().max().unwrap().wrapping_add(1);
    assert_eq!(account.remove_profile(unknown).unwrap_err(), DomainError::ProfileNotFound);
    let after: Vec<u128> = account.profiles().iter().map(|p| p.id).collect();
    assert_eq!(before, after);
}

#[test]
fn from_persistence_keeps_the_profiles() {
    let p = velora::users_domain::Profile { id: 9, name: name("Only"), kind: ProfileKind::Adult };
    let account = Account::from_persistence(3, "c@d.e".into(), vec![p]);
    assert_eq!(account.profiles().len(), 1);
    assert_eq!(account.profiles()[0].id, 9);
}

#[test]
fn profile_name_rules() {
    assert_eq!(name("  Alice  ").as_str(), "Alice");
    assert_eq!(
        ProfileName::parse("   ").unwrap_err(),
        DomainError::InvalidProfileName("cannot be empty")
    );
    assert!(ProfileName::parse(&"é".repeat(30)).is_ok());
    assert_eq!(
        ProfileName::parse(&"x".repeat(31)).unwrap_err(),
        DomainError::InvalidProfileName("30 characters maximum")
    );
    assert_eq!(ProfileName::from_trusted("Raw ".to_string()).as_str(), "Raw ");
}

#[test]
fn profile_names_compare_ignoring_ascii_case() {
    assert!(name("Main Profile") == name("MAIN profile"));
    assert!(name("Éva") != name("éva"));
    assert!(name("abc") != name("abcd"));
}

#[test]
fn users_domain_messages() {
    assert_eq!(DomainError::InvalidProfileName("cannot be empty").message(), "profile name invalid : cannot be empty");
    assert_eq!(DomainError::TooManyProfiles.message(), "5-profile limit reached");
    assert_eq!(DomainError::DuplicateProfileName.message(), "a profile already has that name");
    assert_eq!(DomainError::LastProfile.message(), "unable to delete the last profile");
    assert_eq!(DomainError::ProfileNotFound.message(), "profile not found");
}
