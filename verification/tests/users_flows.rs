use velora::events::{OutboxBatch, PendingEvent, RelayAction, SUBJECT_REGISTERED};
use velora::grpc::GrpcCode;
use velora::users_app::{
    kind_to_db, parse_uuid, profile_rows_for_insert, should_ack, to_proto, to_status, MessageOutcome,
    UserError, UserUseCases,
};
use velora::users_domain::{Account, DomainError, Profile, ProfileKind, ProfileName};

#[test]
fn create_profile_flow() {
    let uc = UserUseCases::new();
    let account = uc.account_for_registered_user(10, "a@b.com".into());
    assert_eq!(account.profiles().len(), 1);
    let (name, kind) = uc.begin_create_profile("  Kids  ", true).unwrap();
    assert_eq!(name.as_str(), "Kids");
    assert_eq!(kind, ProfileKind::Kids);
    let p = uc.apply_create_profile(Ok(Some(account)), name, kind).unwrap();
    assert_eq!(p.name.as_str(), "Kids");
    let p = uc.finish_create_profile(p, Ok(())).unwrap();
    assert_eq!(p.kind, ProfileKind::Kids);
    assert!(matches!(uc.begin_create_profile("   ", false), Err(UserError::Domain(DomainError::InvalidProfileName(_)))));
    let (name, kind) = uc.begin_create_profile("x", false).unwrap();
    assert!(matches!(uc.apply_create_profile(Ok(None), name, kind), Err(UserError::AccountNotFound)));
    let (name, kind) = uc.begin_create_profile("main PROFILE", false).unwrap();
    let account = Account::create(1, "a@b.com".into());
    assert!(matches!(uc.apply_create_profile(Ok(Some(account)), name, kind), Err(UserError::Domain(DomainError::DuplicateProfileName))));
    let p = Profile { id: 1, name: ProfileName::from_trusted("n".into()), kind: ProfileKind::Adult };
    assert!(matches!(uc.finish_create_profile(p, Err("db".into())), Err(UserError::Internal(_))));
}

#[test]
fn list_and_delete_flows() {
    let uc = UserUseCases::new();
    let mut account = Account::create(1, "a@b.com".into());
    let p = account.add_profile(ProfileName::parse("Second").unwrap(), ProfileKind::Adult).unwrap();
    let listed = uc.finish_list_profiles(Ok(Some(account))).unwrap();
    assert_eq!(listed.len(), 2);
    assert_eq!(listed[1].id, p.id);
    assert!(matches!(uc.finish_list_profiles(Ok(None)), Err(UserError::AccountNotFound)));
    let account = Account::from_persistence(1, "a@b.com".into(), listed);
    assert!(uc.apply_delete_profile(Ok(Some(account)), p.id).is_ok());
    let single = Account::create(2, "c@d.e".into());
    let only = single.profiles()[0].id;
    assert!(matches!(uc.apply_delete_profile(Ok(Some(single)), only), Err(UserError::Domain(DomainError::LastProfile))));
    assert!(matches!(uc.apply_delete_profile(Err("db".into()), 1), Err(UserError::Internal(_))));
    assert!(uc.finish_delete_profile(Ok(())).is_ok());
    assert!(uc.finish_user_registered(Ok(())).is_ok());
    assert!(matches!(uc.finish_user_registered(Err("db".into())), Err(UserError::Internal(_))));
}

#[test]
fn profile_rows() {
    assert_eq!(kind_to_db(ProfileKind::Adult), "adult");
    assert_eq!(kind_to_db(ProfileKind::Kids), "kids");
    let p = Profile::from_row(4, "Kid".into(), "kids");
    assert_eq!(p.kind, ProfileKind::Kids);
    assert_eq!(Profile::from_row(4, "A".into(), "other").kind, ProfileKind::Adult);
    let account = Account::create(9, "a@b.com".into());
    let rows = profile_rows_for_insert(&account, 1);
    assert_eq!(rows.len(), 1);
    assert_eq!(rows[0].account_id, 9);
    assert_eq!(rows[0].name, "Main Profile");
    assert_eq!(rows[0].kind, "adult");
    assert!(profile_rows_for_insert(&account, 0).is_empty());
}

#[test]
fn users_statuses_and_messages() {
    let s = to_status(UserError::Domain(DomainError::TooManyProfiles));
    assert_eq!((s.code, s.message.as_str()), (GrpcCode::InvalidArgument, "5-profile limit reached"));
    let s = to_status(UserError::AccountNotFound);
    assert_eq!((s.code, s.message.as_str()), (GrpcCode::NotFound, "account not found"));
    let s = to_status(UserError::Internal("x".into()));
    assert_eq!((s.code, s.message.as_str()), (GrpcCode::Internal, "internal error"));
    match parse_uuid("nope", "account_id") {
        Err(s) => assert_eq!((s.code, s.message.as_str()), (GrpcCode::InvalidArgument, "invalid account_id")),
        Ok(_) => panic!("expected an error"),
    }
    assert_eq!(parse_uuid("00000000-0000-0000-0000-000000000001", "x").ok(), Some(1));
    let proto = to_proto(Profile { id: 1, name: ProfileName::from_trusted("K".into()), kind: ProfileKind::Kids });
    assert_eq!(proto.id, "00000000-0000-0000-0000-000000000001");
    assert_eq!(proto.name, "K");
    assert!(proto.kids);
}

#[test]
fn consumer_acknowledgement() {
    assert!(should_ack(&MessageOutcome::Unreadable));
    assert!(should_ack(&MessageOutcome::Handled(Ok(()))));
    assert!(!should_ack(&MessageOutcome::Handled(Err(UserError::AccountNotFound))));
}

#[test]
fn outbox_batch_publishes_in_order_then_marks() {
    let ev = |id: u128| PendingEvent { id, subject: SUBJECT_REGISTERED.to_string(), payload: vec![id as u8] };
    let mut batch = OutboxBatch::new(vec![ev(1), ev(2)]);
    match batch.next_action() {
        RelayAction::Publish { subject, payload } => {
            assert_eq!(subject, "velora.users.registered");
            assert_eq!(payload, vec![1]);
        }
        _ => panic!("expected a publish"),
    }
    batch.on_acknowledged();
    match batch.next_action() {
        RelayAction::Publish { payload, .. } => assert_eq!(payload, vec![2]),
        _ => panic!("expected a publish"),
    }
    batch.on_acknowledged();
    match batch.next_action() {
        RelayAction::MarkPublished(ids) => assert_eq!(ids, vec![1, 2]),
        _ => panic!("expected the mark"),
    }
    assert!(matches!(OutboxBatch::new(vec![]).next_action(), RelayAction::Finish));
}
