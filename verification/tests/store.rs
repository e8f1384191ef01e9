use durable_catalog::direction::CatalogKind;
use durable_catalog::error::CatalogError;
use durable_catalog::fence::FenceToken;
use durable_catalog::record::{contains_id, duplicate_records, reconcile_histories, Record};
use durable_catalog::store::{CatalogStore, OpenMode, Snapshot};

fn rec(id: u64, payload: &[u8]) -> Record {
    Record::new(id, payload.to_vec())
}

fn token(boot_ts: u64, generation: Option<u64>) -> FenceToken {
    FenceToken::new(boot_ts, generation)
}

#[test]
fn fence_tokens_are_ordered_by_boot_timestamp_then_generation() {
    assert!(token(2, None).is_newer_than(&token(1, Some(9))));
    assert!(!token(1, Some(9)).is_newer_than(&token(2, None)));
    assert!(token(1, Some(2)).is_newer_than(&token(1, Some(1))));
    assert!(token(1, Some(0)).is_newer_than(&token(1, None)));
    assert!(!token(1, None).is_newer_than(&token(1, Some(0))));
    assert!(!token(1, Some(1)).is_newer_than(&token(1, Some(1))));
    assert!(!token(1, None).is_newer_than(&token(1, None)));
}

#[test]
fn reconcile_appends_only_new_identities() {
    let existing = vec![rec(1, b"a"), rec(2, b"b")];
    let incoming = vec![rec(2, b"other"), rec(3, b"c"), rec(1, b"x"), rec(4, b"d"), rec(3, b"again")];
    let merged = reconcile_histories(existing, &incoming);
    assert_eq!(merged, vec![rec(1, b"a"), rec(2, b"b"), rec(3, b"c"), rec(4, b"d")]);
}

#[test]
fn reconcile_with_empty_sides() {
    let merged = reconcile_histories(Vec::new(), &vec![rec(5, b"e"), rec(5, b"f")]);
    assert_eq!(merged, vec![rec(5, b"e")]);
    let merged = reconcile_histories(vec![rec(5, b"e")], &Vec::new());
    assert_eq!(merged, vec![rec(5, b"e")]);
}

#[test]
fn reconcile_twice_is_reconcile_once() {
    let incoming = vec![rec(2, b"b"), rec(3, b"c")];
    let once = reconcile_histories(vec![rec(1, b"a")], &incoming);
    let twice = reconcile_histories(duplicate_records(&once), &incoming);
    assert_eq!(once, twice);
}

#[test]
fn contains_id_finds_identities() {
    let records = vec![rec(7, b""), rec(9, b"z")];
    assert!(contains_id(&records, 7));
    assert!(contains_id(&records, 9));
    assert!(!contains_id(&records, 8));
    assert!(!contains_id(&Vec::new(), 0));
}

#[test]
fn duplicate_is_equal() {
    let r = rec(3, b"payload");
    assert_eq!(r.duplicate(), r);
    let records = vec![rec(1, b"a"), rec(2, b"b")];
    assert_eq!(duplicate_records(&records), records);
}

#[test]
fn fresh_store_is_empty_and_uninitialized() {
    let store = CatalogStore::new();
    assert!(!store.is_initialized());
    assert_eq!(store.get_deployment_generation(), None);
    assert_eq!(store.get_catalog_kind_config(), None);
    assert_eq!(store.get_tombstone(), None);
    assert_eq!(store.fence(), None);
    assert!(store.content().snapshot.items.is_empty());
    assert!(store.content().audit_log.is_empty());
    assert!(store.content().storage_usage.is_empty());
}

#[test]
fn durable_open_initializes_and_records_generation() {
    let mut store = CatalogStore::new();
    let session = store.open(OpenMode::Durable, token(10, Some(3))).unwrap();
    assert!(store.is_initialized());
    assert_eq!(store.get_deployment_generation(), Some(3));
    assert_eq!(store.fence(), Some(token(10, Some(3))));
    assert_eq!(session.token(), token(10, Some(3)));
    assert_eq!(session.mode(), OpenMode::Durable);
    assert!(store.is_held_by(&session));
}

#[test]
fn open_without_generation_keeps_recorded_generation() {
    let mut store = CatalogStore::new();
    store.open(OpenMode::Durable, token(10, Some(3))).unwrap();
    store.open(OpenMode::Durable, token(11, None)).unwrap();
    assert_eq!(store.get_deployment_generation(), Some(3));
}

#[test]
fn savepoint_open_of_uninitialized_store_is_recoverable_failure() {
    let mut store = CatalogStore::new();
    let err = store.open(OpenMode::Savepoint, token(1, None)).unwrap_err();
    assert_eq!(err, CatalogError::Durable { recoverable: true });
    assert!(err.can_recover_with_write_mode());
    assert!(!store.is_initialized());
    assert_eq!(store.fence(), None);
}

#[test]
fn open_with_token_not_newer_is_fenced() {
    let mut store = CatalogStore::new();
    store.open(OpenMode::Durable, token(10, Some(1))).unwrap();
    assert_eq!(
        store.open(OpenMode::Durable, token(10, Some(1))).unwrap_err(),
        CatalogError::Fenced
    );
    assert_eq!(
        store.open(OpenMode::Durable, token(9, Some(5))).unwrap_err(),
        CatalogError::Fenced
    );
    assert_eq!(
        store.open(OpenMode::Savepoint, token(10, Some(0))).unwrap_err(),
        CatalogError::Fenced
    );
    assert_eq!(store.fence(), Some(token(10, Some(1))));
    assert!(!CatalogError::Fenced.can_recover_with_write_mode());
    assert!(CatalogError::Fenced.is_fenced());
    assert!(!CatalogError::Content.is_fenced());
    assert!(!(CatalogError::Durable { recoverable: false }).can_recover_with_write_mode());
}

#[test]
fn newer_opener_fences_out_older_session() {
    let mut store = CatalogStore::new();
    let mut a = store.open(OpenMode::Durable, token(10, Some(1))).unwrap();
    let txn_a = store.transaction(&a).unwrap();
    let b = store.open(OpenMode::Durable, token(11, Some(1))).unwrap();

    assert!(!store.is_held_by(&a));
    assert!(store.is_held_by(&b));
    assert_eq!(store.read_tombstone(&a), Err(CatalogError::Fenced));
    assert_eq!(store.whole_migration_snapshot(&a).unwrap_err(), CatalogError::Fenced);
    assert_eq!(store.whole_migration_transaction(&a).unwrap_err(), CatalogError::Fenced);
    assert_eq!(store.transaction(&a).unwrap_err(), CatalogError::Fenced);
    assert_eq!(store.commit(&mut a, txn_a), Err(CatalogError::Fenced));
    assert_eq!(store.read_tombstone(&b), Ok(None));

    // Expiring the stale session does not release the newer lease.
    store.expire(a);
    assert!(store.is_held_by(&b));
    // The stale token cannot come back.
    assert_eq!(
        store.open(OpenMode::Durable, token(10, Some(1))).unwrap_err(),
        CatalogError::Fenced
    );
}

#[test]
fn expired_session_is_refused_and_fence_stays() {
    let mut store = CatalogStore::new();
    let a = store.open(OpenMode::Durable, token(10, None)).unwrap();
    let keep = store.open(OpenMode::Durable, token(11, None)).unwrap();
    store.expire(a);
    assert!(store.is_held_by(&keep));
    let again = store.open(OpenMode::Durable, token(12, None)).unwrap();
    assert_eq!(store.read_tombstone(&keep), Err(CatalogError::Fenced));
    store.expire(again);
    assert_eq!(store.fence(), Some(token(12, None)));
    assert_eq!(
        store.open(OpenMode::Durable, token(12, None)).unwrap_err(),
        CatalogError::Fenced
    );
    assert!(store.open(OpenMode::Durable, token(13, None)).is_ok());
}

#[test]
fn durable_commit_replaces_content() {
    let mut store = CatalogStore::new();
    let mut session = store.open(OpenMode::Durable, token(1, None)).unwrap();
    let mut txn = store.transaction(&session).unwrap();
    txn.insert_item(rec(1, b"db"));
    txn.append_audit_event(rec(100, b"created"));
    txn.append_audit_event(rec(100, b"duplicate"));
    txn.append_storage_usage(rec(200, b"10MB"));
    txn.set_catalog_kind_config(Some(CatalogKind::Stash));
    txn.set_tombstone(false);
    assert_eq!(txn.content().audit_log, vec![rec(100, b"created")]);
    store.commit(&mut session, txn).unwrap();

    assert_eq!(store.content().snapshot.items, vec![rec(1, b"db")]);
    assert_eq!(store.content().audit_log, vec![rec(100, b"created")]);
    assert_eq!(store.content().storage_usage, vec![rec(200, b"10MB")]);
    assert_eq!(store.get_catalog_kind_config(), Some(CatalogKind::Stash));
    assert_eq!(store.get_tombstone(), Some(false));
    assert_eq!(store.read_tombstone(&session), Ok(Some(false)));
}

#[test]
fn savepoint_commit_stays_in_the_session() {
    let mut store = CatalogStore::new();
    let first = store.open(OpenMode::Durable, token(1, None)).unwrap();
    store.expire(first);
    let mut session = store.open(OpenMode::Savepoint, token(2, None)).unwrap();
    assert_eq!(session.mode(), OpenMode::Savepoint);
    let mut txn = store.transaction(&session).unwrap();
    txn.insert_item(rec(1, b"db"));
    txn.set_tombstone(true);
    store.commit(&mut session, txn).unwrap();

    assert!(store.content().snapshot.items.is_empty());
    assert_eq!(store.get_tombstone(), None);
    assert_eq!(store.read_tombstone(&session), Ok(Some(true)));
    let (snapshot, audit, usage) = store.whole_migration_snapshot(&session).unwrap();
    assert_eq!(snapshot.items, vec![rec(1, b"db")]);
    assert!(audit.is_empty());
    assert!(usage.is_empty());
}

#[test]
fn set_catalog_overwrites_snapshot_and_reconciles_histories() {
    let mut store = CatalogStore::new();
    let mut session = store.open(OpenMode::Durable, token(1, None)).unwrap();
    let mut txn = store.transaction(&session).unwrap();
    txn.insert_item(rec(1, b"old"));
    txn.append_audit_event(rec(10, b"kept"));
    txn.set_tombstone(true);
    store.commit(&mut session, txn).unwrap();

    let (mut txn, dest_audit, dest_usage) = store.whole_migration_transaction(&session).unwrap();
    assert_eq!(dest_audit, vec![rec(10, b"kept")]);
    assert!(dest_usage.is_empty());
    txn.set_catalog(
        Snapshot { items: vec![rec(2, b"new")], catalog_kind: Some(CatalogKind::Persist) },
        dest_audit,
        dest_usage,
        vec![rec(10, b"from source"), rec(11, b"added")],
        vec![rec(20, b"usage")],
    );
    store.commit(&mut session, txn).unwrap();

    assert_eq!(store.content().snapshot.items, vec![rec(2, b"new")]);
    assert_eq!(store.get_catalog_kind_config(), Some(CatalogKind::Persist));
    assert_eq!(store.content().audit_log, vec![rec(10, b"kept"), rec(11, b"added")]);
    assert_eq!(store.content().storage_usage, vec![rec(20, b"usage")]);
    assert_eq!(store.get_tombstone(), Some(true));
}
