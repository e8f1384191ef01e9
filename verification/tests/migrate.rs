use durable_catalog::direction::{Backend, CatalogKind, Direction};
use durable_catalog::error::CatalogError;
use durable_catalog::fence::FenceToken;
use durable_catalog::migrate::{drive, CatalogMigrator, FaultPlan, OpenFailure};
use durable_catalog::protocol::FaultPoint;
use durable_catalog::record::Record;
use durable_catalog::store::{duplicate_content, CatalogContent, CatalogStore, OpenMode};

fn rec(id: u64, payload: &[u8]) -> Record {
    Record::new(id, payload.to_vec())
}

/// A stash that holds a small catalog and a persist that was never opened.
fn populated_stash(boot_ts: u64) -> CatalogStore {
    let mut stash = CatalogStore::new();
    let mut session = stash.open(OpenMode::Durable, FenceToken::new(boot_ts, Some(1))).unwrap();
    let mut txn = stash.transaction(&session).unwrap();
    txn.insert_item(rec(1, b"database"));
    txn.insert_item(rec(2, b"schema"));
    txn.set_catalog_kind_config(Some(CatalogKind::Persist));
    txn.append_audit_event(rec(100, b"create database"));
    txn.append_audit_event(rec(101, b"create schema"));
    txn.append_storage_usage(rec(500, b"12 bytes"));
    stash.commit(&mut session, txn).unwrap();
    stash.expire(session);
    stash
}

fn content(store: &CatalogStore) -> CatalogContent {
    duplicate_content(store.content())
}

fn forward() -> CatalogMigrator {
    CatalogMigrator::new(Direction::MigrateToPersist)
}

fn rollback() -> CatalogMigrator {
    CatalogMigrator::new(Direction::RollbackToStash)
}

#[test]
fn forward_migration_copies_catalog_and_sets_tombstone() {
    let mut stash = populated_stash(1);
    let mut persist = CatalogStore::new();
    let before = content(&stash);

    let opened = forward()
        .open(&mut stash, &mut persist, 2, Some(1), &FaultPlan::none())
        .unwrap();

    assert_eq!(opened.backend, Backend::Persist);
    assert!(persist.is_held_by(&opened.session));
    assert_eq!(stash.get_tombstone(), Some(true));
    assert_eq!(persist.get_tombstone(), None);
    assert_eq!(persist.content().snapshot, before.snapshot);
    assert_eq!(persist.content().audit_log, before.audit_log);
    assert_eq!(persist.content().storage_usage, before.storage_usage);
    assert_eq!(stash.content().snapshot, before.snapshot);
    assert_eq!(stash.content().audit_log, before.audit_log);
    // The loser's lease was given back, its fence stays.
    assert_eq!(stash.fence(), Some(FenceToken::new(2, Some(1))));
    assert_eq!(
        stash.open(OpenMode::Durable, FenceToken::new(2, Some(1))).unwrap_err(),
        CatalogError::Fenced
    );
}

#[test]
fn forward_migration_twice_is_idempotent() {
    let mut stash = populated_stash(1);
    let mut persist = CatalogStore::new();
    forward().open(&mut stash, &mut persist, 2, Some(1), &FaultPlan::none()).unwrap();
    let stash_once = content(&stash);
    let persist_once = content(&persist);
    assert_eq!(stash_once.tombstone, Some(true));

    let opened = forward()
        .open(&mut stash, &mut persist, 3, Some(1), &FaultPlan::none())
        .unwrap();
    assert_eq!(opened.backend, Backend::Persist);
    assert_eq!(content(&stash), stash_once);
    assert_eq!(content(&persist), persist_once);
    assert_eq!(stash.get_tombstone(), Some(true));
}

#[test]
fn rollback_twice_is_idempotent() {
    let mut stash = populated_stash(1);
    let mut persist = CatalogStore::new();
    forward().open(&mut stash, &mut persist, 2, Some(1), &FaultPlan::none()).unwrap();

    let opened = rollback()
        .open(&mut stash, &mut persist, 3, Some(1), &FaultPlan::none())
        .unwrap();
    assert_eq!(opened.backend, Backend::Stash);
    let stash_once = content(&stash);
    let persist_once = content(&persist);
    assert_eq!(stash_once.tombstone, Some(false));

    let opened = rollback()
        .open(&mut stash, &mut persist, 4, Some(1), &FaultPlan::none())
        .unwrap();
    assert_eq!(opened.backend, Backend::Stash);
    assert_eq!(content(&stash), stash_once);
    assert_eq!(content(&persist), persist_once);
    assert_eq!(stash.get_tombstone(), Some(false));
}

#[test]
fn crash_after_content_commit_is_recovered_by_the_next_open() {
    // The uninterrupted run.
    let mut stash_whole = populated_stash(1);
    let mut persist_whole = CatalogStore::new();
    forward()
        .open(&mut stash_whole, &mut persist_whole, 2, Some(1), &FaultPlan::none())
        .unwrap();

    // The interrupted run and its repetition.
    let mut stash = populated_stash(1);
    let mut persist = CatalogStore::new();
    let before = content(&stash);
    let cut = forward()
        .open(&mut stash, &mut persist, 2, Some(1), &FaultPlan::at(FaultPoint::MigratePostWrite))
        .unwrap_err();
    assert_eq!(cut, OpenFailure::Interrupted(FaultPoint::MigratePostWrite));
    // Persist holds the copy, the stash is still authoritative.
    assert_eq!(persist.content().snapshot, before.snapshot);
    assert_eq!(content(&stash), before);
    assert_eq!(stash.get_tombstone(), None);

    let opened = forward()
        .open(&mut stash, &mut persist, 3, Some(1), &FaultPlan::none())
        .unwrap();
    assert_eq!(opened.backend, Backend::Persist);
    assert_eq!(content(&persist), content(&persist_whole));
    assert_eq!(content(&stash), content(&stash_whole));
    assert_eq!(stash.get_tombstone(), Some(true));
}

#[test]
fn crash_after_either_fence_leaves_content_untouched() {
    for point in [FaultPoint::PostStashFence, FaultPoint::PostPersistFence] {
        let mut stash = populated_stash(1);
        let mut persist = CatalogStore::new();
        let before = content(&stash);
        let cut = forward()
            .open(&mut stash, &mut persist, 2, Some(1), &FaultPlan::at(point))
            .unwrap_err();
        assert_eq!(cut, OpenFailure::Interrupted(point));
        assert_eq!(content(&stash), before);
        assert!(persist.content().snapshot.items.is_empty());
        assert_eq!(persist.is_initialized(), point == FaultPoint::PostPersistFence);
        // The crashed opener never gave its lease back: the same token is refused.
        assert_eq!(
            forward()
                .open(&mut stash, &mut persist, 2, Some(1), &FaultPlan::none())
                .unwrap_err(),
            OpenFailure::Catalog(CatalogError::Fenced)
        );
        let opened = forward()
            .open(&mut stash, &mut persist, 3, Some(1), &FaultPlan::none())
            .unwrap();
        assert_eq!(opened.backend, Backend::Persist);
        assert_eq!(persist.content().snapshot, before.snapshot);
    }
}

#[test]
fn migration_then_rollback_restores_the_stash() {
    let mut stash = populated_stash(1);
    let mut persist = CatalogStore::new();
    let before = content(&stash);

    forward().open(&mut stash, &mut persist, 2, Some(1), &FaultPlan::none()).unwrap();
    let opened = rollback()
        .open(&mut stash, &mut persist, 3, Some(1), &FaultPlan::none())
        .unwrap();

    assert_eq!(opened.backend, Backend::Stash);
    assert_eq!(stash.content().snapshot, before.snapshot);
    assert_eq!(stash.content().audit_log, before.audit_log);
    assert_eq!(stash.content().storage_usage, before.storage_usage);
    assert_eq!(stash.get_tombstone(), Some(false));
}

#[test]
fn rollback_brings_back_what_persist_added() {
    let mut stash = populated_stash(1);
    let mut persist = CatalogStore::new();
    let opened = forward()
        .open(&mut stash, &mut persist, 2, Some(1), &FaultPlan::none())
        .unwrap();
    let mut session = opened.session;
    let mut txn = persist.transaction(&session).unwrap();
    txn.insert_item(rec(3, b"table"));
    txn.append_audit_event(rec(102, b"create table"));
    persist.commit(&mut session, txn).unwrap();
    persist.expire(session);

    rollback().open(&mut stash, &mut persist, 3, Some(1), &FaultPlan::none()).unwrap();
    assert_eq!(
        stash.content().snapshot.items,
        vec![rec(1, b"database"), rec(2, b"schema"), rec(3, b"table")]
    );
    assert_eq!(
        stash.content().audit_log,
        vec![rec(100, b"create database"), rec(101, b"create schema"), rec(102, b"create table")]
    );
    assert_eq!(stash.get_tombstone(), Some(false));
}

#[test]
fn rollback_of_unmigrated_catalog_writes_nothing() {
    for tombstone in [None, Some(false)] {
        let mut stash = populated_stash(1);
        if let Some(value) = tombstone {
            let mut session = stash.open(OpenMode::Durable, FenceToken::new(2, Some(1))).unwrap();
            let mut txn = stash.transaction(&session).unwrap();
            txn.set_tombstone(value);
            stash.commit(&mut session, txn).unwrap();
            stash.expire(session);
        }
        let mut persist = CatalogStore::new();
        let stash_before = content(&stash);
        let persist_before = content(&persist);

        let opened = rollback()
            .open(&mut stash, &mut persist, 5, Some(1), &FaultPlan::none())
            .unwrap();
        assert_eq!(opened.backend, Backend::Stash);
        assert!(stash.is_held_by(&opened.session));
        assert_eq!(content(&stash), stash_before);
        assert_eq!(content(&persist), persist_before);
        assert_eq!(stash.get_tombstone(), tombstone);
    }
}

#[test]
fn stale_opener_is_fenced_and_changes_nothing() {
    let mut stash = populated_stash(5);
    let mut persist = CatalogStore::new();
    let before = content(&stash);
    let err = forward()
        .open(&mut stash, &mut persist, 4, Some(9), &FaultPlan::none())
        .unwrap_err();
    assert_eq!(err, OpenFailure::Catalog(CatalogError::Fenced));
    assert_eq!(content(&stash), before);
    assert!(!persist.is_initialized());
    assert_eq!(persist.fence(), None);
}

#[test]
fn persist_fence_failure_releases_the_stash_and_keeps_the_tombstone() {
    let mut stash = populated_stash(1);
    let mut persist = CatalogStore::new();
    let other = persist.open(OpenMode::Durable, FenceToken::new(9, Some(1))).unwrap();
    let err = forward()
        .open(&mut stash, &mut persist, 2, Some(1), &FaultPlan::none())
        .unwrap_err();
    assert_eq!(err, OpenFailure::Catalog(CatalogError::Fenced));
    assert_eq!(stash.get_tombstone(), None);
    assert_eq!(stash.fence(), Some(FenceToken::new(2, Some(1))));
    assert!(persist.is_held_by(&other));
}

#[test]
fn savepoint_rollback_tolerates_uninitialized_persist() {
    let mut stash = populated_stash(1);
    let mut persist = CatalogStore::new();
    let before = content(&stash);
    let opened = rollback()
        .open_savepoint(&mut stash, &mut persist, 2, Some(1), &FaultPlan::none())
        .unwrap();
    assert_eq!(opened.backend, Backend::Stash);
    assert_eq!(opened.session.mode(), OpenMode::Savepoint);
    assert!(stash.is_held_by(&opened.session));
    assert!(!persist.is_initialized());
    assert_eq!(persist.fence(), None);
    assert_eq!(content(&stash), before);
}

#[test]
fn savepoint_forward_does_not_tolerate_uninitialized_persist() {
    let mut stash = populated_stash(1);
    let mut persist = CatalogStore::new();
    let err = forward()
        .open_savepoint(&mut stash, &mut persist, 2, Some(1), &FaultPlan::none())
        .unwrap_err();
    assert_eq!(err, OpenFailure::Catalog(CatalogError::Durable { recoverable: true }));
    assert_eq!(stash.get_tombstone(), None);
}

#[test]
fn savepoint_of_uninitialized_stash_fails() {
    let mut stash = CatalogStore::new();
    let mut persist = CatalogStore::new();
    let err = rollback()
        .open_savepoint(&mut stash, &mut persist, 2, Some(1), &FaultPlan::none())
        .unwrap_err();
    assert_eq!(err, OpenFailure::Catalog(CatalogError::Durable { recoverable: true }));
    assert_eq!(stash.fence(), None);
}

#[test]
fn savepoint_migration_is_a_dry_run() {
    let mut stash = populated_stash(1);
    let mut persist = CatalogStore::new();
    let first = persist.open(OpenMode::Durable, FenceToken::new(1, Some(1))).unwrap();
    persist.expire(first);
    let stash_before = content(&stash);
    let persist_before = content(&persist);

    let opened = forward()
        .open_savepoint(&mut stash, &mut persist, 2, Some(1), &FaultPlan::none())
        .unwrap();
    assert_eq!(opened.backend, Backend::Persist);
    assert_eq!(content(&stash), stash_before);
    assert_eq!(content(&persist), persist_before);
    assert_eq!(stash.get_tombstone(), None);
    // The session sees the migrated catalog.
    let (snapshot, audit, usage) = persist.whole_migration_snapshot(&opened.session).unwrap();
    assert_eq!(snapshot, stash_before.snapshot);
    assert_eq!(audit, stash_before.audit_log);
    assert_eq!(usage, stash_before.storage_usage);
}

#[test]
fn reads_are_delegated_to_the_authoritative_backend() {
    let mut stash = populated_stash(1);
    let mut persist = CatalogStore::new();
    let migrator = forward();
    assert_eq!(migrator.get_tombstone(&stash), None);
    assert!(migrator.is_initialized(&stash, &persist));
    assert_eq!(migrator.get_deployment_generation(&stash, &persist), Some(1));
    assert_eq!(migrator.get_catalog_kind_config(&stash, &persist), Some(CatalogKind::Persist));

    // Mark persist authoritative without initializing it.
    let mut session = stash.open(OpenMode::Durable, FenceToken::new(2, Some(7))).unwrap();
    let mut txn = stash.transaction(&session).unwrap();
    txn.set_tombstone(true);
    stash.commit(&mut session, txn).unwrap();
    stash.expire(session);
    assert_eq!(migrator.get_tombstone(&stash), Some(true));
    assert!(!migrator.is_initialized(&stash, &persist));
    assert_eq!(migrator.get_deployment_generation(&stash, &persist), None);
    assert_eq!(migrator.get_catalog_kind_config(&stash, &persist), None);

    let opened = persist.open(OpenMode::Durable, FenceToken::new(3, Some(8))).unwrap();
    persist.expire(opened);
    assert!(migrator.is_initialized(&stash, &persist));
    assert_eq!(migrator.get_deployment_generation(&stash, &persist), Some(8));
}

#[test]
fn fault_plans() {
    let none = FaultPlan::none();
    assert!(!none.is_armed(FaultPoint::PostStashFence));
    assert!(!none.is_armed(FaultPoint::PostPersistFence));
    assert!(!none.is_armed(FaultPoint::MigratePostWrite));
    let plan = FaultPlan::at(FaultPoint::PostPersistFence);
    assert!(!plan.is_armed(FaultPoint::PostStashFence));
    assert!(plan.is_armed(FaultPoint::PostPersistFence));
    assert!(!plan.is_armed(FaultPoint::MigratePostWrite));
    assert_eq!(FaultPoint::PostStashFence.name(), "post_stash_fence");
    assert_eq!(FaultPoint::PostPersistFence.name(), "post_persist_fence");
    assert_eq!(FaultPoint::MigratePostWrite.name(), "migrate_post_write");
}

#[test]
fn drive_runs_the_protocol_in_either_mode() {
    let mut stash = populated_stash(1);
    let mut persist = CatalogStore::new();
    let opened = drive(
        OpenMode::Durable,
        Direction::MigrateToPersist,
        FenceToken::new(2, None),
        &FaultPlan::none(),
        &mut stash,
        &mut persist,
    )
    .unwrap();
    assert_eq!(opened.backend, Backend::Persist);
    assert_eq!(stash.get_tombstone(), Some(true));
    // A store keeps the generation it was given when the opener brings none.
    assert_eq!(stash.get_deployment_generation(), Some(1));
}
