use durable_catalog::direction::{Backend, Direction};
use durable_catalog::error::CatalogError;
use durable_catalog::protocol::{other_backend, Action, Event, FaultPoint, OpenProtocol, Phase};
use durable_catalog::store::OpenMode;

type Machine = OpenProtocol<&'static str, &'static str, &'static str>;
type Step = Action<&'static str, &'static str, &'static str>;
type Report = Event<&'static str, &'static str, &'static str>;

/// Feeds the events in order and collects the actions, the first one included.
fn actions(mode: OpenMode, direction: Direction, events: Vec<Report>) -> Vec<Step> {
    let (mut machine, first) = Machine::begin(mode, direction);
    let mut seen = vec![first];
    for event in events {
        let (next, action) = machine.advance(event);
        machine = next;
        seen.push(action);
    }
    seen
}

fn source() -> Report {
    Event::Snapshot { snapshot: "snapshot", audit_log: "src audit", storage_usage: "src usage" }
}

fn destination() -> Report {
    Event::MigrationBegun { audit_log: "dest audit", storage_usage: "dest usage" }
}

#[test]
fn durable_forward_migration_in_order() {
    let seen = actions(
        OpenMode::Durable,
        Direction::MigrateToPersist,
        vec![
            Event::Opened,
            Event::Done,
            Event::Opened,
            Event::Done,
            Event::Tombstone(None),
            source(),
            destination(),
            Event::Done,
            Event::Done,
            Event::Done,
            Event::Done,
            Event::Done,
            Event::Done,
        ],
    );
    assert_eq!(
        seen,
        vec![
            Action::Open { backend: Backend::Stash, mode: OpenMode::Durable },
            Action::FaultPoint(FaultPoint::PostStashFence),
            Action::Open { backend: Backend::Persist, mode: OpenMode::Durable },
            Action::FaultPoint(FaultPoint::PostPersistFence),
            Action::ReadTombstone,
            Action::ReadSnapshot(Backend::Stash),
            Action::BeginMigration(Backend::Persist),
            Action::SetCatalog {
                destination: Backend::Persist,
                snapshot: "snapshot",
                dest_audit_log: "dest audit",
                dest_storage_usage: "dest usage",
                src_audit_log: "src audit",
                src_storage_usage: "src usage",
            },
            Action::Commit(Backend::Persist),
            Action::FaultPoint(FaultPoint::MigratePostWrite),
            Action::BeginTransaction(Backend::Stash),
            Action::SetTombstone(true),
            Action::Commit(Backend::Stash),
            Action::Finish { authoritative: Backend::Persist, release: Some(Backend::Stash) },
        ]
    );
}

#[test]
fn durable_rollback_in_order() {
    let seen = actions(
        OpenMode::Durable,
        Direction::RollbackToStash,
        vec![
            Event::Opened,
            Event::Done,
            Event::Opened,
            Event::Done,
            Event::Tombstone(Some(true)),
            source(),
            destination(),
            Event::Done,
            Event::Done,
            Event::Done,
        ],
    );
    assert_eq!(
        seen,
        vec![
            Action::Open { backend: Backend::Stash, mode: OpenMode::Durable },
            Action::FaultPoint(FaultPoint::PostStashFence),
            Action::Open { backend: Backend::Persist, mode: OpenMode::Durable },
            Action::FaultPoint(FaultPoint::PostPersistFence),
            Action::ReadTombstone,
            Action::ReadSnapshot(Backend::Persist),
            Action::BeginMigration(Backend::Stash),
            Action::SetCatalog {
                destination: Backend::Stash,
                snapshot: "snapshot",
                dest_audit_log: "dest audit",
                dest_storage_usage: "dest usage",
                src_audit_log: "src audit",
                src_storage_usage: "src usage",
            },
            Action::SetTombstone(false),
            Action::Commit(Backend::Stash),
            Action::Finish { authoritative: Backend::Stash, release: Some(Backend::Persist) },
        ]
    );
}

#[test]
fn savepoint_open_asks_about_persist_and_has_no_fence_fault_points() {
    let seen = actions(
        OpenMode::Savepoint,
        Direction::MigrateToPersist,
        vec![Event::Opened, Event::Initialized(true), Event::Opened, Event::Tombstone(Some(true))],
    );
    assert_eq!(
        seen,
        vec![
            Action::Open { backend: Backend::Stash, mode: OpenMode::Savepoint },
            Action::CheckPersistInitialized,
            Action::Open { backend: Backend::Persist, mode: OpenMode::Savepoint },
            Action::ReadTombstone,
            Action::Finish { authoritative: Backend::Persist, release: Some(Backend::Stash) },
        ]
    );
}

#[test]
fn settled_tombstone_ends_the_attempt_without_a_write() {
    for tombstone in [None, Some(false)] {
        let seen = actions(
            OpenMode::Durable,
            Direction::RollbackToStash,
            vec![Event::Opened, Event::Done, Event::Opened, Event::Done, Event::Tombstone(tombstone)],
        );
        assert_eq!(
            seen.last(),
            Some(&Action::Finish { authoritative: Backend::Stash, release: Some(Backend::Persist) })
        );
        assert!(seen.iter().all(|action| !matches!(
            action,
            Action::SetCatalog { .. } | Action::SetTombstone(_) | Action::Commit(_)
        )));
    }
    let seen = actions(
        OpenMode::Durable,
        Direction::MigrateToPersist,
        vec![Event::Opened, Event::Done, Event::Opened, Event::Done, Event::Tombstone(Some(false))],
    );
    assert_eq!(seen.last(), Some(&Action::ReadSnapshot(Backend::Stash)));
}

#[test]
fn savepoint_tolerates_unready_persist_only_when_rolling_back() {
    let recoverable = CatalogError::Durable { recoverable: true };
    let fatal = CatalogError::Durable { recoverable: false };
    let run = |direction, initialized, error| {
        actions(
            OpenMode::Savepoint,
            direction,
            vec![Event::Opened, Event::Initialized(initialized), Event::Failed(error)],
        )
        .pop()
        .unwrap()
    };
    assert_eq!(
        run(Direction::RollbackToStash, false, recoverable),
        Action::Finish { authoritative: Backend::Stash, release: None }
    );
    assert_eq!(run(Direction::RollbackToStash, true, recoverable), Action::Fail(recoverable));
    assert_eq!(run(Direction::RollbackToStash, false, fatal), Action::Fail(fatal));
    assert_eq!(
        run(Direction::RollbackToStash, false, CatalogError::Fenced),
        Action::Fail(CatalogError::Fenced)
    );
    assert_eq!(run(Direction::MigrateToPersist, false, recoverable), Action::Fail(recoverable));
}

#[test]
fn durable_open_never_tolerates_a_persist_failure() {
    let recoverable = CatalogError::Durable { recoverable: true };
    let seen = actions(
        OpenMode::Durable,
        Direction::RollbackToStash,
        vec![Event::Opened, Event::Done, Event::Failed(recoverable)],
    );
    assert_eq!(seen.last(), Some(&Action::Fail(recoverable)));
}

#[test]
fn every_failure_ends_the_attempt_with_its_error() {
    let seen = actions(
        OpenMode::Durable,
        Direction::MigrateToPersist,
        vec![Event::Failed(CatalogError::Fenced)],
    );
    assert_eq!(seen.last(), Some(&Action::Fail(CatalogError::Fenced)));

    let seen = actions(
        OpenMode::Durable,
        Direction::MigrateToPersist,
        vec![
            Event::Opened,
            Event::Done,
            Event::Opened,
            Event::Done,
            Event::Tombstone(None),
            source(),
            destination(),
            Event::Failed(CatalogError::Content),
        ],
    );
    assert_eq!(seen.last(), Some(&Action::Fail(CatalogError::Content)));

    let unavailable = CatalogError::Durable { recoverable: false };
    let seen = actions(
        OpenMode::Savepoint,
        Direction::RollbackToStash,
        vec![Event::Opened, Event::Failed(unavailable)],
    );
    assert_eq!(seen.last(), Some(&Action::Fail(unavailable)));
}

#[test]
fn unexpected_event_is_rejected_and_the_machine_stops() {
    let (machine, _) = Machine::begin(OpenMode::Durable, Direction::MigrateToPersist);
    assert!(!machine.is_over());
    let (machine, action) = machine.advance(Event::Tombstone(None));
    assert_eq!(action, Action::Reject);
    assert!(machine.is_over());
    assert_eq!(machine.phase, Phase::Failed);
    let (machine, action) = machine.advance(Event::Opened);
    assert_eq!(action, Action::Reject);
    assert_eq!(machine.phase, Phase::Failed);
}

#[test]
fn finished_machine_rejects_further_events() {
    let (machine, _) = Machine::begin(OpenMode::Savepoint, Direction::RollbackToStash);
    let (machine, _) = machine.advance(Event::Opened);
    let (machine, _) = machine.advance(Event::Initialized(true));
    let (machine, _) = machine.advance(Event::Opened);
    let (machine, action) = machine.advance(Event::Tombstone(None));
    assert_eq!(
        action,
        Action::Finish { authoritative: Backend::Stash, release: Some(Backend::Persist) }
    );
    assert!(machine.is_over());
    let (machine, action) = machine.advance(Event::Done);
    assert_eq!(action, Action::Reject);
    assert_eq!(machine.phase, Phase::Finished);
}

#[test]
fn phase_foreign_to_the_mode_or_direction_is_rejected() {
    let machine: Machine = OpenProtocol {
        mode: OpenMode::Savepoint,
        direction: Direction::MigrateToPersist,
        phase: Phase::PostStashFence,
    };
    assert_eq!(machine.advance(Event::Done).1, Action::Reject);
    let machine: Machine = OpenProtocol {
        mode: OpenMode::Durable,
        direction: Direction::RollbackToStash,
        phase: Phase::PostWrite,
    };
    assert_eq!(machine.advance(Event::Done).1, Action::Reject);
    let machine: Machine = OpenProtocol {
        mode: OpenMode::Durable,
        direction: Direction::RollbackToStash,
        phase: Phase::CheckingPersist,
    };
    assert_eq!(
        machine.advance(Event::Failed(CatalogError::Fenced)).1,
        Action::Fail(CatalogError::Fenced)
    );
}

#[test]
fn other_backend_swaps() {
    assert_eq!(other_backend(Backend::Stash), Backend::Persist);
    assert_eq!(other_backend(Backend::Persist), Backend::Stash);
}
