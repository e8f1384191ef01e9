//! The open protocol of the migrator as a state machine that performs no I/O.
//!
//! A driver owns the two backends. It starts the machine with
//! [`OpenProtocol::begin`], performs the [`Action`] it is handed, reports
//! what happened as an [`Event`] to [`OpenProtocol::advance`], and repeats
//! until the action is terminal. The machine fixes the order of the calls:
//! the stash is fenced before persist, the tombstone is consulted before
//! anything is written, and a forward migration commits the catalog to
//! persist before it flips the tombstone in the stash.
//!
//! The snapshot and the two histories are carried through untouched; their
//! types are parameters.
use vstd::prelude::*;
use crate::direction::{target_of, Backend, Direction};
use crate::error::CatalogError;
use crate::store::OpenMode;

verus! {

/// A point of the protocol at which a test may force a failure.
#[derive(Clone, Copy, Debug, PartialEq, Eq, Structural)]
pub enum FaultPoint {
    /// Right after the stash was fenced by a durable open.
    PostStashFence,
    /// Right after persist was fenced by a durable open.
    PostPersistFence,
    /// Between the commit of the catalog to persist and the tombstone flip.
    MigratePostWrite,
}

impl FaultPoint {
    /// The name under which the point is toggled.
    pub fn name(&self) -> (name: &'static str)
        ensures
            name@ == match *self {
                FaultPoint::PostStashFence => "post_stash_fence"@,
                FaultPoint::PostPersistFence => "post_persist_fence"@,
                FaultPoint::MigratePostWrite => "migrate_post_write"@,
            },
    {
        match self {
            FaultPoint::PostStashFence => "post_stash_fence",
            FaultPoint::PostPersistFence => "post_persist_fence",
            FaultPoint::MigratePostWrite => "migrate_post_write",
        }
    }
}

/// What the driver is asked to do next.
#[derive(Debug, PartialEq, Eq)]
pub enum Action<S, A, U> {
    /// Open a backend in the given mode, fencing out earlier openers.
    Open { backend: Backend, mode: OpenMode },
    /// Ask the unopened persist backend whether it was ever initialized.
    CheckPersistInitialized,
    /// Evaluate a fault point; report `Done` if the run goes on.
    FaultPoint(FaultPoint),
    /// Read the tombstone from the opened stash.
    ReadTombstone,
    /// Read the whole catalog of the given backend as a migration source.
    ReadSnapshot(Backend),
    /// Start a migration transaction on the given backend and report the
    /// histories it already holds.
    BeginMigration(Backend),
    /// Install the source's catalog in the open migration transaction.
    SetCatalog {
        destination: Backend,
        snapshot: S,
        dest_audit_log: A,
        dest_storage_usage: U,
        src_audit_log: A,
        src_storage_usage: U,
    },
    /// Start an ordinary transaction on the given backend.
    BeginTransaction(Backend),
    /// Set the tombstone in the open stash transaction.
    SetTombstone(bool),
    /// Commit the open transaction of the given backend.
    Commit(Backend),
    /// The open succeeded: hand `authoritative` to the caller and release
    /// the handle of `release`, if any.
    Finish { authoritative: Backend, release: Option<Backend> },
    /// The open failed with the given error: release every handle.
    Fail(CatalogError),
    /// The event did not answer the pending action, or the machine had
    /// already stopped: abandon the attempt.
    Reject,
}

/// What the driver reports back.
#[derive(Debug, PartialEq, Eq)]
pub enum Event<S, A, U> {
    /// The backend was opened.
    Opened,
    /// Whether persist was ever initialized.
    Initialized(bool),
    /// The tombstone read from the stash.
    Tombstone(Option<bool>),
    /// The source's snapshot and histories.
    Snapshot { snapshot: S, audit_log: A, storage_usage: U },
    /// The migration transaction is open; these are the histories the
    /// destination held before.
    MigrationBegun { audit_log: A, storage_usage: U },
    /// The action succeeded and has nothing to report.
    Done,
    /// The action failed.
    Failed(CatalogError),
}

/// Where the protocol stands: the answer it is waiting for.
#[derive(Debug, PartialEq, Eq)]
pub enum Phase<S, A, U> {
    OpeningStash,
    PostStashFence,
    CheckingPersist,
    OpeningPersist { persist_initialized: bool },
    PostPersistFence,
    ReadingTombstone,
    ReadingSource,
    BeginningMigration { snapshot: S, audit_log: A, storage_usage: U },
    SettingCatalog,
    CommittingContent,
    PostWrite,
    BeginningFlip,
    SettingTombstone,
    CommittingStash,
    Finished,
    Failed,
}

/// One attempt to open the catalog under migration.
#[derive(Debug, PartialEq, Eq)]
pub struct OpenProtocol<S, A, U> {
    pub mode: OpenMode,
    pub direction: Direction,
    pub phase: Phase<S, A, U>,
}

/// The other backend.
pub open spec fn other(backend: Backend) -> Backend {
    match backend {
        Backend::Stash => Backend::Persist,
        Backend::Persist => Backend::Stash,
    }
}

impl<S, A, U> Phase<S, A, U> {
    /// Whether the protocol has stopped.
    pub open spec fn terminal(self) -> bool {
        self is Finished || self is Failed
    }

    /// How far the protocol has come. Every step moves to a higher rank.
    pub open spec fn rank(self) -> nat {
        match self {
            Phase::OpeningStash => 0,
            Phase::PostStashFence => 1,
            Phase::CheckingPersist => 1,
            Phase::OpeningPersist { .. } => 2,
            Phase::PostPersistFence => 3,
            Phase::ReadingTombstone => 4,
            Phase::ReadingSource => 5,
            Phase::BeginningMigration { .. } => 6,
            Phase::SettingCatalog => 7,
            Phase::CommittingContent => 8,
            Phase::PostWrite => 9,
            Phase::BeginningFlip => 10,
            Phase::SettingTombstone => 11,
            Phase::CommittingStash => 12,
            Phase::Finished => 13,
            Phase::Failed => 13,
        }
    }
}

impl<S, A, U> Action<S, A, U> {
    /// Whether the action ends the attempt.
    pub open spec fn terminal(self) -> bool {
        self is Finish || self is Fail || self is Reject
    }

    /// Whether the action changes what a backend holds.
    pub open spec fn writes(self) -> bool {
        self is SetCatalog || self is SetTombstone || self is Commit
    }
}

impl<S, A, U> OpenProtocol<S, A, U> {
    /// The machine and first action of an attempt.
    pub open spec fn start(mode: OpenMode, direction: Direction) -> (Self, Action<S, A, U>) {
        (
            OpenProtocol { mode, direction, phase: Phase::OpeningStash },
            Action::Open { backend: Backend::Stash, mode },
        )
    }

    /// The machine in another phase.
    pub open spec fn at(self, phase: Phase<S, A, U>) -> Self {
        OpenProtocol { mode: self.mode, direction: self.direction, phase }
    }

    /// The step that ends the attempt with an error.
    pub open spec fn failing(self, error: CatalogError) -> (Self, Action<S, A, U>) {
        (self.at(Phase::Failed), Action::Fail(error))
    }

    /// The step that abandons the attempt.
    pub open spec fn rejecting(self) -> (Self, Action<S, A, U>) {
        (self.at(Phase::Failed), Action::Reject)
    }

    /// The step that ends the attempt with the direction's target as the
    /// authoritative backend and releases the other one.
    pub open spec fn finishing(self) -> (Self, Action<S, A, U>) {
        (
            self.at(Phase::Finished),
            Action::Finish {
                authoritative: target_of(self.direction),
                release: Some(other(target_of(self.direction))),
            },
        )
    }

    /// Whether a failed savepoint open of persist may be tolerated: the
    /// failure would go away in a writable mode, persist was never
    /// initialized, and the stash is where the catalog is meant to stay.
    pub open spec fn tolerates(self, error: CatalogError, persist_initialized: bool) -> bool {
        &&& self.mode == OpenMode::Savepoint
        &&& error.recoverable_with_write_mode()
        &&& !persist_initialized
        &&& self.direction == Direction::RollbackToStash
    }

    /// Whether the tombstone already agrees with the direction, so that
    /// there is nothing to migrate.
    pub open spec fn settled(self, tombstone: Option<bool>) -> bool {
        match self.direction {
            Direction::MigrateToPersist => tombstone == Some(true),
            Direction::RollbackToStash => tombstone != Some(true),
        }
    }

    /// Whether the phase is one that an attempt in this mode and direction
    /// passes through: the fault points after the fences belong to a durable
    /// open, the question about persist to a savepoint open, and the separate
    /// content commit and tombstone flip to a forward migration.
    pub open spec fn coherent(self) -> bool {
        match self.phase {
            Phase::PostStashFence | Phase::PostPersistFence => self.mode == OpenMode::Durable,
            Phase::CheckingPersist => self.mode == OpenMode::Savepoint,
            Phase::CommittingContent | Phase::PostWrite | Phase::BeginningFlip => self.direction
                == Direction::MigrateToPersist,
            _ => true,
        }
    }

    /// The transition function: the machine and action that follow `event`.
    pub open spec fn next(self, event: Event<S, A, U>) -> (Self, Action<S, A, U>) {
        if !self.coherent() {
            match event {
                Event::Failed(error) => self.failing(error),
                _ => self.rejecting(),
            }
        } else {
            self.next_coherent(event)
        }
    }

    /// The transition function on coherent machines.
    pub open spec fn next_coherent(self, event: Event<S, A, U>) -> (Self, Action<S, A, U>) {
        match (self.phase, event) {
            (Phase::Finished, _) => (self, Action::Reject),
            (Phase::Failed, _) => (self, Action::Reject),
            (Phase::OpeningPersist { persist_initialized }, Event::Failed(error)) => {
                if self.tolerates(error, persist_initialized) {
                    (
                        self.at(Phase::Finished),
                        Action::Finish { authoritative: Backend::Stash, release: None },
                    )
                } else {
                    self.failing(error)
                }
            },
            (_, Event::Failed(error)) => self.failing(error),
            (Phase::OpeningStash, Event::Opened) => match self.mode {
                OpenMode::Durable => (
                    self.at(Phase::PostStashFence),
                    Action::FaultPoint(FaultPoint::PostStashFence),
                ),
                OpenMode::Savepoint => (
                    self.at(Phase::CheckingPersist),
                    Action::CheckPersistInitialized,
                ),
            },
            (Phase::PostStashFence, Event::Done) => (
                self.at(Phase::OpeningPersist { persist_initialized: false }),
                Action::Open { backend: Backend::Persist, mode: self.mode },
            ),
            (Phase::CheckingPersist, Event::Initialized(persist_initialized)) => (
                self.at(Phase::OpeningPersist { persist_initialized }),
                Action::Open { backend: Backend::Persist, mode: self.mode },
            ),
            (Phase::OpeningPersist { .. }, Event::Opened) => match self.mode {
                OpenMode::Durable => (
                    self.at(Phase::PostPersistFence),
                    Action::FaultPoint(FaultPoint::PostPersistFence),
                ),
                OpenMode::Savepoint => (self.at(Phase::ReadingTombstone), Action::ReadTombstone),
            },
            (Phase::PostPersistFence, Event::Done) => (
                self.at(Phase::ReadingTombstone),
                Action::ReadTombstone,
            ),
            (Phase::ReadingTombstone, Event::Tombstone(tombstone)) => {
                if self.settled(tombstone) {
                    self.finishing()
                } else {
                    (
                        self.at(Phase::ReadingSource),
                        Action::ReadSnapshot(other(target_of(self.direction))),
                    )
                }
            },
            (Phase::ReadingSource, Event::Snapshot { snapshot, audit_log, storage_usage }) => (
                self.at(Phase::BeginningMigration { snapshot, audit_log, storage_usage }),
                Action::BeginMigration(target_of(self.direction)),
            ),
            (
                Phase::BeginningMigration { snapshot, audit_log, storage_usage },
                Event::MigrationBegun { audit_log: dest_audit_log, storage_usage: dest_storage_usage },
            ) => (
                self.at(Phase::SettingCatalog),
                Action::SetCatalog {
                    destination: target_of(self.direction),
                    snapshot,
                    dest_audit_log,
                    dest_storage_usage,
                    src_audit_log: audit_log,
                    src_storage_usage: storage_usage,
                },
            ),
            (Phase::SettingCatalog, Event::Done) => match self.direction {
                Direction::MigrateToPersist => (
                    self.at(Phase::CommittingContent),
                    Action::Commit(Backend::Persist),
                ),
                Direction::RollbackToStash => (
                    self.at(Phase::SettingTombstone),
                    Action::SetTombstone(false),
                ),
            },
            (Phase::CommittingContent, Event::Done) => (
                self.at(Phase::PostWrite),
                Action::FaultPoint(FaultPoint::MigratePostWrite),
            ),
            (Phase::PostWrite, Event::Done) => (
                self.at(Phase::BeginningFlip),
                Action::BeginTransaction(Backend::Stash),
            ),
            (Phase::BeginningFlip, Event::Done) => (
                self.at(Phase::SettingTombstone),
                Action::SetTombstone(true),
            ),
            (Phase::SettingTombstone, Event::Done) => (
                self.at(Phase::CommittingStash),
                Action::Commit(Backend::Stash),
            ),
            (Phase::CommittingStash, Event::Done) => self.finishing(),
            _ => self.rejecting(),
        }
    }
}

/// The other backend.
pub fn other_backend(backend: Backend) -> (b: Backend)
    ensures
        b == other(backend),
{
    match backend {
        Backend::Stash => Backend::Persist,
        Backend::Persist => Backend::Stash,
    }
}

impl<S, A, U> OpenProtocol<S, A, U> {
    /// Starts an attempt: the first action is to fence the stash.
    pub fn begin(mode: OpenMode, direction: Direction) -> (r: (Self, Action<S, A, U>))
        ensures
            r == Self::start(mode, direction),
    {
        (
            OpenProtocol { mode, direction, phase: Phase::OpeningStash },
            Action::Open { backend: Backend::Stash, mode },
        )
    }

    /// Whether the attempt is over.
    pub fn is_over(&self) -> (r: bool)
        ensures
            r == self.phase.terminal(),
    {
        match &self.phase {
            Phase::Finished => true,
            Phase::Failed => true,
            _ => false,
        }
    }

    fn fail(self, error: CatalogError) -> (r: (Self, Action<S, A, U>))
        ensures
            r == self.failing(error),
    {
        (
            OpenProtocol { mode: self.mode, direction: self.direction, phase: Phase::Failed },
            Action::Fail(error),
        )
    }

    fn reject(self) -> (r: (Self, Action<S, A, U>))
        ensures
            r == self.rejecting(),
    {
        (
            OpenProtocol { mode: self.mode, direction: self.direction, phase: Phase::Failed },
            Action::Reject,
        )
    }

    fn finish(self) -> (r: (Self, Action<S, A, U>))
        ensures
            r == self.finishing(),
    {
        let authoritative = self.direction.target();
        (
            OpenProtocol { mode: self.mode, direction: self.direction, phase: Phase::Finished },
            Action::Finish { authoritative, release: Some(other_backend(authoritative)) },
        )
    }

    fn goto(self, phase: Phase<S, A, U>, action: Action<S, A, U>) -> (r: (Self, Action<S, A, U>))
        ensures
            r == (self.at(phase), action),
    {
        (OpenProtocol { mode: self.mode, direction: self.direction, phase }, action)
    }

    /// The steps of a savepoint open up to the point where both backends are
    /// open: fence the stash, ask whether persist was initialized, fence
    /// persist. A failure to open persist is tolerated, and the stash alone
    /// is handed back, when [`OpenProtocol::tolerates`] says so.
    fn open_savepoint(self, event: Event<S, A, U>) -> (r: (Self, Action<S, A, U>))
        requires
            self.mode == OpenMode::Savepoint,
            self.phase is OpeningStash || self.phase is CheckingPersist
                || self.phase is OpeningPersist,
        ensures
            r == self.next(event),
    {
        let direction = self.direction;
        match (self.phase, event) {
            (Phase::OpeningPersist { persist_initialized }, Event::Failed(error)) => {
                let this = OpenProtocol {
                    mode: OpenMode::Savepoint,
                    direction,
                    phase: Phase::OpeningPersist { persist_initialized },
                };
                if error.can_recover_with_write_mode() && !persist_initialized && direction
                    == Direction::RollbackToStash {
                    this.goto(
                        Phase::Finished,
                        Action::Finish { authoritative: Backend::Stash, release: None },
                    )
                } else {
                    this.fail(error)
                }
            },
            (phase, Event::Failed(error)) => {
                (OpenProtocol { mode: OpenMode::Savepoint, direction, phase }).fail(error)
            },
            (Phase::OpeningStash, Event::Opened) => {
                (OpenProtocol { mode: OpenMode::Savepoint, direction, phase: Phase::OpeningStash }).goto(
                    Phase::CheckingPersist,
                    Action::CheckPersistInitialized,
                )
            },
            (Phase::CheckingPersist, Event::Initialized(persist_initialized)) => {
                (OpenProtocol {
                    mode: OpenMode::Savepoint,
                    direction,
                    phase: Phase::CheckingPersist,
                }).goto(
                    Phase::OpeningPersist { persist_initialized },
                    Action::Open { backend: Backend::Persist, mode: OpenMode::Savepoint },
                )
            },
            (Phase::OpeningPersist { persist_initialized }, Event::Opened) => {
                (OpenProtocol {
                    mode: OpenMode::Savepoint,
                    direction,
                    phase: Phase::OpeningPersist { persist_initialized },
                }).goto(Phase::ReadingTombstone, Action::ReadTombstone)
            },
            (phase, _) => (OpenProtocol { mode: OpenMode::Savepoint, direction, phase }).reject(),
        }
    }

    /// The steps of a durable open up to the point where both backends are
    /// open: fence the stash, then persist, with a fault point after each.
    /// Every failure ends the attempt.
    fn open(self, event: Event<S, A, U>) -> (r: (Self, Action<S, A, U>))
        requires
            self.mode == OpenMode::Durable,
            self.phase is OpeningStash || self.phase is PostStashFence
                || self.phase is OpeningPersist || self.phase is PostPersistFence,
        ensures
            r == self.next(event),
    {
        let direction = self.direction;
        match (self.phase, event) {
            (phase, Event::Failed(error)) => {
                (OpenProtocol { mode: OpenMode::Durable, direction, phase }).fail(error)
            },
            (Phase::OpeningStash, Event::Opened) => {
                (OpenProtocol { mode: OpenMode::Durable, direction, phase: Phase::OpeningStash }).goto(
                    Phase::PostStashFence,
                    Action::FaultPoint(FaultPoint::PostStashFence),
                )
            },
            (Phase::PostStashFence, Event::Done) => {
                (OpenProtocol { mode: OpenMode::Durable, direction, phase: Phase::PostStashFence }).goto(
                    Phase::OpeningPersist { persist_initialized: false },
                    Action::Open { backend: Backend::Persist, mode: OpenMode::Durable },
                )
            },
            (Phase::OpeningPersist { persist_initialized }, Event::Opened) => {
                (OpenProtocol {
                    mode: OpenMode::Durable,
                    direction,
                    phase: Phase::OpeningPersist { persist_initialized },
                }).goto(Phase::PostPersistFence, Action::FaultPoint(FaultPoint::PostPersistFence))
            },
            (Phase::PostPersistFence, Event::Done) => {
                (OpenProtocol {
                    mode: OpenMode::Durable,
                    direction,
                    phase: Phase::PostPersistFence,
                }).goto(Phase::ReadingTombstone, Action::ReadTombstone)
            },
            (phase, _) => (OpenProtocol { mode: OpenMode::Durable, direction, phase }).reject(),
        }
    }

    /// The steps that follow once both backends are open: the migration that
    /// the direction asks for.
    fn open_inner(self, event: Event<S, A, U>) -> (r: (Self, Action<S, A, U>))
        requires
            self.phase.rank() >= 4,
            !self.phase.terminal(),
        ensures
            r == self.next(event),
    {
        match self.direction {
            Direction::MigrateToPersist => self.migrate_from_stash_to_persist(event),
            Direction::RollbackToStash => self.rollback_from_persist_to_stash(event),
        }
    }

    /// The forward migration. A set tombstone means there is nothing to do.
    /// Otherwise the stash's catalog is read, written to persist in a
    /// migration transaction and committed there; only then, after a fault
    /// point, is the tombstone set in a stash transaction of its own.
    fn migrate_from_stash_to_persist(self, event: Event<S, A, U>) -> (r: (
        Self,
        Action<S, A, U>,
    ))
        requires
            self.direction == Direction::MigrateToPersist,
            self.phase.rank() >= 4,
            !self.phase.terminal(),
        ensures
            r == self.next(event),
    {
        let mode = self.mode;
        let direction = Direction::MigrateToPersist;
        match (self.phase, event) {
            (phase, Event::Failed(error)) => (OpenProtocol { mode, direction, phase }).fail(error),
            (Phase::ReadingTombstone, Event::Tombstone(tombstone)) => {
                let this = OpenProtocol { mode, direction, phase: Phase::ReadingTombstone };
                match tombstone {
                    Some(true) => this.finish(),
                    _ => this.goto(Phase::ReadingSource, Action::ReadSnapshot(Backend::Stash)),
                }
            },
            (Phase::ReadingSource, Event::Snapshot { snapshot, audit_log, storage_usage }) => {
                (OpenProtocol { mode, direction, phase: Phase::ReadingSource }).goto(
                    Phase::BeginningMigration { snapshot, audit_log, storage_usage },
                    Action::BeginMigration(Backend::Persist),
                )
            },
            (
                Phase::BeginningMigration { snapshot, audit_log, storage_usage },
                Event::MigrationBegun {
                    audit_log: persist_audit_log,
                    storage_usage: persist_storage_usage,
                },
            ) => {
                (OpenProtocol { mode, direction, phase: Phase::SettingCatalog }).goto(
                    Phase::SettingCatalog,
                    Action::SetCatalog {
                        destination: Backend::Persist,
                        snapshot,
                        dest_audit_log: persist_audit_log,
                        dest_storage_usage: persist_storage_usage,
                        src_audit_log: audit_log,
                        src_storage_usage: storage_usage,
                    },
                )
            },
            (Phase::SettingCatalog, Event::Done) => {
                (OpenProtocol { mode, direction, phase: Phase::SettingCatalog }).goto(
                    Phase::CommittingContent,
                    Action::Commit(Backend::Persist),
                )
            },
            (Phase::CommittingContent, Event::Done) => {
                (OpenProtocol { mode, direction, phase: Phase::CommittingContent }).goto(
                    Phase::PostWrite,
                    Action::FaultPoint(FaultPoint::MigratePostWrite),
                )
            },
            (Phase::PostWrite, Event::Done) => {
                (OpenProtocol { mode, direction, phase: Phase::PostWrite }).goto(
                    Phase::BeginningFlip,
                    Action::BeginTransaction(Backend::Stash),
                )
            },
            (Phase::BeginningFlip, Event::Done) => {
                (OpenProtocol { mode, direction, phase: Phase::BeginningFlip }).goto(
                    Phase::SettingTombstone,
                    Action::SetTombstone(true),
                )
            },
            (Phase::SettingTombstone, Event::Done) => {
                (OpenProtocol { mode, direction, phase: Phase::SettingTombstone }).goto(
                    Phase::CommittingStash,
                    Action::Commit(Backend::Stash),
                )
            },
            (Phase::CommittingStash, Event::Done) => {
                (OpenProtocol { mode, direction, phase: Phase::CommittingStash }).finish()
            },
            (phase, _) => (OpenProtocol { mode, direction, phase }).reject(),
        }
    }

    /// The rollback. A tombstone that is unset or was never written means
    /// there is nothing to do. Otherwise persist's catalog is read and
    /// written to the stash, and the tombstone is cleared in that same
    /// transaction, which is committed once.
    fn rollback_from_persist_to_stash(self, event: Event<S, A, U>) -> (r: (
        Self,
        Action<S, A, U>,
    ))
        requires
            self.direction == Direction::RollbackToStash,
            self.phase.rank() >= 4,
            !self.phase.terminal(),
        ensures
            r == self.next(event),
    {
        let mode = self.mode;
        let direction = Direction::RollbackToStash;
        match (self.phase, event) {
            (phase, Event::Failed(error)) => (OpenProtocol { mode, direction, phase }).fail(error),
            (Phase::ReadingTombstone, Event::Tombstone(tombstone)) => {
                let this = OpenProtocol { mode, direction, phase: Phase::ReadingTombstone };
                match tombstone {
                    None | Some(false) => this.finish(),
                    Some(true) => this.goto(
                        Phase::ReadingSource,
                        Action::ReadSnapshot(Backend::Persist),
                    ),
                }
            },
            (Phase::ReadingSource, Event::Snapshot { snapshot, audit_log, storage_usage }) => {
                (OpenProtocol { mode, direction, phase: Phase::ReadingSource }).goto(
                    Phase::BeginningMigration { snapshot, audit_log, storage_usage },
                    Action::BeginMigration(Backend::Stash),
                )
            },
            (
                Phase::BeginningMigration { snapshot, audit_log, storage_usage },
                Event::MigrationBegun {
                    audit_log: stash_audit_log,
                    storage_usage: stash_storage_usage,
                },
            ) => {
                (OpenProtocol { mode, direction, phase: Phase::SettingCatalog }).goto(
                    Phase::SettingCatalog,
                    Action::SetCatalog {
                        destination: Backend::Stash,
                        snapshot,
                        dest_audit_log: stash_audit_log,
                        dest_storage_usage: stash_storage_usage,
                        src_audit_log: audit_log,
                        src_storage_usage: storage_usage,
                    },
                )
            },
            (Phase::SettingCatalog, Event::Done) => {
                (OpenProtocol { mode, direction, phase: Phase::SettingCatalog }).goto(
                    Phase::SettingTombstone,
                    Action::SetTombstone(false),
                )
            },
            (Phase::SettingTombstone, Event::Done) => {
                (OpenProtocol { mode, direction, phase: Phase::SettingTombstone }).goto(
                    Phase::CommittingStash,
                    Action::Commit(Backend::Stash),
                )
            },
            (Phase::CommittingStash, Event::Done) => {
                (OpenProtocol { mode, direction, phase: Phase::CommittingStash }).finish()
            },
            (phase, _) => (OpenProtocol { mode, direction, phase }).reject(),
        }
    }

    /// The step of a machine whose phase does not belong to its mode or
    /// direction: a failure is passed on, anything else is rejected.
    fn stray(self, event: Event<S, A, U>) -> (r: (Self, Action<S, A, U>))
        requires
            !self.coherent(),
        ensures
            r == self.next(event),
    {
        match event {
            Event::Failed(error) => self.fail(error),
            _ => self.reject(),
        }
    }

    /// Takes the driver's report and says what to do next.
    pub fn advance(self, event: Event<S, A, U>) -> (r: (Self, Action<S, A, U>))
        ensures
            r == self.next(event),
    {
        match &self.phase {
            Phase::Finished | Phase::Failed => (self, Action::Reject),
            Phase::OpeningStash | Phase::OpeningPersist { .. } => match self.mode {
                OpenMode::Savepoint => self.open_savepoint(event),
                OpenMode::Durable => self.open(event),
            },
            Phase::PostStashFence | Phase::PostPersistFence => match self.mode {
                OpenMode::Durable => self.open(event),
                OpenMode::Savepoint => self.stray(event),
            },
            Phase::CheckingPersist => match self.mode {
                OpenMode::Savepoint => self.open_savepoint(event),
                OpenMode::Durable => self.stray(event),
            },
            Phase::CommittingContent | Phase::PostWrite | Phase::BeginningFlip => match self.direction {
                Direction::MigrateToPersist => self.open_inner(event),
                Direction::RollbackToStash => self.stray(event),
            },
            _ => self.open_inner(event),
        }
    }
}

/// Every step of a running machine moves it to a phase of higher rank and
/// never changes its mode or direction; a machine that has stopped stays as
/// it is. The action is terminal exactly when the new phase is.
pub proof fn step_advances<S, A, U>(machine: OpenProtocol<S, A, U>, event: Event<S, A, U>)
    ensures
        machine.next(event).0.mode == machine.mode,
        machine.next(event).0.direction == machine.direction,
        !machine.phase.terminal() ==> machine.next(event).0.phase.rank() > machine.phase.rank(),
        machine.phase.terminal() ==> machine.next(event) == (machine, Action::<S, A, U>::Reject),
        machine.next(event).1.terminal() <==> machine.next(event).0.phase.terminal(),
        machine.coherent() ==> machine.next(event).0.coherent(),
{
}

/// The stash is fenced before persist: an order to open persist is only
/// ever the answer to a machine that has seen the stash opened.
pub proof fn persist_is_fenced_after_stash<S, A, U>(
    machine: OpenProtocol<S, A, U>,
    event: Event<S, A, U>,
)
    ensures
        machine.next(event).1 matches Action::Open { backend: Backend::Persist, .. }
            ==> machine.phase is PostStashFence || machine.phase is CheckingPersist,
        machine.next(event).0.phase is PostStashFence || machine.next(event).0.phase
            is CheckingPersist ==> machine.phase is OpeningStash && event is Opened,
{
}

/// Nothing is written before the tombstone has been read and found to
/// disagree with the direction: a write is never the answer to a machine
/// that has not got past the tombstone, and a tombstone that agrees with
/// the direction ends the attempt at once.
pub proof fn settled_tombstone_ends_without_writes<S, A, U>(
    machine: OpenProtocol<S, A, U>,
    event: Event<S, A, U>,
    tombstone: Option<bool>,
)
    ensures
        machine.next(event).1.writes() ==> machine.phase.rank() >= 6,
        machine.phase is ReadingTombstone && machine.settled(tombstone) ==> machine.next(
            Event::Tombstone(tombstone),
        ) == machine.finishing(),
        machine.phase is ReadingTombstone && machine.direction == Direction::RollbackToStash && (
        tombstone == None::<bool> || tombstone == Some(false)) ==> machine.next(
            Event::Tombstone(tombstone),
        ).1 == (Action::<S, A, U>::Finish {
            authoritative: Backend::Stash,
            release: Some(Backend::Persist),
        }),
{
}

/// In a forward migration the tombstone is flipped only after the catalog
/// was committed to persist: the order to set it answers the start of the
/// stash transaction, which follows the fault point, which follows the
/// successful commit of the content.
pub proof fn tombstone_flips_after_content_commit<S, A, U>(
    machine: OpenProtocol<S, A, U>,
    event: Event<S, A, U>,
)
    ensures
        machine.next(event).1 == Action::<S, A, U>::SetTombstone(true) ==> machine.phase
            is BeginningFlip && machine.direction == Direction::MigrateToPersist,
        machine.next(event).0.phase is BeginningFlip ==> machine.phase is PostWrite && event
            is Done,
        machine.next(event).0.phase is PostWrite ==> machine.phase is CommittingContent && event
            is Done,
        machine.next(event).1 == Action::<S, A, U>::Commit(Backend::Persist) ==> machine.phase
            is SettingCatalog && machine.direction == Direction::MigrateToPersist,
{
}

/// In a rollback the tombstone is cleared in the transaction that installs
/// the catalog, and that transaction is committed once.
pub proof fn rollback_clears_tombstone_with_content<S, A, U>(
    machine: OpenProtocol<S, A, U>,
    event: Event<S, A, U>,
)
    ensures
        machine.next(event).1 == Action::<S, A, U>::SetTombstone(false) ==> machine.phase
            is SettingCatalog && machine.direction == Direction::RollbackToStash && event
            is Done,
        machine.direction == Direction::RollbackToStash && machine.next(event).1 is Commit
            ==> machine.phase is SettingTombstone && machine.next(event).1 == Action::<
            S,
            A,
            U,
        >::Commit(Backend::Stash),
{
}

} // verus!
