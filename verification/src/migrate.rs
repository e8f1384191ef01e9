//! The migrator: the configured direction, and the open protocol run against
//! two in-memory stores.
use vstd::prelude::*;
use crate::direction::{
    authority, authority_of, direction_for, target_of, Backend, CatalogKind, Direction,
};
use crate::error::CatalogError;
use crate::fence::FenceToken;
use crate::protocol::{other, step_advances, Action, Event, FaultPoint, OpenProtocol, Phase};
use crate::record::Record;
use crate::store::{
    visible, CatalogStore, ContentView, OpenMode, Session, SessionView, Snapshot, StoreView,
    Transaction,
};

verus! {

/// Which fault points are armed. An armed point interrupts the attempt that
/// reaches it, as a crash would: nothing further is written and no lease is
/// given back.
#[derive(Clone, Copy, Debug, PartialEq, Eq, Structural)]
pub struct FaultPlan {
    pub post_stash_fence: bool,
    pub post_persist_fence: bool,
    pub migrate_post_write: bool,
}

impl FaultPlan {
    /// Whether `point` is armed.
    pub open spec fn armed(self, point: FaultPoint) -> bool {
        match point {
            FaultPoint::PostStashFence => self.post_stash_fence,
            FaultPoint::PostPersistFence => self.post_persist_fence,
            FaultPoint::MigratePostWrite => self.migrate_post_write,
        }
    }

    /// The plan of a production run: no point is armed.
    pub fn none() -> (plan: FaultPlan)
        ensures
            forall|point: FaultPoint| !plan.armed(point),
    {
        FaultPlan { post_stash_fence: false, post_persist_fence: false, migrate_post_write: false }
    }

    /// The plan that arms `point` alone.
    pub fn at(point: FaultPoint) -> (plan: FaultPlan)
        ensures
            forall|other: FaultPoint| plan.armed(other) == (other == point),
    {
        match point {
            FaultPoint::PostStashFence => FaultPlan {
                post_stash_fence: true,
                post_persist_fence: false,
                migrate_post_write: false,
            },
            FaultPoint::PostPersistFence => FaultPlan {
                post_stash_fence: false,
                post_persist_fence: true,
                migrate_post_write: false,
            },
            FaultPoint::MigratePostWrite => FaultPlan {
                post_stash_fence: false,
                post_persist_fence: false,
                migrate_post_write: true,
            },
        }
    }

    /// Whether `point` is armed.
    pub fn is_armed(&self, point: FaultPoint) -> (r: bool)
        ensures
            r == self.armed(point),
    {
        match point {
            FaultPoint::PostStashFence => self.post_stash_fence,
            FaultPoint::PostPersistFence => self.post_persist_fence,
            FaultPoint::MigratePostWrite => self.migrate_post_write,
        }
    }
}

/// The catalog as handed to the caller of a successful open: the backend
/// that is authoritative and the session on it.
#[derive(Debug)]
pub struct OpenedCatalog {
    pub backend: Backend,
    pub session: Session,
}

/// Why an open did not hand back a catalog.
#[derive(Clone, Copy, Debug, PartialEq, Eq, Structural)]
pub enum OpenFailure {
    /// A backend reported an error.
    Catalog(CatalogError),
    /// An armed fault point was reached.
    Interrupted(FaultPoint),
}

/// How an attempt ended.
pub enum End {
    Opened { backend: Backend, session: SessionView },
    Failed(CatalogError),
    Interrupted(FaultPoint),
}

/// The two stores after an attempt, and how it ended.
pub struct Run {
    pub stash: StoreView,
    pub persist: StoreView,
    pub end: End,
}

/// The mathematical value of the result of an open.
pub open spec fn end_of(result: Result<OpenedCatalog, OpenFailure>) -> End {
    match result {
        Ok(opened) => End::Opened { backend: opened.backend, session: opened.session@ },
        Err(OpenFailure::Catalog(error)) => End::Failed(error),
        Err(OpenFailure::Interrupted(point)) => End::Interrupted(point),
    }
}

/// The contents of the stash and of persist after a completed migration in
/// the given direction. When the tombstone already agrees with the
/// direction, nothing changes. A forward migration merges the stash's
/// catalog into persist and sets the tombstone; a rollback merges persist's
/// catalog into the stash and clears the tombstone.
pub open spec fn migrated(direction: Direction, stash: ContentView, persist: ContentView) -> (
    ContentView,
    ContentView,
) {
    match direction {
        Direction::MigrateToPersist => if stash.tombstone == Some(true) {
            (stash, persist)
        } else {
            (stash.with_tombstone(true), persist.receive(stash))
        },
        Direction::RollbackToStash => if stash.tombstone != Some(true) {
            (stash, persist)
        } else {
            (stash.receive(persist).with_tombstone(false), persist)
        },
    }
}

/// The parameters of one attempt to open the catalog.
pub struct Attempt {
    pub mode: OpenMode,
    pub direction: Direction,
    pub token: FenceToken,
    pub faults: FaultPlan,
}

impl Attempt {
    /// The session of this attempt on a backend whose content, as the
    /// session sees it, is `content`.
    pub open spec fn session(self, content: ContentView) -> SessionView {
        SessionView {
            token: self.token,
            overlay: if self.mode == OpenMode::Savepoint {
                Some(content)
            } else {
                None
            },
        }
    }

    /// The store `base` once this attempt has committed `content` to it: a
    /// durable attempt changes the store, a savepoint leaves it alone.
    pub open spec fn committed(self, base: StoreView, content: ContentView) -> StoreView {
        if self.mode == OpenMode::Durable {
            base.with_content(content)
        } else {
            base
        }
    }

    /// Whether a failure to open persist lets the attempt succeed on the
    /// stash alone.
    pub open spec fn tolerates(self, error: CatalogError, persist_initialized: bool) -> bool {
        &&& self.mode == OpenMode::Savepoint
        &&& error.recoverable_with_write_mode()
        &&& !persist_initialized
        &&& self.direction == Direction::RollbackToStash
    }

    /// No fault point of the open itself interrupts the attempt.
    pub open spec fn opens_undisturbed(self) -> bool {
        self.mode == OpenMode::Durable ==> !self.faults.armed(FaultPoint::PostStashFence)
            && !self.faults.armed(FaultPoint::PostPersistFence)
    }

    /// Whether the attempt is interrupted between the commit of the catalog
    /// to persist and the tombstone flip.
    pub open spec fn stops_after_write(self, stash: ContentView) -> bool {
        &&& self.direction == Direction::MigrateToPersist
        &&& stash.tombstone != Some(true)
        &&& self.faults.armed(FaultPoint::MigratePostWrite)
    }

    /// What the attempt does to the two stores, and how it ends.
    ///
    /// The stash is fenced first, then persist. A store that refuses the
    /// token ends the attempt with its error, and a lease already taken is
    /// given back. A savepoint attempt that is rolling back tolerates a
    /// persist that was never initialized and ends on the stash alone. Once
    /// both stores are open the migration runs; the winner's session is
    /// handed out and the loser's lease given back. An armed fault point
    /// ends the attempt where it stands.
    pub open spec fn run(self, stash: StoreView, persist: StoreView) -> Run {
        let durable = self.mode == OpenMode::Durable;
        if stash.open_error(self.mode, self.token) is Some {
            Run { stash, persist, end: End::Failed(stash.open_error(self.mode, self.token)->0) }
        } else {
            let stash_open = stash.opened(self.mode, self.token);
            if durable && self.faults.armed(FaultPoint::PostStashFence) {
                Run {
                    stash: stash_open,
                    persist,
                    end: End::Interrupted(FaultPoint::PostStashFence),
                }
            } else if persist.open_error(self.mode, self.token) is Some {
                let error = persist.open_error(self.mode, self.token)->0;
                if self.tolerates(error, persist.initialized) {
                    Run {
                        stash: stash_open,
                        persist,
                        end: End::Opened {
                            backend: Backend::Stash,
                            session: self.session(stash.content),
                        },
                    }
                } else {
                    Run {
                        stash: stash_open.released(self.token),
                        persist,
                        end: End::Failed(error),
                    }
                }
            } else {
                let persist_open = persist.opened(self.mode, self.token);
                let after = migrated(self.direction, stash.content, persist.content);
                if durable && self.faults.armed(FaultPoint::PostPersistFence) {
                    Run {
                        stash: stash_open,
                        persist: persist_open,
                        end: End::Interrupted(FaultPoint::PostPersistFence),
                    }
                } else if self.stops_after_write(stash.content) {
                    Run {
                        stash: stash_open,
                        persist: self.committed(persist_open, after.1),
                        end: End::Interrupted(FaultPoint::MigratePostWrite),
                    }
                } else {
                    match self.direction {
                        Direction::MigrateToPersist => Run {
                            stash: self.committed(stash_open, after.0).released(self.token),
                            persist: self.committed(persist_open, after.1),
                            end: End::Opened {
                                backend: Backend::Persist,
                                session: self.session(after.1),
                            },
                        },
                        Direction::RollbackToStash => Run {
                            stash: self.committed(stash_open, after.0),
                            persist: self.committed(persist_open, after.1).released(self.token),
                            end: End::Opened {
                                backend: Backend::Stash,
                                session: self.session(after.0),
                            },
                        },
                    }
                }
            }
        }
    }
}

/// Moves the authoritative catalog between the stash and persist.
#[derive(Debug)]
pub struct CatalogMigrator {
    direction: Direction,
}

impl CatalogMigrator {
    /// The configured direction.
    pub closed spec fn spec_direction(&self) -> Direction {
        self.direction
    }

    /// A migrator for the given direction.
    pub fn new(direction: Direction) -> (migrator: CatalogMigrator)
        ensures
            migrator.spec_direction() == direction,
    {
        CatalogMigrator { direction }
    }

    /// The configured direction.
    pub fn direction(&self) -> (d: Direction)
        ensures
            d == self.spec_direction(),
    {
        self.direction
    }

    /// Reconfigures the direction for the next open. `Stash` and `Persist`
    /// set it; the transitional kinds leave it as it is.
    pub fn set_catalog_kind(&mut self, catalog_kind: CatalogKind)
        ensures
            final(self).spec_direction() == match direction_for(catalog_kind) {
                Ok(direction) => direction,
                Err(_) => old(self).spec_direction(),
            },
    {
        let direction = match Direction::try_from(catalog_kind) {
            Ok(direction) => direction,
            Err(_) => {
                return ;
            },
        };
        self.direction = direction;
    }

    /// Opens the catalog durably: fences the stash, then persist, runs the
    /// migration the direction asks for, and hands back the authoritative
    /// backend. The opener's token is made of `boot_ts` and
    /// `deploy_generation`.
    pub fn open(
        self,
        stash: &mut CatalogStore,
        persist: &mut CatalogStore,
        boot_ts: u64,
        deploy_generation: Option<u64>,
        faults: &FaultPlan,
    ) -> (result: Result<OpenedCatalog, OpenFailure>)
        ensures
            ({
                let run = (Attempt {
                    mode: OpenMode::Durable,
                    direction: self.spec_direction(),
                    token: FenceToken { boot_ts, deploy_generation },
                    faults: *faults,
                }).run(old(stash)@, old(persist)@);
                &&& final(stash)@ == run.stash
                &&& final(persist)@ == run.persist
                &&& end_of(result) == run.end
            }),
    {
        drive(
            OpenMode::Durable,
            self.direction,
            FenceToken::new(boot_ts, deploy_generation),
            faults,
            stash,
            persist,
        )
    }

    /// Opens the catalog as a savepoint: the same protocol as
    /// [`CatalogMigrator::open`], but nothing it writes reaches the stores,
    /// and when the catalog is meant to stay in the stash a persist that was
    /// never initialized is tolerated.
    pub fn open_savepoint(
        self,
        stash: &mut CatalogStore,
        persist: &mut CatalogStore,
        boot_ts: u64,
        deploy_generation: Option<u64>,
        faults: &FaultPlan,
    ) -> (result: Result<OpenedCatalog, OpenFailure>)
        ensures
            ({
                let run = (Attempt {
                    mode: OpenMode::Savepoint,
                    direction: self.spec_direction(),
                    token: FenceToken { boot_ts, deploy_generation },
                    faults: *faults,
                }).run(old(stash)@, old(persist)@);
                &&& final(stash)@ == run.stash
                &&& final(persist)@ == run.persist
                &&& end_of(result) == run.end
            }),
    {
        drive(
            OpenMode::Savepoint,
            self.direction,
            FenceToken::new(boot_ts, deploy_generation),
            faults,
            stash,
            persist,
        )
    }

    /// The tombstone, which only the stash bears.
    pub fn get_tombstone(&self, stash: &CatalogStore) -> (r: Option<bool>)
        ensures
            r == stash@.content.tombstone,
    {
        stash.get_tombstone()
    }

    /// Whether the authoritative backend was initialized.
    pub fn is_initialized(&self, stash: &CatalogStore, persist: &CatalogStore) -> (r: bool)
        ensures
            r == match authority_of(stash@.content.tombstone) {
                Backend::Persist => persist@.initialized,
                Backend::Stash => stash@.initialized,
            },
    {
        match authority(self.get_tombstone(stash)) {
            Backend::Persist => persist.is_initialized(),
            Backend::Stash => stash.is_initialized(),
        }
    }

    /// The deployment generation recorded in the authoritative backend.
    pub fn get_deployment_generation(&self, stash: &CatalogStore, persist: &CatalogStore) -> (r:
        Option<u64>)
        ensures
            r == match authority_of(stash@.content.tombstone) {
                Backend::Persist => persist@.deploy_generation,
                Backend::Stash => stash@.deploy_generation,
            },
    {
        match authority(self.get_tombstone(stash)) {
            Backend::Persist => persist.get_deployment_generation(),
            Backend::Stash => stash.get_deployment_generation(),
        }
    }

    /// The catalog kind configured in the authoritative backend.
    pub fn get_catalog_kind_config(&self, stash: &CatalogStore, persist: &CatalogStore) -> (r:
        Option<CatalogKind>)
        ensures
            r == match authority_of(stash@.content.tombstone) {
                Backend::Persist => persist@.content.snapshot.catalog_kind,
                Backend::Stash => stash@.content.snapshot.catalog_kind,
            },
    {
        match authority(self.get_tombstone(stash)) {
            Backend::Persist => persist.get_catalog_kind_config(),
            Backend::Stash => stash.get_catalog_kind_config(),
        }
    }
}

/// The view of a session that may not be there.
spec fn session_view(session: Option<Session>) -> Option<SessionView> {
    match session {
        Some(session) => Some(session@),
        None => None,
    }
}

/// The view of a transaction that may not be there.
spec fn transaction_view(txn: Option<Transaction>) -> Option<ContentView> {
    match txn {
        Some(txn) => Some(txn@),
        None => None,
    }
}

/// What the driver holds while it runs the protocol.
struct Driver {
    stash_session: Option<Session>,
    persist_session: Option<Session>,
    txn: Option<Transaction>,
}

impl Attempt {
    /// The stash is open and persist has not been touched.
    spec fn stash_open(
        self,
        s0: StoreView,
        p0: StoreView,
        stash: StoreView,
        persist: StoreView,
        driver: Driver,
    ) -> bool {
        &&& s0.open_error(self.mode, self.token) is None
        &&& stash == s0.opened(self.mode, self.token)
        &&& persist == p0
        &&& session_view(driver.stash_session) == Some(self.session(s0.content))
        &&& driver.persist_session is None
        &&& driver.txn is None
    }

    /// Both stores are open, and the attempt has committed `in_stash` and
    /// `in_persist` to them.
    spec fn both_open(
        self,
        s0: StoreView,
        p0: StoreView,
        in_stash: ContentView,
        in_persist: ContentView,
        stash: StoreView,
        persist: StoreView,
        driver: Driver,
    ) -> bool {
        &&& s0.open_error(self.mode, self.token) is None
        &&& p0.open_error(self.mode, self.token) is None
        &&& stash == self.committed(s0.opened(self.mode, self.token), in_stash)
        &&& persist == self.committed(p0.opened(self.mode, self.token), in_persist)
        &&& session_view(driver.stash_session) == Some(self.session(in_stash))
        &&& session_view(driver.persist_session) == Some(self.session(in_persist))
    }

    /// The content of the backend the migration reads from.
    spec fn source(self, s0: StoreView, p0: StoreView) -> ContentView {
        match self.direction {
            Direction::MigrateToPersist => s0.content,
            Direction::RollbackToStash => p0.content,
        }
    }

    /// The content of the backend the migration writes to.
    spec fn destination(self, s0: StoreView, p0: StoreView) -> ContentView {
        match self.direction {
            Direction::MigrateToPersist => p0.content,
            Direction::RollbackToStash => s0.content,
        }
    }

    /// Whether the tombstone asks for a migration.
    spec fn unsettled(self, s0: StoreView) -> bool {
        match self.direction {
            Direction::MigrateToPersist => s0.content.tombstone != Some(true),
            Direction::RollbackToStash => s0.content.tombstone == Some(true),
        }
    }

    /// The relation between the machine, the pending action, the stores and
    /// what the driver holds, at every turn of the driver's loop. `s0` and
    /// `p0` are the stores as the attempt found them.
    spec fn on_track(
        self,
        s0: StoreView,
        p0: StoreView,
        machine: OpenProtocol<Snapshot, Vec<Record>, Vec<Record>>,
        action: Action<Snapshot, Vec<Record>, Vec<Record>>,
        stash: StoreView,
        persist: StoreView,
        driver: Driver,
    ) -> bool {
        let cs = s0.content;
        let cp = p0.content;
        let src = self.source(s0, p0);
        let dst = self.destination(s0, p0);
        let target = target_of(self.direction);
        let forward = self.direction == Direction::MigrateToPersist;
        let flip_allowed = !self.faults.armed(FaultPoint::MigratePostWrite);
        let migrating = self.opens_undisturbed() && self.unsettled(s0) && driver.txn is None;
        let writing = self.opens_undisturbed() && self.unsettled(s0);
        &&& machine.mode == self.mode
        &&& machine.direction == self.direction
        &&& match machine.phase {
            Phase::OpeningStash => {
                &&& action == Action::<Snapshot, Vec<Record>, Vec<Record>>::Open {
                    backend: Backend::Stash,
                    mode: self.mode,
                }
                &&& stash == s0
                &&& persist == p0
                &&& driver.stash_session is None
                &&& driver.persist_session is None
                &&& driver.txn is None
            },
            Phase::PostStashFence => {
                &&& self.mode == OpenMode::Durable
                &&& action == Action::<Snapshot, Vec<Record>, Vec<Record>>::FaultPoint(
                    FaultPoint::PostStashFence,
                )
                &&& self.stash_open(s0, p0, stash, persist, driver)
            },
            Phase::CheckingPersist => {
                &&& self.mode == OpenMode::Savepoint
                &&& action == Action::<Snapshot, Vec<Record>, Vec<Record>>::CheckPersistInitialized
                &&& self.stash_open(s0, p0, stash, persist, driver)
            },
            Phase::OpeningPersist { persist_initialized } => {
                &&& action == Action::<Snapshot, Vec<Record>, Vec<Record>>::Open {
                    backend: Backend::Persist,
                    mode: self.mode,
                }
                &&& self.stash_open(s0, p0, stash, persist, driver)
                &&& self.mode == OpenMode::Durable ==> !self.faults.armed(
                    FaultPoint::PostStashFence,
                )
                &&& self.mode == OpenMode::Savepoint ==> persist_initialized == p0.initialized
            },
            Phase::PostPersistFence => {
                &&& self.mode == OpenMode::Durable
                &&& action == Action::<Snapshot, Vec<Record>, Vec<Record>>::FaultPoint(
                    FaultPoint::PostPersistFence,
                )
                &&& !self.faults.armed(FaultPoint::PostStashFence)
                &&& self.both_open(s0, p0, cs, cp, stash, persist, driver)
                &&& driver.txn is None
            },
            Phase::ReadingTombstone => {
                &&& action == Action::<Snapshot, Vec<Record>, Vec<Record>>::ReadTombstone
                &&& self.opens_undisturbed()
                &&& self.both_open(s0, p0, cs, cp, stash, persist, driver)
                &&& driver.txn is None
            },
            Phase::ReadingSource => {
                &&& action == Action::<Snapshot, Vec<Record>, Vec<Record>>::ReadSnapshot(
                    other(target),
                )
                &&& migrating
                &&& self.both_open(s0, p0, cs, cp, stash, persist, driver)
            },
            Phase::BeginningMigration { snapshot, audit_log, storage_usage } => {
                &&& action == Action::<Snapshot, Vec<Record>, Vec<Record>>::BeginMigration(target)
                &&& migrating
                &&& self.both_open(s0, p0, cs, cp, stash, persist, driver)
                &&& snapshot@ == src.snapshot
                &&& audit_log.deep_view() == src.audit_log
                &&& storage_usage.deep_view() == src.storage_usage
            },
            Phase::SettingCatalog => {
                &&& writing
                &&& self.both_open(s0, p0, cs, cp, stash, persist, driver)
                &&& transaction_view(driver.txn) == Some(dst)
                &&& action matches Action::SetCatalog {
                    destination,
                    snapshot,
                    dest_audit_log,
                    dest_storage_usage,
                    src_audit_log,
                    src_storage_usage,
                }
                &&& destination == target
                &&& snapshot@ == src.snapshot
                &&& dest_audit_log.deep_view() == dst.audit_log
                &&& dest_storage_usage.deep_view() == dst.storage_usage
                &&& src_audit_log.deep_view() == src.audit_log
                &&& src_storage_usage.deep_view() == src.storage_usage
            },
            Phase::CommittingContent => {
                &&& forward
                &&& action == Action::<Snapshot, Vec<Record>, Vec<Record>>::Commit(
                    Backend::Persist,
                )
                &&& writing
                &&& self.both_open(s0, p0, cs, cp, stash, persist, driver)
                &&& transaction_view(driver.txn) == Some(cp.receive(cs))
            },
            Phase::PostWrite => {
                &&& forward
                &&& action == Action::<Snapshot, Vec<Record>, Vec<Record>>::FaultPoint(
                    FaultPoint::MigratePostWrite,
                )
                &&& migrating
                &&& self.both_open(s0, p0, cs, cp.receive(cs), stash, persist, driver)
            },
            Phase::BeginningFlip => {
                &&& forward
                &&& action == Action::<Snapshot, Vec<Record>, Vec<Record>>::BeginTransaction(
                    Backend::Stash,
                )
                &&& migrating
                &&& flip_allowed
                &&& self.both_open(s0, p0, cs, cp.receive(cs), stash, persist, driver)
            },
            Phase::SettingTombstone => {
                &&& writing
                &&& if forward {
                    &&& action == Action::<Snapshot, Vec<Record>, Vec<Record>>::SetTombstone(true)
                    &&& flip_allowed
                    &&& self.both_open(s0, p0, cs, cp.receive(cs), stash, persist, driver)
                    &&& transaction_view(driver.txn) == Some(cs)
                } else {
                    &&& action == Action::<Snapshot, Vec<Record>, Vec<Record>>::SetTombstone(false)
                    &&& self.both_open(s0, p0, cs, cp, stash, persist, driver)
                    &&& transaction_view(driver.txn) == Some(cs.receive(cp))
                }
            },
            Phase::CommittingStash => {
                &&& writing
                &&& action == Action::<Snapshot, Vec<Record>, Vec<Record>>::Commit(Backend::Stash)
                &&& if forward {
                    &&& flip_allowed
                    &&& self.both_open(s0, p0, cs, cp.receive(cs), stash, persist, driver)
                    &&& transaction_view(driver.txn) == Some(cs.with_tombstone(true))
                } else {
                    &&& self.both_open(s0, p0, cs, cp, stash, persist, driver)
                    &&& transaction_view(driver.txn) == Some(
                        cs.receive(cp).with_tombstone(false),
                    )
                }
            },
            Phase::Finished => {
                ||| {
                    &&& action == Action::<Snapshot, Vec<Record>, Vec<Record>>::Finish {
                        authoritative: Backend::Stash,
                        release: None,
                    }
                    &&& self.stash_open(s0, p0, stash, persist, driver)
                    &&& p0.open_error(self.mode, self.token) is Some
                    &&& self.tolerates(p0.open_error(self.mode, self.token)->0, p0.initialized)
                }
                ||| {
                    &&& action == Action::<Snapshot, Vec<Record>, Vec<Record>>::Finish {
                        authoritative: target,
                        release: Some(other(target)),
                    }
                    &&& self.opens_undisturbed()
                    &&& !self.stops_after_write(cs)
                    &&& self.both_open(
                        s0,
                        p0,
                        migrated(self.direction, cs, cp).0,
                        migrated(self.direction, cs, cp).1,
                        stash,
                        persist,
                        driver,
                    )
                }
            },
            Phase::Failed => {
                &&& action matches Action::Fail(error)
                &&& {
                    ||| {
                        &&& s0.open_error(self.mode, self.token) == Some(error)
                        &&& stash == s0
                        &&& persist == p0
                        &&& driver.stash_session is None
                        &&& driver.persist_session is None
                    }
                    ||| {
                        &&& self.stash_open(s0, p0, stash, persist, driver)
                        &&& self.mode == OpenMode::Durable ==> !self.faults.armed(
                            FaultPoint::PostStashFence,
                        )
                        &&& p0.open_error(self.mode, self.token) == Some(error)
                        &&& !self.tolerates(error, p0.initialized)
                    }
                }
            },
        }
    }
}

/// Runs the open protocol against two in-memory stores: performs each
/// action the machine asks for and reports the outcome back, until the
/// machine ends the attempt.
pub fn drive(
    mode: OpenMode,
    direction: Direction,
    token: FenceToken,
    faults: &FaultPlan,
    stash: &mut CatalogStore,
    persist: &mut CatalogStore,
) -> (result: Result<OpenedCatalog, OpenFailure>)
    ensures
        ({
            let run = (Attempt { mode, direction, token, faults: *faults }).run(
                old(stash)@,
                old(persist)@,
            );
            &&& final(stash)@ == run.stash
            &&& final(persist)@ == run.persist
            &&& end_of(result) == run.end
        }),
{
    let ghost at = Attempt { mode, direction, token, faults: *faults };
    let ghost s0 = stash@;
    let ghost p0 = persist@;
    let (mut machine, mut action) = OpenProtocol::<Snapshot, Vec<Record>, Vec<Record>>::begin(
        mode,
        direction,
    );
    let mut driver = Driver { stash_session: None, persist_session: None, txn: None };
    loop
        invariant
            at == (Attempt { mode, direction, token, faults: *faults }),
            s0 == old(stash)@,
            p0 == old(persist)@,
            at.on_track(s0, p0, machine, action, stash@, persist@, driver),
        decreases 13 - machine.phase.rank(),
    {
        let event: Event<Snapshot, Vec<Record>, Vec<Record>> = match action {
            Action::Finish { authoritative, release } => {
                return finish(
                    authoritative,
                    release,
                    stash,
                    persist,
                    driver,
                    Ghost(at),
                    Ghost(s0),
                    Ghost(p0),
                );
            },
            Action::Fail(error) => {
                return fail(error, stash, persist, driver, Ghost(at), Ghost(s0), Ghost(p0));
            },
            Action::Reject => {
                vstd::pervasive::unreached()
            },
            Action::Open { backend: Backend::Stash, mode } => match stash.open(mode, token) {
                Ok(session) => {
                    driver.stash_session = Some(session);
                    Event::Opened
                },
                Err(error) => Event::Failed(error),
            },
            Action::Open { backend: Backend::Persist, mode } => match persist.open(mode, token) {
                Ok(session) => {
                    driver.persist_session = Some(session);
                    Event::Opened
                },
                Err(error) => Event::Failed(error),
            },
            Action::CheckPersistInitialized => Event::Initialized(persist.is_initialized()),
            Action::FaultPoint(point) => {
                if faults.is_armed(point) {
                    return Err(OpenFailure::Interrupted(point));
                }
                Event::Done
            },
            Action::ReadTombstone => match &driver.stash_session {
                Some(session) => match stash.read_tombstone(session) {
                    Ok(tombstone) => Event::Tombstone(tombstone),
                    Err(error) => Event::Failed(error),
                },
                None => vstd::pervasive::unreached(),
            },
            Action::ReadSnapshot(backend) => {
                let read = match backend {
                    Backend::Stash => match &driver.stash_session {
                        Some(session) => stash.whole_migration_snapshot(session),
                        None => vstd::pervasive::unreached(),
                    },
                    Backend::Persist => match &driver.persist_session {
                        Some(session) => persist.whole_migration_snapshot(session),
                        None => vstd::pervasive::unreached(),
                    },
                };
                match read {
                    Ok((snapshot, audit_log, storage_usage)) => Event::Snapshot {
                        snapshot,
                        audit_log,
                        storage_usage,
                    },
                    Err(error) => Event::Failed(error),
                }
            },
            Action::BeginMigration(backend) => {
                let begun = match backend {
                    Backend::Stash => match &driver.stash_session {
                        Some(session) => stash.whole_migration_transaction(session),
                        None => vstd::pervasive::unreached(),
                    },
                    Backend::Persist => match &driver.persist_session {
                        Some(session) => persist.whole_migration_transaction(session),
                        None => vstd::pervasive::unreached(),
                    },
                };
                match begun {
                    Ok((txn, audit_log, storage_usage)) => {
                        driver.txn = Some(txn);
                        Event::MigrationBegun { audit_log, storage_usage }
                    },
                    Err(error) => Event::Failed(error),
                }
            },
            Action::SetCatalog {
                destination: _,
                snapshot,
                dest_audit_log,
                dest_storage_usage,
                src_audit_log,
                src_storage_usage,
            } => match &mut driver.txn {
                Some(txn) => {
                    txn.set_catalog(
                        snapshot,
                        dest_audit_log,
                        dest_storage_usage,
                        src_audit_log,
                        src_storage_usage,
                    );
                    Event::Done
                },
                None => vstd::pervasive::unreached(),
            },
            Action::BeginTransaction(backend) => {
                let begun = match backend {
                    Backend::Stash => match &driver.stash_session {
                        Some(session) => stash.transaction(session),
                        None => vstd::pervasive::unreached(),
                    },
                    Backend::Persist => match &driver.persist_session {
                        Some(session) => persist.transaction(session),
                        None => vstd::pervasive::unreached(),
                    },
                };
                match begun {
                    Ok(txn) => {
                        driver.txn = Some(txn);
                        Event::Done
                    },
                    Err(error) => Event::Failed(error),
                }
            },
            Action::SetTombstone(value) => match &mut driver.txn {
                Some(txn) => {
                    txn.set_tombstone(value);
                    Event::Done
                },
                None => vstd::pervasive::unreached(),
            },
            Action::Commit(backend) => {
                let txn = match driver.txn.take() {
                    Some(txn) => txn,
                    None => vstd::pervasive::unreached(),
                };
                let committed = match backend {
                    Backend::Stash => match &mut driver.stash_session {
                        Some(session) => stash.commit(session, txn),
                        None => vstd::pervasive::unreached(),
                    },
                    Backend::Persist => match &mut driver.persist_session {
                        Some(session) => persist.commit(session, txn),
                        None => vstd::pervasive::unreached(),
                    },
                };
                match committed {
                    Ok(()) => Event::Done,
                    Err(error) => Event::Failed(error),
                }
            },
        };
        proof {
            step_advances(machine, event);
        }
        let (next_machine, next_action) = machine.advance(event);
        machine = next_machine;
        action = next_action;
    }
}

/// Ends a successful attempt: gives back the lease of the backend that
/// lost, and hands out the session of the one that won.
fn finish(
    authoritative: Backend,
    release: Option<Backend>,
    stash: &mut CatalogStore,
    persist: &mut CatalogStore,
    driver: Driver,
    Ghost(at): Ghost<Attempt>,
    Ghost(s0): Ghost<StoreView>,
    Ghost(p0): Ghost<StoreView>,
) -> (result: Result<OpenedCatalog, OpenFailure>)
    requires
        exists|machine: OpenProtocol<Snapshot, Vec<Record>, Vec<Record>>|
            machine.phase is Finished && #[trigger] at.on_track(
                s0,
                p0,
                machine,
                Action::Finish { authoritative, release },
                old(stash)@,
                old(persist)@,
                driver,
            ),
    ensures
        final(stash)@ == at.run(s0, p0).stash,
        final(persist)@ == at.run(s0, p0).persist,
        end_of(result) == at.run(s0, p0).end,
{
    let Driver { stash_session, persist_session, txn: _ } = driver;
    match authoritative {
        Backend::Stash => {
            match (release, persist_session) {
                (Some(_), Some(loser)) => persist.expire(loser),
                _ => {},
            }
            match stash_session {
                Some(session) => Ok(OpenedCatalog { backend: Backend::Stash, session }),
                None => vstd::pervasive::unreached(),
            }
        },
        Backend::Persist => {
            match (release, stash_session) {
                (Some(_), Some(loser)) => stash.expire(loser),
                _ => {},
            }
            match persist_session {
                Some(session) => Ok(OpenedCatalog { backend: Backend::Persist, session }),
                None => vstd::pervasive::unreached(),
            }
        },
    }
}

/// Ends a failed attempt: gives back every lease taken and reports the
/// error.
fn fail(
    error: CatalogError,
    stash: &mut CatalogStore,
    persist: &mut CatalogStore,
    driver: Driver,
    Ghost(at): Ghost<Attempt>,
    Ghost(s0): Ghost<StoreView>,
    Ghost(p0): Ghost<StoreView>,
) -> (result: Result<OpenedCatalog, OpenFailure>)
    requires
        exists|machine: OpenProtocol<Snapshot, Vec<Record>, Vec<Record>>|
            machine.phase is Failed && #[trigger] at.on_track(
                s0,
                p0,
                machine,
                Action::Fail(error),
                old(stash)@,
                old(persist)@,
                driver,
            ),
    ensures
        final(stash)@ == at.run(s0, p0).stash,
        final(persist)@ == at.run(s0, p0).persist,
        end_of(result) == at.run(s0, p0).end,
{
    let Driver { stash_session, persist_session, txn: _ } = driver;
    match stash_session {
        Some(session) => stash.expire(session),
        None => {},
    }
    match persist_session {
        Some(session) => persist.expire(session),
        None => {},
    }
    Err(OpenFailure::Catalog(error))
}

} // verus!
