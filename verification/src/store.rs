//! A reference in-memory durable backend.
//!
//! A [`CatalogStore`] is the durable state of one backend: its catalog
//! content, its metadata and its fence. Openers present a [`FenceToken`]; the
//! store admits a token only if it is newer than every token admitted before,
//! and from then on refuses every call made with an older session. A session
//! opened as a savepoint never changes the store's content: what it commits
//! stays in the session.
use vstd::prelude::*;
use crate::direction::CatalogKind;
use crate::error::CatalogError;
use crate::fence::FenceToken;
use crate::record::{duplicate_records, reconcile, reconcile_histories, Record, RecordView};

verus! {

/// How a backend is opened.
#[derive(Clone, Copy, Debug, PartialEq, Eq, Structural)]
pub enum OpenMode {
    /// A dry run: the opener is fenced in, but nothing it writes is durable.
    Savepoint,
    /// A full open whose commits are durable.
    Durable,
}

/// The catalog rows of a backend at one point in time.
#[derive(Clone, Debug, PartialEq, Eq)]
pub struct Snapshot {
    pub items: Vec<Record>,
    pub catalog_kind: Option<CatalogKind>,
}

/// The mathematical value of a [`Snapshot`].
pub struct SnapshotView {
    pub items: Seq<RecordView>,
    pub catalog_kind: Option<CatalogKind>,
}

impl View for Snapshot {
    type V = SnapshotView;

    open spec fn view(&self) -> SnapshotView {
        SnapshotView { items: self.items.deep_view(), catalog_kind: self.catalog_kind }
    }
}

/// Everything a backend holds: the snapshot, the two histories and the
/// tombstone.
#[derive(Clone, Debug, PartialEq, Eq)]
pub struct CatalogContent {
    pub snapshot: Snapshot,
    pub audit_log: Vec<Record>,
    pub storage_usage: Vec<Record>,
    pub tombstone: Option<bool>,
}

/// The mathematical value of a [`CatalogContent`].
pub struct ContentView {
    pub snapshot: SnapshotView,
    pub audit_log: Seq<RecordView>,
    pub storage_usage: Seq<RecordView>,
    pub tombstone: Option<bool>,
}

impl View for CatalogContent {
    type V = ContentView;

    open spec fn view(&self) -> ContentView {
        ContentView {
            snapshot: self.snapshot@,
            audit_log: self.audit_log.deep_view(),
            storage_usage: self.storage_usage.deep_view(),
            tombstone: self.tombstone,
        }
    }
}

impl ContentView {
    /// The content of a backend that was never written.
    pub open spec fn empty() -> ContentView {
        ContentView {
            snapshot: SnapshotView { items: Seq::empty(), catalog_kind: None },
            audit_log: Seq::empty(),
            storage_usage: Seq::empty(),
            tombstone: None,
        }
    }

    /// The content after a migration transaction installed `snapshot` and
    /// reconciled the destination's histories with the source's.
    pub open spec fn with_catalog(
        self,
        snapshot: SnapshotView,
        dest_audit: Seq<RecordView>,
        dest_usage: Seq<RecordView>,
        src_audit: Seq<RecordView>,
        src_usage: Seq<RecordView>,
    ) -> ContentView {
        ContentView {
            snapshot,
            audit_log: reconcile(dest_audit, src_audit),
            storage_usage: reconcile(dest_usage, src_usage),
            tombstone: self.tombstone,
        }
    }

    /// The content with the tombstone set to `value`.
    pub open spec fn with_tombstone(self, value: bool) -> ContentView {
        ContentView { tombstone: Some(value), ..self }
    }

    /// The content a destination holds once the catalog of `source` has been
    /// migrated into it.
    pub open spec fn receive(self, source: ContentView) -> ContentView {
        self.with_catalog(
            source.snapshot,
            self.audit_log,
            self.storage_usage,
            source.audit_log,
            source.storage_usage,
        )
    }
}

/// The mathematical value of a [`CatalogStore`].
pub struct StoreView {
    pub content: ContentView,
    pub initialized: bool,
    pub deploy_generation: Option<u64>,
    /// The newest token ever admitted.
    pub fence: Option<FenceToken>,
    /// Whether the session of that token still holds its lease.
    pub leased: bool,
}

impl StoreView {
    /// A store that was never opened.
    pub open spec fn fresh() -> StoreView {
        StoreView {
            content: ContentView::empty(),
            initialized: false,
            deploy_generation: None,
            fence: None,
            leased: false,
        }
    }

    /// Whether an opener with `token` gets past the fence.
    pub open spec fn admits(self, token: FenceToken) -> bool {
        match self.fence {
            None => true,
            Some(held) => token.newer_than(held),
        }
    }

    /// Whether the session of `token` is the current lease holder.
    pub open spec fn held_by(self, token: FenceToken) -> bool {
        self.leased && self.fence == Some(token)
    }

    /// Whether a newer opener has taken the store away from `token`.
    pub open spec fn fenced_out(self, token: FenceToken) -> bool {
        match self.fence {
            None => false,
            Some(held) => held.newer_than(token),
        }
    }

    /// The error an open in `mode` with `token` fails with, if it fails. The
    /// fence is checked first; a store that was never initialized cannot be
    /// opened as a savepoint, since initializing it takes a durable write.
    pub open spec fn open_error(self, mode: OpenMode, token: FenceToken) -> Option<CatalogError> {
        if !self.admits(token) {
            Some(CatalogError::Fenced)
        } else if mode == OpenMode::Savepoint && !self.initialized {
            Some(CatalogError::Durable { recoverable: true })
        } else {
            None
        }
    }

    /// The store after a successful open in `mode` with `token`.
    pub open spec fn opened(self, mode: OpenMode, token: FenceToken) -> StoreView {
        match mode {
            OpenMode::Savepoint => StoreView { fence: Some(token), leased: true, ..self },
            OpenMode::Durable => StoreView {
                initialized: true,
                deploy_generation: if token.deploy_generation is Some {
                    token.deploy_generation
                } else {
                    self.deploy_generation
                },
                fence: Some(token),
                leased: true,
                ..self
            },
        }
    }

    /// The store with its content replaced.
    pub open spec fn with_content(self, content: ContentView) -> StoreView {
        StoreView { content, ..self }
    }

    /// The store after the session of `token` gave up its lease.
    pub open spec fn released(self, token: FenceToken) -> StoreView {
        if self.held_by(token) {
            StoreView { leased: false, ..self }
        } else {
            self
        }
    }
}

/// The durable state of one backend.
#[derive(Debug)]
pub struct CatalogStore {
    content: CatalogContent,
    initialized: bool,
    deploy_generation: Option<u64>,
    fence: Option<FenceToken>,
    leased: bool,
}

impl View for CatalogStore {
    type V = StoreView;

    closed spec fn view(&self) -> StoreView {
        StoreView {
            content: self.content@,
            initialized: self.initialized,
            deploy_generation: self.deploy_generation,
            fence: self.fence,
            leased: self.leased,
        }
    }
}

/// The mathematical value of a [`Session`].
pub struct SessionView {
    pub token: FenceToken,
    /// What a savepoint session has committed so far; `None` for a durable
    /// session.
    pub overlay: Option<ContentView>,
}

impl SessionView {
    /// The mode the session was opened in.
    pub open spec fn mode(self) -> OpenMode {
        if self.overlay is Some {
            OpenMode::Savepoint
        } else {
            OpenMode::Durable
        }
    }
}

/// An opened backend: the handle through which its holder reads and writes.
#[derive(Debug)]
pub struct Session {
    token: FenceToken,
    overlay: Option<CatalogContent>,
}

impl View for Session {
    type V = SessionView;

    closed spec fn view(&self) -> SessionView {
        SessionView {
            token: self.token,
            overlay: match self.overlay {
                Some(content) => Some(content@),
                None => None,
            },
        }
    }
}

/// The content a session sees: its own overlay if it is a savepoint, the
/// store's content otherwise.
pub open spec fn visible(store: StoreView, session: SessionView) -> ContentView {
    match session.overlay {
        Some(content) => content,
        None => store.content,
    }
}

/// A set of changes to a backend's content, applied as one by
/// [`CatalogStore::commit`].
#[derive(Debug)]
pub struct Transaction {
    content: CatalogContent,
}

impl View for Transaction {
    type V = ContentView;

    closed spec fn view(&self) -> ContentView {
        self.content@
    }
}

/// A copy of a snapshot.
pub fn duplicate_snapshot(snapshot: &Snapshot) -> (copy: Snapshot)
    ensures
        copy@ == snapshot@,
{
    Snapshot { items: duplicate_records(&snapshot.items), catalog_kind: snapshot.catalog_kind }
}

/// A copy of a backend's content.
pub fn duplicate_content(content: &CatalogContent) -> (copy: CatalogContent)
    ensures
        copy@ == content@,
{
    CatalogContent {
        snapshot: duplicate_snapshot(&content.snapshot),
        audit_log: duplicate_records(&content.audit_log),
        storage_usage: duplicate_records(&content.storage_usage),
        tombstone: content.tombstone,
    }
}

impl Session {
    /// The token the session was opened with.
    pub fn token(&self) -> (t: FenceToken)
        ensures
            t == self@.token,
    {
        self.token
    }

    /// The mode the session was opened in.
    pub fn mode(&self) -> (m: OpenMode)
        ensures
            m == self@.mode(),
    {
        match &self.overlay {
            Some(_) => OpenMode::Savepoint,
            None => OpenMode::Durable,
        }
    }
}

impl CatalogStore {
    /// A store that was never opened: empty, uninitialized and unfenced.
    pub fn new() -> (store: CatalogStore)
        ensures
            store@ == StoreView::fresh(),
    {
        let store = CatalogStore {
            content: CatalogContent {
                snapshot: Snapshot { items: Vec::new(), catalog_kind: None },
                audit_log: Vec::new(),
                storage_usage: Vec::new(),
                tombstone: None,
            },
            initialized: false,
            deploy_generation: None,
            fence: None,
            leased: false,
        };
        assert(store.content@.snapshot.items =~= Seq::empty());
        assert(store.content@.audit_log =~= Seq::empty());
        assert(store.content@.storage_usage =~= Seq::empty());
        store
    }

    /// Whether the store was ever opened durably.
    pub fn is_initialized(&self) -> (r: bool)
        ensures
            r == self@.initialized,
    {
        self.initialized
    }

    /// The deployment generation last written by a durable open.
    pub fn get_deployment_generation(&self) -> (r: Option<u64>)
        ensures
            r == self@.deploy_generation,
    {
        self.deploy_generation
    }

    /// The catalog kind recorded in the store's configuration.
    pub fn get_catalog_kind_config(&self) -> (r: Option<CatalogKind>)
        ensures
            r == self@.content.snapshot.catalog_kind,
    {
        self.content.snapshot.catalog_kind
    }

    /// The durable tombstone.
    pub fn get_tombstone(&self) -> (r: Option<bool>)
        ensures
            r == self@.content.tombstone,
    {
        self.content.tombstone
    }

    /// The durable content.
    pub fn content(&self) -> (c: &CatalogContent)
        ensures
            c@ == self@.content,
    {
        &self.content
    }

    /// The newest token the store has admitted.
    pub fn fence(&self) -> (f: Option<FenceToken>)
        ensures
            f == self@.fence,
    {
        self.fence
    }

    /// Whether `session` is the current lease holder.
    pub fn is_held_by(&self, session: &Session) -> (r: bool)
        ensures
            r == self@.held_by(session@.token),
    {
        self.leased && match self.fence {
            Some(held) => held.boot_ts == session.token.boot_ts && held.deploy_generation
                == session.token.deploy_generation,
            None => false,
        }
    }

    /// Opens the store and fences out every earlier opener.
    ///
    /// Fails with `Fenced`, changing nothing, unless `token` is newer than
    /// every token admitted before. A savepoint open of a store that was
    /// never initialized fails with a recoverable `Durable` error, changing
    /// nothing. Otherwise the token becomes the fence and holds the lease; a
    /// durable open also initializes the store and records the token's
    /// generation, if it has one.
    pub fn open(&mut self, mode: OpenMode, token: FenceToken) -> (r: Result<
        Session,
        CatalogError,
    >)
        ensures
            match r {
                Ok(session) => {
                    &&& old(self)@.open_error(mode, token) is None
                    &&& final(self)@ == old(self)@.opened(mode, token)
                    &&& session@.token == token
                    &&& session@.mode() == mode
                    &&& visible(final(self)@, session@) == old(self)@.content
                },
                Err(e) => {
                    &&& old(self)@.open_error(mode, token) == Some(e)
                    &&& final(self)@ == old(self)@
                },
            },
    {
        let admitted = match self.fence {
            None => true,
            Some(held) => token.is_newer_than(&held),
        };
        if !admitted {
            return Err(CatalogError::Fenced);
        }
        match mode {
            OpenMode::Savepoint => {
                if !self.initialized {
                    return Err(CatalogError::Durable { recoverable: true });
                }
                self.fence = Some(token);
                self.leased = true;
                Ok(Session { token, overlay: Some(duplicate_content(&self.content)) })
            },
            OpenMode::Durable => {
                self.initialized = true;
                if token.deploy_generation.is_some() {
                    self.deploy_generation = token.deploy_generation;
                }
                self.fence = Some(token);
                self.leased = true;
                Ok(Session { token, overlay: None })
            },
        }
    }

    /// Reads the tombstone through a session.
    pub fn read_tombstone(&self, session: &Session) -> (r: Result<Option<bool>, CatalogError>)
        ensures
            r == if self@.held_by(session@.token) {
                Ok::<Option<bool>, CatalogError>(visible(self@, session@).tombstone)
            } else {
                Err::<Option<bool>, CatalogError>(CatalogError::Fenced)
            },
    {
        if !self.is_held_by(session) {
            return Err(CatalogError::Fenced);
        }
        match &session.overlay {
            Some(content) => Ok(content.tombstone),
            None => Ok(self.content.tombstone),
        }
    }

    /// Reads the whole catalog for use as the source of a migration: the
    /// snapshot, the audit log and the storage usage records.
    pub fn whole_migration_snapshot(&self, session: &Session) -> (r: Result<
        (Snapshot, Vec<Record>, Vec<Record>),
        CatalogError,
    >)
        ensures
            match r {
                Ok((snapshot, audit_log, storage_usage)) => {
                    &&& self@.held_by(session@.token)
                    &&& snapshot@ == visible(self@, session@).snapshot
                    &&& audit_log.deep_view() == visible(self@, session@).audit_log
                    &&& storage_usage.deep_view() == visible(self@, session@).storage_usage
                },
                Err(e) => !self@.held_by(session@.token) && e == CatalogError::Fenced,
            },
    {
        if !self.is_held_by(session) {
            return Err(CatalogError::Fenced);
        }
        let content = match &session.overlay {
            Some(content) => content,
            None => &self.content,
        };
        Ok(
            (
                duplicate_snapshot(&content.snapshot),
                duplicate_records(&content.audit_log),
                duplicate_records(&content.storage_usage),
            ),
        )
    }

    /// Starts a transaction on the content the session sees.
    pub fn transaction(&self, session: &Session) -> (r: Result<Transaction, CatalogError>)
        ensures
            match r {
                Ok(txn) => self@.held_by(session@.token) && txn@ == visible(self@, session@),
                Err(e) => !self@.held_by(session@.token) && e == CatalogError::Fenced,
            },
    {
        if !self.is_held_by(session) {
            return Err(CatalogError::Fenced);
        }
        let content = match &session.overlay {
            Some(content) => content,
            None => &self.content,
        };
        Ok(Transaction { content: duplicate_content(content) })
    }

    /// Starts a transaction on this store as the destination of a migration,
    /// and hands out the histories the store already holds, so that the
    /// caller can reconcile them with the source's.
    pub fn whole_migration_transaction(&self, session: &Session) -> (r: Result<
        (Transaction, Vec<Record>, Vec<Record>),
        CatalogError,
    >)
        ensures
            match r {
                Ok((txn, audit_log, storage_usage)) => {
                    &&& self@.held_by(session@.token)
                    &&& txn@ == visible(self@, session@)
                    &&& audit_log.deep_view() == visible(self@, session@).audit_log
                    &&& storage_usage.deep_view() == visible(self@, session@).storage_usage
                },
                Err(e) => !self@.held_by(session@.token) && e == CatalogError::Fenced,
            },
    {
        if !self.is_held_by(session) {
            return Err(CatalogError::Fenced);
        }
        let content = match &session.overlay {
            Some(content) => content,
            None => &self.content,
        };
        Ok(
            (
                Transaction { content: duplicate_content(content) },
                duplicate_records(&content.audit_log),
                duplicate_records(&content.storage_usage),
            ),
        )
    }

    /// Applies a transaction as one change. A durable session replaces the
    /// store's content; a savepoint session keeps the result to itself. A
    /// session that lost its lease changes nothing and is told `Fenced`.
    pub fn commit(&mut self, session: &mut Session, txn: Transaction) -> (r: Result<
        (),
        CatalogError,
    >)
        ensures
            final(session)@.token == old(session)@.token,
            final(session)@.mode() == old(session)@.mode(),
            match r {
                Ok(_) => {
                    &&& old(self)@.held_by(old(session)@.token)
                    &&& visible(final(self)@, final(session)@) == txn@
                    &&& old(session)@.mode() == OpenMode::Durable ==> final(self)@ == old(
                        self,
                    )@.with_content(txn@)
                    &&& old(session)@.mode() == OpenMode::Savepoint ==> final(self)@ == old(self)@
                },
                Err(e) => {
                    &&& !old(self)@.held_by(old(session)@.token)
                    &&& e == CatalogError::Fenced
                    &&& final(self)@ == old(self)@
                    &&& final(session)@ == old(session)@
                },
            },
    {
        if !self.is_held_by(session) {
            return Err(CatalogError::Fenced);
        }
        if session.overlay.is_some() {
            session.overlay = Some(txn.content);
        } else {
            self.content = txn.content;
        }
        Ok(())
    }

    /// Gives up the lease of `session`. Calling it for a session that holds
    /// no lease, because it was fenced out or already expired, does nothing.
    pub fn expire(&mut self, session: Session)
        ensures
            final(self)@ == old(self)@.released(session@.token),
    {
        if self.is_held_by(&session) {
            self.leased = false;
        }
    }
}

impl Transaction {
    /// Overwrites the catalog with `snapshot` and reconciles the histories:
    /// the destination's existing entries stay, and the source's entries are
    /// appended where their identity is new. The tombstone is left alone.
    pub fn set_catalog(
        &mut self,
        snapshot: Snapshot,
        dest_audit_log: Vec<Record>,
        dest_storage_usage: Vec<Record>,
        src_audit_log: Vec<Record>,
        src_storage_usage: Vec<Record>,
    )
        ensures
            final(self)@ == old(self)@.with_catalog(
                snapshot@,
                dest_audit_log.deep_view(),
                dest_storage_usage.deep_view(),
                src_audit_log.deep_view(),
                src_storage_usage.deep_view(),
            ),
    {
        self.content.snapshot = snapshot;
        self.content.audit_log = reconcile_histories(dest_audit_log, &src_audit_log);
        self.content.storage_usage = reconcile_histories(dest_storage_usage, &src_storage_usage);
    }

    /// Sets the tombstone.
    pub fn set_tombstone(&mut self, value: bool)
        ensures
            final(self)@ == old(self)@.with_tombstone(value),
    {
        self.content.tombstone = Some(value);
    }

    /// Records the catalog kind in the configuration.
    pub fn set_catalog_kind_config(&mut self, kind: Option<CatalogKind>)
        ensures
            final(self)@ == (ContentView {
                snapshot: SnapshotView { catalog_kind: kind, ..old(self)@.snapshot },
                ..old(self)@
            }),
    {
        self.content.snapshot.catalog_kind = kind;
    }

    /// Adds a catalog item to the snapshot.
    pub fn insert_item(&mut self, item: Record)
        ensures
            final(self)@ == (ContentView {
                snapshot: SnapshotView {
                    items: old(self)@.snapshot.items.push(item@),
                    ..old(self)@.snapshot
                },
                ..old(self)@
            }),
    {
        let ghost before = self.content.snapshot.items.deep_view();
        self.content.snapshot.items.push(item);
        assert(self.content.snapshot.items.deep_view() =~= before.push(item@));
    }

    /// Appends an audit log entry unless its identity is already logged.
    pub fn append_audit_event(&mut self, event: Record)
        ensures
            final(self)@ == (ContentView {
                audit_log: reconcile(old(self)@.audit_log, seq![event@]),
                ..old(self)@
            }),
    {
        let mut log: Vec<Record> = Vec::new();
        std::mem::swap(&mut log, &mut self.content.audit_log);
        let mut incoming: Vec<Record> = Vec::new();
        incoming.push(event);
        assert(incoming.deep_view() =~= seq![event@]);
        self.content.audit_log = reconcile_histories(log, &incoming);
    }

    /// Appends a storage usage record unless its identity is already known.
    pub fn append_storage_usage(&mut self, usage: Record)
        ensures
            final(self)@ == (ContentView {
                storage_usage: reconcile(old(self)@.storage_usage, seq![usage@]),
                ..old(self)@
            }),
    {
        let mut log: Vec<Record> = Vec::new();
        std::mem::swap(&mut log, &mut self.content.storage_usage);
        let mut incoming: Vec<Record> = Vec::new();
        incoming.push(usage);
        assert(incoming.deep_view() =~= seq![usage@]);
        self.content.storage_usage = reconcile_histories(log, &incoming);
    }

    /// The content the transaction would commit.
    pub fn content(&self) -> (c: &CatalogContent)
        ensures
            c@ == self@,
    {
        &self.content
    }
}

} // verus!
