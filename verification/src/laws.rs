//! Laws of the migration protocol over the in-memory stores.
//!
//! Each law is stated over [`Attempt::run`], which is what
//! [`crate::migrate::CatalogMigrator::open`] and
//! [`crate::migrate::CatalogMigrator::open_savepoint`] are proved to do.
use vstd::prelude::*;
use crate::direction::{Backend, Direction};
use crate::error::CatalogError;
use crate::fence::FenceToken;
use crate::migrate::{migrated, Attempt, End, Run};
use crate::protocol::FaultPoint;
use crate::record::{ids_within, reconcile_is_idempotent, reconcile_round_trip};
use crate::store::{ContentView, OpenMode, StoreView};

verus! {

/// A forward migration run twice gives the same result: once a durable
/// forward attempt has completed, a second one by a later opener completes
/// too and leaves the content of both stores exactly as the first left it,
/// with the tombstone set after each.
pub proof fn forward_migration_is_idempotent(
    first: Attempt,
    second: Attempt,
    stash: StoreView,
    persist: StoreView,
)
    requires
        first.mode == OpenMode::Durable,
        second.mode == OpenMode::Durable,
        first.direction == Direction::MigrateToPersist,
        second.direction == Direction::MigrateToPersist,
        first.run(stash, persist).end is Opened,
        second.token.newer_than(first.token),
        second.opens_undisturbed(),
    ensures
        ({
            let once = first.run(stash, persist);
            let twice = second.run(once.stash, once.persist);
            &&& twice.end is Opened
            &&& twice.stash.content == once.stash.content
            &&& twice.persist.content == once.persist.content
            &&& once.stash.content.tombstone == Some(true)
            &&& twice.stash.content.tombstone == Some(true)
        }),
{
}

/// A rollback run twice gives the same result: once a durable rollback has
/// completed, a second one by a later opener completes too and leaves the
/// content of both stores as the first left it, with the tombstone not set
/// after each.
pub proof fn rollback_is_idempotent(
    first: Attempt,
    second: Attempt,
    stash: StoreView,
    persist: StoreView,
)
    requires
        first.mode == OpenMode::Durable,
        second.mode == OpenMode::Durable,
        first.direction == Direction::RollbackToStash,
        second.direction == Direction::RollbackToStash,
        first.run(stash, persist).end is Opened,
        second.token.newer_than(first.token),
        second.opens_undisturbed(),
    ensures
        ({
            let once = first.run(stash, persist);
            let twice = second.run(once.stash, once.persist);
            &&& twice.end is Opened
            &&& twice.stash.content == once.stash.content
            &&& twice.persist.content == once.persist.content
            &&& once.stash.content.tombstone != Some(true)
            &&& twice.stash.content.tombstone != Some(true)
            &&& stash.content.tombstone == Some(true) ==> once.stash.content.tombstone == Some(
                false,
            )
        }),
{
}

/// The attempt without its fault points.
pub open spec fn undisturbed(attempt: Attempt) -> Attempt {
    Attempt {
        faults: crate::migrate::FaultPlan {
            post_stash_fence: false,
            post_persist_fence: false,
            migrate_post_write: false,
        },
        ..attempt
    }
}

/// An interrupted attempt can be repeated: when a durable attempt is cut
/// short at a fault point, a full attempt by a later opener ends with the
/// same backend authoritative and the same content in both stores as the
/// first attempt would have without the interruption. In particular a
/// forward migration interrupted after persist was written ends with
/// persist's content as in an uninterrupted run and the tombstone set.
pub proof fn interrupted_attempt_can_be_repeated(
    first: Attempt,
    second: Attempt,
    stash: StoreView,
    persist: StoreView,
)
    requires
        first.mode == OpenMode::Durable,
        second.mode == OpenMode::Durable,
        first.direction == second.direction,
        first.run(stash, persist).end is Interrupted,
        undisturbed(first).run(stash, persist).end is Opened,
        second.token.newer_than(first.token),
        second == undisturbed(second),
    ensures
        ({
            let cut = first.run(stash, persist);
            let whole = undisturbed(first).run(stash, persist);
            let again = second.run(cut.stash, cut.persist);
            &&& again.end is Opened
            &&& again.end->Opened_backend == whole.end->Opened_backend
            &&& again.stash.content == whole.stash.content
            &&& again.persist.content == whole.persist.content
            &&& first.direction == Direction::MigrateToPersist
                ==> again.stash.content.tombstone == Some(true)
        }),
{
    let cs = stash.content;
    let cp = persist.content;
    crate::fence::newer_than_is_strict_total_order(
        second.token,
        first.token,
        if persist.fence is Some {
            persist.fence->0
        } else {
            first.token
        },
    );
    if first.run(stash, persist).end == End::Interrupted(FaultPoint::MigratePostWrite) {
        reconcile_is_idempotent(cp.audit_log, cs.audit_log);
        reconcile_is_idempotent(cp.storage_usage, cs.storage_usage);
    }
}

/// A migration followed at once by a rollback restores the stash: when the
/// stash is authoritative and already knows every identity in persist's
/// histories, a completed forward migration and then a completed rollback
/// by a later opener leave the stash with the snapshot, the audit log and
/// the storage usage records it had before, and with the tombstone cleared.
pub proof fn migration_then_rollback_restores_stash(
    forth: Attempt,
    back: Attempt,
    stash: StoreView,
    persist: StoreView,
)
    requires
        forth.mode == OpenMode::Durable,
        back.mode == OpenMode::Durable,
        forth.direction == Direction::MigrateToPersist,
        back.direction == Direction::RollbackToStash,
        forth.run(stash, persist).end is Opened,
        back.token.newer_than(forth.token),
        back.opens_undisturbed(),
        stash.content.tombstone != Some(true),
        ids_within(persist.content.audit_log, stash.content.audit_log),
        ids_within(persist.content.storage_usage, stash.content.storage_usage),
    ensures
        ({
            let there = forth.run(stash, persist);
            let home = back.run(there.stash, there.persist);
            &&& home.end matches End::Opened { backend: Backend::Stash, .. }
            &&& home.stash.content.snapshot == stash.content.snapshot
            &&& home.stash.content.audit_log == stash.content.audit_log
            &&& home.stash.content.storage_usage == stash.content.storage_usage
            &&& home.stash.content.tombstone == Some(false)
        }),
{
    reconcile_round_trip(stash.content.audit_log, persist.content.audit_log);
    reconcile_round_trip(stash.content.storage_usage, persist.content.storage_usage);
}

/// An attempt whose direction the tombstone already agrees with writes
/// nothing: however it is opened and however it ends, the content of both
/// stores is what it was. In particular a rollback of a catalog whose
/// tombstone is unset or was never written changes neither store.
pub proof fn settled_attempt_writes_nothing(attempt: Attempt, stash: StoreView, persist: StoreView)
    requires
        match attempt.direction {
            Direction::MigrateToPersist => stash.content.tombstone == Some(true),
            Direction::RollbackToStash => stash.content.tombstone == None::<bool>
                || stash.content.tombstone == Some(false),
        },
    ensures
        attempt.run(stash, persist).stash.content == stash.content,
        attempt.run(stash, persist).persist.content == persist.content,
{
}

/// A savepoint never changes what a store holds: whatever the attempt does
/// stays in its sessions. When both stores open, the session handed out sees
/// the content a completed migration leaves in its backend.
pub proof fn savepoint_writes_nothing(attempt: Attempt, stash: StoreView, persist: StoreView)
    requires
        attempt.mode == OpenMode::Savepoint,
    ensures
        attempt.run(stash, persist).stash.content == stash.content,
        attempt.run(stash, persist).persist.content == persist.content,
        attempt.run(stash, persist).end matches End::Opened { backend, session } ==> {
            &&& session.overlay is Some
            &&& persist.open_error(attempt.mode, attempt.token) is None ==> session.overlay
                == Some(
                match backend {
                    Backend::Stash => migrated(
                        attempt.direction,
                        stash.content,
                        persist.content,
                    ).0,
                    Backend::Persist => migrated(
                        attempt.direction,
                        stash.content,
                        persist.content,
                    ).1,
                },
            )
        },
{
}

/// The tombstone changes only when a migration completes: an attempt that
/// fails or is interrupted leaves the stash's tombstone as it was, and no
/// attempt ever writes a tombstone to persist. A completed attempt leaves
/// the tombstone in agreement with its direction.
pub proof fn tombstone_changes_only_on_completion(
    attempt: Attempt,
    stash: StoreView,
    persist: StoreView,
)
    ensures
        !(attempt.run(stash, persist).end is Opened) ==> attempt.run(
            stash,
            persist,
        ).stash.content.tombstone == stash.content.tombstone,
        attempt.run(stash, persist).persist.content.tombstone == persist.content.tombstone,
        attempt.run(stash, persist).end is Opened && attempt.mode == OpenMode::Durable ==> (
        attempt.run(stash, persist).stash.content.tombstone == Some(true)) == (attempt.direction
            == Direction::MigrateToPersist),
        attempt.run(stash, persist).end matches End::Opened { backend, .. } ==> backend
            == crate::direction::target_of(attempt.direction),
{
}

/// A newer opener fences out an older one for good. Once a store has
/// admitted a token newer than `stale`, the session of `stale` holds no
/// lease and `stale` is not admitted again; and nothing that can happen to
/// the store afterwards, be it an open, a commit or an expiry, undoes that.
/// Every call through a session without a lease is refused as fenced.
pub proof fn newer_opener_fences_out_older(
    store: StoreView,
    stale: FenceToken,
    newer: FenceToken,
    mode: OpenMode,
    any_mode: OpenMode,
    any_token: FenceToken,
    any_content: ContentView,
)
    requires
        newer.newer_than(stale),
        store.open_error(mode, newer) is None,
    ensures
        ({
            let taken = store.opened(mode, newer);
            &&& taken.fenced_out(stale)
            &&& !taken.held_by(stale)
            &&& taken.open_error(any_mode, stale) == Some(CatalogError::Fenced)
            &&& taken.open_error(any_mode, any_token) is None ==> taken.opened(
                any_mode,
                any_token,
            ).fenced_out(stale)
            &&& taken.with_content(any_content).fenced_out(stale)
            &&& taken.released(any_token).fenced_out(stale)
        }),
{
}

/// Being fenced out is permanent and total: a store that has admitted a
/// token newer than `stale` refuses to open for `stale`, its session holds
/// no lease, and every later state of the store is fenced out for `stale`
/// as well.
pub proof fn fenced_out_is_permanent(
    store: StoreView,
    stale: FenceToken,
    any_mode: OpenMode,
    any_token: FenceToken,
    any_content: ContentView,
)
    requires
        store.fenced_out(stale),
    ensures
        !store.held_by(stale),
        store.open_error(any_mode, stale) == Some(CatalogError::Fenced),
        store.open_error(any_mode, any_token) is None ==> store.opened(
            any_mode,
            any_token,
        ).fenced_out(stale),
        store.with_content(any_content).fenced_out(stale),
        store.released(any_token).fenced_out(stale),
{
}

/// An attempt by a fenced-out opener fails as fenced and changes nothing
/// in either store's content; if the stash is what fences it out, neither
/// store is touched at all.
pub proof fn fenced_out_attempt_fails(attempt: Attempt, stash: StoreView, persist: StoreView)
    requires
        stash.fenced_out(attempt.token) || persist.fenced_out(attempt.token),
        attempt.opens_undisturbed(),
    ensures
        attempt.run(stash, persist).end == End::Failed(CatalogError::Fenced) || (stash.open_error(
            attempt.mode,
            attempt.token,
        ) == Some(CatalogError::Durable { recoverable: true }) && attempt.run(
            stash,
            persist,
        ).end is Failed),
        attempt.run(stash, persist).stash.content == stash.content,
        attempt.run(stash, persist).persist.content == persist.content,
        stash.fenced_out(attempt.token) ==> attempt.run(stash, persist) == (Run {
            stash,
            persist,
            end: End::Failed(CatalogError::Fenced),
        }),
{
}

} // verus!
