//! The configured direction of a migration and the rule that says which
//! backend holds the authoritative catalog.
use vstd::prelude::*;

verus! {

/// The externally configured catalog kind.
#[derive(Clone, Copy, Debug, PartialEq, Eq, Structural)]
pub enum CatalogKind {
    Stash,
    Persist,
    Shadow,
    EmergencyStash,
}

/// The direction in which the migrator moves the catalog.
#[derive(Clone, Copy, Debug, PartialEq, Eq, Structural)]
pub enum Direction {
    MigrateToPersist,
    RollbackToStash,
}

/// One of the two durable backends.
#[derive(Clone, Copy, Debug, PartialEq, Eq, Structural)]
pub enum Backend {
    Stash,
    Persist,
}

/// The direction that a catalog kind asks for. Only `Stash` and `Persist`
/// name a direction; the transitional kinds are handed back unchanged.
pub open spec fn direction_for(kind: CatalogKind) -> Result<Direction, CatalogKind> {
    match kind {
        CatalogKind::Stash => Ok(Direction::RollbackToStash),
        CatalogKind::Persist => Ok(Direction::MigrateToPersist),
        CatalogKind::Shadow => Err(CatalogKind::Shadow),
        CatalogKind::EmergencyStash => Err(CatalogKind::EmergencyStash),
    }
}

/// The backend that a tombstone value declares authoritative: persist when
/// the tombstone is set, the stash when it is unset or was never written.
pub open spec fn authority_of(tombstone: Option<bool>) -> Backend {
    if tombstone == Some(true) {
        Backend::Persist
    } else {
        Backend::Stash
    }
}

/// The backend a migration in the given direction writes the catalog to.
pub open spec fn target_of(direction: Direction) -> Backend {
    match direction {
        Direction::MigrateToPersist => Backend::Persist,
        Direction::RollbackToStash => Backend::Stash,
    }
}

impl CatalogKind {
    /// The name of the kind as it appears in configuration.
    pub fn as_str(&self) -> (name: &'static str)
        ensures
            name@ == match *self {
                CatalogKind::Stash => "stash"@,
                CatalogKind::Persist => "persist"@,
                CatalogKind::Shadow => "shadow"@,
                CatalogKind::EmergencyStash => "emergency-stash"@,
            },
    {
        match self {
            CatalogKind::Stash => "stash",
            CatalogKind::Persist => "persist",
            CatalogKind::Shadow => "shadow",
            CatalogKind::EmergencyStash => "emergency-stash",
        }
    }
}

impl Direction {
    /// Maps a catalog kind to the direction it asks for, or hands the kind back
    /// when it names none.
    pub fn try_from(catalog_kind: CatalogKind) -> (r: Result<Direction, CatalogKind>)
        ensures
            r == direction_for(catalog_kind),
    {
        match catalog_kind {
            CatalogKind::Stash => Ok(Direction::RollbackToStash),
            CatalogKind::Persist => Ok(Direction::MigrateToPersist),
            CatalogKind::Shadow | CatalogKind::EmergencyStash => Err(catalog_kind),
        }
    }

    /// The backend this direction makes authoritative.
    pub fn target(&self) -> (b: Backend)
        ensures
            b == target_of(*self),
    {
        match self {
            Direction::MigrateToPersist => Backend::Persist,
            Direction::RollbackToStash => Backend::Stash,
        }
    }
}

/// Decides from the tombstone which backend is authoritative.
pub fn authority(tombstone: Option<bool>) -> (b: Backend)
    ensures
        b == authority_of(tombstone),
{
    match tombstone {
        Some(true) => Backend::Persist,
        _ => Backend::Stash,
    }
}

/// Every tombstone value names exactly one authoritative backend: never
/// both and never neither, and persist exactly when the tombstone is set.
pub proof fn authority_is_exclusive(tombstone: Option<bool>)
    ensures
        (authority_of(tombstone) == Backend::Stash) != (authority_of(tombstone)
            == Backend::Persist),
        authority_of(tombstone) == Backend::Persist <==> tombstone == Some(true),
        authority_of(tombstone) == Backend::Stash <==> (tombstone == Some(false) || tombstone
            == None::<bool>),
{
    match tombstone {
        Some(flag) => {
            assert(flag || tombstone == Some(false));
        },
        None => {},
    }
}

} // verus!
