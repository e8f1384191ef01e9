//! Errors that a durable backend reports to the migrator.
use vstd::prelude::*;

verus! {

/// Why an operation on a durable backend failed.
#[derive(Clone, Copy, Debug, PartialEq, Eq, Structural)]
pub enum CatalogError {
    /// The caller's fence token is no longer current.
    Fenced,
    /// The backend could not serve the request. `recoverable` says whether
    /// opening the backend in a writable mode would get past the failure.
    Durable { recoverable: bool },
    /// The catalog content handed to a migration transaction was refused.
    Content,
}

impl CatalogError {
    /// Whether the failure would go away if the backend were opened writable.
    pub open spec fn recoverable_with_write_mode(self) -> bool {
        self == (CatalogError::Durable { recoverable: true })
    }

    /// Reports whether the failure would go away if the backend were opened
    /// in a writable mode.
    pub fn can_recover_with_write_mode(&self) -> (r: bool)
        ensures
            r == self.recoverable_with_write_mode(),
    {
        match self {
            CatalogError::Durable { recoverable } => *recoverable,
            _ => false,
        }
    }

    /// Whether the failure is a fencing failure.
    pub fn is_fenced(&self) -> (r: bool)
        ensures
            r == (*self == CatalogError::Fenced),
    {
        match self {
            CatalogError::Fenced => true,
            _ => false,
        }
    }
}

} // verus!
