//! Error taxonomy of the catalog.

use vstd::prelude::*;

verus! {

/// Every way a catalog operation can fail.
///
/// `DecodeFailure` carries the name of the offending peer and the stored
/// backend-type discriminant, so a caller can diagnose the bad row without
/// re-querying the store.
#[derive(Debug)]
pub enum CatalogError {
    /// The store connection could not be established; fatal to bootstrap.
    ConnectionFailure,
    /// A schema migration did not apply; fatal to bootstrap.
    MigrationFailure,
    /// A lookup, update, or delete targeted a name or id with zero matching rows.
    NotFound,
    /// A uniqueness or referential-integrity violation reported by the store.
    ConstraintViolation,
    /// A stored configuration payload could not be parsed for its declared
    /// backend type; the fields are the peer's name and its stored type value.
    DecodeFailure(String, i32),
    /// The caller supplied a peer with no configuration payload.
    InvalidConfig,
    /// A stored type discriminant does not match any known backend even
    /// though this component wrote it; a defect, not a normal `NotFound`.
    InternalInconsistency,
}

impl CatalogError {
    /// True when the error is the recoverable "zero rows matched" condition.
    pub fn is_not_found(&self) -> (r: bool)
        ensures
            r == (self is NotFound),
    {
        match self {
            CatalogError::NotFound => true,
            _ => false,
        }
    }
}

} // verus!
