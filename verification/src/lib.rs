//! A personal developer note log over a single-file store: a
//! versioned schema-migration engine that evolves the store across
//! releases without data loss, and a predicate compiler that turns
//! independent, optional filter options into one parameterized
//! retrieval with deterministic ordering and safe action dispatch.
//! The storage engine and the process clock sit behind the trusted
//! boundaries in `store` and `clock`; everything else is verified.

pub mod args;
pub mod clock;
pub mod commands;
pub mod db;
pub mod filter;
pub mod query;
pub mod record;
pub mod store;
pub mod tags;
pub mod text;

use vstd::prelude::*;

verus! {

/// Schema version that freshly created stores carry and that the
/// migration runner advances older stores to.
pub const TARGET_DB_VERSION: u32 = 2;

/// Capacity of the archive: the store keeps at most this many
/// soft-deleted records, evicting oldest-by-timestamp first.
pub const MAX_BACKUP_ENTRIES: u32 = 100;

/// The library's error taxonomy. A matched-zero-records outcome is
/// not an error and has no variant here.
#[derive(Clone, Debug)]
pub enum DlogError {
    /// The backing file could not be opened or created. Fatal.
    StoreUnavailable(String),
    /// The pre-migration copy could not be made; migration never
    /// proceeds without one. Fatal.
    BackupFailed(String),
    /// A migration step failed; the owning transaction was rolled
    /// back in full and the store is still at its prior version.
    MigrationStepFailed(String),
    /// A retrieval or mutation failed in the storage engine.
    QueryFailed(String),
    /// Archival was requested without the confirmation flag; refused
    /// before any store access.
    MissingConfirmation,
}

} // verus!
