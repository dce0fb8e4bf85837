//! The process-wide lifecycle rules around the shared database handle: a
//! call that arrives before initialization fails fast rather than blocking,
//! and a sync request is honoured only for a remote replica.
use vstd::prelude::*;

use crate::DbError;

verus! {

/// Fetches the live handle out of the shared slot, or reports that
/// initialization has not happened yet. A caller that finds the slot empty
/// must not wait for initialization: it fails fast with the
/// not-initialized error.
pub fn require_initialized<'a, T>(slot: &'a Option<T>) -> (r: Result<&'a T, DbError>)
    ensures
        slot is Some ==> (r matches Ok(v) && v == slot->0),
        slot is None ==> (r matches Err(e) && e == DbError::NotInitialized),
{
    match slot {
        Some(v) => Ok(v),
        None => Err(DbError::NotInitialized),
    }
}

/// Sync is meaningful only for a remote replica: a local-only handle is
/// rejected with a sync error rather than silently pulled against nothing.
pub fn check_sync_mode(remote: bool) -> (r: Result<(), DbError>)
    ensures
        remote ==> r is Ok,
        !remote ==> (r matches Err(e) && e matches DbError::Sync { detail } && detail@
            == "sync is not available for a local-only database"@),
{
    if remote {
        Ok(())
    } else {
        Err(
            DbError::Sync {
                detail: String::from_str("sync is not available for a local-only database"),
            },
        )
    }
}

} // verus!
