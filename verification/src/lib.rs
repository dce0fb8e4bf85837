//! Database-connection layer: connection establishment with retry and local
//! fallback, value marshaling between an external dynamic representation and
//! the SQL engine's typed values, result-set assembly, and batch sequencing.
//!
//! The layer performs no I/O of its own: the connection machinery hands out
//! actions for a driver to perform and consumes the events it reports back.
use vstd::prelude::*;

pub mod batch;
pub mod executor;
pub mod init;
pub mod session;
pub mod url;
pub mod value;

verus! {

/// Error taxonomy of the layer. Remote-stage failures are absorbed by the
/// retry/fallback machinery and never reach a caller directly; execution
/// failures carry the engine's message verbatim and are never retried.
#[derive(Debug, Clone, PartialEq, Eq)]
pub enum DbError {
    /// The private data directory could not be resolved or created (fatal,
    /// nothing to fall back to).
    DataDirUnavailable { detail: String },
    /// A remote-replica connection attempt failed (retried, never fatal).
    RemoteConnect { detail: String },
    /// Opening the local database failed (fatal: nothing left to try).
    LocalOpen { detail: String },
    /// An execute/batch/sync call arrived before successful initialization.
    NotInitialized,
    /// The engine rejected a statement or its bindings; its message is
    /// carried verbatim and the statement is never retried.
    Execution { detail: String },
    /// A replica sync exchange failed or was requested in local-only mode.
    Sync { detail: String },
}

/// The text of each error, as rendered for the generic message channel that
/// consumes these errors. An execution or sync failure carries the
/// underlying engine's message and is surfaced verbatim — no prefix, no
/// rewording — since SQL correctness is the caller's responsibility.
pub open spec fn spec_error_message(e: DbError) -> Seq<char> {
    match e {
        DbError::DataDirUnavailable { detail } => "cannot resolve or create the data directory: "@
            + detail@,
        DbError::RemoteConnect { detail } => "remote replica connection failed: "@ + detail@,
        DbError::LocalOpen { detail } => "local database open failed: "@ + detail@,
        DbError::NotInitialized => "Database not initialized. Call db_init first."@,
        DbError::Execution { detail } => detail@,
        DbError::Sync { detail } => detail@,
    }
}

impl DbError {
    /// Renders the error as descriptive text.
    pub fn message(&self) -> (r: String)
        ensures
            r@ == spec_error_message(*self),
    {
        match self {
            DbError::DataDirUnavailable { detail } => {
                let mut s = String::from_str("cannot resolve or create the data directory: ");
                s.append(detail.as_str());
                s
            },
            DbError::RemoteConnect { detail } => {
                let mut s = String::from_str("remote replica connection failed: ");
                s.append(detail.as_str());
                s
            },
            DbError::LocalOpen { detail } => {
                let mut s = String::from_str("local database open failed: ");
                s.append(detail.as_str());
                s
            },
            DbError::NotInitialized => String::from_str(
                "Database not initialized. Call db_init first.",
            ),
            DbError::Execution { detail } => detail.clone(),
            DbError::Sync { detail } => detail.clone(),
        }
    }
}

} // verus!
