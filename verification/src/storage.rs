//! Which persistence backend a connection string selects.

use vstd::prelude::*;
use crate::text::{has_prefix, starts_with};

verus! {

/// The persistence backends.
#[derive(Clone, Copy, Debug, PartialEq, Eq, Structural)]
pub enum Backend {
    Postgres,
    Sqlite,
}

/// The backend that a connection string selects: PostgreSQL where it
/// begins with `postgres://` or `postgresql://`, SQLite otherwise.
pub open spec fn backend_of(database_url: Seq<char>) -> Backend {
    if has_prefix(database_url, "postgres://"@) || has_prefix(database_url, "postgresql://"@) {
        Backend::Postgres
    } else {
        Backend::Sqlite
    }
}

/// Selects the backend for a connection string.
pub fn backend_for(database_url: &str) -> (backend: Backend)
    ensures
        backend == backend_of(database_url@),
{
    if starts_with(database_url, "postgres://") || starts_with(database_url, "postgresql://") {
        Backend::Postgres
    } else {
        Backend::Sqlite
    }
}

} // verus!
