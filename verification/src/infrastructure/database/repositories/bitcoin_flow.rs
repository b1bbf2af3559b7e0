use std::sync::Arc;
use vstd::prelude::*;

verus! {

/// The SQLite storage of bitcoin trades, as far as the library knows it: the pool of
/// connections that it draws on, shared with the other storages. The
/// queries are run by the program around the library.
pub struct BitcoinFlowSqlite<P> {
    pub db_pool: Arc<P>,
}

impl<P> BitcoinFlowSqlite<P> {
    /// The storage over `db_pool`.
    pub fn new(db_pool: Arc<P>) -> (repository: Self)
        ensures
            repository.db_pool == db_pool,
    {
        Self { db_pool }
    }
}

} // verus!
