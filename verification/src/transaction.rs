use vstd::prelude::*;

verus! {

/// The transaction manager of SQLite connections, a type without state.
#[derive(Debug)]
pub struct SqliteTransactionManager;

} // verus!
