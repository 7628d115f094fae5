//! Runtime selection, timeout bookkeeping and connection-backend defaults of
//! the SQLx core, with their contracts proved by Verus.

pub mod rt;
pub mod rt_wasip3;
pub mod backend;
pub mod transaction;
