use sqlx_core::backend::{migrate_unsupported, AnyConnectionBackend, BackendError};
use sqlx_core::transaction::SqliteTransactionManager;

struct Plain {
    rollbacks: u32,
}

impl AnyConnectionBackend for Plain {
    type Migrator = ();

    fn name(&self) -> &str {
        "Plain"
    }

    fn start_rollback(&mut self) {
        self.rollbacks += 1;
    }

    fn shrink_buffers(&mut self) {}

    fn should_flush(&self) -> bool {
        false
    }
}

struct Caching {
    migrator: u8,
}

impl AnyConnectionBackend for Caching {
    type Migrator = u8;

    fn name(&self) -> &str {
        "Caching"
    }

    fn start_rollback(&mut self) {}

    fn cached_statements_size(&self) -> usize {
        3
    }

    fn shrink_buffers(&mut self) {}

    fn should_flush(&self) -> bool {
        true
    }

    fn as_migrate(&mut self) -> Result<&mut u8, BackendError> {
        Ok(&mut self.migrator)
    }
}

#[test]
fn default_cached_statements_size_is_zero() {
    let p = Plain { rollbacks: 0 };
    assert_eq!(p.cached_statements_size(), 0);
    let c = Caching { migrator: 0 };
    assert_eq!(c.cached_statements_size(), 3);
}

#[test]
fn default_as_migrate_reports_unsupported() {
    let mut p = Plain { rollbacks: 0 };
    match p.as_migrate() {
        Err(BackendError::Configuration(m)) => assert_eq!(
            m,
            "Plain driver does not support migrations or `migrate` feature was not enabled"
        ),
        Ok(_) => panic!("a backend without migrations handed out a migrator"),
    }
    p.start_rollback();
    assert_eq!(p.rollbacks, 1);
}

#[test]
fn overridden_as_migrate() {
    let mut c = Caching { migrator: 4 };
    assert!(matches!(c.as_migrate(), Ok(4)));
}

#[test]
fn migrate_unsupported_message() {
    match migrate_unsupported("") {
        BackendError::Configuration(m) => assert_eq!(
            m,
            " driver does not support migrations or `migrate` feature was not enabled"
        ),
    }
    match migrate_unsupported("SQLite") {
        BackendError::Configuration(m) => assert!(m.starts_with("SQLite driver does not")),
    }
}

#[test]
fn sqlite_transaction_manager_is_a_unit() {
    let m = SqliteTransactionManager;
    assert_eq!(format!("{:?}", m), "SqliteTransactionManager");
}
