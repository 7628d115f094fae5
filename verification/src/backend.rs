use vstd::prelude::*;

verus! {

/// The errors of a connection backend's own operations.
#[derive(Debug)]
pub enum BackendError {
    /// The backend is not configured for what was asked of it.
    Configuration(String),
}

/// What a backend without migration support reports, for a backend named
/// `name`.
pub open spec fn migrate_unsupported_text(name: Seq<char>) -> Seq<char> {
    name + " driver does not support migrations or `migrate` feature was not enabled"@
}

/// The error of a backend named `name` that cannot run migrations.
pub fn migrate_unsupported(name: &str) -> (e: BackendError)
    ensures
        e matches BackendError::Configuration(m) && m@ == migrate_unsupported_text(name@),
{
    let mut m = String::from_str(name);
    m.append(" driver does not support migrations or `migrate` feature was not enabled");
    BackendError::Configuration(m)
}

/// The synchronous part of a database driver's connection, as the `Any`
/// driver calls it.
pub trait AnyConnectionBackend {
    /// The migrator a backend hands out when it supports migrations.
    type Migrator;

    /// The backend name.
    fn name(&self) -> &str;

    /// Starts rolling back the current transaction without waiting for it.
    fn start_rollback(&mut self);

    /// The number of statements currently cached in the connection; none,
    /// unless the backend caches statements.
    fn cached_statements_size(&self) -> (n: usize)
        default_ensures
            n == 0,
    {
        0
    }

    /// Shrinks the connection's buffers.
    fn shrink_buffers(&mut self);

    /// Whether buffered writes wait to be flushed.
    fn should_flush(&self) -> bool;

    /// The backend's migrator; by default, the error that the backend does
    /// not support migrations, leaving the backend as it was.
    fn as_migrate(&mut self) -> (r: Result<&mut Self::Migrator, BackendError>)
        default_ensures
            r matches Err(BackendError::Configuration(m)) && exists|n: &str| call_ensures(Self::name, (&*old(self),), n) && m@ == migrate_unsupported_text(n@),
            &*final(self) == &*old(self),
    {
        Err(migrate_unsupported(self.name()))
    }
}

} // verus!
