//! The database types that pass through the catalog, declared so that
//! verified code can carry them, and the one question asked of them.

use vstd::prelude::*;

verus! {

/// `tokio_postgres::Error`, carried opaquely.
#[verifier::external_type_specification]
#[verifier::external_body]
pub struct ExPostgresError(tokio_postgres::Error);

/// `deadpool::managed::PoolError`, carried opaquely.
#[verifier::external_type_specification]
#[verifier::external_body]
#[verifier::reject_recursive_types(E)]
pub struct ExPoolError<E>(deadpool::managed::PoolError<E>);

/// Whether the database error `err` reports SQLSTATE 23505
/// (`unique_violation`): what `tokio_postgres::Error::code` returns for it,
/// compared with `SqlState::UNIQUE_VIOLATION`. The answer depends on the
/// error value alone.
pub uninterp spec fn reports_unique_violation(err: tokio_postgres::Error) -> bool;

/// Calls `tokio_postgres::Error::code` (which is `as_db_error().map(DbError::code)`)
/// and compares the SQLSTATE it reports with `SqlState::UNIQUE_VIOLATION`;
/// the answer is named `reports_unique_violation`.
#[verifier::external_body]
pub(crate) fn is_unique_violation(err: &tokio_postgres::Error) -> (b: bool)
    ensures
        b == reports_unique_violation(*err),
{
    err.code() == Some(&tokio_postgres::error::SqlState::UNIQUE_VIOLATION)
}

} // verus!
