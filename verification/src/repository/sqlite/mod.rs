use vstd::prelude::*;

use crate::repository::RepoError;

pub mod todo_repository;
pub mod user_repository;

verus! {

/// The embedded store's connection type, declared so it can stand in
/// signatures and fields; its contents are opaque to verification.
#[verifier::external_type_specification]
#[verifier::external_body]
pub struct ExConnection(rusqlite::Connection);

/// Relies on rusqlite::Connection::open_in_memory: creates an ephemeral
/// store, private to this process, holding no tables yet.
#[verifier::external_body]
pub(crate) fn open_memory_connection() -> (r: Result<rusqlite::Connection, RepoError>)
    ensures
        r is Err ==> r->Err_0 == RepoError::Connection,
{
    match rusqlite::Connection::open_in_memory() {
        Ok(conn) => Ok(conn),
        Err(_) => Err(RepoError::Connection),
    }
}

/// Relies on rusqlite::Connection::open: opens a durable store at the given
/// filesystem path, creating the file when it is absent.
#[verifier::external_body]
pub(crate) fn open_path_connection(connection_string: &str) -> (r: Result<
    rusqlite::Connection,
    RepoError,
>)
    ensures
        r is Err ==> r->Err_0 == RepoError::Connection,
{
    match rusqlite::Connection::open(connection_string) {
        Ok(conn) => Ok(conn),
        Err(_) => Err(RepoError::Connection),
    }
}

} // verus!
