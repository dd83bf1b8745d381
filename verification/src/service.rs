//! The link service: create, delete and resolve, each one statement on the
//! store, with the store's outcomes folded into the service's own errors.
//!
//! A caller that talks to a database over the network runs the statement
//! itself and hands what came of it, as an `Attempt`, to `link_created`,
//! `link_deleted` or `link_resolved`. `create_link`, `delete_link` and
//! `resolve_link` do the same against a `LinkTable`.

use vstd::prelude::*;
use vstd::string::*;
use crate::database::{Link, LinkTable, StoreError};
use crate::id::{generate, has_id_length, is_minted_id, is_valid_id};

verus! {

/// Why the service did not do what it was asked.
#[derive(Clone, Copy, Debug, PartialEq, Eq, Structural)]
pub enum ServiceError {
    /// The identifier does not have the fixed length.
    InvalidId,
    /// No link has this identifier.
    NotFound,
    /// No connection to the store could be had.
    ServiceUnavailable,
    /// The statement failed, for whatever reason: a clash of identifiers is
    /// not told apart from the rest, and nothing is tried again.
    StoreFailure,
}

/// What came of one statement on the store.
#[derive(Debug, PartialEq, Eq)]
pub enum Attempt<T> {
    /// No connection could be had, so the statement never ran.
    NoConnection,
    /// The statement ran, and this is what the store said.
    Ran(Result<T, StoreError>),
}

/// The link that a create request asks for: `url` as it came, under a
/// freshly minted identifier.
pub fn new_link(url: &str) -> (link: Link)
    ensures
        is_minted_id(link.id@),
        link.url@ == url@,
{
    Link { id: generate(), url: String::from_str(url) }
}

/// Accepts identifiers of the fixed length and no others. A delete request
/// passes through here before any connection is asked for.
pub fn check_id(id: &str) -> (checked: Result<(), ServiceError>)
    ensures
        is_valid_id(id@) ==> checked is Ok,
        !is_valid_id(id@) ==> checked == Err::<(), ServiceError>(ServiceError::InvalidId),
{
    if has_id_length(id) {
        Ok(())
    } else {
        Err(ServiceError::InvalidId)
    }
}

/// The result of a create request, given what came of the insert of `link`.
pub fn link_created(link: Link, attempt: Attempt<()>) -> (result: Result<Link, ServiceError>)
    ensures
        match attempt {
            Attempt::NoConnection => result == Err::<Link, ServiceError>(
                ServiceError::ServiceUnavailable,
            ),
            Attempt::Ran(Ok(_)) => result == Ok::<Link, ServiceError>(link),
            Attempt::Ran(Err(_)) => result == Err::<Link, ServiceError>(
                ServiceError::StoreFailure,
            ),
        },
{
    match attempt {
        Attempt::NoConnection => Err(ServiceError::ServiceUnavailable),
        Attempt::Ran(Ok(_)) => Ok(link),
        Attempt::Ran(Err(_)) => Err(ServiceError::StoreFailure),
    }
}

/// The result of a delete request, given what came of the delete.
pub fn link_deleted(attempt: Attempt<()>) -> (result: Result<(), ServiceError>)
    ensures
        match attempt {
            Attempt::NoConnection => result == Err::<(), ServiceError>(
                ServiceError::ServiceUnavailable,
            ),
            Attempt::Ran(Ok(_)) => result is Ok,
            Attempt::Ran(Err(_)) => result == Err::<(), ServiceError>(ServiceError::StoreFailure),
        },
{
    match attempt {
        Attempt::NoConnection => Err(ServiceError::ServiceUnavailable),
        Attempt::Ran(Ok(_)) => Ok(()),
        Attempt::Ran(Err(_)) => Err(ServiceError::StoreFailure),
    }
}

/// The result of a lookup, given what came of the select: a miss stays a
/// miss, every other failure of the store is a `StoreFailure`.
pub fn link_resolved(attempt: Attempt<String>) -> (result: Result<String, ServiceError>)
    ensures
        match attempt {
            Attempt::NoConnection => result == Err::<String, ServiceError>(
                ServiceError::ServiceUnavailable,
            ),
            Attempt::Ran(Ok(url)) => result == Ok::<String, ServiceError>(url),
            Attempt::Ran(Err(StoreError::NotFound)) => result == Err::<String, ServiceError>(
                ServiceError::NotFound,
            ),
            Attempt::Ran(Err(_)) => result == Err::<String, ServiceError>(
                ServiceError::StoreFailure,
            ),
        },
{
    match attempt {
        Attempt::NoConnection => Err(ServiceError::ServiceUnavailable),
        Attempt::Ran(Ok(url)) => Ok(url),
        Attempt::Ran(Err(StoreError::NotFound)) => Err(ServiceError::NotFound),
        Attempt::Ran(Err(_)) => Err(ServiceError::StoreFailure),
    }
}

/// Stores `link` in `table`. It succeeds exactly when the identifier is
/// free; a taken identifier keeps its link, and the request fails.
pub fn store_link(table: &mut LinkTable, link: Link) -> (result: Result<Link, ServiceError>)
    requires
        old(table).is_valid(),
    ensures
        final(table).is_valid(),
        old(table)@.dom().contains(link.id@) ==> result == Err::<Link, ServiceError>(
            ServiceError::StoreFailure,
        ) && final(table)@ == old(table)@,
        !old(table)@.dom().contains(link.id@) ==> result == Ok::<Link, ServiceError>(link)
            && final(table)@ == old(table)@.insert(link.id@, link.url@),
{
    let done = crate::database::create_link(table, link.id.as_str(), link.url.as_str());
    link_created(link, Attempt::Ran(done))
}

/// Creates a link to `url` under a freshly minted identifier. Which
/// identifier that is cannot be said beforehand; whichever it was, the
/// request succeeded if it was free and failed, with the table untouched, if
/// it was taken. So it fails only where the table holds a minted identifier.
pub fn create_link(table: &mut LinkTable, url: &str) -> (result: Result<Link, ServiceError>)
    requires
        old(table).is_valid(),
    ensures
        final(table).is_valid(),
        match result {
            Ok(link) => {
                &&& is_minted_id(link.id@)
                &&& link.url@ == url@
                &&& !old(table)@.dom().contains(link.id@)
                &&& final(table)@ == old(table)@.insert(link.id@, url@)
            },
            Err(e) => {
                &&& e == ServiceError::StoreFailure
                &&& final(table)@ == old(table)@
                &&& exists|id: Seq<char>| #[trigger]
                    is_minted_id(id) && old(table)@.dom().contains(id)
            },
        },
{
    let link = new_link(url);
    let ghost id = link.id@;
    let result = store_link(table, link);
    assert(result is Err ==> is_minted_id(id) && old(table)@.dom().contains(id));
    result
}

/// Deletes the link `id`. An identifier of another length is refused and the
/// table is not touched; one of the right length succeeds, whether a link
/// had it or not.
pub fn delete_link(table: &mut LinkTable, id: &str) -> (result: Result<(), ServiceError>)
    requires
        old(table).is_valid(),
    ensures
        final(table).is_valid(),
        !is_valid_id(id@) ==> result == Err::<(), ServiceError>(ServiceError::InvalidId)
            && final(table)@ == old(table)@,
        is_valid_id(id@) ==> result is Ok && final(table)@ == old(table)@.remove(id@),
{
    match check_id(id) {
        Err(e) => Err(e),
        Ok(_) => {
            let done = crate::database::delete_link(table, id);
            link_deleted(Attempt::Ran(done))
        },
    }
}

/// The URL that the link `id` redirects to, or `NotFound`.
pub fn resolve_link(table: &LinkTable, id: &str) -> (result: Result<String, ServiceError>)
    requires
        table.is_valid(),
    ensures
        match result {
            Ok(url) => table@.dom().contains(id@) && url@ == table@[id@],
            Err(e) => !table@.dom().contains(id@) && e == ServiceError::NotFound,
        },
{
    let found = crate::database::get_link(table, id);
    link_resolved(Attempt::Ran(found))
}

} // verus!
