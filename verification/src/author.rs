//! The Author resource service: create, paginated list, full-field update
//! and the declared (but intentionally unimplemented) delete, built on the
//! persistence gateway. The service distinguishes "not found" from every
//! other failure before responding.

use vstd::prelude::*;

use crate::entities::{Author, AuthorModel, Gender};
use crate::error::{spec_store_error, Error};
use crate::gateway::{
    lemma_author_index_of, spec_create_author, spec_list_authors, spec_update_author, Mutation,
    Query, StoreError,
};
use crate::store::{has_author_id, Store, StoreModel};

verus! {

/// The wire payload for creating or fully updating an author: both fields
/// required — there is no partial-field merge, an unchanged value must still
/// be supplied.
pub struct AuthorInfo {
    pub name: String,
    pub gender: Gender,
}

/// Pagination parameters of the listing. `start_id` is the result-set
/// offset — not a filter on the key's value — and `number` is the limit; an
/// absent value means unbounded in that dimension.
#[derive(Clone, Copy, Debug)]
pub struct ListAuthorsParams {
    pub start_id: Option<u64>,
    pub number: Option<u64>,
}

/// What the update endpoint does: a key outside the store's key range or
/// carried by no row is "not found" and leaves the table unchanged;
/// otherwise the row's non-key fields are fully replaced.
pub open spec fn spec_put(m: StoreModel, author_id: u64, name: Seq<char>, gender: Gender) -> (
    StoreModel,
    Result<AuthorModel, Error>,
) {
    if author_id > i64::MAX {
        (m, Err(Error::NotFound { author_id }))
    } else if !m.schema.author_table {
        (m, Err(Error::Internal(StoreError::MissingTable(crate::schema::SchemaObject::AuthorTable))))
    } else if !has_author_id(m.authors, author_id as i64) {
        (m, Err(Error::NotFound { author_id }))
    } else {
        let (m2, rr) = spec_update_author(m, author_id as i64, name, gender);
        (
            m2,
            match rr {
                Ok(am) => Ok(am),
                Err(e) => Err(spec_store_error(e)),
            },
        )
    }
}

/// Creates an author from the supplied payload and returns the persisted
/// entity, assigned key included; a store rejection (such as a duplicate
/// name) is surfaced with its cause, never swallowed.
pub fn create(store: &mut Store, info: AuthorInfo) -> (r: Result<Author, Error>)
    requires
        old(store).wf(),
    ensures
        final(store).wf(),
        ({
            let (m2, rr) = spec_create_author(old(store)@, info.name@, info.gender);
            final(store)@ == m2 && (match rr {
                Ok(am) => r matches Ok(a) && a@ == am,
                Err(e) => r == Err::<Author, Error>(spec_store_error(e)),
            })
        }),
{
    match Mutation::create_author(store, info) {
        Ok(a) => Ok(a),
        Err(e) => Err(Error::of_store(e)),
    }
}

/// Lists authors in ascending key order under the offset/limit semantics of
/// [`ListAuthorsParams`].
pub fn list(store: &Store, params: ListAuthorsParams) -> (r: Result<Vec<Author>, Error>)
    requires
        store.wf(),
    ensures
        (match spec_list_authors(store@, params.start_id, params.number) {
            Ok(s) => r matches Ok(v) && v@.map_values(|a: Author| a@) == s,
            Err(e) => r == Err::<Vec<Author>, Error>(spec_store_error(e)),
        }),
{
    match Query::list_authors(store, params) {
        Ok(v) => Ok(v),
        Err(e) => Err(Error::of_store(e)),
    }
}

/// Updates the author addressed by the path-supplied key with a full
/// `{name, gender}` body: looks the author up first and propagates "not
/// found" as a client-visible condition distinct from internal failure,
/// then performs a full-field update.
pub fn put(store: &mut Store, author_id: u64, info: AuthorInfo) -> (r: Result<Author, Error>)
    requires
        old(store).wf(),
    ensures
        final(store).wf(),
        ({
            let (m2, rr) = spec_put(old(store)@, author_id, info.name@, info.gender);
            final(store)@ == m2 && (match rr {
                Ok(am) => r matches Ok(a) && a@ == am,
                Err(e) => r == Err::<Author, Error>(e),
            })
        }),
{
    if author_id > (i64::MAX as u64) {
        return Err(Error::NotFound { author_id });
    }
    let id = author_id as i64;
    let found = match Query::find_by_id(store, id) {
        Ok(opt) => opt,
        Err(e) => {
            return Err(Error::Internal(e));
        },
    };
    let author = match found {
        Some(a) => a,
        None => {
            return Err(Error::NotFound { author_id });
        },
    };
    proof {
        lemma_author_index_of(store@.authors, id);
    }
    match Mutation::update_author(store, author.id, info) {
        Ok(a) => Ok(a),
        Err(e) => Err(Error::of_store(e)),
    }
}

/// Deletion is declared in the service surface but intentionally
/// unimplemented: a known stub that performs no operation and changes
/// nothing. A real implementation must report success or failure explicitly
/// rather than silently doing nothing.
pub fn delete(store: &mut Store, author_id: u64)
    ensures
        final(store)@ == old(store)@,
{
    let _ = author_id;
}

} // verus!
