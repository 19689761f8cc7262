//! The library's laws: properties that relate several operations, stated
//! over the same spec functions the operations' contracts use, and proved
//! once and for all.

use vstd::prelude::*;

use crate::entities::{gender_value, spec_gender_of_value, AuthorModel, Gender};
use crate::error::Error;
use crate::gateway::{
    lemma_author_index_of, spec_create_author, spec_create_post, spec_create_post_tag,
    spec_find_author, spec_list_authors, spec_update_author, StoreError,
};
use crate::migrator::{spec_apply_all, spec_catalog, spec_pending, spec_revert_all};
use crate::store::{
    author_index_of, author_name_taken, author_name_taken_by_other, has_author_id, has_post_id,
    has_tag_id, StoreModel,
};

verus! {

/// Applying every migration unit and then reverting every applied unit
/// returns any well-formed store to the pristine state: an empty schema with
/// no leftover tables or types, an empty ledger, and no rows.
pub proof fn lemma_apply_then_revert_all_restores_empty(m: StoreModel)
    requires
        m.wf(),
    ensures
        spec_revert_all(spec_apply_all(m)) == StoreModel::init(),
        spec_revert_all(spec_apply_all(m)).schema == crate::schema::SchemaState::spec_empty(),
{
    let m1 = spec_apply_all(m);
    assert(m.applied == spec_catalog().take(m.applied.len() as int));
    if m.applied.len() == 0 {
        assert(m.authors =~= Seq::empty());
        assert(m.posts =~= Seq::empty());
        assert(m.tags =~= Seq::empty());
        assert(m.post_tags =~= Seq::empty());
        assert(m1.applied == m.applied.push(spec_catalog()[0]));
    } else {
        assert(m.applied.len() == 1);
        assert(m1 == m);
    }
    assert(m1.applied.len() == 1);
    assert(m1.schema == crate::schema::SchemaState::spec_full());
    let (m2, r) = crate::migrator::spec_revert_last(m1);
    assert(r is Ok);
    assert(m2.applied =~= Seq::<crate::migrator::Migration>::empty());
    assert(m2 =~= StoreModel::init());
    assert(spec_revert_all(m1) == spec_revert_all(m2));
    assert(spec_revert_all(m2) == m2);
}

/// Applying an already-fully-migrated store again is a no-op: nothing is
/// pending and the apply changes nothing.
pub proof fn lemma_apply_all_idempotent(m: StoreModel)
    requires
        m.wf(),
        m.applied.len() == spec_catalog().len(),
    ensures
        spec_pending(m).len() == 0,
        spec_apply_all(m) == m,
{
}

/// A successful create followed by a lookup of the returned key finds
/// exactly the created payload plus the assigned key.
pub proof fn lemma_create_then_find(m: StoreModel, name: Seq<char>, gender: Gender)
    requires
        m.wf(),
        spec_create_author(m, name, gender).1 is Ok,
    ensures
        ({
            let (m2, rr) = spec_create_author(m, name, gender);
            &&& rr matches Ok(a) && a.name == name && a.gender == gender
            &&& spec_find_author(m2, rr->Ok_0.id) == Ok::<Option<AuthorModel>, StoreError>(
                Some(rr->Ok_0),
            )
        }),
{
    let (m2, rr) = spec_create_author(m, name, gender);
    let a = rr->Ok_0;
    assert(m2.authors[m.authors.len() as int] == a);
    assert(has_author_id(m2.authors, a.id));
    let j = author_index_of(m2.authors, a.id);
    lemma_author_index_of(m2.authors, a.id);
    if j < m.authors.len() {
        assert(m2.authors[j] == m.authors[j]);
        assert(m.authors[j].id < m.next_author_id);
    }
    assert(j == m.authors.len());
}

/// Of two create calls with the same name, at most one succeeds: once one
/// has succeeded, the other is rejected with the uniqueness-constraint
/// error and changes nothing.
pub proof fn lemma_duplicate_name_rejected(
    m: StoreModel,
    name: Seq<char>,
    first: Gender,
    second: Gender,
)
    requires
        m.wf(),
        spec_create_author(m, name, first).1 is Ok,
    ensures
        ({
            let (m2, _) = spec_create_author(m, name, first);
            spec_create_author(m2, name, second) == (m2, Err::<AuthorModel, StoreError>(
                StoreError::UniqueViolation,
            ))
        }),
{
    let (m2, _) = spec_create_author(m, name, first);
    assert(m2.authors[m.authors.len() as int].name == name);
    assert(author_name_taken(m2.authors, name));
}

/// Listing with `start_id` 2 and `number` 3 returns exactly the third
/// through fifth author rows, in ascending key order, whenever at least
/// five authors exist: `start_id` is an offset and `number` a limit.
pub proof fn lemma_list_offset_limit(m: StoreModel)
    requires
        m.wf(),
        m.schema.author_table,
        m.authors.len() >= 5,
    ensures
        spec_list_authors(m, Some(2u64), Some(3u64)) == Ok::<Seq<AuthorModel>, StoreError>(
            m.authors.subrange(2, 5),
        ),
        forall|i: int, j: int|
            2 <= i < j < 5 ==> #[trigger] m.authors[i].id < #[trigger] m.authors[j].id,
{
    let rest = m.authors.skip(2);
    assert(rest.take(3) =~= m.authors.subrange(2, 5));
}

/// Updating a key no row carries is rejected as a record-not-found store
/// error and leaves the store unchanged; the service surfaces it as the
/// client-visible "not found" condition.
pub proof fn lemma_update_missing_id(m: StoreModel, author_id: u64, name: Seq<char>, gender: Gender)
    requires
        m.wf(),
        m.schema.author_table,
        author_id <= i64::MAX,
        !has_author_id(m.authors, author_id as i64),
    ensures
        spec_update_author(m, author_id as i64, name, gender) == (m, Err::<AuthorModel, StoreError>(
            StoreError::RecordNotFound,
        )),
        crate::author::spec_put(m, author_id, name, gender) == (m, Err::<AuthorModel, Error>(
            Error::NotFound { author_id },
        )),
{
}

/// Updating an existing key fully replaces that row's name and gender,
/// leaves its key unchanged, and touches no other row.
pub proof fn lemma_update_existing(m: StoreModel, id: i64, name: Seq<char>, gender: Gender)
    requires
        m.wf(),
        m.schema.author_table,
        has_author_id(m.authors, id),
        !author_name_taken_by_other(m.authors, id, name),
    ensures
        ({
            let (m2, rr) = spec_update_author(m, id, name, gender);
            &&& rr == Ok::<AuthorModel, StoreError>(AuthorModel { id, name, gender })
            &&& m2.authors.len() == m.authors.len()
            &&& m2.authors[author_index_of(m.authors, id)] == AuthorModel { id, name, gender }
            &&& forall|k: int|
                0 <= k < m.authors.len() && k != author_index_of(m.authors, id)
                    ==> #[trigger] m2.authors[k] == m.authors[k]
            &&& m2 == StoreModel { authors: m2.authors, ..m }
        }),
{
    lemma_author_index_of(m.authors, id);
}

/// Inserting a post whose `author_id` references no author fails with the
/// referential-integrity error and changes nothing.
pub proof fn lemma_post_requires_author(
    m: StoreModel,
    title: Seq<char>,
    text: Seq<char>,
    author_id: i64,
)
    requires
        m.wf(),
        m.schema.post_table,
        !has_author_id(m.authors, author_id),
    ensures
        spec_create_post(m, title, text, author_id) == (m, Err::<crate::entities::PostModel, StoreError>(
            StoreError::ForeignKeyViolation,
        )),
{
}

/// Inserting an association row referencing a missing post or a missing tag
/// fails with the referential-integrity error and changes nothing.
pub proof fn lemma_post_tag_requires_rows(m: StoreModel, post_id: i64, tag_id: i64)
    requires
        m.wf(),
        m.schema.post_tag_table,
        !has_post_id(m.posts, post_id) || !has_tag_id(m.tags, tag_id),
    ensures
        spec_create_post_tag(m, post_id, tag_id) == (m, Err::<crate::entities::PostTag, StoreError>(
            StoreError::ForeignKeyViolation,
        )),
{
}

/// The gender mapping is a bijection onto its three strings: serializing
/// any gender and deserializing the result returns the same gender.
pub proof fn lemma_gender_value_round_trip(g: Gender)
    ensures
        spec_gender_of_value(gender_value(g)) == Some(g),
{
    reveal_strlit("female");
    reveal_strlit("male");
    reveal_strlit("unknown");
    assert("female"@.len() == 6);
    assert("male"@.len() == 4);
    assert("unknown"@.len() == 7);
}

/// A store freshly applied from empty has nothing pending: the startup gate
/// admits traffic exactly then.
pub proof fn lemma_fresh_apply_has_nothing_pending(m: StoreModel)
    requires
        m.wf(),
    ensures
        spec_pending(spec_apply_all(m)).len() == 0,
{
    let m1 = spec_apply_all(m);
    assert(m.applied == spec_catalog().take(m.applied.len() as int));
    if m.applied.len() == 0 {
        assert(m1.applied == m.applied.push(spec_catalog()[0]));
    }
}

} // verus!
