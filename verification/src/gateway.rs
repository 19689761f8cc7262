//! The persistence gateway: typed reads (the query side) and writes (the
//! mutation side) against the entity model, mediating between resource
//! services and the store. Reads return materialized rows or an explicit
//! "absent"; writes return the persisted row or a store error.

use vstd::prelude::*;

use crate::author::{AuthorInfo, ListAuthorsParams};
use crate::entities::{Author, AuthorModel, Gender, Post, PostModel, PostTag, Tag, TagModel};
use crate::schema::SchemaObject;
use crate::store::{
    author_index_of, author_name_taken, author_name_taken_by_other, has_author_id, has_post_id,
    has_post_tag, has_tag_id, Store, StoreModel,
};

verus! {

/// A failure raised by the store itself.
#[derive(Clone, Copy, PartialEq, Eq, Structural, Debug)]
pub enum StoreError {
    /// The table addressed by the operation does not exist (unapplied schema).
    MissingTable(SchemaObject),
    /// A uniqueness constraint rejected the write (duplicate `Author.name`).
    UniqueViolation,
    /// A foreign key rejected the write: the referenced row does not exist.
    ForeignKeyViolation,
    /// The composite primary key rejected the write: the pair already exists.
    PrimaryKeyViolation,
    /// An update addressed a key no row carries.
    RecordNotFound,
    /// The table's key sequence is exhausted.
    IdSpaceExhausted,
}

/// The position of the author row carrying `id` is unique in a well-formed
/// store, because keys ascend strictly.
pub proof fn lemma_author_ids_unique(m: StoreModel, i: int, j: int)
    requires
        m.authors_wf(),
        0 <= i < m.authors.len(),
        0 <= j < m.authors.len(),
        m.authors[i].id == m.authors[j].id,
    ensures
        i == j,
{
    if i < j {
        assert(m.authors[i].id < m.authors[j].id);
    }
    if j < i {
        assert(m.authors[j].id < m.authors[i].id);
    }
}

/// When some row carries `id`, `author_index_of` names a position that does.
pub proof fn lemma_author_index_of(authors: Seq<AuthorModel>, id: i64)
    requires
        has_author_id(authors, id),
    ensures
        0 <= author_index_of(authors, id) < authors.len(),
        authors[author_index_of(authors, id)].id == id,
{
}

/// Appending a row keeps every existing author key present.
pub proof fn lemma_has_author_id_push(authors: Seq<AuthorModel>, a: AuthorModel, id: i64)
    requires
        has_author_id(authors, id),
    ensures
        has_author_id(authors.push(a), id),
{
    let j = author_index_of(authors, id);
    lemma_author_index_of(authors, id);
    assert((authors.push(a)[j]).id == id);
}

/// Replacing a row by one with the same key keeps every author key present.
pub proof fn lemma_has_author_id_update(authors: Seq<AuthorModel>, k: int, a: AuthorModel, id: i64)
    requires
        0 <= k < authors.len(),
        authors[k].id == a.id,
        has_author_id(authors, id),
    ensures
        has_author_id(authors.update(k, a), id),
{
    let j = author_index_of(authors, id);
    lemma_author_index_of(authors, id);
    if j == k {
        assert((authors.update(k, a)[k]).id == id);
    } else {
        assert((authors.update(k, a)[j]).id == id);
    }
}

/// Appending a row keeps every existing post key present.
pub proof fn lemma_has_post_id_push(posts: Seq<PostModel>, p: PostModel, id: i64)
    requires
        has_post_id(posts, id),
    ensures
        has_post_id(posts.push(p), id),
{
    let j = choose|i: int| 0 <= i < posts.len() && (#[trigger] posts[i]).id == id;
    assert((posts.push(p)[j]).id == id);
}

/// Appending a row keeps every existing tag key present.
pub proof fn lemma_has_tag_id_push(tags: Seq<TagModel>, t: TagModel, id: i64)
    requires
        has_tag_id(tags, id),
    ensures
        has_tag_id(tags.push(t), id),
{
    let j = choose|i: int| 0 <= i < tags.len() && (#[trigger] tags[i]).id == id;
    assert((tags.push(t)[j]).id == id);
}

/// What a lookup by key returns: the row carrying `id`, an explicit
/// "absent", or the missing-table error — never a failure for a merely
/// missing row.
pub open spec fn spec_find_author(m: StoreModel, id: i64) -> Result<Option<AuthorModel>, StoreError> {
    if !m.schema.author_table {
        Err(StoreError::MissingTable(SchemaObject::AuthorTable))
    } else if has_author_id(m.authors, id) {
        Ok(Some(m.authors[author_index_of(m.authors, id)]))
    } else {
        Ok(None)
    }
}

/// What a paginated listing returns: the author rows in ascending key
/// order, after skipping `start_id` rows (an offset, not a key filter) and
/// keeping at most `number` rows; an absent bound means unbounded.
pub open spec fn spec_list_authors(
    m: StoreModel,
    start_id: Option<u64>,
    number: Option<u64>,
) -> Result<Seq<AuthorModel>, StoreError> {
    if !m.schema.author_table {
        Err(StoreError::MissingTable(SchemaObject::AuthorTable))
    } else {
        let off = match start_id {
            Some(o) => o as int,
            None => 0,
        };
        let rest = if off <= m.authors.len() {
            m.authors.skip(off)
        } else {
            Seq::empty()
        };
        Ok(
            match number {
                Some(n) => if n as int <= rest.len() {
                    rest.take(n as int)
                } else {
                    rest
                },
                None => rest,
            },
        )
    }
}

/// What creating an author does: refused without the table, on a duplicate
/// name (the uniqueness constraint), or with the key space exhausted;
/// otherwise the row is appended under the next store-assigned key.
pub open spec fn spec_create_author(m: StoreModel, name: Seq<char>, gender: Gender) -> (
    StoreModel,
    Result<AuthorModel, StoreError>,
) {
    if !m.schema.author_table {
        (m, Err(StoreError::MissingTable(SchemaObject::AuthorTable)))
    } else if author_name_taken(m.authors, name) {
        (m, Err(StoreError::UniqueViolation))
    } else if m.next_author_id == i64::MAX {
        (m, Err(StoreError::IdSpaceExhausted))
    } else {
        let a = AuthorModel { id: m.next_author_id, name, gender };
        (
            StoreModel {
                authors: m.authors.push(a),
                next_author_id: (m.next_author_id + 1) as i64,
                ..m
            },
            Ok(a),
        )
    }
}

/// What updating an author does: a full replacement of every non-key field
/// of the row carrying `id`; refused without the table, when no row carries
/// `id` (distinct from "changed nothing"), or when another row already
/// carries `name`.
pub open spec fn spec_update_author(m: StoreModel, id: i64, name: Seq<char>, gender: Gender) -> (
    StoreModel,
    Result<AuthorModel, StoreError>,
) {
    if !m.schema.author_table {
        (m, Err(StoreError::MissingTable(SchemaObject::AuthorTable)))
    } else if !has_author_id(m.authors, id) {
        (m, Err(StoreError::RecordNotFound))
    } else if author_name_taken_by_other(m.authors, id, name) {
        (m, Err(StoreError::UniqueViolation))
    } else {
        let a = AuthorModel { id, name, gender };
        (StoreModel { authors: m.authors.update(author_index_of(m.authors, id), a), ..m }, Ok(a))
    }
}

/// What creating a post does: refused without the table, when `author_id`
/// references no author (referential integrity), or with the key space
/// exhausted.
pub open spec fn spec_create_post(m: StoreModel, title: Seq<char>, text: Seq<char>, author_id: i64) -> (
    StoreModel,
    Result<PostModel, StoreError>,
) {
    if !m.schema.post_table {
        (m, Err(StoreError::MissingTable(SchemaObject::PostTable)))
    } else if !has_author_id(m.authors, author_id) {
        (m, Err(StoreError::ForeignKeyViolation))
    } else if m.next_post_id == i64::MAX {
        (m, Err(StoreError::IdSpaceExhausted))
    } else {
        let p = PostModel { id: m.next_post_id, title, text, author_id };
        (StoreModel { posts: m.posts.push(p), next_post_id: (m.next_post_id + 1) as i64, ..m }, Ok(p))
    }
}

/// What creating a tag does: refused without the table or with the key
/// space exhausted.
pub open spec fn spec_create_tag(m: StoreModel, name: Seq<char>, description: Option<Seq<char>>) -> (
    StoreModel,
    Result<TagModel, StoreError>,
) {
    if !m.schema.tag_table {
        (m, Err(StoreError::MissingTable(SchemaObject::TagTable)))
    } else if m.next_tag_id == i64::MAX {
        (m, Err(StoreError::IdSpaceExhausted))
    } else {
        let t = TagModel { id: m.next_tag_id, name, description };
        (StoreModel { tags: m.tags.push(t), next_tag_id: (m.next_tag_id + 1) as i64, ..m }, Ok(t))
    }
}

/// What associating a post with a tag does: refused without the table, when
/// either key references no row (referential integrity), or when the pair
/// already exists (the composite primary key).
pub open spec fn spec_create_post_tag(m: StoreModel, post_id: i64, tag_id: i64) -> (
    StoreModel,
    Result<PostTag, StoreError>,
) {
    if !m.schema.post_tag_table {
        (m, Err(StoreError::MissingTable(SchemaObject::PostTagTable)))
    } else if !has_post_id(m.posts, post_id) {
        (m, Err(StoreError::ForeignKeyViolation))
    } else if !has_tag_id(m.tags, tag_id) {
        (m, Err(StoreError::ForeignKeyViolation))
    } else if has_post_tag(m.post_tags, post_id, tag_id) {
        (m, Err(StoreError::PrimaryKeyViolation))
    } else {
        let pt = PostTag { post_id, tag_id };
        (StoreModel { post_tags: m.post_tags.push(pt), ..m }, Ok(pt))
    }
}

/// The model of an author-valued result.
pub open spec fn author_result_view(r: Result<Author, StoreError>) -> Result<
    AuthorModel,
    StoreError,
> {
    match r {
        Ok(a) => Ok(a@),
        Err(e) => Err(e),
    }
}

/// The position of the row of `authors` carrying `id`, by linear scan.
fn author_position(authors: &Vec<Author>, id: i64) -> (r: Option<usize>)
    ensures
        match r {
            Some(i) => i < authors@.len() && authors@[i as int]@.id == id,
            None => !has_author_id(authors@.map_values(|a: Author| a@), id),
        },
{
    let mut i: usize = 0;
    while i < authors.len()
        invariant
            i <= authors@.len(),
            forall|k: int| 0 <= k < i ==> (#[trigger] authors@[k])@.id != id,
        decreases authors@.len() - i,
    {
        if authors[i].id == id {
            return Some(i);
        }
        i = i + 1;
    }
    proof {
        let model = authors@.map_values(|a: Author| a@);
        if has_author_id(model, id) {
            let j = author_index_of(model, id);
            lemma_author_index_of(model, id);
            assert(authors@[j]@.id == id);
        }
    }
    None
}

/// The query side: read-only operations.
pub struct Query;

impl Query {
    /// Looks an author up by key. A merely missing row is `Ok(None)`, never
    /// an error.
    pub fn find_by_id(store: &Store, id: i64) -> (r: Result<Option<Author>, StoreError>)
        requires
            store.wf(),
        ensures
            match r {
                Ok(Some(a)) => spec_find_author(store@, id) == Ok::<Option<AuthorModel>, StoreError>(
                    Some(a@),
                ),
                Ok(None) => spec_find_author(store@, id) == Ok::<Option<AuthorModel>, StoreError>(
                    None::<AuthorModel>,
                ),
                Err(e) => spec_find_author(store@, id) == Err::<Option<AuthorModel>, StoreError>(e),
            },
    {
        if !store.schema.author_table {
            return Err(StoreError::MissingTable(SchemaObject::AuthorTable));
        }
        match author_position(&store.authors, id) {
            Some(i) => {
                let found = store.authors[i].duplicate();
                proof {
                    assert(store@.authors[i as int].id == id);
                    assert(has_author_id(store@.authors, id));
                    lemma_author_index_of(store@.authors, id);
                    lemma_author_ids_unique(
                        store@,
                        i as int,
                        author_index_of(store@.authors, id),
                    );
                }
                Ok(Some(found))
            },
            None => Ok(None),
        }
    }

    /// Lists authors in ascending key order, `start_id` rows skipped (an
    /// offset into the result set, not a filter on the key's value) and at
    /// most `number` rows kept; an absent bound means unbounded.
    pub fn list_authors(store: &Store, params: ListAuthorsParams) -> (r: Result<
        Vec<Author>,
        StoreError,
    >)
        requires
            store.wf(),
        ensures
            match r {
                Ok(v) => spec_list_authors(store@, params.start_id, params.number) == Ok::<
                    Seq<AuthorModel>,
                    StoreError,
                >(v@.map_values(|a: Author| a@)),
                Err(e) => spec_list_authors(store@, params.start_id, params.number) == Err::<
                    Seq<AuthorModel>,
                    StoreError,
                >(e),
            },
    {
        if !store.schema.author_table {
            return Err(StoreError::MissingTable(SchemaObject::AuthorTable));
        }
        let len = store.authors.len();
        let start: usize = match params.start_id {
            None => 0,
            Some(off) => if off >= len as u64 {
                len
            } else {
                off as usize
            },
        };
        let end: usize = match params.number {
            None => len,
            Some(n) => if n >= (len - start) as u64 {
                len
            } else {
                start + (n as usize)
            },
        };
        let mut out: Vec<Author> = Vec::new();
        let mut i = start;
        while i < end
            invariant
                store.wf(),
                start <= i <= end <= len,
                len == store@.authors.len(),
                out@.len() == i - start,
                forall|k: int|
                    0 <= k < out@.len() ==> (#[trigger] out@[k])@ == store@.authors[start + k],
            decreases end - i,
        {
            let row = store.authors[i].duplicate();
            out.push(row);
            i = i + 1;
        }
        proof {
            let expected = spec_list_authors(store@, params.start_id, params.number);
            assert(expected is Ok);
            assert(out@.map_values(|a: Author| a@) =~= expected->Ok_0);
        }
        Ok(out)
    }
}

/// The mutation side: construct-and-save operations.
pub struct Mutation;

impl Mutation {
    /// Persists a new author under the next store-assigned key, enforcing
    /// the uniqueness of `name`, and returns the persisted row.
    pub fn create_author(store: &mut Store, info: AuthorInfo) -> (r: Result<Author, StoreError>)
        requires
            old(store).wf(),
        ensures
            final(store).wf(),
            ({
                let (m2, rr) = spec_create_author(old(store)@, info.name@, info.gender);
                final(store)@ == m2 && author_result_view(r) == rr
            }),
    {
        let ghost name0 = info.name@;
        if !store.schema.author_table {
            return Err(StoreError::MissingTable(SchemaObject::AuthorTable));
        }
        let n = store.authors.len();
        let mut i: usize = 0;
        while i < n
            invariant
                store.wf(),
                store@ == old(store)@,
                n == store@.authors.len(),
                i <= n,
                name0 == info.name@,
                forall|k: int| 0 <= k < i ==> (#[trigger] store@.authors[k]).name != name0,
        decreases n - i,
        {
            if store.authors[i].name == info.name {
                proof {
                    assert((store@.authors[i as int]).name == name0);
                    assert(author_name_taken(store@.authors, name0));
                }
                return Err(StoreError::UniqueViolation);
            }
            i = i + 1;
        }
        proof {
            if author_name_taken(store@.authors, name0) {
                let j = choose|k: int|
                    0 <= k < store@.authors.len() && (#[trigger] store@.authors[k]).name == name0;
                assert(store@.authors[j].name == name0);
            }
        }
        if store.next_author_id == i64::MAX {
            return Err(StoreError::IdSpaceExhausted);
        }
        let id = store.next_author_id;
        let row = Author { id, name: info.name, gender: info.gender };
        let out = row.duplicate();
        store.authors.push(row);
        store.next_author_id = id + 1;
        proof {
            let m0 = old(store)@;
            let a = AuthorModel { id: m0.next_author_id, name: name0, gender: info.gender };
            assert(store@.authors =~= m0.authors.push(a));
            assert(store@ == spec_create_author(m0, name0, info.gender).0);
            assert forall|t: int| 0 <= t < store@.posts.len() implies has_author_id(
                store@.authors,
                (#[trigger] store@.posts[t]).author_id,
            ) by {
                assert(has_author_id(m0.authors, m0.posts[t].author_id));
                lemma_has_author_id_push(m0.authors, a, m0.posts[t].author_id);
            }
        }
        Ok(out)
    }

    /// Fully replaces the non-key fields of the author row carrying `id`;
    /// an unknown `id` is a store error, distinct from "changed nothing".
    pub fn update_author(store: &mut Store, id: i64, info: AuthorInfo) -> (r: Result<
        Author,
        StoreError,
    >)
        requires
            old(store).wf(),
        ensures
            final(store).wf(),
            ({
                let (m2, rr) = spec_update_author(old(store)@, id, info.name@, info.gender);
                final(store)@ == m2 && author_result_view(r) == rr
            }),
    {
        let ghost name0 = info.name@;
        if !store.schema.author_table {
            return Err(StoreError::MissingTable(SchemaObject::AuthorTable));
        }
        let pos = match author_position(&store.authors, id) {
            None => {
                return Err(StoreError::RecordNotFound);
            },
            Some(p) => p,
        };
        proof {
            assert(store@.authors[pos as int].id == id);
            assert(has_author_id(store@.authors, id));
        }
        let n = store.authors.len();
        let mut k: usize = 0;
        while k < n
            invariant
                store.wf(),
                store@ == old(store)@,
                n == store@.authors.len(),
                k <= n,
                name0 == info.name@,
                store@.authors[pos as int].id == id,
                has_author_id(store@.authors, id),
                forall|t: int|
                    0 <= t < k ==> !((#[trigger] store@.authors[t]).id != id && store@.authors[t].name
                        == name0),
            decreases n - k,
        {
            if store.authors[k].id != id && store.authors[k].name == info.name {
                proof {
                    assert((store@.authors[k as int]).id != id && store@.authors[k as int].name
                        == name0);
                    assert(author_name_taken_by_other(store@.authors, id, name0));
                }
                return Err(StoreError::UniqueViolation);
            }
            k = k + 1;
        }
        proof {
            if author_name_taken_by_other(store@.authors, id, name0) {
                let j = choose|t: int|
                    0 <= t < store@.authors.len() && (#[trigger] store@.authors[t]).id != id
                        && store@.authors[t].name == name0;
                assert(store@.authors[j].name == name0);
            }
        }
        let row = Author { id, name: info.name, gender: info.gender };
        let out = row.duplicate();
        let slot = &mut store.authors[pos];
        *slot = row;
        proof {
            let m0 = old(store)@;
            let a = AuthorModel { id, name: name0, gender: info.gender };
            lemma_author_index_of(m0.authors, id);
            lemma_author_ids_unique(m0, pos as int, author_index_of(m0.authors, id));
            assert(store@.authors =~= m0.authors.update(pos as int, a));
            assert(store@ == spec_update_author(m0, id, name0, info.gender).0);
            // keys and names stay unique: only one row changed, key kept
            assert forall|t: int, u: int|
                0 <= t < u < store@.authors.len() implies (#[trigger] store@.authors[t]).id < (
            #[trigger] store@.authors[u]).id by {
                assert(m0.authors[t].id < m0.authors[u].id);
                assert(store@.authors[t].id == m0.authors[t].id);
                assert(store@.authors[u].id == m0.authors[u].id);
            }
            assert forall|t: int, u: int|
                0 <= t < u < store@.authors.len() implies (#[trigger] store@.authors[t]).name != (
            #[trigger] store@.authors[u]).name by {
                if t != pos as int && u != pos as int {
                    assert(store@.authors[t] == m0.authors[t]);
                    assert(store@.authors[u] == m0.authors[u]);
                } else if t == pos as int {
                    assert(m0.authors[u].id != id);
                    assert(!(m0.authors[u].id != id && m0.authors[u].name == name0));
                } else {
                    assert(m0.authors[t].id != id);
                    assert(!(m0.authors[t].id != id && m0.authors[t].name == name0));
                }
            }
            // referential integrity: the replaced row keeps its key
            assert forall|t: int| 0 <= t < store@.posts.len() implies has_author_id(
                store@.authors,
                (#[trigger] store@.posts[t]).author_id,
            ) by {
                assert(has_author_id(m0.authors, m0.posts[t].author_id));
                lemma_has_author_id_update(m0.authors, pos as int, a, m0.posts[t].author_id);
            }
        }
        Ok(out)
    }

    /// Persists a new post under the next store-assigned key; a post whose
    /// `author_id` references no author is rejected with a
    /// referential-integrity error.
    pub fn create_post(store: &mut Store, title: String, text: String, author_id: i64) -> (r:
        Result<Post, StoreError>)
        requires
            old(store).wf(),
        ensures
            final(store).wf(),
            ({
                let (m2, rr) = spec_create_post(old(store)@, title@, text@, author_id);
                final(store)@ == m2 && (match r {
                    Ok(p) => rr == Ok::<PostModel, StoreError>(p@),
                    Err(e) => rr == Err::<PostModel, StoreError>(e),
                })
            }),
    {
        if !store.schema.post_table {
            return Err(StoreError::MissingTable(SchemaObject::PostTable));
        }
        match author_position(&store.authors, author_id) {
            None => {
                return Err(StoreError::ForeignKeyViolation);
            },
            Some(p) => {
                proof {
                    assert((store@.authors[p as int]).id == author_id);
                    assert(has_author_id(store@.authors, author_id));
                }
            },
        }
        if store.next_post_id == i64::MAX {
            return Err(StoreError::IdSpaceExhausted);
        }
        let ghost title0 = title@;
        let ghost text0 = text@;
        let id = store.next_post_id;
        let row = Post { id, title, text, author_id };
        let out = Post {
            id,
            title: row.title.clone(),
            text: row.text.clone(),
            author_id,
        };
        store.posts.push(row);
        store.next_post_id = id + 1;
        proof {
            let m0 = old(store)@;
            let p = PostModel { id: m0.next_post_id, title: title0, text: text0, author_id };
            assert(store@.posts =~= m0.posts.push(p));
            assert(store@ == spec_create_post(m0, title0, text0, author_id).0);
            assert forall|t: int| 0 <= t < store@.post_tags.len() implies has_post_id(
                store@.posts,
                (#[trigger] store@.post_tags[t]).post_id,
            ) && has_tag_id(store@.tags, store@.post_tags[t].tag_id) by {
                assert(has_post_id(m0.posts, m0.post_tags[t].post_id));
                lemma_has_post_id_push(m0.posts, p, m0.post_tags[t].post_id);
            }
        }
        Ok(out)
    }

    /// Persists a new tag under the next store-assigned key.
    pub fn create_tag(store: &mut Store, name: String, description: Option<String>) -> (r: Result<
        Tag,
        StoreError,
    >)
        requires
            old(store).wf(),
        ensures
            final(store).wf(),
            ({
                let (m2, rr) = spec_create_tag(
                    old(store)@,
                    name@,
                    match description {
                        Some(ref d) => Some(d@),
                        None => None,
                    },
                );
                final(store)@ == m2 && (match r {
                    Ok(t) => rr == Ok::<TagModel, StoreError>(t@),
                    Err(e) => rr == Err::<TagModel, StoreError>(e),
                })
            }),
    {
        if !store.schema.tag_table {
            return Err(StoreError::MissingTable(SchemaObject::TagTable));
        }
        if store.next_tag_id == i64::MAX {
            return Err(StoreError::IdSpaceExhausted);
        }
        let ghost name0 = name@;
        let ghost desc0: Option<Seq<char>> = match description {
            Some(ref d) => Some(d@),
            None => None,
        };
        let id = store.next_tag_id;
        let out_description = match description {
            Some(ref d) => Some(d.clone()),
            None => None,
        };
        let row = Tag { id, name, description };
        let out = Tag { id, name: row.name.clone(), description: out_description };
        store.tags.push(row);
        store.next_tag_id = id + 1;
        proof {
            let m0 = old(store)@;
            let t = TagModel { id: m0.next_tag_id, name: name0, description: desc0 };
            assert(out@ == t);
            assert(store@.tags =~= m0.tags.push(t));
            assert(store@ == spec_create_tag(m0, name0, desc0).0);
            assert forall|u: int| 0 <= u < store@.post_tags.len() implies has_post_id(
                store@.posts,
                (#[trigger] store@.post_tags[u]).post_id,
            ) && has_tag_id(store@.tags, store@.post_tags[u].tag_id) by {
                assert(has_tag_id(m0.tags, m0.post_tags[u].tag_id));
                lemma_has_tag_id_push(m0.tags, t, m0.post_tags[u].tag_id);
            }
        }
        Ok(out)
    }

    /// Persists a new post-tag association; either key referencing no row is
    /// a referential-integrity error, and a duplicate pair is rejected by
    /// the composite primary key.
    pub fn create_post_tag(store: &mut Store, post_id: i64, tag_id: i64) -> (r: Result<
        PostTag,
        StoreError,
    >)
        requires
            old(store).wf(),
        ensures
            final(store).wf(),
            ({
                let (m2, rr) = spec_create_post_tag(old(store)@, post_id, tag_id);
                final(store)@ == m2 && (match r {
                    Ok(pt) => rr == Ok::<PostTag, StoreError>(pt),
                    Err(e) => rr == Err::<PostTag, StoreError>(e),
                })
            }),
    {
        if !store.schema.post_tag_table {
            return Err(StoreError::MissingTable(SchemaObject::PostTagTable));
        }
        let mut i: usize = 0;
        let np = store.posts.len();
        let mut post_found = false;
        while i < np
            invariant
                store.wf(),
                store@ == old(store)@,
                np == store@.posts.len(),
                i <= np,
                post_found ==> has_post_id(store@.posts, post_id),
                !post_found ==> forall|k: int|
                    0 <= k < i ==> (#[trigger] store@.posts[k]).id != post_id,
            decreases np - i,
        {
            if store.posts[i].id == post_id {
                post_found = true;
                proof {
                    assert(store@.posts[i as int].id == post_id);
                }
            }
            i = i + 1;
        }
        if !post_found {
            return Err(StoreError::ForeignKeyViolation);
        }
        let nt = store.tags.len();
        let mut j: usize = 0;
        let mut tag_found = false;
        while j < nt
            invariant
                store.wf(),
                store@ == old(store)@,
                nt == store@.tags.len(),
                j <= nt,
                tag_found ==> has_tag_id(store@.tags, tag_id),
                !tag_found ==> forall|k: int| 0 <= k < j ==> (#[trigger] store@.tags[k]).id != tag_id,
            decreases nt - j,
        {
            if store.tags[j].id == tag_id {
                tag_found = true;
                proof {
                    assert(store@.tags[j as int].id == tag_id);
                }
            }
            j = j + 1;
        }
        if !tag_found {
            return Err(StoreError::ForeignKeyViolation);
        }
        let npt = store.post_tags.len();
        let mut k: usize = 0;
        while k < npt
            invariant
                store.wf(),
                store@ == old(store)@,
                npt == store@.post_tags.len(),
                k <= npt,
                forall|t: int|
                    0 <= t < k ==> !((#[trigger] store@.post_tags[t]).post_id == post_id
                        && store@.post_tags[t].tag_id == tag_id),
            decreases npt - k,
        {
            if store.post_tags[k].post_id == post_id && store.post_tags[k].tag_id == tag_id {
                return Err(StoreError::PrimaryKeyViolation);
            }
            k = k + 1;
        }
        proof {
            if has_post_tag(store@.post_tags, post_id, tag_id) {
                let t = choose|t: int|
                    0 <= t < store@.post_tags.len() && (#[trigger] store@.post_tags[t]).post_id
                        == post_id && store@.post_tags[t].tag_id == tag_id;
                assert(store@.post_tags[t].post_id == post_id);
            }
        }
        let pair = PostTag { post_id, tag_id };
        store.post_tags.push(pair);
        proof {
            let m0 = old(store)@;
            assert(store@.post_tags =~= m0.post_tags.push(pair));
            assert forall|u: int| 0 <= u < store@.post_tags.len() implies has_post_id(
                store@.posts,
                (#[trigger] store@.post_tags[u]).post_id,
            ) && has_tag_id(store@.tags, store@.post_tags[u].tag_id) by {
                if u < m0.post_tags.len() {
                    assert(has_post_id(m0.posts, m0.post_tags[u].post_id));
                    assert(has_tag_id(m0.tags, m0.post_tags[u].tag_id));
                } else {
                    assert(store@.post_tags[u] == pair);
                }
            }
        }
        Ok(pair)
    }
}

} // verus!
