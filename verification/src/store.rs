//! The persistent store as a verified model: the schema state, the
//! applied-units record, and one row collection per table, together with the
//! well-formedness invariant that every operation preserves.

use vstd::prelude::*;

use crate::entities::{Author, AuthorModel, Post, PostModel, PostTag, Tag, TagModel};
use crate::migrator::{schema_at, spec_catalog, Migration};
use crate::schema::{spec_deps_present, spec_drop_blocker, SchemaError, SchemaObject, SchemaState};

verus! {

/// The store: schema objects present, the ledger of applied migration
/// units, the rows of each table, and the next auto-assigned key of each
/// table that has one.
pub struct Store {
    pub schema: SchemaState,
    pub applied: Vec<Migration>,
    pub authors: Vec<Author>,
    pub posts: Vec<Post>,
    pub tags: Vec<Tag>,
    pub post_tags: Vec<PostTag>,
    pub next_author_id: i64,
    pub next_post_id: i64,
    pub next_tag_id: i64,
}

/// The mathematical model of the store.
#[verifier::ext_equal]
pub struct StoreModel {
    pub schema: SchemaState,
    pub applied: Seq<Migration>,
    pub authors: Seq<AuthorModel>,
    pub posts: Seq<PostModel>,
    pub tags: Seq<TagModel>,
    pub post_tags: Seq<PostTag>,
    pub next_author_id: i64,
    pub next_post_id: i64,
    pub next_tag_id: i64,
}

impl View for Store {
    type V = StoreModel;

    open spec fn view(&self) -> StoreModel {
        StoreModel {
            schema: self.schema,
            applied: self.applied@,
            authors: self.authors@.map_values(|a: Author| a@),
            posts: self.posts@.map_values(|p: Post| p@),
            tags: self.tags@.map_values(|t: Tag| t@),
            post_tags: self.post_tags@,
            next_author_id: self.next_author_id,
            next_post_id: self.next_post_id,
            next_tag_id: self.next_tag_id,
        }
    }
}

/// Whether some author row carries the key `id`.
pub open spec fn has_author_id(authors: Seq<AuthorModel>, id: i64) -> bool {
    exists|i: int| 0 <= i < authors.len() && (#[trigger] authors[i]).id == id
}

/// The position of the author row carrying `id`; meaningful when
/// `has_author_id` holds (keys are unique in a well-formed store).
pub open spec fn author_index_of(authors: Seq<AuthorModel>, id: i64) -> int {
    choose|i: int| 0 <= i < authors.len() && (#[trigger] authors[i]).id == id
}

/// Whether some author row already carries the name `name`.
pub open spec fn author_name_taken(authors: Seq<AuthorModel>, name: Seq<char>) -> bool {
    exists|i: int| 0 <= i < authors.len() && (#[trigger] authors[i]).name == name
}

/// Whether an author row other than the one keyed `id` carries `name`.
pub open spec fn author_name_taken_by_other(
    authors: Seq<AuthorModel>,
    id: i64,
    name: Seq<char>,
) -> bool {
    exists|i: int|
        0 <= i < authors.len() && (#[trigger] authors[i]).id != id && authors[i].name == name
}

/// Whether some post row carries the key `id`.
pub open spec fn has_post_id(posts: Seq<PostModel>, id: i64) -> bool {
    exists|i: int| 0 <= i < posts.len() && (#[trigger] posts[i]).id == id
}

/// Whether some tag row carries the key `id`.
pub open spec fn has_tag_id(tags: Seq<TagModel>, id: i64) -> bool {
    exists|i: int| 0 <= i < tags.len() && (#[trigger] tags[i]).id == id
}

/// Whether the association already holds the pair (`post_id`, `tag_id`).
pub open spec fn has_post_tag(post_tags: Seq<PostTag>, post_id: i64, tag_id: i64) -> bool {
    exists|i: int|
        0 <= i < post_tags.len() && (#[trigger] post_tags[i]).post_id == post_id
            && post_tags[i].tag_id == tag_id
}

impl StoreModel {
    /// A store nothing has ever been applied to: empty schema, empty
    /// ledger, no rows, every key sequence at its start.
    pub open spec fn init() -> StoreModel {
        StoreModel {
            schema: SchemaState::spec_empty(),
            applied: Seq::empty(),
            authors: Seq::empty(),
            posts: Seq::empty(),
            tags: Seq::empty(),
            post_tags: Seq::empty(),
            next_author_id: 1,
            next_post_id: 1,
            next_tag_id: 1,
        }
    }

    /// Author table invariant: keys ascending (hence unique), below the next
    /// key, names globally unique, and no rows without the table.
    pub open spec fn authors_wf(self) -> bool {
        &&& forall|i: int|
            0 <= i < self.authors.len() ==> 1 <= (#[trigger] self.authors[i]).id
                < self.next_author_id
        &&& forall|i: int, j: int|
            0 <= i < j < self.authors.len() ==> (#[trigger] self.authors[i]).id < (
            #[trigger] self.authors[j]).id
        &&& forall|i: int, j: int|
            0 <= i < j < self.authors.len() ==> (#[trigger] self.authors[i]).name != (
            #[trigger] self.authors[j]).name
        &&& (!self.schema.author_table ==> self.authors.len() == 0 && self.next_author_id == 1)
        &&& self.next_author_id >= 1
    }

    /// Post table invariant: keys ascending and below the next key, every
    /// `author_id` referencing an existing author, no rows without the table.
    pub open spec fn posts_wf(self) -> bool {
        &&& forall|i: int|
            0 <= i < self.posts.len() ==> 1 <= (#[trigger] self.posts[i]).id < self.next_post_id
        &&& forall|i: int, j: int|
            0 <= i < j < self.posts.len() ==> (#[trigger] self.posts[i]).id < (
            #[trigger] self.posts[j]).id
        &&& forall|i: int|
            0 <= i < self.posts.len() ==> has_author_id(
                self.authors,
                (#[trigger] self.posts[i]).author_id,
            )
        &&& (!self.schema.post_table ==> self.posts.len() == 0 && self.next_post_id == 1)
        &&& self.next_post_id >= 1
    }

    /// Tag table invariant: keys ascending and below the next key, no rows
    /// without the table.
    pub open spec fn tags_wf(self) -> bool {
        &&& forall|i: int|
            0 <= i < self.tags.len() ==> 1 <= (#[trigger] self.tags[i]).id < self.next_tag_id
        &&& forall|i: int, j: int|
            0 <= i < j < self.tags.len() ==> (#[trigger] self.tags[i]).id < (
            #[trigger] self.tags[j]).id
        &&& (!self.schema.tag_table ==> self.tags.len() == 0 && self.next_tag_id == 1)
        &&& self.next_tag_id >= 1
    }

    /// Association invariant: pairs distinct (the composite primary key),
    /// both keys referencing existing rows, no rows without the table.
    pub open spec fn post_tags_wf(self) -> bool {
        &&& forall|i: int, j: int|
            0 <= i < j < self.post_tags.len() ==> (#[trigger] self.post_tags[i]) != (
            #[trigger] self.post_tags[j])
        &&& forall|i: int|
            0 <= i < self.post_tags.len() ==> has_post_id(
                self.posts,
                (#[trigger] self.post_tags[i]).post_id,
            ) && has_tag_id(self.tags, self.post_tags[i].tag_id)
        &&& (!self.schema.post_tag_table ==> self.post_tags.len() == 0)
    }

    /// The applied-units record is always the catalog's prefix, and the
    /// schema is exactly the state those units produce.
    pub open spec fn ledger_wf(self) -> bool {
        &&& self.applied.len() <= spec_catalog().len()
        &&& self.applied == spec_catalog().take(self.applied.len() as int)
        &&& self.schema == schema_at(self.applied.len() as int)
    }

    /// The store's full well-formedness invariant.
    pub open spec fn wf(self) -> bool {
        &&& self.authors_wf()
        &&& self.posts_wf()
        &&& self.tags_wf()
        &&& self.post_tags_wf()
        &&& self.ledger_wf()
    }
}

/// The schema state after creating `o`.
pub open spec fn spec_set_present(s: SchemaState, o: SchemaObject) -> SchemaState {
    match o {
        SchemaObject::GenderType => SchemaState { gender_type: true, ..s },
        SchemaObject::AuthorTable => SchemaState { author_table: true, ..s },
        SchemaObject::PostTable => SchemaState { post_table: true, ..s },
        SchemaObject::AuthorIdIndex => SchemaState { author_id_index: true, ..s },
        SchemaObject::TagTable => SchemaState { tag_table: true, ..s },
        SchemaObject::PostTagTable => SchemaState { post_tag_table: true, ..s },
    }
}

/// What creating `o` does to the store: refused if `o` exists or a
/// dependency is missing, otherwise `o` becomes present and nothing else
/// changes.
pub open spec fn spec_create_object(m: StoreModel, o: SchemaObject) -> (StoreModel, Result<
    (),
    SchemaError,
>) {
    if m.schema.spec_present(o) {
        (m, Err(SchemaError::AlreadyExists(o)))
    } else if !spec_deps_present(m.schema, o) {
        (m, Err(SchemaError::DependencyMissing(o)))
    } else {
        (StoreModel { schema: spec_set_present(m.schema, o), ..m }, Ok(()))
    }
}

/// The store after dropping `o`: the object gone, its rows gone, its key
/// sequence reset; dropping a table also drops the table's index.
pub open spec fn spec_drop_cleared(m: StoreModel, o: SchemaObject) -> StoreModel {
    match o {
        SchemaObject::GenderType => StoreModel {
            schema: SchemaState { gender_type: false, ..m.schema },
            ..m
        },
        SchemaObject::AuthorTable => StoreModel {
            schema: SchemaState { author_table: false, ..m.schema },
            authors: Seq::empty(),
            next_author_id: 1,
            ..m
        },
        SchemaObject::PostTable => StoreModel {
            schema: SchemaState { post_table: false, author_id_index: false, ..m.schema },
            posts: Seq::empty(),
            next_post_id: 1,
            ..m
        },
        SchemaObject::AuthorIdIndex => StoreModel {
            schema: SchemaState { author_id_index: false, ..m.schema },
            ..m
        },
        SchemaObject::TagTable => StoreModel {
            schema: SchemaState { tag_table: false, ..m.schema },
            tags: Seq::empty(),
            next_tag_id: 1,
            ..m
        },
        SchemaObject::PostTagTable => StoreModel {
            schema: SchemaState { post_tag_table: false, ..m.schema },
            post_tags: Seq::empty(),
            ..m
        },
    }
}

/// What dropping `o` does to the store: refused if `o` is absent or a
/// dependent still references it, otherwise `o` and its rows are gone.
pub open spec fn spec_drop_object(m: StoreModel, o: SchemaObject) -> (StoreModel, Result<
    (),
    SchemaError,
>) {
    if !m.schema.spec_present(o) {
        (m, Err(SchemaError::NotPresent(o)))
    } else {
        match spec_drop_blocker(m.schema, o) {
            Some(dep) => (m, Err(SchemaError::DependentExists { object: o, dependent: dep })),
            None => (spec_drop_cleared(m, o), Ok(())),
        }
    }
}

impl Store {
    pub open spec fn wf(&self) -> bool {
        self@.wf()
    }

    /// A store nothing has ever been applied to.
    pub fn new() -> (r: Store)
        ensures
            r@ == StoreModel::init(),
            r.wf(),
    {
        let store = Store {
            schema: SchemaState::empty(),
            applied: Vec::new(),
            authors: Vec::new(),
            posts: Vec::new(),
            tags: Vec::new(),
            post_tags: Vec::new(),
            next_author_id: 1,
            next_post_id: 1,
            next_tag_id: 1,
        };
        proof {
            assert(store.authors@.map_values(|a: Author| a@) =~= Seq::<AuthorModel>::empty());
            assert(store.posts@.map_values(|p: Post| p@) =~= Seq::<PostModel>::empty());
            assert(store.tags@.map_values(|t: Tag| t@) =~= Seq::<TagModel>::empty());
            assert(store@ == StoreModel::init());
            assert(store@.applied =~= spec_catalog().take(0));
        }
        store
    }

    /// Creates the schema object `o`: refused if it already exists or if
    /// something it depends on is missing. Leaves every row untouched.
    pub fn create_object(&mut self, o: SchemaObject) -> (r: Result<(), SchemaError>)
        ensures
            ({
                let (m2, rr) = spec_create_object(old(self)@, o);
                final(self)@ == m2 && r == rr
            }),
    {
        if self.schema.present(o) {
            return Err(SchemaError::AlreadyExists(o));
        }
        let deps_ok = match o {
            SchemaObject::GenderType => true,
            SchemaObject::AuthorTable => self.schema.gender_type,
            SchemaObject::PostTable => self.schema.author_table,
            SchemaObject::AuthorIdIndex => self.schema.post_table,
            SchemaObject::TagTable => true,
            SchemaObject::PostTagTable => self.schema.post_table && self.schema.tag_table,
        };
        if !deps_ok {
            return Err(SchemaError::DependencyMissing(o));
        }
        match o {
            SchemaObject::GenderType => {
                self.schema.gender_type = true;
            },
            SchemaObject::AuthorTable => {
                self.schema.author_table = true;
            },
            SchemaObject::PostTable => {
                self.schema.post_table = true;
            },
            SchemaObject::AuthorIdIndex => {
                self.schema.author_id_index = true;
            },
            SchemaObject::TagTable => {
                self.schema.tag_table = true;
            },
            SchemaObject::PostTagTable => {
                self.schema.post_tag_table = true;
            },
        }
        Ok(())
    }

    /// Drops the schema object `o`: refused if it is absent, or — loudly,
    /// never as a silent cascade — if a dependent foreign key or column
    /// still references it. Dropping a table discards its rows and resets
    /// its key sequence; a table's index goes down with the table.
    pub fn drop_object(&mut self, o: SchemaObject) -> (r: Result<(), SchemaError>)
        ensures
            ({
                let (m2, rr) = spec_drop_object(old(self)@, o);
                final(self)@ == m2 && r == rr
            }),
    {
        if !self.schema.present(o) {
            return Err(SchemaError::NotPresent(o));
        }
        let blocker = match o {
            SchemaObject::GenderType => if self.schema.author_table {
                Some(SchemaObject::AuthorTable)
            } else {
                None
            },
            SchemaObject::AuthorTable => if self.schema.post_table {
                Some(SchemaObject::PostTable)
            } else {
                None
            },
            SchemaObject::PostTable => if self.schema.post_tag_table {
                Some(SchemaObject::PostTagTable)
            } else {
                None
            },
            SchemaObject::AuthorIdIndex => None,
            SchemaObject::TagTable => if self.schema.post_tag_table {
                Some(SchemaObject::PostTagTable)
            } else {
                None
            },
            SchemaObject::PostTagTable => None,
        };
        if let Some(dep) = blocker {
            return Err(SchemaError::DependentExists { object: o, dependent: dep });
        }
        match o {
            SchemaObject::GenderType => {
                self.schema.gender_type = false;
            },
            SchemaObject::AuthorTable => {
                self.schema.author_table = false;
                self.authors = Vec::new();
                self.next_author_id = 1;
            },
            SchemaObject::PostTable => {
                self.schema.post_table = false;
                self.schema.author_id_index = false;
                self.posts = Vec::new();
                self.next_post_id = 1;
            },
            SchemaObject::AuthorIdIndex => {
                self.schema.author_id_index = false;
            },
            SchemaObject::TagTable => {
                self.schema.tag_table = false;
                self.tags = Vec::new();
                self.next_tag_id = 1;
            },
            SchemaObject::PostTagTable => {
                self.schema.post_tag_table = false;
                self.post_tags = Vec::new();
            },
        }
        proof {
            assert(Seq::<Author>::empty().map_values(|a: Author| a@) =~= Seq::<
                AuthorModel,
            >::empty());
            assert(Seq::<Post>::empty().map_values(|p: Post| p@) =~= Seq::<PostModel>::empty());
            assert(Seq::<Tag>::empty().map_values(|t: Tag| t@) =~= Seq::<TagModel>::empty());
        }
        Ok(())
    }
}

} // verus!
