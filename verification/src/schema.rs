//! The relational schema as a value: which schema objects (tables, the
//! gender enumeration type, the foreign-key index) are present, which
//! objects each one depends on, and the errors a schema edit can raise.

use vstd::prelude::*;

verus! {

/// Every schema object the migration catalog ever creates or drops.
#[derive(Clone, Copy, PartialEq, Eq, Structural, Debug)]
pub enum SchemaObject {
    /// The store-native enumeration type behind `Author.gender`.
    GenderType,
    /// The `author` table (unique name, gender column of the enumerated type).
    AuthorTable,
    /// The `post` table, with a foreign key into `author`.
    PostTable,
    /// The index on `post.author_id`.
    AuthorIdIndex,
    /// The `tag` table.
    TagTable,
    /// The `post_tag` association table, with foreign keys into `post` and `tag`.
    PostTagTable,
}

/// Which schema objects currently exist in the store.
#[derive(Clone, Copy, PartialEq, Eq, Structural, Debug)]
pub struct SchemaState {
    pub gender_type: bool,
    pub author_table: bool,
    pub post_table: bool,
    pub author_id_index: bool,
    pub tag_table: bool,
    pub post_tag_table: bool,
}

impl SchemaState {
    /// The empty schema: no tables, no types, no indexes.
    pub open spec fn spec_empty() -> SchemaState {
        SchemaState {
            gender_type: false,
            author_table: false,
            post_table: false,
            author_id_index: false,
            tag_table: false,
            post_tag_table: false,
        }
    }

    /// The schema's final state: every object present.
    pub open spec fn spec_full() -> SchemaState {
        SchemaState {
            gender_type: true,
            author_table: true,
            post_table: true,
            author_id_index: true,
            tag_table: true,
            post_tag_table: true,
        }
    }

    pub open spec fn spec_present(self, o: SchemaObject) -> bool {
        match o {
            SchemaObject::GenderType => self.gender_type,
            SchemaObject::AuthorTable => self.author_table,
            SchemaObject::PostTable => self.post_table,
            SchemaObject::AuthorIdIndex => self.author_id_index,
            SchemaObject::TagTable => self.tag_table,
            SchemaObject::PostTagTable => self.post_tag_table,
        }
    }

    pub fn empty() -> (r: SchemaState)
        ensures
            r == SchemaState::spec_empty(),
    {
        SchemaState {
            gender_type: false,
            author_table: false,
            post_table: false,
            author_id_index: false,
            tag_table: false,
            post_tag_table: false,
        }
    }

    pub fn present(&self, o: SchemaObject) -> (r: bool)
        ensures
            r == self.spec_present(o),
    {
        match o {
            SchemaObject::GenderType => self.gender_type,
            SchemaObject::AuthorTable => self.author_table,
            SchemaObject::PostTable => self.post_table,
            SchemaObject::AuthorIdIndex => self.author_id_index,
            SchemaObject::TagTable => self.tag_table,
            SchemaObject::PostTagTable => self.post_tag_table,
        }
    }
}

/// Whether everything `o` depends on is already present: a foreign key needs
/// the referenced table, a column of an enumerated type needs that type, and
/// an index needs its table.
pub open spec fn spec_deps_present(s: SchemaState, o: SchemaObject) -> bool {
    match o {
        SchemaObject::GenderType => true,
        SchemaObject::AuthorTable => s.gender_type,
        SchemaObject::PostTable => s.author_table,
        SchemaObject::AuthorIdIndex => s.post_table,
        SchemaObject::TagTable => true,
        SchemaObject::PostTagTable => s.post_table && s.tag_table,
    }
}

/// The object that blocks dropping `o`, if any: a table whose foreign key
/// still references `o`, or a table still using the enumerated type.
/// Dropping a referenced object while such a dependent exists must fail
/// loudly, never silently cascade. An index never blocks its table: it is
/// dropped together with it.
pub open spec fn spec_drop_blocker(s: SchemaState, o: SchemaObject) -> Option<SchemaObject> {
    match o {
        SchemaObject::GenderType => if s.author_table {
            Some(SchemaObject::AuthorTable)
        } else {
            None
        },
        SchemaObject::AuthorTable => if s.post_table {
            Some(SchemaObject::PostTable)
        } else {
            None
        },
        SchemaObject::PostTable => if s.post_tag_table {
            Some(SchemaObject::PostTagTable)
        } else {
            None
        },
        SchemaObject::AuthorIdIndex => None,
        SchemaObject::TagTable => if s.post_tag_table {
            Some(SchemaObject::PostTagTable)
        } else {
            None
        },
        SchemaObject::PostTagTable => None,
    }
}

/// A failed schema edit, with the offending object identified.
#[derive(Clone, Copy, PartialEq, Eq, Structural, Debug)]
pub enum SchemaError {
    /// Creation refused: the object already exists.
    AlreadyExists(SchemaObject),
    /// Creation refused: something the object depends on is missing.
    DependencyMissing(SchemaObject),
    /// Drop refused: the object does not exist.
    NotPresent(SchemaObject),
    /// Drop refused: a dependent still references the object.
    DependentExists { object: SchemaObject, dependent: SchemaObject },
}

} // verus!
