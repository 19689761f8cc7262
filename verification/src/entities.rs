//! Typed representations of the entities (Author, Post, Tag and the
//! Post-Tag association) mirroring the schema's final state, together with
//! their mathematical models.

use vstd::prelude::*;

verus! {

/// The closed sum type for an author's gender. The store keeps it as an
/// enumerated type whose values are the strings given by [`gender_value`];
/// no other string is accepted.
#[derive(Clone, Copy, PartialEq, Eq, Structural, Debug)]
pub enum Gender {
    Female,
    Male,
    Unknown,
}

/// The store-side string representation of each gender value.
pub open spec fn gender_value(g: Gender) -> Seq<char> {
    match g {
        Gender::Female => "female"@,
        Gender::Male => "male"@,
        Gender::Unknown => "unknown"@,
    }
}

/// The inverse mapping: which gender a store-side string stands for,
/// `None` for every unmapped string.
pub open spec fn spec_gender_of_value(s: Seq<char>) -> Option<Gender> {
    if s == gender_value(Gender::Female) {
        Some(Gender::Female)
    } else if s == gender_value(Gender::Male) {
        Some(Gender::Male)
    } else if s == gender_value(Gender::Unknown) {
        Some(Gender::Unknown)
    } else {
        None
    }
}

impl Gender {
    /// The string under which this gender is persisted.
    pub fn to_value(&self) -> (r: String)
        ensures
            r@ == gender_value(*self),
    {
        match self {
            Gender::Female => "female".to_owned(),
            Gender::Male => "male".to_owned(),
            Gender::Unknown => "unknown".to_owned(),
        }
    }

    /// Deserialization boundary: accepts exactly the three mapped strings
    /// and rejects every other one.
    pub fn from_value(s: &String) -> (r: Option<Gender>)
        ensures
            r == spec_gender_of_value(s@),
    {
        let female = "female".to_owned();
        let male = "male".to_owned();
        let unknown = "unknown".to_owned();
        if *s == female {
            Some(Gender::Female)
        } else if *s == male {
            Some(Gender::Male)
        } else if *s == unknown {
            Some(Gender::Unknown)
        } else {
            None
        }
    }
}

/// One Author row: store-assigned primary key, globally unique name, gender.
#[derive(PartialEq, Eq, Debug)]
pub struct Author {
    pub id: i64,
    pub name: String,
    pub gender: Gender,
}

/// The mathematical model of an Author row.
pub struct AuthorModel {
    pub id: i64,
    pub name: Seq<char>,
    pub gender: Gender,
}

impl View for Author {
    type V = AuthorModel;

    open spec fn view(&self) -> AuthorModel {
        AuthorModel { id: self.id, name: self.name@, gender: self.gender }
    }
}

impl Author {
    /// A copy of the row, equal to it field by field.
    pub fn duplicate(&self) -> (r: Author)
        ensures
            r == *self,
    {
        Author { id: self.id, name: self.name.clone(), gender: self.gender }
    }
}

/// One Post row; `author_id` must reference an existing Author.
#[derive(PartialEq, Eq, Debug)]
pub struct Post {
    pub id: i64,
    pub title: String,
    pub text: String,
    pub author_id: i64,
}

/// The mathematical model of a Post row.
pub struct PostModel {
    pub id: i64,
    pub title: Seq<char>,
    pub text: Seq<char>,
    pub author_id: i64,
}

impl View for Post {
    type V = PostModel;

    open spec fn view(&self) -> PostModel {
        PostModel { id: self.id, title: self.title@, text: self.text@, author_id: self.author_id }
    }
}

/// One Tag row; the description is optional.
#[derive(PartialEq, Eq, Debug)]
pub struct Tag {
    pub id: i64,
    pub name: String,
    pub description: Option<String>,
}

/// The mathematical model of a Tag row.
pub struct TagModel {
    pub id: i64,
    pub name: Seq<char>,
    pub description: Option<Seq<char>>,
}

impl View for Tag {
    type V = TagModel;

    open spec fn view(&self) -> TagModel {
        TagModel {
            id: self.id,
            name: self.name@,
            description: match self.description {
                Some(ref d) => Some(d@),
                None => None,
            },
        }
    }
}

/// One row of the Post-Tag association: a composite primary key made of two
/// foreign keys, with no independent identity.
#[derive(Clone, Copy, PartialEq, Eq, Structural, Debug)]
pub struct PostTag {
    pub post_id: i64,
    pub tag_id: i64,
}

} // verus!
