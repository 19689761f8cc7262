use blog_store::author::{create, AuthorInfo};
use blog_store::entities::{Gender, PostTag};
use blog_store::gateway::{Mutation, StoreError};
use blog_store::migrator::Migrator;
use blog_store::store::Store;

fn migrated_store() -> Store {
    let mut store = Store::new();
    Migrator::apply_all(&mut store).unwrap();
    store
}

#[test]
fn post_with_a_missing_author_is_a_referential_integrity_error() {
    let mut store = migrated_store();
    let r = Mutation::create_post(&mut store, "t".to_string(), "x".to_string(), 7);
    assert_eq!(r, Err(StoreError::ForeignKeyViolation));
    assert!(store.posts.is_empty());
}

#[test]
fn post_with_an_existing_author_is_persisted() {
    let mut store = migrated_store();
    let author = create(
        &mut store,
        AuthorInfo { name: "Jane".to_string(), gender: Gender::Female },
    )
    .unwrap();
    let post = Mutation::create_post(
        &mut store,
        "title".to_string(),
        "text".to_string(),
        author.id,
    )
    .unwrap();
    assert_eq!(post.id, 1);
    assert_eq!(post.author_id, author.id);
    assert_eq!(post.title, "title");
    assert_eq!(post.text, "text");
}

#[test]
fn association_with_missing_rows_is_a_referential_integrity_error() {
    let mut store = migrated_store();
    let author = create(
        &mut store,
        AuthorInfo { name: "Jane".to_string(), gender: Gender::Female },
    )
    .unwrap();
    let post =
        Mutation::create_post(&mut store, "t".to_string(), "x".to_string(), author.id).unwrap();
    let tag = Mutation::create_tag(&mut store, "rust".to_string(), None).unwrap();
    // missing post
    let r = Mutation::create_post_tag(&mut store, post.id + 1, tag.id);
    assert_eq!(r, Err(StoreError::ForeignKeyViolation));
    // missing tag
    let r = Mutation::create_post_tag(&mut store, post.id, tag.id + 1);
    assert_eq!(r, Err(StoreError::ForeignKeyViolation));
    assert!(store.post_tags.is_empty());
}

#[test]
fn association_pairs_form_a_primary_key() {
    let mut store = migrated_store();
    let author = create(
        &mut store,
        AuthorInfo { name: "Jane".to_string(), gender: Gender::Female },
    )
    .unwrap();
    let post =
        Mutation::create_post(&mut store, "t".to_string(), "x".to_string(), author.id).unwrap();
    let tag = Mutation::create_tag(&mut store, "rust".to_string(), None).unwrap();
    let pair = Mutation::create_post_tag(&mut store, post.id, tag.id).unwrap();
    assert_eq!(pair, PostTag { post_id: post.id, tag_id: tag.id });
    let again = Mutation::create_post_tag(&mut store, post.id, tag.id);
    assert_eq!(again, Err(StoreError::PrimaryKeyViolation));
    assert_eq!(store.post_tags.len(), 1);
}

#[test]
fn tags_may_omit_the_description() {
    let mut store = migrated_store();
    let bare = Mutation::create_tag(&mut store, "rust".to_string(), None).unwrap();
    assert_eq!(bare.id, 1);
    assert_eq!(bare.description, None);
    let described = Mutation::create_tag(
        &mut store,
        "verus".to_string(),
        Some("verified".to_string()),
    )
    .unwrap();
    assert_eq!(described.id, 2);
    assert_eq!(described.description, Some("verified".to_string()));
}

#[test]
fn gender_maps_to_its_store_value_and_back() {
    for g in [Gender::Female, Gender::Male, Gender::Unknown] {
        let value = g.to_value();
        assert_eq!(Gender::from_value(&value), Some(g));
    }
    assert_eq!(Gender::from_value(&"female".to_string()), Some(Gender::Female));
    assert_eq!(Gender::from_value(&"male".to_string()), Some(Gender::Male));
    assert_eq!(Gender::from_value(&"unknown".to_string()), Some(Gender::Unknown));
    // unmapped strings are rejected at the deserialization boundary
    assert_eq!(Gender::from_value(&"other".to_string()), None);
    assert_eq!(Gender::from_value(&"Female".to_string()), None);
    assert_eq!(Gender::from_value(&"".to_string()), None);
}
