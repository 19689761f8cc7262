use blog_store::author::{create, delete, list, put, AuthorInfo, ListAuthorsParams};
use blog_store::entities::Gender;
use blog_store::error::Error;
use blog_store::gateway::{Query, StoreError};
use blog_store::migrator::Migrator;
use blog_store::schema::SchemaObject;
use blog_store::store::Store;

fn migrated_store() -> Store {
    let mut store = Store::new();
    Migrator::apply_all(&mut store).unwrap();
    store
}

fn info(name: &str, gender: Gender) -> AuthorInfo {
    AuthorInfo { name: name.to_string(), gender }
}

#[test]
fn create_then_find_returns_the_created_entity() {
    let mut store = migrated_store();
    let created = create(&mut store, info("Jane", Gender::Female)).unwrap();
    assert_eq!(created.id, 1);
    assert_eq!(created.name, "Jane");
    assert_eq!(created.gender, Gender::Female);
    let found = Query::find_by_id(&store, created.id).unwrap();
    assert_eq!(found, Some(created));
}

#[test]
fn find_of_a_missing_row_is_none_not_an_error() {
    let store = migrated_store();
    assert_eq!(Query::find_by_id(&store, 7).unwrap(), None);
}

#[test]
fn duplicate_name_fails_with_a_constraint_error() {
    let mut store = migrated_store();
    create(&mut store, info("Jane", Gender::Female)).unwrap();
    let second = create(&mut store, info("Jane", Gender::Unknown));
    assert_eq!(second, Err(Error::Constraint(StoreError::UniqueViolation)));
    // exactly one row was kept
    assert_eq!(store.authors.len(), 1);
}

#[test]
fn list_uses_offset_and_limit_semantics() {
    let mut store = migrated_store();
    for name in ["a", "b", "c", "d", "e"] {
        create(&mut store, info(name, Gender::Unknown)).unwrap();
    }
    let page = list(
        &store,
        ListAuthorsParams { start_id: Some(2), number: Some(3) },
    )
    .unwrap();
    assert_eq!(page.len(), 3);
    assert_eq!(page[0].id, 3);
    assert_eq!(page[0].name, "c");
    assert_eq!(page[1].id, 4);
    assert_eq!(page[1].name, "d");
    assert_eq!(page[2].id, 5);
    assert_eq!(page[2].name, "e");
}

#[test]
fn list_without_bounds_returns_everything_ascending() {
    let mut store = migrated_store();
    for name in ["x", "y", "z"] {
        create(&mut store, info(name, Gender::Male)).unwrap();
    }
    let all = list(&store, ListAuthorsParams { start_id: None, number: None }).unwrap();
    assert_eq!(all.len(), 3);
    assert!(all[0].id < all[1].id && all[1].id < all[2].id);
}

#[test]
fn list_with_offset_past_the_end_is_empty() {
    let mut store = migrated_store();
    create(&mut store, info("solo", Gender::Unknown)).unwrap();
    let page = list(
        &store,
        ListAuthorsParams { start_id: Some(9), number: None },
    )
    .unwrap();
    assert!(page.is_empty());
}

#[test]
fn update_of_a_missing_id_is_not_found_and_changes_nothing() {
    let mut store = migrated_store();
    create(&mut store, info("Jane", Gender::Female)).unwrap();
    let r = put(&mut store, 42, info("Janet", Gender::Female));
    assert_eq!(r, Err(Error::NotFound { author_id: 42 }));
    assert_eq!(store.authors.len(), 1);
    assert_eq!(store.authors[0].name, "Jane");
}

#[test]
fn update_replaces_both_fields_and_keeps_the_id() {
    let mut store = migrated_store();
    let created = create(&mut store, info("Jane", Gender::Unknown)).unwrap();
    let updated = put(&mut store, created.id as u64, info("Janet", Gender::Female)).unwrap();
    assert_eq!(updated.id, created.id);
    assert_eq!(updated.name, "Janet");
    assert_eq!(updated.gender, Gender::Female);
    let found = Query::find_by_id(&store, created.id).unwrap();
    assert_eq!(found, Some(updated));
}

#[test]
fn update_to_a_taken_name_is_a_constraint_error() {
    let mut store = migrated_store();
    create(&mut store, info("Jane", Gender::Female)).unwrap();
    let other = create(&mut store, info("John", Gender::Male)).unwrap();
    let r = put(&mut store, other.id as u64, info("Jane", Gender::Male));
    assert_eq!(r, Err(Error::Constraint(StoreError::UniqueViolation)));
}

#[test]
fn delete_is_a_known_stub_that_changes_nothing() {
    let mut store = migrated_store();
    let created = create(&mut store, info("Jane", Gender::Female)).unwrap();
    delete(&mut store, created.id as u64);
    assert_eq!(Query::find_by_id(&store, created.id).unwrap(), Some(created));
}

#[test]
fn operations_without_the_schema_report_the_missing_table() {
    let mut store = Store::new();
    let r = create(&mut store, info("Jane", Gender::Female));
    assert_eq!(
        r,
        Err(Error::Internal(StoreError::MissingTable(SchemaObject::AuthorTable)))
    );
    let r = list(&store, ListAuthorsParams { start_id: None, number: None });
    assert_eq!(
        r,
        Err(Error::Internal(StoreError::MissingTable(SchemaObject::AuthorTable)))
    );
}
