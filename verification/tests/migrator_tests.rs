use blog_store::author::AuthorInfo;
use blog_store::entities::Gender;
use blog_store::migrator::{MigrateError, Migration, Migrator};
use blog_store::schema::{SchemaError, SchemaObject, SchemaState};
use blog_store::store::Store;

#[test]
fn fresh_store_has_one_pending_unit() {
    let store = Store::new();
    let pending = Migrator::list_pending(&store);
    assert_eq!(pending.len(), 1);
    assert_eq!(pending[0].name(), "m20240220_180000_create_table");
}

#[test]
fn apply_all_creates_full_schema() {
    let mut store = Store::new();
    let applied = Migrator::apply_all(&mut store).unwrap();
    assert_eq!(applied, 1);
    assert!(store.schema.gender_type);
    assert!(store.schema.author_table);
    assert!(store.schema.post_table);
    assert!(store.schema.author_id_index);
    assert!(store.schema.tag_table);
    assert!(store.schema.post_tag_table);
    assert!(Migrator::list_pending(&store).is_empty());
}

#[test]
fn second_apply_is_a_no_op() {
    let mut store = Store::new();
    Migrator::apply_all(&mut store).unwrap();
    let schema_before = store.schema;
    let applied_again = Migrator::apply_all(&mut store).unwrap();
    assert_eq!(applied_again, 0);
    assert_eq!(store.schema, schema_before);
    assert_eq!(store.applied.len(), 1);
    assert!(Migrator::list_pending(&store).is_empty());
}

#[test]
fn revert_restores_empty_schema() {
    let mut store = Store::new();
    Migrator::apply_all(&mut store).unwrap();
    let reverted = Migrator::revert_last(&mut store).unwrap();
    assert_eq!(reverted, Migration);
    assert_eq!(store.schema, SchemaState::empty());
    assert!(store.applied.is_empty());
    assert_eq!(Migrator::list_pending(&store).len(), 1);
}

#[test]
fn revert_on_pristine_store_is_refused() {
    let mut store = Store::new();
    let r = Migrator::revert_last(&mut store);
    assert_eq!(r, Err(MigrateError::NothingToRevert));
}

#[test]
fn revert_discards_rows_and_resets_keys() {
    let mut store = Store::new();
    Migrator::apply_all(&mut store).unwrap();
    let first = blog_store::author::create(
        &mut store,
        AuthorInfo { name: "Ada".to_string(), gender: Gender::Female },
    )
    .unwrap();
    assert_eq!(first.id, 1);
    Migrator::revert_last(&mut store).unwrap();
    assert!(store.authors.is_empty());
    Migrator::apply_all(&mut store).unwrap();
    let again = blog_store::author::create(
        &mut store,
        AuthorInfo { name: "Ada".to_string(), gender: Gender::Female },
    )
    .unwrap();
    assert_eq!(again.id, 1);
}

#[test]
fn dropping_a_referenced_table_fails_loudly() {
    let mut store = Store::new();
    Migrator::apply_all(&mut store).unwrap();
    let r = store.drop_object(SchemaObject::AuthorTable);
    assert_eq!(
        r,
        Err(SchemaError::DependentExists {
            object: SchemaObject::AuthorTable,
            dependent: SchemaObject::PostTable,
        })
    );
    let r = store.drop_object(SchemaObject::GenderType);
    assert_eq!(
        r,
        Err(SchemaError::DependentExists {
            object: SchemaObject::GenderType,
            dependent: SchemaObject::AuthorTable,
        })
    );
    // the schema kept both objects
    assert!(store.schema.author_table);
    assert!(store.schema.gender_type);
}

#[test]
fn creating_out_of_order_is_refused() {
    let mut store = Store::new();
    let r = store.create_object(SchemaObject::PostTable);
    assert_eq!(r, Err(SchemaError::DependencyMissing(SchemaObject::PostTable)));
    store.create_object(SchemaObject::GenderType).unwrap();
    let r = store.create_object(SchemaObject::GenderType);
    assert_eq!(r, Err(SchemaError::AlreadyExists(SchemaObject::GenderType)));
}

#[test]
fn applying_on_a_dirty_schema_identifies_the_unit() {
    let mut store = Store::new();
    store.create_object(SchemaObject::GenderType).unwrap();
    let r = Migrator::apply_all(&mut store);
    assert_eq!(
        r,
        Err(MigrateError::UnitFailed {
            unit: Migration,
            cause: SchemaError::AlreadyExists(SchemaObject::GenderType),
        })
    );
    // nothing was recorded and the unit's apply touched nothing
    assert!(store.applied.is_empty());
    assert!(store.schema.gender_type);
    assert!(!store.schema.author_table);
}
