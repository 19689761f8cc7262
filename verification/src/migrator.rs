//! The schema catalog: a static, ordered list of named, reversible
//! migration units, and the engine that applies and reverts them against a
//! store while keeping the applied-units record.

use vstd::prelude::*;

use crate::schema::{SchemaError, SchemaObject, SchemaState};
use crate::store::{Store, StoreModel};

verus! {

/// The catalog's single unit: it establishes the schema's final state — the
/// gender enumeration type, then `author` (unique name), then `post` with
/// its foreign key into `author` and the index on `post.author_id`, then
/// `tag`, then the `post_tag` association. Creation order matters: a foreign
/// key requires the referenced table to exist first.
#[derive(Clone, Copy, PartialEq, Eq, Structural, Debug)]
pub struct Migration;

/// The full ordered unit list.
pub open spec fn spec_catalog() -> Seq<Migration> {
    seq![Migration]
}

/// The schema state after the catalog's first `n` units: empty before any,
/// the final state from the first unit on.
pub open spec fn schema_at(n: int) -> SchemaState {
    if n <= 0 {
        SchemaState::spec_empty()
    } else {
        SchemaState::spec_full()
    }
}

/// What applying the unit does: atomic relative to the store — refused,
/// with the store untouched, if any of its objects already exists (the
/// first such object in creation order is reported); otherwise every object
/// becomes present and no row changes.
pub open spec fn spec_up(m: StoreModel) -> (StoreModel, Result<(), SchemaError>) {
    if m.schema.gender_type {
        (m, Err(SchemaError::AlreadyExists(SchemaObject::GenderType)))
    } else if m.schema.author_table {
        (m, Err(SchemaError::AlreadyExists(SchemaObject::AuthorTable)))
    } else if m.schema.post_table {
        (m, Err(SchemaError::AlreadyExists(SchemaObject::PostTable)))
    } else if m.schema.author_id_index {
        (m, Err(SchemaError::AlreadyExists(SchemaObject::AuthorIdIndex)))
    } else if m.schema.tag_table {
        (m, Err(SchemaError::AlreadyExists(SchemaObject::TagTable)))
    } else if m.schema.post_tag_table {
        (m, Err(SchemaError::AlreadyExists(SchemaObject::PostTagTable)))
    } else {
        (StoreModel { schema: SchemaState::spec_full(), ..m }, Ok(()))
    }
}

/// What reverting the unit does: atomic — refused, with the store
/// untouched, if any object it must drop is already absent (the first such
/// object in drop order is reported); otherwise the schema is empty again,
/// every row is gone and every key sequence is reset. Drop order is the
/// strict reverse of creation order: the association first, then dependent
/// tables, then referenced tables, then the enumeration type.
pub open spec fn spec_down(m: StoreModel) -> (StoreModel, Result<(), SchemaError>) {
    if !m.schema.post_tag_table {
        (m, Err(SchemaError::NotPresent(SchemaObject::PostTagTable)))
    } else if !m.schema.post_table {
        (m, Err(SchemaError::NotPresent(SchemaObject::PostTable)))
    } else if !m.schema.author_table {
        (m, Err(SchemaError::NotPresent(SchemaObject::AuthorTable)))
    } else if !m.schema.gender_type {
        (m, Err(SchemaError::NotPresent(SchemaObject::GenderType)))
    } else if !m.schema.tag_table {
        (m, Err(SchemaError::NotPresent(SchemaObject::TagTable)))
    } else {
        (StoreModel { applied: m.applied, ..StoreModel::init() }, Ok(()))
    }
}

impl Migration {
    /// The unit's stable identifier.
    pub fn name(&self) -> (r: String)
        ensures
            r@ == "m20240220_180000_create_table"@,
    {
        "m20240220_180000_create_table".to_owned()
    }

    /// Applies the unit's forward operation. See [`spec_up`].
    pub fn up(&self, store: &mut Store) -> (r: Result<(), SchemaError>)
        ensures
            ({
                let (m2, rr) = spec_up(old(store)@);
                final(store)@ == m2 && r == rr
            }),
    {
        if store.schema.gender_type {
            return Err(SchemaError::AlreadyExists(SchemaObject::GenderType));
        }
        if store.schema.author_table {
            return Err(SchemaError::AlreadyExists(SchemaObject::AuthorTable));
        }
        if store.schema.post_table {
            return Err(SchemaError::AlreadyExists(SchemaObject::PostTable));
        }
        if store.schema.author_id_index {
            return Err(SchemaError::AlreadyExists(SchemaObject::AuthorIdIndex));
        }
        if store.schema.tag_table {
            return Err(SchemaError::AlreadyExists(SchemaObject::TagTable));
        }
        if store.schema.post_tag_table {
            return Err(SchemaError::AlreadyExists(SchemaObject::PostTagTable));
        }
        match store.create_object(SchemaObject::GenderType) {
            Ok(()) => {},
            Err(e) => {
                return Err(e);
            },
        }
        match store.create_object(SchemaObject::AuthorTable) {
            Ok(()) => {},
            Err(e) => {
                return Err(e);
            },
        }
        match store.create_object(SchemaObject::PostTable) {
            Ok(()) => {},
            Err(e) => {
                return Err(e);
            },
        }
        match store.create_object(SchemaObject::AuthorIdIndex) {
            Ok(()) => {},
            Err(e) => {
                return Err(e);
            },
        }
        match store.create_object(SchemaObject::TagTable) {
            Ok(()) => {},
            Err(e) => {
                return Err(e);
            },
        }
        match store.create_object(SchemaObject::PostTagTable) {
            Ok(()) => {},
            Err(e) => {
                return Err(e);
            },
        }
        Ok(())
    }

    /// Applies the unit's backward operation. See [`spec_down`].
    pub fn down(&self, store: &mut Store) -> (r: Result<(), SchemaError>)
        ensures
            ({
                let (m2, rr) = spec_down(old(store)@);
                final(store)@ == m2 && r == rr
            }),
    {
        if !store.schema.post_tag_table {
            return Err(SchemaError::NotPresent(SchemaObject::PostTagTable));
        }
        if !store.schema.post_table {
            return Err(SchemaError::NotPresent(SchemaObject::PostTable));
        }
        if !store.schema.author_table {
            return Err(SchemaError::NotPresent(SchemaObject::AuthorTable));
        }
        if !store.schema.gender_type {
            return Err(SchemaError::NotPresent(SchemaObject::GenderType));
        }
        if !store.schema.tag_table {
            return Err(SchemaError::NotPresent(SchemaObject::TagTable));
        }
        match store.drop_object(SchemaObject::PostTagTable) {
            Ok(()) => {},
            Err(e) => {
                return Err(e);
            },
        }
        match store.drop_object(SchemaObject::PostTable) {
            Ok(()) => {},
            Err(e) => {
                return Err(e);
            },
        }
        match store.drop_object(SchemaObject::AuthorTable) {
            Ok(()) => {},
            Err(e) => {
                return Err(e);
            },
        }
        match store.drop_object(SchemaObject::GenderType) {
            Ok(()) => {},
            Err(e) => {
                return Err(e);
            },
        }
        match store.drop_object(SchemaObject::TagTable) {
            Ok(()) => {},
            Err(e) => {
                return Err(e);
            },
        }
        Ok(())
    }
}

/// A failed engine operation.
#[derive(Clone, Copy, PartialEq, Eq, Structural, Debug)]
pub enum MigrateError {
    /// A unit's apply or revert failed; the offending unit is identified
    /// and units already committed stay committed.
    UnitFailed { unit: Migration, cause: SchemaError },
    /// Revert requested on a store with nothing applied.
    NothingToRevert,
}

/// The ordered subsequence of catalog units not yet applied.
pub open spec fn spec_pending(m: StoreModel) -> Seq<Migration> {
    if m.applied.len() <= spec_catalog().len() {
        spec_catalog().skip(m.applied.len() as int)
    } else {
        Seq::empty()
    }
}

/// The store after applying every pending unit in catalog order.
pub open spec fn spec_apply_all(m: StoreModel) -> StoreModel {
    if m.applied.len() < spec_catalog().len() {
        let (m2, r) = spec_up(m);
        if r is Ok {
            StoreModel {
                applied: m2.applied.push(spec_catalog()[m.applied.len() as int]),
                ..m2
            }
        } else {
            m
        }
    } else {
        m
    }
}

/// The store after reverting the most recently applied unit, and the
/// outcome of doing so.
pub open spec fn spec_revert_last(m: StoreModel) -> (StoreModel, Result<
    Migration,
    MigrateError,
>) {
    if m.applied.len() == 0 {
        (m, Err(MigrateError::NothingToRevert))
    } else {
        let unit = m.applied.last();
        let (m2, r) = spec_down(m);
        match r {
            Ok(()) => (StoreModel { applied: m2.applied.drop_last(), ..m2 }, Ok(unit)),
            Err(e) => (m, Err(MigrateError::UnitFailed { unit, cause: e })),
        }
    }
}

/// The store after reverting every applied unit, most recent first.
pub open spec fn spec_revert_all(m: StoreModel) -> StoreModel
    decreases m.applied.len(),
{
    if m.applied.len() == 0 {
        m
    } else {
        let (m2, r) = spec_revert_last(m);
        if r is Ok && m2.applied.len() < m.applied.len() {
            spec_revert_all(m2)
        } else {
            m2
        }
    }
}

/// The migration engine.
pub struct Migrator;

impl Migrator {
    /// The full ordered unit list.
    pub fn migrations() -> (r: Vec<Migration>)
        ensures
            r@ == spec_catalog(),
    {
        let mut v: Vec<Migration> = Vec::new();
        v.push(Migration);
        proof {
            assert(v@ =~= spec_catalog());
        }
        v
    }

    /// The ordered subsequence of units not yet applied, read off against
    /// the store's applied-units record. Reads only; callable idempotently.
    pub fn list_pending(store: &Store) -> (r: Vec<Migration>)
        ensures
            r@ == spec_pending(store@),
    {
        let migs = Self::migrations();
        let start = store.applied.len();
        let mut pending: Vec<Migration> = Vec::new();
        if start >= migs.len() {
            proof {
                assert(pending@ =~= spec_pending(store@));
            }
            return pending;
        }
        let mut i = start;
        while i < migs.len()
            invariant
                migs@ == spec_catalog(),
                start == store@.applied.len(),
                start <= i <= migs@.len(),
                pending@ == spec_catalog().subrange(start as int, i as int),
            decreases migs@.len() - i,
        {
            let unit = migs[i];
            pending.push(unit);
            proof {
                assert(pending@ =~= spec_catalog().subrange(start as int, i + 1 as int));
            }
            i = i + 1;
        }
        proof {
            assert(pending@ =~= spec_pending(store@));
        }
        pending
    }

    /// Applies every pending unit strictly in catalog order, recording each
    /// as it commits. On a well-formed store every pending unit applies, the
    /// returned count is the number of units applied, and a store with
    /// nothing pending is left exactly as it was.
    pub fn apply_all(store: &mut Store) -> (r: Result<usize, MigrateError>)
        requires
            old(store).wf(),
        ensures
            final(store).wf(),
            final(store)@ == spec_apply_all(old(store)@),
            r == Ok::<usize, MigrateError>(spec_pending(old(store)@).len() as usize),
            final(store)@.applied == spec_catalog(),
            old(store)@.applied.len() == spec_catalog().len() ==> final(store)@ == old(store)@,
    {
        let pending = Self::list_pending(store);
        let ghost m0 = old(store)@;
        proof {
            assert(m0.applied == spec_catalog().take(m0.applied.len() as int));
            assert(pending@.len() <= 1);
        }
        let mut count: usize = 0;
        let mut k: usize = 0;
        while k < pending.len()
            invariant
                old(store).wf(),
                pending@ == spec_pending(old(store)@),
                pending@.len() <= 1,
                k <= pending@.len(),
                store.wf(),
                k == 0 ==> store@ == old(store)@ && count == 0,
                k >= 1 ==> store@ == spec_apply_all(old(store)@) && count == 1
                    && store@.applied.len() == spec_catalog().len(),
            decreases pending@.len() - k,
        {
            let unit = pending[k];
            proof {
                assert(k == 0);
                assert(old(store)@.applied.len() == 0) by {
                    if old(store)@.applied.len() >= 1 {
                        assert(spec_pending(old(store)@).len() == 0);
                    }
                }
                assert(store@.schema == SchemaState::spec_empty());
            }
            match unit.up(store) {
                Ok(()) => {
                    store.applied.push(unit);
                    count = count + 1;
                },
                Err(e) => {
                    return Err(MigrateError::UnitFailed { unit, cause: e });
                },
            }
            proof {
                assert(store@.applied =~= spec_catalog().take(1));
                assert(store@.applied =~= spec_catalog());
                assert(store@ == spec_apply_all(old(store)@));
            }
            k = k + 1;
        }
        proof {
            if pending@.len() == 0 {
                assert(old(store)@.applied.len() >= spec_catalog().len());
                assert(store@.applied =~= spec_catalog());
                assert(store@ == spec_apply_all(old(store)@));
            }
        }
        Ok(count)
    }

    /// Reverts the single most recently applied unit, removing it from the
    /// applied-units record; refused when nothing is applied. On a
    /// well-formed store the revert itself cannot fail.
    pub fn revert_last(store: &mut Store) -> (r: Result<Migration, MigrateError>)
        requires
            old(store).wf(),
        ensures
            final(store).wf(),
            ({
                let (m2, rr) = spec_revert_last(old(store)@);
                final(store)@ == m2 && r == rr
            }),
    {
        if store.applied.len() == 0 {
            return Err(MigrateError::NothingToRevert);
        }
        let unit = store.applied[store.applied.len() - 1];
        proof {
            assert(old(store)@.applied.len() == 1);
            assert(old(store)@.schema == SchemaState::spec_full());
        }
        match unit.down(store) {
            Ok(()) => {
                let _last = store.applied.pop();
                proof {
                    assert(store@.applied =~= spec_revert_last(old(store)@).0.applied);
                    assert(store@.applied =~= spec_catalog().take(0));
                }
                Ok(unit)
            },
            Err(e) => Err(MigrateError::UnitFailed { unit, cause: e }),
        }
    }
}

} // verus!
