//! Category store operations: list, fetch, create, full-replace update,
//! and delete with the affected-row check.

use vstd::prelude::*;
use crate::domain::{Category, StoreError};
use crate::store::{CatalogStore, CategoryRow};
use crate::sys;

verus! {

/// The update timestamp a category update writes: the present, clamped so
/// the invariant `updated_at >= created_at` holds even when the clock has
/// regressed below the row's creation time.
pub open spec fn spec_bumped_updated_at(now: i64, created_at: i64) -> i64 {
    if now >= created_at {
        now
    } else {
        created_at
    }
}

impl CatalogStore {
    /// The category insert: appends one row, refused when the id is
    /// already present (the primary-key constraint). The new row carries
    /// one timestamp for both columns and a version seeded at zero.
    pub fn insert_category(&mut self, name: String, id: u128, now: i64) -> (r: Result<
        Category,
        StoreError,
    >)
        requires
            old(self).wf(),
        ensures
            final(self).wf(),
            old(self).has_category(id) ==> r == Err::<Category, StoreError>(StoreError::Conflict)
                && *final(self) == *old(self),
            !old(self).has_category(id) ==> {
                &&& r == Ok::<Category, StoreError>(
                    (Category { id, name, created_at: now, updated_at: now }),
                )
                &&& final(self).categories@ == old(self).categories@.push(
                    (CategoryRow { id, name, created_at: now, updated_at: now, version: 0 }),
                )
                &&& final(self).products@ == old(self).products@
                &&& final(self).reviews@ == old(self).reviews@
            },
    {
        if self.find_category(id).is_some() {
            return Err(StoreError::Conflict);
        }
        let row = CategoryRow { id, name: name.clone(), created_at: now, updated_at: now, version: 0 };
        self.categories.push(row);
        assert forall|i: int, j: int|
            0 <= i < j < self.categories@.len() implies self.categories@[i].id
            != self.categories@[j].id by {
            if j < self.categories@.len() - 1 {
                assert(old(self).categories@[i].id != old(self).categories@[j].id);
            }
        }
        Ok(Category { id, name, created_at: now, updated_at: now })
    }

    /// The category update: fetch the row, replace its name, bump
    /// `updated_at`, write it back. `created_at` and the version column
    /// are untouched. The new `updated_at` is clamped to `created_at` so
    /// that the category invariant `updated_at >= created_at` survives
    /// even a regressing clock.
    pub fn update_category(&mut self, id: u128, name: String, now: i64) -> (r: Result<
        Category,
        StoreError,
    >)
        requires
            old(self).wf(),
        ensures
            final(self).wf(),
            !old(self).has_category(id) ==> r == Err::<Category, StoreError>(StoreError::NotFound)
                && *final(self) == *old(self),
            old(self).has_category(id) ==> {
                let row = old(self).category_row(id);
                let bumped = spec_bumped_updated_at(now, row.created_at);
                &&& r == Ok::<Category, StoreError>(
                    (Category { id, name, created_at: row.created_at, updated_at: bumped }),
                )
                &&& final(self).categories@ == old(self).categories@.update(
                    old(self).category_index(id),
                    (CategoryRow {
                        id,
                        name,
                        created_at: row.created_at,
                        updated_at: bumped,
                        version: row.version,
                    }),
                )
                &&& final(self).products@ == old(self).products@
                &&& final(self).reviews@ == old(self).reviews@
            },
    {
        let idx = match self.find_category(id) {
            Some(i) => i,
            None => {
                return Err(StoreError::NotFound);
            },
        };
        proof {
            self.lemma_category_index_of(idx as int, id);
        }
        let created_at = self.categories[idx].created_at;
        let version = self.categories[idx].version;
        let bumped = if now >= created_at {
            now
        } else {
            created_at
        };
        let row = CategoryRow { id, name: name.clone(), created_at, updated_at: bumped, version };
        self.categories.set(idx, row);
        assert forall|i: int, j: int|
            0 <= i < j < self.categories@.len() implies self.categories@[i].id
            != self.categories@[j].id by {
            assert(old(self).categories@[i].id != old(self).categories@[j].id);
        }
        Ok(Category { id, name, created_at, updated_at: bumped })
    }

    /// The category delete: exactly one row must have been removed, else
    /// the outcome is `NotFound` — a no-row match is not a database error
    /// but is a domain error.
    pub fn delete_category(&mut self, id: u128) -> (r: Result<(), StoreError>)
        requires
            old(self).wf(),
        ensures
            final(self).wf(),
            !old(self).has_category(id) ==> r == Err::<(), StoreError>(StoreError::NotFound)
                && *final(self) == *old(self),
            old(self).has_category(id) ==> {
                &&& r == Ok::<(), StoreError>(())
                &&& final(self).categories@ == old(self).categories@.remove(
                    old(self).category_index(id),
                )
                &&& final(self).products@ == old(self).products@
                &&& final(self).reviews@ == old(self).reviews@
            },
    {
        let idx = match self.find_category(id) {
            Some(i) => i,
            None => {
                return Err(StoreError::NotFound);
            },
        };
        proof {
            self.lemma_category_index_of(idx as int, id);
        }
        self.categories.remove(idx);
        assert forall|i: int, j: int|
            0 <= i < j < self.categories@.len() implies self.categories@[i].id
            != self.categories@[j].id by {
            let oi: int = if i < idx { i } else { i + 1 };
            let oj: int = if j < idx { j } else { j + 1 };
            assert(old(self).categories@[oi].id != old(self).categories@[oj].id);
        }
        Ok(())
    }
}

/// The one concrete category service.
pub struct CategoryServiceImpl;

impl CategoryServiceImpl {
    /// listAll: every category, in insertion order; an empty store yields
    /// an empty list, not an error.
    pub fn fetch_categories(&self, store: &CatalogStore) -> (r: Vec<Category>)
        ensures
            r@.len() == store.categories@.len(),
            forall|i: int| 0 <= i < r@.len() ==> r@[i] == store.categories@[i].spec_category(),
    {
        let mut out: Vec<Category> = Vec::new();
        let mut i: usize = 0;
        while i < store.categories.len()
            invariant
                i <= store.categories@.len(),
                out@.len() == i,
                forall|k: int| 0 <= k < i ==> out@[k] == store.categories@[k].spec_category(),
            decreases store.categories@.len() - i,
        {
            out.push(store.categories[i].to_category());
            i += 1;
        }
        out
    }

    /// getById: the category, or `NotFound`.
    pub fn fetch_by_id(&self, store: &CatalogStore, id: u128) -> (r: Result<Category, StoreError>)
        requires
            store.wf(),
        ensures
            store.has_category(id) ==> r == Ok::<Category, StoreError>(
                store.category_row(id).spec_category(),
            ),
            !store.has_category(id) ==> r == Err::<Category, StoreError>(StoreError::NotFound),
    {
        match store.find_category(id) {
            Some(i) => {
                proof {
                    store.lemma_category_index_of(i as int, id);
                }
                Ok(store.categories[i].to_category())
            },
            None => Err(StoreError::NotFound),
        }
    }

    /// create: generates a fresh id, stamps `created_at` and `updated_at`
    /// with the same instant, and persists. Fails only if the generated id
    /// collides with an existing row, in which case nothing is written; on
    /// an empty table no drawn id can collide, so success is owed there.
    pub fn save(&self, store: &mut CatalogStore, name: String) -> (r: Result<Category, StoreError>)
        requires
            old(store).wf(),
        ensures
            final(store).wf(),
            old(store).categories@.len() == 0 ==> r is Ok,
            r matches Ok(c) ==> {
                &&& c.name == name
                &&& c.created_at == c.updated_at
                &&& c.created_at >= 0
                &&& !old(store).has_category(c.id)
                &&& final(store).categories@ == old(store).categories@.push(
                    (CategoryRow {
                        id: c.id,
                        name: name,
                        created_at: c.created_at,
                        updated_at: c.updated_at,
                        version: 0,
                    }),
                )
                &&& final(store).products@ == old(store).products@
                &&& final(store).reviews@ == old(store).reviews@
            },
            r matches Err(e) ==> e == StoreError::Conflict && *final(store) == *old(store),
    {
        let id = sys::new_uuid();
        let now = sys::now_millis();
        store.insert_category(name, id, now)
    }

    /// update: full replace of the one mutable field, with `updated_at`
    /// bumped to the present — never below `created_at`, so the category
    /// invariant `updated_at >= created_at` is kept.
    pub fn update(&self, store: &mut CatalogStore, id: u128, name: String) -> (r: Result<
        Category,
        StoreError,
    >)
        requires
            old(store).wf(),
        ensures
            final(store).wf(),
            !old(store).has_category(id) ==> r == Err::<Category, StoreError>(StoreError::NotFound)
                && *final(store) == *old(store),
            old(store).has_category(id) ==> (r matches Ok(c) && {
                let row = old(store).category_row(id);
                &&& c.id == id
                &&& c.name == name
                &&& c.created_at == row.created_at
                &&& c.updated_at >= 0
                &&& c.updated_at >= c.created_at
                &&& final(store).categories@ == old(store).categories@.update(
                    old(store).category_index(id),
                    (CategoryRow {
                        id,
                        name,
                        created_at: row.created_at,
                        updated_at: c.updated_at,
                        version: row.version,
                    }),
                )
                &&& final(store).products@ == old(store).products@
                &&& final(store).reviews@ == old(store).reviews@
            }),
    {
        let now = sys::now_millis();
        store.update_category(id, name, now)
    }

    /// delete: removes the row; a missing id yields `NotFound`, never a
    /// silent success.
    pub fn delete(&self, store: &mut CatalogStore, id: u128) -> (r: Result<(), StoreError>)
        requires
            old(store).wf(),
        ensures
            final(store).wf(),
            !old(store).has_category(id) ==> r == Err::<(), StoreError>(StoreError::NotFound)
                && *final(store) == *old(store),
            old(store).has_category(id) ==> {
                &&& r == Ok::<(), StoreError>(())
                &&& final(store).categories@ == old(store).categories@.remove(
                    old(store).category_index(id),
                )
                &&& final(store).products@ == old(store).products@
                &&& final(store).reviews@ == old(store).reviews@
            },
    {
        store.delete_category(id)
    }
}

} // verus!
