//! Review store operations: submitting a review, cross-checked against
//! the parent product's existence.

use vstd::prelude::*;
use crate::domain::{ProductReview, StoreError};
use crate::store::{clone_opt_string, CatalogStore, ReviewRow};
use crate::sys;

verus! {

impl CatalogStore {
    /// The review insert: the parent product is fetched first through the
    /// category join, and a missing one fails the whole operation with
    /// nothing written — a review can never be attached to a nonexistent
    /// product. A duplicate id is refused by the primary-key constraint.
    pub fn insert_review(
        &mut self,
        product_id: u128,
        user_id: u128,
        comment: Option<String>,
        rating: Option<i32>,
        id: u128,
        now: i64,
    ) -> (r: Result<ProductReview, StoreError>)
        requires
            old(self).wf(),
        ensures
            final(self).wf(),
            !old(self).product_visible(product_id) ==> r == Err::<ProductReview, StoreError>(
                StoreError::NotFound,
            ) && *final(self) == *old(self),
            old(self).product_visible(product_id) && old(self).has_review(id) ==> r == Err::<
                ProductReview,
                StoreError,
            >(StoreError::Conflict) && *final(self) == *old(self),
            old(self).product_visible(product_id) && !old(self).has_review(id) ==> {
                &&& r == Ok::<ProductReview, StoreError>(
                    (ProductReview {
                        id: Some(id),
                        product_id: Some(product_id),
                        user_id: Some(user_id),
                        comment,
                        rating,
                        created_at: Some(now),
                        updated_at: Some(now),
                    }),
                )
                &&& final(self).reviews@ == old(self).reviews@.push(
                    (ReviewRow {
                        id,
                        product_id,
                        user_id,
                        comment,
                        rating,
                        created_at: now,
                        updated_at: now,
                    }),
                )
                &&& final(self).categories@ == old(self).categories@
                &&& final(self).products@ == old(self).products@
            },
    {
        let pi = match self.find_product(product_id) {
            Some(i) => i,
            None => {
                return Err(StoreError::NotFound);
            },
        };
        proof {
            self.lemma_product_index_of(pi as int, product_id);
        }
        if self.find_category(self.products[pi].category_id).is_none() {
            return Err(StoreError::NotFound);
        }
        if self.find_review(id).is_some() {
            return Err(StoreError::Conflict);
        }
        let row = ReviewRow {
            id,
            product_id,
            user_id,
            comment: clone_opt_string(&comment),
            rating,
            created_at: now,
            updated_at: now,
        };
        self.reviews.push(row);
        assert forall|i: int, j: int|
            0 <= i < j < self.reviews@.len() implies self.reviews@[i].id
            != self.reviews@[j].id by {
            if j < self.reviews@.len() - 1 {
                assert(old(self).reviews@[i].id != old(self).reviews@[j].id);
            }
        }
        Ok(
            ProductReview {
                id: Some(id),
                product_id: Some(product_id),
                user_id: Some(user_id),
                comment,
                rating,
                created_at: Some(now),
                updated_at: Some(now),
            },
        )
    }
}

/// The one concrete review service.
pub struct ProductReviewServiceImpl;

impl ProductReviewServiceImpl {
    /// addReview: validates that the parent product exists (through the
    /// same join the plain product fetch uses), generates a fresh id,
    /// stamps both timestamps with the same instant, and persists,
    /// echoing the input fields back in the created review. On an empty
    /// review table no drawn id can collide, so success is owed whenever
    /// the product is reachable.
    pub fn save(
        &self,
        store: &mut CatalogStore,
        product_id: u128,
        user_id: u128,
        comment: Option<String>,
        rating: Option<i32>,
    ) -> (r: Result<ProductReview, StoreError>)
        requires
            old(store).wf(),
        ensures
            final(store).wf(),
            old(store).product_visible(product_id) && old(store).reviews@.len() == 0 ==> r is Ok,
            r matches Err(e) ==> *final(store) == *old(store) && (e == StoreError::NotFound <==> !old(
                store,
            ).product_visible(product_id)),
            r matches Ok(rv) ==> {
                &&& old(store).product_visible(product_id)
                &&& rv.product_id == Some(product_id)
                &&& rv.user_id == Some(user_id)
                &&& rv.comment == comment
                &&& rv.rating == rating
                &&& rv.created_at == rv.updated_at
                &&& (rv.created_at matches Some(t) && t >= 0)
                &&& (rv.id matches Some(i) && !old(store).has_review(i))
                &&& final(store).reviews@ == old(store).reviews@.push(
                    (ReviewRow {
                        id: rv.id.unwrap(),
                        product_id,
                        user_id,
                        comment,
                        rating,
                        created_at: rv.created_at.unwrap(),
                        updated_at: rv.updated_at.unwrap(),
                    }),
                )
                &&& final(store).categories@ == old(store).categories@
                &&& final(store).products@ == old(store).products@
            },
    {
        let id = sys::new_uuid();
        let now = sys::now_millis();
        store.insert_review(product_id, user_id, comment, rating, id, now)
    }
}

} // verus!
