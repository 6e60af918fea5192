//! A model of the backing relational store: the three tables as sequences
//! of rows, in insertion order. Every store operation is a function on
//! this state with an exact contract; uniqueness of each table's primary
//! key is the store's invariant.

use vstd::prelude::*;
use crate::domain::{Category, Product, ProductReview, Review, StoreError};

verus! {

/// The affected-row check shared by the delete operations: the delete
/// succeeded only if exactly one row was removed. "No rows matched" is not
/// a database error but is a domain error, so the count is checked rather
/// than trusting a non-error result.
pub fn delete_outcome(rows_affected: u64) -> (r: Result<(), StoreError>)
    ensures
        rows_affected == 1 <==> r == Ok::<(), StoreError>(()),
        rows_affected != 1 ==> r == Err::<(), StoreError>(StoreError::NotFound),
{
    if rows_affected == 1 {
        Ok(())
    } else {
        Err(StoreError::NotFound)
    }
}

/// One row of the category table.
#[derive(Debug, PartialEq)]
pub struct CategoryRow {
    pub id: u128,
    pub name: String,
    pub created_at: i64,
    pub updated_at: i64,
    pub version: i64,
}

/// One row of the product table. `category_id` references the category
/// table; referential integrity is not enforced on category deletion.
#[derive(Debug, PartialEq)]
pub struct ProductRow {
    pub id: u128,
    pub name: String,
    pub description: Option<String>,
    pub price: String,
    pub stock: i32,
    pub category_id: u128,
    pub created_at: i64,
    pub updated_at: i64,
    pub version: i64,
}

/// One row of the review table.
#[derive(Debug, PartialEq)]
pub struct ReviewRow {
    pub id: u128,
    pub product_id: u128,
    pub user_id: u128,
    pub comment: Option<String>,
    pub rating: Option<i32>,
    pub created_at: i64,
    pub updated_at: i64,
}

impl CategoryRow {
    /// The category as clients see it: the row without its version column.
    pub open spec fn spec_category(self) -> Category {
        Category { id: self.id, name: self.name, created_at: self.created_at, updated_at: self.updated_at }
    }

    pub fn to_category(&self) -> (c: Category)
        ensures
            c == self.spec_category(),
    {
        Category {
            id: self.id,
            name: self.name.clone(),
            created_at: self.created_at,
            updated_at: self.updated_at,
        }
    }
}

impl ProductRow {
    /// The product as clients see it: the row joined with its category's
    /// name, without the version column.
    pub open spec fn spec_product(self, category_name: String) -> Product {
        Product {
            id: self.id,
            name: self.name,
            description: self.description,
            price: self.price,
            stock: self.stock,
            category_name: category_name,
            created_at: self.created_at,
            updated_at: self.updated_at,
        }
    }

    pub fn to_product(&self, category_name: String) -> (p: Product)
        ensures
            p == self.spec_product(category_name),
    {
        Product {
            id: self.id,
            name: self.name.clone(),
            description: clone_opt_string(&self.description),
            price: self.price.clone(),
            stock: self.stock,
            category_name: category_name,
            created_at: self.created_at,
            updated_at: self.updated_at,
        }
    }
}

impl ReviewRow {
    /// The row as it appears nested under a product.
    pub open spec fn spec_review(self) -> Review {
        Review {
            user_id: Some(self.user_id),
            comment: self.comment,
            rating: self.rating,
            created_at: Some(self.created_at),
        }
    }

    /// The row as the review-submission operation returns it.
    pub open spec fn spec_product_review(self) -> ProductReview {
        ProductReview {
            id: Some(self.id),
            product_id: Some(self.product_id),
            user_id: Some(self.user_id),
            comment: self.comment,
            rating: self.rating,
            created_at: Some(self.created_at),
            updated_at: Some(self.updated_at),
        }
    }

    pub fn to_review(&self) -> (r: Review)
        ensures
            r == self.spec_review(),
    {
        Review {
            user_id: Some(self.user_id),
            comment: clone_opt_string(&self.comment),
            rating: self.rating,
            created_at: Some(self.created_at),
        }
    }
}

/// A clone of an optional string, equal to its source.
pub fn clone_opt_string(s: &Option<String>) -> (r: Option<String>)
    ensures
        r == *s,
{
    match s {
        Some(v) => Some(v.clone()),
        None => None,
    }
}

/// The whole store: each table in insertion order.
#[derive(Debug, PartialEq)]
pub struct CatalogStore {
    pub categories: Vec<CategoryRow>,
    pub products: Vec<ProductRow>,
    pub reviews: Vec<ReviewRow>,
}

impl CatalogStore {
    /// Ids are unique within each table: the primary-key constraints.
    pub open spec fn wf(self) -> bool {
        &&& forall|i: int, j: int|
            0 <= i < j < self.categories@.len() ==> self.categories@[i].id != self.categories@[j].id
        &&& forall|i: int, j: int|
            0 <= i < j < self.products@.len() ==> self.products@[i].id != self.products@[j].id
        &&& forall|i: int, j: int|
            0 <= i < j < self.reviews@.len() ==> self.reviews@[i].id != self.reviews@[j].id
    }

    pub fn new() -> (s: Self)
        ensures
            s.wf(),
            s.categories@.len() == 0,
            s.products@.len() == 0,
            s.reviews@.len() == 0,
    {
        CatalogStore { categories: Vec::new(), products: Vec::new(), reviews: Vec::new() }
    }

    pub open spec fn has_category(self, id: u128) -> bool {
        exists|i: int| 0 <= i < self.categories@.len() && self.categories@[i].id == id
    }

    pub open spec fn category_index(self, id: u128) -> int {
        choose|i: int| 0 <= i < self.categories@.len() && self.categories@[i].id == id
    }

    pub open spec fn category_row(self, id: u128) -> CategoryRow {
        self.categories@[self.category_index(id)]
    }

    pub open spec fn has_product(self, id: u128) -> bool {
        exists|i: int| 0 <= i < self.products@.len() && self.products@[i].id == id
    }

    pub open spec fn product_index(self, id: u128) -> int {
        choose|i: int| 0 <= i < self.products@.len() && self.products@[i].id == id
    }

    pub open spec fn product_row(self, id: u128) -> ProductRow {
        self.products@[self.product_index(id)]
    }

    pub open spec fn has_review(self, id: u128) -> bool {
        exists|i: int| 0 <= i < self.reviews@.len() && self.reviews@[i].id == id
    }

    /// A product is reachable through the plain (inner-join) reads only
    /// while its category still exists.
    pub open spec fn product_visible(self, id: u128) -> bool {
        self.has_product(id) && self.has_category(self.product_row(id).category_id)
    }

    /// What the plain product reads return for a visible product.
    pub open spec fn spec_product(self, id: u128) -> Product {
        self.product_row(id).spec_product(self.category_row(self.product_row(id).category_id).name)
    }

    /// In a well-formed store an id occurs at one index only, so any index
    /// that holds it is the chosen one.
    pub proof fn lemma_category_index_of(self, i: int, id: u128)
        requires
            self.wf(),
            0 <= i < self.categories@.len(),
            self.categories@[i].id == id,
        ensures
            self.has_category(id),
            self.category_index(id) == i,
    {
        assert(self.has_category(id));
        let j = self.category_index(id);
        assert(0 <= j < self.categories@.len() && self.categories@[j].id == id);
        if i < j {
            assert(self.categories@[i].id != self.categories@[j].id);
        } else if j < i {
            assert(self.categories@[j].id != self.categories@[i].id);
        }
    }

    pub proof fn lemma_product_index_of(self, i: int, id: u128)
        requires
            self.wf(),
            0 <= i < self.products@.len(),
            self.products@[i].id == id,
        ensures
            self.has_product(id),
            self.product_index(id) == i,
    {
        assert(self.has_product(id));
        let j = self.product_index(id);
        assert(0 <= j < self.products@.len() && self.products@[j].id == id);
        if i < j {
            assert(self.products@[i].id != self.products@[j].id);
        } else if j < i {
            assert(self.products@[j].id != self.products@[i].id);
        }
    }

    pub fn find_category(&self, id: u128) -> (r: Option<usize>)
        ensures
            match r {
                Some(i) => i < self.categories@.len() && self.categories@[i as int].id == id,
                None => !self.has_category(id),
            },
    {
        let mut i: usize = 0;
        while i < self.categories.len()
            invariant
                i <= self.categories@.len(),
                forall|k: int| 0 <= k < i ==> self.categories@[k].id != id,
            decreases self.categories@.len() - i,
        {
            if self.categories[i].id == id {
                return Some(i);
            }
            i += 1;
        }
        None
    }

    pub fn find_product(&self, id: u128) -> (r: Option<usize>)
        ensures
            match r {
                Some(i) => i < self.products@.len() && self.products@[i as int].id == id,
                None => !self.has_product(id),
            },
    {
        let mut i: usize = 0;
        while i < self.products.len()
            invariant
                i <= self.products@.len(),
                forall|k: int| 0 <= k < i ==> self.products@[k].id != id,
            decreases self.products@.len() - i,
        {
            if self.products[i].id == id {
                return Some(i);
            }
            i += 1;
        }
        None
    }

    pub fn find_review(&self, id: u128) -> (r: Option<usize>)
        ensures
            match r {
                Some(i) => i < self.reviews@.len() && self.reviews@[i as int].id == id,
                None => !self.has_review(id),
            },
    {
        let mut i: usize = 0;
        while i < self.reviews.len()
            invariant
                i <= self.reviews@.len(),
                forall|k: int| 0 <= k < i ==> self.reviews@[k].id != id,
            decreases self.reviews@.len() - i,
        {
            if self.reviews[i].id == id {
                return Some(i);
            }
            i += 1;
        }
        None
    }
}

} // verus!
