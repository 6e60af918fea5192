//! Entity and request shapes of the catalog domain. Ids are UUIDs carried
//! as their 128-bit value; timestamps are epoch milliseconds; a price is an
//! arbitrary-precision decimal carried in its textual form (never a
//! floating type).

use vstd::prelude::*;

verus! {

/// A category as read back from the store. Invariant: `updated_at >=
/// created_at` — creation stamps both fields with one instant, and the
/// update operation never writes an `updated_at` below `created_at`.
#[derive(Debug, PartialEq)]
pub struct Category {
    pub id: u128,
    pub name: String,
    pub created_at: i64,
    pub updated_at: i64,
}

/// Request body for creating a category.
#[derive(Debug, PartialEq)]
pub struct CreateCategory {
    pub name: String,
}

/// Request body for updating a category: a full replace of its one mutable
/// field.
#[derive(Debug, PartialEq)]
pub struct UpdateCategory {
    pub name: String,
}

/// A product as read back from the store, with the denormalized
/// `category_name` resolved through a join.
#[derive(Debug, PartialEq)]
pub struct Product {
    pub id: u128,
    pub name: String,
    pub description: Option<String>,
    pub price: String,
    pub stock: i32,
    pub category_name: String,
    pub created_at: i64,
    pub updated_at: i64,
}

/// Request body for creating a product.
#[derive(Debug, PartialEq)]
pub struct CreateProduct {
    pub name: String,
    pub description: Option<String>,
    pub price: String,
    pub stock: i32,
    pub category_id: u128,
}

/// Request body for a sparse product update: only the fields that are
/// present are changed.
#[derive(Debug, PartialEq)]
pub struct UpdateProduct {
    pub name: Option<String>,
    pub description: Option<String>,
    pub price: Option<String>,
    pub stock: Option<i32>,
}

/// A review as it appears nested under a product: no id, no product link,
/// no update timestamp.
#[derive(Debug, PartialEq)]
pub struct Review {
    pub user_id: Option<u128>,
    pub comment: Option<String>,
    pub rating: Option<i32>,
    pub created_at: Option<i64>,
}

/// A product together with its reviews; `reviews` is absent when the
/// product has none.
#[derive(Debug, PartialEq)]
pub struct ProductWithReviews {
    pub id: u128,
    pub name: String,
    pub description: Option<String>,
    pub price: String,
    pub stock: i32,
    pub category_name: String,
    pub reviews: Option<Vec<Review>>,
    pub created_at: i64,
    pub updated_at: i64,
}

/// A product review as created and read back whole.
#[derive(Debug, PartialEq)]
pub struct ProductReview {
    pub id: Option<u128>,
    pub product_id: Option<u128>,
    pub user_id: Option<u128>,
    pub comment: Option<String>,
    pub rating: Option<i32>,
    pub created_at: Option<i64>,
    pub updated_at: Option<i64>,
}

/// Request body for submitting a review to a product.
#[derive(Debug, PartialEq)]
pub struct CreateProductReview {
    pub user_id: u128,
    pub comment: Option<String>,
    pub rating: Option<i32>,
}

/// The typed outcome of a store operation: a missing row is told apart
/// from a key-constraint violation.
#[derive(Clone, Copy, Debug, PartialEq, Eq, Structural)]
pub enum StoreError {
    NotFound,
    Conflict,
}

impl StoreError {
    /// The display text of each store failure.
    pub open spec fn spec_message(self) -> Seq<char> {
        match self {
            StoreError::NotFound => "no matching row was found"@,
            StoreError::Conflict => "a key constraint was violated"@,
        }
    }

    pub fn message(&self) -> (r: String)
        ensures
            r@ == self.spec_message(),
    {
        match self {
            StoreError::NotFound => "no matching row was found".to_owned(),
            StoreError::Conflict => "a key constraint was violated".to_owned(),
        }
    }

    /// How store failures surface to clients: a missing row is `NotFound`;
    /// everything else falls under the `BadRequest` umbrella.
    pub open spec fn spec_api_error(self) -> crate::response::ApiError {
        match self {
            StoreError::NotFound => crate::response::ApiError::NotFound,
            StoreError::Conflict => crate::response::ApiError::BadRequest,
        }
    }

    pub fn to_api_error(&self) -> (r: crate::response::ApiError)
        ensures
            r == self.spec_api_error(),
    {
        match self {
            StoreError::NotFound => crate::response::ApiError::NotFound,
            StoreError::Conflict => crate::response::ApiError::BadRequest,
        }
    }
}

} // verus!
