//! A catalog service library: categories, products and product reviews,
//! with a uniform response envelope and a verified model of the backing
//! relational store.

pub mod domain;
pub mod response;
pub mod store;
pub mod category_service;
pub mod product_service;
pub mod review_service;
pub mod laws;
mod sys;
