//! Recommendation backend: resource paths, similarity-ranked recommendations,
//! tenant resolution, query construction and the store's error discipline.
pub mod customer;
pub mod errors;
pub mod forms;
pub mod path;
pub mod query;
pub mod recommendations;
pub mod store;
