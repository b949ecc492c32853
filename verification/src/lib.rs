//! An in-memory product catalog: the records, the store that owns them, and
//! the rules by which a request body is accepted before it reaches the store.

pub mod body;
pub mod catalog;
pub mod error;
pub mod handlers;
pub mod laws;
pub mod product;
pub mod store;
