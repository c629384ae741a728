//! The durable store's data: keyed JSON indexes and the request shapes and
//! paths of the document store.
pub mod keyed;
pub mod store;
