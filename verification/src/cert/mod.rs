//! The identity on disk and the life of the identity in memory.


pub mod laws;
pub mod manager;
pub mod material;
pub mod store;
pub mod tls_types;
