//! A small relational backend for a blog-like domain: a versioned schema
//! maintained by an ordered catalog of reversible migration units, and an
//! Author resource service (create, paginated list, update) sitting on a
//! typed persistence gateway over that schema.

pub mod author;
pub mod entities;
pub mod error;
pub mod gateway;
pub mod laws;
pub mod migrator;
pub mod schema;
pub mod store;
