//! An embedded ticket-tracking backend: schema bootstrap with idempotent
//! seeding, credential verification against salted one-way hashes, and a
//! ticket repository with create, fetch and partial-update operations over
//! a local SQLite store.

pub mod db;
pub mod domain;
pub mod laws;
pub mod query;
pub mod store;
