//! A personal contact-tracking store: person records with create, read,
//! update, delete and multi-field substring search.
//!
//! The store itself ([`store::Store`]) is an in-memory record store with
//! verified contracts: every operation's result is pinned to a small
//! specification model, and the laws the store obeys are proved in
//! [`laws`] for all inputs. A caller that persists the records in a SQL
//! engine takes its statement texts and wildcard patterns from [`query`],
//! so the field-to-column mapping stays in one verified place.

pub mod laws;
pub mod person;
pub mod query;
pub mod search;
pub mod store;
pub mod text;
