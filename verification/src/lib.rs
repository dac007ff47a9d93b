//! The read side of a small server-rendered blog.
//!
//! The crate turns rows fetched from a relational store into typed entities,
//! builds the three canonical read queries, and assembles the context that a
//! page template is rendered from. The store itself and the template engine
//! are reached through values handed in by the caller, so every function here
//! is a function of its arguments and is verified as such.

pub mod entity;
pub mod page;
pub mod query;
pub mod record;
pub mod repository;
pub mod value;
