//! Shopping lists, stores and user accounts kept in a document store.
//!
//! The crate holds the data model, the routing of entities to collections and
//! the document repository: which commands are sent to the store, in which
//! order, and what each reply means. Talking to the store itself is left to
//! the caller, who sends each command and hands the reply back.

pub mod collections;
pub mod command;
pub mod document;
pub mod error;
pub mod list;
pub mod model;
pub mod oid;
pub mod repo;
pub mod store;
pub mod text;
pub mod user;
pub mod user_handlers;
