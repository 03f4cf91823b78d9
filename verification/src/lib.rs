//! Request handling for a small record service: create, read, list, update
//! and delete user records that live in a document store.
//!
//! The handlers never touch the store themselves. A handler is a
//! conversation: it names the next call to the store, is handed the reply,
//! and in the end names the response. A driver makes the calls.
//!
//! - [`ident`]: record identifiers and their written form.
//! - [`user`]: the record, and how records are made and merged.
//! - [`response`]: responses, failures and their status codes.
//! - [`store`]: the calls to the store and its replies.
//! - [`handlers`]: the five operations, step by step.
//! - [`model`]: a reference model of the store, and the handlers run against it.
//! - [`laws`]: what holds of the handlers on the model store.

pub mod handlers;
pub mod ident;
pub mod laws;
pub mod model;
pub mod response;
pub mod store;
pub mod user;
