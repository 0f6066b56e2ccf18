//! Verified core of a personal-finance record service: versioned read caching
//! with write-through invalidation, and single-use rotating refresh tokens.
//!
//! The service keeps its records in a relational store and uses a key-value
//! store for two things: a cache of query results, and the record of the
//! refresh tokens that may still be exchanged. This library decides what is
//! sent to the two stores and what is made of their answers; it performs no
//! input or output itself.
//!
//! - [`keys`], [`ident`], [`text`]: how the entries of the key-value store
//!   are named; [`key_shapes`]: what tells the names apart.
//! - [`store`]: the commands and replies of the key-value store, with a
//!   model of how a store answers; [`memory`]: a store in memory that
//!   answers as the model says.
//! - [`cache`], [`rotation`]: the batches of commands that reads, writes and
//!   token rotation send.
//! - [`flow`], [`services`]: each operation of the service as a flow of
//!   decisions, with every call to a store made by the caller.
//! - [`traffic`], [`history`], [`laws`]: what holds of the cache and of token
//!   rotation whenever the store answers as the model says.
//! - [`models`], [`errors`], [`credentials`], [`cookies`], [`middleware`]:
//!   requests and rows, failures, and the judgements on credentials.

pub mod cache;
pub mod clock;
pub mod cookies;
pub mod credentials;
pub mod errors;
pub mod flow;
pub mod history;
pub mod ident;
pub mod key_shapes;
pub mod keys;
pub mod laws;
pub mod memory;
pub mod middleware;
pub mod models;
pub mod rotation;
pub mod services;
pub mod store;
pub mod text;
pub mod traffic;
