//! A verified catalog of book records.
//!
//! - [`book`]: the record, its list projection, and what makes a record
//!   well formed.
//! - [`filter`]: which books a list query selects.
//! - [`merge`]: the partial update, in which a zero or an empty text
//!   leaves a field as it is.
//! - [`repo`]: the four operations of a storage backend, and what holds
//!   of any backend that keeps to them.
//! - [`inmemory`]: the backend that keeps its books in a map.
//! - [`sqlite`]: the statements and the row format of the SQL backend.
//! - [`handler`]: the create, list, detail, update and delete use cases.
//! - [`reply`], [`error`]: answers and failures.
//! - [`auth`]: who is granted a token.
//! - [`ident`], [`clock`], [`text`]: ids, time and text.

pub mod auth;
pub mod book;
pub mod clock;
pub mod error;
pub mod filter;
pub mod handler;
pub mod ident;
pub mod inmemory;
pub mod merge;
pub mod reply;
pub mod repo;
pub mod sqlite;
pub mod text;

pub use error::AppError;
