//! Read access to the local RPM package database.
//!
//! The library holds the decisions of each stage of a database session:
//! opening the database against the default or an explicit configuration,
//! and walking a match cursor scoped to one header tag and an optional
//! exact-match key. The native calls themselves are made by the caller,
//! which hands each outcome back to the library and does what it says.
pub mod db;
pub mod error;
pub mod iterator;
pub mod package;
pub mod tag;
