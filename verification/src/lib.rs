//! A small interactive viewer for a document database: it lists databases,
//! the collections of a chosen database, and the documents of a chosen
//! collection, each step driven by a short alias typed at a prompt.
//!
//! This crate holds the verified logic: rendering listings with their alias
//! column, resolving a typed alias to a list index, and the session state
//! machine that drives the three-step drill-down. All input, output and
//! database calls live outside the library, which only computes.

pub mod alias;
pub mod digits;
pub mod error;
pub mod format;
pub mod session;
pub mod url;
