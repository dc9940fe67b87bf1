//! The verified core of a federated wiki.
//!
//! An instance keeps its articles with their edit histories in a [`store::Store`].
//! Every edit is a diff, named by the hash of its text ([`version::EditVersion`]),
//! and names the version before it: an article's text is what the chain of its
//! edits replays to ([`history`]). Edits that were made on an outdated version
//! are queued as conflicts and merged three-way ([`resolver`]). What happens on
//! one instance reaches the others as activities ([`outbox`], [`inbox`]).
//!
//! The library reads no clock, draws no random numbers and does no I/O: the
//! time, fresh identifiers and what was fetched are handed in, and what has
//! to go out is handed back.

pub mod activities;
pub mod address;
pub mod api;
pub mod article;
pub mod common;
pub mod config;
pub mod conflict;
pub mod diff;
pub mod directory;
pub mod edit;
pub mod error;
pub mod history;
pub mod hydrate;
pub mod inbox;
pub mod instance;
pub mod laws;
pub mod listing;
pub mod markdown;
pub mod newtypes;
pub mod objects;
pub mod outbox;
pub mod resolver;
pub mod search;
pub mod store;
pub mod text;
pub mod user;
pub mod version;
