//! In-process mirror of remote chat-platform state.
//!
//! The crate keeps a cache of guilds' members and users, fed by decoded
//! gateway events and queried synchronously. Every mutation is specified
//! against a mathematical model of the cache, and the cross-table
//! invariants (a member record exists exactly when the roster index lists
//! it; a user record exists exactly when the user belongs to some guild)
//! are proved to hold in every reachable state.

pub mod api_error;
pub mod cache;
pub mod command;
pub mod config;
pub mod event;
pub mod ids;
pub mod invite;
pub mod laws;
pub mod model;
pub mod state;
