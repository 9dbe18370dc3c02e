//! Live channel and client topology of a voice server, kept as a tree and
//! served from a cache that is refreshed once it is older than its lifetime.
//!
//! The library holds the decisions and leaves the network to its caller. A
//! request is answered in up to four steps:
//!
//! 1. [`cache::StatusCache::plan`] serves the cached summary while it is
//!    fresh, and otherwise hands out a refresh attempt.
//! 2. [`session::Session::advance`] takes the reply to each call of the
//!    attempt and names the next call, until everything is gathered or a call
//!    has failed.
//! 3. [`summary::summarize`] reads the server's metadata and builds the
//!    channel tree from the flat records.
//! 4. [`cache::StatusCache::conclude`] stores the new summary, or leaves the
//!    cache alone where the attempt has failed.
//!
//! [`laws`] states what holds of every tree that is built this way.

pub mod cache;
pub mod config;
pub mod laws;
pub mod metadata;
pub mod records;
pub mod response;
pub mod session;
pub mod summary;
pub mod tree;
