//! Core runtime for per-game integration scripts.
//!
//! A game is described by a manifest and a script written against a fixed,
//! versioned wire contract.  The host calls a small set of typed operations
//! against the loaded script: list editions, query install state, compute
//! diffs, fetch addon groups, and so on.  This crate holds the verified part
//! of that runtime: the wire data model and its codecs, the memo cache that
//! wraps expensive script queries, the versioned driver dispatch, the game
//! registry, and the addon scan that decides which addons need attention.

pub mod cache;
pub mod driver;
pub mod engine;
pub mod error;
pub mod games;
pub mod integrations;
pub mod scan;
pub mod settings;
pub mod standards;
pub mod wire;
