//! Incremental formatting and linting cache.
//!
//! The crate holds the decisions of a cache that lets a monorepo skip
//! formatters and linters on inputs it has already seen: content
//! fingerprints, cache keys, the table rules of the store, the command lines
//! of the sandboxed tools, the protocol of a run, and the pipeline of each
//! input.
//!
//! The crate does no input or output. Its caller reads files, runs children
//! and keeps the store on disk, and hands over what it read; the crate says
//! what to do next. Every function states what it returns, and the statement
//! is proved, down to a few calls into other crates whose contracts are
//! taken on trust: the hash, the YAML and JSON readers, path handling, the
//! concurrent map of resolved tools, and number formatting. Each of those is
//! a small function whose comment names the call and says what is assumed.

pub mod cache;
pub mod cli;
pub mod config;
pub mod context;
pub mod exec;
pub mod format;
pub mod git;
pub mod hashing;
pub mod io;
pub mod json;
pub mod lint;
pub mod locate;
pub mod paths;
pub mod runner;
pub mod store;
pub mod text;
pub mod yaml;
