//! Kasuku plugin runtime and event-dispatch engine.
//!
//! The library models the host side of an extensible document platform:
//! a capability context exposed to sandboxed plugins, a single-writer
//! storage actor with a bounded mailbox, a subscription registry, a
//! structural event matcher, and the dispatch pipeline that folds a
//! parsed document through every interested plugin.

pub mod actor;
pub mod codec;
pub mod common;
pub mod config;
pub mod context;
pub mod decimal;
pub mod distribution;
pub mod errors;
pub mod events;
pub mod laws;
pub mod markdown;
pub mod matcher;
pub mod payload;
pub mod plugins;
pub mod runtime;
pub mod sql;
pub mod store;
