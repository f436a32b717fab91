//! Loading a named resource: its content where it can be read, else the
//! content read back after creating it with a default line.
//!
//! `loader` holds the decisions, as a state machine that any driver can run
//! against its own storage medium, and `load`, which runs it against the
//! medium in memory of `storage`; `laws` states what holds of every load.

pub mod laws;
pub mod loader;
pub mod shorthand_demo;
pub mod storage;
pub mod verbose_demo;
