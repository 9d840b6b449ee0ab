//! Reconciliation and fetch-orchestration engine for provisioning a game
//! server installation: a core runtime binary and a set of plugin binaries.
//!
//! The library decides, per desired item, whether a fetch is required
//! (skip / force / freeze policy), plans a batch of fetches over the desired
//! plugin set, models the per-item fetch pipeline as a state machine, and
//! maintains the persisted lock record that tracks what is installed.
//! Network transfer, disk writes and the async runtime live outside the
//! library; they hand it plain values and take plain values back.

pub mod config;
pub mod errors;
pub mod lock;
pub mod models;
pub mod orchestrate;
pub mod reconcile;
pub mod settings;
pub mod target;

pub use reconcile::needs_update;
