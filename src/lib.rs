//! A safe-deletion engine: selection of paths, collision-free trash names,
//! removal guards, content comparison and an undo log, each stated and
//! proved with Verus.
pub mod config;
pub mod dedup;
pub mod engine;
pub mod error;
pub mod guards;
pub mod history;
pub mod naming;
pub mod policy;
pub mod remove;
pub mod select;
pub mod text;
pub mod timestamp;
