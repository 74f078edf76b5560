//! Supervision of the long-lived Python worker that the desktop shell depends on.
//!
//! The library holds the decisions: which interpreter and port to use, whether
//! this instance is the primary one, when to reuse, spawn, restart or stop the
//! worker, and how the display mode drives those steps. The caller performs the
//! actual process, socket and file work and reports back.

pub mod config;
pub mod coordinator;
pub mod error;
pub mod events;
pub mod lock;
pub mod mode;
pub mod probe;
pub mod reclaim;
pub mod select;
pub mod supervisor;
pub mod text;

pub use config::PythonConfig;
