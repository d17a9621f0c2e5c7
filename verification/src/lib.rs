//! Control of a long-running network service from the command line.
//!
//! The crate decides; the embedding program acts. Every operation that would
//! touch the file system, another process or the process table is described
//! here as a value (an [`control::Action`]) and its outcome is handed back as a
//! value (an [`control::Event`]). What the crate computes between the two is
//! verified against the models in each module.

pub mod config;
pub mod control;
pub mod document;
pub mod error;
pub mod logtail;
pub mod model;
pub mod paths;
pub mod pid;
pub mod resolve;
pub mod template;
pub mod text;
