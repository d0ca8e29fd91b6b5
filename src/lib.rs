//! Verified core of a rotating-backup runner: it resolves the run's options,
//! judges the input paths, builds the argument lists of the archive, prune and
//! sync commands, and sequences the three stages as a state machine that the
//! caller drives with the outcome of each external process.

pub mod command;
pub mod config;
pub mod decimal;
pub mod laws;
pub mod metrics;
pub mod orchestrate;
pub mod output;
pub mod validate;
