//! Backup and restore of relational databases through their native dump and
//! restore tools.
//!
//! The library does no I/O. It decides which tool to run, with which arguments,
//! environment and input, and what the outcome of the run means; the caller runs
//! the tool and reports back. [`databases::backup_source`] and
//! [`databases::restore_source`] are the two operations, the same for every
//! engine; [`tool`] holds what passes between an operation and its caller.

pub mod blob;
pub mod databases;
pub mod decimal;
pub mod error;
pub mod tool;
