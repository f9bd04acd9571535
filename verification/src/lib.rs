//! Isolated Python environments for command line tools: one environment per
//! package, a record beside it, and launchers in a shared bin directory.
//!
//! This crate holds the rules: how a record is framed and shown, which
//! versions of a package may be offered, what each operation asks of the
//! installer and what it leaves in the record. Reading and writing files,
//! starting programs and asking the index are left to the caller, who hands
//! in what was found and carries out what is decided.

pub mod animate;
pub mod cli;
pub mod codec;
pub mod commands;
pub mod error;
pub mod freeze;
pub mod helpers;
pub mod installer;
pub mod metadata;
pub mod names;
pub mod paint;
pub mod paths;
pub mod pep440;
pub mod pip;
pub mod pypi;
pub mod requirement;
pub mod scripts;
pub mod state;
pub mod symlinks;
pub mod text;
pub mod venv;
