//! The decisions of each operation: given what was found, what is to be done,
//! what is recorded and what is said.

pub mod all;
pub mod check;
pub mod create;
pub mod ensurepath;
pub mod inject;
pub mod install;
pub mod list;
pub mod reinstall;
pub mod run;
pub mod self_link;
pub mod self_update;
pub mod self_version;
pub mod setup;
pub mod uninject;
pub mod uninstall;
pub mod upgrade;
