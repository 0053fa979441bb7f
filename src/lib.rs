//! Named QEMU configurations: storage naming, the configuration record,
//! `${VAR}` parameter substitution and the decisions of the command flows.

pub mod error;
pub mod locator;
pub mod subst;
pub mod config;
pub mod exec;
pub mod store;
pub mod report;
