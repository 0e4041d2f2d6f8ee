//! The operations that the user interface can ask for. Each one says which
//! process to run and how the task around it reports; running it is left
//! to the caller.

pub mod create;
pub mod projects;
pub mod addons;
pub mod database;
pub mod logs;
pub mod snapshots;
pub mod utils;
pub mod screenshots;
