//! The core of a desktop manager for `ddev` projects: which processes to
//! run for what the user asks, how a running task reports to the
//! interface, and how it is cancelled.
//!
//! The library starts no process and touches no file. A task is a value
//! that is told what happened (`RunnerEvent`) and answers with the events
//! to show and the outside work to do next (`Reaction`); the program
//! around the library does that work. What a task answers is a
//! mathematical function of the task, the registry and the event, and
//! the laws that the design rests on, such as that a task reports its end
//! exactly once, are proved from it.
//!
//! - `process`: the registry of running tasks, their identifiers, and
//!   cancellation.
//! - `runner`, `step`, `chain`: a task of one process, one command of a
//!   larger task, and a task of several steps.
//! - `chain_laws`, `history`: what holds of every run of a task, alone
//!   and among others.
//! - `events`, `types`, `error`: what passes between the library, the
//!   program around it and the interface.
//! - `ddev`, `windows`: how the tool is found and called.
//! - `commands`: the operations of the interface, one function each.
//! - `schema`: the values that the tool accepts for a project's settings.
//! - `text`, `counter`: joining, searching and splitting texts, decimal
//!   notation, and a counter that cannot overflow.
//!
//! No function of the library asks anything of its caller: every value
//! that the library hands out is well formed, and stays so.

pub mod chain;
pub mod chain_laws;
pub mod commands;
pub mod counter;
pub mod ddev;
pub mod error;
pub mod events;
pub mod history;
pub mod process;
pub mod runner;
pub mod schema;
pub mod step;
pub mod text;
pub mod types;
pub mod windows;
