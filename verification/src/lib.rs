//! Backup of the data volumes of running containers: the decisions of one
//! backup pass, stated and proved, with the container engine left to the caller.
//!
//! `types` holds the records that the engine reports, `command` the engine
//! invocations and their arguments, `naming` the archive file names.
//! `lifecycle` decides the backup of one container step by step, and `batch`
//! a whole pass over the running containers. `lifecycle_run` and `batch_run`
//! state what those steps add up to, whatever the engine answers.

pub mod batch;
pub mod batch_run;
pub mod command;
pub mod lifecycle;
pub mod lifecycle_run;
pub mod naming;
pub mod types;
