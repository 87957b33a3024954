//! Planning core of a sparse checkout of chosen folders from a remote git
//! repository, with an optional merge of the result into the current
//! directory.
//!
//! The library touches neither the disk nor any process. An
//! [`orchestrator::Orchestrator`] decides what is done next and names it
//! as an [`protocol::Action`]; the caller carries the action out and hands
//! back the [`protocol::Event`] that came of it. The rules of a run (the
//! order of the steps, the one fallback between `main` and `master`, the
//! removal of the workspace after any failure) are the transition function
//! in [`machine`], and [`laws`] proves what follows from them for every
//! run.

pub mod branch;
pub mod command;
pub mod failure;
pub mod invocation;
pub mod laws;
pub mod machine;
pub mod merge;
pub mod orchestrator;
pub mod process;
pub mod protocol;
pub mod run;
pub mod text;
pub mod workspace;
