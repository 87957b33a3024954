//! The result of an external command and what it means for the run.

use vstd::prelude::*;
use crate::failure::{Failure, Stage};

verus! {

/// What came back from an external command that was started.
#[derive(Clone, Debug, PartialEq, Eq)]
pub struct ProcessResult {
    /// The exit status; absent when the process was interrupted.
    pub status: Option<i32>,
    /// What the process wrote to its standard output.
    pub stdout: String,
    /// What the process wrote to its standard error.
    pub stderr: String,
}

/// A process result as plain values.
pub struct ProcessResultView {
    pub status: Option<i32>,
    pub stdout: Seq<char>,
    pub stderr: Seq<char>,
}

impl View for ProcessResult {
    type V = ProcessResultView;

    open spec fn view(&self) -> ProcessResultView {
        ProcessResultView { status: self.status, stdout: self.stdout@, stderr: self.stderr@ }
    }
}

/// The three ways in which a started process can end.
#[derive(Clone, Copy, Debug, PartialEq, Eq, Structural)]
pub enum Verdict {
    /// It exited with status zero.
    Succeeded,
    /// It exited with this status, which is not zero.
    Failed(i32),
    /// It did not exit by itself.
    Interrupted,
}

/// The verdict on a process with this exit status.
pub open spec fn verdict_of(status: Option<i32>) -> Verdict {
    match status {
        Some(code) => if code == 0 {
            Verdict::Succeeded
        } else {
            Verdict::Failed(code)
        },
        None => Verdict::Interrupted,
    }
}

/// The failure, if any, that a process with this exit status means for the
/// stage that ran it.
pub open spec fn failure_of(stage: Stage, status: Option<i32>) -> Option<Failure> {
    match verdict_of(status) {
        Verdict::Succeeded => None,
        Verdict::Failed(code) => Some(Failure::NonZeroExit(stage, code)),
        Verdict::Interrupted => Some(Failure::ProcessInterrupted(stage)),
    }
}

impl ProcessResult {
    /// Returns how the process ended.
    pub fn verdict(&self) -> (verdict: Verdict)
        ensures
            verdict == verdict_of(self.status),
    {
        match self.status {
            Some(code) => if code == 0 {
                Verdict::Succeeded
            } else {
                Verdict::Failed(code)
            },
            None => Verdict::Interrupted,
        }
    }

    /// Returns the failure that this result means for `stage`, or nothing
    /// when the process succeeded.
    pub fn failure(&self, stage: Stage) -> (failure: Option<Failure>)
        ensures
            failure == failure_of(stage, self.status),
    {
        match self.verdict() {
            Verdict::Succeeded => None,
            Verdict::Failed(code) => Some(Failure::NonZeroExit(stage, code)),
            Verdict::Interrupted => Some(Failure::ProcessInterrupted(stage)),
        }
    }
}

} // verus!
