//! What can go wrong during a run, and how a run ends.

use vstd::prelude::*;

verus! {

/// The git commands of a run, in the order in which they are issued.
#[derive(Clone, Copy, Debug, PartialEq, Eq, Structural)]
pub enum Stage {
    /// Make an empty repository in the workspace.
    Initialize,
    /// Add the remote and fetch from it at once.
    RegisterRemote,
    /// Switch the repository to sparse mode.
    EnableSparse,
    /// Pull the branch into the working tree.
    Pull,
}

/// The fatal errors of a run.
#[derive(Clone, Copy, Debug, PartialEq, Eq, Structural)]
pub enum Failure {
    /// The workspace directory could not be created.
    DirectoryCreate,
    /// The current directory could not be resolved, or the workspace could
    /// not be entered.
    WorkingDirectory,
    /// The command of this stage could not be started at all.
    ProcessLaunch(Stage),
    /// The command of this stage was interrupted before it exited.
    ProcessInterrupted(Stage),
    /// The command of this stage exited with this non-zero status.
    NonZeroExit(Stage, i32),
    /// A folder pattern could not be written to the pattern file.
    PatternWrite,
    /// The checkout could not be moved into the original directory, or the
    /// emptied workspace could not be discarded.
    Merge,
    /// The workspace could not be removed after another failure.
    Rollback,
}

/// How a finished run ended.
#[derive(Clone, Copy, Debug, PartialEq, Eq, Structural)]
pub enum Outcome {
    /// Every step succeeded.
    Completed,
    /// The run was given up because of `cause`. `workspace_left` tells that
    /// removing the workspace failed as well, so that it is still on disk.
    Aborted { cause: Failure, workspace_left: bool },
}

/// The status with which the process ends after `outcome`.
pub open spec fn exit_code_of(outcome: Outcome) -> i32 {
    match outcome {
        Outcome::Completed => 0i32,
        Outcome::Aborted { .. } => 1i32,
    }
}

impl Outcome {
    /// Returns the status with which the process ends.
    pub fn exit_code(&self) -> (code: i32)
        ensures
            code == exit_code_of(*self),
    {
        match self {
            Outcome::Completed => 0,
            Outcome::Aborted { .. } => 1,
        }
    }

    /// Returns every failure to report, the cause first. A failed removal of
    /// the workspace comes in addition to the cause, never in its place.
    pub fn failures(&self) -> (all: Vec<Failure>)
        ensures
            all@ == failures_of(*self),
    {
        let mut all: Vec<Failure> = Vec::new();
        match self {
            Outcome::Completed => {},
            Outcome::Aborted { cause, workspace_left } => {
                all.push(*cause);
                if *workspace_left {
                    all.push(Failure::Rollback);
                }
            },
        }
        all
    }
}

/// Every failure that `outcome` stands for, the cause first.
pub open spec fn failures_of(outcome: Outcome) -> Seq<Failure> {
    match outcome {
        Outcome::Completed => Seq::<Failure>::empty(),
        Outcome::Aborted { cause, workspace_left } => if workspace_left {
            seq![cause, Failure::Rollback]
        } else {
            seq![cause]
        },
    }
}

} // verus!
