//! The run as a state machine over plain values: from a state and the
//! event that answers the last action to the next state and the next step.

use vstd::prelude::*;
use crate::branch::fallback_of;
use crate::command::{command_line_of, pattern_line_of};
use crate::failure::{exit_code_of, Failure, Outcome, Stage};
use crate::invocation::InvocationView;
use crate::merge::{relocation_of, retained};
use crate::process::failure_of;
use crate::protocol::{ActionView, EntryView, EventView, ReportView, StepView};
use crate::workspace::{inside, pattern_file_of, workspace_name_of};

verus! {

/// Where a run stands: the action whose answer it waits for.
#[derive(Clone, Copy, Debug, PartialEq, Eq, Structural)]
pub enum Phase {
    /// The current directory is being resolved.
    Locating,
    /// The workspace is being created.
    Creating,
    /// The workspace is being entered.
    Entering,
    /// The empty repository is being made.
    Initializing,
    /// The remote is being added and fetched.
    Registering,
    /// Sparse mode is being switched on.
    Configuring,
    /// A folder pattern is being written.
    Recording,
    /// The branch that was asked for is being pulled.
    Pulling,
    /// The other branch of the pair is being pulled.
    Retrying,
    /// The workspace is being listed.
    Listing,
    /// An entry is being moved into the original directory.
    Moving,
    /// The emptied workspace is being removed after the merge.
    Discarding,
    /// The workspace is being removed after a failure.
    RollingBack,
    /// The run is over.
    Finished,
}

/// The state of a run.
pub struct Machine {
    /// What the run was asked to do.
    pub inv: InvocationView,
    /// The workspace's name.
    pub name: Seq<char>,
    /// The directory in which the run began; empty until it is resolved.
    pub origin: Seq<char>,
    /// Where the run stands.
    pub phase: Phase,
    /// While recording, the index of the folder being written; while
    /// moving, the index of the entry being moved.
    pub cursor: nat,
    /// The entries to move, once the workspace is listed.
    pub moves: Seq<EntryView>,
    /// Why the run was given up, if it was.
    pub cause: Option<Failure>,
    /// Whether removing the workspace after a failure failed too.
    pub workspace_left: bool,
}

impl Machine {
    /// The path of the workspace.
    pub open spec fn workspace(self) -> Seq<char> {
        inside(self.origin, self.name)
    }

    /// How the run ended, or would end if it ended now.
    pub open spec fn outcome(self) -> Outcome {
        match self.cause {
            None => Outcome::Completed,
            Some(cause) => Outcome::Aborted { cause, workspace_left: self.workspace_left },
        }
    }

    /// The progress report for `action`: every action but the exit is
    /// announced when step-by-step reporting was asked for.
    pub open spec fn announce(self, action: ActionView) -> Seq<ReportView> {
        if self.inv.verbose && !(action is Exit) {
            seq![ReportView::Starting]
        } else {
            Seq::<ReportView>::empty()
        }
    }

    /// What `event` carries to show when the output of failures was asked
    /// for: the reason of a failed action, or what a command wrote.
    pub open spec fn diagnostics(self, event: EventView) -> Seq<ReportView> {
        if !self.inv.errors {
            Seq::<ReportView>::empty()
        } else {
            match event {
                EventView::Failed(reason) => seq![ReportView::Detail(reason)],
                EventView::Exited(result) => seq![
                    ReportView::Output { stdout: result.stdout, stderr: result.stderr },
                ],
                _ => Seq::<ReportView>::empty(),
            }
        }
    }

    /// Go on to `phase` with `action`, showing `first` and then the
    /// announcement of the action.
    pub open spec fn proceed(
        self,
        phase: Phase,
        cursor: nat,
        first: Seq<ReportView>,
        action: ActionView,
    ) -> (Machine, StepView) {
        (
            Machine { phase, cursor, ..self },
            StepView { reports: first + self.announce(action), action },
        )
    }

    /// Go on to `phase` by running the command of `stage` on `branch`.
    pub open spec fn run(
        self,
        phase: Phase,
        stage: Stage,
        branch: Seq<char>,
        first: Seq<ReportView>,
    ) -> (Machine, StepView) {
        self.proceed(
            phase,
            0,
            first,
            ActionView::Run { stage, command: command_line_of(stage, self.inv.url, branch) },
        )
    }

    /// End the run, showing `first`.
    pub open spec fn finish(self, first: Seq<ReportView>) -> (Machine, StepView) {
        (
            Machine { phase: Phase::Finished, ..self },
            StepView { reports: first, action: ActionView::Exit { code: exit_code_of(self.outcome()) } },
        )
    }

    /// Give the run up because of `failure` while no workspace exists:
    /// there is nothing to remove, so the run ends at once.
    pub open spec fn give_up(self, failure: Failure, event: EventView) -> (Machine, StepView) {
        Machine { cause: Some(failure), ..self }.finish(
            seq![ReportView::Failed(failure)] + self.diagnostics(event),
        )
    }

    /// Give the run up because of `failure` once the workspace exists: the
    /// workspace is removed before the run ends.
    pub open spec fn roll_back(self, failure: Failure, event: EventView) -> (Machine, StepView) {
        Machine { cause: Some(failure), ..self }.proceed(
            Phase::RollingBack,
            0,
            seq![ReportView::Failed(failure)] + self.diagnostics(event),
            ActionView::RemoveWorkspace { path: self.workspace() },
        )
    }

    /// The failure, if any, that `event` means for the command of `stage`.
    /// Anything but a process result means that the command never ran.
    pub open spec fn command_failure(stage: Stage, event: EventView) -> Option<Failure> {
        match event {
            EventView::Exited(result) => failure_of(stage, result.status),
            _ => Some(Failure::ProcessLaunch(stage)),
        }
    }

    /// What follows the command of `stage`: `next` when it succeeded, the
    /// rollback when it did not.
    pub open spec fn after_command(
        self,
        stage: Stage,
        event: EventView,
        next: (Machine, StepView),
    ) -> (Machine, StepView) {
        match Self::command_failure(stage, event) {
            None => next,
            Some(failure) => self.roll_back(failure, event),
        }
    }

    /// Write the folder at `index` to the pattern file, or pull once every
    /// folder is written.
    pub open spec fn record(self, index: nat) -> (Machine, StepView) {
        if index < self.inv.folders.len() {
            self.proceed(
                Phase::Recording,
                index,
                Seq::<ReportView>::empty(),
                ActionView::AppendPattern {
                    path: pattern_file_of(self.workspace()),
                    line: pattern_line_of(self.inv.folders[index as int]),
                },
            )
        } else {
            self.run(Phase::Pulling, Stage::Pull, self.inv.branch, Seq::<ReportView>::empty())
        }
    }

    /// What follows a failed pull of the branch that was asked for: one
    /// pull of the other branch where the pull exited with a failure and
    /// the branch is one of the pair, the rollback otherwise.
    pub open spec fn after_failed_pull(self, failure: Failure, event: EventView) -> (
        Machine,
        StepView,
    ) {
        match (failure, fallback_of(self.inv.branch)) {
            (Failure::NonZeroExit(_, _), Some(other)) => self.run(
                Phase::Retrying,
                Stage::Pull,
                other,
                self.diagnostics(event),
            ),
            _ => self.roll_back(failure, event),
        }
    }

    /// What follows a pull that succeeded. Success is reported when
    /// progress is, and always after a retry.
    pub open spec fn after_pull(self, retried: bool) -> (Machine, StepView) {
        let first = if self.inv.verbose || retried {
            seq![ReportView::Succeeded]
        } else {
            Seq::<ReportView>::empty()
        };
        if self.inv.in_place {
            self.proceed(
                Phase::Listing,
                0,
                first,
                ActionView::ListWorkspace { path: self.workspace() },
            )
        } else {
            self.finish(first)
        }
    }

    /// Move the entry at `index`, or discard the workspace once every
    /// entry is moved.
    pub open spec fn relocate(self, index: nat) -> (Machine, StepView) {
        if index < self.moves.len() {
            self.proceed(
                Phase::Moving,
                index,
                Seq::<ReportView>::empty(),
                relocation_of(self.moves[index as int], self.workspace(), self.origin),
            )
        } else {
            self.proceed(
                Phase::Discarding,
                0,
                Seq::<ReportView>::empty(),
                ActionView::RemoveWorkspace { path: self.workspace() },
            )
        }
    }
}

/// The state in which a run of `inv` begins.
pub open spec fn initial(inv: InvocationView) -> Machine {
    Machine {
        inv,
        name: workspace_name_of(inv.url, inv.in_place).unwrap(),
        origin: Seq::<char>::empty(),
        phase: Phase::Locating,
        cursor: 0,
        moves: Seq::<EntryView>::empty(),
        cause: None,
        workspace_left: false,
    }
}

/// The step with which a run of `inv` begins.
pub open spec fn first_step(inv: InvocationView) -> StepView {
    StepView { reports: initial(inv).announce(ActionView::Locate), action: ActionView::Locate }
}

/// The state and the step that follow when `event` answers the last action
/// of a run in state `m`. An event that does not confirm the action counts
/// as its failure.
pub open spec fn transition(m: Machine, event: EventView) -> (Machine, StepView) {
    match m.phase {
        Phase::Locating => match event {
            EventView::Located(origin) => {
                let located = Machine { origin, ..m };
                located.proceed(
                    Phase::Creating,
                    0,
                    Seq::<ReportView>::empty(),
                    ActionView::CreateWorkspace { path: located.workspace() },
                )
            },
            _ => m.give_up(Failure::WorkingDirectory, event),
        },
        Phase::Creating => match event {
            EventView::Done => m.proceed(
                Phase::Entering,
                0,
                Seq::<ReportView>::empty(),
                ActionView::EnterWorkspace { path: m.workspace() },
            ),
            _ => m.give_up(Failure::DirectoryCreate, event),
        },
        Phase::Entering => match event {
            EventView::Done => m.run(
                Phase::Initializing,
                Stage::Initialize,
                m.inv.branch,
                Seq::<ReportView>::empty(),
            ),
            _ => m.roll_back(Failure::WorkingDirectory, event),
        },
        Phase::Initializing => m.after_command(
            Stage::Initialize,
            event,
            m.run(
                Phase::Registering,
                Stage::RegisterRemote,
                m.inv.branch,
                Seq::<ReportView>::empty(),
            ),
        ),
        Phase::Registering => m.after_command(
            Stage::RegisterRemote,
            event,
            m.run(
                Phase::Configuring,
                Stage::EnableSparse,
                m.inv.branch,
                Seq::<ReportView>::empty(),
            ),
        ),
        Phase::Configuring => m.after_command(Stage::EnableSparse, event, m.record(0)),
        Phase::Recording => match event {
            EventView::Done => m.record(m.cursor + 1),
            _ => m.roll_back(Failure::PatternWrite, event),
        },
        Phase::Pulling => match Machine::command_failure(Stage::Pull, event) {
            None => m.after_pull(false),
            Some(failure) => m.after_failed_pull(failure, event),
        },
        Phase::Retrying => m.after_command(Stage::Pull, event, m.after_pull(true)),
        Phase::Listing => match event {
            EventView::Listed(entries) => Machine { moves: retained(entries), ..m }.relocate(0),
            _ => m.roll_back(Failure::Merge, event),
        },
        Phase::Moving => match event {
            EventView::Done => m.relocate(m.cursor + 1),
            _ => m.roll_back(Failure::Merge, event),
        },
        Phase::Discarding => match event {
            EventView::Done => m.finish(Seq::<ReportView>::empty()),
            _ => m.roll_back(Failure::Merge, event),
        },
        Phase::RollingBack => match event {
            EventView::Done => m.finish(Seq::<ReportView>::empty()),
            _ => Machine { workspace_left: true, ..m }.finish(
                seq![ReportView::Failed(Failure::Rollback)] + m.diagnostics(event),
            ),
        },
        Phase::Finished => m.finish(Seq::<ReportView>::empty()),
    }
}

} // verus!
