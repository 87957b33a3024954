//! The orchestrator of a run. It decides; the caller acts: each step names
//! one action, and the event that answers it is handed back for the next
//! step, until the action is the exit.

use vstd::prelude::*;
use crate::branch::fallback_branch;
use crate::command::{command_line, pattern_line};
use crate::failure::{Failure, Outcome, Stage};
use crate::invocation::Invocation;
use crate::machine::{first_step, initial, transition, Machine, Phase};
use crate::merge::{relocation, retain};
use crate::protocol::{
    entries_of, reports_of, Action, ActionView, Entry, Event, Report, ReportView, Step,
};
use crate::workspace::{path_inside, pattern_file, workspace_name};

verus! {

/// A run in progress.
pub struct Orchestrator {
    inv: Invocation,
    name: String,
    origin: String,
    phase: Phase,
    cursor: usize,
    moves: Vec<Entry>,
    cause: Option<Failure>,
    workspace_left: bool,
}

impl View for Orchestrator {
    type V = Machine;

    closed spec fn view(&self) -> Machine {
        Machine {
            inv: self.inv@,
            name: self.name@,
            origin: self.origin@,
            phase: self.phase,
            cursor: self.cursor as nat,
            moves: entries_of(self.moves@),
            cause: self.cause,
            workspace_left: self.workspace_left,
        }
    }
}

/// Returns the failure, if any, that `event` means for the command of
/// `stage`.
fn command_failure(stage: Stage, event: &Event) -> (failure: Option<Failure>)
    ensures
        failure == Machine::command_failure(stage, event@),
{
    match event {
        Event::Exited(result) => result.failure(stage),
        _ => Some(Failure::ProcessLaunch(stage)),
    }
}

/// Returns an empty list of reports.
fn nothing() -> (reports: Vec<Report>)
    ensures
        reports_of(reports@) == Seq::<ReportView>::empty(),
{
    let reports: Vec<Report> = Vec::new();
    assert(reports_of(reports@) =~= Seq::<ReportView>::empty());
    reports
}

impl Orchestrator {
    /// Begins a run of `inv`. Returns the orchestrator and its first step,
    /// or nothing when `inv` names no folder or its URL names no
    /// repository: nothing but empty pieces behind its host.
    pub fn start(inv: Invocation) -> (begun: Option<(Orchestrator, Step)>)
        ensures
            match begun {
                Some((orchestrator, step)) => inv@.valid() && orchestrator@ == initial(inv@)
                    && step@ == first_step(inv@),
                None => !inv@.valid(),
            },
    {
        if inv.folders.len() == 0 {
            return None;
        }
        match workspace_name(inv.url.as_str(), inv.in_place) {
            None => None,
            Some(name) => {
                let orchestrator = Orchestrator {
                    inv,
                    name,
                    origin: String::new(),
                    phase: Phase::Locating,
                    cursor: 0,
                    moves: Vec::new(),
                    cause: None,
                    workspace_left: false,
                };
                let mut reports = nothing();
                orchestrator.announce(&Action::Locate, &mut reports);
                proof {
                    assert(entries_of(orchestrator.moves@) =~= Seq::empty());
                    assert(reports_of(reports@) =~= orchestrator@.announce(Action::Locate@));
                }
                Some((orchestrator, Step { reports, action: Action::Locate }))
            },
        }
    }

    /// Takes the event that answers the action of the last step and
    /// returns the next step.
    pub fn step(&mut self, event: Event) -> (step: Step)
        ensures
            (final(self)@, step@) == transition(old(self)@, event@),
    {
        match self.phase {
            Phase::Locating => match event {
                Event::Located(origin) => {
                    self.origin = origin;
                    let path = self.workspace();
                    self.proceed(Phase::Creating, 0, nothing(), Action::CreateWorkspace { path })
                },
                other => self.give_up(Failure::WorkingDirectory, other),
            },
            Phase::Creating => match event {
                Event::Done => {
                    let path = self.workspace();
                    self.proceed(Phase::Entering, 0, nothing(), Action::EnterWorkspace { path })
                },
                other => self.give_up(Failure::DirectoryCreate, other),
            },
            Phase::Entering => match event {
                Event::Done => self.run(Phase::Initializing, Stage::Initialize, None, nothing()),
                other => self.roll_back(Failure::WorkingDirectory, other),
            },
            Phase::Initializing => match command_failure(Stage::Initialize, &event) {
                None => self.run(Phase::Registering, Stage::RegisterRemote, None, nothing()),
                Some(failure) => self.roll_back(failure, event),
            },
            Phase::Registering => match command_failure(Stage::RegisterRemote, &event) {
                None => self.run(Phase::Configuring, Stage::EnableSparse, None, nothing()),
                Some(failure) => self.roll_back(failure, event),
            },
            Phase::Configuring => match command_failure(Stage::EnableSparse, &event) {
                None => self.record(0),
                Some(failure) => self.roll_back(failure, event),
            },
            Phase::Recording => match event {
                Event::Done => {
                    if self.cursor < self.inv.folders.len() {
                        self.record(self.cursor + 1)
                    } else {
                        self.run(Phase::Pulling, Stage::Pull, None, nothing())
                    }
                },
                other => self.roll_back(Failure::PatternWrite, other),
            },
            Phase::Pulling => match command_failure(Stage::Pull, &event) {
                None => self.after_pull(false),
                Some(failure) => self.after_failed_pull(failure, event),
            },
            Phase::Retrying => match command_failure(Stage::Pull, &event) {
                None => self.after_pull(true),
                Some(failure) => self.roll_back(failure, event),
            },
            Phase::Listing => match event {
                Event::Listed(entries) => {
                    self.moves = retain(entries);
                    self.relocate(0)
                },
                other => self.roll_back(Failure::Merge, other),
            },
            Phase::Moving => match event {
                Event::Done => {
                    if self.cursor < self.moves.len() {
                        self.relocate(self.cursor + 1)
                    } else {
                        self.discard()
                    }
                },
                other => self.roll_back(Failure::Merge, other),
            },
            Phase::Discarding => match event {
                Event::Done => self.finish(nothing()),
                other => self.roll_back(Failure::Merge, other),
            },
            Phase::RollingBack => match event {
                Event::Done => self.finish(nothing()),
                other => {
                    let first = self.failing(Failure::Rollback, other);
                    self.workspace_left = true;
                    self.finish(first)
                },
            },
            Phase::Finished => self.finish(nothing()),
        }
    }

    /// Returns where the run stands.
    pub fn phase(&self) -> (phase: Phase)
        ensures
            phase == self@.phase,
    {
        self.phase
    }

    /// Returns how the run ended, or nothing while it is not over.
    pub fn outcome(&self) -> (outcome: Option<Outcome>)
        ensures
            outcome == if self@.phase == Phase::Finished {
                Some(self@.outcome())
            } else {
                None
            },
    {
        match self.phase {
            Phase::Finished => match self.cause {
                None => Some(Outcome::Completed),
                Some(cause) => Some(
                    Outcome::Aborted { cause, workspace_left: self.workspace_left },
                ),
            },
            _ => None,
        }
    }

    /// Returns the path of the workspace. It is complete once the current
    /// directory is resolved.
    pub fn workspace(&self) -> (path: String)
        ensures
            path@ == self@.workspace(),
    {
        path_inside(self.origin.as_str(), self.name.as_str())
    }

    /// Returns what the run was asked to do.
    pub fn invocation(&self) -> (inv: &Invocation)
        ensures
            inv@ == self@.inv,
    {
        &self.inv
    }

    fn announce(&self, action: &Action, reports: &mut Vec<Report>)
        ensures
            reports_of(final(reports)@) == reports_of(old(reports)@) + self@.announce(action@),
    {
        let exits = match action {
            Action::Exit { .. } => true,
            _ => false,
        };
        if self.inv.verbose && !exits {
            reports.push(Report::Starting);
            proof {
                assert(reports_of(reports@) =~= reports_of(old(reports)@) + seq![
                    ReportView::Starting,
                ]);
            }
        } else {
            proof {
                assert(reports_of(reports@) =~= reports_of(old(reports)@)
                    + Seq::<ReportView>::empty());
            }
        }
    }

    fn diagnose(&self, event: Event, reports: &mut Vec<Report>)
        ensures
            reports_of(final(reports)@) == reports_of(old(reports)@) + self@.diagnostics(event@),
    {
        let ghost before = reports_of(reports@);
        if self.inv.errors {
            match event {
                Event::Failed(reason) => {
                    reports.push(Report::Detail(reason));
                    proof {
                        assert(reports_of(reports@) =~= before + seq![ReportView::Detail(reason@)]);
                    }
                },
                Event::Exited(result) => {
                    let report = Report::Output { stdout: result.stdout, stderr: result.stderr };
                    reports.push(report);
                    proof {
                        assert(reports_of(reports@) =~= before + seq![report@]);
                    }
                },
                _ => {
                    proof {
                        assert(reports_of(reports@) =~= before + Seq::<ReportView>::empty());
                    }
                },
            }
        } else {
            proof {
                assert(reports_of(reports@) =~= before + Seq::<ReportView>::empty());
            }
        }
    }

    fn failing(&self, failure: Failure, event: Event) -> (reports: Vec<Report>)
        ensures
            reports_of(reports@) == seq![ReportView::Failed(failure)] + self@.diagnostics(event@),
    {
        let mut reports: Vec<Report> = Vec::new();
        reports.push(Report::Failed(failure));
        proof {
            assert(reports_of(reports@) =~= seq![ReportView::Failed(failure)]);
        }
        self.diagnose(event, &mut reports);
        reports
    }

    fn proceed(&mut self, phase: Phase, cursor: usize, first: Vec<Report>, action: Action) -> (step:
        Step)
        ensures
            (final(self)@, step@) == old(self)@.proceed(
                phase,
                cursor as nat,
                reports_of(first@),
                action@,
            ),
    {
        let mut reports = first;
        self.announce(&action, &mut reports);
        self.phase = phase;
        self.cursor = cursor;
        Step { reports, action }
    }

    fn run(&mut self, phase: Phase, stage: Stage, other: Option<String>, first: Vec<Report>) -> (step:
        Step)
        ensures
            (final(self)@, step@) == old(self)@.run(
                phase,
                stage,
                match other {
                    Some(branch) => branch@,
                    None => old(self)@.inv.branch,
                },
                reports_of(first@),
            ),
    {
        let command = match other {
            Some(branch) => command_line(stage, self.inv.url.as_str(), branch.as_str()),
            None => command_line(stage, self.inv.url.as_str(), self.inv.branch.as_str()),
        };
        self.proceed(phase, 0, first, Action::Run { stage, command })
    }

    fn finish(&mut self, first: Vec<Report>) -> (step: Step)
        ensures
            (final(self)@, step@) == old(self)@.finish(reports_of(first@)),
    {
        self.phase = Phase::Finished;
        let code: i32 = match self.cause {
            None => 0,
            Some(_) => 1,
        };
        Step { reports: first, action: Action::Exit { code } }
    }

    fn give_up(&mut self, failure: Failure, event: Event) -> (step: Step)
        ensures
            (final(self)@, step@) == old(self)@.give_up(failure, event@),
    {
        let first = self.failing(failure, event);
        self.cause = Some(failure);
        self.finish(first)
    }

    fn roll_back(&mut self, failure: Failure, event: Event) -> (step: Step)
        ensures
            (final(self)@, step@) == old(self)@.roll_back(failure, event@),
    {
        let first = self.failing(failure, event);
        let path = self.workspace();
        self.cause = Some(failure);
        self.proceed(Phase::RollingBack, 0, first, Action::RemoveWorkspace { path })
    }

    fn record(&mut self, index: usize) -> (step: Step)
        ensures
            (final(self)@, step@) == old(self)@.record(index as nat),
    {
        if index < self.inv.folders.len() {
            let workspace = self.workspace();
            let path = pattern_file(workspace.as_str());
            let line = pattern_line(self.inv.folders[index].as_str());
            self.proceed(Phase::Recording, index, nothing(), Action::AppendPattern { path, line })
        } else {
            self.run(Phase::Pulling, Stage::Pull, None, nothing())
        }
    }

    fn after_failed_pull(&mut self, failure: Failure, event: Event) -> (step: Step)
        ensures
            (final(self)@, step@) == old(self)@.after_failed_pull(failure, event@),
    {
        match failure {
            Failure::NonZeroExit(_, _) => match fallback_branch(self.inv.branch.as_str()) {
                Some(other) => {
                    let mut first: Vec<Report> = Vec::new();
                    proof {
                        assert(reports_of(first@) =~= Seq::empty());
                    }
                    self.diagnose(event, &mut first);
                    proof {
                        assert(reports_of(first@) =~= self@.diagnostics(event@));
                    }
                    self.run(Phase::Retrying, Stage::Pull, Some(other), first)
                },
                None => self.roll_back(failure, event),
            },
            _ => self.roll_back(failure, event),
        }
    }

    fn after_pull(&mut self, retried: bool) -> (step: Step)
        ensures
            (final(self)@, step@) == old(self)@.after_pull(retried),
    {
        let mut first: Vec<Report> = Vec::new();
        proof {
            assert(reports_of(first@) =~= Seq::empty());
        }
        if self.inv.verbose || retried {
            first.push(Report::Succeeded);
            proof {
                assert(reports_of(first@) =~= seq![ReportView::Succeeded]);
            }
        }
        if self.inv.in_place {
            let path = self.workspace();
            self.proceed(Phase::Listing, 0, first, Action::ListWorkspace { path })
        } else {
            self.finish(first)
        }
    }

    fn relocate(&mut self, index: usize) -> (step: Step)
        ensures
            (final(self)@, step@) == old(self)@.relocate(index as nat),
    {
        if index < self.moves.len() {
            let workspace = self.workspace();
            let action = relocation(&self.moves[index], workspace.as_str(), self.origin.as_str());
            self.proceed(Phase::Moving, index, nothing(), action)
        } else {
            self.discard()
        }
    }

    fn discard(&mut self) -> (step: Step)
        ensures
            (final(self)@, step@) == old(self)@.proceed(
                Phase::Discarding,
                0,
                Seq::<ReportView>::empty(),
                ActionView::RemoveWorkspace { path: old(self)@.workspace() },
            ),
    {
        let path = self.workspace();
        self.proceed(Phase::Discarding, 0, nothing(), Action::RemoveWorkspace { path })
    }
}

} // verus!
