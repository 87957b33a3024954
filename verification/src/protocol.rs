//! What passes between the orchestrator and the code that acts for it:
//! the actions it asks for, the events it is told of, and the reports it
//! wants shown.

use vstd::prelude::*;
use crate::failure::{Failure, Stage};
use crate::process::{ProcessResult, ProcessResultView};

verus! {

/// One top-level entry of the workspace.
#[derive(Clone, Debug, PartialEq, Eq)]
pub struct Entry {
    /// The entry's file name, without any directory.
    pub name: String,
    /// Whether the entry is a directory.
    pub is_dir: bool,
}

/// An entry as plain values.
pub struct EntryView {
    pub name: Seq<char>,
    pub is_dir: bool,
}

impl View for Entry {
    type V = EntryView;

    open spec fn view(&self) -> EntryView {
        EntryView { name: self.name@, is_dir: self.is_dir }
    }
}

/// The entries of a listing as plain values.
pub open spec fn entries_of(entries: Seq<Entry>) -> Seq<EntryView> {
    entries.map_values(|entry: Entry| entry@)
}

/// What the orchestrator asks to be done next.
#[derive(Clone, Debug, PartialEq, Eq)]
pub enum Action {
    /// Resolve the current directory.
    Locate,
    /// Create the directory `path`. Nothing that is there already is
    /// removed or changed: where the path is taken, the creation fails.
    CreateWorkspace { path: String },
    /// Make `path` the current directory.
    EnterWorkspace { path: String },
    /// Run the command line `command` and capture its output.
    Run { stage: Stage, command: String },
    /// Append `line` to the file `path`, creating the file if it is missing.
    AppendPattern { path: String, line: String },
    /// List the top-level entries of the directory `path`.
    ListWorkspace { path: String },
    /// Move the directory `from`, with all that it holds, into the
    /// directory `into`, under its own name.
    MoveDirectory { from: String, into: String },
    /// Move the file `from` to the path `to`.
    MoveFile { from: String, to: String },
    /// Remove the directory `path` with all that it holds.
    RemoveWorkspace { path: String },
    /// End the process with the status `code`.
    Exit { code: i32 },
}

/// An action as plain values.
pub enum ActionView {
    Locate,
    CreateWorkspace { path: Seq<char> },
    EnterWorkspace { path: Seq<char> },
    Run { stage: Stage, command: Seq<char> },
    AppendPattern { path: Seq<char>, line: Seq<char> },
    ListWorkspace { path: Seq<char> },
    MoveDirectory { from: Seq<char>, into: Seq<char> },
    MoveFile { from: Seq<char>, to: Seq<char> },
    RemoveWorkspace { path: Seq<char> },
    Exit { code: i32 },
}

impl View for Action {
    type V = ActionView;

    open spec fn view(&self) -> ActionView {
        match *self {
            Action::Locate => ActionView::Locate,
            Action::CreateWorkspace { path } => ActionView::CreateWorkspace { path: path@ },
            Action::EnterWorkspace { path } => ActionView::EnterWorkspace { path: path@ },
            Action::Run { stage, command } => ActionView::Run { stage, command: command@ },
            Action::AppendPattern { path, line } => ActionView::AppendPattern {
                path: path@,
                line: line@,
            },
            Action::ListWorkspace { path } => ActionView::ListWorkspace { path: path@ },
            Action::MoveDirectory { from, into } => ActionView::MoveDirectory {
                from: from@,
                into: into@,
            },
            Action::MoveFile { from, to } => ActionView::MoveFile { from: from@, to: to@ },
            Action::RemoveWorkspace { path } => ActionView::RemoveWorkspace { path: path@ },
            Action::Exit { code } => ActionView::Exit { code },
        }
    }
}

/// What happened to the action that was asked for last.
#[derive(Clone, Debug, PartialEq, Eq)]
pub enum Event {
    /// The current directory was resolved to this path.
    Located(String),
    /// The action was carried out.
    Done,
    /// The action could not be carried out, or the command could not be
    /// started; the text says why.
    Failed(String),
    /// The command was started and came to an end.
    Exited(ProcessResult),
    /// The directory holds these entries.
    Listed(Vec<Entry>),
}

/// An event as plain values.
pub enum EventView {
    Located(Seq<char>),
    Done,
    Failed(Seq<char>),
    Exited(ProcessResultView),
    Listed(Seq<EntryView>),
}

impl View for Event {
    type V = EventView;

    open spec fn view(&self) -> EventView {
        match *self {
            Event::Located(path) => EventView::Located(path@),
            Event::Done => EventView::Done,
            Event::Failed(reason) => EventView::Failed(reason@),
            Event::Exited(result) => EventView::Exited(result@),
            Event::Listed(entries) => EventView::Listed(entries_of(entries@)),
        }
    }
}

/// Something to show to the user.
#[derive(Clone, Debug, PartialEq, Eq)]
pub enum Report {
    /// Progress: the action that comes with this report starts now.
    Starting,
    /// A fatal error.
    Failed(Failure),
    /// The reason that came with a failed action.
    Detail(String),
    /// What a failed command wrote to its two output streams.
    Output { stdout: String, stderr: String },
    /// The pull succeeded.
    Succeeded,
}

/// A report as plain values.
pub enum ReportView {
    Starting,
    Failed(Failure),
    Detail(Seq<char>),
    Output { stdout: Seq<char>, stderr: Seq<char> },
    Succeeded,
}

impl View for Report {
    type V = ReportView;

    open spec fn view(&self) -> ReportView {
        match *self {
            Report::Starting => ReportView::Starting,
            Report::Failed(failure) => ReportView::Failed(failure),
            Report::Detail(reason) => ReportView::Detail(reason@),
            Report::Output { stdout, stderr } => ReportView::Output {
                stdout: stdout@,
                stderr: stderr@,
            },
            Report::Succeeded => ReportView::Succeeded,
        }
    }
}

/// The reports of a list as plain values.
pub open spec fn reports_of(reports: Seq<Report>) -> Seq<ReportView> {
    reports.map_values(|report: Report| report@)
}

/// One move of the orchestrator: what to show, then what to do.
#[derive(Clone, Debug, PartialEq, Eq)]
pub struct Step {
    /// What to show before the action, in this order.
    pub reports: Vec<Report>,
    /// What to do.
    pub action: Action,
}

/// A step as plain values.
pub struct StepView {
    pub reports: Seq<ReportView>,
    pub action: ActionView,
}

impl View for Step {
    type V = StepView;

    open spec fn view(&self) -> StepView {
        StepView { reports: reports_of(self.reports@), action: self.action@ }
    }
}

} // verus!
