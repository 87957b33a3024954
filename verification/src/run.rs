//! Whole runs: the states and steps that a sequence of events leads
//! through, and what holds at every point of every run.

use vstd::prelude::*;
use crate::branch::fallback_of;
use crate::command::{command_line_of, pattern_line_of};
use crate::failure::{exit_code_of, Stage};
use crate::invocation::InvocationView;
use crate::machine::{first_step, initial, transition, Machine, Phase};
use crate::merge::relocation_of;
use crate::process::verdict_of;
use crate::protocol::{ActionView, EntryView, EventView, StepView};
use crate::workspace::{pattern_file_of, workspace_name_of};

verus! {

/// The state of a run of `inv` after `events`.
pub open spec fn state_after(inv: InvocationView, events: Seq<EventView>) -> Machine
    decreases events.len(),
{
    if events.len() == 0 {
        initial(inv)
    } else {
        transition(state_after(inv, events.drop_last()), events.last()).0
    }
}

/// The step that a run of `inv` takes after `events`: the first step when
/// there is no event yet, the answer to the last event otherwise.
pub open spec fn step_after(inv: InvocationView, events: Seq<EventView>) -> StepView
    decreases events.len(),
{
    if events.len() == 0 {
        first_step(inv)
    } else {
        transition(state_after(inv, events.drop_last()), events.last()).1
    }
}

/// The action that a run of `inv` asks for after the first `count` of
/// `events`.
pub open spec fn action_at(inv: InvocationView, events: Seq<EventView>, count: int) -> ActionView {
    step_after(inv, events.take(count)).action
}

/// The action that a state waits on: in every phase there is exactly one.
pub open spec fn awaited(m: Machine) -> ActionView {
    match m.phase {
        Phase::Locating => ActionView::Locate,
        Phase::Creating => ActionView::CreateWorkspace { path: m.workspace() },
        Phase::Entering => ActionView::EnterWorkspace { path: m.workspace() },
        Phase::Initializing => ActionView::Run {
            stage: Stage::Initialize,
            command: command_line_of(Stage::Initialize, m.inv.url, m.inv.branch),
        },
        Phase::Registering => ActionView::Run {
            stage: Stage::RegisterRemote,
            command: command_line_of(Stage::RegisterRemote, m.inv.url, m.inv.branch),
        },
        Phase::Configuring => ActionView::Run {
            stage: Stage::EnableSparse,
            command: command_line_of(Stage::EnableSparse, m.inv.url, m.inv.branch),
        },
        Phase::Recording => ActionView::AppendPattern {
            path: pattern_file_of(m.workspace()),
            line: pattern_line_of(m.inv.folders[m.cursor as int]),
        },
        Phase::Pulling => ActionView::Run {
            stage: Stage::Pull,
            command: command_line_of(Stage::Pull, m.inv.url, m.inv.branch),
        },
        Phase::Retrying => ActionView::Run {
            stage: Stage::Pull,
            command: command_line_of(Stage::Pull, m.inv.url, fallback_of(m.inv.branch).unwrap()),
        },
        Phase::Listing => ActionView::ListWorkspace { path: m.workspace() },
        Phase::Moving => relocation_of(m.moves[m.cursor as int], m.workspace(), m.origin),
        Phase::Discarding | Phase::RollingBack => ActionView::RemoveWorkspace {
            path: m.workspace(),
        },
        Phase::Finished => ActionView::Exit { code: exit_code_of(m.outcome()) },
    }
}

/// The lines that a run of `inv` has written to the pattern file after
/// `events`, in order: the line of each append that was confirmed.
pub open spec fn written(inv: InvocationView, events: Seq<EventView>) -> Seq<Seq<char>>
    decreases events.len(),
{
    if events.len() == 0 {
        Seq::<Seq<char>>::empty()
    } else {
        let before = events.drop_last();
        match (step_after(inv, before).action, events.last()) {
            (ActionView::AppendPattern { path, line }, EventView::Done) => written(
                inv,
                before,
            ).push(line),
            _ => written(inv, before),
        }
    }
}

/// The lines that record `folders` in the pattern file, one for each
/// folder, in the same order.
pub open spec fn pattern_lines_of(folders: Seq<Seq<char>>) -> Seq<Seq<char>> {
    folders.map_values(|folder: Seq<char>| pattern_line_of(folder))
}

/// Whether the workspace of a run of `inv` was created, and the creation
/// confirmed, in the course of `events`.
pub open spec fn created(inv: InvocationView, events: Seq<EventView>) -> bool
    decreases events.len(),
{
    if events.len() == 0 {
        false
    } else {
        let before = events.drop_last();
        ||| created(inv, before)
        ||| step_after(inv, before).action is CreateWorkspace && events.last() is Done
    }
}

/// Whether the workspace of a run of `inv` was removed, and the removal
/// confirmed, in the course of `events`.
pub open spec fn removed(inv: InvocationView, events: Seq<EventView>) -> bool
    decreases events.len(),
{
    if events.len() == 0 {
        false
    } else {
        let before = events.drop_last();
        ||| removed(inv, before)
        ||| step_after(inv, before).action is RemoveWorkspace && events.last() is Done
    }
}

/// Whether a pull of a run of `inv` has succeeded in the course of
/// `events`.
pub open spec fn pulled(inv: InvocationView, events: Seq<EventView>) -> bool
    decreases events.len(),
{
    if events.len() == 0 {
        false
    } else {
        let before = events.drop_last();
        ||| pulled(inv, before)
        ||| match (step_after(inv, before).action, events.last()) {
            (ActionView::Run { stage, command }, EventView::Exited(result)) => stage
                == Stage::Pull && verdict_of(result.status) is Succeeded,
            _ => false,
        }
    }
}

/// Whether `action` stays inside the workspace at `workspace`: it reads
/// and changes nothing outside it, and it removes nothing but the
/// workspace itself.
pub open spec fn confined(action: ActionView, workspace: Seq<char>) -> bool {
    match action {
        ActionView::Locate => true,
        ActionView::CreateWorkspace { path } => path == workspace,
        ActionView::EnterWorkspace { path } => path == workspace,
        ActionView::Run { stage, command } => true,
        ActionView::AppendPattern { path, line } => path == pattern_file_of(workspace),
        ActionView::RemoveWorkspace { path } => path == workspace,
        ActionView::Exit { code } => true,
        ActionView::ListWorkspace { path } => false,
        ActionView::MoveDirectory { from, into } => false,
        ActionView::MoveFile { from, to } => false,
    }
}

/// The listing of the workspace that a run of `inv` was given in the
/// course of `events`, if it asked for one and got it.
pub open spec fn listed(inv: InvocationView, events: Seq<EventView>) -> Option<Seq<EntryView>>
    decreases events.len(),
{
    if events.len() == 0 {
        None
    } else {
        let before = events.drop_last();
        match (step_after(inv, before).action, events.last()) {
            (ActionView::ListWorkspace { path }, EventView::Listed(entries)) => Some(entries),
            _ => listed(inv, before),
        }
    }
}

/// The entries that a run of `inv` has moved into the original directory
/// after `events`, in order: the entry of each move that was confirmed.
pub open spec fn moved(inv: InvocationView, events: Seq<EventView>) -> Seq<EntryView>
    decreases events.len(),
{
    if events.len() == 0 {
        Seq::<EntryView>::empty()
    } else {
        let before = events.drop_last();
        let m = state_after(inv, before);
        if m.phase == Phase::Moving && events.last() is Done {
            moved(inv, before).push(m.moves[m.cursor as int])
        } else {
            moved(inv, before)
        }
    }
}

/// The place of a phase in the order in which a run goes through them.
pub open spec fn rank(phase: Phase) -> nat {
    match phase {
        Phase::Locating => 0,
        Phase::Creating => 1,
        Phase::Entering => 2,
        Phase::Initializing => 3,
        Phase::Registering => 4,
        Phase::Configuring => 5,
        Phase::Recording => 6,
        Phase::Pulling => 7,
        Phase::Retrying => 8,
        Phase::Listing => 9,
        Phase::Moving => 10,
        Phase::Discarding => 11,
        Phase::RollingBack => 12,
        Phase::Finished => 13,
    }
}

/// What holds of every state that a run of `inv` reaches.
pub open spec fn sound(inv: InvocationView, m: Machine) -> bool {
    &&& m.inv == inv
    &&& Some(m.name) == workspace_name_of(inv.url, inv.in_place)
    &&& m.phase == Phase::Recording ==> m.cursor < inv.folders.len()
    &&& m.phase == Phase::Retrying ==> fallback_of(inv.branch) is Some
    &&& m.phase == Phase::Moving ==> m.cursor < m.moves.len()
    &&& (m.phase == Phase::Listing || m.phase == Phase::Moving || m.phase == Phase::Discarding)
        ==> inv.in_place
    &&& (m.phase != Phase::RollingBack && m.phase != Phase::Finished) ==> m.cause is None
    &&& m.phase == Phase::RollingBack ==> m.cause is Some
    &&& m.workspace_left ==> m.cause is Some && m.phase == Phase::Finished
}

/// One transition keeps a sound state sound, and its step asks for the
/// action on which the new state waits.
pub proof fn lemma_transition_sound(inv: InvocationView, m: Machine, event: EventView)
    requires
        sound(inv, m),
    ensures
        sound(inv, transition(m, event).0),
        transition(m, event).1.action == awaited(transition(m, event).0),
{
}

/// Every state of a run is sound, and every step asks for the action on
/// which the state waits.
pub proof fn lemma_run_sound(inv: InvocationView, events: Seq<EventView>)
    requires
        inv.valid(),
    ensures
        sound(inv, state_after(inv, events)),
        step_after(inv, events).action == awaited(state_after(inv, events)),
    decreases events.len(),
{
    if events.len() > 0 {
        lemma_run_sound(inv, events.drop_last());
        lemma_transition_sound(inv, state_after(inv, events.drop_last()), events.last());
    }
}

} // verus!
