//! Laws of the orchestration, each proved of every run.

use vstd::prelude::*;
use crate::branch::fallback_of;
use crate::command::command_line_of;
use crate::failure::{failures_of, Failure, Outcome, Stage};
use crate::invocation::InvocationView;
use crate::machine::{transition, Machine, Phase};
use crate::merge::{is_retrieved, landing_of, relocation_of, retained, retrieved};
use crate::process::{verdict_of, ProcessResultView};
use crate::protocol::{ActionView, EntryView, EventView, ReportView};
use crate::run::{
    action_at, confined, created, lemma_run_sound, lemma_transition_sound, listed, moved,
    pattern_lines_of, pulled, rank, removed, sound, state_after, step_after, written,
};
use crate::workspace::inside;

verus! {

/// A run never goes back: no transition leads to an earlier phase, and the
/// end is final.
pub proof fn lemma_transition_advances(m: Machine, event: EventView)
    ensures
        rank(transition(m, event).0.phase) >= rank(m.phase),
        m.phase == Phase::Finished ==> transition(m, event).0 == m,
{
}

/// Every transition of a run that is not over brings it nearer to its
/// end: it leads to a later phase or, while the folders are written or the
/// entries moved, to the next of them. So no step is taken twice; the pull
/// above all is retried once at most.
pub proof fn lemma_transition_progresses(inv: InvocationView, m: Machine, event: EventView)
    requires
        sound(inv, m),
        m.phase != Phase::Finished,
    ensures
        ({
            let next = transition(m, event).0;
            ||| rank(next.phase) > rank(m.phase)
            ||| next.phase == m.phase && next.cursor == m.cursor + 1 && (m.phase
                == Phase::Recording || m.phase == Phase::Moving)
        }),
{
}

/// The phases of a run come in their order: a longer run of the same
/// events stands at no earlier phase.
pub proof fn lemma_run_advances(inv: InvocationView, events: Seq<EventView>, count: int)
    requires
        0 <= count <= events.len(),
    ensures
        rank(state_after(inv, events.take(count)).phase) <= rank(state_after(inv, events).phase),
    decreases events.len() - count,
{
    if count == events.len() {
        assert(events.take(count) =~= events);
    } else {
        assert(events.drop_last().take(count) =~= events.take(count));
        lemma_run_advances(inv, events.drop_last(), count);
        lemma_transition_advances(state_after(inv, events.drop_last()), events.last());
    }
}

/// What a run has written to the pattern file, phase by phase: nothing
/// before the first append, the lines of the folders before the cursor
/// while appending, and the lines of all folders from the pull on, as
/// long as nothing has failed. And when a pull has succeeded: never while
/// the run still prepares or pulls, always once it merges or has ended
/// well.
pub open spec fn recorded(inv: InvocationView, events: Seq<EventView>) -> bool {
    let m = state_after(inv, events);
    let lines = pattern_lines_of(inv.folders);
    &&& rank(m.phase) < rank(Phase::Recording) ==> written(inv, events) == Seq::<
        Seq<char>,
    >::empty()
    &&& m.phase == Phase::Recording ==> written(inv, events) == lines.take(m.cursor as int)
    &&& rank(m.phase) >= rank(Phase::Pulling) && m.cause is None ==> written(inv, events)
        == lines
    &&& rank(m.phase) < rank(Phase::Listing) ==> !pulled(inv, events)
    &&& rank(Phase::Listing) <= rank(m.phase) <= rank(Phase::Discarding) ==> pulled(inv, events)
    &&& m.phase == Phase::Finished && m.cause is None ==> pulled(inv, events)
}

/// Every run keeps the pattern file as `recorded` says, at each of its
/// points.
pub proof fn lemma_run_recorded(inv: InvocationView, events: Seq<EventView>)
    requires
        inv.valid(),
    ensures
        recorded(inv, events),
    decreases events.len(),
{
    let lines = pattern_lines_of(inv.folders);
    if events.len() > 0 {
        let before = events.drop_last();
        let m = state_after(inv, before);
        lemma_run_recorded(inv, before);
        lemma_run_sound(inv, before);
        lemma_transition_sound(inv, m, events.last());
        lemma_transition_advances(m, events.last());
        if m.phase == Phase::Recording && events.last() is Done {
            assert(lines.take(m.cursor as int).push(lines[m.cursor as int]) =~= lines.take(
                m.cursor as int + 1,
            ));
            assert(lines.take(lines.len() as int) =~= lines);
        }
        if m.phase == Phase::Configuring {
            assert(lines.take(0) =~= Seq::<Seq<char>>::empty());
        }
    }
}

/// Whenever a run asks for a pull, the pattern file holds one line for
/// each folder of the invocation, in the order of the folders, and nothing
/// else: every line was appended, and confirmed, before.
pub proof fn lemma_patterns_written_before_pull(inv: InvocationView, events: Seq<EventView>)
    requires
        inv.valid(),
        step_after(inv, events).action matches ActionView::Run { stage, .. } && stage
            == Stage::Pull,
    ensures
        written(inv, events) == pattern_lines_of(inv.folders),
        written(inv, events).len() == inv.folders.len(),
{
    lemma_run_sound(inv, events);
    lemma_run_recorded(inv, events);
}

/// When the workspace cannot be created, the run ends at once with status
/// 1: before that it has asked for no command and for no removal, and
/// after that it asks for nothing but the exit.
pub proof fn lemma_failed_creation_ends_run(
    inv: InvocationView,
    events: Seq<EventView>,
    count: int,
    at: int,
)
    requires
        inv.valid(),
        0 <= count < events.len(),
        state_after(inv, events.take(count)).phase == Phase::Creating,
        !(events[count] is Done),
        0 <= at <= events.len(),
    ensures
        !(action_at(inv, events, at) is Run),
        !(action_at(inv, events, at) is RemoveWorkspace),
        at > count ==> action_at(inv, events, at) == (ActionView::Exit { code: 1 }),
{
    lemma_run_sound(inv, events.take(at));
    if at <= count {
        assert(events.take(count).take(at) =~= events.take(at));
        lemma_run_advances(inv, events.take(count), at);
    } else {
        let failed = events.take(count + 1);
        assert(failed.drop_last() =~= events.take(count));
        assert(failed.last() == events[count]);
        lemma_run_sound(inv, events.take(count));
        assert(state_after(inv, failed).phase == Phase::Finished);
        assert(state_after(inv, failed).cause is Some);
        assert(events.take(at).take(count + 1) =~= failed);
        lemma_finished_stays(inv, events.take(at), count + 1);
    }
}

/// Once a run is over, its state does not change any more.
pub proof fn lemma_finished_stays(inv: InvocationView, events: Seq<EventView>, count: int)
    requires
        0 <= count <= events.len(),
        state_after(inv, events.take(count)).phase == Phase::Finished,
    ensures
        state_after(inv, events) == state_after(inv, events.take(count)),
    decreases events.len() - count,
{
    if count == events.len() {
        assert(events.take(count) =~= events);
    } else {
        assert(events.drop_last().take(count) =~= events.take(count));
        lemma_finished_stays(inv, events.drop_last(), count);
        lemma_transition_advances(state_after(inv, events.drop_last()), events.last());
    }
}

/// A pull of `main` or `master` that exits with a failure is answered by
/// one pull of the other branch: nothing is given up, no failure is
/// reported, and the pattern file is left as it is.
pub proof fn lemma_failed_pull_falls_back(
    inv: InvocationView,
    events: Seq<EventView>,
    result: ProcessResultView,
)
    requires
        inv.valid(),
        fallback_of(inv.branch) is Some,
        state_after(inv, events).phase == Phase::Pulling,
        verdict_of(result.status) is Failed,
    ensures
        ({
            let follows = events.push(EventView::Exited(result));
            let step = step_after(inv, follows);
            &&& state_after(inv, follows).phase == Phase::Retrying
            &&& state_after(inv, follows).cause is None
            &&& step.action == ActionView::Run {
                stage: Stage::Pull,
                command: command_line_of(Stage::Pull, inv.url, fallback_of(inv.branch)->0),
            }
            &&& forall|i: int| 0 <= i < step.reports.len() ==> !(#[trigger] step.reports[i] is Failed)
            &&& written(inv, follows) == written(inv, events)
        }),
{
    let follows = events.push(EventView::Exited(result));
    assert(follows.drop_last() =~= events);
    lemma_run_sound(inv, events);
}

/// The retry is the last attempt: when the second pull fails too, in
/// whatever way, the run is given up and the workspace removed.
pub proof fn lemma_retry_is_final(inv: InvocationView, events: Seq<EventView>, event: EventView)
    requires
        inv.valid(),
        state_after(inv, events).phase == Phase::Retrying,
        Machine::command_failure(Stage::Pull, event) is Some,
    ensures
        ({
            let m = state_after(inv, events);
            let follows = events.push(event);
            &&& state_after(inv, follows).phase == Phase::RollingBack
            &&& state_after(inv, follows).cause == Machine::command_failure(Stage::Pull, event)
            &&& step_after(inv, follows).action == ActionView::RemoveWorkspace {
                path: m.workspace(),
            }
        }),
{
    assert(events.push(event).drop_last() =~= events);
    lemma_run_sound(inv, events);
}

/// A pull that succeeds after the fallback is reported as a success, and
/// ends a run that is not in place with status 0.
pub proof fn lemma_retry_success_is_reported(
    inv: InvocationView,
    events: Seq<EventView>,
    result: ProcessResultView,
)
    requires
        inv.valid(),
        state_after(inv, events).phase == Phase::Retrying,
        verdict_of(result.status) is Succeeded,
    ensures
        ({
            let follows = events.push(EventView::Exited(result));
            let step = step_after(inv, follows);
            &&& step.reports.len() > 0 && step.reports[0] == ReportView::Succeeded
            &&& !inv.in_place ==> step.action == ActionView::Exit { code: 0 }
            &&& !inv.in_place ==> state_after(inv, follows).outcome() == Outcome::Completed
        }),
{
    assert(events.push(EventView::Exited(result)).drop_last() =~= events);
    lemma_run_sound(inv, events);
}

/// A branch that is neither `main` nor `master` is pulled once and never
/// guessed at: when its pull fails, in whatever way, the run is given up
/// at once and the workspace removed, and no run of such an invocation
/// ever retries.
pub proof fn lemma_other_branch_is_not_retried(
    inv: InvocationView,
    events: Seq<EventView>,
    event: EventView,
)
    requires
        inv.valid(),
        inv.branch != "main"@,
        inv.branch != "master"@,
    ensures
        state_after(inv, events).phase != Phase::Retrying,
        step_after(inv, events).action is Run && step_after(inv, events).action->stage
            == Stage::Pull ==> step_after(inv, events).action->command == command_line_of(
            Stage::Pull,
            inv.url,
            inv.branch,
        ),
        state_after(inv, events).phase == Phase::Pulling && Machine::command_failure(
            Stage::Pull,
            event,
        ) is Some ==> ({
            let m = state_after(inv, events);
            let follows = events.push(event);
            &&& state_after(inv, follows).phase == Phase::RollingBack
            &&& state_after(inv, follows).cause == Machine::command_failure(Stage::Pull, event)
            &&& step_after(inv, follows).action == ActionView::RemoveWorkspace {
                path: m.workspace(),
            }
            &&& step_after(inv, follows).reports[0] == ReportView::Failed(
                Machine::command_failure(Stage::Pull, event)->0,
            )
        }),
{
    assert(events.push(event).drop_last() =~= events);
    lemma_run_sound(inv, events);
}

/// An interrupted command is fatal and never retried, the pull of `main`
/// or `master` included.
pub proof fn lemma_interruption_is_fatal(
    inv: InvocationView,
    events: Seq<EventView>,
    result: ProcessResultView,
)
    requires
        inv.valid(),
        step_after(inv, events).action is Run,
        result.status is None,
    ensures
        ({
            let stage = step_after(inv, events).action->stage;
            let follows = events.push(EventView::Exited(result));
            &&& state_after(inv, follows).phase == Phase::RollingBack
            &&& state_after(inv, follows).cause == Some(Failure::ProcessInterrupted(stage))
            &&& step_after(inv, follows).action is RemoveWorkspace
        }),
{
    assert(events.push(EventView::Exited(result)).drop_last() =~= events);
    lemma_run_sound(inv, events);
}

/// Once the workspace exists, whatever makes the run fail is answered by
/// the removal of the workspace, and the failure is the first thing
/// reported.
pub proof fn lemma_failure_rolls_back(
    inv: InvocationView,
    events: Seq<EventView>,
    event: EventView,
)
    requires
        inv.valid(),
        rank(Phase::Entering) <= rank(state_after(inv, events).phase) <= rank(Phase::Discarding),
        state_after(inv, events.push(event)).cause is Some,
    ensures
        ({
            let m = state_after(inv, events);
            let follows = events.push(event);
            let step = step_after(inv, follows);
            &&& state_after(inv, follows).phase == Phase::RollingBack
            &&& step.action == ActionView::RemoveWorkspace { path: m.workspace() }
            &&& step.reports.len() > 0
            &&& step.reports[0] == ReportView::Failed(state_after(inv, follows).cause->0)
        }),
{
    assert(events.push(event).drop_last() =~= events);
    lemma_run_sound(inv, events);
}

/// The rollback ends the run with status 1 whatever comes of the removal.
/// A removal that fails is reported in addition to the cause of the
/// rollback, never in its place.
pub proof fn lemma_rollback_ends_run(inv: InvocationView, events: Seq<EventView>, event: EventView)
    requires
        inv.valid(),
        state_after(inv, events).phase == Phase::RollingBack,
    ensures
        ({
            let m = state_after(inv, events);
            let follows = events.push(event);
            let end = state_after(inv, follows);
            let step = step_after(inv, follows);
            &&& m.cause is Some
            &&& end.phase == Phase::Finished
            &&& step.action == ActionView::Exit { code: 1 }
            &&& end.outcome() == Outcome::Aborted {
                cause: m.cause->0,
                workspace_left: !(event is Done),
            }
            &&& event is Done ==> step.reports.len() == 0 && failures_of(end.outcome()) == seq![
                m.cause->0,
            ]
            &&& !(event is Done) ==> step.reports.len() > 0 && step.reports[0]
                == ReportView::Failed(Failure::Rollback) && failures_of(end.outcome()) == seq![
                m.cause->0,
                Failure::Rollback,
            ]
        }),
{
    assert(events.push(event).drop_last() =~= events);
    lemma_run_sound(inv, events);
}

/// Where the workspace stands, phase by phase: it does not exist before
/// its creation is confirmed; it exists from then on until the run is
/// over; a run that is given up after the creation, or that ends in place,
/// has removed it, unless the removal itself failed; and a run that ends
/// well and not in place has kept it.
pub open spec fn kept(inv: InvocationView, events: Seq<EventView>) -> bool {
    let m = state_after(inv, events);
    &&& rank(m.phase) < rank(Phase::Entering) ==> !created(inv, events) && !removed(inv, events)
    &&& rank(Phase::Entering) <= rank(m.phase) < rank(Phase::Finished) ==> created(inv, events)
        && !removed(inv, events)
    &&& m.phase == Phase::Finished && (m.cause is Some || inv.in_place) ==> (removed(inv, events)
        <==> created(inv, events) && !m.workspace_left)
    &&& m.phase == Phase::Finished && m.cause is None ==> created(inv, events)
    &&& m.workspace_left ==> created(inv, events)
    &&& m.phase == Phase::Finished && m.cause is None && !inv.in_place ==> !removed(inv, events)
}

/// Every run keeps its workspace as `kept` says, at each of its points.
pub proof fn lemma_run_kept(inv: InvocationView, events: Seq<EventView>)
    requires
        inv.valid(),
    ensures
        kept(inv, events),
    decreases events.len(),
{
    if events.len() > 0 {
        let before = events.drop_last();
        lemma_run_kept(inv, before);
        lemma_run_sound(inv, before);
        lemma_transition_sound(inv, state_after(inv, before), events.last());
    }
}

/// No failed run leaves its workspace behind in silence. A run that was
/// given up after the workspace was created has removed it, and the
/// removal was confirmed; the one exception is a removal that failed,
/// which the outcome tells. A run that was given up before has removed
/// nothing.
pub proof fn lemma_failed_run_removes_workspace(inv: InvocationView, events: Seq<EventView>)
    requires
        inv.valid(),
        state_after(inv, events).phase == Phase::Finished,
        state_after(inv, events).cause is Some,
    ensures
        step_after(inv, events).action == (ActionView::Exit { code: 1 }),
        created(inv, events) && !state_after(inv, events).workspace_left ==> removed(inv, events),
        state_after(inv, events).workspace_left ==> created(inv, events) && !removed(inv, events),
        !created(inv, events) ==> !removed(inv, events),
{
    lemma_run_kept(inv, events);
    lemma_run_sound(inv, events);
}

/// A run that is not in place leaves the original directory as it was:
/// whatever happens, each of its actions stays inside the workspace, and
/// none lists or moves anything.
pub proof fn lemma_original_directory_untouched(inv: InvocationView, events: Seq<EventView>)
    requires
        inv.valid(),
        !inv.in_place,
    ensures
        confined(step_after(inv, events).action, state_after(inv, events).workspace()),
{
    lemma_run_sound(inv, events);
}

/// A run in place stays inside its workspace too until a pull has
/// succeeded: the merge begins only then, with every pattern written.
pub proof fn lemma_merge_follows_pull(inv: InvocationView, events: Seq<EventView>)
    requires
        inv.valid(),
        !confined(step_after(inv, events).action, state_after(inv, events).workspace()),
    ensures
        inv.in_place,
        pulled(inv, events),
        written(inv, events) == pattern_lines_of(inv.folders),
{
    lemma_run_sound(inv, events);
    lemma_run_recorded(inv, events);
}

/// A run ends with status 0 only when everything was done: the workspace
/// was created, every pattern was written, and a pull has succeeded.
pub proof fn lemma_success_is_earned(inv: InvocationView, events: Seq<EventView>)
    requires
        inv.valid(),
        step_after(inv, events).action == (ActionView::Exit { code: 0 }),
    ensures
        state_after(inv, events).outcome() == Outcome::Completed,
        created(inv, events),
        written(inv, events) == pattern_lines_of(inv.folders),
        pulled(inv, events),
{
    lemma_run_sound(inv, events);
    lemma_run_recorded(inv, events);
    lemma_run_kept(inv, events);
}

/// How far the merge has come, phase by phase: nothing is moved before the
/// listing; while moving, the entries before the cursor are moved; and
/// once the workspace is discarded, every entry is. At no point, in a run
/// that fails as in one that ends well, is git's own directory among what
/// was moved.
pub open spec fn merged(inv: InvocationView, events: Seq<EventView>) -> bool {
    let m = state_after(inv, events);
    &&& forall|i: int|
        0 <= i < moved(inv, events).len() ==> is_retrieved(#[trigger] moved(inv, events)[i])
    &&& rank(m.phase) <= rank(Phase::Listing) ==> moved(inv, events) == Seq::<EntryView>::empty()
    &&& rank(m.phase) <= rank(Phase::Listing) ==> listed(inv, events) is None
    &&& (m.phase == Phase::Moving || m.phase == Phase::Discarding || (m.phase == Phase::Finished
        && m.cause is None && inv.in_place)) ==> listed(inv, events) is Some && m.moves
        == retained(listed(inv, events)->0)
    &&& m.phase == Phase::Moving ==> moved(inv, events) == m.moves.take(m.cursor as int)
    &&& (m.phase == Phase::Discarding || (m.phase == Phase::Finished && m.cause is None
        && inv.in_place)) ==> moved(inv, events) == m.moves
}

/// Every run merges as `merged` says, at each of its points.
pub proof fn lemma_run_merged(inv: InvocationView, events: Seq<EventView>)
    requires
        inv.valid(),
    ensures
        merged(inv, events),
    decreases events.len(),
{
    if events.len() > 0 {
        let before = events.drop_last();
        let m = state_after(inv, before);
        let after = state_after(inv, events);
        lemma_run_merged(inv, before);
        lemma_run_sound(inv, before);
        lemma_transition_sound(inv, m, events.last());
        lemma_transition_advances(m, events.last());
        if m.phase == Phase::Moving && events.last() is Done {
            assert(m.moves.take(m.cursor as int).push(m.moves[m.cursor as int]) =~= m.moves.take(
                m.cursor as int + 1,
            ));
            assert(m.moves.take(m.moves.len() as int) =~= m.moves);
            listed(inv, before)->0.lemma_filter_pred(retrieved(), m.cursor as int);
            assert(is_retrieved(m.moves[m.cursor as int]));
        }
        assert forall|i: int| 0 <= i < moved(inv, events).len() implies is_retrieved(
            #[trigger] moved(inv, events)[i],
        ) by {
            if i < moved(inv, before).len() {
                assert(moved(inv, events)[i] == moved(inv, before)[i]);
            }
        }
        if m.phase == Phase::Listing {
            assert(after.moves.take(0) =~= Seq::<EntryView>::empty());
            if after.moves.len() == 0 {
                assert(after.moves =~= Seq::<EntryView>::empty());
            }
        }
    }
}

/// Git's own directory never moves. Whenever a run asks for a move, in
/// whatever way the run goes on or ends, the entry to move is one of the
/// listing and is not `.git`; and nothing that was moved is `.git`.
pub proof fn lemma_git_directory_never_moves(inv: InvocationView, events: Seq<EventView>)
    requires
        inv.valid(),
    ensures
        forall|i: int|
            0 <= i < moved(inv, events).len() ==> (#[trigger] moved(inv, events)[i]).name
                != ".git"@,
        step_after(inv, events).action is MoveDirectory || step_after(inv, events).action
            is MoveFile ==> ({
            let m = state_after(inv, events);
            &&& m.phase == Phase::Moving
            &&& m.cursor < m.moves.len()
            &&& step_after(inv, events).action == relocation_of(
                m.moves[m.cursor as int],
                m.workspace(),
                m.origin,
            )
            &&& m.moves[m.cursor as int].name != ".git"@
            &&& listed(inv, events) is Some
            &&& listed(inv, events)->0.contains(m.moves[m.cursor as int])
        }),
{
    lemma_run_sound(inv, events);
    lemma_run_merged(inv, events);
    let m = state_after(inv, events);
    if m.phase == Phase::Moving {
        let entry = m.moves[m.cursor as int];
        assert(m.moves.contains(entry));
        lemma_retained_is_the_checkout(listed(inv, events)->0, entry);
    }
    assert forall|i: int| 0 <= i < moved(inv, events).len() implies (#[trigger] moved(
        inv,
        events,
    )[i]).name != ".git"@ by {
        assert(is_retrieved(moved(inv, events)[i]));
    }
}

/// A run that ends well and not in place keeps its workspace: the
/// workspace was created and was never removed.
pub proof fn lemma_plain_run_keeps_workspace(inv: InvocationView, events: Seq<EventView>)
    requires
        inv.valid(),
        !inv.in_place,
        step_after(inv, events).action == (ActionView::Exit { code: 0 }),
    ensures
        created(inv, events),
        !removed(inv, events),
{
    lemma_run_sound(inv, events);
    lemma_run_kept(inv, events);
}

/// A run removes nothing but its own workspace, and that only once it has
/// created it: whenever a removal is asked for, the creation of the
/// workspace was confirmed before, and the path to remove is the
/// workspace's. What stood at the path of a creation that failed is
/// therefore left as it was.
pub proof fn lemma_removal_follows_creation(inv: InvocationView, events: Seq<EventView>)
    requires
        inv.valid(),
        step_after(inv, events).action is RemoveWorkspace,
    ensures
        created(inv, events),
        step_after(inv, events).action == (ActionView::RemoveWorkspace {
            path: state_after(inv, events).workspace(),
        }),
{
    lemma_run_sound(inv, events);
    lemma_run_kept(inv, events);
}

/// When a run in place ends with status 0, every entry of the listing but
/// git's own directory was moved, in the order of the listing, and each
/// move was confirmed; and the workspace was removed after that.
pub proof fn lemma_merge_is_complete(inv: InvocationView, events: Seq<EventView>)
    requires
        inv.valid(),
        inv.in_place,
        step_after(inv, events).action == (ActionView::Exit { code: 0 }),
    ensures
        listed(inv, events) is Some,
        moved(inv, events) == retained(listed(inv, events)->0),
        removed(inv, events),
{
    lemma_run_sound(inv, events);
    lemma_run_merged(inv, events);
    lemma_run_kept(inv, events);
}

/// The entries that move are the entries of the listing that are not
/// git's own directory: each of those is among them, and nothing else is.
pub proof fn lemma_retained_is_the_checkout(entries: Seq<EntryView>, entry: EntryView)
    ensures
        retained(entries).contains(entry) <==> entries.contains(entry) && entry.name != ".git"@,
{
    if retained(entries).contains(entry) {
        let i = choose|i: int| 0 <= i < retained(entries).len() && retained(entries)[i] == entry;
        entries.lemma_filter_pred(retrieved(), i);
        entries.lemma_filter_contains_rev(retrieved(), entry);
    }
    if entries.contains(entry) && is_retrieved(entry) {
        let i = choose|i: int| 0 <= i < entries.len() && entries[i] == entry;
        entries.lemma_filter_contains(retrieved(), i);
    }
}

/// The move of an entry takes it from the workspace to the original
/// directory, where it lands under its own name.
pub proof fn lemma_relocation_lands_in_origin(
    entry: EntryView,
    workspace: Seq<char>,
    origin: Seq<char>,
)
    ensures
        landing_of(relocation_of(entry, workspace, origin), entry.name) == Some(
            inside(origin, entry.name),
        ),
        relocation_of(entry, workspace, origin) is MoveDirectory <==> entry.is_dir,
        relocation_of(entry, workspace, origin) is MoveFile <==> !entry.is_dir,
{
}

} // verus!
