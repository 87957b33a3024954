use sparse_fetch::failure::{Failure, Outcome, Stage};
use sparse_fetch::invocation::Invocation;
use sparse_fetch::machine::Phase;
use sparse_fetch::orchestrator::Orchestrator;
use sparse_fetch::process::ProcessResult;
use sparse_fetch::protocol::{Action, Entry, Event, Report, Step};

const URL: &str = "https://github.com/owner/project";

fn invocation(folders: &[&str], branch: &str, in_place: bool) -> Invocation {
    Invocation {
        url: String::from(URL),
        folders: folders.iter().map(|folder| String::from(*folder)).collect(),
        branch: String::from(branch),
        in_place,
        verbose: false,
        errors: false,
    }
}

fn exited(status: Option<i32>) -> Event {
    Event::Exited(ProcessResult {
        status,
        stdout: String::from("written to stdout"),
        stderr: String::from("written to stderr"),
    })
}

fn located() -> Event {
    Event::Located(String::from("/home/me"))
}

fn failed(reason: &str) -> Event {
    Event::Failed(String::from(reason))
}

fn run(stage: Stage, command: &str) -> Action {
    Action::Run { stage, command: String::from(command) }
}

fn append(path: &str, line: &str) -> Action {
    Action::AppendPattern { path: String::from(path), line: String::from(line) }
}

fn remove(path: &str) -> Action {
    Action::RemoveWorkspace { path: String::from(path) }
}

fn begin(inv: Invocation) -> (Orchestrator, Step) {
    match Orchestrator::start(inv) {
        Some(begun) => begun,
        None => panic!("the invocation is valid"),
    }
}

/// Feeds the events to a fresh run and returns the orchestrator with all
/// the steps it took, the first one included.
fn play(inv: Invocation, events: Vec<Event>) -> (Orchestrator, Vec<Step>) {
    let (mut orchestrator, first) = begin(inv);
    let mut steps = vec![first];
    for event in events {
        steps.push(orchestrator.step(event));
    }
    (orchestrator, steps)
}

fn actions(steps: &[Step]) -> Vec<Action> {
    steps.iter().map(|step| step.action.clone()).collect()
}

/// The events of a run up to the answer to the last pattern written.
fn until_pull(folders: usize) -> Vec<Event> {
    let mut events =
        vec![located(), Event::Done, Event::Done, exited(Some(0)), exited(Some(0)), exited(Some(0))];
    for _ in 0..folders {
        events.push(Event::Done);
    }
    events
}

#[test]
fn start_refuses_an_invocation_without_folders() {
    assert!(Orchestrator::start(invocation(&[], "main", false)).is_none());
}

#[test]
fn start_refuses_a_url_without_a_repository() {
    let mut inv = invocation(&["docs"], "main", false);
    inv.url = String::from("https://github.com/");
    assert!(Orchestrator::start(inv).is_none());
    let mut inv = invocation(&["docs"], "main", true);
    inv.url = String::new();
    assert!(Orchestrator::start(inv).is_none());
}

#[test]
fn short_url_in_place_names_and_removes_its_own_workspace() {
    let mut inv = invocation(&["docs"], "main", true);
    inv.url = String::from("https://example.com/repo");
    let events = vec![located(), Event::Done, Event::Done, exited(Some(0)), exited(Some(128)), Event::Done];
    let (orchestrator, steps) = play(inv, events);
    assert_eq!(orchestrator.workspace(), "/home/me/temp_repo");
    assert_eq!(
        actions(&steps),
        vec![
            Action::Locate,
            Action::CreateWorkspace { path: String::from("/home/me/temp_repo") },
            Action::EnterWorkspace { path: String::from("/home/me/temp_repo") },
            run(Stage::Initialize, "git init"),
            run(Stage::RegisterRemote, "git remote add -f origin https://example.com/repo"),
            remove("/home/me/temp_repo"),
            Action::Exit { code: 1 },
        ]
    );
    assert_eq!(
        orchestrator.outcome(),
        Some(Outcome::Aborted {
            cause: Failure::NonZeroExit(Stage::RegisterRemote, 128),
            workspace_left: false,
        })
    );
}

#[test]
fn occupied_workspace_in_place_is_left_as_it_is() {
    let inv = invocation(&["docs"], "main", true);
    let events = vec![located(), failed("directory exists"), Event::Done];
    let (orchestrator, steps) = play(inv, events);
    assert_eq!(
        actions(&steps),
        vec![
            Action::Locate,
            Action::CreateWorkspace { path: String::from("/home/me/temp_project") },
            Action::Exit { code: 1 },
            Action::Exit { code: 1 },
        ]
    );
    assert_eq!(steps[2].reports, vec![Report::Failed(Failure::DirectoryCreate)]);
    assert_eq!(
        orchestrator.outcome(),
        Some(Outcome::Aborted { cause: Failure::DirectoryCreate, workspace_left: false })
    );
}

#[test]
fn start_asks_for_the_current_directory() {
    let (orchestrator, first) = begin(invocation(&["docs"], "main", false));
    assert_eq!(first, Step { reports: vec![], action: Action::Locate });
    assert_eq!(orchestrator.phase(), Phase::Locating);
    assert_eq!(orchestrator.outcome(), None);
    assert_eq!(orchestrator.invocation(), &invocation(&["docs"], "main", false));
}

#[test]
fn plain_run_goes_through_every_step_in_order() {
    let inv = invocation(&["a", "b"], "main", false);
    let mut events = until_pull(2);
    events.push(exited(Some(0)));
    let (orchestrator, steps) = play(inv, events);
    assert_eq!(
        actions(&steps),
        vec![
            Action::Locate,
            Action::CreateWorkspace { path: String::from("/home/me/project") },
            Action::EnterWorkspace { path: String::from("/home/me/project") },
            run(Stage::Initialize, "git init"),
            run(Stage::RegisterRemote, "git remote add -f origin https://github.com/owner/project"),
            run(Stage::EnableSparse, "git config core.sparseCheckout true"),
            append("/home/me/project/.git/info/sparse-checkout", "a\n"),
            append("/home/me/project/.git/info/sparse-checkout", "b\n"),
            run(Stage::Pull, "git pull origin main"),
            Action::Exit { code: 0 },
        ]
    );
    for step in &steps {
        assert_eq!(step.reports, vec![]);
    }
    assert_eq!(orchestrator.phase(), Phase::Finished);
    assert_eq!(orchestrator.outcome(), Some(Outcome::Completed));
    assert_eq!(orchestrator.workspace(), "/home/me/project");
}

#[test]
fn patterns_are_written_in_order_before_the_pull() {
    let inv = invocation(&["a", "b"], "main", false);
    let (_, steps) = play(inv, until_pull(2));
    let all = actions(&steps);
    let mut contents = String::new();
    let mut pulls: usize = 0;
    for action in &all {
        match action {
            Action::AppendPattern { path, line } => {
                assert_eq!(pulls, 0);
                assert_eq!(path, "/home/me/project/.git/info/sparse-checkout");
                contents.push_str(line);
            }
            Action::Run { stage: Stage::Pull, .. } => {
                assert_eq!(contents, "a\nb\n");
                pulls += 1;
            }
            _ => {}
        }
    }
    assert_eq!(pulls, 1);
    assert_eq!(contents.lines().collect::<Vec<&str>>(), vec!["a", "b"]);
}

#[test]
fn patterns_are_neither_sorted_nor_deduplicated() {
    let inv = invocation(&["z", "a", "z"], "main", false);
    let (_, steps) = play(inv, until_pull(3));
    let file = "/home/me/project/.git/info/sparse-checkout";
    assert_eq!(
        actions(&steps)[6..].to_vec(),
        vec![
            append(file, "z\n"),
            append(file, "a\n"),
            append(file, "z\n"),
            run(Stage::Pull, "git pull origin main"),
        ]
    );
}

#[test]
fn failed_pull_of_main_falls_back_to_master() {
    let inv = invocation(&["docs"], "main", false);
    let mut events = until_pull(1);
    events.push(exited(Some(1)));
    events.push(exited(Some(0)));
    let (orchestrator, steps) = play(inv, events);
    let count = steps.len();
    assert_eq!(steps[count - 3].action, run(Stage::Pull, "git pull origin main"));
    assert_eq!(
        steps[count - 2],
        Step { reports: vec![], action: run(Stage::Pull, "git pull origin master") }
    );
    assert_eq!(
        steps[count - 1],
        Step { reports: vec![Report::Succeeded], action: Action::Exit { code: 0 } }
    );
    assert_eq!(orchestrator.outcome(), Some(Outcome::Completed));
}

#[test]
fn failed_pull_of_master_falls_back_to_main() {
    let inv = invocation(&["docs"], "master", false);
    let mut events = until_pull(1);
    events.push(exited(Some(128)));
    let (orchestrator, steps) = play(inv, events);
    let count = steps.len();
    assert_eq!(steps[count - 2].action, run(Stage::Pull, "git pull origin master"));
    assert_eq!(steps[count - 1].action, run(Stage::Pull, "git pull origin main"));
    assert_eq!(orchestrator.phase(), Phase::Retrying);
}

#[test]
fn fallback_run_takes_the_same_steps_every_time() {
    let mut events = until_pull(2);
    events.push(exited(Some(1)));
    events.push(exited(Some(0)));
    let (first, first_steps) = play(invocation(&["a", "b"], "main", false), events.clone());
    let (second, second_steps) = play(invocation(&["a", "b"], "main", false), events);
    assert_eq!(first_steps, second_steps);
    assert_eq!(first.outcome(), second.outcome());
    assert_eq!(first.outcome(), Some(Outcome::Completed));
}

#[test]
fn fallback_is_tried_only_once() {
    let inv = invocation(&["docs"], "main", false);
    let mut events = until_pull(1);
    events.push(exited(Some(1)));
    events.push(exited(Some(1)));
    events.push(Event::Done);
    let (orchestrator, steps) = play(inv, events);
    let count = steps.len();
    assert_eq!(
        steps[count - 2],
        Step {
            reports: vec![Report::Failed(Failure::NonZeroExit(Stage::Pull, 1))],
            action: remove("/home/me/project"),
        }
    );
    assert_eq!(steps[count - 1], Step { reports: vec![], action: Action::Exit { code: 1 } });
    assert_eq!(
        orchestrator.outcome(),
        Some(Outcome::Aborted {
            cause: Failure::NonZeroExit(Stage::Pull, 1),
            workspace_left: false,
        })
    );
    let pulls = actions(&steps)
        .iter()
        .filter(|action| matches!(action, Action::Run { stage: Stage::Pull, .. }))
        .count();
    assert_eq!(pulls, 2);
}

#[test]
fn other_branch_fails_at_once_and_the_workspace_is_removed() {
    let inv = invocation(&["docs"], "feature-x", false);
    let mut events = until_pull(1);
    events.push(exited(Some(1)));
    events.push(Event::Done);
    let (orchestrator, steps) = play(inv, events);
    let count = steps.len();
    assert_eq!(steps[count - 3].action, run(Stage::Pull, "git pull origin feature-x"));
    assert_eq!(
        steps[count - 2],
        Step {
            reports: vec![Report::Failed(Failure::NonZeroExit(Stage::Pull, 1))],
            action: remove("/home/me/project"),
        }
    );
    assert_eq!(steps[count - 1].action, Action::Exit { code: 1 });
    let pulls = actions(&steps)
        .iter()
        .filter(|action| matches!(action, Action::Run { stage: Stage::Pull, .. }))
        .count();
    assert_eq!(pulls, 1);
    assert_eq!(
        orchestrator.outcome(),
        Some(Outcome::Aborted {
            cause: Failure::NonZeroExit(Stage::Pull, 1),
            workspace_left: false,
        })
    );
}

#[test]
fn interrupted_pull_of_main_is_not_retried() {
    let inv = invocation(&["docs"], "main", false);
    let mut events = until_pull(1);
    events.push(exited(None));
    let (orchestrator, steps) = play(inv, events);
    assert_eq!(
        steps[steps.len() - 1],
        Step {
            reports: vec![Report::Failed(Failure::ProcessInterrupted(Stage::Pull))],
            action: remove("/home/me/project"),
        }
    );
    assert_eq!(orchestrator.phase(), Phase::RollingBack);
}

#[test]
fn pull_that_cannot_start_is_not_retried() {
    let inv = invocation(&["docs"], "master", false);
    let mut events = until_pull(1);
    events.push(failed("git: command not found"));
    let (_, steps) = play(inv, events);
    assert_eq!(
        steps[steps.len() - 1],
        Step {
            reports: vec![Report::Failed(Failure::ProcessLaunch(Stage::Pull))],
            action: remove("/home/me/project"),
        }
    );
}

#[test]
fn failed_creation_exits_with_one_and_runs_nothing() {
    let inv = invocation(&["docs"], "main", false);
    let events = vec![located(), failed("directory exists"), Event::Done, exited(Some(0))];
    let (orchestrator, steps) = play(inv, events);
    assert_eq!(
        actions(&steps),
        vec![
            Action::Locate,
            Action::CreateWorkspace { path: String::from("/home/me/project") },
            Action::Exit { code: 1 },
            Action::Exit { code: 1 },
            Action::Exit { code: 1 },
        ]
    );
    assert_eq!(steps[2].reports, vec![Report::Failed(Failure::DirectoryCreate)]);
    assert_eq!(
        orchestrator.outcome(),
        Some(Outcome::Aborted { cause: Failure::DirectoryCreate, workspace_left: false })
    );
}

#[test]
fn unresolved_directory_exits_with_one_at_once() {
    let inv = invocation(&["docs"], "main", true);
    let (orchestrator, steps) = play(inv, vec![failed("no such directory")]);
    assert_eq!(
        steps[1],
        Step {
            reports: vec![Report::Failed(Failure::WorkingDirectory)],
            action: Action::Exit { code: 1 },
        }
    );
    assert_eq!(
        orchestrator.outcome(),
        Some(Outcome::Aborted { cause: Failure::WorkingDirectory, workspace_left: false })
    );
}

#[test]
fn in_place_run_moves_everything_but_git_and_removes_the_workspace() {
    let inv = invocation(&["docs", "src"], "main", true);
    let mut events = until_pull(2);
    events.push(exited(Some(0)));
    events.push(Event::Listed(vec![
        Entry { name: String::from(".git"), is_dir: true },
        Entry { name: String::from("docs"), is_dir: true },
        Entry { name: String::from("LICENSE"), is_dir: false },
        Entry { name: String::from("src"), is_dir: true },
    ]));
    events.push(Event::Done);
    events.push(Event::Done);
    events.push(Event::Done);
    events.push(Event::Done);
    let (orchestrator, steps) = play(inv, events);
    let all = actions(&steps);
    assert_eq!(all[1], Action::CreateWorkspace { path: String::from("/home/me/temp_project") });
    assert_eq!(
        all[9..].to_vec(),
        vec![
            Action::ListWorkspace { path: String::from("/home/me/temp_project") },
            Action::MoveDirectory {
                from: String::from("/home/me/temp_project/docs"),
                into: String::from("/home/me"),
            },
            Action::MoveFile {
                from: String::from("/home/me/temp_project/LICENSE"),
                to: String::from("/home/me/LICENSE"),
            },
            Action::MoveDirectory {
                from: String::from("/home/me/temp_project/src"),
                into: String::from("/home/me"),
            },
            remove("/home/me/temp_project"),
            Action::Exit { code: 0 },
        ]
    );
    assert_eq!(orchestrator.outcome(), Some(Outcome::Completed));
}

#[test]
fn in_place_run_of_an_empty_checkout_only_removes_the_workspace() {
    let inv = invocation(&["docs"], "main", true);
    let mut events = until_pull(1);
    events.push(exited(Some(0)));
    events.push(Event::Listed(vec![Entry { name: String::from(".git"), is_dir: true }]));
    events.push(Event::Done);
    let (orchestrator, steps) = play(inv, events);
    let count = steps.len();
    assert_eq!(steps[count - 2].action, remove("/home/me/temp_project"));
    assert_eq!(steps[count - 1].action, Action::Exit { code: 0 });
    assert_eq!(orchestrator.outcome(), Some(Outcome::Completed));
}

#[test]
fn failed_move_removes_the_workspace_and_undoes_nothing() {
    let inv = invocation(&["docs"], "main", true);
    let mut events = until_pull(1);
    events.push(exited(Some(0)));
    events.push(Event::Listed(vec![
        Entry { name: String::from("a"), is_dir: false },
        Entry { name: String::from("b"), is_dir: false },
    ]));
    events.push(Event::Done);
    events.push(failed("permission denied"));
    events.push(Event::Done);
    let (orchestrator, steps) = play(inv, events);
    let count = steps.len();
    assert_eq!(
        steps[count - 2],
        Step {
            reports: vec![Report::Failed(Failure::Merge)],
            action: remove("/home/me/temp_project"),
        }
    );
    assert_eq!(steps[count - 1].action, Action::Exit { code: 1 });
    assert_eq!(
        orchestrator.outcome(),
        Some(Outcome::Aborted { cause: Failure::Merge, workspace_left: false })
    );
}

#[test]
fn failed_listing_is_a_merge_failure() {
    let inv = invocation(&["docs"], "main", true);
    let mut events = until_pull(1);
    events.push(exited(Some(0)));
    events.push(failed("cannot read"));
    let (_, steps) = play(inv, events);
    assert_eq!(
        steps[steps.len() - 1],
        Step {
            reports: vec![Report::Failed(Failure::Merge)],
            action: remove("/home/me/temp_project"),
        }
    );
}

#[test]
fn failed_discard_is_a_merge_failure_and_is_rolled_back() {
    let inv = invocation(&["docs"], "main", true);
    let mut events = until_pull(1);
    events.push(exited(Some(0)));
    events.push(Event::Listed(vec![]));
    events.push(failed("busy"));
    events.push(failed("still busy"));
    let (orchestrator, steps) = play(inv, events);
    let count = steps.len();
    assert_eq!(steps[count - 3].action, remove("/home/me/temp_project"));
    assert_eq!(
        steps[count - 2],
        Step {
            reports: vec![Report::Failed(Failure::Merge)],
            action: remove("/home/me/temp_project"),
        }
    );
    assert_eq!(
        steps[count - 1],
        Step {
            reports: vec![Report::Failed(Failure::Rollback)],
            action: Action::Exit { code: 1 },
        }
    );
    assert_eq!(
        orchestrator.outcome(),
        Some(Outcome::Aborted { cause: Failure::Merge, workspace_left: true })
    );
}

#[test]
fn every_failure_after_creation_removes_the_workspace() {
    let cases: Vec<(usize, Event, Failure)> = vec![
        (2, failed("gone"), Failure::WorkingDirectory),
        (3, exited(Some(1)), Failure::NonZeroExit(Stage::Initialize, 1)),
        (3, exited(None), Failure::ProcessInterrupted(Stage::Initialize)),
        (3, failed("no git"), Failure::ProcessLaunch(Stage::Initialize)),
        (4, exited(Some(128)), Failure::NonZeroExit(Stage::RegisterRemote, 128)),
        (4, exited(None), Failure::ProcessInterrupted(Stage::RegisterRemote)),
        (5, exited(Some(255)), Failure::NonZeroExit(Stage::EnableSparse, 255)),
        (5, failed("no git"), Failure::ProcessLaunch(Stage::EnableSparse)),
        (6, failed("read-only"), Failure::PatternWrite),
        (7, failed("read-only"), Failure::PatternWrite),
        (8, exited(Some(1)), Failure::NonZeroExit(Stage::Pull, 1)),
    ];
    for (good, bad, failure) in cases {
        let mut events = until_pull(2);
        events.truncate(good);
        events.push(bad);
        events.push(Event::Done);
        let (orchestrator, steps) = play(invocation(&["a", "b"], "feature-x", false), events);
        let count = steps.len();
        assert_eq!(
            steps[count - 2],
            Step { reports: vec![Report::Failed(failure)], action: remove("/home/me/project") }
        );
        assert_eq!(steps[count - 1], Step { reports: vec![], action: Action::Exit { code: 1 } });
        assert_eq!(
            orchestrator.outcome(),
            Some(Outcome::Aborted { cause: failure, workspace_left: false })
        );
        for action in actions(&steps) {
            assert!(!matches!(action, Action::MoveDirectory { .. } | Action::MoveFile { .. }));
            assert!(!matches!(action, Action::ListWorkspace { .. }));
        }
    }
}

#[test]
fn failed_rollback_is_reported_beside_its_cause() {
    let inv = invocation(&["docs"], "main", false);
    let events = vec![located(), Event::Done, Event::Done, exited(Some(3)), failed("busy")];
    let (orchestrator, steps) = play(inv, events);
    let count = steps.len();
    assert_eq!(
        steps[count - 2].reports,
        vec![Report::Failed(Failure::NonZeroExit(Stage::Initialize, 3))]
    );
    assert_eq!(
        steps[count - 1],
        Step {
            reports: vec![Report::Failed(Failure::Rollback)],
            action: Action::Exit { code: 1 },
        }
    );
    let outcome = Outcome::Aborted {
        cause: Failure::NonZeroExit(Stage::Initialize, 3),
        workspace_left: true,
    };
    assert_eq!(orchestrator.outcome(), Some(outcome));
    assert_eq!(
        outcome.failures(),
        vec![Failure::NonZeroExit(Stage::Initialize, 3), Failure::Rollback]
    );
}

#[test]
fn verbose_run_announces_every_action_but_the_exit() {
    let mut inv = invocation(&["a"], "main", false);
    inv.verbose = true;
    let mut events = until_pull(1);
    events.push(exited(Some(0)));
    let (_, steps) = play(inv, events);
    let count = steps.len();
    for step in &steps[..count - 1] {
        assert_eq!(step.reports, vec![Report::Starting]);
    }
    assert_eq!(
        steps[count - 1],
        Step { reports: vec![Report::Succeeded], action: Action::Exit { code: 0 } }
    );
}

#[test]
fn verbose_in_place_run_reports_success_before_the_listing() {
    let mut inv = invocation(&["a"], "main", true);
    inv.verbose = true;
    let mut events = until_pull(1);
    events.push(exited(Some(0)));
    let (_, steps) = play(inv, events);
    assert_eq!(
        steps[steps.len() - 1],
        Step {
            reports: vec![Report::Succeeded, Report::Starting],
            action: Action::ListWorkspace { path: String::from("/home/me/temp_project") },
        }
    );
}

#[test]
fn errors_flag_shows_what_the_failed_command_wrote() {
    let mut inv = invocation(&["a"], "feature-x", false);
    inv.errors = true;
    let mut events = until_pull(1);
    events.push(exited(Some(1)));
    events.push(failed("busy"));
    let (_, steps) = play(inv, events);
    let count = steps.len();
    assert_eq!(
        steps[count - 2].reports,
        vec![
            Report::Failed(Failure::NonZeroExit(Stage::Pull, 1)),
            Report::Output {
                stdout: String::from("written to stdout"),
                stderr: String::from("written to stderr"),
            },
        ]
    );
    assert_eq!(
        steps[count - 1].reports,
        vec![Report::Failed(Failure::Rollback), Report::Detail(String::from("busy"))]
    );
}

#[test]
fn errors_flag_shows_the_output_of_the_pull_that_is_retried() {
    let mut inv = invocation(&["a"], "main", false);
    inv.errors = true;
    inv.verbose = true;
    let mut events = until_pull(1);
    events.push(exited(Some(1)));
    let (_, steps) = play(inv, events);
    assert_eq!(
        steps[steps.len() - 1],
        Step {
            reports: vec![
                Report::Output {
                    stdout: String::from("written to stdout"),
                    stderr: String::from("written to stderr"),
                },
                Report::Starting,
            ],
            action: run(Stage::Pull, "git pull origin master"),
        }
    );
}

#[test]
fn errors_flag_shows_nothing_while_all_goes_well() {
    let mut inv = invocation(&["a"], "main", false);
    inv.errors = true;
    let mut events = until_pull(1);
    events.push(exited(Some(0)));
    let (_, steps) = play(inv, events);
    for step in &steps {
        assert_eq!(step.reports, vec![]);
    }
}

#[test]
fn event_that_does_not_confirm_counts_as_a_failure() {
    let inv = invocation(&["a"], "main", false);
    let (orchestrator, steps) = play(inv, vec![located(), exited(Some(0))]);
    assert_eq!(
        steps[2],
        Step {
            reports: vec![Report::Failed(Failure::DirectoryCreate)],
            action: Action::Exit { code: 1 },
        }
    );
    assert_eq!(orchestrator.phase(), Phase::Finished);

    let inv = invocation(&["a"], "main", false);
    let (_, steps) = play(inv, vec![located(), Event::Done, Event::Done, Event::Done]);
    assert_eq!(
        steps[4],
        Step {
            reports: vec![Report::Failed(Failure::ProcessLaunch(Stage::Initialize))],
            action: remove("/home/me/project"),
        }
    );
}

#[test]
fn finished_run_keeps_asking_for_the_same_exit() {
    let inv = invocation(&["a"], "main", false);
    let mut events = until_pull(1);
    events.push(exited(Some(0)));
    events.push(failed("late"));
    events.push(located());
    let (orchestrator, steps) = play(inv, events);
    let count = steps.len();
    assert_eq!(steps[count - 1], Step { reports: vec![], action: Action::Exit { code: 0 } });
    assert_eq!(steps[count - 2], Step { reports: vec![], action: Action::Exit { code: 0 } });
    assert_eq!(orchestrator.outcome(), Some(Outcome::Completed));
}
