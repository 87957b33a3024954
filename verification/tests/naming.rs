use sparse_fetch::branch::fallback_branch;
use sparse_fetch::command::{command_line, pattern_line};
use sparse_fetch::failure::{Failure, Outcome, Stage};
use sparse_fetch::process::{ProcessResult, Verdict};
use sparse_fetch::workspace::{path_inside, pattern_file, split_pieces, workspace_name};

fn exited(status: Option<i32>) -> ProcessResult {
    ProcessResult { status, stdout: String::from("out"), stderr: String::from("err") }
}

#[test]
fn workspace_name_is_the_fifth_piece_of_the_url() {
    assert_eq!(
        workspace_name("https://github.com/owner/project", false),
        Some(String::from("project"))
    );
    assert_eq!(
        workspace_name("https://github.com/owner/project.git", false),
        Some(String::from("project.git"))
    );
}

#[test]
fn workspace_name_ignores_what_follows_the_repository() {
    assert_eq!(
        workspace_name("https://github.com/owner/project/", false),
        Some(String::from("project"))
    );
    assert_eq!(
        workspace_name("https://github.com/owner/project/tree/main", false),
        Some(String::from("project"))
    );
}

#[test]
fn workspace_name_is_marked_when_in_place() {
    assert_eq!(
        workspace_name("https://github.com/owner/project", true),
        Some(String::from("temp_project"))
    );
    assert_eq!(
        workspace_name("https://example.com/repo", true),
        Some(String::from("temp_repo"))
    );
}

#[test]
fn workspace_name_is_the_last_filled_piece_where_the_fifth_is_missing() {
    assert_eq!(workspace_name("https://example.com/repo", false), Some(String::from("repo")));
    assert_eq!(workspace_name("https://example.com/repo/", false), Some(String::from("repo")));
    assert_eq!(workspace_name("https://example.com/repo//", false), Some(String::from("repo")));
    assert_eq!(
        workspace_name("https://github.com/owner/", false),
        Some(String::from("owner"))
    );
    assert_eq!(
        workspace_name("https://github.com/owner//project", false),
        Some(String::from("project"))
    );
}

#[test]
fn workspace_name_of_a_url_without_a_scheme() {
    assert_eq!(
        workspace_name("github.com/owner/project", false),
        Some(String::from("project"))
    );
    assert_eq!(
        workspace_name("git@github.com:owner/project.git", false),
        Some(String::from("project.git"))
    );
    assert_eq!(workspace_name("/srv/git/project", false), Some(String::from("project")));
    assert_eq!(workspace_name("a/b/c/d//f", false), Some(String::from("f")));
    assert_eq!(workspace_name("a//b", true), Some(String::from("temp_b")));
}

#[test]
fn workspace_name_is_never_empty() {
    let urls = [
        "https://github.com/owner/",
        "https://github.com/owner//",
        "https://example.com/repo",
        "host/",
        "host//x/",
        "a/b/c/d/",
        "a/b/c/d//",
    ];
    for url in urls {
        match workspace_name(url, false) {
            Some(name) => {
                assert!(!name.is_empty());
                assert!(!name.contains('/'));
            }
            None => assert_eq!(url, "host/"),
        }
    }
}

#[test]
fn workspace_name_needs_a_piece_behind_the_host() {
    assert_eq!(workspace_name("", false), None);
    assert_eq!(workspace_name("project", false), None);
    assert_eq!(workspace_name("host/", false), None);
    assert_eq!(workspace_name("////", false), None);
    assert_eq!(workspace_name("https://", false), None);
    assert_eq!(workspace_name("https://github.com", false), None);
    assert_eq!(workspace_name("https://github.com/", false), None);
    assert_eq!(workspace_name("https://github.com//", true), None);
}

#[test]
fn split_pieces_cuts_at_every_slash() {
    assert_eq!(split_pieces(""), vec![String::new()]);
    assert_eq!(split_pieces("a"), vec![String::from("a")]);
    assert_eq!(split_pieces("/"), vec![String::new(), String::new()]);
    assert_eq!(
        split_pieces("https://host/owner/"),
        vec![
            String::from("https:"),
            String::new(),
            String::from("host"),
            String::from("owner"),
            String::new(),
        ]
    );
    assert_eq!(split_pieces("é/ø"), vec![String::from("é"), String::from("ø")]);
}

#[test]
fn workspace_name_keeps_characters_beyond_ascii() {
    assert_eq!(
        workspace_name("https://höst.example/ownér/prøjekt/x", false),
        Some(String::from("prøjekt"))
    );
    assert_eq!(
        workspace_name("https://höst.example/ownér/prøjekt", true),
        Some(String::from("temp_prøjekt"))
    );
}

#[test]
fn paths_are_joined_with_a_slash() {
    assert_eq!(path_inside("/home/me", "project"), "/home/me/project");
    assert_eq!(path_inside("", "project"), "/project");
    assert_eq!(path_inside("/home/me", ""), "/home/me/");
    assert_eq!(
        pattern_file("/home/me/project"),
        "/home/me/project/.git/info/sparse-checkout"
    );
}

#[test]
fn fallback_swaps_main_and_master() {
    assert_eq!(fallback_branch("main"), Some(String::from("master")));
    assert_eq!(fallback_branch("master"), Some(String::from("main")));
}

#[test]
fn fallback_guesses_at_no_other_name() {
    assert_eq!(fallback_branch("feature-x"), None);
    assert_eq!(fallback_branch(""), None);
    assert_eq!(fallback_branch("Main"), None);
    assert_eq!(fallback_branch("main "), None);
    assert_eq!(fallback_branch("mainline"), None);
    assert_eq!(fallback_branch("develop"), None);
}

#[test]
fn command_lines_of_the_four_stages() {
    let url = "https://github.com/owner/project";
    assert_eq!(command_line(Stage::Initialize, url, "main"), "git init");
    assert_eq!(
        command_line(Stage::RegisterRemote, url, "main"),
        "git remote add -f origin https://github.com/owner/project"
    );
    assert_eq!(
        command_line(Stage::EnableSparse, url, "main"),
        "git config core.sparseCheckout true"
    );
    assert_eq!(command_line(Stage::Pull, url, "main"), "git pull origin main");
    assert_eq!(command_line(Stage::Pull, url, "feature-x"), "git pull origin feature-x");
}

#[test]
fn pattern_line_ends_with_a_newline() {
    assert_eq!(pattern_line("docs"), "docs\n");
    assert_eq!(pattern_line("src/lib"), "src/lib\n");
    assert_eq!(pattern_line(""), "\n");
}

#[test]
fn verdict_tells_the_three_endings_apart() {
    assert_eq!(exited(Some(0)).verdict(), Verdict::Succeeded);
    assert_eq!(exited(Some(1)).verdict(), Verdict::Failed(1));
    assert_eq!(exited(Some(128)).verdict(), Verdict::Failed(128));
    assert_eq!(exited(Some(-1)).verdict(), Verdict::Failed(-1));
    assert_eq!(exited(None).verdict(), Verdict::Interrupted);
}

#[test]
fn failure_of_a_process_names_its_stage() {
    assert_eq!(exited(Some(0)).failure(Stage::Pull), None);
    assert_eq!(
        exited(Some(2)).failure(Stage::Initialize),
        Some(Failure::NonZeroExit(Stage::Initialize, 2))
    );
    assert_eq!(
        exited(Some(128)).failure(Stage::RegisterRemote),
        Some(Failure::NonZeroExit(Stage::RegisterRemote, 128))
    );
    assert_eq!(
        exited(None).failure(Stage::EnableSparse),
        Some(Failure::ProcessInterrupted(Stage::EnableSparse))
    );
}

#[test]
fn outcome_gives_the_exit_code() {
    assert_eq!(Outcome::Completed.exit_code(), 0);
    let aborted = Outcome::Aborted { cause: Failure::Merge, workspace_left: false };
    assert_eq!(aborted.exit_code(), 1);
    let stuck = Outcome::Aborted { cause: Failure::PatternWrite, workspace_left: true };
    assert_eq!(stuck.exit_code(), 1);
}

#[test]
fn outcome_lists_the_rollback_failure_after_the_cause() {
    assert_eq!(Outcome::Completed.failures(), Vec::<Failure>::new());
    let aborted = Outcome::Aborted {
        cause: Failure::NonZeroExit(Stage::Pull, 1),
        workspace_left: false,
    };
    assert_eq!(aborted.failures(), vec![Failure::NonZeroExit(Stage::Pull, 1)]);
    let stuck = Outcome::Aborted { cause: Failure::PatternWrite, workspace_left: true };
    assert_eq!(stuck.failures(), vec![Failure::PatternWrite, Failure::Rollback]);
}
