use sparse_fetch::merge::{relocation, retain};
use sparse_fetch::protocol::{Action, Entry};

fn dir(name: &str) -> Entry {
    Entry { name: String::from(name), is_dir: true }
}

fn file(name: &str) -> Entry {
    Entry { name: String::from(name), is_dir: false }
}

#[test]
fn retain_drops_the_git_directory_and_keeps_the_order() {
    let kept = retain(vec![dir("docs"), dir(".git"), file("README.md"), dir("src")]);
    assert_eq!(kept, vec![dir("docs"), file("README.md"), dir("src")]);
}

#[test]
fn retain_of_nothing_is_nothing() {
    assert_eq!(retain(Vec::new()), Vec::<Entry>::new());
    assert_eq!(retain(vec![dir(".git")]), Vec::<Entry>::new());
}

#[test]
fn retain_keeps_names_that_only_resemble_git() {
    let listing = vec![file(".gitignore"), dir(".github"), dir("git"), file(".git "), dir(".GIT")];
    assert_eq!(retain(listing.clone()), listing);
}

#[test]
fn retain_drops_an_entry_named_git_whatever_its_kind() {
    assert_eq!(retain(vec![file(".git"), file("a")]), vec![file("a")]);
}

#[test]
fn retain_keeps_entries_that_occur_twice() {
    let kept = retain(vec![file("a"), dir(".git"), file("a")]);
    assert_eq!(kept, vec![file("a"), file("a")]);
}

#[test]
fn relocation_moves_a_directory_into_the_origin() {
    assert_eq!(
        relocation(&dir("docs"), "/home/me/temp_project", "/home/me"),
        Action::MoveDirectory {
            from: String::from("/home/me/temp_project/docs"),
            into: String::from("/home/me"),
        }
    );
}

#[test]
fn relocation_moves_a_file_to_its_name_in_the_origin() {
    assert_eq!(
        relocation(&file("README.md"), "/home/me/temp_project", "/home/me"),
        Action::MoveFile {
            from: String::from("/home/me/temp_project/README.md"),
            to: String::from("/home/me/README.md"),
        }
    );
}
