//! What a run is asked to do.

use vstd::prelude::*;
use crate::text::texts_of;
use crate::workspace::repository_of;

verus! {

/// The input of one run. It does not change while the run lasts.
#[derive(Clone, Debug, PartialEq, Eq)]
pub struct Invocation {
    /// The URL of the remote repository.
    pub url: String,
    /// The folders to check out, in the order in which they were given.
    pub folders: Vec<String>,
    /// The branch to pull.
    pub branch: String,
    /// Whether the checkout is merged into the current directory.
    pub in_place: bool,
    /// Whether progress is reported step by step.
    pub verbose: bool,
    /// Whether the output of failed commands is shown.
    pub errors: bool,
}

/// An invocation as plain values.
pub struct InvocationView {
    pub url: Seq<char>,
    pub folders: Seq<Seq<char>>,
    pub branch: Seq<char>,
    pub in_place: bool,
    pub verbose: bool,
    pub errors: bool,
}

impl View for Invocation {
    type V = InvocationView;

    open spec fn view(&self) -> InvocationView {
        InvocationView {
            url: self.url@,
            folders: texts_of(self.folders@),
            branch: self.branch@,
            in_place: self.in_place,
            verbose: self.verbose,
            errors: self.errors,
        }
    }
}

impl InvocationView {
    /// An invocation can be run when it names at least one folder and its
    /// URL names a repository: some piece after the host is not empty.
    pub open spec fn valid(self) -> bool {
        self.folders.len() > 0 && repository_of(self.url) is Some
    }
}

} // verus!
