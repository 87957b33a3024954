//! The command lines handed to the process runner.

use vstd::prelude::*;
use crate::failure::Stage;

verus! {

/// The command line of `stage`, for the remote at `url` and the branch
/// `branch`.
pub open spec fn command_line_of(stage: Stage, url: Seq<char>, branch: Seq<char>) -> Seq<char> {
    match stage {
        Stage::Initialize => "git init"@,
        Stage::RegisterRemote => "git remote add -f origin "@ + url,
        Stage::EnableSparse => "git config core.sparseCheckout true"@,
        Stage::Pull => "git pull origin "@ + branch,
    }
}

/// The line that records `folder` in the pattern file.
pub open spec fn pattern_line_of(folder: Seq<char>) -> Seq<char> {
    folder + "\n"@
}

/// Returns the command line of `stage`.
pub fn command_line(stage: Stage, url: &str, branch: &str) -> (line: String)
    ensures
        line@ == command_line_of(stage, url@, branch@),
{
    match stage {
        Stage::Initialize => String::from_str("git init"),
        Stage::RegisterRemote => String::from_str("git remote add -f origin ").concat(url),
        Stage::EnableSparse => String::from_str("git config core.sparseCheckout true"),
        Stage::Pull => String::from_str("git pull origin ").concat(branch),
    }
}

/// Returns the line that records `folder` in the pattern file.
pub fn pattern_line(folder: &str) -> (line: String)
    ensures
        line@ == pattern_line_of(folder@),
{
    String::from_str(folder).concat("\n")
}

} // verus!
