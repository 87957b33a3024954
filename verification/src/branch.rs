//! The one-shot fallback between the two conventional primary branch names.

use vstd::prelude::*;
use crate::text::text_of;

verus! {

/// The branch to try when a pull of `branch` has failed: the other of the
/// pair `main` / `master`, and nothing for any other name.
pub open spec fn fallback_of(branch: Seq<char>) -> Option<Seq<char>> {
    if branch == "main"@ {
        Some("master"@)
    } else if branch == "master"@ {
        Some("main"@)
    } else {
        None
    }
}

/// Returns the branch to retry with after a failed pull of `branch`, if
/// there is one.
pub fn fallback_branch(branch: &str) -> (alt: Option<String>)
    ensures
        text_of(alt) == fallback_of(branch@),
{
    let asked = String::from_str(branch);
    if asked == String::from_str("main") {
        Some(String::from_str("master"))
    } else if asked == String::from_str("master") {
        Some(String::from_str("main"))
    } else {
        None
    }
}

/// The fallback never proposes the branch that was asked for, and the two
/// names of the pair propose each other.
pub proof fn lemma_fallback_swaps(branch: Seq<char>)
    ensures
        fallback_of(branch) is Some ==> fallback_of(branch)->0 != branch,
        fallback_of(branch) is Some ==> fallback_of(fallback_of(branch)->0) == Some(branch),
        fallback_of(branch) is Some <==> (branch == "main"@ || branch == "master"@),
{
    reveal_strlit("main");
    reveal_strlit("master");
    assert("main"@.len() != "master"@.len());
}

} // verus!
