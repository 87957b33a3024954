//! Merging the checkout into the original directory: which entries of the
//! workspace move, and where each one goes.

use vstd::prelude::*;
use crate::protocol::{entries_of, Action, ActionView, Entry, EntryView};
use crate::workspace::{inside, path_inside};

verus! {

/// Whether an entry belongs to the checkout. The directory in which git
/// keeps its own data does not.
pub open spec fn is_retrieved(entry: EntryView) -> bool {
    entry.name != ".git"@
}

/// The test by which the entries to move are chosen.
pub open spec fn retrieved() -> spec_fn(EntryView) -> bool {
    |entry: EntryView| is_retrieved(entry)
}

/// The entries that move, in the order of the listing.
pub open spec fn retained(entries: Seq<EntryView>) -> Seq<EntryView> {
    entries.filter(retrieved())
}

/// The action that moves `entry` from the workspace into the original
/// directory, where it lands under its own name.
pub open spec fn relocation_of(
    entry: EntryView,
    workspace: Seq<char>,
    origin: Seq<char>,
) -> ActionView {
    if entry.is_dir {
        ActionView::MoveDirectory { from: inside(workspace, entry.name), into: origin }
    } else {
        ActionView::MoveFile {
            from: inside(workspace, entry.name),
            to: inside(origin, entry.name),
        }
    }
}

/// The path at which an entry is found once `action` has moved it.
pub open spec fn landing_of(action: ActionView, name: Seq<char>) -> Option<Seq<char>> {
    match action {
        ActionView::MoveDirectory { from, into } => Some(inside(into, name)),
        ActionView::MoveFile { from, to } => Some(to),
        _ => None,
    }
}

/// Returns the entries of `entries` that move, in their order.
pub fn retain(entries: Vec<Entry>) -> (kept: Vec<Entry>)
    ensures
        entries_of(kept@) == retained(entries_of(entries@)),
{
    let mut kept: Vec<Entry> = Vec::new();
    let skipped = String::from_str(".git");
    let mut at: usize = 0;
    proof {
        assert(entries_of(entries@).take(0) =~= Seq::<EntryView>::empty());
        reveal(Seq::filter);
        assert(entries_of(kept@) =~= Seq::<EntryView>::empty());
    }
    while at < entries.len()
        invariant
            at <= entries.len(),
            skipped@ == ".git"@,
            entries_of(kept@) == retained(entries_of(entries@).take(at as int)),
        decreases entries.len() - at,
    {
        let ghost seen = entries_of(entries@).take(at as int);
        let ghost before = entries_of(kept@);
        proof {
            assert(entries_of(entries@).take(at as int + 1) =~= seen.push(entries[at as int]@));
            seen.lemma_filter_push(entries[at as int]@, retrieved());
        }
        if entries[at].name != skipped {
            let entry = Entry { name: entries[at].name.clone(), is_dir: entries[at].is_dir };
            kept.push(entry);
            proof {
                assert(entries_of(kept@) =~= before.push(entries[at as int]@));
            }
        }
        at = at + 1;
    }
    proof {
        assert(entries_of(entries@).take(at as int) =~= entries_of(entries@));
    }
    kept
}

/// Returns the action that moves `entry` from `workspace` into `origin`.
pub fn relocation(entry: &Entry, workspace: &str, origin: &str) -> (action: Action)
    ensures
        action@ == relocation_of(entry@, workspace@, origin@),
{
    let from = path_inside(workspace, entry.name.as_str());
    if entry.is_dir {
        Action::MoveDirectory { from, into: String::from_str(origin) }
    } else {
        Action::MoveFile { from, to: path_inside(origin, entry.name.as_str()) }
    }
}

} // verus!
