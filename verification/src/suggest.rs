//! The "did you mean" suggestion engine: the vocabulary entry closest
//! to an unrecognized token, if it is within the tolerance threshold.

use vstd::prelude::*;
use crate::distance::{edit_dist, edit_distance, lemma_edit_dist_le_max};
use crate::verbs::views_of;

verus! {

/// The largest edit distance at which a vocabulary entry is still
/// offered as a suggestion.
pub const SUGGESTION_THRESHOLD: usize = 3;

/// Entry `k` is the first entry of `cmds` whose distance to `input` is
/// the minimum over all entries: no entry is closer, and every earlier
/// entry is strictly farther.
pub open spec fn is_first_best_match(input: Seq<char>, cmds: Seq<Seq<char>>, k: int) -> bool {
    &&& 0 <= k < cmds.len()
    &&& forall|j: int|
        0 <= j < cmds.len() ==> edit_dist(input, cmds[k]) <= edit_dist(input, #[trigger] cmds[j])
    &&& forall|j: int|
        0 <= j < k ==> edit_dist(input, #[trigger] cmds[j]) > edit_dist(input, cmds[k])
}

/// What the engine owes for a given input and command list: either the
/// first closest entry, at distance at most the threshold, or nothing
/// because every entry is farther than the threshold.
pub open spec fn suggestion_ok(input: Seq<char>, cmds: Seq<Seq<char>>, r: Option<Seq<char>>) -> bool {
    match r {
        Some(s) => exists|k: int|
            is_first_best_match(input, cmds, k) && edit_dist(input, #[trigger] cmds[k])
                <= SUGGESTION_THRESHOLD && s == cmds[k],
        None => forall|j: int|
            0 <= j < cmds.len() ==> edit_dist(input, #[trigger] cmds[j]) > SUGGESTION_THRESHOLD,
    }
}

/// The view of an optional string slice.
pub open spec fn view_of_opt(r: Option<&str>) -> Option<Seq<char>> {
    match r {
        Some(s) => Some(s@),
        None => None,
    }
}

/// Scans the command list left to right, keeping the first entry that
/// achieves the least edit distance to `input`; suggests it if that
/// distance is at most the threshold.
pub fn suggest_command<'a>(input: &str, commands: &'a [&str]) -> (r: Option<&'a str>)
    requires
        input@.len() < usize::MAX,
        forall|j: int| 0 <= j < commands@.len() ==> (#[trigger] commands@[j])@.len() < usize::MAX,
    ensures
        suggestion_ok(input@, views_of(commands@), view_of_opt(r)),
{
    let n: usize = commands.len();
    let mut found: bool = false;
    let mut best_idx: usize = 0;
    let mut best_dist: usize = usize::MAX;
    let mut idx: usize = 0;
    while idx < n
        invariant
            n == commands@.len(),
            input@.len() < usize::MAX,
            forall|j: int| 0 <= j < commands@.len() ==> (#[trigger] commands@[j])@.len() < usize::MAX,
            idx <= n,
            found == (idx > 0),
            !found ==> best_dist == usize::MAX,
            found ==> {
                &&& best_idx < idx
                &&& best_dist == edit_dist(input@, views_of(commands@)[best_idx as int])
                &&& forall|j: int|
                    0 <= j < idx ==> best_dist <= edit_dist(
                        input@,
                        #[trigger] views_of(commands@)[j],
                    )
                &&& forall|j: int|
                    0 <= j < best_idx ==> edit_dist(input@, #[trigger] views_of(commands@)[j])
                        > best_dist
            },
        decreases n - idx,
    {
        let d = edit_distance(input, commands[idx]);
        proof {
            assert(views_of(commands@)[idx as int] == commands@[idx as int]@);
            lemma_edit_dist_le_max(input@, commands@[idx as int]@);
        }
        if d < best_dist {
            best_dist = d;
            best_idx = idx;
            found = true;
        }
        idx = idx + 1;
    }
    if best_dist <= SUGGESTION_THRESHOLD {
        proof {
            assert(is_first_best_match(input@, views_of(commands@), best_idx as int));
            assert(views_of(commands@)[best_idx as int] == commands@[best_idx as int]@);
        }
        Some(commands[best_idx])
    } else {
        None
    }
}

} // verus!
