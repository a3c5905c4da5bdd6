use vstd::prelude::*;

verus! {

/// A 1-based selection index is valid exactly when it lies in `[1, n]`.
pub open spec fn spec_selection_valid(sel: usize, n: usize) -> bool {
    1 <= sel && sel <= n
}

/// Validates a user-supplied 1-based index against `n` candidates.
pub fn selection_valid(sel: usize, n: usize) -> (r: bool)
    ensures
        r == spec_selection_valid(sel, n),
{
    1 <= sel && sel <= n
}

/// Runs the selection loop over a fixed schedule of re-prompt replies:
/// the initial index is accepted at once when valid; otherwise replies
/// are read in order until a valid one appears. Returns the accepted
/// index with the number of re-prompts it took, or `None` when the
/// initial index and every reply are invalid.
pub fn select_run(initial: usize, replies: &Vec<usize>, n: usize) -> (r: Option<(usize, usize)>)
    ensures
        spec_selection_valid(initial, n) ==> r == Some((initial, 0usize)),
        r matches Some(p) ==> spec_selection_valid(p.0, n) && (!spec_selection_valid(initial, n)
            ==> p.1 >= 1) && (p.1 >= 1 ==> p.1 <= replies@.len() && p.0 == replies@[p.1 - 1] && (
        forall|j: int| 0 <= j < p.1 - 1 ==> !spec_selection_valid(replies@[j], n))),
        r is None <==> !spec_selection_valid(initial, n) && (forall|j: int|
            0 <= j < replies@.len() ==> !spec_selection_valid(replies@[j], n)),
{
    if selection_valid(initial, n) {
        return Some((initial, 0));
    }
    let mut k: usize = 0;
    while k < replies.len()
        invariant
            !spec_selection_valid(initial, n),
            k <= replies@.len(),
            forall|j: int| 0 <= j < k ==> !spec_selection_valid(replies@[j], n),
        decreases replies@.len() - k,
    {
        let candidate = replies[k];
        k = k + 1;
        if selection_valid(candidate, n) {
            return Some((candidate, k));
        }
    }
    None
}

} // verus!
