//! The working-tree guard: the mandatory precondition that no tracked
//! file carries uncommitted modifications. The ledger identifies a deploy
//! by the current commit, so a dirty tree would make the record
//! ambiguous; the orchestrator aborts before any remote side effect.

use vstd::prelude::*;

verus! {

/// Decide whether the working tree is dirty, given for each entry of the
/// repository's status list whether it is a tracked file with
/// uncommitted modifications.
pub fn has_uncommitted_files(modified: &Vec<bool>) -> (r: bool)
    ensures
        r == exists|i: int| 0 <= i < modified@.len() && modified@[i],
{
    let mut i: usize = 0;
    while i < modified.len()
        invariant
            0 <= i <= modified@.len(),
            forall|j: int| 0 <= j < i ==> !modified@[j],
        decreases modified@.len() - i,
    {
        if modified[i] {
            return true;
        }
        i += 1;
    }
    false
}

} // verus!
