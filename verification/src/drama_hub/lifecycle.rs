//! The lifecycle of a drama over a series of progress requests.

use vstd::prelude::*;
use crate::drama_hub::state::Drama;

verus! {

/// The drama after one request for progress: a completed drama refuses the
/// request and stays as it is, an ongoing one advances.
pub open spec fn step(drama: Drama, added: u64) -> Drama {
    if drama.is_completed() {
        drama
    } else {
        drama.advanced(added)
    }
}

/// The drama after the first `n` of the requests `adds`.
pub open spec fn after(drama: Drama, adds: Seq<u64>, n: nat) -> Drama
    decreases n,
{
    if n == 0 || n > adds.len() {
        drama
    } else {
        step(after(drama, adds, (n - 1) as nat), adds[n - 1])
    }
}

/// Over any series of progress requests the accumulated duration and the
/// node count never decrease, and a drama that has completed stays exactly
/// as it was when it completed: there is one transition at most.
pub proof fn lemma_progress_monotonic(drama: Drama, adds: Seq<u64>, i: nat, j: nat)
    requires
        i <= j <= adds.len(),
    ensures
        after(drama, adds, i).current_duration <= after(drama, adds, j).current_duration,
        after(drama, adds, i).node_count <= after(drama, adds, j).node_count,
        after(drama, adds, i).is_completed() ==> after(drama, adds, j) == after(drama, adds, i),
    decreases j,
{
    if i < j {
        lemma_progress_monotonic(drama, adds, i, (j - 1) as nat);
    }
}

/// While a drama is ongoing, each request has added one to its node count,
/// as long as the count stays within `u64`.
pub proof fn lemma_node_count(drama: Drama, adds: Seq<u64>, n: nat)
    requires
        n <= adds.len(),
        !after(drama, adds, n).is_completed(),
        drama.node_count + n <= u64::MAX,
    ensures
        after(drama, adds, n).node_count == drama.node_count + n,
    decreases n,
{
    if n > 0 {
        lemma_node_count(drama, adds, (n - 1) as nat);
    }
}

} // verus!
