//! Properties of whole sequences of ballots.

use vstd::prelude::*;
use vstd::multiset::Multiset;
use crate::stats::{after_vote, bump, majority, Counts};

verus! {

/// The counts of a fresh tally after the ballots `votes`, applied one after the
/// other from the first to the last, as `vote` describes each step.
pub open spec fn tally_of(votes: Seq<bool>) -> Counts
    decreases votes.len(),
{
    if votes.len() == 0 {
        (0nat, 0nat)
    } else {
        after_vote(tally_of(votes.drop_last()), votes.last())
    }
}

/// A count that saturates at `u64::MAX`.
pub open spec fn capped(n: nat) -> nat {
    if n <= u64::MAX {
        n
    } else {
        u64::MAX as nat
    }
}

/// Applying ballots one by one counts, for each choice, how many ballots hold
/// it, up to `u64::MAX`.
pub proof fn lemma_tally_of_counts(votes: Seq<bool>)
    ensures
        tally_of(votes) == (
            capped(votes.to_multiset().count(true)),
            capped(votes.to_multiset().count(false)),
        ),
    decreases votes.len(),
{
    broadcast use vstd::seq_lib::group_to_multiset_ensures;

    if votes.len() == 0 {
        assert(votes.to_multiset() =~= Multiset::<bool>::empty());
    } else {
        let init = votes.drop_last();
        lemma_tally_of_counts(init);
        assert(init.push(votes.last()) =~= votes);
        assert(votes.to_multiset() =~= init.to_multiset().insert(votes.last()));
        assert(forall|n: nat| #[trigger] bump(capped(n)) == capped(n + 1));
    }
}

/// The final tally, and so the revealed outcome, does not depend on the order in
/// which the same ballots are applied.
pub proof fn lemma_order_independent(a: Seq<bool>, b: Seq<bool>)
    requires
        a.to_multiset() == b.to_multiset(),
    ensures
        tally_of(a) == tally_of(b),
        majority(tally_of(a)) == majority(tally_of(b)),
{
    lemma_tally_of_counts(a);
    lemma_tally_of_counts(b);
}

} // verus!
