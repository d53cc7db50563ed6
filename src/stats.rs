//! Plaintext payloads. Inside `protocol` they are held in private fields of the
//! sealed types, which never hand them out; in the arcis instructions they only
//! exist between unsealing and resealing.

use vstd::prelude::*;

verus! {

/// A tally as the pair (yes, no) of mathematical counts.
pub type Counts = (nat, nat);

/// One more on a counter that saturates at `u64::MAX`.
pub open spec fn bump(n: nat) -> nat {
    if n < u64::MAX {
        n + 1
    } else {
        n
    }
}

/// The counts after one more ballot with the given choice: the counter of that
/// choice goes up by one, unless it already stands at `u64::MAX`.
pub open spec fn after_vote(t: Counts, choice: bool) -> Counts {
    if choice {
        (bump(t.0), t.1)
    } else {
        (t.0, bump(t.1))
    }
}

/// The declassified outcome: strictly more yes than no. A tie is a no.
pub open spec fn majority(t: Counts) -> bool {
    t.0 > t.1
}

/// Whether both counts are representable as `u64`.
pub open spec fn fits_u64(t: Counts) -> bool {
    t.0 <= u64::MAX && t.1 <= u64::MAX
}

/// The running tally of a poll: how many ballots said yes and how many said no.
#[derive(Clone, Copy, Debug)]
pub struct VoteStats {
    yes: u64,
    no: u64,
}

impl View for VoteStats {
    type V = Counts;

    closed spec fn view(&self) -> Counts {
        (self.yes as nat, self.no as nat)
    }
}

impl VoteStats {
    /// The empty tally of a new poll.
    pub fn new() -> (r: VoteStats)
        ensures
            r@ == (0nat, 0nat),
    {
        VoteStats { yes: 0, no: 0 }
    }

    /// A tally holding the given counts.
    pub fn from_counts(yes: u64, no: u64) -> (r: VoteStats)
        ensures
            r@ == (yes as nat, no as nat),
    {
        VoteStats { yes, no }
    }

    pub fn yes(&self) -> (r: u64)
        ensures
            r == self@.0,
    {
        self.yes
    }

    pub fn no(&self) -> (r: u64)
        ensures
            r == self@.1,
    {
        self.no
    }

    /// Both counts of every tally fit in a `u64`.
    pub proof fn lemma_fits(&self)
        ensures
            fits_u64(self@),
    {
    }

    /// Counts one ballot: the counter of its choice goes up by exactly one.
    /// Counters saturate: one that already stands at `u64::MAX` stays there,
    /// and the other counter is left as it was.
    pub fn record(&mut self, ballot: &UserVote)
        ensures
            final(self)@ == after_vote(old(self)@, ballot@),
    {
        if ballot.vote {
            if self.yes < u64::MAX {
                self.yes = self.yes + 1;
            }
        } else {
            if self.no < u64::MAX {
                self.no = self.no + 1;
            }
        }
    }

    /// The majority outcome of this tally: `true` iff yes > no.
    pub fn yes_wins(&self) -> (r: bool)
        ensures
            r == majority(self@),
    {
        self.yes > self.no
    }
}

/// One voter's ballot.
#[derive(Clone, Copy, Debug)]
pub struct UserVote {
    vote: bool,
}

impl View for UserVote {
    type V = bool;

    closed spec fn view(&self) -> bool {
        self.vote
    }
}

impl UserVote {
    pub fn new(vote: bool) -> (r: UserVote)
        ensures
            r@ == vote,
    {
        UserVote { vote }
    }

    pub fn vote(&self) -> (r: bool)
        ensures
            r == self@,
    {
        self.vote
    }
}

} // verus!
