//! Domain-tagged entities and the three transitions over them.
//!
//! Here a "sealed" value is not encrypted: it is bound to its domain and keeps
//! its payload in plain form in a private field, and its secrecy comes from
//! that field's visibility alone. No function of this module returns a
//! payload, a count, or anything derived from one other than the single bit of
//! `reveal_result`. The encryption itself is arcis's work, done around these
//! rules by the instructions of the companion application. The views below
//! are ghost-only and exist for the contracts.

use vstd::prelude::*;
use crate::stats::{after_vote, fits_u64, majority, Counts, UserVote, VoteStats};

verus! {

/// The cryptographic domain under which a value is sealed.
#[derive(Clone, Copy, Debug, PartialEq, Eq, Structural)]
pub enum EncryptionContext {
    /// The authority-wide domain of one poll.
    Pool { poll: u64 },
    /// The domain shared by one voter and the pool of one poll.
    Shared { poll: u64, voter: u64 },
}

/// Why a transition was refused.
///
/// There is no malformed-ciphertext error: a sealed value of this module can
/// only be made by `init_vote_stats`, `seal_ballot` or `vote`, and its payload
/// is typed, so it always unseals as what it claims to be.
#[derive(Clone, Copy, Debug, PartialEq, Eq, Structural)]
pub enum TallyError {
    /// The context handed in is not of the domain the operation needs.
    ContextError,
    /// The ballot was sealed for another poll than the tally's.
    DomainMismatchError,
}

/// The poll that a context belongs to.
pub open spec fn poll_of(ctx: EncryptionContext) -> u64 {
    match ctx {
        EncryptionContext::Pool { poll } => poll,
        EncryptionContext::Shared { poll, .. } => poll,
    }
}

/// A ballot's domain may be combined with a tally's domain when both belong to
/// the same poll.
pub open spec fn compatible(ballot: EncryptionContext, tally: EncryptionContext) -> bool {
    &&& ballot is Shared
    &&& tally is Pool
    &&& poll_of(ballot) == poll_of(tally)
}

/// A running tally sealed under the pool domain of its poll.
///
/// It can be neither cloned nor printed. `vote` consumes it, so within one
/// process two votes can never both start from the same tally value; across
/// processes, keeping one vote in flight per poll is the coordinator's task.
pub struct EncVoteStats {
    poll: u64,
    data: VoteStats,
}

impl EncVoteStats {
    /// The domain that owns this tally; always a pool domain.
    pub closed spec fn owner(&self) -> EncryptionContext {
        EncryptionContext::Pool { poll: self.poll }
    }

    /// The sealed counts.
    pub closed spec fn counts(&self) -> Counts {
        self.data@
    }

    /// The owner is a pool domain and the counts fit in `u64`.
    pub proof fn lemma_well_formed(&self)
        ensures
            self.owner() is Pool,
            fits_u64(self.counts()),
    {
        self.data.lemma_fits();
    }
}

/// One ballot sealed under the shared domain of a voter and a poll.
pub struct EncUserVote {
    poll: u64,
    voter: u64,
    data: UserVote,
}

impl EncUserVote {
    /// The domain that owns this ballot; always a shared domain.
    pub closed spec fn owner(&self) -> EncryptionContext {
        EncryptionContext::Shared { poll: self.poll, voter: self.voter }
    }

    /// The sealed choice.
    pub closed spec fn choice(&self) -> bool {
        self.data@
    }

    pub proof fn lemma_well_formed(&self)
        ensures
            self.owner() is Shared,
    {
    }
}

/// Initialize: binds the empty tally `{yes: 0, no: 0}` to a pool domain.
/// Any other context is refused with `ContextError`.
pub fn init_vote_stats(ctx: EncryptionContext) -> (r: Result<EncVoteStats, TallyError>)
    ensures
        ctx is Pool <==> r is Ok,
        !(ctx is Pool) ==> r == Err::<EncVoteStats, TallyError>(TallyError::ContextError),
        r matches Ok(t) ==> t.owner() == ctx && t.counts() == (0nat, 0nat),
{
    match ctx {
        EncryptionContext::Pool { poll } => Ok(EncVoteStats { poll, data: VoteStats::new() }),
        EncryptionContext::Shared { .. } => Err(TallyError::ContextError),
    }
}

/// The voter-side sealing step: binds a choice to a shared domain. Any other
/// context is refused with `ContextError`.
pub fn seal_ballot(ctx: EncryptionContext, choice: bool) -> (r: Result<EncUserVote, TallyError>)
    ensures
        ctx is Shared <==> r is Ok,
        !(ctx is Shared) ==> r == Err::<EncUserVote, TallyError>(TallyError::ContextError),
        r matches Ok(b) ==> b.owner() == ctx && b.choice() == choice,
{
    match ctx {
        EncryptionContext::Shared { poll, voter } => Ok(
            EncUserVote { poll, voter, data: UserVote::new(choice) },
        ),
        EncryptionContext::Pool { .. } => Err(TallyError::ContextError),
    }
}

/// ApplyVote: consumes a ballot and the current tally and returns the next
/// tally, in which the counter of the ballot's choice went up by one (a
/// counter saturates at `u64::MAX`). The result is owned by the same pool
/// domain as the input tally.
///
/// Fails with `DomainMismatchError` when the ballot was sealed for another
/// poll; the tally is then handed back unchanged beside the error.
pub fn vote(ballot: EncUserVote, tally: EncVoteStats) -> (r: Result<
    EncVoteStats,
    (TallyError, EncVoteStats),
>)
    ensures
        compatible(ballot.owner(), tally.owner()) <==> r is Ok,
        !compatible(ballot.owner(), tally.owner()) ==> r == Err::<
            EncVoteStats,
            (TallyError, EncVoteStats),
        >((TallyError::DomainMismatchError, tally)),
        r matches Ok(t) ==> t.owner() == tally.owner() && t.counts() == after_vote(
            tally.counts(),
            ballot.choice(),
        ),
{
    if ballot.poll != tally.poll {
        return Err((TallyError::DomainMismatchError, tally));
    }
    let poll = tally.poll;
    let mut data = tally.data;
    data.record(&ballot.data);
    Ok(EncVoteStats { poll, data })
}

/// Reveal: declassifies the one bit `yes > no` of a tally (a tie is `false`).
/// The tally is only borrowed, so it may be revealed any number of times, and
/// each time the answer is the same function of its sealed counts.
pub fn reveal_result(tally: &EncVoteStats) -> (r: bool)
    ensures
        r == majority(tally.counts()),
{
    tally.data.yes_wins()
}

} // verus!
