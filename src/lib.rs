//! The rules of a confidential tally. Ballots and the running tally are values
//! bound to an encryption domain whose payload no function hands out; the only
//! thing that ever leaves them is the one-bit majority outcome. This crate
//! holds the payloads in plain form behind private fields: the encryption
//! itself is done by arcis, in the application around it.

pub mod laws;
pub mod protocol;
pub mod stats;

pub use protocol::{
    init_vote_stats, reveal_result, seal_ballot, vote, EncUserVote, EncVoteStats,
    EncryptionContext, TallyError,
};
pub use stats::{UserVote, VoteStats};
