//! Voting on a question: the first vote of a voter is free, every further
//! one is paid for.

use vstd::prelude::*;
use crate::keys::same_key;

verus! {

/// The side a vote is cast for.
#[derive(Clone, Copy, Debug, PartialEq, Eq, Structural)]
pub enum VoteDirection {
    Hype,
    Flop,
}

/// One voting session.
#[derive(Clone, Debug, PartialEq, Eq)]
pub struct VotingMarket {
    /// Authority that created the session
    pub authority: [u8; 32],
    /// Unique identifier for the voting session
    pub vote_id: u64,
    /// Voting question
    pub question: [u8; 80],
    /// Start of the voting session
    pub data_inicio: i64,
    /// End of the voting session
    pub data_fim: i64,
    /// Total Hype votes
    pub total_hype: u64,
    /// Total Flop votes
    pub total_flop: u64,
    /// The voters who have taken part, in the order of their first vote
    pub voter_map: Vec<[u8; 32]>,
}

/// Why a vote is refused.
#[derive(Clone, Copy, Debug, PartialEq, Eq, Structural)]
pub enum CustomError {
    /// Voting is not active.
    VotingNotActive,
    /// Invalid amount for paid votes.
    InvalidAmount,
}

/// What a vote of `amount` adds to a tally: the vote itself and what was
/// added to it.
pub open spec fn vote_weight(amount: u64) -> int {
    1 + amount
}

impl VotingMarket {
    /// Whether votes are taken at `now`.
    pub open spec fn is_open_at(self, now: i64) -> bool {
        self.data_inicio <= now <= self.data_fim
    }

    /// Whether `voter` has voted before.
    pub open spec fn has_voted(self, voter: [u8; 32]) -> bool {
        exists|i: int|
            0 <= i < self.voter_map@.len() && (#[trigger] self.voter_map@[i])@ == voter@
    }

    pub open spec fn tally_of(self, direction: VoteDirection) -> u64 {
        match direction {
            VoteDirection::Hype => self.total_hype,
            VoteDirection::Flop => self.total_flop,
        }
    }

    /// Why a vote is refused, if it is.
    pub open spec fn vote_rejection(self, voter: [u8; 32], amount: u64, now: i64) -> Option<
        CustomError,
    > {
        if !self.is_open_at(now) {
            Some(CustomError::VotingNotActive)
        } else if self.has_voted(voter) && amount == 0 {
            Some(CustomError::InvalidAmount)
        } else {
            None
        }
    }

    /// Looks for `voter` among those who have voted.
    pub fn knows_voter(&self, voter: &[u8; 32]) -> (r: bool)
        ensures
            r == self.has_voted(*voter),
    {
        let mut n: usize = 0;
        while n < self.voter_map.len()
            invariant
                n <= self.voter_map@.len(),
                forall|i: int| 0 <= i < n ==> (#[trigger] self.voter_map@[i])@ != voter@,
            decreases self.voter_map@.len() - n,
        {
            if same_key(&self.voter_map[n], voter) {
                return true;
            }
            n = n + 1;
        }
        false
    }
}

/// Casts a vote of `voter` for `direction` at `now` and returns what the
/// voter has to pay for it.
///
/// A voter's first vote is free and enters the voter in the list; each
/// further vote must come with an amount, which is what it costs. Either
/// way the tally of `direction` grows by one and by the amount.
pub fn vote(
    voting_market: &mut VotingMarket,
    voter: [u8; 32],
    direction: VoteDirection,
    amount: u64,
    now: i64,
) -> (r: Result<u64, CustomError>)
    requires
        old(voting_market).vote_rejection(voter, amount, now) is None ==> old(
            voting_market,
        ).tally_of(direction) + vote_weight(amount) <= u64::MAX,
    ensures
        match r {
            Ok(charge) => {
                &&& old(voting_market).vote_rejection(voter, amount, now) is None
                &&& charge == if old(voting_market).has_voted(voter) {
                    amount
                } else {
                    0
                }
                &&& final(voting_market).voter_map@ == if old(voting_market).has_voted(voter) {
                    old(voting_market).voter_map@
                } else {
                    old(voting_market).voter_map@.push(voter)
                }
                &&& final(voting_market).total_hype == old(voting_market).total_hype + (if direction
                    == VoteDirection::Hype {
                    vote_weight(amount)
                } else {
                    0int
                })
                &&& final(voting_market).total_flop == old(voting_market).total_flop + (if direction
                    == VoteDirection::Flop {
                    vote_weight(amount)
                } else {
                    0int
                })
                &&& final(voting_market).has_voted(voter)
            },
            Err(e) => {
                &&& old(voting_market).vote_rejection(voter, amount, now) == Some(e)
                &&& *final(voting_market) == *old(voting_market)
            },
        },
        final(voting_market).authority == old(voting_market).authority,
        final(voting_market).vote_id == old(voting_market).vote_id,
        final(voting_market).question == old(voting_market).question,
        final(voting_market).data_inicio == old(voting_market).data_inicio,
        final(voting_market).data_fim == old(voting_market).data_fim,
{
    if !(now >= voting_market.data_inicio && now <= voting_market.data_fim) {
        return Err(CustomError::VotingNotActive);
    }
    let is_first_vote: bool = !voting_market.knows_voter(&voter);
    let charge: u64 = if is_first_vote {
        0
    } else {
        if amount == 0 {
            return Err(CustomError::InvalidAmount);
        }
        amount
    };
    if is_first_vote {
        voting_market.voter_map.push(voter);
    }
    match direction {
        VoteDirection::Hype => {
            voting_market.total_hype = voting_market.total_hype + 1 + amount;
        },
        VoteDirection::Flop => {
            voting_market.total_flop = voting_market.total_flop + 1 + amount;
        },
    }
    proof {
        let i = if is_first_vote {
            voting_market.voter_map@.len() - 1
        } else {
            choose|i: int|
                0 <= i < old(voting_market).voter_map@.len() && (#[trigger] old(
                    voting_market,
                ).voter_map@[i])@ == voter@
        };
        assert(voting_market.voter_map@[i]@ == voter@);
        assert(voting_market.has_voted(voter));
    }
    Ok(charge)
}

} // verus!
