//! The tally of a weighted vote, and the rule that decides it.
//!
//! A vote counts with the weight that the voter stakes, neither more nor less.
//! The arithmetic is that of `pallet_democracy`.

use crate::types::Balance;
use pallet_democracy::{AccountVote, Approved, Conviction, Vote, VoteThreshold};
use vstd::prelude::*;

verus! {

/// The votes cast in a referendum so far.
#[derive(Clone, Copy, PartialEq, Eq, Structural, Debug)]
pub struct Tally {
    /// The weight of the votes in favour.
    pub ayes: Balance,
    /// The weight of the votes against.
    pub nays: Balance,
    /// The weight of all the votes.
    pub turnout: Balance,
}

impl Tally {
    /// The tally before anybody voted.
    pub open spec fn spec_empty() -> Tally {
        Tally { ayes: 0, nays: 0, turnout: 0 }
    }

    /// The tally before anybody voted.
    #[verifier::when_used_as_spec(spec_empty)]
    pub fn empty() -> (t: Tally)
        ensures
            t == Tally::spec_empty(),
    {
        Tally { ayes: 0, nays: 0, turnout: 0 }
    }

    /// The tally with one more vote of weight `balance`, unless a count would
    /// exceed the largest amount.
    pub open spec fn spec_add(self, aye: bool, balance: Balance) -> Option<Tally> {
        if self.turnout + balance > Balance::MAX {
            None
        } else if aye {
            if self.ayes + balance > Balance::MAX {
                None
            } else {
                Some(
                    Tally {
                        ayes: (self.ayes + balance) as Balance,
                        turnout: (self.turnout + balance) as Balance,
                        ..self
                    },
                )
            }
        } else {
            if self.nays + balance > Balance::MAX {
                None
            } else {
                Some(
                    Tally {
                        nays: (self.nays + balance) as Balance,
                        turnout: (self.turnout + balance) as Balance,
                        ..self
                    },
                )
            }
        }
    }

    /// Whether a simple majority is in favour: somebody voted, and the votes in
    /// favour outweigh those against.
    pub open spec fn spec_approved(self) -> bool {
        self.turnout > 0 && self.ayes > self.nays
    }

    /// Calls `pallet_democracy::Tally::add` with a standard vote of conviction
    /// `Locked1x`, under which a vote counts once the balance behind it.
    ///
    /// Trusted: the call adds `balance` to the turnout and to the side voted
    /// for, and returns `None` where one of the two sums overflows.
    #[verifier::external_body]
    pub(crate) fn add(self, aye: bool, balance: Balance) -> (sum: Option<Tally>)
        ensures
            sum == self.spec_add(aye, balance),
    {
        let mut tally =
            pallet_democracy::Tally { ayes: self.ayes, nays: self.nays, turnout: self.turnout };
        let vote = Vote { aye, conviction: Conviction::Locked1x };
        match tally.add(AccountVote::Standard { vote, balance }) {
            Some(()) => Some(Tally { ayes: tally.ayes, nays: tally.nays, turnout: tally.turnout }),
            None => None,
        }
    }

    /// Calls `pallet_democracy::VoteThreshold::SimpleMajority.approved`.
    ///
    /// Trusted: under that threshold the call returns whether the turnout is
    /// not zero and the votes in favour outweigh those against; the size of the
    /// electorate does not enter.
    #[verifier::external_body]
    pub(crate) fn approved(self, electorate: Balance) -> (yes: bool)
        ensures
            yes == self.spec_approved(),
    {
        let tally =
            pallet_democracy::Tally { ayes: self.ayes, nays: self.nays, turnout: self.turnout };
        VoteThreshold::SimpleMajority.approved(tally, electorate)
    }
}

} // verus!
