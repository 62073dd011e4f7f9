//! The bridge between those who propose and those who vote.
//!
//! A proposal carries an encoded action. It is screened by the council, unless
//! it goes to a referendum directly; a referendum is decided by the weight of
//! the votes; what a referendum approved is enacted only after a further
//! delay. While a proposal is open, no second one with the same digest is
//! accepted.

use crate::action::Action;
use crate::hashing::{blake2_256_digest, same_bytes};
use crate::roles::contains_account;
use crate::tally::Tally;
use crate::types::{AccountId, Balance, BlockNumber};
use vstd::prelude::*;

verus! {

/// The number of a referendum: the position of its proposal among all.
pub type ReferendumIndex = u32;

/// What the bridge is set up with.
#[derive(Clone, Copy, PartialEq, Eq, Structural, Debug)]
pub struct Config {
    /// The number of blocks that the council has for its vote.
    pub council_window: BlockNumber,
    /// The number of blocks between the council's approval and the opening of
    /// the referendum.
    pub opening_delay: BlockNumber,
    /// The number of blocks between the approval by referendum and the
    /// enactment.
    pub delay: BlockNumber,
    /// The number of blocks for which a referendum is open.
    pub voting_period: BlockNumber,
}

/// Why the bridge refused an action.
#[derive(Clone, Copy, PartialEq, Eq, Structural, Debug)]
pub enum Error {
    /// An open proposal has the same digest.
    DuplicatePreimage,
    /// No number is left for a further proposal.
    TooManyProposals,
    /// There is no proposal of that number.
    UnknownProposal,
    /// Only a member of the council votes in the council.
    NotCouncilMember,
    /// The proposal is not before the council, or the council's time is up.
    NotInCouncil,
    /// The proposal is not in a referendum that is open at this block.
    ReferendumNotOpen,
    /// The voter has voted on the proposal already.
    AlreadyVoted,
    /// The tally would exceed the largest amount.
    Overflow,
}

/// Where a proposal stands.
#[derive(Clone, Copy, PartialEq, Eq, Structural, Debug)]
pub enum Phase {
    /// Before the council, which decides at block `end`.
    Council { end: BlockNumber },
    /// In a referendum that takes votes from block `start` and is decided at
    /// block `end`.
    Referendum { start: BlockNumber, end: BlockNumber },
    /// Approved by the referendum that was decided at block `voted_until`; to
    /// be enacted at block `enact_at`.
    Queued { enact_at: BlockNumber, voted_until: BlockNumber },
    /// Enacted.
    Enacted,
    /// Refused by the council or by the referendum.
    Rejected,
}

impl Phase {
    /// Whether the proposal still awaits a decision or its enactment.
    pub open spec fn spec_is_open(&self) -> bool {
        !(*self == Phase::Enacted || *self == Phase::Rejected)
    }

    /// Whether the proposal still awaits a decision or its enactment.
    #[verifier::when_used_as_spec(spec_is_open)]
    pub fn is_open(&self) -> (open: bool)
        ensures
            open == self.spec_is_open(),
    {
        match self {
            Phase::Enacted => false,
            Phase::Rejected => false,
            _ => true,
        }
    }
}

/// What a referendum has come to.
#[derive(Clone, Copy, PartialEq, Eq, Structural, Debug)]
pub enum Outcome {
    Pending,
    Approved,
    Rejected,
}

/// What happened to a proposal in a block.
#[derive(Clone, Copy, PartialEq, Eq, Structural, Debug)]
pub enum Verdict {
    /// The council let the proposal pass to a referendum.
    CouncilApproved,
    /// The council refused the proposal.
    CouncilRejected,
    /// The referendum approved the proposal.
    ReferendumApproved,
    /// The referendum refused the proposal.
    ReferendumRejected,
    /// The delay after the approval has passed: the action takes effect.
    Enact,
}

/// What happened to the proposal of number `proposal` in a block.
#[derive(Clone, Copy, PartialEq, Eq, Structural, Debug)]
pub struct Notice {
    pub proposal: ReferendumIndex,
    pub verdict: Verdict,
}

/// A proposal and the votes on it.
#[derive(Clone, Debug)]
pub struct Proposal {
    /// Who proposed.
    pub origin: AccountId,
    /// The encoded action.
    pub encoded: Vec<u8>,
    /// The digest of the encoded action.
    pub hash: Vec<u8>,
    /// The block at which the proposal was made.
    pub opened_at: BlockNumber,
    /// Whether the council screens the proposal before the referendum.
    pub screened: bool,
    pub phase: Phase,
    /// The council members in favour.
    pub ayes: Vec<AccountId>,
    /// The council members against.
    pub nays: Vec<AccountId>,
    /// The votes of the referendum.
    pub tally: Tally,
    /// Who voted in the referendum.
    pub voters: Vec<AccountId>,
}

/// The mathematical content of a [`Proposal`].
pub struct ProposalView {
    pub origin: AccountId,
    pub encoded: Seq<u8>,
    pub hash: Seq<u8>,
    pub opened_at: BlockNumber,
    pub screened: bool,
    pub phase: Phase,
    pub ayes: Seq<AccountId>,
    pub nays: Seq<AccountId>,
    pub tally: Tally,
    pub voters: Seq<AccountId>,
}

impl View for Proposal {
    type V = ProposalView;

    open spec fn view(&self) -> ProposalView {
        ProposalView {
            origin: self.origin,
            encoded: self.encoded@,
            hash: self.hash@,
            opened_at: self.opened_at,
            screened: self.screened,
            phase: self.phase,
            ayes: self.ayes@,
            nays: self.nays@,
            tally: self.tally,
            voters: self.voters@,
        }
    }
}

/// `a + b`, or the last block where the sum lies beyond it.
pub open spec fn spec_later(a: BlockNumber, b: BlockNumber) -> BlockNumber {
    if a + b > BlockNumber::MAX {
        BlockNumber::MAX
    } else {
        (a + b) as BlockNumber
    }
}

/// `a + b`, or the last block where the sum lies beyond it.
#[verifier::when_used_as_spec(spec_later)]
pub fn later(a: BlockNumber, b: BlockNumber) -> (c: BlockNumber)
    ensures
        c == spec_later(a, b),
{
    if a > BlockNumber::MAX - b {
        BlockNumber::MAX
    } else {
        a + b
    }
}

impl ProposalView {
    /// The proposal as it is made at block `now`.
    pub open spec fn opened(
        origin: AccountId,
        encoded: Seq<u8>,
        hash: Seq<u8>,
        screened: bool,
        config: Config,
        now: BlockNumber,
    ) -> ProposalView {
        ProposalView {
            origin,
            encoded,
            hash,
            opened_at: now,
            screened,
            phase: if screened {
                Phase::Council { end: later(now, config.council_window) }
            } else {
                Phase::Referendum { start: now, end: later(now, config.voting_period) }
            },
            ayes: Seq::empty(),
            nays: Seq::empty(),
            tally: Tally::empty(),
            voters: Seq::empty(),
        }
    }

    /// The first block at which a screened proposal made at `opened_at` can
    /// take effect: after the council's window and the enactment delay.
    pub open spec fn earliest_enactment(self, config: Config) -> BlockNumber {
        later(later(self.opened_at, config.council_window), config.delay)
    }

    /// The dates of the proposal are in order.
    pub open spec fn wf(self, config: Config) -> bool {
        match self.phase {
            Phase::Council { end } => self.screened && end == later(
                self.opened_at,
                config.council_window,
            ),
            Phase::Referendum { start, end } => start <= end && (self.screened ==> start >= later(
                self.opened_at,
                config.council_window,
            )),
            Phase::Queued { enact_at, voted_until } => voted_until <= enact_at && (self.screened
                ==> enact_at >= self.earliest_enactment(config)),
            Phase::Enacted => true,
            Phase::Rejected => true,
        }
    }

    /// Whether the council, of `seats` members, is in favour: more than half
    /// of its members are.
    pub open spec fn council_in_favour(self, seats: nat) -> bool {
        2 * self.ayes.len() > seats
    }

    /// What block `now` brings the proposal to, and what is to be told of it.
    pub open spec fn advance(self, config: Config, seats: nat, now: BlockNumber) -> (
        ProposalView,
        Option<Verdict>,
    ) {
        match self.phase {
            Phase::Council { end } => if now < end {
                (self, None)
            } else if self.council_in_favour(seats) {
                (
                    ProposalView {
                        phase: Phase::Referendum {
                            start: later(now, config.opening_delay),
                            end: later(later(now, config.opening_delay), config.voting_period),
                        },
                        ..self
                    },
                    Some(Verdict::CouncilApproved),
                )
            } else {
                (ProposalView { phase: Phase::Rejected, ..self }, Some(Verdict::CouncilRejected))
            },
            Phase::Referendum { start, end } => if now < end {
                (self, None)
            } else if self.tally.spec_approved() {
                (
                    ProposalView {
                        phase: Phase::Queued {
                            enact_at: later(now, config.delay),
                            voted_until: end,
                        },
                        ..self
                    },
                    Some(Verdict::ReferendumApproved),
                )
            } else {
                (
                    ProposalView { phase: Phase::Rejected, ..self },
                    Some(Verdict::ReferendumRejected),
                )
            },
            Phase::Queued { enact_at, voted_until } => if now < enact_at {
                (self, None)
            } else {
                (ProposalView { phase: Phase::Enacted, ..self }, Some(Verdict::Enact))
            },
            Phase::Enacted => (self, None),
            Phase::Rejected => (self, None),
        }
    }

    /// What the referendum on the proposal has come to.
    pub open spec fn outcome(self) -> Outcome {
        match self.phase {
            Phase::Council { .. } => Outcome::Pending,
            Phase::Referendum { .. } => Outcome::Pending,
            Phase::Queued { .. } => Outcome::Approved,
            Phase::Enacted => Outcome::Approved,
            Phase::Rejected => Outcome::Rejected,
        }
    }
}

/// The proposals of `proposals` after block `now`.
pub open spec fn advance_all(
    proposals: Seq<ProposalView>,
    config: Config,
    seats: nat,
    now: BlockNumber,
) -> Seq<ProposalView> {
    Seq::new(proposals.len(), |i: int| proposals[i].advance(config, seats, now).0)
}

/// What is to be told of `proposals` after block `now`, in their order.
pub open spec fn notices_of(
    proposals: Seq<ProposalView>,
    config: Config,
    seats: nat,
    now: BlockNumber,
) -> Seq<Notice>
    decreases proposals.len(),
{
    if proposals.len() == 0 {
        Seq::empty()
    } else {
        let before = notices_of(proposals.drop_last(), config, seats, now);
        match proposals.last().advance(config, seats, now).1 {
            Some(verdict) => before.push(
                Notice { proposal: (proposals.len() - 1) as ReferendumIndex, verdict },
            ),
            None => before,
        }
    }
}

/// The mathematical content of the bridge.
pub struct BridgeView {
    pub config: Config,
    /// The members of the council.
    pub council: Seq<AccountId>,
    /// Every proposal made so far, each at the position that is its number.
    pub proposals: Seq<ProposalView>,
}

impl BridgeView {
    /// The bridge before any proposal.
    pub open spec fn init(config: Config, council: Seq<AccountId>) -> BridgeView {
        BridgeView { config, council, proposals: Seq::empty() }
    }

    /// The dates of every proposal are in order, and each has a number.
    pub open spec fn wf(self) -> bool {
        &&& self.proposals.len() <= ReferendumIndex::MAX
        &&& forall|i: int|
            0 <= i < self.proposals.len() ==> (#[trigger] self.proposals[i]).wf(self.config)
    }

    /// Whether an open proposal has the digest `hash`.
    pub open spec fn has_open(self, hash: Seq<u8>) -> bool {
        exists|i: int|
            0 <= i < self.proposals.len() && (#[trigger] self.proposals[i]).hash == hash
                && self.proposals[i].phase.is_open()
    }

    /// What [`Bridge::open`] does.
    pub open spec fn open(
        self,
        origin: AccountId,
        encoded: Seq<u8>,
        hash: Seq<u8>,
        screened: bool,
        now: BlockNumber,
    ) -> Result<(BridgeView, ReferendumIndex), Error> {
        if self.has_open(hash) {
            Err(Error::DuplicatePreimage)
        } else if self.proposals.len() >= ReferendumIndex::MAX {
            Err(Error::TooManyProposals)
        } else {
            Ok(
                (
                    BridgeView {
                        proposals: self.proposals.push(
                            ProposalView::opened(origin, encoded, hash, screened, self.config, now),
                        ),
                        ..self
                    },
                    self.proposals.len() as ReferendumIndex,
                ),
            )
        }
    }

    /// What [`Bridge::council_vote`] does.
    pub open spec fn council_vote(
        self,
        member: AccountId,
        proposal: ReferendumIndex,
        approve: bool,
        now: BlockNumber,
    ) -> Result<BridgeView, Error> {
        if !self.council.contains(member) {
            Err(Error::NotCouncilMember)
        } else if proposal >= self.proposals.len() {
            Err(Error::UnknownProposal)
        } else {
            let p = self.proposals[proposal as int];
            if !(p.phase matches Phase::Council { end } && now < end) {
                Err(Error::NotInCouncil)
            } else if p.ayes.contains(member) || p.nays.contains(member) {
                Err(Error::AlreadyVoted)
            } else {
                Ok(
                    BridgeView {
                        proposals: self.proposals.update(
                            proposal as int,
                            if approve {
                                ProposalView { ayes: p.ayes.push(member), ..p }
                            } else {
                                ProposalView { nays: p.nays.push(member), ..p }
                            },
                        ),
                        ..self
                    },
                )
            }
        }
    }

    /// What [`Bridge::vote`] does.
    pub open spec fn vote(
        self,
        voter: AccountId,
        referendum: ReferendumIndex,
        aye: bool,
        weight: Balance,
        now: BlockNumber,
    ) -> Result<BridgeView, Error> {
        if referendum >= self.proposals.len() {
            Err(Error::UnknownProposal)
        } else {
            let p = self.proposals[referendum as int];
            if !(p.phase matches Phase::Referendum { start, end } && start <= now < end) {
                Err(Error::ReferendumNotOpen)
            } else if p.voters.contains(voter) {
                Err(Error::AlreadyVoted)
            } else if p.tally.spec_add(aye, weight) is None {
                Err(Error::Overflow)
            } else {
                Ok(
                    BridgeView {
                        proposals: self.proposals.update(
                            referendum as int,
                            ProposalView {
                                tally: p.tally.spec_add(aye, weight)->Some_0,
                                voters: p.voters.push(voter),
                                ..p
                            },
                        ),
                        ..self
                    },
                )
            }
        }
    }

    /// What [`Bridge::on_initialize`] does.
    pub open spec fn on_initialize(self, now: BlockNumber) -> (BridgeView, Seq<Notice>) {
        (
            BridgeView {
                proposals: advance_all(self.proposals, self.config, self.council.len(), now),
                ..self
            },
            notices_of(self.proposals, self.config, self.council.len(), now),
        )
    }

    /// What the referendum of number `referendum` has come to.
    pub open spec fn outcome(self, referendum: ReferendumIndex) -> Option<Outcome> {
        if referendum < self.proposals.len() {
            Some(self.proposals[referendum as int].outcome())
        } else {
            None
        }
    }
}

/// The bridge between those who propose and those who vote.
pub struct Bridge {
    config: Config,
    council: Vec<AccountId>,
    proposals: Vec<Proposal>,
}

impl View for Bridge {
    type V = BridgeView;

    closed spec fn view(&self) -> BridgeView {
        BridgeView {
            config: self.config,
            council: self.council@,
            proposals: Seq::new(self.proposals@.len(), |i: int| self.proposals@[i]@),
        }
    }
}

impl Bridge {
    /// A bridge without proposals, with the council `council`.
    pub fn new(config: Config, council: Vec<AccountId>) -> (b: Bridge)
        ensures
            b@ == BridgeView::init(config, council@),
            b@.wf(),
    {
        let b = Bridge { config, council, proposals: Vec::new() };
        assert(b@.proposals =~= Seq::empty());
        b
    }

    /// What the bridge was set up with.
    pub fn config(&self) -> (c: Config)
        ensures
            c == self@.config,
    {
        self.config
    }

    /// The number of proposals made so far.
    pub fn proposal_count(&self) -> (n: usize)
        ensures
            n == self@.proposals.len(),
    {
        self.proposals.len()
    }

    /// Whether an open proposal has the digest `hash`.
    pub fn has_open(&self, hash: &Vec<u8>) -> (found: bool)
        ensures
            found == self@.has_open(hash@),
    {
        let mut i: usize = 0;
        while i < self.proposals.len()
            invariant
                i <= self.proposals@.len(),
                forall|j: int|
                    0 <= j < i ==> !((#[trigger] self@.proposals[j]).hash == hash@
                        && self@.proposals[j].phase.is_open()),
            decreases self.proposals@.len() - i,
        {
            if self.proposals[i].phase.is_open() && same_bytes(&self.proposals[i].hash, hash) {
                assert(self@.proposals[i as int].hash == hash@);
                return true;
            }
            i += 1;
        }
        false
    }

    /// Files the proposal of `origin` that carries the encoded action
    /// `encoded`, whose digest is `hash`, and returns its number.
    ///
    /// A screened proposal goes before the council until the council's window
    /// ends; another goes to a referendum at once. Fails with
    /// [`Error::DuplicatePreimage`], changing nothing, while an open proposal
    /// has the same digest.
    pub fn open(
        &mut self,
        origin: AccountId,
        encoded: Vec<u8>,
        hash: Vec<u8>,
        screened: bool,
        now: BlockNumber,
    ) -> (res: Result<ReferendumIndex, Error>)
        requires
            old(self)@.wf(),
        ensures
            final(self)@.wf(),
            match old(self)@.open(origin, encoded@, hash@, screened, now) {
                Ok((after, number)) => res == Ok::<ReferendumIndex, Error>(number) && final(self)@
                    == after,
                Err(e) => res == Err::<ReferendumIndex, Error>(e) && final(self)@ == old(self)@,
            },
    {
        if self.has_open(&hash) {
            return Err(Error::DuplicatePreimage);
        }
        if self.proposals.len() >= ReferendumIndex::MAX as usize {
            return Err(Error::TooManyProposals);
        }
        let number = self.proposals.len() as ReferendumIndex;
        let phase = if screened {
            Phase::Council { end: later(now, self.config.council_window) }
        } else {
            Phase::Referendum { start: now, end: later(now, self.config.voting_period) }
        };
        let proposal = Proposal {
            origin,
            encoded,
            hash,
            opened_at: now,
            screened,
            phase,
            ayes: Vec::new(),
            nays: Vec::new(),
            tally: Tally::empty(),
            voters: Vec::new(),
        };
        self.proposals.push(proposal);
        proof {
            let after = old(self)@.open(origin, encoded@, hash@, screened, now)->Ok_0.0;
            assert(self@.proposals =~= after.proposals);
        }
        Ok(number)
    }

    /// Files the proposal of `origin` for `action`, and returns its number and
    /// its digest.
    pub fn submit(&mut self, origin: AccountId, action: Action, screened: bool, now: BlockNumber) -> (res:
        Result<(ReferendumIndex, Vec<u8>), Error>)
        requires
            old(self)@.wf(),
        ensures
            final(self)@.wf(),
            match old(self)@.open(
                origin,
                action.encoding(),
                blake2_256_digest(action.encoding()),
                screened,
                now,
            ) {
                Ok((after, number)) => res matches Ok((n, h)) && n == number && h@
                    == blake2_256_digest(action.encoding()) && final(self)@ == after,
                Err(e) => res matches Err(err) && err == e && final(self)@ == old(self)@,
            },
    {
        let encoded = action.encode();
        let hash = action.hash();
        let kept = crate::action::copy_bytes(&hash);
        match self.open(origin, encoded, hash, screened, now) {
            Ok(number) => Ok((number, kept)),
            Err(e) => Err(e),
        }
    }

    /// Records the vote of the council member `member` on a proposal that is
    /// before the council.
    pub fn council_vote(
        &mut self,
        member: AccountId,
        proposal: ReferendumIndex,
        approve: bool,
        now: BlockNumber,
    ) -> (res: Result<(), Error>)
        requires
            old(self)@.wf(),
        ensures
            final(self)@.wf(),
            match old(self)@.council_vote(member, proposal, approve, now) {
                Ok(after) => res is Ok && final(self)@ == after,
                Err(e) => res == Err::<(), Error>(e) && final(self)@ == old(self)@,
            },
    {
        if !contains_account(&self.council, member) {
            return Err(Error::NotCouncilMember);
        }
        let at = proposal as usize;
        if at >= self.proposals.len() {
            return Err(Error::UnknownProposal);
        }
        let in_council = match self.proposals[at].phase {
            Phase::Council { end } => now < end,
            _ => false,
        };
        if !in_council {
            return Err(Error::NotInCouncil);
        }
        if contains_account(&self.proposals[at].ayes, member) || contains_account(
            &self.proposals[at].nays,
            member,
        ) {
            return Err(Error::AlreadyVoted);
        }
        let mut p = self.take(at);
        if approve {
            p.ayes.push(member);
        } else {
            p.nays.push(member);
        }
        self.put(at, p);
        proof {
            let after = old(self)@.council_vote(member, proposal, approve, now)->Ok_0;
            assert(self@.proposals =~= after.proposals);
        }
        Ok(())
    }

    /// Records a vote of weight `weight` in the referendum of number
    /// `referendum`, which must be open at block `now`. Nobody votes twice.
    pub fn vote(
        &mut self,
        voter: AccountId,
        referendum: ReferendumIndex,
        aye: bool,
        weight: Balance,
        now: BlockNumber,
    ) -> (res: Result<(), Error>)
        requires
            old(self)@.wf(),
        ensures
            final(self)@.wf(),
            match old(self)@.vote(voter, referendum, aye, weight, now) {
                Ok(after) => res is Ok && final(self)@ == after,
                Err(e) => res == Err::<(), Error>(e) && final(self)@ == old(self)@,
            },
    {
        let at = referendum as usize;
        if at >= self.proposals.len() {
            return Err(Error::UnknownProposal);
        }
        let is_open = match self.proposals[at].phase {
            Phase::Referendum { start, end } => start <= now && now < end,
            _ => false,
        };
        if !is_open {
            return Err(Error::ReferendumNotOpen);
        }
        if contains_account(&self.proposals[at].voters, voter) {
            return Err(Error::AlreadyVoted);
        }
        let tally = match self.proposals[at].tally.add(aye, weight) {
            None => {
                return Err(Error::Overflow);
            },
            Some(t) => t,
        };
        let mut p = self.take(at);
        p.tally = tally;
        p.voters.push(voter);
        self.put(at, p);
        proof {
            let after = old(self)@.vote(voter, referendum, aye, weight, now)->Ok_0;
            assert(self@.proposals =~= after.proposals);
        }
        Ok(())
    }

    /// What the referendum of number `referendum` has come to; `None` where
    /// there is none of that number.
    pub fn outcome(&self, referendum: ReferendumIndex) -> (o: Option<Outcome>)
        ensures
            o == self@.outcome(referendum),
    {
        let at = referendum as usize;
        if at >= self.proposals.len() {
            return None;
        }
        Some(
            match self.proposals[at].phase {
                Phase::Council { .. } => Outcome::Pending,
                Phase::Referendum { .. } => Outcome::Pending,
                Phase::Queued { .. } => Outcome::Approved,
                Phase::Enacted => Outcome::Approved,
                Phase::Rejected => Outcome::Rejected,
            },
        )
    }

    /// The phase of the proposal of number `proposal`.
    pub fn phase(&self, proposal: ReferendumIndex) -> (phase: Option<Phase>)
        ensures
            phase == if proposal < self@.proposals.len() {
                Some(self@.proposals[proposal as int].phase)
            } else {
                None
            },
    {
        let at = proposal as usize;
        if at >= self.proposals.len() {
            return None;
        }
        Some(self.proposals[at].phase)
    }

    /// Whether the council screens the proposal of number `proposal`.
    pub fn screened(&self, proposal: ReferendumIndex) -> (screened: Option<bool>)
        ensures
            screened == if proposal < self@.proposals.len() {
                Some(self@.proposals[proposal as int].screened)
            } else {
                None
            },
    {
        let at = proposal as usize;
        if at >= self.proposals.len() {
            return None;
        }
        Some(self.proposals[at].screened)
    }

    /// The encoded action of the proposal of number `proposal`.
    pub fn encoded(&self, proposal: ReferendumIndex) -> (bytes: Option<Vec<u8>>)
        ensures
            match bytes {
                Some(b) => proposal < self@.proposals.len() && b@
                    == self@.proposals[proposal as int].encoded,
                None => proposal >= self@.proposals.len(),
            },
    {
        let at = proposal as usize;
        if at >= self.proposals.len() {
            return None;
        }
        Some(crate::action::copy_bytes(&self.proposals[at].encoded))
    }

    /// The tally of the referendum of number `referendum`.
    pub fn tally(&self, referendum: ReferendumIndex) -> (tally: Option<Tally>)
        ensures
            tally == if referendum < self@.proposals.len() {
                Some(self@.proposals[referendum as int].tally)
            } else {
                None
            },
    {
        let at = referendum as usize;
        if at >= self.proposals.len() {
            return None;
        }
        Some(self.proposals[at].tally)
    }

    fn take(&mut self, at: usize) -> (p: Proposal)
        requires
            at < old(self).proposals@.len(),
        ensures
            p == old(self).proposals@[at as int],
            final(self).proposals@.len() == old(self).proposals@.len(),
            final(self).config == old(self).config,
            final(self).council == old(self).council,
            forall|i: int|
                0 <= i < old(self).proposals@.len() && i != at ==> final(self).proposals@[i]
                    == old(self).proposals@[i],
    {
        let blank = Proposal {
            origin: 0,
            encoded: Vec::new(),
            hash: Vec::new(),
            opened_at: 0,
            screened: false,
            phase: Phase::Rejected,
            ayes: Vec::new(),
            nays: Vec::new(),
            tally: Tally::empty(),
            voters: Vec::new(),
        };
        self.proposals.push(blank);
        self.proposals.swap_remove(at)
    }

    fn put(&mut self, at: usize, p: Proposal)
        requires
            at < old(self).proposals@.len(),
        ensures
            final(self).proposals@ == old(self).proposals@.update(at as int, p),
            final(self).config == old(self).config,
            final(self).council == old(self).council,
    {
        self.proposals.set(at, p);
    }

    /// Lets block `now` act on every proposal: the council's window ends, a
    /// referendum is decided, an approved action falls due. Returns what
    /// happened, in the order of the proposals.
    pub fn on_initialize(&mut self, now: BlockNumber) -> (notices: Vec<Notice>)
        requires
            old(self)@.wf(),
        ensures
            final(self)@.wf(),
            final(self)@ == old(self)@.on_initialize(now).0,
            notices@ == old(self)@.on_initialize(now).1,
    {
        let mut notices: Vec<Notice> = Vec::new();
        let seats = self.council.len();
        let mut i: usize = 0;
        assert(old(self)@.proposals.subrange(0, 0) =~= Seq::empty());
        while i < self.proposals.len()
            invariant
                i <= self.proposals@.len(),
                self.proposals@.len() == old(self).proposals@.len(),
                self.config == old(self).config,
                self.council == old(self).council,
                seats == self.council@.len(),
                old(self)@.wf(),
                forall|j: int|
                    0 <= j < i ==> (#[trigger] self.proposals@[j])@ == old(self)@.proposals[j].advance(
                        self.config,
                        seats as nat,
                        now,
                    ).0,
                forall|j: int|
                    i <= j < self.proposals@.len() ==> (#[trigger] self.proposals@[j])
                        == old(self).proposals@[j],
                notices@ == notices_of(
                    old(self)@.proposals.subrange(0, i as int),
                    self.config,
                    seats as nat,
                    now,
                ),
            decreases self.proposals@.len() - i,
        {
            proof {
                assert(old(self)@.proposals.subrange(0, i + 1).drop_last() =~= old(self)@.proposals.subrange(0, i as int));
                assert(old(self)@.proposals.subrange(0, i + 1).last() == old(self)@.proposals[i as int]);
                assert(old(self)@.proposals[i as int] == self.proposals@[i as int]@);
            }
            let next = match self.proposals[i].phase {
                Phase::Council { end } => {
                    if now < end {
                        None
                    } else if 2 * (self.proposals[i].ayes.len() as u128) > seats as u128 {
                        let start = later(now, self.config.opening_delay);
                        Some(
                            (
                                Phase::Referendum {
                                    start,
                                    end: later(start, self.config.voting_period),
                                },
                                Verdict::CouncilApproved,
                            ),
                        )
                    } else {
                        Some((Phase::Rejected, Verdict::CouncilRejected))
                    }
                },
                Phase::Referendum { start, end } => {
                    if now < end {
                        None
                    } else if self.proposals[i].tally.approved(0) {
                        Some(
                            (
                                Phase::Queued {
                                    enact_at: later(now, self.config.delay),
                                    voted_until: end,
                                },
                                Verdict::ReferendumApproved,
                            ),
                        )
                    } else {
                        Some((Phase::Rejected, Verdict::ReferendumRejected))
                    }
                },
                Phase::Queued { enact_at, voted_until } => {
                    if now < enact_at {
                        None
                    } else {
                        Some((Phase::Enacted, Verdict::Enact))
                    }
                },
                Phase::Enacted => None,
                Phase::Rejected => None,
            };
            match next {
                Some((phase, verdict)) => {
                    let mut p = self.take(i);
                    p.phase = phase;
                    self.put(i, p);
                    notices.push(Notice { proposal: i as ReferendumIndex, verdict });
                },
                None => {},
            }
            i += 1;
        }
        proof {
            assert(old(self)@.proposals.subrange(0, i as int) =~= old(self)@.proposals);
            assert(self@.proposals =~= old(self)@.on_initialize(now).0.proposals);
            assert forall|k: int| 0 <= k < self@.proposals.len() implies (
            #[trigger] self@.proposals[k]).wf(self@.config) by {
                lemma_advance_keeps_order(
                    old(self)@.proposals[k],
                    self.config,
                    seats as nat,
                    now,
                );
            }
        }
        notices
    }
}

/// A block keeps the dates of a proposal in order.
pub proof fn lemma_advance_keeps_order(
    p: ProposalView,
    config: Config,
    seats: nat,
    now: BlockNumber,
)
    requires
        p.wf(config),
    ensures
        p.advance(config, seats, now).0.wf(config),
{
}

/// An approved action takes effect no earlier than the end of its referendum,
/// and, where the council screened the proposal, no earlier than the block of
/// the proposal plus the council's window plus the delay.
pub proof fn lemma_enactment_is_delayed(
    p: ProposalView,
    config: Config,
    seats: nat,
    now: BlockNumber,
)
    requires
        p.wf(config),
        p.advance(config, seats, now).1 == Some(Verdict::Enact),
    ensures
        p.phase matches Phase::Queued { enact_at, voted_until } && voted_until <= enact_at <= now,
        p.screened ==> now >= later(later(p.opened_at, config.council_window), config.delay),
{
}

/// A referendum runs its time: before the block at which it is decided, no
/// tally decides it, however clear; and what was rejected is never enacted.
pub proof fn lemma_referendum_runs_its_time(
    p: ProposalView,
    config: Config,
    seats: nat,
    now: BlockNumber,
)
    ensures
        p.phase matches Phase::Referendum { start, end } && now < end ==> {
            &&& p.advance(config, seats, now) == (p, None::<Verdict>)
            &&& p.outcome() == Outcome::Pending
        },
        p.phase == Phase::Rejected ==> p.advance(config, seats, now) == (p, None::<Verdict>),
        p.advance(config, seats, now).1 == Some(Verdict::Enact) ==> p.outcome()
            == Outcome::Approved,
{
}

/// From the decision of the referendum to the enactment at least the delay
/// passes: the action that block `decided` approves is not enacted by any
/// block before `decided + delay`.
pub proof fn lemma_delay_after_approval(
    p: ProposalView,
    config: Config,
    seats: nat,
    decided: BlockNumber,
    now: BlockNumber,
)
    requires
        p.advance(config, seats, decided).1 == Some(Verdict::ReferendumApproved),
        now < later(decided, config.delay),
    ensures
        p.advance(config, seats, decided).0.advance(config, seats, now).1 is None,
        p.advance(config, seats, decided).0.advance(config, seats, now).0 == p.advance(
            config,
            seats,
            decided,
        ).0,
{
}

/// What a block tells of the proposals is what it brings them to: every
/// notice names a proposal and the verdict that the block has for it.
pub proof fn lemma_notices_are_verdicts(
    proposals: Seq<ProposalView>,
    config: Config,
    seats: nat,
    now: BlockNumber,
    i: int,
)
    requires
        proposals.len() <= ReferendumIndex::MAX,
        0 <= i < notices_of(proposals, config, seats, now).len(),
    ensures
        notices_of(proposals, config, seats, now)[i].proposal < proposals.len(),
        proposals[notices_of(proposals, config, seats, now)[i].proposal as int].advance(
            config,
            seats,
            now,
        ).1 == Some(notices_of(proposals, config, seats, now)[i].verdict),
    decreases proposals.len(),
{
    let before = notices_of(proposals.drop_last(), config, seats, now);
    if i < before.len() {
        lemma_notices_are_verdicts(proposals.drop_last(), config, seats, now, i);
    }
}

/// Whatever a block enacts was approved by a referendum that had ended by
/// then, and, where the council screened the proposal, the block is no
/// earlier than the block of the proposal plus the council's window plus the
/// enactment delay.
pub proof fn lemma_block_enacts_late(bridge: BridgeView, now: BlockNumber, i: int)
    requires
        bridge.wf(),
        0 <= i < bridge.on_initialize(now).1.len(),
        bridge.on_initialize(now).1[i].verdict == Verdict::Enact,
    ensures
        ({
            let p = bridge.proposals[bridge.on_initialize(now).1[i].proposal as int];
            &&& p.phase matches Phase::Queued { enact_at, voted_until } && voted_until <= enact_at
                <= now
            &&& p.screened ==> now >= later(later(p.opened_at, bridge.config.council_window),
                bridge.config.delay)
        }),
{
    lemma_notices_are_verdicts(bridge.proposals, bridge.config, bridge.council.len(), now, i);
    let p = bridge.proposals[bridge.on_initialize(now).1[i].proposal as int];
    lemma_enactment_is_delayed(p, bridge.config, bridge.council.len(), now);
}

/// While a proposal is open, a second one with the same digest is refused:
/// after the bridge accepted a proposal, it refuses every proposal with that
/// digest, whoever makes it and whenever.
pub proof fn lemma_duplicate_is_refused(
    bridge: BridgeView,
    first: AccountId,
    second: AccountId,
    encoded: Seq<u8>,
    hash: Seq<u8>,
    screened: bool,
    again_screened: bool,
    now: BlockNumber,
    then: BlockNumber,
)
    requires
        bridge.open(first, encoded, hash, screened, now) is Ok,
    ensures
        bridge.open(first, encoded, hash, screened, now)->Ok_0.0.open(
            second,
            encoded,
            hash,
            again_screened,
            then,
        ) == Err::<(BridgeView, ReferendumIndex), Error>(Error::DuplicatePreimage),
{
    let after = bridge.open(first, encoded, hash, screened, now)->Ok_0.0;
    let at = bridge.proposals.len() as int;
    assert(after.proposals[at].hash == hash && after.proposals[at].phase.is_open());
}

/// Two proposals for the same action have the same digest, so the second is
/// refused while the first is open.
pub proof fn lemma_same_action_is_refused(
    bridge: BridgeView,
    first: AccountId,
    second: AccountId,
    action: Action,
    again: Action,
    screened: bool,
    now: BlockNumber,
    then: BlockNumber,
)
    requires
        action.encoding() == again.encoding(),
        bridge.open(
            first,
            action.encoding(),
            blake2_256_digest(action.encoding()),
            screened,
            now,
        ) is Ok,
    ensures
        bridge.open(
            first,
            action.encoding(),
            blake2_256_digest(action.encoding()),
            screened,
            now,
        )->Ok_0.0.open(second, again.encoding(), blake2_256_digest(again.encoding()), screened, then)
            == Err::<(BridgeView, ReferendumIndex), Error>(Error::DuplicatePreimage),
{
    lemma_duplicate_is_refused(
        bridge,
        first,
        second,
        action.encoding(),
        blake2_256_digest(action.encoding()),
        screened,
        screened,
        now,
        then,
    );
}

} // verus!
