//! The sessions in which the owners of an asset elect its representative and
//! its tenants.
//!
//! A session is a referendum among the owners, each voting with the tokens it
//! holds. What the session decides is recorded against the number of its
//! referendum and looked up again when the referendum is enacted.

use crate::action::Action;
use crate::hashing::blake2_256_digest;
use crate::identity::Judgement;
use crate::roles::Accounts;
use crate::share_distributor::{
    tokens_in, virtual_account_of, ShareDistributor, ShareDistributorView,
};
use crate::types::{AccountId, AssetKey, Balance, BlockNumber};
use crate::voting::{Bridge, BridgeView, ReferendumIndex};
use vstd::prelude::*;

verus! {

/// What the sessions are set up with.
#[derive(Clone, Copy, PartialEq, Eq, Structural, Debug)]
pub struct Config {
    /// The weight with which an investor votes on an acquisition; an owner
    /// votes in a session with the tokens that it holds.
    pub investor_vote_amount: Balance,
}

/// What a session elects.
#[derive(Clone, Copy, PartialEq, Eq, Structural, Debug)]
pub enum VoteProposals {
    /// A representative of the owners.
    Representative,
    /// A tenant of the asset.
    Tenant,
}

/// What is recorded of a session.
#[derive(Clone, Copy, PartialEq, Eq, Structural, Debug)]
pub struct RepVote {
    /// Who launched the session.
    pub caller_account: AccountId,
    /// The custodial account of the asset.
    pub virtual_account: AccountId,
    /// Who stands for election.
    pub candidate_account: AccountId,
    /// The number of the referendum.
    pub referendum_index: ReferendumIndex,
    pub asset: AssetKey,
    pub kind: VoteProposals,
}

/// What an observer learns of a session.
#[derive(Clone, Copy, PartialEq, Eq, Structural, Debug)]
pub enum Event {
    /// A voting session to elect a representative has started
    RepresentativeVoteSessionStarted {
        caller: AccountId,
        candidate: AccountId,
        asset_account: AccountId,
    },
    /// A voting session to elect a tenant has started
    TenantVoteSessionStarted { caller: AccountId, candidate: AccountId, asset_account: AccountId },
}

/// Why a session was refused.
#[derive(Clone, Copy, PartialEq, Eq, Structural, Debug)]
pub enum Error {
    /// No session is recorded for the referendum.
    NoneValue,
    /// The account is not an Asset account
    NotAnAssetAccount,
    /// No rank is left for a further representative.
    StorageOverflow,
    /// The proposal could not be created
    FailedToCreateProposal,
    /// This Preimage already exists
    DuplicatePreimage,
    /// Not an owner in the corresponding virtual account
    NotAnOwner,
    /// The Asset Does not Exists
    NotAnAsset,
    /// The caller is not the representative of the asset, or the candidate is
    /// not a registered tenant of good standing, or holds another role.
    UnAuthorized,
    /// The candidate does not wait for an election.
    NotAPendingRepresentative,
    /// The bridge refused the vote.
    Voting(crate::voting::Error),
}

/// The session recorded last in `log` for the referendum `referendum`.
pub open spec fn link_in(log: Seq<RepVote>, referendum: ReferendumIndex) -> Option<RepVote>
    decreases log.len(),
{
    if log.len() == 0 {
        None
    } else if log.last().referendum_index == referendum {
        Some(log.last())
    } else {
        link_in(log.drop_last(), referendum)
    }
}

/// Whether the proposal of number `referendum` is open.
pub open spec fn is_open_in(bridge: BridgeView, referendum: ReferendumIndex) -> bool {
    referendum < bridge.proposals.len() && bridge.proposals[referendum as int].phase.is_open()
}

/// What the bridge answers to a proposal, as a session reports it.
pub open spec fn session_error(e: crate::voting::Error) -> Error {
    if e == crate::voting::Error::DuplicatePreimage {
        Error::DuplicatePreimage
    } else {
        Error::FailedToCreateProposal
    }
}

/// The mathematical content of the sessions.
pub struct PalletView {
    pub config: Config,
    /// The sessions launched so far, in their order.
    pub log: Seq<RepVote>,
}

impl PalletView {
    /// No session.
    pub open spec fn init(config: Config) -> PalletView {
        PalletView { config, log: Seq::empty() }
    }

    /// Whether a session that elects a representative for the asset held by
    /// `virtual_account` is open.
    pub open spec fn has_open_election(self, bridge: BridgeView, virtual_account: AccountId) -> bool {
        exists|i: int|
            0 <= i < self.log.len() && (#[trigger] self.log[i]).virtual_account == virtual_account
                && self.log[i].kind == VoteProposals::Representative && is_open_in(
                bridge,
                self.log[i].referendum_index,
            )
    }

    /// The session launched for `action`, once the checks are passed.
    pub open spec fn launch(
        self,
        bridge: BridgeView,
        caller: AccountId,
        action: Action,
        candidate: AccountId,
        kind: VoteProposals,
        now: BlockNumber,
    ) -> Result<(PalletView, BridgeView, ReferendumIndex), Error> {
        match bridge.open(
            caller,
            action.encoding(),
            blake2_256_digest(action.encoding()),
            false,
            now,
        ) {
            Err(e) => Err(session_error(e)),
            Ok((opened, number)) => Ok(
                (
                    PalletView {
                        config: self.config,
                        log: self.log.push(
                            RepVote {
                                caller_account: caller,
                                virtual_account: virtual_account_of(action.spec_asset()),
                                candidate_account: candidate,
                                referendum_index: number,
                                asset: action.spec_asset(),
                                kind,
                            },
                        ),
                    },
                    opened,
                    number,
                ),
            ),
        }
    }

    /// What [`Pallet::representative_session`] does.
    pub open spec fn representative_session(
        self,
        bridge: BridgeView,
        shares: ShareDistributorView,
        caller: AccountId,
        asset: AssetKey,
        representative: AccountId,
        now: BlockNumber,
    ) -> Result<(PalletView, BridgeView, ReferendumIndex), Error> {
        if !shares.accounts.contains_key(asset.index()) {
            Err(Error::NotAnAsset)
        } else if !shares.is_owner(asset, caller) {
            Err(Error::NotAnOwner)
        } else if self.has_open_election(bridge, virtual_account_of(asset)) {
            Err(Error::DuplicatePreimage)
        } else {
            self.launch(
                bridge,
                caller,
                Action::ApproveRepresentative { candidate: representative, asset },
                representative,
                VoteProposals::Representative,
                now,
            )
        }
    }

    /// What [`Pallet::launch_tenant_session`] does.
    pub open spec fn launch_tenant_session(
        self,
        bridge: BridgeView,
        shares: ShareDistributorView,
        roles: crate::roles::PalletView,
        caller: AccountId,
        asset: AssetKey,
        tenant: AccountId,
        judgement: Judgement,
        now: BlockNumber,
    ) -> Result<(PalletView, BridgeView, ReferendumIndex), Error> {
        if !shares.accounts.contains_key(asset.index()) {
            Err(Error::NotAnAsset)
        } else if !(roles.representatives.contains_key(caller)
            && roles.representatives[caller].assets_accounts.contains(virtual_account_of(asset))) {
            Err(Error::UnAuthorized)
        } else if !judgement.is_favourable() || !roles.has_role(tenant, Accounts::TENANT) {
            Err(Error::UnAuthorized)
        } else {
            self.launch(
                bridge,
                caller,
                Action::ApproveTenant { tenant, asset },
                tenant,
                VoteProposals::Tenant,
                now,
            )
        }
    }

    /// What [`Pallet::owners_vote`] does to the bridge.
    pub open spec fn owners_vote(
        self,
        bridge: BridgeView,
        shares: ShareDistributorView,
        voter: AccountId,
        referendum: ReferendumIndex,
        aye: bool,
        now: BlockNumber,
    ) -> Result<BridgeView, Error> {
        match link_in(self.log, referendum) {
            None => Err(Error::NoneValue),
            Some(session) => if !shares.is_owner(session.asset, voter) {
                Err(Error::NotAnOwner)
            } else {
                match bridge.vote(
                    voter,
                    referendum,
                    aye,
                    tokens_in(shares.accounts[session.asset.index()].owners, voter),
                    now,
                ) {
                    Err(e) => Err(Error::Voting(e)),
                    Ok(voted) => Ok(voted),
                }
            },
        }
    }
}

/// What [`Pallet::representative_approval`] does to the registry of roles.
pub open spec fn representative_approval(
    roles: crate::roles::PalletView,
    shares: ShareDistributorView,
    caller: AccountId,
    rep_account: AccountId,
    asset: AssetKey,
    now: BlockNumber,
) -> Result<crate::roles::PalletView, Error> {
    if !shares.accounts.contains_key(asset.index()) {
        Err(Error::NotAnAsset)
    } else if caller != shares.accounts[asset.index()].virtual_account {
        Err(Error::NotAnAssetAccount)
    } else if !roles.pending_representatives.contains_key(rep_account) {
        Err(Error::NotAPendingRepresentative)
    } else {
        match roles.approve_representative(caller, rep_account, now) {
            Ok(after) => Ok(after),
            Err(e) => Err(registry_error(e)),
        }
    }
}

/// What the registry of roles answers to an election, as a session reports
/// it: the registry is full, or the candidate has taken another role.
pub open spec fn spec_registry_error(e: crate::roles::Error) -> Error {
    if e == crate::roles::Error::StorageOverflow {
        Error::StorageOverflow
    } else {
        Error::UnAuthorized
    }
}

/// What the registry of roles answers to an election, as a session reports
/// it.
#[verifier::when_used_as_spec(spec_registry_error)]
pub fn registry_error(e: crate::roles::Error) -> (error: Error)
    ensures
        error == spec_registry_error(e),
{
    match e {
        crate::roles::Error::StorageOverflow => Error::StorageOverflow,
        _ => Error::UnAuthorized,
    }
}

/// The sessions.
pub struct Pallet {
    config: Config,
    log: Vec<RepVote>,
}

impl View for Pallet {
    type V = PalletView;

    closed spec fn view(&self) -> PalletView {
        PalletView { config: self.config, log: self.log@ }
    }
}

impl Pallet {
    /// No session.
    pub fn new(config: Config) -> (p: Pallet)
        ensures
            p@ == PalletView::init(config),
    {
        Pallet { config, log: Vec::new() }
    }

    /// What the sessions were set up with.
    pub fn config(&self) -> (c: Config)
        ensures
            c == self@.config,
    {
        self.config
    }

    /// The session recorded for the referendum `referendum`.
    pub fn proposals(&self, referendum: ReferendumIndex) -> (session: Option<RepVote>)
        ensures
            session == link_in(self@.log, referendum),
    {
        let mut i: usize = self.log.len();
        assert(self.log@.subrange(0, i as int) =~= self.log@);
        while i > 0
            invariant
                i <= self.log@.len(),
                link_in(self.log@, referendum) == link_in(
                    self.log@.subrange(0, i as int),
                    referendum,
                ),
            decreases i,
        {
            let ghost prefix = self.log@.subrange(0, i as int);
            assert(prefix.drop_last() =~= self.log@.subrange(0, i - 1));
            assert(prefix.last() == self.log@[i - 1]);
            i -= 1;
            if self.log[i].referendum_index == referendum {
                return Some(self.log[i]);
            }
        }
        assert(self.log@.subrange(0, 0) =~= Seq::empty());
        None
    }

    /// The number of sessions launched so far.
    pub fn session_count(&self) -> (n: usize)
        ensures
            n == self@.log.len(),
    {
        self.log.len()
    }

    /// The session launched at position `at`.
    pub fn session(&self, at: usize) -> (session: Option<RepVote>)
        ensures
            session == if at < self@.log.len() {
                Some(self@.log[at as int])
            } else {
                None
            },
    {
        if at < self.log.len() {
            Some(self.log[at])
        } else {
            None
        }
    }

    fn has_open_election(&self, bridge: &Bridge, virtual_account: AccountId) -> (found: bool)
        ensures
            found == self@.has_open_election(bridge@, virtual_account),
    {
        let mut i: usize = 0;
        while i < self.log.len()
            invariant
                i <= self.log@.len(),
                forall|j: int|
                    0 <= j < i ==> !((#[trigger] self.log@[j]).virtual_account == virtual_account
                        && self.log@[j].kind == VoteProposals::Representative && is_open_in(
                        bridge@,
                        self.log@[j].referendum_index,
                    )),
            decreases self.log@.len() - i,
        {
            let session = self.log[i];
            if session.virtual_account == virtual_account && session.kind
                == VoteProposals::Representative {
                let open = match bridge.phase(session.referendum_index) {
                    Some(phase) => phase.is_open(),
                    None => false,
                };
                if open {
                    return true;
                }
            }
            i += 1;
        }
        false
    }

    fn launch(
        &mut self,
        bridge: &mut Bridge,
        caller: AccountId,
        action: Action,
        candidate: AccountId,
        kind: VoteProposals,
        now: BlockNumber,
    ) -> (res: Result<ReferendumIndex, Error>)
        requires
            old(bridge)@.wf(),
        ensures
            final(bridge)@.wf(),
            match old(self)@.launch(old(bridge)@, caller, action, candidate, kind, now) {
                Ok((after, opened, number)) => res == Ok::<ReferendumIndex, Error>(number)
                    && final(self)@ == after && final(bridge)@ == opened,
                Err(e) => res == Err::<ReferendumIndex, Error>(e) && final(self)@ == old(self)@
                    && final(bridge)@ == old(bridge)@,
            },
    {
        match bridge.submit(caller, action, false, now) {
            Err(e) => {
                if e == crate::voting::Error::DuplicatePreimage {
                    Err(Error::DuplicatePreimage)
                } else {
                    Err(Error::FailedToCreateProposal)
                }
            },
            Ok((number, _)) => {
                self.log.push(
                    RepVote {
                        caller_account: caller,
                        virtual_account: virtual_account_of(action.asset()),
                        candidate_account: candidate,
                        referendum_index: number,
                        asset: action.asset(),
                        kind,
                    },
                );
                Ok(number)
            },
        }
    }

    /// Launches the session in which the owners of `asset` vote on
    /// `representative` as their representative, and returns the number of its
    /// referendum.
    ///
    /// Fails with [`Error::NotAnAsset`] where the asset has no custodial
    /// account, with [`Error::NotAnOwner`] where `caller` owns no part of it,
    /// and with [`Error::DuplicatePreimage`] while an election of a
    /// representative for the asset is open.
    pub fn representative_session(
        &mut self,
        bridge: &mut Bridge,
        shares: &ShareDistributor,
        caller: AccountId,
        asset: AssetKey,
        representative: AccountId,
        now: BlockNumber,
    ) -> (res: Result<(ReferendumIndex, Event), Error>)
        requires
            old(bridge)@.wf(),
        ensures
            final(bridge)@.wf(),
            match old(self)@.representative_session(
                old(bridge)@,
                shares@,
                caller,
                asset,
                representative,
                now,
            ) {
                Ok((after, opened, number)) => res == Ok::<(ReferendumIndex, Event), Error>(
                    (
                        number,
                        Event::RepresentativeVoteSessionStarted {
                            caller,
                            candidate: representative,
                            asset_account: virtual_account_of(asset),
                        },
                    ),
                ) && final(self)@ == after && final(bridge)@ == opened,
                Err(e) => res == Err::<(ReferendumIndex, Event), Error>(e) && final(self)@ == old(self)@ && final(bridge)@ == old(bridge)@,
            },
    {
        if !shares.has_account(asset) {
            return Err(Error::NotAnAsset);
        }
        if !shares.is_owner(asset, caller) {
            return Err(Error::NotAnOwner);
        }
        let asset_account = virtual_account_of(asset);
        if self.has_open_election(bridge, asset_account) {
            return Err(Error::DuplicatePreimage);
        }
        let action = Action::ApproveRepresentative { candidate: representative, asset };
        match self.launch(
            bridge,
            caller,
            action,
            representative,
            VoteProposals::Representative,
            now,
        ) {
            Err(e) => Err(e),
            Ok(number) => Ok(
                (
                    number,
                    Event::RepresentativeVoteSessionStarted {
                        caller,
                        candidate: representative,
                        asset_account,
                    },
                ),
            ),
        }
    }

    /// Launches the session in which the owners of `asset` vote on `tenant` as
    /// a tenant, and returns the number of its referendum.
    ///
    /// Fails with [`Error::UnAuthorized`] where `caller` is not the
    /// representative of the asset, where `judgement`, which the caller passes
    /// on the tenant's identity, is not favourable, and where `tenant` is not
    /// registered as a tenant.
    pub fn launch_tenant_session(
        &mut self,
        bridge: &mut Bridge,
        shares: &ShareDistributor,
        roles: &crate::roles::Pallet,
        caller: AccountId,
        asset: AssetKey,
        tenant: AccountId,
        judgement: Judgement,
        now: BlockNumber,
    ) -> (res: Result<(ReferendumIndex, Event), Error>)
        requires
            old(bridge)@.wf(),
        ensures
            final(bridge)@.wf(),
            match old(self)@.launch_tenant_session(
                old(bridge)@,
                shares@,
                roles@,
                caller,
                asset,
                tenant,
                judgement,
                now,
            ) {
                Ok((after, opened, number)) => res == Ok::<(ReferendumIndex, Event), Error>(
                    (
                        number,
                        Event::TenantVoteSessionStarted {
                            caller,
                            candidate: tenant,
                            asset_account: virtual_account_of(asset),
                        },
                    ),
                ) && final(self)@ == after && final(bridge)@ == opened,
                Err(e) => res == Err::<(ReferendumIndex, Event), Error>(e) && final(self)@ == old(self)@ && final(bridge)@ == old(bridge)@,
            },
    {
        if !shares.has_account(asset) {
            return Err(Error::NotAnAsset);
        }
        let asset_account = virtual_account_of(asset);
        if !roles.represents(caller, asset_account) {
            return Err(Error::UnAuthorized);
        }
        if !judgement.is_favourable() || !roles.has_role(tenant, Accounts::TENANT) {
            return Err(Error::UnAuthorized);
        }
        let action = Action::ApproveTenant { tenant, asset };
        match self.launch(bridge, caller, action, tenant, VoteProposals::Tenant, now) {
            Err(e) => Err(e),
            Ok(number) => Ok(
                (
                    number,
                    Event::TenantVoteSessionStarted { caller, candidate: tenant, asset_account },
                ),
            ),
        }
    }

    /// Casts the vote of the owner `voter` in the session of the referendum
    /// `referendum`, with the weight of the tokens that it holds.
    pub fn owners_vote(
        &self,
        bridge: &mut Bridge,
        shares: &ShareDistributor,
        voter: AccountId,
        referendum: ReferendumIndex,
        aye: bool,
        now: BlockNumber,
    ) -> (res: Result<(), Error>)
        requires
            old(bridge)@.wf(),
        ensures
            final(bridge)@.wf(),
            match self@.owners_vote(old(bridge)@, shares@, voter, referendum, aye, now) {
                Ok(voted) => res is Ok && final(bridge)@ == voted,
                Err(e) => res == Err::<(), Error>(e) && final(bridge)@ == old(bridge)@,
            },
    {
        let session = match self.proposals(referendum) {
            None => {
                return Err(Error::NoneValue);
            },
            Some(s) => s,
        };
        if !shares.is_owner(session.asset, voter) {
            return Err(Error::NotAnOwner);
        }
        let weight = shares.balance(session.asset, voter);
        match bridge.vote(voter, referendum, aye, weight, now) {
            Err(e) => Err(Error::Voting(e)),
            Ok(_) => Ok(()),
        }
    }

    /// Makes `rep_account` the representative of `asset`, as the custodial
    /// account `caller` of the asset asks.
    ///
    /// Fails, changing nothing, with [`Error::NotAnAssetAccount`] where
    /// `caller` is not the custodial account of the asset, with
    /// [`Error::NotAPendingRepresentative`] where `rep_account` does not wait
    /// for an election, with [`Error::UnAuthorized`] where the candidate has
    /// taken another role meanwhile, and with [`Error::StorageOverflow`] where
    /// no rank is left for a further representative.
    pub fn representative_approval(
        &self,
        roles: &mut crate::roles::Pallet,
        shares: &ShareDistributor,
        caller: AccountId,
        rep_account: AccountId,
        asset: AssetKey,
        now: BlockNumber,
    ) -> (res: Result<(), Error>)
        ensures
            match representative_approval(old(roles)@, shares@, caller, rep_account, asset, now) {
                Ok(after) => res is Ok && final(roles)@ == after,
                Err(e) => res == Err::<(), Error>(e) && final(roles)@ == old(roles)@,
            },
    {
        match shares.virtual_acc(asset) {
            None => {
                return Err(Error::NotAnAsset);
            },
            Some(account) => {
                if caller != account.virtual_account {
                    return Err(Error::NotAnAssetAccount);
                }
            },
        }
        if roles.get_pending_representatives(rep_account).is_none() {
            return Err(Error::NotAPendingRepresentative);
        }
        match roles.approve_representative(caller, rep_account, now) {
            Ok(_) => Ok(()),
            Err(e) => Err(registry_error(e)),
        }
    }
}

/// Somebody who owns no part of an asset cannot launch the election of its
/// representative, whatever else holds.
pub proof fn lemma_stranger_cannot_launch(
    sessions: PalletView,
    bridge: BridgeView,
    shares: ShareDistributorView,
    caller: AccountId,
    asset: AssetKey,
    representative: AccountId,
    now: BlockNumber,
)
    requires
        shares.accounts.contains_key(asset.index()),
        !shares.is_owner(asset, caller),
    ensures
        sessions.representative_session(bridge, shares, caller, asset, representative, now)
            == Err::<(PalletView, BridgeView, ReferendumIndex), Error>(Error::NotAnOwner),
{
}

/// While the election of a representative for an asset is open, no second one
/// for that asset can be launched, whoever the candidate.
pub proof fn lemma_one_election_at_a_time(
    sessions: PalletView,
    bridge: BridgeView,
    shares: ShareDistributorView,
    caller: AccountId,
    again: AccountId,
    asset: AssetKey,
    first: AccountId,
    second: AccountId,
    now: BlockNumber,
    then: BlockNumber,
)
    requires
        sessions.representative_session(bridge, shares, caller, asset, first, now) is Ok,
        shares.is_owner(asset, again),
    ensures
        ({
            let (after, opened, number) = sessions.representative_session(
                bridge,
                shares,
                caller,
                asset,
                first,
                now,
            )->Ok_0;
            after.representative_session(opened, shares, again, asset, second, then) == Err::<
                (PalletView, BridgeView, ReferendumIndex),
                Error,
            >(Error::DuplicatePreimage)
        }),
{
    let (after, opened, number) = sessions.representative_session(
        bridge,
        shares,
        caller,
        asset,
        first,
        now,
    )->Ok_0;
    let at = sessions.log.len() as int;
    assert(after.log[at].virtual_account == virtual_account_of(asset));
    assert(is_open_in(opened, after.log[at].referendum_index));
}

} // verus!
