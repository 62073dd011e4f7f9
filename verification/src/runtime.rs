//! The ledger as a whole: every component, and the clock that drives them.
//!
//! An action names who acts and takes effect at the current block. Time passes
//! by [`Runtime::next_block`] only, which lets the votes mature, the assets
//! move on, the purchases that fall due be carried out, and the rents be
//! checked, in that order. What a block cannot do for one asset it leaves
//! undone as a whole, and goes on with the others.

use crate::action::Action;
use crate::currency::{Balances, BalancesView};
use crate::housing_fund::{HousingFund, HousingFundView};
use crate::identity::{IdentityInfo, Judgement};
use crate::housing_fund::{has_distinct_accounts, sum_shares, total_of};
use crate::onboarding::{
    lemma_advances, lemma_automatic_steps, lemma_progress, AssetStatus, Onboarding, OnboardingView,
    Step,
};
use crate::roles::{Accounts, GenesisConfig};
use crate::share_distributor::{
    allot, asset_of, virtual_account_of, ShareDistributor, ShareDistributorView,
};
use crate::tenancy::{distribute_rent, pay_owners, rent_for, Tenancy, TenancyView};
use crate::types::{AccountId, AssetKey, Balance, BlockNumber, TOKEN_SUPPLY};
use crate::voting::{Bridge, BridgeView, Notice, ReferendumIndex, Verdict};
use vstd::prelude::*;

verus! {

/// What the ledger is set up with.
#[derive(Clone, Copy, PartialEq, Eq, Structural, Debug)]
pub struct Config {
    pub roles: crate::roles::Config,
    pub fund: crate::housing_fund::Config,
    pub onboarding: crate::onboarding::Config,
    pub voting: crate::voting::Config,
    pub tenancy: crate::tenancy::Config,
    pub asset_management: crate::asset_management::Config,
}

/// Why the ledger refused an action: the component that refused, and why.
#[derive(Clone, Copy, PartialEq, Eq, Structural, Debug)]
pub enum DispatchError {
    Roles(crate::roles::Error),
    Fund(crate::housing_fund::Error),
    Onboarding(crate::onboarding::Error),
    Voting(crate::voting::Error),
    AssetManagement(crate::asset_management::Error),
    Tenancy(crate::tenancy::Error),
}

/// What an observer learns of the ledger.
#[derive(Clone, Copy, PartialEq, Eq, Structural, Debug)]
pub enum Event {
    Roles(crate::roles::Event),
    AssetManagement(crate::asset_management::Event),
    Tenancy(crate::tenancy::Event),
    /// A proposal was filed under the number `proposal` for `asset`.
    ProposalSubmitted { who: AccountId, proposal: ReferendumIndex, asset: AssetKey },
    /// The council or a referendum decided, or an approved action took
    /// effect.
    Voting(Notice),
    /// Somebody voted on a proposal.
    Voted { who: AccountId, proposal: ReferendumIndex, block: BlockNumber },
    /// An asset got a new status.
    StatusChanged { asset: AssetKey, status: AssetStatus },
    /// The tokens of an asset were handed to its owners.
    OwnershipDistributed { asset: AssetKey, asset_account: AccountId },
}

/// The mathematical content of the ledger.
pub struct RuntimeView {
    pub block_number: BlockNumber,
    pub balances: BalancesView,
    pub roles: crate::roles::PalletView,
    pub fund: HousingFundView,
    pub onboarding: OnboardingView,
    pub shares: ShareDistributorView,
    pub bridge: BridgeView,
    pub sessions: crate::asset_management::PalletView,
    pub tenancy: TenancyView,
    /// Everything that happened, in its order.
    pub events: Seq<Event>,
}

impl RuntimeView {
    /// The dates of every proposal are in order.
    pub open spec fn wf(self) -> bool {
        self.bridge.wf()
    }

    /// The ledger with one more event.
    pub open spec fn with_event(self, event: Event) -> RuntimeView {
        RuntimeView { events: self.events.push(event), ..self }
    }

    /// The action of the proposal of number `proposal`.
    pub open spec fn action_of(self, proposal: ReferendumIndex) -> Option<Action> {
        if proposal < self.bridge.proposals.len() {
            Action::decoding(self.bridge.proposals[proposal as int].encoded)
        } else {
            None
        }
    }

    /// The ledger after `step` moved `asset` on, where it leads on from the
    /// status of the asset and the asset did not get that status at the
    /// current block; the ledger as it is, where not.
    pub open spec fn moved(self, asset: AssetKey, step: Step) -> RuntimeView {
        if self.onboarding.assets.contains_key(asset.index())
            && self.onboarding.assets[asset.index()].since >= self.block_number {
            self
        } else {
            match self.onboarding.apply(asset, step, self.block_number) {
                Ok((onboarding, status)) => RuntimeView { onboarding, ..self }.with_event(
                    Event::StatusChanged { asset, status },
                ),
                Err(_) => self,
            }
        }
    }

    /// The ledger after the election of `candidate` as representative of
    /// `asset` took effect; the ledger as it is, where the approval is
    /// refused.
    pub open spec fn with_representative(self, candidate: AccountId, asset: AssetKey) -> RuntimeView {
        match crate::asset_management::representative_approval(
            self.roles,
            self.shares,
            virtual_account_of(asset),
            candidate,
            asset,
            self.block_number,
        ) {
            Ok(roles) => RuntimeView { roles, ..self },
            Err(_) => self,
        }
    }

    /// The ledger after the election of `tenant` as tenant of `asset` took
    /// effect: the tenant is linked to the asset, the asset lists the tenant,
    /// and the guaranty deposit and the rent are requested. Where one of the
    /// three cannot be done, none is.
    pub open spec fn with_tenant(self, tenant: AccountId, asset: AssetKey) -> RuntimeView {
        let account = virtual_account_of(asset);
        if !self.onboarding.assets.contains_key(asset.index()) {
            self
        } else {
            let price = self.onboarding.assets[asset.index()].price;
            let rent = rent_for(price, self.tenancy.config);
            match (
                self.roles.link_tenant(tenant, account, rent, self.block_number),
                self.onboarding.add_tenant(asset, tenant),
                self.tenancy.open(tenant, account, price, self.block_number),
            ) {
                (Ok(roles), Ok(onboarding), Ok((tenancy, event))) => RuntimeView {
                    roles,
                    onboarding,
                    tenancy,
                    ..self
                }.with_event(Event::Tenancy(event)),
                _ => self,
            }
        }
    }

    /// The ledger after what `notice` tells took effect.
    pub open spec fn dispatch(self, notice: Notice) -> RuntimeView {
        let told = self.with_event(Event::Voting(notice));
        match (self.action_of(notice.proposal), notice.verdict) {
            (Some(Action::AcquireAsset { asset }), Verdict::CouncilApproved) => told.moved(
                asset,
                Step::CouncilApproved,
            ),
            (Some(Action::AcquireAsset { asset }), Verdict::CouncilRejected) => told.moved(
                asset,
                Step::CouncilRejected,
            ),
            (Some(Action::AcquireAsset { asset }), Verdict::ReferendumRejected) => told.moved(
                asset,
                Step::ReferendumRejected,
            ),
            (Some(Action::AcquireAsset { asset }), Verdict::Enact) => told.moved(
                asset,
                Step::ReferendumEnacted,
            ),
            (
                Some(Action::ApproveRepresentative { candidate, asset }),
                Verdict::Enact,
            ) => told.with_representative(candidate, asset),
            (Some(Action::ApproveTenant { tenant, asset }), Verdict::Enact) => told.with_tenant(
                tenant,
                asset,
            ),
            _ => told,
        }
    }

    /// The ledger after each of `notices` took effect, in their order.
    pub open spec fn dispatch_all(self, notices: Seq<Notice>) -> RuntimeView
        decreases notices.len(),
    {
        if notices.len() == 0 {
            self
        } else {
            self.dispatch_all(notices.drop_last()).dispatch(notices.last())
        }
    }

    /// The ledger after the purchase of `asset`, which was finalised for long
    /// enough, was carried out: the asset is purchased, its custodial account
    /// is opened and holds it, the tokens are minted, the seller is paid out of
    /// the funds earmarked, and the tokens are handed to those whose
    /// contributions paid. Where one of these cannot be done, none is: the
    /// asset stays finalised and the ledger is as it was.
    pub open spec fn purchased(self, asset: AssetKey) -> RuntimeView {
        if !self.onboarding.assets.contains_key(asset.index())
            || self.onboarding.assets[asset.index()].due(
            self.onboarding.config,
            self.block_number,
        ) != Some(Step::FinalisedElapsed) {
            self
        } else {
            match (
                self.shares.open_virtual_account(asset),
                self.fund.pay_for_acquisition(
                    self.balances,
                    asset,
                    self.onboarding.assets[asset.index()].seller,
                ),
                self.onboarding.apply(asset, Step::FinalisedElapsed, self.block_number),
            ) {
                (
                    Ok((opened, account)),
                    Ok((fund, balances, contributions)),
                    Ok((bought, status)),
                ) => match (opened.issue_tokens(asset, TOKEN_SUPPLY), bought.set_owner(asset, account)) {
                    (Ok(minted), Ok(onboarding)) => match minted.distribute(asset, contributions) {
                        Ok(shares) => RuntimeView {
                            shares,
                            fund,
                            balances,
                            onboarding,
                            ..self
                        }.with_event(Event::StatusChanged { asset, status }).with_event(
                            Event::OwnershipDistributed { asset, asset_account: account },
                        ),
                        Err(_) => self,
                    },
                    _ => self,
                },
                _ => self,
            }
        }
    }

    /// The ledger after each asset of `moved` was told of.
    pub open spec fn told_all(self, moved: Seq<(AssetKey, AssetStatus)>) -> RuntimeView
        decreases moved.len(),
    {
        if moved.len() == 0 {
            self
        } else {
            self.told_all(moved.drop_last()).with_event(
                Event::StatusChanged { asset: moved.last().0, status: moved.last().1 },
            )
        }
    }

    /// The ledger after the purchase of each asset of `due` was carried out
    /// or left, in their order.
    pub open spec fn purchase_all(self, due: Seq<AssetKey>) -> RuntimeView
        decreases due.len(),
    {
        if due.len() == 0 {
            self
        } else {
            self.purchase_all(due.drop_last()).purchased(due.last())
        }
    }

    /// The rent that the check at position `at` of the schedule hands out, if
    /// it hands one out: the balances after it. The check finds the rent paid,
    /// the asset has its custodial account, and the ledger refuses none of the
    /// payments to the owners.
    pub open spec fn hands_out(self, at: int) -> Option<BalancesView> {
        if self.tenancy.collects(at, self.block_number) {
            let owed = self.tenancy.rents[self.tenancy.schedule[at].tenant];
            let asset = asset_of(owed.payee);
            if self.shares.accounts.contains_key(asset.index()) {
                distribute_rent(
                    self.balances,
                    owed.payee,
                    owed.amount,
                    self.shares.accounts[asset.index()].owners,
                    self.shares.accounts[asset.index()].supply,
                )
            } else {
                None
            }
        } else {
            None
        }
    }

    /// The ledger after the check at position `at` of the schedule: a rent
    /// that the check finds paid is handed to the owners of the asset, each
    /// according to its tokens, and requested again. Where it cannot be
    /// handed to all of them, it is handed to none and waits for the next
    /// check.
    pub open spec fn collected(self, at: int) -> RuntimeView {
        match self.hands_out(at) {
            Some(balances) => {
                let owed = self.tenancy.rents[self.tenancy.schedule[at].tenant];
                RuntimeView {
                    balances,
                    tenancy: self.tenancy.checked(at, self.block_number, true),
                    ..self
                }.with_event(
                    Event::Tenancy(
                        crate::tenancy::Event::RentDistributed {
                            tenant: owed.payer,
                            asset_account: owed.payee,
                            amount: owed.amount,
                        },
                    ),
                )
            },
            None => RuntimeView {
                tenancy: self.tenancy.checked(at, self.block_number, false),
                ..self
            },
        }
    }

    /// The ledger after the first `n` checks of the schedule.
    pub open spec fn collect_all(self, n: nat) -> RuntimeView
        decreases n,
    {
        if n == 0 {
            self
        } else {
            self.collect_all((n - 1) as nat).collected(n - 1)
        }
    }

    /// What [`Runtime::next_block`] does.
    pub open spec fn next_block(self) -> RuntimeView {
        let now = (self.block_number + 1) as BlockNumber;
        let (bridge, notices) = self.bridge.on_initialize(now);
        let voted = RuntimeView { block_number: now, bridge, ..self }.dispatch_all(notices);
        let (onboarding, moved) = voted.onboarding.on_initialize(now);
        let ticked = RuntimeView { onboarding, ..voted }.told_all(moved);
        let settled = ticked.purchase_all(ticked.onboarding.purchase_due(now));
        settled.collect_all(settled.tenancy.schedule.len())
    }

    /// The ledger after `k` further blocks.
    pub open spec fn run_blocks(self, k: nat) -> RuntimeView
        decreases k,
    {
        if k == 0 {
            self
        } else {
            self.run_blocks((k - 1) as nat).next_block()
        }
    }

    /// What [`Runtime::fast_forward_to`] does: blocks run until the height is
    /// at least `n`.
    pub open spec fn fast_forward_to(self, n: BlockNumber) -> RuntimeView {
        if self.block_number < n {
            self.run_blocks((n - self.block_number) as nat)
        } else {
            self
        }
    }
}

/// The state of the whole ledger.
pub struct Runtime {
    block_number: BlockNumber,
    balances: Balances,
    roles: crate::roles::Pallet,
    fund: HousingFund,
    onboarding: Onboarding,
    shares: ShareDistributor,
    bridge: Bridge,
    sessions: crate::asset_management::Pallet,
    tenancy: Tenancy,
    events: Vec<Event>,
}

impl View for Runtime {
    type V = RuntimeView;

    closed spec fn view(&self) -> RuntimeView {
        RuntimeView {
            block_number: self.block_number,
            balances: self.balances@,
            roles: self.roles@,
            fund: self.fund@,
            onboarding: self.onboarding@,
            shares: self.shares@,
            bridge: self.bridge@,
            sessions: self.sessions@,
            tenancy: self.tenancy@,
            events: self.events@,
        }
    }
}

impl Runtime {
    /// The ledger at block 1, as `genesis` sets up the registry of roles, with
    /// the administrator `sudo` and the council `council`.
    pub fn new(
        config: Config,
        genesis: &GenesisConfig,
        sudo: Option<AccountId>,
        council: Vec<AccountId>,
    ) -> (r: Runtime)
        ensures
            r@.wf(),
            r@ == (RuntimeView {
                block_number: 1,
                balances: BalancesView::empty(),
                roles: genesis.spec_build(config.roles, sudo),
                fund: HousingFundView::init(config.fund),
                onboarding: OnboardingView::init(config.onboarding),
                shares: ShareDistributorView::init(),
                bridge: BridgeView::init(config.voting, council@),
                sessions: crate::asset_management::PalletView::init(config.asset_management),
                tenancy: TenancyView::init(config.tenancy),
                events: Seq::empty(),
            }),
    {
        Runtime {
            block_number: 1,
            balances: Balances::new(),
            roles: genesis.build(config.roles, sudo),
            fund: HousingFund::new(config.fund),
            onboarding: Onboarding::new(config.onboarding),
            shares: ShareDistributor::new(),
            bridge: Bridge::new(config.voting, council),
            sessions: crate::asset_management::Pallet::new(config.asset_management),
            tenancy: Tenancy::new(config.tenancy),
            events: Vec::new(),
        }
    }

    /// The height of the current block.
    pub fn block_number(&self) -> (n: BlockNumber)
        ensures
            n == self@.block_number,
    {
        self.block_number
    }

    /// The currency ledger.
    pub fn balances(&self) -> (b: &Balances)
        ensures
            b@ == self@.balances,
    {
        &self.balances
    }

    /// The registry of roles.
    pub fn roles(&self) -> (r: &crate::roles::Pallet)
        ensures
            r@ == self@.roles,
    {
        &self.roles
    }

    /// The fund ledger.
    pub fn fund(&self) -> (f: &HousingFund)
        ensures
            f@ == self@.fund,
    {
        &self.fund
    }

    /// The assets.
    pub fn onboarding(&self) -> (o: &Onboarding)
        ensures
            o@ == self@.onboarding,
    {
        &self.onboarding
    }

    /// The ownership registry.
    pub fn shares(&self) -> (s: &ShareDistributor)
        ensures
            s@ == self@.shares,
    {
        &self.shares
    }

    /// The proposals and the votes on them.
    pub fn bridge(&self) -> (b: &Bridge)
        ensures
            b@ == self@.bridge,
    {
        &self.bridge
    }

    /// The sessions of the owners.
    pub fn sessions(&self) -> (s: &crate::asset_management::Pallet)
        ensures
            s@ == self@.sessions,
    {
        &self.sessions
    }

    /// The deposits, the rents and their schedule.
    pub fn tenancy(&self) -> (t: &Tenancy)
        ensures
            t@ == self@.tenancy,
    {
        &self.tenancy
    }

    /// The number of events so far.
    pub fn event_count(&self) -> (n: usize)
        ensures
            n == self@.events.len(),
    {
        self.events.len()
    }

    /// The event at position `at`.
    pub fn event(&self, at: usize) -> (e: Option<Event>)
        ensures
            e == if at < self@.events.len() {
                Some(self@.events[at as int])
            } else {
                None
            },
    {
        if at < self.events.len() {
            Some(self.events[at])
        } else {
            None
        }
    }

    /// The event that happened last.
    pub fn last_event(&self) -> (e: Option<Event>)
        ensures
            e == if self@.events.len() > 0 {
                Some(self@.events.last())
            } else {
                None
            },
    {
        if self.events.len() > 0 {
            Some(self.events[self.events.len() - 1])
        } else {
            None
        }
    }

    /// Sets the free balance of `who` to `amount`.
    pub fn make_free_balance_be(&mut self, who: AccountId, amount: Balance)
        ensures
            final(self)@ == (RuntimeView {
                balances: old(self)@.balances.set_free(who, amount),
                ..old(self)@
            }),
    {
        self.balances.make_free_balance_be(who, amount);
    }

    /// Gives `account` the role `account_type`, or files its request for it;
    /// see [`crate::roles::Pallet::set_role`].
    pub fn set_role(&mut self, caller: AccountId, account: AccountId, account_type: Accounts) -> (res:
        Result<(), DispatchError>)
        ensures
            match old(self)@.roles.set_role(caller, account, account_type, old(self)@.block_number) {
                Ok((roles, event)) => res is Ok && final(self)@ == (RuntimeView {
                    roles,
                    ..old(self)@
                }).with_event(Event::Roles(event)),
                Err(e) => res == Err::<(), DispatchError>(DispatchError::Roles(e)) && final(self)@
                    == old(self)@,
            },
    {
        match self.roles.set_role(caller, account, account_type, self.block_number) {
            Ok(event) => {
                self.events.push(Event::Roles(event));
                Ok(())
            },
            Err(e) => Err(DispatchError::Roles(e)),
        }
    }

    /// Grants the role that `account` waits for; see
    /// [`crate::roles::Pallet::account_approval`].
    pub fn account_approval(&mut self, sender: AccountId, account: AccountId) -> (res: Result<
        (),
        DispatchError,
    >)
        ensures
            match old(self)@.roles.account_approval(sender, account, old(self)@.block_number) {
                Ok((roles, event)) => res is Ok && final(self)@ == (RuntimeView {
                    roles,
                    ..old(self)@
                }).with_event(Event::Roles(event)),
                Err(e) => res == Err::<(), DispatchError>(DispatchError::Roles(e)) && final(self)@
                    == old(self)@,
            },
    {
        match self.roles.account_approval(sender, account, self.block_number) {
            Ok(event) => {
                self.events.push(Event::Roles(event));
                Ok(())
            },
            Err(e) => Err(DispatchError::Roles(e)),
        }
    }

    /// Refuses the role that `account` waits for; see
    /// [`crate::roles::Pallet::account_rejection`].
    pub fn account_rejection(&mut self, sender: AccountId, account: AccountId) -> (res: Result<
        (),
        DispatchError,
    >)
        ensures
            match old(self)@.roles.account_rejection(sender, account, old(self)@.block_number) {
                Ok((roles, event)) => res is Ok && final(self)@ == (RuntimeView {
                    roles,
                    ..old(self)@
                }).with_event(Event::Roles(event)),
                Err(e) => res == Err::<(), DispatchError>(DispatchError::Roles(e)) && final(self)@
                    == old(self)@,
            },
    {
        match self.roles.account_rejection(sender, account, self.block_number) {
            Ok(event) => {
                self.events.push(Event::Roles(event));
                Ok(())
            },
            Err(e) => Err(DispatchError::Roles(e)),
        }
    }

    /// Hands the administration over; see
    /// [`crate::roles::Pallet::set_manager`].
    pub fn set_manager(&mut self, sender: AccountId, new: AccountId) -> (res: Result<
        (),
        DispatchError,
    >)
        ensures
            match old(self)@.roles.set_manager(sender, new) {
                Ok(roles) => res is Ok && final(self)@ == (RuntimeView { roles, ..old(self)@ }),
                Err(e) => res == Err::<(), DispatchError>(DispatchError::Roles(e)) && final(self)@
                    == old(self)@,
            },
    {
        match self.roles.set_manager(sender, new) {
            Ok(_) => Ok(()),
            Err(e) => Err(DispatchError::Roles(e)),
        }
    }

    /// Records a contribution of `amount` that `who` pays into the fund; see
    /// [`HousingFund::contribute`].
    pub fn contribute_to_fund(&mut self, who: AccountId, amount: Balance) -> (res: Result<
        (),
        DispatchError,
    >)
        ensures
            match old(self)@.fund.contribute(old(self)@.balances, who, who, amount) {
                Ok((fund, balances)) => res is Ok && final(self)@ == (RuntimeView {
                    fund,
                    balances,
                    ..old(self)@
                }),
                Err(e) => res == Err::<(), DispatchError>(DispatchError::Fund(e)) && final(self)@
                    == old(self)@,
            },
    {
        match self.fund.contribute_to_fund(&mut self.balances, who, amount) {
            Ok(_) => Ok(()),
            Err(e) => Err(DispatchError::Fund(e)),
        }
    }
}

impl RuntimeView {
    /// What [`Runtime::create_collection`] does.
    pub open spec fn create_collection(self, caller: AccountId, collection: u32) -> Result<
        RuntimeView,
        DispatchError,
    > {
        if !self.roles.has_role(caller, Accounts::SERVICER) {
            Err(DispatchError::Roles(crate::roles::Error::OnlyForServicers))
        } else {
            match self.onboarding.create_collection(collection) {
                Ok(onboarding) => Ok(RuntimeView { onboarding, ..self }),
                Err(e) => Err(DispatchError::Onboarding(e)),
            }
        }
    }

    /// What [`Runtime::create_and_submit_proposal`] does.
    pub open spec fn create_and_submit_proposal(
        self,
        seller: AccountId,
        collection: u32,
        price: Balance,
        metadata: Seq<u8>,
        submit: bool,
    ) -> Result<(RuntimeView, AssetKey), DispatchError> {
        if !self.roles.has_role(seller, Accounts::SELLER) {
            Err(DispatchError::Roles(crate::roles::Error::UnAuthorized))
        } else {
            match self.onboarding.create_asset(
                seller,
                collection,
                price,
                metadata,
                self.block_number,
            ) {
                Err(e) => Err(DispatchError::Onboarding(e)),
                Ok((onboarding, asset)) => {
                    let created = RuntimeView { onboarding, ..self }.with_event(
                        Event::StatusChanged { asset, status: AssetStatus::REVIEWING },
                    );
                    let action = Action::AcquireAsset { asset };
                    if !submit {
                        Ok((created, asset))
                    } else {
                        match self.bridge.open(
                            seller,
                            action.encoding(),
                            crate::hashing::blake2_256_digest(action.encoding()),
                            true,
                            self.block_number,
                        ) {
                            Err(e) => Err(DispatchError::Voting(e)),
                            Ok((bridge, proposal)) => Ok(
                                (
                                    RuntimeView { bridge, ..created }.with_event(
                                        Event::ProposalSubmitted { who: seller, proposal, asset },
                                    ),
                                    asset,
                                ),
                            ),
                        }
                    }
                },
            }
        }
    }

    /// What [`Runtime::council_vote`] does.
    pub open spec fn council_vote(self, member: AccountId, proposal: ReferendumIndex, approve: bool) -> Result<
        RuntimeView,
        DispatchError,
    > {
        match self.bridge.council_vote(member, proposal, approve, self.block_number) {
            Err(e) => Err(DispatchError::Voting(e)),
            Ok(bridge) => Ok(
                RuntimeView { bridge, ..self }.with_event(
                    Event::Voted { who: member, proposal, block: self.block_number },
                ),
            ),
        }
    }

    /// What [`Runtime::investor_vote`] does.
    pub open spec fn investor_vote(self, voter: AccountId, proposal: ReferendumIndex, aye: bool) -> Result<
        RuntimeView,
        DispatchError,
    > {
        if !self.roles.has_role(voter, Accounts::INVESTOR) {
            Err(DispatchError::Roles(crate::roles::Error::UnAuthorized))
        } else if proposal >= self.bridge.proposals.len() {
            Err(DispatchError::Voting(crate::voting::Error::UnknownProposal))
        } else if !self.bridge.proposals[proposal as int].screened {
            Err(DispatchError::Roles(crate::roles::Error::UnAuthorized))
        } else {
            match self.bridge.vote(
                voter,
                proposal,
                aye,
                self.sessions.config.investor_vote_amount,
                self.block_number,
            ) {
                Err(e) => Err(DispatchError::Voting(e)),
                Ok(bridge) => Ok(
                    RuntimeView { bridge, ..self }.with_event(
                        Event::Voted { who: voter, proposal, block: self.block_number },
                    ),
                ),
            }
        }
    }

    /// What [`Runtime::validate_transaction_asset`] does.
    pub open spec fn validate_transaction_asset(self, notary: AccountId, asset: AssetKey) -> Result<
        RuntimeView,
        DispatchError,
    > {
        if !self.roles.has_role(notary, Accounts::NOTARY) {
            Err(DispatchError::Roles(crate::roles::Error::UnAuthorized))
        } else {
            match self.onboarding.apply(asset, Step::NotaryValidated, self.block_number) {
                Err(e) => Err(DispatchError::Onboarding(e)),
                Ok((onboarding, status)) => Ok(
                    RuntimeView { onboarding, ..self }.with_event(
                        Event::StatusChanged { asset, status },
                    ),
                ),
            }
        }
    }

    /// What [`Runtime::reserve_for_acquisition`] does.
    pub open spec fn reserve_for_acquisition(
        self,
        asset: AssetKey,
        shares: Seq<(AccountId, Balance)>,
    ) -> Result<RuntimeView, DispatchError> {
        if !self.onboarding.assets.contains_key(asset.index()) {
            Err(DispatchError::Onboarding(crate::onboarding::Error::NotAnAsset))
        } else {
            match self.fund.reserve_for_acquisition(
                self.balances,
                asset,
                self.onboarding.assets[asset.index()].price,
                shares,
                self.block_number,
            ) {
                Err(e) => Err(DispatchError::Fund(e)),
                Ok((fund, balances)) => Ok(RuntimeView { fund, balances, ..self }),
            }
        }
    }

    /// What [`Runtime::representative_session`] does.
    pub open spec fn representative_session(
        self,
        caller: AccountId,
        asset: AssetKey,
        representative: AccountId,
    ) -> Result<(RuntimeView, ReferendumIndex), DispatchError> {
        match self.sessions.representative_session(
            self.bridge,
            self.shares,
            caller,
            asset,
            representative,
            self.block_number,
        ) {
            Err(e) => Err(DispatchError::AssetManagement(e)),
            Ok((sessions, bridge, number)) => Ok(
                (
                    RuntimeView { sessions, bridge, ..self }.with_event(
                        Event::AssetManagement(
                            crate::asset_management::Event::RepresentativeVoteSessionStarted {
                                caller,
                                candidate: representative,
                                asset_account: virtual_account_of(asset),
                            },
                        ),
                    ),
                    number,
                ),
            ),
        }
    }

    /// What [`Runtime::launch_tenant_session`] does.
    pub open spec fn launch_tenant_session(
        self,
        caller: AccountId,
        asset: AssetKey,
        tenant: AccountId,
        judgement: Judgement,
    ) -> Result<(RuntimeView, ReferendumIndex), DispatchError> {
        match self.sessions.launch_tenant_session(
            self.bridge,
            self.shares,
            self.roles,
            caller,
            asset,
            tenant,
            judgement,
            self.block_number,
        ) {
            Err(e) => Err(DispatchError::AssetManagement(e)),
            Ok((sessions, bridge, number)) => Ok(
                (
                    RuntimeView { sessions, bridge, ..self }.with_event(
                        Event::AssetManagement(
                            crate::asset_management::Event::TenantVoteSessionStarted {
                                caller,
                                candidate: tenant,
                                asset_account: virtual_account_of(asset),
                            },
                        ),
                    ),
                    number,
                ),
            ),
        }
    }

    /// What [`Runtime::owners_vote`] does.
    pub open spec fn owners_vote(self, voter: AccountId, referendum: ReferendumIndex, aye: bool) -> Result<
        RuntimeView,
        DispatchError,
    > {
        match self.sessions.owners_vote(
            self.bridge,
            self.shares,
            voter,
            referendum,
            aye,
            self.block_number,
        ) {
            Err(e) => Err(DispatchError::AssetManagement(e)),
            Ok(bridge) => Ok(
                RuntimeView { bridge, ..self }.with_event(
                    Event::Voted { who: voter, proposal: referendum, block: self.block_number },
                ),
            ),
        }
    }

    /// What [`Runtime::representative_approval`] does.
    pub open spec fn representative_approval(
        self,
        caller: AccountId,
        rep_account: AccountId,
        asset: AssetKey,
    ) -> Result<RuntimeView, DispatchError> {
        match crate::asset_management::representative_approval(
            self.roles,
            self.shares,
            caller,
            rep_account,
            asset,
            self.block_number,
        ) {
            Err(e) => Err(DispatchError::AssetManagement(e)),
            Ok(roles) => Ok(RuntimeView { roles, ..self }),
        }
    }

    /// What [`Runtime::pay_guaranty_deposit`] does.
    pub open spec fn pay_guaranty_deposit(self, tenant: AccountId, asset: AssetKey) -> Result<
        RuntimeView,
        DispatchError,
    > {
        match self.tenancy.pay_guaranty_deposit(self.balances, tenant, virtual_account_of(asset)) {
            Err(e) => Err(DispatchError::Tenancy(e)),
            Ok((tenancy, balances, event)) => Ok(
                RuntimeView { tenancy, balances, ..self }.with_event(Event::Tenancy(event)),
            ),
        }
    }

    /// What [`Runtime::pay_rent`] does.
    pub open spec fn pay_rent(self, tenant: AccountId) -> Result<RuntimeView, DispatchError> {
        match self.tenancy.pay_rent(self.balances, tenant) {
            Err(e) => Err(DispatchError::Tenancy(e)),
            Ok((tenancy, balances, event)) => Ok(
                RuntimeView { tenancy, balances, ..self }.with_event(Event::Tenancy(event)),
            ),
        }
    }
}

impl Runtime {
    /// Creates the collection `collection`. Only a servicer may.
    pub fn create_collection(&mut self, caller: AccountId, collection: u32) -> (res: Result<
        (),
        DispatchError,
    >)
        ensures
            match old(self)@.create_collection(caller, collection) {
                Ok(after) => res is Ok && final(self)@ == after,
                Err(e) => res == Err::<(), DispatchError>(e) && final(self)@ == old(self)@,
            },
    {
        if !self.roles.has_role(caller, Accounts::SERVICER) {
            return Err(DispatchError::Roles(crate::roles::Error::OnlyForServicers));
        }
        match self.onboarding.create_collection(collection) {
            Ok(_) => Ok(()),
            Err(e) => Err(DispatchError::Onboarding(e)),
        }
    }

    /// Creates the next item of `collection` as an asset under review, which
    /// the seller `seller` offers for `price`, and, if `submit` says so,
    /// proposes its acquisition to the council. Returns the key of the asset.
    ///
    /// Fails, changing nothing, where `seller` is no seller, where there is no
    /// such collection, and where the bridge refuses the proposal.
    pub fn create_and_submit_proposal(
        &mut self,
        seller: AccountId,
        collection: u32,
        price: Balance,
        metadata: Vec<u8>,
        submit: bool,
    ) -> (res: Result<AssetKey, DispatchError>)
        requires
            old(self)@.wf(),
        ensures
            final(self)@.wf(),
            match old(self)@.create_and_submit_proposal(
                seller,
                collection,
                price,
                metadata@,
                submit,
            ) {
                Ok((after, asset)) => res == Ok::<AssetKey, DispatchError>(asset) && final(self)@
                    == after,
                Err(e) => res == Err::<AssetKey, DispatchError>(e) && final(self)@ == old(self)@,
            },
    {
        if !self.roles.has_role(seller, Accounts::SELLER) {
            return Err(DispatchError::Roles(crate::roles::Error::UnAuthorized));
        }
        let item = match self.onboarding.items_count(collection) {
            None => {
                return Err(DispatchError::Onboarding(crate::onboarding::Error::NotACollection));
            },
            Some(n) => n,
        };
        if item == u32::MAX {
            return Err(DispatchError::Onboarding(crate::onboarding::Error::TooManyItems));
        }
        let asset = AssetKey { collection, item };
        let mut proposal: Option<ReferendumIndex> = None;
        if submit {
            match self.bridge.submit(
                seller,
                Action::AcquireAsset { asset },
                true,
                self.block_number,
            ) {
                Err(e) => {
                    return Err(DispatchError::Voting(e));
                },
                Ok((number, _)) => {
                    proposal = Some(number);
                },
            }
        }
        let created = self.onboarding.create_asset(
            seller,
            collection,
            price,
            metadata,
            self.block_number,
        );
        assert(created == Ok::<AssetKey, crate::onboarding::Error>(asset));
        self.events.push(Event::StatusChanged { asset, status: AssetStatus::REVIEWING });
        match proposal {
            Some(number) => {
                self.events.push(Event::ProposalSubmitted { who: seller, proposal: number, asset });
            },
            None => {},
        }
        Ok(asset)
    }

    /// Records the vote of the council member `member` on the proposal of
    /// number `proposal`; see [`Bridge::council_vote`].
    pub fn council_vote(&mut self, member: AccountId, proposal: ReferendumIndex, approve: bool) -> (res:
        Result<(), DispatchError>)
        requires
            old(self)@.wf(),
        ensures
            final(self)@.wf(),
            match old(self)@.council_vote(member, proposal, approve) {
                Ok(after) => res is Ok && final(self)@ == after,
                Err(e) => res == Err::<(), DispatchError>(e) && final(self)@ == old(self)@,
            },
    {
        match self.bridge.council_vote(member, proposal, approve, self.block_number) {
            Err(e) => Err(DispatchError::Voting(e)),
            Ok(_) => {
                self.events.push(
                    Event::Voted { who: member, proposal, block: self.block_number },
                );
                Ok(())
            },
        }
    }

    /// Records the vote of the investor `voter` in the referendum on the
    /// acquisition that the proposal of number `proposal` asks for. Every
    /// investor votes with the same weight.
    ///
    /// Fails where `voter` is no investor, and where the proposal is not one
    /// that the council screened: the sessions of the owners are theirs alone.
    pub fn investor_vote(&mut self, voter: AccountId, proposal: ReferendumIndex, aye: bool) -> (res:
        Result<(), DispatchError>)
        requires
            old(self)@.wf(),
        ensures
            final(self)@.wf(),
            match old(self)@.investor_vote(voter, proposal, aye) {
                Ok(after) => res is Ok && final(self)@ == after,
                Err(e) => res == Err::<(), DispatchError>(e) && final(self)@ == old(self)@,
            },
    {
        if !self.roles.has_role(voter, Accounts::INVESTOR) {
            return Err(DispatchError::Roles(crate::roles::Error::UnAuthorized));
        }
        match self.bridge.screened(proposal) {
            None => {
                return Err(DispatchError::Voting(crate::voting::Error::UnknownProposal));
            },
            Some(screened) => {
                if !screened {
                    return Err(DispatchError::Roles(crate::roles::Error::UnAuthorized));
                }
            },
        }
        let weight = self.sessions.config().investor_vote_amount;
        match self.bridge.vote(voter, proposal, aye, weight, self.block_number) {
            Err(e) => Err(DispatchError::Voting(e)),
            Ok(_) => {
                self.events.push(Event::Voted { who: voter, proposal, block: self.block_number });
                Ok(())
            },
        }
    }

    /// Validates the transaction of `asset`, which is to be finalised. Only a
    /// notary may.
    pub fn validate_transaction_asset(&mut self, notary: AccountId, asset: AssetKey) -> (res: Result<
        (),
        DispatchError,
    >)
        ensures
            old(self)@.onboarding.steps_to(final(self)@.onboarding),
            match old(self)@.validate_transaction_asset(notary, asset) {
                Ok(after) => res is Ok && final(self)@ == after,
                Err(e) => res == Err::<(), DispatchError>(e) && final(self)@ == old(self)@,
            },
    {
        if !self.roles.has_role(notary, Accounts::NOTARY) {
            return Err(DispatchError::Roles(crate::roles::Error::UnAuthorized));
        }
        match self.onboarding.apply(asset, Step::NotaryValidated, self.block_number) {
            Err(e) => Err(DispatchError::Onboarding(e)),
            Ok(status) => {
                self.events.push(Event::StatusChanged { asset, status });
                Ok(())
            },
        }
    }

    /// Earmarks the price of `asset` in the pooled funds, taken from the
    /// contributors as `shares` says; see
    /// [`HousingFund::reserve_for_acquisition`].
    pub fn reserve_for_acquisition(&mut self, asset: AssetKey, shares: &Vec<(AccountId, Balance)>) -> (res:
        Result<(), DispatchError>)
        ensures
            match old(self)@.reserve_for_acquisition(asset, shares@) {
                Ok(after) => res is Ok && final(self)@ == after,
                Err(e) => res == Err::<(), DispatchError>(e) && final(self)@ == old(self)@,
            },
    {
        let price = match self.onboarding.price(asset) {
            None => {
                return Err(DispatchError::Onboarding(crate::onboarding::Error::NotAnAsset));
            },
            Some(p) => p,
        };
        match self.fund.reserve_for_acquisition(
            &mut self.balances,
            asset,
            price,
            shares,
            self.block_number,
        ) {
            Err(e) => Err(DispatchError::Fund(e)),
            Ok(_) => Ok(()),
        }
    }

    /// Launches the election of `representative` by the owners of `asset`;
    /// see [`crate::asset_management::Pallet::representative_session`].
    pub fn representative_session(
        &mut self,
        caller: AccountId,
        asset: AssetKey,
        representative: AccountId,
    ) -> (res: Result<ReferendumIndex, DispatchError>)
        requires
            old(self)@.wf(),
        ensures
            final(self)@.wf(),
            match old(self)@.representative_session(caller, asset, representative) {
                Ok((after, number)) => res == Ok::<ReferendumIndex, DispatchError>(number)
                    && final(self)@ == after,
                Err(e) => res == Err::<ReferendumIndex, DispatchError>(e) && final(self)@ == old(self)@,
            },
    {
        match self.sessions.representative_session(
            &mut self.bridge,
            &self.shares,
            caller,
            asset,
            representative,
            self.block_number,
        ) {
            Err(e) => Err(DispatchError::AssetManagement(e)),
            Ok((number, event)) => {
                self.events.push(Event::AssetManagement(event));
                Ok(number)
            },
        }
    }

    /// Launches the election of `tenant` by the owners of `asset`; see
    /// [`crate::asset_management::Pallet::launch_tenant_session`].
    pub fn launch_tenant_session(
        &mut self,
        caller: AccountId,
        asset: AssetKey,
        tenant: AccountId,
        judgement: Judgement,
    ) -> (res: Result<ReferendumIndex, DispatchError>)
        requires
            old(self)@.wf(),
        ensures
            final(self)@.wf(),
            match old(self)@.launch_tenant_session(caller, asset, tenant, judgement) {
                Ok((after, number)) => res == Ok::<ReferendumIndex, DispatchError>(number)
                    && final(self)@ == after,
                Err(e) => res == Err::<ReferendumIndex, DispatchError>(e) && final(self)@ == old(self)@,
            },
    {
        match self.sessions.launch_tenant_session(
            &mut self.bridge,
            &self.shares,
            &self.roles,
            caller,
            asset,
            tenant,
            judgement,
            self.block_number,
        ) {
            Err(e) => Err(DispatchError::AssetManagement(e)),
            Ok((number, event)) => {
                self.events.push(Event::AssetManagement(event));
                Ok(number)
            },
        }
    }

    /// Casts the vote of the owner `voter` in the session of the referendum
    /// `referendum`; see [`crate::asset_management::Pallet::owners_vote`].
    pub fn owners_vote(&mut self, voter: AccountId, referendum: ReferendumIndex, aye: bool) -> (res:
        Result<(), DispatchError>)
        requires
            old(self)@.wf(),
        ensures
            final(self)@.wf(),
            match old(self)@.owners_vote(voter, referendum, aye) {
                Ok(after) => res is Ok && final(self)@ == after,
                Err(e) => res == Err::<(), DispatchError>(e) && final(self)@ == old(self)@,
            },
    {
        match self.sessions.owners_vote(
            &mut self.bridge,
            &self.shares,
            voter,
            referendum,
            aye,
            self.block_number,
        ) {
            Err(e) => Err(DispatchError::AssetManagement(e)),
            Ok(_) => {
                self.events.push(
                    Event::Voted { who: voter, proposal: referendum, block: self.block_number },
                );
                Ok(())
            },
        }
    }

    /// Makes `rep_account` the representative of `asset`, as the custodial
    /// account `caller` of the asset asks; see
    /// [`crate::asset_management::Pallet::representative_approval`].
    pub fn representative_approval(
        &mut self,
        caller: AccountId,
        rep_account: AccountId,
        asset: AssetKey,
    ) -> (res: Result<(), DispatchError>)
        ensures
            match old(self)@.representative_approval(caller, rep_account, asset) {
                Ok(after) => res is Ok && final(self)@ == after,
                Err(e) => res == Err::<(), DispatchError>(e) && final(self)@ == old(self)@,
            },
    {
        match self.sessions.representative_approval(
            &mut self.roles,
            &self.shares,
            caller,
            rep_account,
            asset,
            self.block_number,
        ) {
            Err(e) => Err(DispatchError::AssetManagement(e)),
            Ok(_) => Ok(()),
        }
    }

    /// Records the identity that the tenant `tenant` states when it asks for
    /// `asset`.
    ///
    /// Fails where `tenant` is not registered as a tenant, where the asset has
    /// no owners yet, and where a field of the identity is too long.
    pub fn request_asset(&mut self, tenant: AccountId, info: IdentityInfo, asset: AssetKey) -> (res:
        Result<(), DispatchError>)
        ensures
            if !old(self)@.roles.has_role(tenant, Accounts::TENANT) {
                res == Err::<(), DispatchError>(
                    DispatchError::Roles(crate::roles::Error::UnAuthorized),
                ) && final(self)@ == old(self)@
            } else if !old(self)@.shares.accounts.contains_key(asset.index()) {
                res == Err::<(), DispatchError>(
                    DispatchError::AssetManagement(crate::asset_management::Error::NotAnAsset),
                ) && final(self)@ == old(self)@
            } else if !info.is_valid() {
                res == Err::<(), DispatchError>(
                    DispatchError::Tenancy(crate::tenancy::Error::InvalidIdentity),
                ) && final(self)@ == old(self)@
            } else {
                res is Ok && final(self)@ == (RuntimeView {
                    tenancy: TenancyView {
                        identities: old(self)@.tenancy.identities.insert(tenant, info@),
                        ..old(self)@.tenancy
                    },
                    ..old(self)@
                })
            },
    {
        if !self.roles.has_role(tenant, Accounts::TENANT) {
            return Err(DispatchError::Roles(crate::roles::Error::UnAuthorized));
        }
        if !self.shares.has_account(asset) {
            return Err(DispatchError::AssetManagement(crate::asset_management::Error::NotAnAsset));
        }
        match self.tenancy.set_identity(tenant, info) {
            Err(e) => Err(DispatchError::Tenancy(e)),
            Ok(_) => Ok(()),
        }
    }

    /// Pays the guaranty deposit that `tenant` owes for `asset`, into the
    /// custodial account of the asset.
    ///
    /// Fails with [`crate::tenancy::Error::PaymentAlreadyInProcess`] where the
    /// deposit was paid already.
    pub fn pay_guaranty_deposit(&mut self, tenant: AccountId, asset: AssetKey) -> (res: Result<
        (),
        DispatchError,
    >)
        ensures
            match old(self)@.pay_guaranty_deposit(tenant, asset) {
                Ok(after) => res is Ok && final(self)@ == after,
                Err(e) => res == Err::<(), DispatchError>(e) && final(self)@ == old(self)@,
            },
    {
        match self.tenancy.pay_guaranty_deposit(
            &mut self.balances,
            tenant,
            virtual_account_of(asset),
        ) {
            Err(e) => Err(DispatchError::Tenancy(e)),
            Ok(event) => {
                self.events.push(Event::Tenancy(event));
                Ok(())
            },
        }
    }

    /// Pays the rent that `tenant` owes for the current period, into the
    /// custodial account of the asset that it rents.
    pub fn pay_rent(&mut self, tenant: AccountId) -> (res: Result<(), DispatchError>)
        ensures
            match old(self)@.pay_rent(tenant) {
                Ok(after) => res is Ok && final(self)@ == after,
                Err(e) => res == Err::<(), DispatchError>(e) && final(self)@ == old(self)@,
            },
    {
        match self.tenancy.pay_rent(&mut self.balances, tenant) {
            Err(e) => Err(DispatchError::Tenancy(e)),
            Ok(event) => {
                self.events.push(Event::Tenancy(event));
                Ok(())
            },
        }
    }
}

impl Runtime {
    fn moved(&mut self, asset: AssetKey, step: Step)
        requires
            step != Step::NotaryValidated,
        ensures
            final(self)@ == old(self)@.moved(asset, step),
            old(self)@.onboarding.advances_to(final(self)@.onboarding, old(self)@.block_number),
    {
        proof {
            lemma_advances(
                self@.onboarding,
                self@.onboarding,
                self@.onboarding,
                self@.block_number,
            );
        }
        match self.onboarding.since(asset) {
            Some(since) => {
                if since >= self.block_number {
                    return ;
                }
            },
            None => {},
        }
        let ghost before = self@.onboarding;
        match self.onboarding.apply(asset, step, self.block_number) {
            Ok(status) => {
                self.events.push(Event::StatusChanged { asset, status });
                proof {
                    lemma_automatic_steps(before.assets[asset.index()].status, step);
                }
            },
            Err(_) => {},
        }
    }

    fn with_representative(&mut self, candidate: AccountId, asset: AssetKey)
        ensures
            final(self)@ == old(self)@.with_representative(candidate, asset),
    {
        let _ = self.sessions.representative_approval(
            &mut self.roles,
            &self.shares,
            virtual_account_of(asset),
            candidate,
            asset,
            self.block_number,
        );
    }

    fn with_tenant(&mut self, tenant: AccountId, asset: AssetKey)
        ensures
            final(self)@ == old(self)@.with_tenant(tenant, asset),
            old(self)@.onboarding.advances_to(final(self)@.onboarding, old(self)@.block_number),
    {
        let account = virtual_account_of(asset);
        let price = match self.onboarding.price(asset) {
            None => {
                return ;
            },
            Some(p) => p,
        };
        let free = match self.roles.tenants(tenant) {
            None => false,
            Some(t) => t.asset_account.is_none(),
        };
        if !free || self.tenancy.is_tenant(tenant) {
            return ;
        }
        let rent = crate::tenancy::capped_mul_div(
            price,
            self.tenancy.config().yearly_rent_percent,
            1200,
        );
        let linked = self.roles.link_tenant(tenant, account, rent, self.block_number);
        let listed = self.onboarding.add_tenant(asset, tenant);
        let opened = self.tenancy.open(tenant, account, price, self.block_number);
        assert(linked is Ok && listed is Ok);
        match opened {
            Ok(event) => {
                self.events.push(Event::Tenancy(event));
            },
            Err(_) => {},
        }
    }

    fn dispatch(&mut self, notice: Notice)
        ensures
            final(self)@ == old(self)@.dispatch(notice),
            final(self)@.bridge == old(self)@.bridge,
            final(self)@.block_number == old(self)@.block_number,
            old(self)@.onboarding.advances_to(final(self)@.onboarding, old(self)@.block_number),
    {
        proof {
            lemma_advances(
                self@.onboarding,
                self@.onboarding,
                self@.onboarding,
                self@.block_number,
            );
        }
        let action = match self.bridge.encoded(notice.proposal) {
            Some(bytes) => Action::decode(&bytes),
            None => None,
        };
        self.events.push(Event::Voting(notice));
        match (action, notice.verdict) {
            (Some(Action::AcquireAsset { asset }), Verdict::CouncilApproved) => {
                self.moved(asset, Step::CouncilApproved);
            },
            (Some(Action::AcquireAsset { asset }), Verdict::CouncilRejected) => {
                self.moved(asset, Step::CouncilRejected);
            },
            (Some(Action::AcquireAsset { asset }), Verdict::ReferendumRejected) => {
                self.moved(asset, Step::ReferendumRejected);
            },
            (Some(Action::AcquireAsset { asset }), Verdict::Enact) => {
                self.moved(asset, Step::ReferendumEnacted);
            },
            (Some(Action::ApproveRepresentative { candidate, asset }), Verdict::Enact) => {
                self.with_representative(candidate, asset);
            },
            (Some(Action::ApproveTenant { tenant, asset }), Verdict::Enact) => {
                self.with_tenant(tenant, asset);
            },
            _ => {},
        }
    }

    fn purchased(&mut self, asset: AssetKey)
        ensures
            final(self)@ == old(self)@.purchased(asset),
            final(self)@.block_number == old(self)@.block_number,
            final(self)@.bridge == old(self)@.bridge,
            old(self)@.onboarding.advances_to(final(self)@.onboarding, old(self)@.block_number),
    {
        proof {
            lemma_advances(
                self@.onboarding,
                self@.onboarding,
                self@.onboarding,
                self@.block_number,
            );
        }
        match self.onboarding.due(asset, self.block_number) {
            Some(Step::FinalisedElapsed) => {},
            _ => {
                return ;
            },
        }
        let seller = match self.onboarding.seller(asset) {
            None => {
                return ;
            },
            Some(s) => s,
        };
        // Every step is tried on what is recorded before any is taken, so
        // that a purchase is carried out as a whole or not at all.
        if self.shares.has_account(asset) || self.shares.token_id() == u32::MAX {
            return ;
        }
        if !self.fund.can_pay_for_acquisition(&self.balances, asset, seller) {
            return ;
        }
        let payable = match self.fund.reservations(asset) {
            None => false,
            Some(operation) => has_distinct_accounts(&operation.contributions) && sum_shares(
                &operation.contributions,
            ) > 0,
        };
        if !payable {
            return ;
        }
        let ghost before = self@.onboarding;
        let bought = self.onboarding.apply(asset, Step::FinalisedElapsed, self.block_number);
        let opened = self.shares.open_virtual_account(asset);
        let account = virtual_account_of(asset);
        let minted = self.shares.issue_tokens(asset, TOKEN_SUPPLY);
        let held = self.onboarding.set_owner(asset, account);
        assert(bought is Ok && opened is Ok && minted is Ok && held is Ok);
        match self.fund.pay_for_acquisition(&mut self.balances, asset, seller) {
            Err(_) => {
                assert(false);
            },
            Ok(contributions) => {
                let handed = self.shares.distribute(asset, &contributions);
                assert(handed is Ok);
                self.events.push(Event::StatusChanged { asset, status: AssetStatus::PURCHASED });
                self.events.push(Event::OwnershipDistributed { asset, asset_account: account });
            },
        }
        proof {
            lemma_automatic_steps(before.assets[asset.index()].status, Step::FinalisedElapsed);
        }
    }

    fn collected(&mut self, at: usize)
        requires
            at < old(self)@.tenancy.schedule.len(),
        ensures
            final(self)@ == old(self)@.collected(at as int),
            final(self)@.block_number == old(self)@.block_number,
            final(self)@.tenancy.schedule.len() == old(self)@.tenancy.schedule.len(),
            final(self)@.onboarding == old(self)@.onboarding,
            final(self)@.bridge == old(self)@.bridge,
    {
        let found = self.tenancy.collects(at, self.block_number);
        let handed = match found {
            None => false,
            Some(owed) => match self.shares.virtual_acc(asset_of(owed.payee)) {
                None => false,
                Some(account) => pay_owners(
                    &mut self.balances,
                    owed.payee,
                    owed.amount,
                    &account.owners,
                    account.supply,
                ),
            },
        };
        self.tenancy.check(at, self.block_number, handed);
        match found {
            Some(owed) => {
                if handed {
                    self.events.push(
                        Event::Tenancy(
                            crate::tenancy::Event::RentDistributed {
                                tenant: owed.payer,
                                asset_account: owed.payee,
                                amount: owed.amount,
                            },
                        ),
                    );
                }
            },
            None => {},
        }
    }

    /// Moves to the next block and runs its hooks, in this order: the votes
    /// mature and what they decide takes effect; the assets that were
    /// onboarded for long enough are to be finalised; the purchase of each
    /// asset that was finalised for long enough is carried out, as a whole or
    /// not at all; the rents are checked and those that were paid are handed
    /// to the owners.
    ///
    /// Within the block every asset takes one step at most, and only a step
    /// that needs nobody to act: an asset that waits for the notary waits on,
    /// and a purchased or rejected asset stays as it is.
    pub fn next_block(&mut self)
        requires
            old(self)@.wf(),
            old(self)@.block_number < BlockNumber::MAX,
        ensures
            final(self)@.wf(),
            final(self)@ == old(self)@.next_block(),
            final(self)@.block_number == old(self)@.block_number + 1,
            old(self)@.onboarding.advances_to(
                final(self)@.onboarding,
                (old(self)@.block_number + 1) as BlockNumber,
            ),
            old(self)@.onboarding.steps_to(final(self)@.onboarding),
            old(self)@.onboarding.progresses_to(final(self)@.onboarding),
    {
        self.block_number = self.block_number + 1;
        let now = self.block_number;
        proof {
            lemma_advances(old(self)@.onboarding, old(self)@.onboarding, old(self)@.onboarding, now);
        }
        let notices = self.bridge.on_initialize(now);
        let ghost started = self@;
        let mut i: usize = 0;
        assert(notices@.subrange(0, 0) =~= Seq::empty());
        while i < notices.len()
            invariant
                i <= notices@.len(),
                self@ == started.dispatch_all(notices@.subrange(0, i as int)),
                self@.bridge == started.bridge,
                self@.block_number == now,
                old(self)@.onboarding.advances_to(self@.onboarding, now),
            decreases notices@.len() - i,
        {
            assert(notices@.subrange(0, i + 1).drop_last() =~= notices@.subrange(0, i as int));
            let ghost before = self@.onboarding;
            self.dispatch(notices[i]);
            proof {
                lemma_advances(old(self)@.onboarding, before, self@.onboarding, now);
            }
            i += 1;
        }
        assert(notices@.subrange(0, i as int) =~= notices@);
        let ghost voted = self@.onboarding;
        let moved = self.onboarding.on_initialize(now);
        proof {
            lemma_advances(old(self)@.onboarding, voted, self@.onboarding, now);
        }
        let ghost ticked = self@;
        let mut j: usize = 0;
        assert(moved@.subrange(0, 0) =~= Seq::empty());
        while j < moved.len()
            invariant
                j <= moved@.len(),
                self@ == ticked.told_all(moved@.subrange(0, j as int)),
                self@.bridge == started.bridge,
                self@.block_number == now,
                self@.onboarding == ticked.onboarding,
            decreases moved@.len() - j,
        {
            assert(moved@.subrange(0, j + 1).drop_last() =~= moved@.subrange(0, j as int));
            let (asset, status) = moved[j];
            self.events.push(Event::StatusChanged { asset, status });
            j += 1;
        }
        assert(moved@.subrange(0, j as int) =~= moved@);
        let due = self.onboarding.due_for_purchase(now);
        let ghost told = self@;
        let mut d: usize = 0;
        assert(due@.subrange(0, 0) =~= Seq::empty());
        while d < due.len()
            invariant
                d <= due@.len(),
                self@ == told.purchase_all(due@.subrange(0, d as int)),
                self@.bridge == started.bridge,
                self@.block_number == now,
                old(self)@.onboarding.advances_to(self@.onboarding, now),
            decreases due@.len() - d,
        {
            assert(due@.subrange(0, d + 1).drop_last() =~= due@.subrange(0, d as int));
            let ghost before = self@.onboarding;
            self.purchased(due[d]);
            proof {
                lemma_advances(old(self)@.onboarding, before, self@.onboarding, now);
            }
            d += 1;
        }
        assert(due@.subrange(0, d as int) =~= due@);
        let ghost settled = self@;
        let checks = self.tenancy.scheduled();
        let mut k: usize = 0;
        while k < checks
            invariant
                k <= checks == settled.tenancy.schedule.len(),
                self@.tenancy.schedule.len() == checks,
                self@ == settled.collect_all(k as nat),
                self@.bridge == started.bridge,
                self@.block_number == now,
                old(self)@.onboarding.advances_to(self@.onboarding, now),
            decreases checks - k,
        {
            self.collected(k);
            k += 1;
        }
        proof {
            lemma_advances(old(self)@.onboarding, self@.onboarding, self@.onboarding, now);
            lemma_progress(old(self)@.onboarding, self@.onboarding, self@.onboarding);
        }
    }

    /// Runs blocks until the height is at least `n`.
    pub fn fast_forward_to(&mut self, n: BlockNumber)
        requires
            old(self)@.wf(),
        ensures
            final(self)@.wf(),
            final(self)@ == old(self)@.fast_forward_to(n),
            final(self)@.block_number == if old(self)@.block_number < n {
                n
            } else {
                old(self)@.block_number
            },
            old(self)@.onboarding.progresses_to(final(self)@.onboarding),
    {
        let ghost mut ran: nat = 0;
        proof {
            lemma_advances(
                old(self)@.onboarding,
                old(self)@.onboarding,
                old(self)@.onboarding,
                0,
            );
            lemma_progress(old(self)@.onboarding, old(self)@.onboarding, old(self)@.onboarding);
        }
        while self.block_number < n
            invariant
                self@.wf(),
                old(self)@.onboarding.progresses_to(self@.onboarding),
                self@ == old(self)@.run_blocks(ran),
                self@.block_number == old(self)@.block_number + ran,
                self@.block_number <= n || ran == 0,
            decreases n - self@.block_number,
        {
            let ghost before = self@.onboarding;
            self.next_block();
            proof {
                ran = ran + 1;
                lemma_progress(old(self)@.onboarding, before, self@.onboarding);
            }
        }
    }
}

/// A purchase is carried out as a whole or not at all. Where it is carried
/// out, the asset was finalised and due and had no custodial account; it is
/// purchased and held by its custodial account; the supply is minted; each
/// contributor of the funds earmarked holds the supply times its contribution
/// over the total, rounded down, the owners being those who hold anything, and
/// together they hold no more than the supply; the seller is paid the amount
/// earmarked out of the pool; and nothing is earmarked for the asset any more.
pub proof fn lemma_purchase_is_whole(before: RuntimeView, asset: AssetKey)
    ensures
        ({
            let after = before.purchased(asset);
            let key = asset.index();
            ||| after == before
            ||| {
                &&& before.onboarding.assets.contains_key(key)
                &&& before.onboarding.assets[key].status == AssetStatus::FINALISED
                &&& before.onboarding.assets[key].due(
                    before.onboarding.config,
                    before.block_number,
                ) == Some(Step::FinalisedElapsed)
                &&& !before.shares.accounts.contains_key(key)
                &&& before.fund.reservations.contains_key(key)
                &&& after.onboarding.assets[key].status == AssetStatus::PURCHASED
                &&& after.onboarding.assets[key].owner == virtual_account_of(asset)
                &&& after.shares.accounts[key].virtual_account == virtual_account_of(asset)
                &&& after.shares.accounts[key].supply == TOKEN_SUPPLY
                &&& after.shares.accounts[key].owners == allot(
                    TOKEN_SUPPLY,
                    before.fund.reservations[key].contributions,
                    total_of(before.fund.reservations[key].contributions),
                )
                &&& total_of(after.shares.accounts[key].owners) <= TOKEN_SUPPLY
                &&& before.balances.unreserve(
                    before.fund.config.fund_account,
                    before.fund.reservations[key].amount,
                ) matches Ok(freed) && freed.transfer(
                    before.fund.config.fund_account,
                    before.onboarding.assets[key].seller,
                    before.fund.reservations[key].amount,
                    crate::currency::ExistenceRequirement::AllowDeath,
                ) == Ok::<BalancesView, crate::currency::Error>(after.balances)
                &&& !after.fund.reservations.contains_key(key)
            }
        }),
{
    let after = before.purchased(asset);
    let key = asset.index();
    if after != before {
        let contributions = before.fund.reservations[key].contributions;
        crate::share_distributor::lemma_allot_within_supply(TOKEN_SUPPLY, contributions);
    }
}

/// A purchase, carried out or not, leaves every other asset as it is: its
/// record, its custodial account and owners, and the funds earmarked for it.
pub proof fn lemma_purchase_leaves_others(before: RuntimeView, asset: AssetKey, other: AssetKey)
    requires
        other != asset,
    ensures
        ({
            let after = before.purchased(asset);
            let key = other.index();
            &&& after.onboarding.assets.contains_key(key) == before.onboarding.assets.contains_key(
                key,
            )
            &&& before.onboarding.assets.contains_key(key) ==> after.onboarding.assets[key]
                == before.onboarding.assets[key]
            &&& after.shares.accounts.contains_key(key) == before.shares.accounts.contains_key(key)
            &&& before.shares.accounts.contains_key(key) ==> after.shares.accounts[key]
                == before.shares.accounts[key]
            &&& after.fund.reservations.contains_key(key) == before.fund.reservations.contains_key(
                key,
            )
            &&& before.fund.reservations.contains_key(key) ==> after.fund.reservations[key]
                == before.fund.reservations[key]
            &&& after.roles == before.roles
            &&& after.tenancy == before.tenancy
            &&& after.bridge == before.bridge
        }),
{
    crate::types::lemma_index_injective(asset, other);
}

} // verus!
