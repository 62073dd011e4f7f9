//! The registry of roles: who is an investor, a tenant, a seller, a servicer,
//! a notary or a representative, and who waits for such a role to be granted.
//!
//! An account holds one role at most. Investors and tenants get their role at
//! once; sellers, servicers and notaries wait for the administrator; a
//! representative waits for the owners of an asset to elect it, and may be
//! elected again for further assets.

pub mod weights;

use crate::types::{AccountId, Balance, BlockNumber};
use std::collections::HashMap;
use vstd::prelude::*;

verus! {

broadcast use vstd::std_specs::hash::group_hash_axioms;

/// The roles that an account can ask for.
#[allow(non_camel_case_types)]
#[derive(Clone, Copy, PartialEq, Eq, Structural, Debug)]
pub enum Accounts {
    INVESTOR,
    SELLER,
    TENANT,
    SERVICER,
    NOTARY,
    REPRESENTATIVE,
}

impl Accounts {
    /// Whether the administrator has to grant the role.
    pub open spec fn spec_needs_approval(&self) -> bool {
        *self == Accounts::SELLER || *self == Accounts::SERVICER || *self == Accounts::NOTARY
    }

    /// Whether the administrator has to grant the role.
    #[verifier::when_used_as_spec(spec_needs_approval)]
    pub fn needs_approval(&self) -> (b: bool)
        ensures
            b == self.spec_needs_approval(),
    {
        match self {
            Accounts::SELLER => true,
            Accounts::SERVICER => true,
            Accounts::NOTARY => true,
            _ => false,
        }
    }
}

/// What the registry is set up with.
#[derive(Clone, Copy, PartialEq, Eq, Structural, Debug)]
pub struct Config {
    /// The largest number of members that the registry admits.
    pub max_members: u32,
}

/// What an observer learns of a change in the registry: the block, and the
/// account concerned.
#[derive(Clone, Copy, PartialEq, Eq, Structural, Debug)]
pub enum Event {
    /// Investor role successfully attributed
    InvestorCreated(BlockNumber, AccountId),
    /// Tenant role successfully attributed
    TenantCreated(BlockNumber, AccountId),
    /// Seller role successfully attributed
    SellerCreated(BlockNumber, AccountId),
    /// Servicer role successfully attributed
    ServicerCreated(BlockNumber, AccountId),
    /// Notary role successfully attributed
    NotaryCreated(BlockNumber, AccountId),
    /// Request for new role accepted
    AccountCreationApproved(BlockNumber, AccountId),
    /// Request for new role rejected
    AccountCreationRejected(BlockNumber, AccountId),
    /// Seller role request rejected
    SellerAccountCreationRejected(BlockNumber, AccountId),
    /// Servicer role request rejected
    ServicerAccountCreationRejected(BlockNumber, AccountId),
    /// Notary role request rejected
    NotaryAccountCreationRejected(BlockNumber, AccountId),
    /// Role request added to the role approval waiting list
    CreationRequestCreated(BlockNumber, AccountId),
}

/// Why the registry refused an action.
#[derive(Clone, Copy, PartialEq, Eq, Structural, Debug)]
pub enum Error {
    NoneValue,
    /// The request is already recorded and cannot be recorded again.
    InitializationError,
    StorageOverflow,
    /// One role is allowed
    OneRoleAllowed,
    /// Invalid operation
    InvalidOperation,
    /// Only the administrator may do this
    RequireSudo,
    /// Account is not in waiting list
    NotInWaitingList,
    /// Account already in the waiting list
    AlreadyWaiting,
    /// Maximum limit for number of members exceeded
    TotalMembersExceeded,
    /// Action reserved to servicers
    OnlyForServicers,
    /// Cannot do the approval or rejection
    UnAuthorized,
}

/// A representative of the owners of one or more assets.
#[derive(Clone, Debug)]
pub struct Representative {
    pub account_id: AccountId,
    /// The block at which the representative was first elected.
    pub age: BlockNumber,
    pub activated: bool,
    /// The custodial accounts of the assets that the representative stands
    /// for, one entry per election won.
    pub assets_accounts: Vec<AccountId>,
    /// The rank of the representative among those elected.
    pub index: u32,
}

/// The mathematical content of a [`Representative`].
pub struct RepresentativeView {
    pub account_id: AccountId,
    pub age: BlockNumber,
    pub activated: bool,
    pub assets_accounts: Seq<AccountId>,
    pub index: u32,
}

impl View for Representative {
    type V = RepresentativeView;

    open spec fn view(&self) -> RepresentativeView {
        RepresentativeView {
            account_id: self.account_id,
            age: self.age,
            activated: self.activated,
            assets_accounts: self.assets_accounts@,
            index: self.index,
        }
    }
}

/// A registered tenant.
#[derive(Clone, Copy, PartialEq, Eq, Structural, Debug)]
pub struct Tenant {
    pub account_id: AccountId,
    /// The block at which the tenant registered.
    pub age: BlockNumber,
    /// The rent owed per period, once the tenant has an asset.
    pub rent: Balance,
    /// The custodial account of the asset that the tenant rents, if any.
    pub asset_account: Option<AccountId>,
    /// The block at which the tenancy began.
    pub contract_start: BlockNumber,
}

impl Tenant {
    /// A tenant that registered at `now` and rents nothing yet.
    pub open spec fn spec_new(account_id: AccountId, now: BlockNumber) -> Tenant {
        Tenant { account_id, age: now, rent: 0, asset_account: None, contract_start: now }
    }

    /// A tenant that registered at `now` and rents nothing yet.
    #[verifier::when_used_as_spec(spec_new)]
    pub fn new(account_id: AccountId, now: BlockNumber) -> (t: Tenant)
        ensures
            t == Tenant::spec_new(account_id, now),
    {
        Tenant { account_id, age: now, rent: 0, asset_account: None, contract_start: now }
    }
}

/// The number of representatives before any is elected.
#[allow(non_snake_case)]
pub fn InitRepMembers() -> (n: u32)
    ensures
        n == 0,
{
    0
}

/// The mathematical content of the registry.
pub struct PalletView {
    pub max_members: u32,
    /// The administrator, if there is one.
    pub sudo: Option<AccountId>,
    /// The role that each member holds.
    pub roles: Map<AccountId, Accounts>,
    /// The role that each waiting account asked the administrator for.
    pub requested: Map<AccountId, Accounts>,
    /// The candidates that wait for an election, with the block of their request.
    pub pending_representatives: Map<AccountId, BlockNumber>,
    pub representatives: Map<AccountId, RepresentativeView>,
    pub tenants: Map<AccountId, Tenant>,
    pub total_members: u32,
    pub rep_number: u32,
}

impl PalletView {
    /// The registry before anybody joined.
    pub open spec fn init(config: Config, sudo: Option<AccountId>) -> PalletView {
        PalletView {
            max_members: config.max_members,
            sudo,
            roles: Map::empty(),
            requested: Map::empty(),
            pending_representatives: Map::empty(),
            representatives: Map::empty(),
            tenants: Map::empty(),
            total_members: 0,
            rep_number: 0,
        }
    }

    /// Whether `who` holds the role `kind`.
    pub open spec fn has_role(self, who: AccountId, kind: Accounts) -> bool {
        self.roles.contains_key(who) && self.roles[who] == kind
    }

    /// Whether `account` may ask for `account_type`: it holds no role yet (a
    /// representative may stand again), and the registry is not full.
    pub open spec fn check_account_role(self, account: AccountId, account_type: Accounts) -> Result<
        (),
        Error,
    > {
        if self.roles.contains_key(account) && !(self.roles[account] == Accounts::REPRESENTATIVE
            && account_type == Accounts::REPRESENTATIVE) {
            Err(Error::OneRoleAllowed)
        } else if self.total_members >= self.max_members {
            Err(Error::TotalMembersExceeded)
        } else {
            Ok(())
        }
    }

    /// The registry with one member more.
    pub open spec fn with_member(self, account: AccountId, role: Accounts) -> PalletView {
        PalletView {
            roles: self.roles.insert(account, role),
            total_members: (self.total_members + 1) as u32,
            ..self
        }
    }

    /// What [`Pallet::set_role`] does.
    pub open spec fn set_role(
        self,
        caller: AccountId,
        account: AccountId,
        account_type: Accounts,
        now: BlockNumber,
    ) -> Result<(PalletView, Event), Error> {
        if caller != account && !self.has_role(caller, Accounts::SERVICER) {
            Err(Error::OnlyForServicers)
        } else if self.check_account_role(account, account_type) is Err {
            Err(self.check_account_role(account, account_type)->Err_0)
        } else {
            match account_type {
                Accounts::INVESTOR => Ok(
                    (
                        self.with_member(account, Accounts::INVESTOR),
                        Event::InvestorCreated(now, account),
                    ),
                ),
                Accounts::TENANT => Ok(
                    (
                        PalletView {
                            tenants: self.tenants.insert(account, Tenant::new(account, now)),
                            ..self.with_member(account, Accounts::TENANT)
                        },
                        Event::TenantCreated(now, account),
                    ),
                ),
                Accounts::REPRESENTATIVE => if self.pending_representatives.contains_key(account) {
                    Err(Error::InitializationError)
                } else {
                    Ok(
                        (
                            PalletView {
                                pending_representatives: self.pending_representatives.insert(
                                    account,
                                    now,
                                ),
                                total_members: (self.total_members + 1) as u32,
                                ..self
                            },
                            Event::CreationRequestCreated(now, account),
                        ),
                    )
                },
                _ => if self.requested.contains_key(account) {
                    Err(Error::AlreadyWaiting)
                } else {
                    Ok(
                        (
                            PalletView {
                                requested: self.requested.insert(account, account_type),
                                ..self
                            },
                            Event::CreationRequestCreated(now, account),
                        ),
                    )
                },
            }
        }
    }

    /// Whether `sender` may grant or refuse the request of `account`.
    pub open spec fn check_verdict(self, sender: AccountId, account: AccountId) -> Result<
        (),
        Error,
    > {
        if self.sudo != Some(sender) {
            Err(Error::RequireSudo)
        } else if !self.requested.contains_key(account) {
            Err(Error::NotInWaitingList)
        } else if self.requested[account] == Accounts::REPRESENTATIVE {
            Err(Error::UnAuthorized)
        } else {
            Ok(())
        }
    }

    /// What [`Pallet::account_approval`] does.
    pub open spec fn account_approval(
        self,
        sender: AccountId,
        account: AccountId,
        now: BlockNumber,
    ) -> Result<(PalletView, Event), Error> {
        if self.check_verdict(sender, account) is Err {
            Err(self.check_verdict(sender, account)->Err_0)
        } else if self.total_members >= self.max_members {
            Err(Error::TotalMembersExceeded)
        } else {
            Ok(
                (
                    PalletView {
                        requested: self.requested.remove(account),
                        ..self.with_member(account, self.requested[account])
                    },
                    Event::AccountCreationApproved(now, account),
                ),
            )
        }
    }

    /// What [`Pallet::account_rejection`] does.
    pub open spec fn account_rejection(
        self,
        sender: AccountId,
        account: AccountId,
        now: BlockNumber,
    ) -> Result<(PalletView, Event), Error> {
        if self.check_verdict(sender, account) is Err {
            Err(self.check_verdict(sender, account)->Err_0)
        } else {
            Ok(
                (
                    PalletView { requested: self.requested.remove(account), ..self },
                    Event::AccountCreationRejected(now, account),
                ),
            )
        }
    }

    /// The registry after the administrator `sender` gave up the office: no
    /// longer a servicer.
    pub open spec fn without_servicer(self, sender: AccountId) -> PalletView {
        if self.has_role(sender, Accounts::SERVICER) {
            PalletView {
                roles: self.roles.remove(sender),
                total_members: if self.total_members > 0 {
                    (self.total_members - 1) as u32
                } else {
                    0
                },
                ..self
            }
        } else {
            self
        }
    }

    /// What [`Pallet::set_manager`] does.
    pub open spec fn set_manager(self, sender: AccountId, new: AccountId) -> Result<
        PalletView,
        Error,
    > {
        if self.sudo != Some(sender) {
            Err(Error::RequireSudo)
        } else {
            let left = self.without_servicer(sender);
            let joined = if !left.roles.contains_key(new) && left.total_members < u32::MAX {
                PalletView {
                    requested: left.requested.remove(new),
                    ..left.with_member(new, Accounts::SERVICER)
                }
            } else {
                left
            };
            Ok(PalletView { sudo: Some(new), ..joined })
        }
    }

    /// What [`Pallet::approve_representative`] does: `who`, a waiting candidate,
    /// becomes the representative of the asset held by `asset_account`.
    pub open spec fn approve_representative(
        self,
        asset_account: AccountId,
        who: AccountId,
        now: BlockNumber,
    ) -> Result<PalletView, Error> {
        if !self.pending_representatives.contains_key(who) {
            Err(Error::NotInWaitingList)
        } else if self.roles.contains_key(who) && self.roles[who] != Accounts::REPRESENTATIVE {
            Err(Error::OneRoleAllowed)
        } else if self.representatives.contains_key(who) {
            let before = self.representatives[who];
            Ok(
                PalletView {
                    pending_representatives: self.pending_representatives.remove(who),
                    representatives: self.representatives.insert(
                        who,
                        RepresentativeView {
                            activated: true,
                            assets_accounts: before.assets_accounts.push(asset_account),
                            ..before
                        },
                    ),
                    roles: self.roles.insert(who, Accounts::REPRESENTATIVE),
                    ..self
                },
            )
        } else if self.rep_number == u32::MAX {
            Err(Error::StorageOverflow)
        } else {
            Ok(
                PalletView {
                    pending_representatives: self.pending_representatives.remove(who),
                    representatives: self.representatives.insert(
                        who,
                        RepresentativeView {
                            account_id: who,
                            age: now,
                            activated: true,
                            assets_accounts: seq![asset_account],
                            index: self.rep_number,
                        },
                    ),
                    roles: self.roles.insert(who, Accounts::REPRESENTATIVE),
                    rep_number: (self.rep_number + 1) as u32,
                    ..self
                },
            )
        }
    }

    /// What [`Pallet::link_tenant`] does: the registered tenant `who` rents the
    /// asset held by `asset_account` from `now` on.
    pub open spec fn link_tenant(
        self,
        who: AccountId,
        asset_account: AccountId,
        rent: Balance,
        now: BlockNumber,
    ) -> Result<PalletView, Error> {
        if !self.tenants.contains_key(who) {
            Err(Error::NoneValue)
        } else if self.tenants[who].asset_account is Some {
            Err(Error::InvalidOperation)
        } else {
            Ok(
                PalletView {
                    tenants: self.tenants.insert(
                        who,
                        Tenant {
                            rent,
                            asset_account: Some(asset_account),
                            contract_start: now,
                            ..self.tenants[who]
                        },
                    ),
                    ..self
                },
            )
        }
    }
}

impl PalletView {
    /// The registry in which `who`, if it holds no role and the counters allow
    /// it, is a representative without an asset, elected at block 0.
    pub open spec fn with_initial_representative(self, who: AccountId) -> PalletView {
        if self.roles.contains_key(who) || self.total_members == u32::MAX || self.rep_number
            == u32::MAX {
            self
        } else {
            PalletView {
                representatives: self.representatives.insert(
                    who,
                    RepresentativeView {
                        account_id: who,
                        age: 0,
                        activated: true,
                        assets_accounts: Seq::empty(),
                        index: self.rep_number,
                    },
                ),
                rep_number: (self.rep_number + 1) as u32,
                ..self.with_member(who, Accounts::REPRESENTATIVE)
            }
        }
    }

    /// The registry after each of `reps` in turn was made an initial
    /// representative.
    pub open spec fn init_representatives(self, reps: Seq<AccountId>) -> PalletView
        decreases reps.len(),
    {
        if reps.len() == 0 {
            self
        } else {
            self.init_representatives(reps.drop_last()).with_initial_representative(reps.last())
        }
    }
}

/// What the registry holds before the first block.
#[derive(Clone, Debug)]
pub struct GenesisConfig {
    /// The account that takes the administration over from the first
    /// administrator.
    pub new_admin: Option<AccountId>,
    /// The representatives that need no election.
    pub representatives: Vec<AccountId>,
}

impl Default for GenesisConfig {
    fn default() -> (g: GenesisConfig)
        ensures
            g.new_admin is None,
            g.representatives@.len() == 0,
    {
        GenesisConfig { new_admin: None, representatives: Vec::new() }
    }
}

impl GenesisConfig {
    /// The registry that [`GenesisConfig::build`] makes.
    pub open spec fn spec_build(&self, config: Config, sudo: Option<AccountId>) -> PalletView {
        let start = PalletView::init(config, sudo);
        let managed = match self.new_admin {
            Some(admin) => match start.set_manager(admin, admin) {
                Ok(after) => after,
                Err(_) => start,
            },
            None => start,
        };
        managed.init_representatives(self.representatives@)
    }

    /// Builds the registry: `sudo` administers it; the new administrator, if
    /// it is `sudo` itself, is made a servicer; each listed representative is
    /// in office without an election.
    pub fn build(&self, config: Config, sudo: Option<AccountId>) -> (p: Pallet)
        ensures
            p@ == self.spec_build(config, sudo),
    {
        let mut p = Pallet::new(config, sudo);
        match self.new_admin {
            Some(admin) => {
                let _ = p.set_manager(admin, admin);
            },
            None => {},
        }
        let ghost managed = p@;
        let mut i: usize = 0;
        assert(self.representatives@.subrange(0, 0) =~= Seq::empty());
        while i < self.representatives.len()
            invariant
                i <= self.representatives@.len(),
                p@ == managed.init_representatives(self.representatives@.subrange(0, i as int)),
            decreases self.representatives@.len() - i,
        {
            let ghost done = self.representatives@.subrange(0, i as int);
            let ghost next = self.representatives@.subrange(0, i + 1);
            assert(next.drop_last() =~= done);
            assert(next.last() == self.representatives@[i as int]);
            p.init_representative(self.representatives[i]);
            i += 1;
        }
        assert(self.representatives@.subrange(0, i as int) =~= self.representatives@);
        p
    }
}

/// The registry of roles.
pub struct Pallet {
    max_members: u32,
    sudo: Option<AccountId>,
    roles: HashMap<AccountId, Accounts>,
    requested: HashMap<AccountId, Accounts>,
    pending_representatives: HashMap<AccountId, BlockNumber>,
    representatives: HashMap<AccountId, Representative>,
    tenants: HashMap<AccountId, Tenant>,
    total_members: u32,
    rep_number: u32,
}

impl View for Pallet {
    type V = PalletView;

    closed spec fn view(&self) -> PalletView {
        PalletView {
            max_members: self.max_members,
            sudo: self.sudo,
            roles: self.roles@,
            requested: self.requested@,
            pending_representatives: self.pending_representatives@,
            representatives: Map::new(
                |k: AccountId| self.representatives@.contains_key(k),
                |k: AccountId| self.representatives@[k]@,
            ),
            tenants: self.tenants@,
            total_members: self.total_members,
            rep_number: self.rep_number,
        }
    }
}

impl Pallet {
    /// A registry without members, administered by `sudo`.
    pub fn new(config: Config, sudo: Option<AccountId>) -> (p: Pallet)
        ensures
            p@ == PalletView::init(config, sudo),
    {
        let p = Pallet {
            max_members: config.max_members,
            sudo,
            roles: HashMap::new(),
            requested: HashMap::new(),
            pending_representatives: HashMap::new(),
            representatives: HashMap::new(),
            tenants: HashMap::new(),
            total_members: 0,
            rep_number: 0,
        };
        assert(p@.representatives =~= Map::empty());
        p
    }

    /// The administrator.
    pub fn key(&self) -> (k: Option<AccountId>)
        ensures
            k == self@.sudo,
    {
        self.sudo
    }

    /// The number of members.
    pub fn total_members(&self) -> (n: u32)
        ensures
            n == self@.total_members,
    {
        self.total_members
    }

    /// The number of representatives elected so far.
    pub fn rep_num(&self) -> (n: u32)
        ensures
            n == self@.rep_number,
    {
        self.rep_number
    }

    /// The role that `who` holds.
    pub fn get_roles(&self, who: AccountId) -> (role: Option<Accounts>)
        ensures
            role == if self@.roles.contains_key(who) {
                Some(self@.roles[who])
            } else {
                None
            },
    {
        match self.roles.get(&who) {
            Some(r) => Some(*r),
            None => None,
        }
    }

    /// Whether `who` holds the role `kind`.
    pub fn has_role(&self, who: AccountId, kind: Accounts) -> (b: bool)
        ensures
            b == self@.has_role(who, kind),
    {
        match self.roles.get(&who) {
            Some(r) => *r == kind,
            None => false,
        }
    }

    /// The role that `who` waits for.
    pub fn get_requested_role(&self, who: AccountId) -> (role: Option<Accounts>)
        ensures
            role == if self@.requested.contains_key(who) {
                Some(self@.requested[who])
            } else {
                None
            },
    {
        match self.requested.get(&who) {
            Some(r) => Some(*r),
            None => None,
        }
    }

    /// The block at which `who` asked to stand for election, while it waits.
    pub fn get_pending_representatives(&self, who: AccountId) -> (since: Option<BlockNumber>)
        ensures
            since == if self@.pending_representatives.contains_key(who) {
                Some(self@.pending_representatives[who])
            } else {
                None
            },
    {
        match self.pending_representatives.get(&who) {
            Some(r) => Some(*r),
            None => None,
        }
    }

    /// The record of the representative `who`.
    pub fn reps(&self, who: AccountId) -> (rep: Option<Representative>)
        ensures
            match rep {
                Some(r) => self@.representatives.contains_key(who) && r@
                    == self@.representatives[who],
                None => !self@.representatives.contains_key(who),
            },
    {
        match self.representatives.get(&who) {
            Some(r) => Some(
                Representative {
                    account_id: r.account_id,
                    age: r.age,
                    activated: r.activated,
                    assets_accounts: copy_accounts(&r.assets_accounts),
                    index: r.index,
                },
            ),
            None => None,
        }
    }

    /// Whether `who` is the representative of the asset held by `asset_account`.
    pub fn represents(&self, who: AccountId, asset_account: AccountId) -> (b: bool)
        ensures
            b == (self@.representatives.contains_key(who)
                && self@.representatives[who].assets_accounts.contains(asset_account)),
    {
        match self.representatives.get(&who) {
            Some(r) => contains_account(&r.assets_accounts, asset_account),
            None => false,
        }
    }

    /// The record of the tenant `who`.
    pub fn tenants(&self, who: AccountId) -> (tenant: Option<Tenant>)
        ensures
            tenant == if self@.tenants.contains_key(who) {
                Some(self@.tenants[who])
            } else {
                None
            },
    {
        match self.tenants.get(&who) {
            Some(t) => Some(*t),
            None => None,
        }
    }

    fn check_account_role(&self, account: AccountId, account_type: Accounts) -> (res: Result<
        (),
        Error,
    >)
        ensures
            res == self@.check_account_role(account, account_type),
    {
        match self.roles.get(&account) {
            Some(held) => {
                if !(*held == Accounts::REPRESENTATIVE && account_type
                    == Accounts::REPRESENTATIVE) {
                    return Err(Error::OneRoleAllowed);
                }
            },
            None => {},
        }
        if self.total_members >= self.max_members {
            return Err(Error::TotalMembersExceeded);
        }
        Ok(())
    }

    fn add_member(&mut self, account: AccountId, role: Accounts)
        requires
            old(self)@.total_members < u32::MAX,
        ensures
            final(self)@ == old(self)@.with_member(account, role),
    {
        self.roles.insert(account, role);
        self.total_members = self.total_members + 1;
        assert(self@.representatives =~= old(self)@.representatives);
    }

    fn init_representative(&mut self, who: AccountId)
        ensures
            final(self)@ == old(self)@.with_initial_representative(who),
    {
        if self.roles.contains_key(&who) || self.total_members == u32::MAX || self.rep_number
            == u32::MAX {
            return ;
        }
        self.add_member(who, Accounts::REPRESENTATIVE);
        let record = Representative {
            account_id: who,
            age: 0,
            activated: true,
            assets_accounts: Vec::new(),
            index: self.rep_number,
        };
        self.representatives.insert(who, record);
        self.rep_number = self.rep_number + 1;
        assert(self@.representatives =~= old(self)@.with_initial_representative(
            who,
        ).representatives);
    }

    /// Gives `account` the role `account_type`, or files its request for it.
    ///
    /// `caller` acts for itself, or is a servicer who acts for `account`.
    /// An investor or a tenant is a member at once. A seller, a servicer or a
    /// notary waits for the administrator, and cannot ask twice. A candidate
    /// representative waits for an election.
    pub fn set_role(
        &mut self,
        caller: AccountId,
        account: AccountId,
        account_type: Accounts,
        now: BlockNumber,
    ) -> (res: Result<Event, Error>)
        ensures
            match old(self)@.set_role(caller, account, account_type, now) {
                Ok((after, event)) => res == Ok::<Event, Error>(event) && final(self)@ == after,
                Err(e) => res == Err::<Event, Error>(e) && final(self)@ == old(self)@,
            },
    {
        if caller != account && !self.has_role(caller, Accounts::SERVICER) {
            return Err(Error::OnlyForServicers);
        }
        match self.check_account_role(account, account_type) {
            Err(e) => {
                return Err(e);
            },
            Ok(_) => {},
        }
        match account_type {
            Accounts::INVESTOR => {
                self.add_member(account, Accounts::INVESTOR);
                Ok(Event::InvestorCreated(now, account))
            },
            Accounts::TENANT => {
                self.add_member(account, Accounts::TENANT);
                self.tenants.insert(account, Tenant::new(account, now));
                assert(self@.representatives =~= old(self)@.representatives);
                Ok(Event::TenantCreated(now, account))
            },
            Accounts::REPRESENTATIVE => {
                if self.pending_representatives.contains_key(&account) {
                    return Err(Error::InitializationError);
                }
                self.pending_representatives.insert(account, now);
                self.total_members = self.total_members + 1;
                assert(self@.representatives =~= old(self)@.representatives);
                Ok(Event::CreationRequestCreated(now, account))
            },
            _ => {
                if self.requested.contains_key(&account) {
                    return Err(Error::AlreadyWaiting);
                }
                self.requested.insert(account, account_type);
                assert(self@.representatives =~= old(self)@.representatives);
                Ok(Event::CreationRequestCreated(now, account))
            },
        }
    }

    fn check_verdict(&self, sender: AccountId, account: AccountId) -> (res: Result<(), Error>)
        ensures
            res == self@.check_verdict(sender, account),
    {
        if !is_key(self.sudo, sender) {
            return Err(Error::RequireSudo);
        }
        match self.requested.get(&account) {
            None => Err(Error::NotInWaitingList),
            Some(role) => {
                if *role == Accounts::REPRESENTATIVE {
                    Err(Error::UnAuthorized)
                } else {
                    Ok(())
                }
            },
        }
    }

    /// Grants the role that `account` waits for. Only the administrator may.
    pub fn account_approval(&mut self, sender: AccountId, account: AccountId, now: BlockNumber) -> (res:
        Result<Event, Error>)
        ensures
            match old(self)@.account_approval(sender, account, now) {
                Ok((after, event)) => res == Ok::<Event, Error>(event) && final(self)@ == after,
                Err(e) => res == Err::<Event, Error>(e) && final(self)@ == old(self)@,
            },
    {
        match self.check_verdict(sender, account) {
            Err(e) => {
                return Err(e);
            },
            Ok(_) => {},
        }
        if self.total_members >= self.max_members {
            return Err(Error::TotalMembersExceeded);
        }
        let role = match self.requested.get(&account) {
            Some(r) => *r,
            None => Accounts::SELLER,
        };
        self.add_member(account, role);
        self.requested.remove(&account);
        assert(self@.representatives =~= old(self)@.representatives);
        Ok(Event::AccountCreationApproved(now, account))
    }

    /// Refuses the role that `account` waits for. Only the administrator may.
    pub fn account_rejection(&mut self, sender: AccountId, account: AccountId, now: BlockNumber) -> (res:
        Result<Event, Error>)
        ensures
            match old(self)@.account_rejection(sender, account, now) {
                Ok((after, event)) => res == Ok::<Event, Error>(event) && final(self)@ == after,
                Err(e) => res == Err::<Event, Error>(e) && final(self)@ == old(self)@,
            },
    {
        match self.check_verdict(sender, account) {
            Err(e) => {
                return Err(e);
            },
            Ok(_) => {},
        }
        self.requested.remove(&account);
        assert(self@.representatives =~= old(self)@.representatives);
        Ok(Event::AccountCreationRejected(now, account))
    }

    /// Hands the administration over from `sender` to `new`.
    ///
    /// `sender` stops being a servicer; `new` becomes one unless it already
    /// holds a role.
    pub fn set_manager(&mut self, sender: AccountId, new: AccountId) -> (res: Result<(), Error>)
        ensures
            match old(self)@.set_manager(sender, new) {
                Ok(after) => res is Ok && final(self)@ == after,
                Err(e) => res == Err::<(), Error>(e) && final(self)@ == old(self)@,
            },
    {
        if !is_key(self.sudo, sender) {
            return Err(Error::RequireSudo);
        }
        if self.has_role(sender, Accounts::SERVICER) {
            self.roles.remove(&sender);
            if self.total_members > 0 {
                self.total_members = self.total_members - 1;
            }
            assert(self@.representatives =~= old(self)@.representatives);
        }
        assert(self@ == old(self)@.without_servicer(sender));
        if !self.roles.contains_key(&new) && self.total_members < u32::MAX {
            self.add_member(new, Accounts::SERVICER);
            self.requested.remove(&new);
            assert(self@.representatives =~= old(self)@.representatives);
        }
        self.sudo = Some(new);
        assert(self@.representatives =~= old(self)@.representatives);
        Ok(())
    }

    /// Makes the waiting candidate `who` the representative of the asset held
    /// by `asset_account`.
    ///
    /// A representative that is elected again keeps its record and gets one
    /// more asset account.
    pub fn approve_representative(
        &mut self,
        asset_account: AccountId,
        who: AccountId,
        now: BlockNumber,
    ) -> (res: Result<(), Error>)
        ensures
            match old(self)@.approve_representative(asset_account, who, now) {
                Ok(after) => res is Ok && final(self)@ == after,
                Err(e) => res == Err::<(), Error>(e) && final(self)@ == old(self)@,
            },
    {
        if !self.pending_representatives.contains_key(&who) {
            return Err(Error::NotInWaitingList);
        }
        match self.roles.get(&who) {
            Some(held) => {
                if *held != Accounts::REPRESENTATIVE {
                    return Err(Error::OneRoleAllowed);
                }
            },
            None => {},
        }
        let known = self.representatives.contains_key(&who);
        if !known && self.rep_number == u32::MAX {
            return Err(Error::StorageOverflow);
        }
        let record = match self.representatives.remove(&who) {
            Some(before) => {
                let mut accounts = before.assets_accounts;
                accounts.push(asset_account);
                Representative {
                    account_id: before.account_id,
                    age: before.age,
                    activated: true,
                    assets_accounts: accounts,
                    index: before.index,
                }
            },
            None => {
                let mut accounts: Vec<AccountId> = Vec::new();
                accounts.push(asset_account);
                let index = self.rep_number;
                self.rep_number = self.rep_number + 1;
                Representative {
                    account_id: who,
                    age: now,
                    activated: true,
                    assets_accounts: accounts,
                    index,
                }
            },
        };
        self.representatives.insert(who, record);
        self.pending_representatives.remove(&who);
        self.roles.insert(who, Accounts::REPRESENTATIVE);
        proof {
            let after = old(self)@.approve_representative(asset_account, who, now)->Ok_0;
            assert(self@.representatives =~= after.representatives);
        }
        Ok(())
    }

    /// Records that the registered tenant `who` rents the asset held by
    /// `asset_account` for `rent` per period, from `now` on.
    pub fn link_tenant(
        &mut self,
        who: AccountId,
        asset_account: AccountId,
        rent: Balance,
        now: BlockNumber,
    ) -> (res: Result<(), Error>)
        ensures
            match old(self)@.link_tenant(who, asset_account, rent, now) {
                Ok(after) => res is Ok && final(self)@ == after,
                Err(e) => res == Err::<(), Error>(e) && final(self)@ == old(self)@,
            },
    {
        let before = match self.tenants.get(&who) {
            None => {
                return Err(Error::NoneValue);
            },
            Some(t) => *t,
        };
        if before.asset_account.is_some() {
            return Err(Error::InvalidOperation);
        }
        self.tenants.insert(
            who,
            Tenant {
                account_id: before.account_id,
                age: before.age,
                rent,
                asset_account: Some(asset_account),
                contract_start: now,
            },
        );
        assert(self@.representatives =~= old(self)@.representatives);
        Ok(())
    }
}

fn is_key(sudo: Option<AccountId>, sender: AccountId) -> (b: bool)
    ensures
        b == (sudo == Some(sender)),
{
    match sudo {
        Some(k) => k == sender,
        None => false,
    }
}

/// A copy of a list of accounts.
pub fn copy_accounts(accounts: &Vec<AccountId>) -> (copy: Vec<AccountId>)
    ensures
        copy@ == accounts@,
{
    let mut copy: Vec<AccountId> = Vec::new();
    let mut i: usize = 0;
    while i < accounts.len()
        invariant
            i <= accounts@.len(),
            copy@ == accounts@.subrange(0, i as int),
        decreases accounts@.len() - i,
    {
        copy.push(accounts[i]);
        assert(copy@ =~= accounts@.subrange(0, i + 1));
        i += 1;
    }
    assert(copy@ =~= accounts@);
    copy
}

/// Whether `who` is in a list of accounts.
pub fn contains_account(accounts: &Vec<AccountId>, who: AccountId) -> (found: bool)
    ensures
        found == accounts@.contains(who),
{
    let mut i: usize = 0;
    while i < accounts.len()
        invariant
            i <= accounts@.len(),
            forall|j: int| 0 <= j < i ==> accounts@[j] != who,
        decreases accounts@.len() - i,
    {
        if accounts[i] == who {
            return true;
        }
        i += 1;
    }
    false
}

} // verus!
