//! The deposit that a tenant owes once, the rent that it owes period after
//! period, and the schedule by which the rent collected is handed to the
//! owners.
//!
//! A payment is requested, then paid. The guaranty deposit is paid once and
//! stays paid. The rent is requested again at every check that finds it paid;
//! a check that finds it unpaid leaves it requested, and nothing else is done
//! about it.

use crate::currency::{Balances, BalancesView, ExistenceRequirement};
use crate::identity::{IdentityInfo, IdentityInfoView};
use crate::share_distributor::share_of;
use crate::types::{AccountId, Balance, BlockNumber};
use crate::voting::later;
use std::collections::HashMap;
use vstd::prelude::*;

verus! {

broadcast use vstd::std_specs::hash::group_hash_axioms;

/// What the scheduler is set up with.
#[derive(Clone, Copy, PartialEq, Eq, Structural, Debug)]
pub struct Config {
    /// The number of blocks from one check of the rent to the next.
    pub rent_check: BlockNumber,
    /// The rent of twelve periods, in hundredths of the price of the asset.
    pub yearly_rent_percent: Balance,
    /// The number of rents that make up the guaranty deposit.
    pub guaranty_rents: Balance,
}

/// Why the scheduler refused an action.
#[derive(Clone, Copy, PartialEq, Eq, Structural, Debug)]
pub enum Error {
    /// A field of the identity is too long.
    InvalidIdentity,
    /// The account has a tenancy already.
    AlreadyATenant,
    /// Nothing of the kind is owed by the account.
    NotATenant,
    /// The payment is not requested: it was made already.
    PaymentAlreadyInProcess,
    /// The currency ledger refused.
    Currency(crate::currency::Error),
}

/// Whether a payment is still owed.
#[derive(Clone, Copy, PartialEq, Eq, Structural, Debug)]
pub enum PaymentState {
    PaymentRequested,
    PaymentCompleted,
}

/// A payment that a tenant owes to the custodial account of an asset.
#[derive(Clone, Copy, PartialEq, Eq, Structural, Debug)]
pub struct PaymentObligation {
    pub payer: AccountId,
    pub payee: AccountId,
    pub amount: Balance,
    pub state: PaymentState,
}

/// A check of the rent of `tenant`, due at block `due`.
#[derive(Clone, Copy, PartialEq, Eq, Structural, Debug)]
pub struct ScheduledTask {
    pub due: BlockNumber,
    pub tenant: AccountId,
}

/// What an observer learns of a payment.
#[derive(Clone, Copy, PartialEq, Eq, Structural, Debug)]
pub enum Event {
    /// A guaranty deposit is requested of a tenant.
    GuarantyRequested { tenant: AccountId, asset_account: AccountId, amount: Balance },
    /// A tenant paid its guaranty deposit.
    GuarantyPaid { tenant: AccountId, asset_account: AccountId, amount: Balance },
    /// A tenant paid its rent.
    RentPaid { tenant: AccountId, asset_account: AccountId, amount: Balance },
    /// The rent that a tenant paid was handed to the owners.
    RentDistributed { tenant: AccountId, asset_account: AccountId, amount: Balance },
}

/// The least of `x` and the largest amount.
pub open spec fn capped(x: nat) -> Balance {
    if x > Balance::MAX {
        Balance::MAX
    } else {
        x as Balance
    }
}

/// The rent per period of an asset of price `price`.
pub open spec fn rent_for(price: Balance, config: Config) -> Balance {
    capped(price as nat * config.yearly_rent_percent as nat / 1200)
}

/// The guaranty deposit that goes with the rent `rent`.
pub open spec fn guaranty_for(rent: Balance, config: Config) -> Balance {
    capped(rent as nat * config.guaranty_rents as nat)
}

/// What an owner with `tokens` out of `supply` gets of `amount`. An owner
/// recorded with more tokens than were minted gets nothing.
pub open spec fn rent_share(amount: Balance, tokens: Balance, supply: Balance) -> Balance {
    if supply == 0 || tokens > supply {
        0
    } else {
        share_of(amount, tokens, supply as nat)
    }
}

/// The balances after `from` paid each of `owners` its share of `amount`, one
/// after the other; nothing where the ledger refuses one of the payments.
pub open spec fn distribute_rent(
    balances: BalancesView,
    from: AccountId,
    amount: Balance,
    owners: Seq<(AccountId, Balance)>,
    supply: Balance,
) -> Option<BalancesView>
    decreases owners.len(),
{
    if owners.len() == 0 {
        Some(balances)
    } else {
        match distribute_rent(balances, from, amount, owners.drop_last(), supply) {
            None => None,
            Some(before) => match before.transfer(
                from,
                owners.last().0,
                rent_share(amount, owners.last().1, supply),
                ExistenceRequirement::AllowDeath,
            ) {
                Ok(paid) => Some(paid),
                Err(_) => None,
            },
        }
    }
}

/// The mathematical content of the scheduler.
pub struct TenancyView {
    pub config: Config,
    /// What each account stated of itself.
    pub identities: Map<AccountId, IdentityInfoView>,
    /// The guaranty deposit of each tenant.
    pub guaranties: Map<AccountId, PaymentObligation>,
    /// The rent of each tenant.
    pub rents: Map<AccountId, PaymentObligation>,
    /// The checks to come.
    pub schedule: Seq<ScheduledTask>,
}

impl TenancyView {
    /// The scheduler without tenants.
    pub open spec fn init(config: Config) -> TenancyView {
        TenancyView {
            config,
            identities: Map::empty(),
            guaranties: Map::empty(),
            rents: Map::empty(),
            schedule: Seq::empty(),
        }
    }

    /// What [`Tenancy::open`] does.
    pub open spec fn open(
        self,
        tenant: AccountId,
        asset_account: AccountId,
        price: Balance,
        now: BlockNumber,
    ) -> Result<(TenancyView, Event), Error> {
        if self.guaranties.contains_key(tenant) || self.rents.contains_key(tenant) {
            Err(Error::AlreadyATenant)
        } else {
            let rent = rent_for(price, self.config);
            let guaranty = guaranty_for(rent, self.config);
            Ok(
                (
                    TenancyView {
                        guaranties: self.guaranties.insert(
                            tenant,
                            PaymentObligation {
                                payer: tenant,
                                payee: asset_account,
                                amount: guaranty,
                                state: PaymentState::PaymentRequested,
                            },
                        ),
                        rents: self.rents.insert(
                            tenant,
                            PaymentObligation {
                                payer: tenant,
                                payee: asset_account,
                                amount: rent,
                                state: PaymentState::PaymentRequested,
                            },
                        ),
                        schedule: self.schedule.push(
                            ScheduledTask { due: later(now, self.config.rent_check), tenant },
                        ),
                        ..self
                    },
                    Event::GuarantyRequested { tenant, asset_account, amount: guaranty },
                ),
            )
        }
    }

    /// What [`Tenancy::pay_guaranty_deposit`] does.
    pub open spec fn pay_guaranty_deposit(
        self,
        balances: BalancesView,
        tenant: AccountId,
        asset_account: AccountId,
    ) -> Result<(TenancyView, BalancesView, Event), Error> {
        if !self.guaranties.contains_key(tenant) || self.guaranties[tenant].payee
            != asset_account {
            Err(Error::NotATenant)
        } else if self.guaranties[tenant].state != PaymentState::PaymentRequested {
            Err(Error::PaymentAlreadyInProcess)
        } else {
            let owed = self.guaranties[tenant];
            match balances.transfer(
                tenant,
                owed.payee,
                owed.amount,
                ExistenceRequirement::AllowDeath,
            ) {
                Err(e) => Err(Error::Currency(e)),
                Ok(paid) => Ok(
                    (
                        TenancyView {
                            guaranties: self.guaranties.insert(
                                tenant,
                                PaymentObligation { state: PaymentState::PaymentCompleted, ..owed },
                            ),
                            ..self
                        },
                        paid,
                        Event::GuarantyPaid {
                            tenant,
                            asset_account: owed.payee,
                            amount: owed.amount,
                        },
                    ),
                ),
            }
        }
    }

    /// What [`Tenancy::pay_rent`] does.
    pub open spec fn pay_rent(self, balances: BalancesView, tenant: AccountId) -> Result<
        (TenancyView, BalancesView, Event),
        Error,
    > {
        if !self.rents.contains_key(tenant) {
            Err(Error::NotATenant)
        } else if self.rents[tenant].state != PaymentState::PaymentRequested {
            Err(Error::PaymentAlreadyInProcess)
        } else {
            let owed = self.rents[tenant];
            match balances.transfer(
                tenant,
                owed.payee,
                owed.amount,
                ExistenceRequirement::AllowDeath,
            ) {
                Err(e) => Err(Error::Currency(e)),
                Ok(paid) => Ok(
                    (
                        TenancyView {
                            rents: self.rents.insert(
                                tenant,
                                PaymentObligation { state: PaymentState::PaymentCompleted, ..owed },
                            ),
                            ..self
                        },
                        paid,
                        Event::RentPaid { tenant, asset_account: owed.payee, amount: owed.amount },
                    ),
                ),
            }
        }
    }

    /// Whether the check at position `at` of the schedule finds, at block
    /// `now`, a rent that was paid and is to be handed out.
    pub open spec fn collects(self, at: int, now: BlockNumber) -> bool {
        let task = self.schedule[at];
        task.due <= now && self.rents.contains_key(task.tenant) && self.rents[task.tenant].state
            == PaymentState::PaymentCompleted
    }

    /// The scheduler after the check at position `at` ran at block `now`: a
    /// check that is due is put off by one period, and a rent that it finds
    /// paid is requested again if it was handed to the owners.
    pub open spec fn checked(self, at: int, now: BlockNumber, handed: bool) -> TenancyView {
        let task = self.schedule[at];
        if task.due > now {
            self
        } else {
            TenancyView {
                schedule: self.schedule.update(
                    at,
                    ScheduledTask { due: later(now, self.config.rent_check), ..task },
                ),
                rents: if self.collects(at, now) && handed {
                    self.rents.insert(
                        task.tenant,
                        PaymentObligation {
                            state: PaymentState::PaymentRequested,
                            ..self.rents[task.tenant]
                        },
                    )
                } else {
                    self.rents
                },
                ..self
            }
        }
    }
}

/// The scheduler with its records.
pub struct Tenancy {
    config: Config,
    identities: HashMap<AccountId, IdentityInfo>,
    guaranties: HashMap<AccountId, PaymentObligation>,
    rents: HashMap<AccountId, PaymentObligation>,
    schedule: Vec<ScheduledTask>,
}

impl View for Tenancy {
    type V = TenancyView;

    closed spec fn view(&self) -> TenancyView {
        TenancyView {
            config: self.config,
            identities: Map::new(
                |k: AccountId| self.identities@.contains_key(k),
                |k: AccountId| self.identities@[k]@,
            ),
            guaranties: self.guaranties@,
            rents: self.rents@,
            schedule: self.schedule@,
        }
    }
}

/// The product of `a` and `b` over `d`, or the largest amount where the
/// quotient exceeds it.
pub fn capped_mul_div(a: Balance, b: Balance, d: Balance) -> (q: Balance)
    requires
        d > 0,
    ensures
        q == capped(a as nat * b as nat / d as nat),
{
    proof {
        assert(a as u128 * b as u128 <= u128::MAX) by (nonlinear_arith)
            requires
                a <= u64::MAX,
                b <= u64::MAX,
        ;
    }
    let quotient: u128 = a as u128 * b as u128 / d as u128;
    if quotient > Balance::MAX as u128 {
        Balance::MAX
    } else {
        quotient as Balance
    }
}

/// What an owner with `tokens` out of `supply` gets of `amount`.
pub fn compute_rent_share(amount: Balance, tokens: Balance, supply: Balance) -> (share: Balance)
    ensures
        share == rent_share(amount, tokens, supply),
        share <= amount,
{
    if supply == 0 || tokens > supply {
        0
    } else {
        crate::share_distributor::compute_share(amount, tokens, supply as u128)
    }
}

/// Pays each of `owners` its share of `amount` out of `from`, and says
/// whether it did: where the ledger refuses one of the payments, none is made.
pub fn pay_owners(
    balances: &mut Balances,
    from: AccountId,
    amount: Balance,
    owners: &Vec<(AccountId, Balance)>,
    supply: Balance,
) -> (paid: bool)
    ensures
        match distribute_rent(old(balances)@, from, amount, owners@, supply) {
            Some(after) => paid && final(balances)@ == after,
            None => !paid && final(balances)@ == old(balances)@,
        },
{
    let mut trial = balances.snapshot();
    let mut i: usize = 0;
    assert(owners@.subrange(0, 0) =~= Seq::empty());
    while i < owners.len()
        invariant
            i <= owners@.len(),
            balances@ == old(balances)@,
            distribute_rent(old(balances)@, from, amount, owners@.subrange(0, i as int), supply)
                == Some(trial@),
        decreases owners@.len() - i,
    {
        assert(owners@.subrange(0, i + 1).drop_last() =~= owners@.subrange(0, i as int));
        let (who, tokens) = owners[i];
        let share = compute_rent_share(amount, tokens, supply);
        match trial.transfer(from, who, share, ExistenceRequirement::AllowDeath) {
            Ok(_) => {},
            Err(_) => {
                proof {
                    lemma_rent_refused_stays_refused(
                        old(balances)@,
                        from,
                        amount,
                        owners@,
                        supply,
                        i + 1,
                    );
                }
                return false;
            },
        }
        i += 1;
    }
    assert(owners@.subrange(0, i as int) =~= owners@);
    *balances = trial;
    true
}

/// A rent that cannot be handed to the first of the owners cannot be handed
/// to all of them.
pub proof fn lemma_rent_refused_stays_refused(
    balances: BalancesView,
    from: AccountId,
    amount: Balance,
    owners: Seq<(AccountId, Balance)>,
    supply: Balance,
    n: int,
)
    requires
        0 <= n <= owners.len(),
        distribute_rent(balances, from, amount, owners.subrange(0, n), supply) is None,
    ensures
        distribute_rent(balances, from, amount, owners, supply) is None,
    decreases owners.len() - n,
{
    if n < owners.len() {
        assert(owners.subrange(0, n + 1).drop_last() =~= owners.subrange(0, n));
        lemma_rent_refused_stays_refused(balances, from, amount, owners, supply, n + 1);
    } else {
        assert(owners.subrange(0, n) =~= owners);
    }
}

impl Tenancy {
    /// A scheduler without tenants.
    pub fn new(config: Config) -> (t: Tenancy)
        ensures
            t@ == TenancyView::init(config),
    {
        let t = Tenancy {
            config,
            identities: HashMap::new(),
            guaranties: HashMap::new(),
            rents: HashMap::new(),
            schedule: Vec::new(),
        };
        assert(t@.identities =~= Map::empty());
        t
    }

    /// The guaranty deposit that `tenant` owes to `asset_account`.
    pub fn guaranty(&self, tenant: AccountId, asset_account: AccountId) -> (owed: Option<
        PaymentObligation,
    >)
        ensures
            owed == if self@.guaranties.contains_key(tenant) && self@.guaranties[tenant].payee
                == asset_account {
                Some(self@.guaranties[tenant])
            } else {
                None
            },
    {
        match self.guaranties.get(&tenant) {
            Some(o) => if o.payee == asset_account {
                Some(*o)
            } else {
                None
            },
            None => None,
        }
    }

    /// The rent that `tenant` owes.
    pub fn rent(&self, tenant: AccountId) -> (owed: Option<PaymentObligation>)
        ensures
            owed == if self@.rents.contains_key(tenant) {
                Some(self@.rents[tenant])
            } else {
                None
            },
    {
        match self.rents.get(&tenant) {
            Some(o) => Some(*o),
            None => None,
        }
    }

    /// What the scheduler was set up with.
    pub fn config(&self) -> (c: Config)
        ensures
            c == self@.config,
    {
        self.config
    }

    /// Whether a deposit or a rent is recorded for `who`.
    pub fn is_tenant(&self, who: AccountId) -> (b: bool)
        ensures
            b == (self@.guaranties.contains_key(who) || self@.rents.contains_key(who)),
    {
        self.guaranties.contains_key(&who) || self.rents.contains_key(&who)
    }

    /// The check at position `at` of the schedule.
    pub fn task(&self, at: usize) -> (task: Option<ScheduledTask>)
        ensures
            task == if at < self@.schedule.len() {
                Some(self@.schedule[at as int])
            } else {
                None
            },
    {
        if at < self.schedule.len() {
            Some(self.schedule[at])
        } else {
            None
        }
    }

    /// Whether `who` stated its identity.
    pub fn has_identity(&self, who: AccountId) -> (b: bool)
        ensures
            b == self@.identities.contains_key(who),
    {
        self.identities.contains_key(&who)
    }

    /// The number of checks scheduled.
    pub fn scheduled(&self) -> (n: usize)
        ensures
            n == self@.schedule.len(),
    {
        self.schedule.len()
    }

    /// Records what `who` states of itself, in place of what it stated before.
    ///
    /// Fails with [`Error::InvalidIdentity`] where a field is too long.
    pub fn set_identity(&mut self, who: AccountId, info: IdentityInfo) -> (res: Result<(), Error>)
        ensures
            if info.is_valid() {
                res is Ok && final(self)@ == (TenancyView {
                    identities: old(self)@.identities.insert(who, info@),
                    ..old(self)@
                })
            } else {
                res == Err::<(), Error>(Error::InvalidIdentity) && final(self)@ == old(self)@
            },
    {
        if !info.is_valid() {
            return Err(Error::InvalidIdentity);
        }
        self.identities.insert(who, info);
        assert(self@.identities =~= old(self)@.identities.insert(who, info@));
        Ok(())
    }

    /// Opens the tenancy of `tenant` in the asset held by `asset_account`:
    /// requests the guaranty deposit and the first rent, both computed from
    /// the price of the asset, and schedules the first check of the rent one
    /// period from `now`.
    pub fn open(&mut self, tenant: AccountId, asset_account: AccountId, price: Balance, now: BlockNumber) -> (res:
        Result<Event, Error>)
        ensures
            match old(self)@.open(tenant, asset_account, price, now) {
                Ok((after, event)) => res == Ok::<Event, Error>(event) && final(self)@ == after,
                Err(e) => res == Err::<Event, Error>(e) && final(self)@ == old(self)@,
            },
    {
        if self.guaranties.contains_key(&tenant) || self.rents.contains_key(&tenant) {
            return Err(Error::AlreadyATenant);
        }
        let rent = capped_mul_div(price, self.config.yearly_rent_percent, 1200);
        let guaranty = capped_mul_div(rent, self.config.guaranty_rents, 1);
        self.guaranties.insert(
            tenant,
            PaymentObligation {
                payer: tenant,
                payee: asset_account,
                amount: guaranty,
                state: PaymentState::PaymentRequested,
            },
        );
        self.rents.insert(
            tenant,
            PaymentObligation {
                payer: tenant,
                payee: asset_account,
                amount: rent,
                state: PaymentState::PaymentRequested,
            },
        );
        self.schedule.push(ScheduledTask { due: later(now, self.config.rent_check), tenant });
        assert(self@.identities =~= old(self)@.identities);
        Ok(Event::GuarantyRequested { tenant, asset_account, amount: guaranty })
    }

    /// Pays the guaranty deposit that `tenant` owes to `asset_account`.
    ///
    /// Fails with [`Error::PaymentAlreadyInProcess`] where the deposit is not
    /// requested any more, and where the tenant cannot pay; nothing changes
    /// then.
    pub fn pay_guaranty_deposit(
        &mut self,
        balances: &mut Balances,
        tenant: AccountId,
        asset_account: AccountId,
    ) -> (res: Result<Event, Error>)
        ensures
            match old(self)@.pay_guaranty_deposit(old(balances)@, tenant, asset_account) {
                Ok((after, paid, event)) => res == Ok::<Event, Error>(event) && final(self)@
                    == after && final(balances)@ == paid,
                Err(e) => res == Err::<Event, Error>(e) && final(self)@ == old(self)@ && final(balances)@ == old(balances)@,
            },
    {
        let owed = match self.guaranties.get(&tenant) {
            None => {
                return Err(Error::NotATenant);
            },
            Some(o) => *o,
        };
        if owed.payee != asset_account {
            return Err(Error::NotATenant);
        }
        if owed.state != PaymentState::PaymentRequested {
            return Err(Error::PaymentAlreadyInProcess);
        }
        match balances.transfer(tenant, owed.payee, owed.amount, ExistenceRequirement::AllowDeath) {
            Err(e) => {
                return Err(Error::Currency(e));
            },
            Ok(_) => {},
        }
        self.guaranties.insert(
            tenant,
            PaymentObligation {
                payer: owed.payer,
                payee: owed.payee,
                amount: owed.amount,
                state: PaymentState::PaymentCompleted,
            },
        );
        assert(self@.identities =~= old(self)@.identities);
        Ok(Event::GuarantyPaid { tenant, asset_account: owed.payee, amount: owed.amount })
    }

    /// Pays the rent that `tenant` owes for the current period.
    ///
    /// Fails with [`Error::PaymentAlreadyInProcess`] where the rent of the
    /// period was paid already.
    pub fn pay_rent(&mut self, balances: &mut Balances, tenant: AccountId) -> (res: Result<
        Event,
        Error,
    >)
        ensures
            match old(self)@.pay_rent(old(balances)@, tenant) {
                Ok((after, paid, event)) => res == Ok::<Event, Error>(event) && final(self)@
                    == after && final(balances)@ == paid,
                Err(e) => res == Err::<Event, Error>(e) && final(self)@ == old(self)@ && final(balances)@ == old(balances)@,
            },
    {
        let owed = match self.rents.get(&tenant) {
            None => {
                return Err(Error::NotATenant);
            },
            Some(o) => *o,
        };
        if owed.state != PaymentState::PaymentRequested {
            return Err(Error::PaymentAlreadyInProcess);
        }
        match balances.transfer(tenant, owed.payee, owed.amount, ExistenceRequirement::AllowDeath) {
            Err(e) => {
                return Err(Error::Currency(e));
            },
            Ok(_) => {},
        }
        self.rents.insert(
            tenant,
            PaymentObligation {
                payer: owed.payer,
                payee: owed.payee,
                amount: owed.amount,
                state: PaymentState::PaymentCompleted,
            },
        );
        assert(self@.identities =~= old(self)@.identities);
        Ok(Event::RentPaid { tenant, asset_account: owed.payee, amount: owed.amount })
    }

    /// The rent that the check at position `at` finds paid at block `now`, if
    /// it finds one: the obligation as it stands before the check.
    pub fn collects(&self, at: usize, now: BlockNumber) -> (owed: Option<PaymentObligation>)
        requires
            at < self@.schedule.len(),
        ensures
            owed == if self@.collects(at as int, now) {
                Some(self@.rents[self@.schedule[at as int].tenant])
            } else {
                None
            },
    {
        let task = self.schedule[at];
        if task.due > now {
            return None;
        }
        match self.rents.get(&task.tenant) {
            Some(o) => if o.state == PaymentState::PaymentCompleted {
                Some(*o)
            } else {
                None
            },
            None => None,
        }
    }

    /// Runs the check at position `at` of the schedule at block `now`. `handed`
    /// says whether the rent that the check finds paid was handed to the
    /// owners; if not, it waits for the next check.
    pub fn check(&mut self, at: usize, now: BlockNumber, handed: bool)
        requires
            at < old(self)@.schedule.len(),
        ensures
            final(self)@ == old(self)@.checked(at as int, now, handed),
    {
        let task = self.schedule[at];
        if task.due > now {
            return ;
        }
        let found = self.collects(at, now);
        self.schedule.set(
            at,
            ScheduledTask { due: later(now, self.config.rent_check), tenant: task.tenant },
        );
        match found {
            Some(owed) => {
                if handed {
                    self.rents.insert(
                        task.tenant,
                        PaymentObligation {
                            payer: owed.payer,
                            payee: owed.payee,
                            amount: owed.amount,
                            state: PaymentState::PaymentRequested,
                        },
                    );
                }
            },
            None => {},
        }
        assert(self@.identities =~= old(self)@.identities);
    }
}

/// The guaranty deposit is paid once: after a payment, every further payment
/// is refused, whatever the tenant holds.
pub proof fn lemma_guaranty_is_paid_once(
    tenancy: TenancyView,
    balances: BalancesView,
    later_balances: BalancesView,
    tenant: AccountId,
    asset_account: AccountId,
)
    requires
        tenancy.pay_guaranty_deposit(balances, tenant, asset_account) is Ok,
    ensures
        tenancy.guaranties[tenant].state == PaymentState::PaymentRequested,
        tenancy.pay_guaranty_deposit(balances, tenant, asset_account)->Ok_0.0.guaranties[tenant].state
            == PaymentState::PaymentCompleted,
        tenancy.pay_guaranty_deposit(
            balances,
            tenant,
            asset_account,
        )->Ok_0.0.pay_guaranty_deposit(later_balances, tenant, asset_account) == Err::<
            (TenancyView, BalancesView, Event),
            Error,
        >(Error::PaymentAlreadyInProcess),
{
}

/// A guaranty deposit that is paid stays paid, whatever is done: no tenancy is
/// opened over it, no payment and no check of the rent touches it.
pub proof fn lemma_guaranty_stays_paid(
    tenancy: TenancyView,
    balances: BalancesView,
    tenant: AccountId,
    other: AccountId,
    account: AccountId,
    price: Balance,
    at: int,
    now: BlockNumber,
)
    requires
        tenancy.guaranties.contains_key(tenant),
        tenancy.guaranties[tenant].state == PaymentState::PaymentCompleted,
        0 <= at < tenancy.schedule.len(),
    ensures
        forall|handed: bool|
            (#[trigger] tenancy.checked(at, now, handed)).guaranties[tenant]
                == tenancy.guaranties[tenant],
        tenancy.open(other, account, price, now) matches Ok(after) ==> after.0.guaranties[tenant]
            == tenancy.guaranties[tenant],
        tenancy.pay_rent(balances, other) matches Ok(after) ==> after.0.guaranties[tenant]
            == tenancy.guaranties[tenant],
        tenancy.pay_guaranty_deposit(balances, other, account) matches Ok(after)
            ==> after.0.guaranties[tenant] == tenancy.guaranties[tenant],
{
}

/// Handing out a rent credits nobody but the owners, and debits nobody but
/// the account that pays; the reserved balances stay as they are.
pub proof fn lemma_rent_goes_to_owners(
    balances: BalancesView,
    from: AccountId,
    amount: Balance,
    owners: Seq<(AccountId, Balance)>,
    supply: Balance,
    other: AccountId,
)
    requires
        other != from,
        forall|i: int| 0 <= i < owners.len() ==> owners[i].0 != other,
    ensures
        distribute_rent(balances, from, amount, owners, supply) matches Some(after) ==> {
            &&& after.free_balance(other) == balances.free_balance(other)
            &&& after.reserved == balances.reserved
            &&& after.free_balance(from) <= balances.free_balance(from)
        },
    decreases owners.len(),
{
    if owners.len() > 0 {
        lemma_rent_goes_to_owners(balances, from, amount, owners.drop_last(), supply, other);
    }
}

/// Two owners who hold 600 and 400 of 1000 tokens get six and four tenths of
/// the rent, rounded down, out of the account that holds it, which keeps what
/// it held before the rent came in and what rounding leaves.
pub proof fn lemma_rent_of_two_owners(
    balances: BalancesView,
    from: AccountId,
    rent: Balance,
    first: AccountId,
    second: AccountId,
)
    requires
        first != second,
        first != from,
        second != from,
        balances.free_balance(from) >= rent,
        balances.free_balance(first) + rent <= Balance::MAX,
        balances.free_balance(second) + rent <= Balance::MAX,
    ensures
        distribute_rent(
            balances,
            from,
            rent,
            seq![(first, 600 as Balance), (second, 400 as Balance)],
            1000,
        ) matches Some(after) && {
            &&& after.free_balance(first) == balances.free_balance(first) + rent as nat * 600
                / 1000
            &&& after.free_balance(second) == balances.free_balance(second) + rent as nat * 400
                / 1000
            &&& after.free_balance(from) == balances.free_balance(from) - rent as nat * 600 / 1000
                - rent as nat * 400 / 1000
            &&& after.free_balance(from) >= balances.free_balance(from) - rent
        },
{
    let owners = seq![(first, 600 as Balance), (second, 400 as Balance)];
    let one = owners.drop_last();
    assert(one =~= seq![(first, 600 as Balance)]);
    assert(one.drop_last() =~= Seq::<(AccountId, Balance)>::empty());
    let a = rent as nat * 600 / 1000;
    let b = rent as nat * 400 / 1000;
    assert(a + b <= rent) by (nonlinear_arith)
        requires
            a == rent as nat * 600 / 1000,
            b == rent as nat * 400 / 1000,
    ;
    assert(rent_share(rent, 600, 1000) == a);
    assert(rent_share(rent, 400, 1000) == b);
    assert(distribute_rent(balances, from, rent, one.drop_last(), 1000) == Some(balances));
    assert(one.last() == (first, 600 as Balance));
    assert(owners.last() == (second, 400 as Balance));
    assert(distribute_rent(balances, from, rent, one, 1000) is Some);
}

} // verus!
