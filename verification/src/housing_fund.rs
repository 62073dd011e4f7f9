//! The fund ledger: what each contributor paid into the pooled fund, and what
//! part of it is earmarked for the acquisition of an asset.
//!
//! The contributions earmarked for an asset are kept one by one until the asset
//! is bought: the share of each contributor in the asset is computed from them.

use crate::currency::{Balances, BalancesView, ExistenceRequirement};
use crate::types::{AccountId, AssetKey, Balance, BlockNumber};
use std::collections::HashMap;
use vstd::prelude::*;

verus! {

broadcast use vstd::std_specs::hash::group_hash_axioms;

/// What the fund is set up with.
#[derive(Clone, Copy, PartialEq, Eq, Structural, Debug)]
pub struct Config {
    /// The smallest contribution that the fund accepts.
    pub min_contribution: Balance,
    /// The account that holds the pooled funds.
    pub fund_account: AccountId,
}

/// Why the fund refused an action.
#[derive(Clone, Copy, PartialEq, Eq, Structural, Debug)]
pub enum Error {
    /// The contribution is below the minimum.
    ContributionTooSmall,
    /// The recorded contribution would exceed the largest amount.
    Overflow,
    /// Funds are already earmarked for the asset.
    AlreadyReserved,
    /// The shares name a contributor twice, exceed what a contributor has
    /// available, or do not add up to the amount.
    InvalidShares,
    /// No funds are earmarked for the asset.
    NotReserved,
    /// The currency ledger refused.
    Currency(crate::currency::Error),
}

/// What one contributor has in the fund.
#[derive(Clone, Copy, PartialEq, Eq, Structural, Debug)]
pub struct Contribution {
    /// What is free to be earmarked.
    pub available: Balance,
    /// What is earmarked for acquisitions that are not finalised yet.
    pub reserved: Balance,
}

/// The funds earmarked for one acquisition.
#[derive(Clone, Debug)]
pub struct FundOperation {
    pub asset: AssetKey,
    /// The price of the asset.
    pub amount: Balance,
    /// The block at which the funds were earmarked.
    pub block_number: BlockNumber,
    /// Who pays how much of the price.
    pub contributions: Vec<(AccountId, Balance)>,
}

/// The mathematical content of a [`FundOperation`].
pub struct FundOperationView {
    pub asset: AssetKey,
    pub amount: Balance,
    pub block_number: BlockNumber,
    pub contributions: Seq<(AccountId, Balance)>,
}

impl View for FundOperation {
    type V = FundOperationView;

    open spec fn view(&self) -> FundOperationView {
        FundOperationView {
            asset: self.asset,
            amount: self.amount,
            block_number: self.block_number,
            contributions: self.contributions@,
        }
    }
}

/// The sum of the amounts of `shares`.
pub open spec fn total_of(shares: Seq<(AccountId, Balance)>) -> nat
    decreases shares.len(),
{
    if shares.len() == 0 {
        0
    } else {
        total_of(shares.drop_last()) + shares.last().1 as nat
    }
}

/// Whether no account occurs twice in `shares`.
pub open spec fn distinct_accounts(shares: Seq<(AccountId, Balance)>) -> bool {
    forall|i: int, j: int| 0 <= i < j < shares.len() ==> shares[i].0 != shares[j].0
}

/// What `c` records for `who`.
pub open spec fn contribution_in(c: Map<AccountId, Contribution>, who: AccountId) -> Contribution {
    if c.contains_key(who) {
        c[who]
    } else {
        Contribution { available: 0, reserved: 0 }
    }
}

/// `c` after each of `shares` was moved from what its contributor has
/// available to what it has reserved.
pub open spec fn earmark(c: Map<AccountId, Contribution>, shares: Seq<(AccountId, Balance)>) -> Map<
    AccountId,
    Contribution,
>
    decreases shares.len(),
{
    if shares.len() == 0 {
        c
    } else {
        let before = earmark(c, shares.drop_last());
        let (who, share) = shares.last();
        before.insert(
            who,
            Contribution {
                available: (contribution_in(before, who).available - share) as Balance,
                reserved: (contribution_in(before, who).reserved + share) as Balance,
            },
        )
    }
}

/// `c` after each of `shares` was taken out of what its contributor has
/// reserved.
pub open spec fn spend(c: Map<AccountId, Contribution>, shares: Seq<(AccountId, Balance)>) -> Map<
    AccountId,
    Contribution,
>
    decreases shares.len(),
{
    if shares.len() == 0 {
        c
    } else {
        let before = spend(c, shares.drop_last());
        let (who, share) = shares.last();
        let held = contribution_in(before, who);
        before.insert(
            who,
            Contribution {
                reserved: if held.reserved >= share {
                    (held.reserved - share) as Balance
                } else {
                    0
                },
                ..held
            },
        )
    }
}

/// The mathematical content of the fund.
pub struct HousingFundView {
    pub config: Config,
    pub contributions: Map<AccountId, Contribution>,
    /// The funds earmarked per asset, by [`AssetKey::index`].
    pub reservations: Map<u64, FundOperationView>,
}

impl HousingFundView {
    /// The fund before anybody contributed.
    pub open spec fn init(config: Config) -> HousingFundView {
        HousingFundView { config, contributions: Map::empty(), reservations: Map::empty() }
    }

    /// What `who` has in the fund.
    pub open spec fn contribution(self, who: AccountId) -> Contribution {
        contribution_in(self.contributions, who)
    }

    /// What [`HousingFund::contribute`] does.
    pub open spec fn contribute(
        self,
        balances: BalancesView,
        payer: AccountId,
        account: AccountId,
        amount: Balance,
    ) -> Result<(HousingFundView, BalancesView), Error> {
        if amount < self.config.min_contribution {
            Err(Error::ContributionTooSmall)
        } else if self.contribution(account).available + amount > Balance::MAX {
            Err(Error::Overflow)
        } else {
            match balances.transfer(
                payer,
                self.config.fund_account,
                amount,
                ExistenceRequirement::AllowDeath,
            ) {
                Err(e) => Err(Error::Currency(e)),
                Ok(paid) => Ok(
                    (
                        HousingFundView {
                            contributions: self.contributions.insert(
                                account,
                                Contribution {
                                    available: (self.contribution(account).available
                                        + amount) as Balance,
                                    ..self.contribution(account)
                                },
                            ),
                            ..self
                        },
                        paid,
                    ),
                ),
            }
        }
    }

    /// Whether `shares` can be earmarked for an acquisition that costs
    /// `amount`: no contributor is named twice, each has its share available,
    /// and the shares add up to the amount.
    pub open spec fn payable(self, shares: Seq<(AccountId, Balance)>, amount: Balance) -> bool {
        &&& distinct_accounts(shares)
        &&& forall|i: int|
            0 <= i < shares.len() ==> {
                &&& self.contribution((#[trigger] shares[i]).0).available >= shares[i].1
                &&& self.contribution(shares[i].0).reserved + shares[i].1 <= Balance::MAX
            }
        &&& total_of(shares) == amount
    }

    /// What [`HousingFund::reserve_for_acquisition`] does.
    pub open spec fn reserve_for_acquisition(
        self,
        balances: BalancesView,
        asset: AssetKey,
        amount: Balance,
        shares: Seq<(AccountId, Balance)>,
        now: BlockNumber,
    ) -> Result<(HousingFundView, BalancesView), Error> {
        if self.reservations.contains_key(asset.index()) {
            Err(Error::AlreadyReserved)
        } else if !self.payable(shares, amount) {
            Err(Error::InvalidShares)
        } else {
            match balances.reserve(self.config.fund_account, amount) {
                Err(e) => Err(Error::Currency(e)),
                Ok(kept) => Ok(
                    (
                        HousingFundView {
                            contributions: earmark(self.contributions, shares),
                            reservations: self.reservations.insert(
                                asset.index(),
                                FundOperationView {
                                    asset,
                                    amount,
                                    block_number: now,
                                    contributions: shares,
                                },
                            ),
                            ..self
                        },
                        kept,
                    ),
                ),
            }
        }
    }

    /// What [`HousingFund::pay_for_acquisition`] does.
    pub open spec fn pay_for_acquisition(
        self,
        balances: BalancesView,
        asset: AssetKey,
        payee: AccountId,
    ) -> Result<(HousingFundView, BalancesView, Seq<(AccountId, Balance)>), Error> {
        if !self.reservations.contains_key(asset.index()) {
            Err(Error::NotReserved)
        } else {
            let operation = self.reservations[asset.index()];
            match balances.unreserve(self.config.fund_account, operation.amount) {
                Err(e) => Err(Error::Currency(e)),
                Ok(freed) => match freed.transfer(
                    self.config.fund_account,
                    payee,
                    operation.amount,
                    ExistenceRequirement::AllowDeath,
                ) {
                    Err(e) => Err(Error::Currency(e)),
                    Ok(paid) => Ok(
                        (
                            HousingFundView {
                                contributions: spend(self.contributions, operation.contributions),
                                reservations: self.reservations.remove(asset.index()),
                                ..self
                            },
                            paid,
                            operation.contributions,
                        ),
                    ),
                },
            }
        }
    }
}

/// The fund ledger.
pub struct HousingFund {
    config: Config,
    contributions: HashMap<AccountId, Contribution>,
    reservations: HashMap<u64, FundOperation>,
}

impl View for HousingFund {
    type V = HousingFundView;

    closed spec fn view(&self) -> HousingFundView {
        HousingFundView {
            config: self.config,
            contributions: self.contributions@,
            reservations: Map::new(
                |k: u64| self.reservations@.contains_key(k),
                |k: u64| self.reservations@[k]@,
            ),
        }
    }
}

/// A copy of a list of shares.
pub fn copy_shares(shares: &Vec<(AccountId, Balance)>) -> (copy: Vec<(AccountId, Balance)>)
    ensures
        copy@ == shares@,
{
    let mut copy: Vec<(AccountId, Balance)> = Vec::new();
    let mut i: usize = 0;
    while i < shares.len()
        invariant
            i <= shares@.len(),
            copy@ == shares@.subrange(0, i as int),
        decreases shares@.len() - i,
    {
        copy.push(shares[i]);
        assert(copy@ =~= shares@.subrange(0, i + 1));
        i += 1;
    }
    assert(copy@ =~= shares@);
    copy
}

/// The total of a prefix of `shares` is at most the total of all of them.
pub proof fn lemma_total_of_prefix(shares: Seq<(AccountId, Balance)>, n: int)
    requires
        0 <= n <= shares.len(),
    ensures
        total_of(shares.subrange(0, n)) <= total_of(shares),
        total_of(shares.subrange(0, n)) <= n * Balance::MAX,
    decreases shares.len() - n,
{
    if n == shares.len() {
        assert(shares.subrange(0, n) =~= shares);
        lemma_total_of_bound(shares);
    } else {
        lemma_total_of_prefix(shares, n + 1);
        assert(shares.subrange(0, n + 1).drop_last() =~= shares.subrange(0, n));
        lemma_total_of_bound(shares.subrange(0, n));
    }
}

/// The total of `shares` is at most the largest amount for each of them.
pub proof fn lemma_total_of_bound(shares: Seq<(AccountId, Balance)>)
    ensures
        total_of(shares) <= shares.len() * Balance::MAX,
    decreases shares.len(),
{
    if shares.len() > 0 {
        lemma_total_of_bound(shares.drop_last());
        assert(total_of(shares) <= (shares.len() - 1) * Balance::MAX + Balance::MAX);
        assert((shares.len() - 1) * Balance::MAX + Balance::MAX == shares.len() * Balance::MAX)
            by (nonlinear_arith);
    }
}

/// Earmarking shares leaves the contributors that the shares do not name as
/// they were.
proof fn lemma_earmark_frame(
    c: Map<AccountId, Contribution>,
    shares: Seq<(AccountId, Balance)>,
    who: AccountId,
)
    requires
        forall|i: int| 0 <= i < shares.len() ==> shares[i].0 != who,
    ensures
        contribution_in(earmark(c, shares), who) == contribution_in(c, who),
    decreases shares.len(),
{
    if shares.len() > 0 {
        lemma_earmark_frame(c, shares.drop_last(), who);
    }
}

/// Whether no account occurs twice in `shares`.
pub fn has_distinct_accounts(shares: &Vec<(AccountId, Balance)>) -> (ok: bool)
    ensures
        ok == distinct_accounts(shares@),
{
    let mut i: usize = 0;
    while i < shares.len()
        invariant
            i <= shares@.len(),
            forall|a: int, b: int| 0 <= a < b < i ==> shares@[a].0 != shares@[b].0,
        decreases shares@.len() - i,
    {
        let mut j: usize = 0;
        while j < i
            invariant
                j <= i < shares@.len(),
                forall|k: int| 0 <= k < j ==> shares@[k].0 != shares@[i as int].0,
            decreases i - j,
        {
            if shares[j].0 == shares[i].0 {
                return false;
            }
            j += 1;
        }
        i += 1;
    }
    true
}

/// The sum of the amounts of `shares`.
pub fn sum_shares(shares: &Vec<(AccountId, Balance)>) -> (total: u128)
    ensures
        total == total_of(shares@),
{
    let mut total: u128 = 0;
    let mut i: usize = 0;
    assert(shares@.subrange(0, 0) =~= Seq::empty());
    while i < shares.len()
        invariant
            i <= shares@.len(),
            total == total_of(shares@.subrange(0, i as int)),
        decreases shares@.len() - i,
    {
        proof {
            lemma_total_of_prefix(shares@, i as int);
            assert(shares@.subrange(0, i + 1).drop_last() =~= shares@.subrange(0, i as int));
            assert(i * Balance::MAX + Balance::MAX <= u128::MAX) by (nonlinear_arith)
                requires
                    i <= u64::MAX,
            ;
        }
        total = total + shares[i].1 as u128;
        i += 1;
    }
    assert(shares@.subrange(0, i as int) =~= shares@);
    total
}

/// Each amount of `shares` is at most their total.
pub proof fn lemma_total_of_covers(shares: Seq<(AccountId, Balance)>, i: int)
    requires
        0 <= i < shares.len(),
    ensures
        shares[i].1 <= total_of(shares),
    decreases shares.len(),
{
    if i < shares.len() - 1 {
        lemma_total_of_covers(shares.drop_last(), i);
    }
}

impl HousingFund {
    /// A fund to which nobody has contributed.
    pub fn new(config: Config) -> (fund: HousingFund)
        ensures
            fund@ == HousingFundView::init(config),
    {
        let fund = HousingFund {
            config,
            contributions: HashMap::new(),
            reservations: HashMap::new(),
        };
        assert(fund@.reservations =~= Map::empty());
        fund
    }

    /// The account that holds the pooled funds.
    pub fn fund_account_id(&self) -> (account: AccountId)
        ensures
            account == self@.config.fund_account,
    {
        self.config.fund_account
    }

    /// What `who` has in the fund.
    pub fn contributions(&self, who: AccountId) -> (c: Contribution)
        ensures
            c == self@.contribution(who),
    {
        match self.contributions.get(&who) {
            Some(c) => *c,
            None => Contribution { available: 0, reserved: 0 },
        }
    }

    /// The funds earmarked for `asset`.
    pub fn reservations(&self, asset: AssetKey) -> (operation: Option<FundOperation>)
        ensures
            match operation {
                Some(op) => self@.reservations.contains_key(asset.index()) && op@
                    == self@.reservations[asset.index()],
                None => !self@.reservations.contains_key(asset.index()),
            },
    {
        match self.reservations.get(&asset.index()) {
            Some(op) => Some(
                FundOperation {
                    asset: op.asset,
                    amount: op.amount,
                    block_number: op.block_number,
                    contributions: copy_shares(&op.contributions),
                },
            ),
            None => None,
        }
    }

    /// Records a contribution of `amount` for `account`, paid by `payer` into
    /// the pooled fund.
    ///
    /// Fails with [`Error::ContributionTooSmall`] below the minimum, and where
    /// `payer` cannot pay; nothing changes then.
    pub fn contribute(
        &mut self,
        balances: &mut Balances,
        payer: AccountId,
        account: AccountId,
        amount: Balance,
    ) -> (res: Result<(), Error>)
        ensures
            match old(self)@.contribute(old(balances)@, payer, account, amount) {
                Ok((fund, paid)) => res is Ok && final(self)@ == fund && final(balances)@ == paid,
                Err(e) => res == Err::<(), Error>(e) && final(self)@ == old(self)@ && final(balances)@ == old(balances)@,
            },
    {
        if amount < self.config.min_contribution {
            return Err(Error::ContributionTooSmall);
        }
        let held = self.contributions(account);
        if held.available > Balance::MAX - amount {
            return Err(Error::Overflow);
        }
        match balances.transfer(
            payer,
            self.config.fund_account,
            amount,
            ExistenceRequirement::AllowDeath,
        ) {
            Err(e) => {
                return Err(Error::Currency(e));
            },
            Ok(_) => {},
        }
        self.contributions.insert(
            account,
            Contribution { available: held.available + amount, reserved: held.reserved },
        );
        assert(self@.reservations =~= old(self)@.reservations);
        Ok(())
    }

    /// Records a contribution of `amount` that `who` pays for itself.
    pub fn contribute_to_fund(&mut self, balances: &mut Balances, who: AccountId, amount: Balance) -> (res:
        Result<(), Error>)
        ensures
            match old(self)@.contribute(old(balances)@, who, who, amount) {
                Ok((fund, paid)) => res is Ok && final(self)@ == fund && final(balances)@ == paid,
                Err(e) => res == Err::<(), Error>(e) && final(self)@ == old(self)@ && final(balances)@ == old(balances)@,
            },
    {
        self.contribute(balances, who, who, amount)
    }

    fn payable(&self, shares: &Vec<(AccountId, Balance)>, amount: Balance) -> (ok: bool)
        ensures
            ok == self@.payable(shares@, amount),
    {
        let mut total: u128 = 0;
        let mut i: usize = 0;
        assert(shares@.subrange(0, 0) =~= Seq::empty());
        while i < shares.len()
            invariant
                i <= shares@.len(),
                total == total_of(shares@.subrange(0, i as int)),
                distinct_accounts(shares@.subrange(0, i as int)),
                forall|k: int|
                    0 <= k < i ==> {
                        &&& self@.contribution((#[trigger] shares@[k]).0).available >= shares@[k].1
                        &&& self@.contribution(shares@[k].0).reserved + shares@[k].1
                            <= Balance::MAX
                    },
            decreases shares@.len() - i,
        {
            let (who, share) = shares[i];
            let held = self.contributions(who);
            if held.available < share || held.reserved > Balance::MAX - share {
                return false;
            }
            let mut j: usize = 0;
            while j < i
                invariant
                    j <= i < shares@.len(),
                    who == shares@[i as int].0,
                    forall|k: int| 0 <= k < j ==> shares@[k].0 != who,
                decreases i - j,
            {
                if shares[j].0 == who {
                    return false;
                }
                j += 1;
            }
            proof {
                lemma_total_of_prefix(shares@, i as int);
                assert(shares@.subrange(0, i + 1).drop_last() =~= shares@.subrange(0, i as int));
                assert(i * Balance::MAX + Balance::MAX <= u128::MAX) by (nonlinear_arith)
                    requires
                        i <= u64::MAX,
                ;
            }
            total = total + share as u128;
            i += 1;
        }
        assert(shares@.subrange(0, i as int) =~= shares@);
        total == amount as u128
    }

    fn earmark(&mut self, shares: &Vec<(AccountId, Balance)>)
        requires
            distinct_accounts(shares@),
            forall|i: int|
                0 <= i < shares@.len() ==> {
                    &&& old(self)@.contribution((#[trigger] shares@[i]).0).available >= shares@[i].1
                    &&& old(self)@.contribution(shares@[i].0).reserved + shares@[i].1
                        <= Balance::MAX
                },
        ensures
            final(self)@ == (HousingFundView {
                contributions: earmark(old(self)@.contributions, shares@),
                ..old(self)@
            }),
    {
        let mut i: usize = 0;
        assert(shares@.subrange(0, 0) =~= Seq::empty());
        while i < shares.len()
            invariant
                i <= shares@.len(),
                distinct_accounts(shares@),
                forall|k: int|
                    0 <= k < shares@.len() ==> {
                        &&& old(self)@.contribution((#[trigger] shares@[k]).0).available
                            >= shares@[k].1
                        &&& old(self)@.contribution(shares@[k].0).reserved + shares@[k].1
                            <= Balance::MAX
                    },
                self@ == (HousingFundView {
                    contributions: earmark(
                        old(self)@.contributions,
                        shares@.subrange(0, i as int),
                    ),
                    ..old(self)@
                }),
            decreases shares@.len() - i,
        {
            let (who, share) = shares[i];
            let ghost done = shares@.subrange(0, i as int);
            proof {
                assert(shares@.subrange(0, i + 1).drop_last() =~= done);
                lemma_earmark_frame(old(self)@.contributions, done, who);
                assert(old(self)@.contribution(shares@[i as int].0).available >= share);
            }
            let held = self.contributions(who);
            self.contributions.insert(
                who,
                Contribution { available: held.available - share, reserved: held.reserved + share },
            );
            assert(self@.reservations =~= old(self)@.reservations);
            i += 1;
        }
        assert(shares@.subrange(0, i as int) =~= shares@);
    }

    /// Earmarks `amount` of the pooled funds for the acquisition of `asset`,
    /// taken from the contributors as `shares` says. No funds move.
    ///
    /// Fails, changing nothing, where funds are earmarked for the asset
    /// already, where the shares are not payable, and where the pooled funds do
    /// not cover the amount.
    pub fn reserve_for_acquisition(
        &mut self,
        balances: &mut Balances,
        asset: AssetKey,
        amount: Balance,
        shares: &Vec<(AccountId, Balance)>,
        now: BlockNumber,
    ) -> (res: Result<(), Error>)
        ensures
            match old(self)@.reserve_for_acquisition(old(balances)@, asset, amount, shares@, now) {
                Ok((fund, kept)) => res is Ok && final(self)@ == fund && final(balances)@ == kept,
                Err(e) => res == Err::<(), Error>(e) && final(self)@ == old(self)@ && final(balances)@ == old(balances)@,
            },
    {
        if self.reservations.contains_key(&asset.index()) {
            return Err(Error::AlreadyReserved);
        }
        if !self.payable(shares, amount) {
            return Err(Error::InvalidShares);
        }
        match balances.reserve(self.config.fund_account, amount) {
            Err(e) => {
                return Err(Error::Currency(e));
            },
            Ok(_) => {},
        }
        self.earmark(shares);
        self.reservations.insert(
            asset.index(),
            FundOperation {
                asset,
                amount,
                block_number: now,
                contributions: copy_shares(shares),
            },
        );
        proof {
            let after = old(self)@.reserve_for_acquisition(
                old(balances)@,
                asset,
                amount,
                shares@,
                now,
            )->Ok_0.0;
            assert(self@.reservations =~= after.reservations);
        }
        Ok(())
    }

    fn spend(&mut self, shares: &Vec<(AccountId, Balance)>)
        ensures
            final(self)@ == (HousingFundView {
                contributions: spend(old(self)@.contributions, shares@),
                ..old(self)@
            }),
    {
        let mut i: usize = 0;
        assert(shares@.subrange(0, 0) =~= Seq::empty());
        while i < shares.len()
            invariant
                i <= shares@.len(),
                self@ == (HousingFundView {
                    contributions: spend(old(self)@.contributions, shares@.subrange(0, i as int)),
                    ..old(self)@
                }),
            decreases shares@.len() - i,
        {
            let (who, share) = shares[i];
            assert(shares@.subrange(0, i + 1).drop_last() =~= shares@.subrange(0, i as int));
            let held = self.contributions(who);
            let left = if held.reserved >= share {
                held.reserved - share
            } else {
                0
            };
            self.contributions.insert(
                who,
                Contribution { available: held.available, reserved: left },
            );
            assert(self@.reservations =~= old(self)@.reservations);
            i += 1;
        }
        assert(shares@.subrange(0, i as int) =~= shares@);
    }

    /// Whether the funds earmarked for `asset` can be paid out of the pool to
    /// `payee`: whether [`HousingFund::pay_for_acquisition`] would succeed.
    pub fn can_pay_for_acquisition(&self, balances: &Balances, asset: AssetKey, payee: AccountId) -> (ok:
        bool)
        ensures
            ok == (self@.pay_for_acquisition(balances@, asset, payee) is Ok),
    {
        let fund_account = self.config.fund_account;
        let amount = match self.reservations.get(&asset.index()) {
            None => {
                return false;
            },
            Some(op) => op.amount,
        };
        if balances.reserved_balance(fund_account) < amount {
            return false;
        }
        if balances.free_balance(fund_account) > Balance::MAX - amount {
            return false;
        }
        payee == fund_account || balances.free_balance(payee) <= Balance::MAX - amount
    }

    /// Pays the funds earmarked for `asset` out of the pool to `payee`, and
    /// hands out the contributions that they were made of. The contributions
    /// are spent by this: a second call fails.
    pub fn pay_for_acquisition(
        &mut self,
        balances: &mut Balances,
        asset: AssetKey,
        payee: AccountId,
    ) -> (res: Result<Vec<(AccountId, Balance)>, Error>)
        ensures
            match old(self)@.pay_for_acquisition(old(balances)@, asset, payee) {
                Ok((fund, paid, shares)) => res matches Ok(s) && s@ == shares && final(self)@
                    == fund && final(balances)@ == paid,
                Err(e) => res == Err::<Vec<(AccountId, Balance)>, Error>(e) && final(self)@ == old(self)@ && final(balances)@ == old(balances)@,
            },
    {
        let key = asset.index();
        let fund_account = self.config.fund_account;
        let amount = match self.reservations.get(&key) {
            None => {
                return Err(Error::NotReserved);
            },
            Some(op) => op.amount,
        };
        // Both currency operations are tried on the figures first, so that a
        // refusal of the second leaves the first undone.
        let kept = balances.reserved_balance(fund_account);
        let free = balances.free_balance(fund_account);
        if kept < amount {
            return Err(Error::Currency(crate::currency::Error::InsufficientBalance));
        }
        if free > Balance::MAX - amount {
            return Err(Error::Currency(crate::currency::Error::Overflow));
        }
        if payee != fund_account && balances.free_balance(payee) > Balance::MAX - amount {
            return Err(Error::Currency(crate::currency::Error::Overflow));
        }
        let unreserved = balances.unreserve(fund_account, amount);
        assert(unreserved is Ok);
        let paid = balances.transfer(
            fund_account,
            payee,
            amount,
            ExistenceRequirement::AllowDeath,
        );
        assert(paid is Ok);
        let shares = match self.reservations.remove(&key) {
            Some(op) => op.contributions,
            None => Vec::new(),
        };
        assert(self@.reservations =~= old(self)@.reservations.remove(key));
        self.spend(&shares);
        Ok(shares)
    }
}

} // verus!
