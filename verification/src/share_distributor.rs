//! The ownership registry: the custodial account of each asset that was bought,
//! the ownership tokens minted against it, and the owners that hold them.
//!
//! The tokens of an asset are handed to the contributors of its acquisition in
//! proportion to what each contributed, rounded down. What rounding leaves
//! stays with the custodial account.

use crate::housing_fund::{
    distinct_accounts, has_distinct_accounts, lemma_total_of_covers, sum_shares, total_of,
};
use crate::types::{AccountId, AssetKey, Balance};
use std::collections::HashMap;
use vstd::prelude::*;

verus! {

broadcast use vstd::std_specs::hash::group_hash_axioms;

/// Why the registry refused an action.
#[derive(Clone, Copy, PartialEq, Eq, Structural, Debug)]
pub enum Error {
    /// The asset has a custodial account already.
    AssetAlreadyOwned,
    /// The asset has no custodial account.
    NotAnAsset,
    /// Tokens were minted for the asset already.
    TokensAlreadyIssued,
    /// A supply of zero tokens cannot be minted.
    ZeroSupply,
    /// No tokens were minted for the asset yet.
    NoTokens,
    /// The tokens of the asset were handed out already.
    AlreadyDistributed,
    /// The contributions are all zero, or name a contributor twice.
    InvalidContributions,
    /// No identifier is left for a further token.
    StorageOverflow,
}

/// The custodial account of an asset, and who owns how much of the asset.
#[derive(Clone, Debug)]
pub struct VirtualAccount {
    pub asset: AssetKey,
    /// The account that holds the asset for its owners.
    pub virtual_account: AccountId,
    /// The identifier of the asset's ownership token.
    pub token_id: u32,
    /// The number of tokens minted; zero before they are.
    pub supply: Balance,
    /// Whether the tokens were handed to the contributors.
    pub distributed: bool,
    /// The owners, each with the tokens it holds, in the order of their
    /// contributions.
    pub owners: Vec<(AccountId, Balance)>,
}

/// The mathematical content of a [`VirtualAccount`].
pub struct VirtualAccountView {
    pub asset: AssetKey,
    pub virtual_account: AccountId,
    pub token_id: u32,
    pub supply: Balance,
    pub distributed: bool,
    pub owners: Seq<(AccountId, Balance)>,
}

impl View for VirtualAccount {
    type V = VirtualAccountView;

    open spec fn view(&self) -> VirtualAccountView {
        VirtualAccountView {
            asset: self.asset,
            virtual_account: self.virtual_account,
            token_id: self.token_id,
            supply: self.supply,
            distributed: self.distributed,
            owners: self.owners@,
        }
    }
}

/// The custodial account of `asset`: the largest account number less the
/// asset's key.
pub open spec fn spec_virtual_account_of(asset: AssetKey) -> AccountId {
    (AccountId::MAX - asset.index()) as AccountId
}

/// The custodial account of `asset`. Distinct assets have distinct ones.
#[verifier::when_used_as_spec(spec_virtual_account_of)]
pub fn virtual_account_of(asset: AssetKey) -> (account: AccountId)
    ensures
        account == spec_virtual_account_of(asset),
{
    AccountId::MAX - asset.index()
}

/// The asset that `account` is the custodial account of.
pub open spec fn spec_asset_of(account: AccountId) -> AssetKey {
    AssetKey::from_index((AccountId::MAX - account) as u64)
}

/// The asset that `account` is the custodial account of.
#[verifier::when_used_as_spec(spec_asset_of)]
pub fn asset_of(account: AccountId) -> (asset: AssetKey)
    ensures
        asset == spec_asset_of(account),
        virtual_account_of(asset) == account,
{
    AssetKey::from_index(AccountId::MAX - account)
}

/// Distinct assets have distinct custodial accounts.
pub proof fn lemma_virtual_account_injective(a: AssetKey, b: AssetKey)
    ensures
        virtual_account_of(a) == virtual_account_of(b) <==> a == b,
        asset_of(virtual_account_of(a)) == a,
{
    crate::types::lemma_index_injective(a, b);
}

/// The share of `amount` that falls to `part` out of `total`, rounded down.
pub open spec fn share_of(amount: Balance, part: Balance, total: nat) -> Balance {
    (amount as nat * part as nat / total) as Balance
}

/// The tokens that each of `contributions` gets out of `supply`, without
/// those that get none.
pub open spec fn allot(supply: Balance, contributions: Seq<(AccountId, Balance)>, total: nat) -> Seq<
    (AccountId, Balance),
>
    decreases contributions.len(),
{
    if contributions.len() == 0 {
        Seq::empty()
    } else {
        let before = allot(supply, contributions.drop_last(), total);
        let (who, part) = contributions.last();
        if share_of(supply, part, total) > 0 {
            before.push((who, share_of(supply, part, total)))
        } else {
            before
        }
    }
}

/// The tokens that `owners` records for `who`.
pub open spec fn tokens_in(owners: Seq<(AccountId, Balance)>, who: AccountId) -> Balance
    decreases owners.len(),
{
    if owners.len() == 0 {
        0
    } else if owners.last().0 == who {
        owners.last().1
    } else {
        tokens_in(owners.drop_last(), who)
    }
}

/// What is left of `supply` after `owners` got their tokens.
pub open spec fn left_of(supply: Balance, owners: Seq<(AccountId, Balance)>) -> Balance {
    if total_of(owners) >= supply {
        0
    } else {
        (supply - total_of(owners)) as Balance
    }
}

/// Whether `owners` names `who`.
pub open spec fn names(owners: Seq<(AccountId, Balance)>, who: AccountId) -> bool {
    exists|i: int| 0 <= i < owners.len() && owners[i].0 == who
}

/// The mathematical content of the registry.
pub struct ShareDistributorView {
    /// The custodial account of each asset, by [`AssetKey::index`].
    pub accounts: Map<u64, VirtualAccountView>,
    /// The identifier that the next token gets.
    pub next_token_id: u32,
}

impl ShareDistributorView {
    /// The registry before any asset was bought.
    pub open spec fn init() -> ShareDistributorView {
        ShareDistributorView { accounts: Map::empty(), next_token_id: 0 }
    }

    /// Whether the owners of every asset hold no more tokens than were minted
    /// for it.
    pub open spec fn within_supply(self) -> bool {
        forall|k: u64| #[trigger]
            self.accounts.contains_key(k) ==> total_of(self.accounts[k].owners)
                <= self.accounts[k].supply
    }

    /// Whether `who` owns a part of `asset`.
    pub open spec fn is_owner(self, asset: AssetKey, who: AccountId) -> bool {
        self.accounts.contains_key(asset.index()) && names(
            self.accounts[asset.index()].owners,
            who,
        )
    }

    /// What [`ShareDistributor::open_virtual_account`] does.
    pub open spec fn open_virtual_account(self, asset: AssetKey) -> Result<
        (ShareDistributorView, AccountId),
        Error,
    > {
        if self.accounts.contains_key(asset.index()) {
            Err(Error::AssetAlreadyOwned)
        } else if self.next_token_id == u32::MAX {
            Err(Error::StorageOverflow)
        } else {
            Ok(
                (
                    ShareDistributorView {
                        accounts: self.accounts.insert(
                            asset.index(),
                            VirtualAccountView {
                                asset,
                                virtual_account: virtual_account_of(asset),
                                token_id: self.next_token_id,
                                supply: 0,
                                distributed: false,
                                owners: Seq::empty(),
                            },
                        ),
                        next_token_id: (self.next_token_id + 1) as u32,
                    },
                    virtual_account_of(asset),
                ),
            )
        }
    }

    /// What [`ShareDistributor::issue_tokens`] does.
    pub open spec fn issue_tokens(self, asset: AssetKey, supply: Balance) -> Result<
        ShareDistributorView,
        Error,
    > {
        if !self.accounts.contains_key(asset.index()) {
            Err(Error::NotAnAsset)
        } else if self.accounts[asset.index()].supply != 0 {
            Err(Error::TokensAlreadyIssued)
        } else if supply == 0 {
            Err(Error::ZeroSupply)
        } else {
            Ok(
                ShareDistributorView {
                    accounts: self.accounts.insert(
                        asset.index(),
                        VirtualAccountView { supply, ..self.accounts[asset.index()] },
                    ),
                    ..self
                },
            )
        }
    }

    /// What [`ShareDistributor::distribute`] does.
    pub open spec fn distribute(
        self,
        asset: AssetKey,
        contributions: Seq<(AccountId, Balance)>,
    ) -> Result<ShareDistributorView, Error> {
        if !self.accounts.contains_key(asset.index()) {
            Err(Error::NotAnAsset)
        } else if self.accounts[asset.index()].supply == 0 {
            Err(Error::NoTokens)
        } else if self.accounts[asset.index()].distributed {
            Err(Error::AlreadyDistributed)
        } else if !distinct_accounts(contributions) || total_of(contributions) == 0 {
            Err(Error::InvalidContributions)
        } else {
            let before = self.accounts[asset.index()];
            Ok(
                ShareDistributorView {
                    accounts: self.accounts.insert(
                        asset.index(),
                        VirtualAccountView {
                            distributed: true,
                            owners: allot(before.supply, contributions, total_of(contributions)),
                            ..before
                        },
                    ),
                    ..self
                },
            )
        }
    }
}

/// The ownership registry.
pub struct ShareDistributor {
    accounts: HashMap<u64, VirtualAccount>,
    next_token_id: u32,
}

impl View for ShareDistributor {
    type V = ShareDistributorView;

    closed spec fn view(&self) -> ShareDistributorView {
        ShareDistributorView {
            accounts: Map::new(
                |k: u64| self.accounts@.contains_key(k),
                |k: u64| self.accounts@[k]@,
            ),
            next_token_id: self.next_token_id,
        }
    }
}

/// The share of `amount` that falls to `part` out of `total`, rounded down.
pub fn compute_share(amount: Balance, part: Balance, total: u128) -> (share: Balance)
    requires
        0 < total,
        part <= total,
    ensures
        share == share_of(amount, part, total as nat),
        share <= amount,
{
    proof {
        assert(amount as nat * part as nat / total as nat <= amount as nat) by (nonlinear_arith)
            requires
                0 < total,
                part <= total,
        ;
        assert(amount as u128 * part as u128 <= u128::MAX) by (nonlinear_arith)
            requires
                amount <= u64::MAX,
                part <= u64::MAX,
        ;
    }
    let product: u128 = amount as u128 * part as u128;
    (product / total) as Balance
}

/// The tokens that `owners` records for `who`.
pub fn tokens_held(owners: &Vec<(AccountId, Balance)>, who: AccountId) -> (tokens: Balance)
    ensures
        tokens == tokens_in(owners@, who),
{
    let mut i: usize = owners.len();
    assert(owners@.subrange(0, i as int) =~= owners@);
    while i > 0
        invariant
            i <= owners@.len(),
            tokens_in(owners@, who) == tokens_in(owners@.subrange(0, i as int), who),
        decreases i,
    {
        let ghost prefix = owners@.subrange(0, i as int);
        assert(prefix.drop_last() =~= owners@.subrange(0, i - 1));
        assert(prefix.last() == owners@[i - 1]);
        i -= 1;
        if owners[i].0 == who {
            return owners[i].1;
        }
    }
    assert(owners@.subrange(0, 0) =~= Seq::empty());
    0
}

/// Whether `owners` names `who`.
pub fn is_named(owners: &Vec<(AccountId, Balance)>, who: AccountId) -> (found: bool)
    ensures
        found == names(owners@, who),
{
    let mut i: usize = 0;
    while i < owners.len()
        invariant
            i <= owners@.len(),
            forall|j: int| 0 <= j < i ==> owners@[j].0 != who,
        decreases owners@.len() - i,
    {
        if owners[i].0 == who {
            return true;
        }
        i += 1;
    }
    false
}

impl ShareDistributor {
    /// A registry without any custodial account.
    pub fn new() -> (s: ShareDistributor)
        ensures
            s@ == ShareDistributorView::init(),
    {
        let s = ShareDistributor { accounts: HashMap::new(), next_token_id: 0 };
        assert(s@.accounts =~= Map::empty());
        s
    }

    /// The identifier that the next token gets: the number of custodial
    /// accounts opened so far.
    pub fn token_id(&self) -> (id: u32)
        ensures
            id == self@.next_token_id,
    {
        self.next_token_id
    }

    /// The custodial account of `asset` and its owners.
    pub fn virtual_acc(&self, asset: AssetKey) -> (account: Option<VirtualAccount>)
        ensures
            match account {
                Some(a) => self@.accounts.contains_key(asset.index()) && a@
                    == self@.accounts[asset.index()],
                None => !self@.accounts.contains_key(asset.index()),
            },
    {
        match self.accounts.get(&asset.index()) {
            Some(a) => Some(
                VirtualAccount {
                    asset: a.asset,
                    virtual_account: a.virtual_account,
                    token_id: a.token_id,
                    supply: a.supply,
                    distributed: a.distributed,
                    owners: crate::housing_fund::copy_shares(&a.owners),
                },
            ),
            None => None,
        }
    }

    /// Whether `asset` has a custodial account.
    pub fn has_account(&self, asset: AssetKey) -> (b: bool)
        ensures
            b == self@.accounts.contains_key(asset.index()),
    {
        self.accounts.contains_key(&asset.index())
    }

    /// Whether `who` owns a part of `asset`.
    pub fn is_owner(&self, asset: AssetKey, who: AccountId) -> (b: bool)
        ensures
            b == self@.is_owner(asset, who),
    {
        match self.accounts.get(&asset.index()) {
            Some(a) => is_named(&a.owners, who),
            None => false,
        }
    }

    /// The tokens of `asset` that `who` holds.
    pub fn balance(&self, asset: AssetKey, who: AccountId) -> (tokens: Balance)
        ensures
            tokens == if self@.accounts.contains_key(asset.index()) {
                tokens_in(self@.accounts[asset.index()].owners, who)
            } else {
                0
            },
    {
        match self.accounts.get(&asset.index()) {
            Some(a) => tokens_held(&a.owners, who),
            None => 0,
        }
    }

    /// The tokens of `asset` that its custodial account still holds: what was
    /// minted less what the owners hold.
    pub fn undistributed(&self, asset: AssetKey) -> (tokens: Balance)
        ensures
            tokens == if self@.accounts.contains_key(asset.index()) {
                left_of(
                    self@.accounts[asset.index()].supply,
                    self@.accounts[asset.index()].owners,
                )
            } else {
                0
            },
    {
        match self.accounts.get(&asset.index()) {
            Some(a) => {
                let given = sum_shares(&a.owners);
                if given >= a.supply as u128 {
                    0
                } else {
                    (a.supply as u128 - given) as Balance
                }
            },
            None => 0,
        }
    }

    /// The number of tokens minted for `asset`.
    pub fn total_supply(&self, asset: AssetKey) -> (supply: Balance)
        ensures
            supply == if self@.accounts.contains_key(asset.index()) {
                self@.accounts[asset.index()].supply
            } else {
                0
            },
    {
        match self.accounts.get(&asset.index()) {
            Some(a) => a.supply,
            None => 0,
        }
    }

    /// Opens the custodial account of `asset` and returns it.
    ///
    /// Fails with [`Error::AssetAlreadyOwned`] where the asset has one.
    pub fn open_virtual_account(&mut self, asset: AssetKey) -> (res: Result<AccountId, Error>)
        ensures
            match old(self)@.open_virtual_account(asset) {
                Ok((after, account)) => res == Ok::<AccountId, Error>(account) && final(self)@
                    == after,
                Err(e) => res == Err::<AccountId, Error>(e) && final(self)@ == old(self)@,
            },
    {
        if self.accounts.contains_key(&asset.index()) {
            return Err(Error::AssetAlreadyOwned);
        }
        if self.next_token_id == u32::MAX {
            return Err(Error::StorageOverflow);
        }
        let account = virtual_account_of(asset);
        self.accounts.insert(
            asset.index(),
            VirtualAccount {
                asset,
                virtual_account: account,
                token_id: self.next_token_id,
                supply: 0,
                distributed: false,
                owners: Vec::new(),
            },
        );
        self.next_token_id = self.next_token_id + 1;
        assert(self@.accounts =~= old(self)@.open_virtual_account(asset)->Ok_0.0.accounts);
        Ok(account)
    }

    /// Mints `supply` tokens into the custodial account of `asset`.
    ///
    /// Fails where the asset has no custodial account, or has tokens already.
    pub fn issue_tokens(&mut self, asset: AssetKey, supply: Balance) -> (res: Result<(), Error>)
        ensures
            match old(self)@.issue_tokens(asset, supply) {
                Ok(after) => res is Ok && final(self)@ == after,
                Err(e) => res == Err::<(), Error>(e) && final(self)@ == old(self)@,
            },
    {
        let key = asset.index();
        match self.accounts.get(&key) {
            None => {
                return Err(Error::NotAnAsset);
            },
            Some(a) => {
                if a.supply != 0 {
                    return Err(Error::TokensAlreadyIssued);
                }
            },
        }
        if supply == 0 {
            return Err(Error::ZeroSupply);
        }
        match self.accounts.remove(&key) {
            Some(a) => {
                self.accounts.insert(
                    key,
                    VirtualAccount {
                        asset: a.asset,
                        virtual_account: a.virtual_account,
                        token_id: a.token_id,
                        supply,
                        distributed: a.distributed,
                        owners: a.owners,
                    },
                );
            },
            None => {},
        }
        assert(self@.accounts =~= old(self)@.issue_tokens(asset, supply)->Ok_0.accounts);
        Ok(())
    }

    /// Hands the tokens of `asset` to the contributors of its acquisition:
    /// each gets the supply times its contribution over the total contributed,
    /// rounded down, and is an owner if that is more than nothing.
    ///
    /// Fails where the asset has no custodial account or no tokens, where the
    /// tokens were handed out before, and where the contributions are all zero
    /// or name somebody twice.
    pub fn distribute(&mut self, asset: AssetKey, contributions: &Vec<(AccountId, Balance)>) -> (res:
        Result<(), Error>)
        ensures
            match old(self)@.distribute(asset, contributions@) {
                Ok(after) => res is Ok && final(self)@ == after,
                Err(e) => res == Err::<(), Error>(e) && final(self)@ == old(self)@,
            },
            res is Ok ==> total_of(final(self)@.accounts[asset.index()].owners) <= final(self)@.accounts[asset.index()].supply,
    {
        proof {
            if total_of(contributions@) > 0 && old(self)@.accounts.contains_key(asset.index()) {
                lemma_allot_within_supply(
                    old(self)@.accounts[asset.index()].supply,
                    contributions@,
                );
            }
        }
        let key = asset.index();
        let supply = match self.accounts.get(&key) {
            None => {
                return Err(Error::NotAnAsset);
            },
            Some(a) => {
                if a.supply == 0 {
                    return Err(Error::NoTokens);
                }
                if a.distributed {
                    return Err(Error::AlreadyDistributed);
                }
                a.supply
            },
        };
        if !has_distinct_accounts(contributions) {
            return Err(Error::InvalidContributions);
        }
        let total = sum_shares(contributions);
        if total == 0 {
            return Err(Error::InvalidContributions);
        }
        let mut owners: Vec<(AccountId, Balance)> = Vec::new();
        let mut i: usize = 0;
        assert(contributions@.subrange(0, 0) =~= Seq::empty());
        while i < contributions.len()
            invariant
                i <= contributions@.len(),
                0 < total == total_of(contributions@),
                owners@ == allot(supply, contributions@.subrange(0, i as int), total as nat),
            decreases contributions@.len() - i,
        {
            let (who, part) = contributions[i];
            proof {
                lemma_total_of_covers(contributions@, i as int);
                assert(contributions@.subrange(0, i + 1).drop_last() =~= contributions@.subrange(
                    0,
                    i as int,
                ));
            }
            let share = compute_share(supply, part, total);
            if share > 0 {
                owners.push((who, share));
            }
            i += 1;
        }
        assert(contributions@.subrange(0, i as int) =~= contributions@);
        match self.accounts.remove(&key) {
            Some(a) => {
                self.accounts.insert(
                    key,
                    VirtualAccount {
                        asset: a.asset,
                        virtual_account: a.virtual_account,
                        token_id: a.token_id,
                        supply: a.supply,
                        distributed: true,
                        owners,
                    },
                );
            },
            None => {},
        }
        assert(self@.accounts =~= old(self)@.distribute(asset, contributions@)->Ok_0.accounts);
        Ok(())
    }
}

/// The tokens handed out never exceed the supply: each share is rounded down.
pub proof fn lemma_allot_within_supply(supply: Balance, contributions: Seq<(AccountId, Balance)>)
    requires
        total_of(contributions) > 0,
    ensures
        total_of(allot(supply, contributions, total_of(contributions))) <= supply,
{
    lemma_allot_bounded(supply, contributions, contributions.len() as int);
    assert(contributions.subrange(0, contributions.len() as int) =~= contributions);
    let total = total_of(contributions);
    let given = total_of(allot(supply, contributions, total));
    assert(given <= supply) by (nonlinear_arith)
        requires
            given * total <= supply * total,
            total > 0,
    ;
}

/// The tokens that the owners of an asset hold never exceed the supply: this
/// holds of the empty registry, and every operation keeps it.
pub proof fn lemma_supply_is_never_exceeded(
    before: ShareDistributorView,
    asset: AssetKey,
    supply: Balance,
    contributions: Seq<(AccountId, Balance)>,
)
    requires
        before.within_supply(),
    ensures
        ShareDistributorView::init().within_supply(),
        before.open_virtual_account(asset) matches Ok(after) ==> after.0.within_supply(),
        before.issue_tokens(asset, supply) matches Ok(after) ==> after.within_supply(),
        before.distribute(asset, contributions) matches Ok(after) ==> after.within_supply(),
{
    if before.distribute(asset, contributions) is Ok {
        lemma_allot_within_supply(before.accounts[asset.index()].supply, contributions);
    }
}

/// What a prefix of the contributors gets, times the total contributed, is at
/// most the supply times what the prefix contributed.
proof fn lemma_allot_bounded(supply: Balance, contributions: Seq<(AccountId, Balance)>, n: int)
    requires
        0 <= n <= contributions.len(),
        total_of(contributions) > 0,
    ensures
        total_of(allot(supply, contributions.subrange(0, n), total_of(contributions))) * total_of(
            contributions,
        ) <= supply * total_of(contributions.subrange(0, n)),
        total_of(contributions.subrange(0, n)) <= total_of(contributions),
    decreases n,
{
    let total = total_of(contributions);
    crate::housing_fund::lemma_total_of_prefix(contributions, n);
    if n == 0 {
        assert(contributions.subrange(0, 0) =~= Seq::empty());
        assert(0 * total <= supply * 0) by (nonlinear_arith);
    } else {
        let prefix = contributions.subrange(0, n);
        assert(prefix.drop_last() =~= contributions.subrange(0, n - 1));
        lemma_allot_bounded(supply, contributions, n - 1);
        let part = prefix.last().1;
        let share = share_of(supply, part, total);
        let before = allot(supply, prefix.drop_last(), total);
        let paid = total_of(prefix.drop_last());
        lemma_total_of_covers(contributions, n - 1);
        assert(supply as nat * part as nat / total <= supply as nat) by (nonlinear_arith)
            requires
                0 < total,
                part <= total,
        ;
        assert(share * total <= supply * part) by (nonlinear_arith)
            requires
                share == supply as nat * part as nat / total,
                total > 0,
        ;
        if share > 0 {
            assert(before.push((prefix.last().0, share)).drop_last() =~= before);
        }
        let given = total_of(allot(supply, prefix, total));
        assert(given == total_of(before) + share);
        assert(given * total <= supply * (paid + part)) by (nonlinear_arith)
            requires
                given == total_of(before) + share,
                total_of(before) * total <= supply * paid,
                share * total <= supply * part,
        ;
    }
}

/// Every owner is a contributor, and holds its share, which is not zero.
pub proof fn lemma_allot_sound(
    supply: Balance,
    contributions: Seq<(AccountId, Balance)>,
    total: nat,
    j: int,
)
    requires
        0 <= j < allot(supply, contributions, total).len(),
    ensures
        allot(supply, contributions, total)[j].1 > 0,
        exists|i: int|
            0 <= i < contributions.len() && #[trigger] contributions[i].0 == allot(
                supply,
                contributions,
                total,
            )[j].0 && share_of(supply, contributions[i].1, total) == allot(
                supply,
                contributions,
                total,
            )[j].1,
    decreases contributions.len(),
{
    let owners = allot(supply, contributions, total);
    let rest = contributions.drop_last();
    let before = allot(supply, rest, total);
    let share = share_of(supply, contributions.last().1, total);
    if share > 0 && j == owners.len() - 1 {
        assert(contributions[contributions.len() - 1].0 == owners[j].0);
    } else {
        assert(owners[j] == before[j]);
        lemma_allot_sound(supply, rest, total, j);
        let i = choose|i: int|
            0 <= i < rest.len() && #[trigger] rest[i].0 == before[j].0 && share_of(
                supply,
                rest[i].1,
                total,
            ) == before[j].1;
        assert(contributions[i].0 == owners[j].0);
    }
}

/// Every contributor whose share is not zero is an owner, and is recorded with
/// its share.
pub proof fn lemma_allot_complete(
    supply: Balance,
    contributions: Seq<(AccountId, Balance)>,
    total: nat,
    i: int,
)
    requires
        0 <= i < contributions.len(),
        share_of(supply, contributions[i].1, total) > 0,
    ensures
        exists|j: int|
            0 <= j < allot(supply, contributions, total).len() && #[trigger] allot(
                supply,
                contributions,
                total,
            )[j] == (contributions[i].0, share_of(supply, contributions[i].1, total)),
    decreases contributions.len(),
{
    let owners = allot(supply, contributions, total);
    let rest = contributions.drop_last();
    let before = allot(supply, rest, total);
    if i == contributions.len() - 1 {
        assert(owners[owners.len() - 1] == (
            contributions[i].0,
            share_of(supply, contributions[i].1, total),
        ));
    } else {
        lemma_allot_complete(supply, rest, total, i);
        let j = choose|j: int|
            0 <= j < before.len() && #[trigger] before[j] == (
                rest[i].0,
                share_of(supply, rest[i].1, total),
            );
        assert(owners[j] == before[j]);
    }
}

/// The owners are exactly the contributors whose share is not zero.
pub proof fn lemma_allot_owners(
    supply: Balance,
    contributions: Seq<(AccountId, Balance)>,
    total: nat,
    who: AccountId,
)
    ensures
        names(allot(supply, contributions, total), who) <==> exists|i: int|
            0 <= i < contributions.len() && #[trigger] contributions[i].0 == who && share_of(
                supply,
                contributions[i].1,
                total,
            ) > 0,
{
    let owners = allot(supply, contributions, total);
    if names(owners, who) {
        let j = choose|j: int| 0 <= j < owners.len() && owners[j].0 == who;
        lemma_allot_sound(supply, contributions, total, j);
    }
    if exists|i: int|
        0 <= i < contributions.len() && #[trigger] contributions[i].0 == who && share_of(
            supply,
            contributions[i].1,
            total,
        ) > 0 {
        let i = choose|i: int|
            0 <= i < contributions.len() && #[trigger] contributions[i].0 == who && share_of(
                supply,
                contributions[i].1,
                total,
            ) > 0;
        lemma_allot_complete(supply, contributions, total, i);
        let j = choose|j: int|
            0 <= j < owners.len() && #[trigger] owners[j] == (
                contributions[i].0,
                share_of(supply, contributions[i].1, total),
            );
        assert(owners[j].0 == who);
    }
}

/// A contributor holds exactly its share of the tokens.
pub proof fn lemma_allot_tokens(
    supply: Balance,
    contributions: Seq<(AccountId, Balance)>,
    total: nat,
    i: int,
)
    requires
        distinct_accounts(contributions),
        0 <= i < contributions.len(),
    ensures
        tokens_in(allot(supply, contributions, total), contributions[i].0) == share_of(
            supply,
            contributions[i].1,
            total,
        ),
    decreases contributions.len(),
{
    let who = contributions[i].0;
    let owners = allot(supply, contributions, total);
    let rest = contributions.drop_last();
    let before = allot(supply, rest, total);
    let share = share_of(supply, contributions.last().1, total);
    if share > 0 {
        assert(owners.drop_last() =~= before);
    }
    if i == contributions.len() - 1 {
        if share == 0 {
            if names(before, who) {
                lemma_allot_owners(supply, rest, total, who);
                let k = choose|k: int| 0 <= k < rest.len() && #[trigger] rest[k].0 == who;
                assert(contributions[k].0 == contributions[i].0);
            }
            lemma_tokens_of_stranger(before, who);
        }
    } else {
        assert(rest[i] == contributions[i]);
        assert(contributions[contributions.len() - 1].0 != who);
        lemma_allot_tokens(supply, rest, total, i);
    }
}

/// Somebody whom `owners` does not name holds no tokens.
pub proof fn lemma_tokens_of_stranger(owners: Seq<(AccountId, Balance)>, who: AccountId)
    requires
        !names(owners, who),
    ensures
        tokens_in(owners, who) == 0,
    decreases owners.len(),
{
    if owners.len() > 0 {
        assert(owners[owners.len() - 1].0 != who);
        assert forall|i: int| 0 <= i < owners.drop_last().len() implies owners.drop_last()[i].0
            != who by {
            assert(owners[i].0 != who);
        }
        lemma_tokens_of_stranger(owners.drop_last(), who);
    }
}

} // verus!
