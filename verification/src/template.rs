//! The plain records of the three parties to an asset: who invests in it, who
//! owns it, who rents it.

use crate::currency::Balances;
use crate::housing_fund::HousingFund;
use crate::types::{AccountId, Balance, BlockNumber};
use vstd::prelude::*;

verus! {

/// Somebody who invests, with what the investment is held in.
#[derive(Debug, PartialEq)]
pub struct Investor<U> {
    pub account_id: AccountId,
    pub nft: U,
    /// The block at which the investor joined.
    pub age: BlockNumber,
}

impl<U> Investor<U> {
    /// The investor `acc`, who joins at block `now`.
    pub fn new(acc: AccountId, nft: U, now: BlockNumber) -> (investor: Self)
        ensures
            investor.account_id == acc,
            investor.nft == nft,
            investor.age == now,
    {
        Investor { account_id: acc, nft, age: now }
    }

    /// Records a contribution of `value` to the fund for the investor `acc`,
    /// paid by `who` into the pooled funds.
    ///
    /// Fails with [`crate::housing_fund::Error::ContributionTooSmall`] below
    /// the minimum that the fund accepts, and where `who` cannot pay; nothing
    /// changes then.
    pub fn contribute(
        fund: &mut HousingFund,
        balances: &mut Balances,
        who: AccountId,
        acc: AccountId,
        value: Balance,
    ) -> (res: Result<(), crate::housing_fund::Error>)
        ensures
            match old(fund)@.contribute(old(balances)@, who, acc, value) {
                Ok((after, paid)) => res is Ok && final(fund)@ == after && final(balances)@
                    == paid,
                Err(e) => res == Err::<(), crate::housing_fund::Error>(e) && final(fund)@ == old(fund)@ && final(balances)@ == old(balances)@,
            },
    {
        fund.contribute(balances, who, acc, value)
    }
}

/// Somebody who owns a house, with the token that stands for it.
#[derive(Debug, PartialEq)]
pub struct HouseOwner<U> {
    pub account_id: AccountId,
    pub nft: U,
}

/// Somebody who rents, with the rent.
#[derive(Debug, PartialEq)]
pub struct Tenant<U> {
    pub account_id: AccountId,
    pub rent: U,
}

impl<U> Tenant<U> {
    /// The tenant `acc`, who pays `rent`.
    pub fn new(acc: AccountId, rent: U) -> (tenant: Self)
        ensures
            tenant.account_id == acc,
            tenant.rent == rent,
    {
        Tenant { account_id: acc, rent }
    }
}

} // verus!
