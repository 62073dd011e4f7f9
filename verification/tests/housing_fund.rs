use fairsquares::currency::{self, Balances};
use fairsquares::housing_fund::{Config, Contribution, Error, HousingFund};
use fairsquares::template::{HouseOwner, Investor, Tenant};
use fairsquares::types::AssetKey;

const A: u64 = 4;
const B: u64 = 5;
const SELLER: u64 = 2;
const FUND: u64 = 91;

fn setup() -> (HousingFund, Balances) {
    let mut balances = Balances::new();
    balances.make_free_balance_be(A, 100_000);
    balances.make_free_balance_be(B, 100_000);
    (HousingFund::new(Config { min_contribution: 10, fund_account: FUND }), balances)
}

#[test]
fn contribution_is_recorded_and_pooled() {
    let (mut fund, mut balances) = setup();
    assert_eq!(fund.fund_account_id(), FUND);
    assert_eq!(fund.contribute_to_fund(&mut balances, A, 50_000), Ok(()));
    assert_eq!(fund.contribute_to_fund(&mut balances, A, 10), Ok(()));
    assert_eq!(fund.contributions(A), Contribution { available: 50_010, reserved: 0 });
    assert_eq!(fund.contributions(B), Contribution { available: 0, reserved: 0 });
    assert_eq!(balances.free_balance(A), 49_990);
    assert_eq!(balances.free_balance(FUND), 50_010);
}

#[test]
fn contribution_below_the_minimum_is_refused() {
    let (mut fund, mut balances) = setup();
    assert_eq!(fund.contribute_to_fund(&mut balances, A, 9), Err(Error::ContributionTooSmall));
    assert_eq!(fund.contributions(A), Contribution { available: 0, reserved: 0 });
    assert_eq!(balances.free_balance(A), 100_000);
    assert_eq!(balances.free_balance(FUND), 0);
}

#[test]
fn contribution_that_cannot_be_paid_is_refused() {
    let (mut fund, mut balances) = setup();
    assert_eq!(
        fund.contribute_to_fund(&mut balances, A, 100_001),
        Err(Error::Currency(currency::Error::InsufficientBalance))
    );
    assert_eq!(fund.contributions(A), Contribution { available: 0, reserved: 0 });
}

#[test]
fn investor_contributes_for_another_account() {
    let (mut fund, mut balances) = setup();
    assert_eq!(Investor::<u32>::contribute(&mut fund, &mut balances, A, B, 1_000), Ok(()));
    assert_eq!(fund.contributions(B).available, 1_000);
    assert_eq!(fund.contributions(A).available, 0);
    assert_eq!(balances.free_balance(A), 99_000);
    assert_eq!(balances.free_balance(B), 100_000);
    assert_eq!(
        Investor::<u32>::contribute(&mut fund, &mut balances, A, B, 5),
        Err(Error::ContributionTooSmall)
    );
}

#[test]
fn records_of_the_parties_hold_what_they_are_made_with() {
    let investor = Investor::new(A, 7u32, 3);
    assert_eq!(investor, Investor { account_id: A, nft: 7u32, age: 3 });
    let tenant = Tenant::new(B, 450u64);
    assert_eq!(tenant, Tenant { account_id: B, rent: 450u64 });
    let owner = HouseOwner { account_id: SELLER, nft: 1u8 };
    assert_eq!(owner.account_id, SELLER);
}

#[test]
fn funds_are_earmarked_without_moving() {
    let (mut fund, mut balances) = setup();
    fund.contribute_to_fund(&mut balances, A, 50_000).unwrap();
    fund.contribute_to_fund(&mut balances, B, 50_000).unwrap();
    let asset = AssetKey { collection: 1, item: 0 };
    let shares = vec![(A, 25_000), (B, 15_000)];
    assert_eq!(fund.reserve_for_acquisition(&mut balances, asset, 40_000, &shares, 7), Ok(()));
    assert_eq!(fund.contributions(A), Contribution { available: 25_000, reserved: 25_000 });
    assert_eq!(fund.contributions(B), Contribution { available: 35_000, reserved: 15_000 });
    assert_eq!(balances.free_balance(FUND), 60_000);
    assert_eq!(balances.reserved_balance(FUND), 40_000);
    let operation = fund.reservations(asset).unwrap();
    assert_eq!(operation.asset, asset);
    assert_eq!(operation.amount, 40_000);
    assert_eq!(operation.block_number, 7);
    assert_eq!(operation.contributions, shares);
    assert_eq!(
        fund.reserve_for_acquisition(&mut balances, asset, 40_000, &shares, 8),
        Err(Error::AlreadyReserved)
    );
}

#[test]
fn shares_that_are_not_payable_are_refused() {
    let (mut fund, mut balances) = setup();
    fund.contribute_to_fund(&mut balances, A, 50_000).unwrap();
    fund.contribute_to_fund(&mut balances, B, 50_000).unwrap();
    let asset = AssetKey { collection: 1, item: 0 };
    // the shares do not add up to the price
    assert_eq!(
        fund.reserve_for_acquisition(&mut balances, asset, 40_000, &vec![(A, 25_000)], 1),
        Err(Error::InvalidShares)
    );
    // a contributor is named twice
    assert_eq!(
        fund.reserve_for_acquisition(
            &mut balances,
            asset,
            40_000,
            &vec![(A, 20_000), (A, 20_000)],
            1
        ),
        Err(Error::InvalidShares)
    );
    // a contributor has not got its share
    assert_eq!(
        fund.reserve_for_acquisition(
            &mut balances,
            asset,
            60_000,
            &vec![(A, 50_001), (B, 9_999)],
            1
        ),
        Err(Error::InvalidShares)
    );
    assert!(fund.reservations(asset).is_none());
    assert_eq!(fund.contributions(A), Contribution { available: 50_000, reserved: 0 });
    // the pool does not hold the price
    balances.make_free_balance_be(FUND, 10);
    assert_eq!(
        fund.reserve_for_acquisition(
            &mut balances,
            asset,
            40_000,
            &vec![(A, 25_000), (B, 15_000)],
            1
        ),
        Err(Error::Currency(currency::Error::InsufficientBalance))
    );
    assert_eq!(fund.contributions(A), Contribution { available: 50_000, reserved: 0 });
}

#[test]
fn earmarked_funds_are_paid_once() {
    let (mut fund, mut balances) = setup();
    fund.contribute_to_fund(&mut balances, A, 50_000).unwrap();
    fund.contribute_to_fund(&mut balances, B, 50_000).unwrap();
    let asset = AssetKey { collection: 1, item: 0 };
    let shares = vec![(A, 25_000), (B, 15_000)];
    assert_eq!(fund.pay_for_acquisition(&mut balances, asset, SELLER), Err(Error::NotReserved));
    fund.reserve_for_acquisition(&mut balances, asset, 40_000, &shares, 7).unwrap();
    assert_eq!(fund.pay_for_acquisition(&mut balances, asset, SELLER), Ok(shares));
    assert_eq!(balances.free_balance(SELLER), 40_000);
    assert_eq!(balances.free_balance(FUND), 60_000);
    assert_eq!(balances.reserved_balance(FUND), 0);
    assert_eq!(fund.contributions(A), Contribution { available: 25_000, reserved: 0 });
    assert_eq!(fund.contributions(B), Contribution { available: 35_000, reserved: 0 });
    assert_eq!(fund.pay_for_acquisition(&mut balances, asset, SELLER), Err(Error::NotReserved));
}

#[test]
fn a_recorded_contribution_does_not_exceed_the_largest_amount() {
    let (mut fund, mut balances) = setup();
    balances.make_free_balance_be(A, u64::MAX);
    assert_eq!(fund.contribute_to_fund(&mut balances, A, u64::MAX - 5), Ok(()));
    balances.make_free_balance_be(A, 100);
    assert_eq!(fund.contribute_to_fund(&mut balances, A, 10), Err(Error::Overflow));
    assert_eq!(fund.contributions(A).available, u64::MAX - 5);
    assert_eq!(balances.free_balance(A), 100);
}
