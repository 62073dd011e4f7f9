use fairsquares::share_distributor::{
    asset_of, compute_share, virtual_account_of, Error, ShareDistributor,
};
use fairsquares::types::{AssetKey, TOKEN_SUPPLY};

const A: u64 = 4;
const B: u64 = 5;
const C: u64 = 6;

fn issued(asset: AssetKey) -> ShareDistributor {
    let mut shares = ShareDistributor::new();
    shares.open_virtual_account(asset).unwrap();
    shares.issue_tokens(asset, TOKEN_SUPPLY).unwrap();
    shares
}

#[test]
fn contributions_of_25000_and_15000_get_625_and_375_tokens() {
    let asset = AssetKey { collection: 0, item: 0 };
    let mut shares = issued(asset);
    assert_eq!(shares.distribute(asset, &vec![(A, 25_000), (B, 15_000)]), Ok(()));
    assert_eq!(shares.balance(asset, A), 625);
    assert_eq!(shares.balance(asset, B), 375);
    assert_eq!(shares.balance(asset, A) + shares.balance(asset, B), 1000);
    assert_eq!(shares.undistributed(asset), 0);
    assert!(shares.is_owner(asset, A));
    assert!(shares.is_owner(asset, B));
    assert!(!shares.is_owner(asset, C));
}

#[test]
fn what_rounding_leaves_stays_with_the_custodial_account() {
    let asset = AssetKey { collection: 0, item: 0 };
    let mut shares = issued(asset);
    assert_eq!(shares.distribute(asset, &vec![(A, 1), (B, 1), (C, 1)]), Ok(()));
    assert_eq!(shares.balance(asset, A), 333);
    assert_eq!(shares.balance(asset, B), 333);
    assert_eq!(shares.balance(asset, C), 333);
    assert_eq!(shares.undistributed(asset), 1);
    assert_eq!(shares.total_supply(asset), 1000);
}

#[test]
fn a_contributor_whose_share_is_zero_is_no_owner() {
    let asset = AssetKey { collection: 0, item: 0 };
    let mut shares = issued(asset);
    assert_eq!(shares.distribute(asset, &vec![(A, 1), (B, 0), (C, 1_000_000)]), Ok(()));
    assert_eq!(shares.virtual_acc(asset).unwrap().owners, vec![(C, 999)]);
    assert!(!shares.is_owner(asset, A));
    assert!(!shares.is_owner(asset, B));
    assert_eq!(shares.balance(asset, A), 0);
    assert_eq!(shares.undistributed(asset), 1);
}

#[test]
fn shares_are_rounded_down() {
    assert_eq!(compute_share(1000, 25_000, 40_000), 625);
    assert_eq!(compute_share(1000, 1, 3), 333);
    assert_eq!(compute_share(1000, 2, 3), 666);
    assert_eq!(compute_share(u64::MAX, u64::MAX, u64::MAX as u128), u64::MAX);
    assert_eq!(compute_share(4_500, 222, 1000), 999);
}

#[test]
fn custodial_accounts_are_derived_from_the_asset() {
    let first = AssetKey { collection: 2, item: 0 };
    let second = AssetKey { collection: 3, item: 0 };
    assert_eq!(virtual_account_of(first), u64::MAX - (2u64 << 32));
    assert_ne!(virtual_account_of(first), virtual_account_of(second));
    assert_eq!(asset_of(virtual_account_of(first)), first);
    assert_eq!(asset_of(virtual_account_of(second)), second);
    assert_eq!(first.index(), 2u64 << 32);
    assert_eq!(AssetKey::from_index(first.index() + 5), AssetKey { collection: 2, item: 5 });
}

#[test]
fn an_asset_has_one_custodial_account() {
    let asset = AssetKey { collection: 0, item: 1 };
    let mut shares = ShareDistributor::new();
    assert!(!shares.has_account(asset));
    assert_eq!(shares.open_virtual_account(asset), Ok(virtual_account_of(asset)));
    assert!(shares.has_account(asset));
    assert_eq!(shares.open_virtual_account(asset), Err(Error::AssetAlreadyOwned));
    assert_eq!(shares.token_id(), 1);
}

#[test]
fn tokens_are_issued_once() {
    let asset = AssetKey { collection: 0, item: 1 };
    let mut shares = ShareDistributor::new();
    assert_eq!(shares.issue_tokens(asset, 1000), Err(Error::NotAnAsset));
    shares.open_virtual_account(asset).unwrap();
    assert_eq!(shares.issue_tokens(asset, 0), Err(Error::ZeroSupply));
    assert_eq!(shares.issue_tokens(asset, 1000), Ok(()));
    assert_eq!(shares.issue_tokens(asset, 1000), Err(Error::TokensAlreadyIssued));
    assert_eq!(shares.total_supply(asset), 1000);
}

#[test]
fn tokens_are_distributed_once_and_only_for_valid_contributions() {
    let asset = AssetKey { collection: 0, item: 1 };
    let mut shares = ShareDistributor::new();
    let contributions = vec![(A, 10), (B, 30)];
    assert_eq!(shares.distribute(asset, &contributions), Err(Error::NotAnAsset));
    shares.open_virtual_account(asset).unwrap();
    assert_eq!(shares.distribute(asset, &contributions), Err(Error::NoTokens));
    shares.issue_tokens(asset, 1000).unwrap();
    assert_eq!(shares.distribute(asset, &vec![]), Err(Error::InvalidContributions));
    assert_eq!(shares.distribute(asset, &vec![(A, 0)]), Err(Error::InvalidContributions));
    assert_eq!(
        shares.distribute(asset, &vec![(A, 10), (A, 30)]),
        Err(Error::InvalidContributions)
    );
    assert_eq!(shares.undistributed(asset), 1000);
    assert_eq!(shares.distribute(asset, &contributions), Ok(()));
    assert_eq!(shares.virtual_acc(asset).unwrap().owners, vec![(A, 250), (B, 750)]);
    assert_eq!(shares.distribute(asset, &contributions), Err(Error::AlreadyDistributed));
}
