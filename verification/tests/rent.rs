use fairsquares::asset_management;
use fairsquares::currency::{self, Balances};
use fairsquares::housing_fund;
use fairsquares::identity::Judgement;
use fairsquares::onboarding::{self, AssetStatus};
use fairsquares::roles::{self, Accounts as Acc, GenesisConfig};
use fairsquares::runtime::{Config, DispatchError, Event, Runtime};
use fairsquares::share_distributor::virtual_account_of;
use fairsquares::tenancy::{
    self, capped_mul_div, compute_rent_share, pay_owners, Error, PaymentObligation, PaymentState,
    ScheduledTask, Tenancy,
};
use fairsquares::types::AssetKey;
use fairsquares::voting;

const ALICE: u64 = 1;
const BOB: u64 = 2;
const CHARLIE: u64 = 3;
const DAVE: u64 = 4;
const EVE: u64 = 5;
const NOTARY: u64 = 11;
const REPRESENTATIVE: u64 = 12;
const TENANT0: u64 = 13;
const FUND_ACCOUNT: u64 = 91;
const RENT_CHECK: u64 = 5;

/// A ledger in which DAVE and EVE own 600 and 400 of the 1000 tokens of an
/// asset of price 1000000, which TENANT0 rents for 10000 a period.
fn rented() -> (Runtime, AssetKey) {
    let config = Config {
        roles: roles::Config { max_members: 200 },
        fund: housing_fund::Config { min_contribution: 10, fund_account: FUND_ACCOUNT },
        onboarding: onboarding::Config { onboarded_period: 1, finalised_period: 1 },
        voting: voting::Config {
            council_window: 1,
            opening_delay: 1,
            delay: 1,
            voting_period: 2,
        },
        tenancy: tenancy::Config {
            rent_check: RENT_CHECK,
            yearly_rent_percent: 12,
            guaranty_rents: 2,
        },
        asset_management: asset_management::Config { investor_vote_amount: 1 },
    };
    let mut runtime =
        Runtime::new(config, &GenesisConfig::default(), Some(ALICE), vec![ALICE, BOB, CHARLIE]);
    for who in [ALICE, BOB, CHARLIE, DAVE, EVE, NOTARY, REPRESENTATIVE, TENANT0] {
        runtime.make_free_balance_be(who, 10_000_000);
    }
    runtime.set_role(CHARLIE, CHARLIE, Acc::SERVICER).unwrap();
    runtime.account_approval(ALICE, CHARLIE).unwrap();
    runtime.set_role(BOB, BOB, Acc::SELLER).unwrap();
    runtime.account_approval(ALICE, BOB).unwrap();
    runtime.set_role(NOTARY, NOTARY, Acc::NOTARY).unwrap();
    runtime.account_approval(ALICE, NOTARY).unwrap();
    runtime.set_role(DAVE, DAVE, Acc::INVESTOR).unwrap();
    runtime.set_role(EVE, EVE, Acc::INVESTOR).unwrap();
    runtime.set_role(TENANT0, TENANT0, Acc::TENANT).unwrap();
    runtime.set_role(REPRESENTATIVE, REPRESENTATIVE, Acc::REPRESENTATIVE).unwrap();
    runtime.contribute_to_fund(DAVE, 1_000_000).unwrap();
    runtime.contribute_to_fund(EVE, 1_000_000).unwrap();
    runtime.create_collection(CHARLIE, 0).unwrap();

    let asset = runtime.create_and_submit_proposal(BOB, 0, 1_000_000, vec![], true).unwrap();
    runtime.council_vote(ALICE, 0, true).unwrap();
    runtime.council_vote(BOB, 0, true).unwrap();
    runtime.fast_forward_to(3);
    runtime.investor_vote(DAVE, 0, true).unwrap();
    while runtime.onboarding().status(asset) != Some(AssetStatus::ONBOARDED) {
        runtime.next_block();
    }
    runtime.reserve_for_acquisition(asset, &vec![(DAVE, 600_000), (EVE, 400_000)]).unwrap();
    while runtime.onboarding().status(asset) != Some(AssetStatus::FINALISING) {
        runtime.next_block();
    }
    runtime.validate_transaction_asset(NOTARY, asset).unwrap();
    while runtime.onboarding().status(asset) != Some(AssetStatus::PURCHASED) {
        runtime.next_block();
    }
    assert_eq!(runtime.shares().balance(asset, DAVE), 600);
    assert_eq!(runtime.shares().balance(asset, EVE), 400);

    let election = runtime.representative_session(DAVE, asset, REPRESENTATIVE).unwrap();
    runtime.owners_vote(DAVE, election, true).unwrap();
    while runtime.roles().reps(REPRESENTATIVE).is_none() {
        runtime.next_block();
    }
    let session = runtime
        .launch_tenant_session(REPRESENTATIVE, asset, TENANT0, Judgement::Reasonable)
        .unwrap();
    runtime.owners_vote(DAVE, session, true).unwrap();
    runtime.owners_vote(EVE, session, true).unwrap();
    while runtime.roles().tenants(TENANT0).unwrap().asset_account.is_none() {
        runtime.next_block();
    }
    (runtime, asset)
}

#[test]
fn enactment_requests_the_deposit_and_the_rent() {
    let (runtime, asset) = rented();
    let account = virtual_account_of(asset);
    let now = runtime.block_number();
    let tenant = runtime.roles().tenants(TENANT0).unwrap();
    assert_eq!(tenant.rent, 10_000);
    assert_eq!(tenant.asset_account, Some(account));
    assert_eq!(tenant.contract_start, now);
    assert_eq!(runtime.onboarding().houses(asset).unwrap().tenants, vec![TENANT0]);
    assert_eq!(
        runtime.tenancy().guaranty(TENANT0, account),
        Some(PaymentObligation {
            payer: TENANT0,
            payee: account,
            amount: 20_000,
            state: PaymentState::PaymentRequested
        })
    );
    assert_eq!(runtime.tenancy().guaranty(TENANT0, account + 1), None);
    assert_eq!(
        runtime.tenancy().rent(TENANT0),
        Some(PaymentObligation {
            payer: TENANT0,
            payee: account,
            amount: 10_000,
            state: PaymentState::PaymentRequested
        })
    );
    assert_eq!(runtime.tenancy().scheduled(), 1);
    assert_eq!(
        runtime.tenancy().task(0),
        Some(ScheduledTask { due: now + RENT_CHECK, tenant: TENANT0 })
    );
    assert_eq!(
        runtime.last_event(),
        Some(Event::Tenancy(tenancy::Event::GuarantyRequested {
            tenant: TENANT0,
            asset_account: account,
            amount: 20_000
        }))
    );
}

#[test]
fn the_guaranty_deposit_is_paid_once() {
    let (mut runtime, asset) = rented();
    let account = virtual_account_of(asset);
    let tenant_before = runtime.balances().free_balance(TENANT0);
    let account_before = runtime.balances().free_balance(account);
    assert_eq!(runtime.pay_guaranty_deposit(TENANT0, asset), Ok(()));
    assert_eq!(
        runtime.tenancy().guaranty(TENANT0, account).unwrap().state,
        PaymentState::PaymentCompleted
    );
    assert_eq!(runtime.balances().free_balance(TENANT0), tenant_before - 20_000);
    assert_eq!(runtime.balances().free_balance(account), account_before + 20_000);
    assert_eq!(
        runtime.last_event(),
        Some(Event::Tenancy(tenancy::Event::GuarantyPaid {
            tenant: TENANT0,
            asset_account: account,
            amount: 20_000
        }))
    );
    // a second payment is refused and moves nothing
    assert_eq!(
        runtime.pay_guaranty_deposit(TENANT0, asset),
        Err(DispatchError::Tenancy(Error::PaymentAlreadyInProcess))
    );
    assert_eq!(runtime.balances().free_balance(TENANT0), tenant_before - 20_000);
    assert_eq!(runtime.balances().free_balance(account), account_before + 20_000);
    // the checks of the rent leave the deposit paid
    runtime.fast_forward_to(runtime.block_number() + 3 * RENT_CHECK);
    assert_eq!(
        runtime.tenancy().guaranty(TENANT0, account).unwrap().state,
        PaymentState::PaymentCompleted
    );
    assert_eq!(
        runtime.pay_guaranty_deposit(TENANT0, asset),
        Err(DispatchError::Tenancy(Error::PaymentAlreadyInProcess))
    );
}

#[test]
fn a_deposit_that_is_not_owed_or_cannot_be_paid_is_refused() {
    let (mut runtime, asset) = rented();
    assert_eq!(
        runtime.pay_guaranty_deposit(DAVE, asset),
        Err(DispatchError::Tenancy(Error::NotATenant))
    );
    assert_eq!(
        runtime.pay_guaranty_deposit(TENANT0, AssetKey { collection: 0, item: 3 }),
        Err(DispatchError::Tenancy(Error::NotATenant))
    );
    assert_eq!(runtime.pay_rent(DAVE), Err(DispatchError::Tenancy(Error::NotATenant)));
    runtime.make_free_balance_be(TENANT0, 19_999);
    assert_eq!(
        runtime.pay_guaranty_deposit(TENANT0, asset),
        Err(DispatchError::Tenancy(Error::Currency(currency::Error::InsufficientBalance)))
    );
    assert_eq!(
        runtime.tenancy().guaranty(TENANT0, virtual_account_of(asset)).unwrap().state,
        PaymentState::PaymentRequested
    );
    assert_eq!(runtime.pay_rent(TENANT0), Ok(()));
}

#[test]
fn rent_is_handed_to_the_owners_by_their_tokens_at_the_next_check() {
    let (mut runtime, asset) = rented();
    let account = virtual_account_of(asset);
    let rent = runtime.roles().tenants(TENANT0).unwrap().rent;
    let baseline = runtime.balances().free_balance(account);
    let dave = runtime.balances().free_balance(DAVE);
    let eve = runtime.balances().free_balance(EVE);

    assert_eq!(runtime.pay_rent(TENANT0), Ok(()));
    assert_eq!(runtime.balances().free_balance(account), baseline + rent);
    assert_eq!(runtime.tenancy().rent(TENANT0).unwrap().state, PaymentState::PaymentCompleted);
    assert_eq!(
        runtime.pay_rent(TENANT0),
        Err(DispatchError::Tenancy(Error::PaymentAlreadyInProcess))
    );
    // nothing is handed out before the check
    let due = runtime.tenancy().task(0).unwrap().due;
    runtime.fast_forward_to(due - 1);
    assert_eq!(runtime.balances().free_balance(DAVE), dave);
    assert_eq!(runtime.balances().free_balance(account), baseline + rent);

    runtime.next_block();
    assert_eq!(runtime.balances().free_balance(DAVE), dave + 6_000);
    assert_eq!(runtime.balances().free_balance(EVE), eve + 4_000);
    assert_eq!(runtime.balances().free_balance(DAVE) - dave, rent * 6 / 10);
    assert_eq!(runtime.balances().free_balance(EVE) - eve, rent * 4 / 10);
    assert_eq!(runtime.balances().free_balance(account), baseline);
    assert_eq!(
        runtime.last_event(),
        Some(Event::Tenancy(tenancy::Event::RentDistributed {
            tenant: TENANT0,
            asset_account: account,
            amount: rent
        }))
    );
    // the rent of the next period is requested, and the check is put off
    assert_eq!(runtime.tenancy().rent(TENANT0).unwrap().state, PaymentState::PaymentRequested);
    assert_eq!(
        runtime.tenancy().task(0),
        Some(ScheduledTask { due: due + RENT_CHECK, tenant: TENANT0 })
    );
    assert_eq!(runtime.pay_rent(TENANT0), Ok(()));
}

#[test]
fn a_rent_that_is_not_paid_stays_requested() {
    let (mut runtime, asset) = rented();
    let account = virtual_account_of(asset);
    let baseline = runtime.balances().free_balance(account);
    let dave = runtime.balances().free_balance(DAVE);
    let events = runtime.event_count();
    runtime.fast_forward_to(runtime.block_number() + 4 * RENT_CHECK);
    assert_eq!(runtime.tenancy().rent(TENANT0).unwrap().state, PaymentState::PaymentRequested);
    assert_eq!(runtime.balances().free_balance(account), baseline);
    assert_eq!(runtime.balances().free_balance(DAVE), dave);
    assert_eq!(runtime.event_count(), events);
    assert_eq!(runtime.tenancy().scheduled(), 1);
}

#[test]
fn a_tenancy_is_opened_once() {
    let mut tenancy = Tenancy::new(tenancy::Config {
        rent_check: 5,
        yearly_rent_percent: 6,
        guaranty_rents: 3,
    });
    assert_eq!(tenancy.config().guaranty_rents, 3);
    assert!(!tenancy.is_tenant(TENANT0));
    assert_eq!(
        tenancy.open(TENANT0, 900, 240_000, 7),
        Ok(tenancy::Event::GuarantyRequested { tenant: TENANT0, asset_account: 900, amount: 3_600 })
    );
    assert!(tenancy.is_tenant(TENANT0));
    assert_eq!(tenancy.rent(TENANT0).unwrap().amount, 1_200);
    assert_eq!(tenancy.task(0), Some(ScheduledTask { due: 12, tenant: TENANT0 }));
    assert_eq!(tenancy.task(1), None);
    assert_eq!(tenancy.open(TENANT0, 901, 240_000, 8), Err(Error::AlreadyATenant));
    assert_eq!(tenancy.scheduled(), 1);
}

#[test]
fn a_check_finds_what_was_paid() {
    let mut tenancy = Tenancy::new(tenancy::Config {
        rent_check: 5,
        yearly_rent_percent: 6,
        guaranty_rents: 3,
    });
    let mut balances = Balances::new();
    balances.make_free_balance_be(TENANT0, 5_000);
    tenancy.open(TENANT0, 900, 240_000, 7).unwrap();
    assert_eq!(tenancy.collects(0, 12), None);
    tenancy.pay_rent(&mut balances, TENANT0).unwrap();
    assert_eq!(balances.free_balance(900), 1_200);
    assert_eq!(tenancy.collects(0, 11), None);
    let found = tenancy.collects(0, 12).unwrap();
    assert_eq!((found.payer, found.payee, found.amount), (TENANT0, 900, 1_200));
    tenancy.check(0, 11, true);
    assert_eq!(tenancy.task(0), Some(ScheduledTask { due: 12, tenant: TENANT0 }));
    assert_eq!(tenancy.rent(TENANT0).unwrap().state, PaymentState::PaymentCompleted);
    // a rent that was not handed out waits for the next check
    tenancy.check(0, 12, false);
    assert_eq!(tenancy.task(0), Some(ScheduledTask { due: 17, tenant: TENANT0 }));
    assert_eq!(tenancy.rent(TENANT0).unwrap().state, PaymentState::PaymentCompleted);
    tenancy.check(0, 17, true);
    assert_eq!(tenancy.task(0), Some(ScheduledTask { due: 22, tenant: TENANT0 }));
    assert_eq!(tenancy.rent(TENANT0).unwrap().state, PaymentState::PaymentRequested);
}

#[test]
fn owners_are_paid_their_share_rounded_down() {
    let mut balances = Balances::new();
    balances.make_free_balance_be(900, 1_000);
    assert!(pay_owners(&mut balances, 900, 100, &vec![(DAVE, 333), (EVE, 333), (BOB, 334)], 1000));
    assert_eq!(balances.free_balance(DAVE), 33);
    assert_eq!(balances.free_balance(EVE), 33);
    assert_eq!(balances.free_balance(BOB), 33);
    assert_eq!(balances.free_balance(900), 901);
    assert_eq!(compute_rent_share(100, 334, 1000), 33);
    assert_eq!(compute_rent_share(10_000, 600, 1000), 6_000);
    assert_eq!(compute_rent_share(10_000, 600, 0), 0);
    assert_eq!(compute_rent_share(10_000, 1001, 1000), 0);
}

#[test]
fn a_rent_that_cannot_be_handed_to_all_owners_is_handed_to_none() {
    // the last owner cannot be paid: the account holds too little
    let mut balances = Balances::new();
    balances.make_free_balance_be(900, 50);
    let owners = vec![(DAVE, 400), (EVE, 300), (BOB, 300)];
    assert!(!pay_owners(&mut balances, 900, 100, &owners, 1000));
    assert_eq!(balances.free_balance(DAVE), 0);
    assert_eq!(balances.free_balance(EVE), 0);
    assert_eq!(balances.free_balance(BOB), 0);
    assert_eq!(balances.free_balance(900), 50);
    // an owner in the middle cannot be paid: its balance would overflow
    balances.make_free_balance_be(900, 1_000);
    balances.make_free_balance_be(EVE, u64::MAX);
    assert!(!pay_owners(&mut balances, 900, 100, &owners, 1000));
    assert_eq!(balances.free_balance(DAVE), 0);
    assert_eq!(balances.free_balance(EVE), u64::MAX);
    assert_eq!(balances.free_balance(900), 1_000);
    balances.make_free_balance_be(EVE, 7);
    assert!(pay_owners(&mut balances, 900, 100, &owners, 1000));
    assert_eq!(balances.free_balance(DAVE), 40);
    assert_eq!(balances.free_balance(EVE), 37);
    assert_eq!(balances.free_balance(BOB), 30);
    assert_eq!(balances.free_balance(900), 900);
    let copy = balances.snapshot();
    assert_eq!(copy.free_balance(EVE), 37);
}

#[test]
fn a_rent_that_cannot_be_handed_out_waits_for_the_next_check() {
    let (mut runtime, asset) = rented();
    let account = virtual_account_of(asset);
    runtime.pay_rent(TENANT0).unwrap();
    // EVE cannot take her share
    runtime.make_free_balance_be(EVE, u64::MAX);
    let dave = runtime.balances().free_balance(DAVE);
    let held = runtime.balances().free_balance(account);
    let events = runtime.event_count();
    let due = runtime.tenancy().task(0).unwrap().due;
    runtime.fast_forward_to(due);
    assert_eq!(runtime.balances().free_balance(DAVE), dave);
    assert_eq!(runtime.balances().free_balance(account), held);
    assert_eq!(runtime.event_count(), events);
    assert_eq!(runtime.tenancy().rent(TENANT0).unwrap().state, PaymentState::PaymentCompleted);
    assert_eq!(
        runtime.tenancy().task(0),
        Some(ScheduledTask { due: due + RENT_CHECK, tenant: TENANT0 })
    );
    // at the next check she can
    runtime.make_free_balance_be(EVE, 0);
    runtime.fast_forward_to(due + RENT_CHECK);
    assert_eq!(runtime.balances().free_balance(DAVE), dave + 6_000);
    assert_eq!(runtime.balances().free_balance(EVE), 4_000);
    assert_eq!(runtime.balances().free_balance(account), held - 10_000);
    assert_eq!(runtime.tenancy().rent(TENANT0).unwrap().state, PaymentState::PaymentRequested);
}

#[test]
fn rent_and_deposit_are_computed_from_the_price() {
    assert_eq!(capped_mul_div(450_000, 12, 1200), 4_500);
    assert_eq!(capped_mul_div(1_199, 1, 1200), 0);
    assert_eq!(capped_mul_div(4_500, 3, 1), 13_500);
    assert_eq!(capped_mul_div(u64::MAX, 2, 1), u64::MAX);
    assert_eq!(capped_mul_div(u64::MAX, 1200, 1200), u64::MAX);
}
