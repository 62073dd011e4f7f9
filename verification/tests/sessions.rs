use fairsquares::asset_management::{self, VoteProposals};
use fairsquares::housing_fund;
use fairsquares::identity::{ten0, Data, Judgement};
use fairsquares::onboarding::{self, AssetStatus};
use fairsquares::roles::{self, Accounts as Acc, GenesisConfig};
use fairsquares::runtime::{Config, DispatchError, Event, Runtime};
use fairsquares::share_distributor::virtual_account_of;
use fairsquares::tenancy;
use fairsquares::types::AssetKey;
use fairsquares::voting::{self, Outcome};

const ALICE: u64 = 1;
const BOB: u64 = 2;
const CHARLIE: u64 = 3;
const DAVE: u64 = 4;
const EVE: u64 = 5;
const FERDIE: u64 = 6;
const NOTARY: u64 = 11;
const REPRESENTATIVE: u64 = 12;
const TENANT0: u64 = 13;
const STRANGER: u64 = 20;
const FUND_ACCOUNT: u64 = 91;

fn runtime() -> Runtime {
    let config = Config {
        roles: roles::Config { max_members: 200 },
        fund: housing_fund::Config { min_contribution: 10, fund_account: FUND_ACCOUNT },
        onboarding: onboarding::Config { onboarded_period: 1, finalised_period: 1 },
        voting: voting::Config {
            council_window: 1,
            opening_delay: 1,
            delay: 1,
            voting_period: 2,
        },
        tenancy: tenancy::Config { rent_check: 5, yearly_rent_percent: 12, guaranty_rents: 2 },
        asset_management: asset_management::Config { investor_vote_amount: 1 },
    };
    let mut runtime =
        Runtime::new(config, &GenesisConfig::default(), Some(ALICE), vec![ALICE, BOB, CHARLIE]);
    for who in [ALICE, BOB, CHARLIE, DAVE, EVE, FERDIE, NOTARY, REPRESENTATIVE, TENANT0, STRANGER]
    {
        runtime.make_free_balance_be(who, 10_000_000);
    }
    runtime.set_role(CHARLIE, CHARLIE, Acc::SERVICER).unwrap();
    runtime.account_approval(ALICE, CHARLIE).unwrap();
    runtime.set_role(BOB, BOB, Acc::SELLER).unwrap();
    runtime.account_approval(ALICE, BOB).unwrap();
    runtime.set_role(NOTARY, NOTARY, Acc::NOTARY).unwrap();
    runtime.account_approval(ALICE, NOTARY).unwrap();
    runtime.set_role(DAVE, DAVE, Acc::INVESTOR).unwrap();
    runtime.set_role(EVE, EVE, Acc::INVESTOR).unwrap();
    runtime.set_role(TENANT0, TENANT0, Acc::TENANT).unwrap();
    runtime.set_role(REPRESENTATIVE, REPRESENTATIVE, Acc::REPRESENTATIVE).unwrap();
    runtime.contribute_to_fund(DAVE, 1_000_000).unwrap();
    runtime.contribute_to_fund(EVE, 1_000_000).unwrap();
    runtime.create_collection(CHARLIE, 0).unwrap();
    runtime
}

/// Brings an asset of price `price`, paid by DAVE and EVE as `shares` says, to
/// its owners.
fn purchased(runtime: &mut Runtime, price: u64, shares: Vec<(u64, u64)>) -> AssetKey {
    let asset = runtime.create_and_submit_proposal(BOB, 0, price, vec![], true).unwrap();
    let proposal = (runtime.bridge().proposal_count() - 1) as u32;
    runtime.council_vote(ALICE, proposal, true).unwrap();
    runtime.council_vote(BOB, proposal, true).unwrap();
    while runtime.onboarding().status(asset) == Some(AssetStatus::REVIEWING) {
        runtime.next_block();
    }
    assert_eq!(runtime.onboarding().status(asset), Some(AssetStatus::VOTING));
    while runtime.investor_vote(DAVE, proposal, true).is_err() {
        runtime.next_block();
    }
    while runtime.onboarding().status(asset) == Some(AssetStatus::VOTING) {
        runtime.next_block();
    }
    assert_eq!(runtime.onboarding().status(asset), Some(AssetStatus::ONBOARDED));
    runtime.reserve_for_acquisition(asset, &shares).unwrap();
    while runtime.onboarding().status(asset) == Some(AssetStatus::ONBOARDED) {
        runtime.next_block();
    }
    runtime.validate_transaction_asset(NOTARY, asset).unwrap();
    while runtime.onboarding().status(asset) == Some(AssetStatus::FINALISED) {
        runtime.next_block();
    }
    assert_eq!(runtime.onboarding().status(asset), Some(AssetStatus::PURCHASED));
    asset
}

fn elect_representative(runtime: &mut Runtime, asset: AssetKey) {
    let referendum = runtime.representative_session(DAVE, asset, REPRESENTATIVE).unwrap();
    runtime.owners_vote(DAVE, referendum, true).unwrap();
    while runtime.roles().reps(REPRESENTATIVE).is_none() {
        runtime.next_block();
    }
}

#[test]
fn purchase_hands_the_tokens_to_the_contributors() {
    let mut runtime = runtime();
    let seller_before = runtime.balances().free_balance(BOB);
    let asset = purchased(&mut runtime, 40_000, vec![(DAVE, 25_000), (EVE, 15_000)]);
    assert_eq!(runtime.shares().balance(asset, DAVE), 625);
    assert_eq!(runtime.shares().balance(asset, EVE), 375);
    assert_eq!(runtime.shares().total_supply(asset), 1000);
    assert_eq!(runtime.shares().undistributed(asset), 0);
    assert_eq!(runtime.balances().free_balance(BOB), seller_before + 40_000);
    assert_eq!(runtime.balances().free_balance(FUND_ACCOUNT), 2_000_000 - 40_000);
    assert_eq!(runtime.balances().reserved_balance(FUND_ACCOUNT), 0);
    assert_eq!(runtime.onboarding().houses(asset).unwrap().owner, virtual_account_of(asset));
    assert_eq!(
        runtime.last_event(),
        Some(Event::OwnershipDistributed { asset, asset_account: virtual_account_of(asset) })
    );
    assert!(runtime.fund().reservations(asset).is_none());
}

#[test]
fn an_asset_without_earmarked_funds_stays_finalised_until_it_can_be_paid() {
    let mut runtime = runtime();
    let asset = runtime.create_and_submit_proposal(BOB, 0, 40_000, vec![], true).unwrap();
    runtime.council_vote(ALICE, 0, true).unwrap();
    runtime.council_vote(BOB, 0, true).unwrap();
    runtime.fast_forward_to(3);
    runtime.investor_vote(DAVE, 0, true).unwrap();
    while runtime.onboarding().status(asset) != Some(AssetStatus::FINALISING) {
        runtime.next_block();
    }
    runtime.validate_transaction_asset(NOTARY, asset).unwrap();
    let seller = runtime.balances().free_balance(BOB);
    let pool = runtime.balances().free_balance(FUND_ACCOUNT);
    let events = runtime.event_count();
    runtime.fast_forward_to(runtime.block_number() + 5);
    // nothing is earmarked: the purchase is left, as a whole
    assert_eq!(runtime.onboarding().status(asset), Some(AssetStatus::FINALISED));
    assert!(!runtime.shares().has_account(asset));
    assert_eq!(runtime.shares().token_id(), 0);
    assert_eq!(runtime.onboarding().houses(asset).unwrap().owner, BOB);
    assert_eq!(runtime.balances().free_balance(BOB), seller);
    assert_eq!(runtime.balances().free_balance(FUND_ACCOUNT), pool);
    assert_eq!(runtime.event_count(), events);
    // once the funds are earmarked, the next block carries it out
    runtime.reserve_for_acquisition(asset, &vec![(DAVE, 10_000), (EVE, 30_000)]).unwrap();
    runtime.next_block();
    assert_eq!(runtime.onboarding().status(asset), Some(AssetStatus::PURCHASED));
    assert_eq!(runtime.onboarding().houses(asset).unwrap().owner, virtual_account_of(asset));
    assert_eq!(runtime.shares().virtual_acc(asset).unwrap().owners, vec![(DAVE, 250), (EVE, 750)]);
    assert_eq!(runtime.balances().free_balance(BOB), seller + 40_000);
    assert_eq!(runtime.event_count(), events + 2);
    assert_eq!(
        runtime.event(events),
        Some(Event::StatusChanged { asset, status: AssetStatus::PURCHASED })
    );
}

#[test]
fn a_purchase_that_cannot_be_carried_out_leaves_the_others_alone() {
    let mut runtime = runtime();
    let first = runtime.create_and_submit_proposal(BOB, 0, 40_000, vec![], true).unwrap();
    let second = runtime.create_and_submit_proposal(BOB, 0, 60_000, vec![], true).unwrap();
    for proposal in [0, 1] {
        runtime.council_vote(ALICE, proposal, true).unwrap();
        runtime.council_vote(BOB, proposal, true).unwrap();
    }
    runtime.fast_forward_to(3);
    runtime.investor_vote(DAVE, 0, true).unwrap();
    runtime.investor_vote(DAVE, 1, true).unwrap();
    while runtime.onboarding().status(second) != Some(AssetStatus::FINALISING) {
        runtime.next_block();
    }
    // funds are earmarked for the second asset only
    runtime.reserve_for_acquisition(second, &vec![(DAVE, 60_000)]).unwrap();
    runtime.validate_transaction_asset(NOTARY, first).unwrap();
    runtime.validate_transaction_asset(NOTARY, second).unwrap();
    let seller = runtime.balances().free_balance(BOB);
    runtime.next_block();
    assert_eq!(runtime.onboarding().status(first), Some(AssetStatus::FINALISED));
    assert!(!runtime.shares().has_account(first));
    assert_eq!(runtime.onboarding().houses(first).unwrap().owner, BOB);
    assert_eq!(runtime.onboarding().status(second), Some(AssetStatus::PURCHASED));
    assert_eq!(runtime.shares().virtual_acc(second).unwrap().owners, vec![(DAVE, 1000)]);
    assert_eq!(runtime.shares().virtual_acc(second).unwrap().token_id, 0);
    assert_eq!(runtime.balances().free_balance(BOB), seller + 60_000);
}

#[test]
fn an_asset_takes_one_step_in_a_block() {
    let config = Config {
        roles: roles::Config { max_members: 200 },
        fund: housing_fund::Config { min_contribution: 10, fund_account: FUND_ACCOUNT },
        onboarding: onboarding::Config { onboarded_period: 0, finalised_period: 0 },
        voting: voting::Config { council_window: 1, opening_delay: 0, delay: 0, voting_period: 1 },
        tenancy: tenancy::Config { rent_check: 5, yearly_rent_percent: 12, guaranty_rents: 2 },
        asset_management: asset_management::Config { investor_vote_amount: 1 },
    };
    let mut runtime =
        Runtime::new(config, &GenesisConfig::default(), Some(ALICE), vec![ALICE, BOB, CHARLIE]);
    runtime.make_free_balance_be(DAVE, 1_000_000);
    runtime.set_role(CHARLIE, CHARLIE, Acc::SERVICER).unwrap();
    runtime.account_approval(ALICE, CHARLIE).unwrap();
    runtime.set_role(BOB, BOB, Acc::SELLER).unwrap();
    runtime.account_approval(ALICE, BOB).unwrap();
    runtime.set_role(NOTARY, NOTARY, Acc::NOTARY).unwrap();
    runtime.account_approval(ALICE, NOTARY).unwrap();
    runtime.set_role(DAVE, DAVE, Acc::INVESTOR).unwrap();
    runtime.contribute_to_fund(DAVE, 100_000).unwrap();
    runtime.create_collection(CHARLIE, 0).unwrap();
    let asset = runtime.create_and_submit_proposal(BOB, 0, 40_000, vec![], true).unwrap();
    runtime.council_vote(ALICE, 0, true).unwrap();
    runtime.council_vote(BOB, 0, true).unwrap();
    let line = [
        AssetStatus::REVIEWING,
        AssetStatus::VOTING,
        AssetStatus::ONBOARDED,
        AssetStatus::FINALISING,
        AssetStatus::FINALISED,
        AssetStatus::PURCHASED,
    ];
    let rank = |status: AssetStatus| line.iter().position(|s| *s == status).unwrap();
    for _ in 0..12 {
        let before = rank(runtime.onboarding().status(asset).unwrap());
        runtime.next_block();
        let after = rank(runtime.onboarding().status(asset).unwrap());
        assert!(after == before || after == before + 1);
        // the block never does the notary's work
        assert!(!(before == 3 && after == 4));
        let _ = runtime.investor_vote(DAVE, 0, true);
        let _ = runtime.reserve_for_acquisition(asset, &vec![(DAVE, 40_000)]);
        if after == 3 {
            runtime.validate_transaction_asset(NOTARY, asset).unwrap();
        }
    }
    assert_eq!(runtime.onboarding().status(asset), Some(AssetStatus::PURCHASED));
}

#[test]
fn the_custodial_account_approves_a_waiting_candidate() {
    let mut runtime = runtime();
    let asset = purchased(&mut runtime, 40_000, vec![(DAVE, 40_000)]);
    let account = virtual_account_of(asset);
    assert_eq!(
        runtime.representative_approval(DAVE, REPRESENTATIVE, asset),
        Err(DispatchError::AssetManagement(asset_management::Error::NotAnAssetAccount))
    );
    assert_eq!(
        runtime.representative_approval(account, FERDIE, asset),
        Err(DispatchError::AssetManagement(asset_management::Error::NotAPendingRepresentative))
    );
    assert_eq!(
        runtime.representative_approval(account, REPRESENTATIVE, AssetKey { collection: 0, item: 9 }),
        Err(DispatchError::AssetManagement(asset_management::Error::NotAnAsset))
    );
    // a candidate that took another role meanwhile is refused, and stays as it is
    runtime.set_role(FERDIE, FERDIE, Acc::REPRESENTATIVE).unwrap();
    runtime.set_role(FERDIE, FERDIE, Acc::INVESTOR).unwrap();
    assert_eq!(
        runtime.representative_approval(account, FERDIE, asset),
        Err(DispatchError::AssetManagement(asset_management::Error::UnAuthorized))
    );
    assert!(runtime.roles().reps(FERDIE).is_none());
    assert!(runtime.roles().get_pending_representatives(FERDIE).is_some());
    assert_eq!(runtime.roles().get_roles(FERDIE), Some(Acc::INVESTOR));

    assert_eq!(runtime.representative_approval(account, REPRESENTATIVE, asset), Ok(()));
    assert_eq!(runtime.roles().reps(REPRESENTATIVE).unwrap().assets_accounts, vec![account]);
    assert!(runtime.roles().get_pending_representatives(REPRESENTATIVE).is_none());
    assert_eq!(
        runtime.representative_approval(account, REPRESENTATIVE, asset),
        Err(DispatchError::AssetManagement(asset_management::Error::NotAPendingRepresentative))
    );
}

#[test]
fn an_asset_that_the_investors_refuse_is_rejected() {
    let mut runtime = runtime();
    let asset = runtime.create_and_submit_proposal(BOB, 0, 40_000, vec![], true).unwrap();
    runtime.council_vote(ALICE, 0, true).unwrap();
    runtime.council_vote(CHARLIE, 0, true).unwrap();
    runtime.fast_forward_to(3);
    runtime.investor_vote(DAVE, 0, false).unwrap();
    runtime.investor_vote(EVE, 0, false).unwrap();
    runtime.fast_forward_to(20);
    assert_eq!(runtime.onboarding().status(asset), Some(AssetStatus::REJECTED));
    assert_eq!(runtime.bridge().outcome(0), Some(Outcome::Rejected));
    assert!(!runtime.shares().has_account(asset));
}

#[test]
fn an_asset_that_the_council_refuses_is_rejected() {
    let mut runtime = runtime();
    let asset = runtime.create_and_submit_proposal(BOB, 0, 40_000, vec![], true).unwrap();
    runtime.council_vote(ALICE, 0, false).unwrap();
    runtime.fast_forward_to(20);
    assert_eq!(runtime.onboarding().status(asset), Some(AssetStatus::REJECTED));
}

#[test]
fn a_session_opened_by_somebody_who_is_no_owner_fails() {
    let mut runtime = runtime();
    let asset = purchased(&mut runtime, 40_000, vec![(DAVE, 40_000)]);
    let sessions = runtime.sessions().session_count();
    let proposals = runtime.bridge().proposal_count();
    assert_eq!(
        runtime.representative_session(STRANGER, asset, REPRESENTATIVE),
        Err(DispatchError::AssetManagement(asset_management::Error::NotAnOwner))
    );
    // EVE contributed to the fund, but not to this asset
    assert_eq!(
        runtime.representative_session(EVE, asset, REPRESENTATIVE),
        Err(DispatchError::AssetManagement(asset_management::Error::NotAnOwner))
    );
    assert_eq!(
        runtime.representative_session(DAVE, AssetKey { collection: 0, item: 9 }, REPRESENTATIVE),
        Err(DispatchError::AssetManagement(asset_management::Error::NotAnAsset))
    );
    assert_eq!(runtime.sessions().session_count(), sessions);
    assert_eq!(runtime.bridge().proposal_count(), proposals);
    assert!(runtime.representative_session(DAVE, asset, REPRESENTATIVE).is_ok());
}

#[test]
fn one_election_of_a_representative_is_open_at_a_time() {
    let mut runtime = runtime();
    let asset = purchased(&mut runtime, 40_000, vec![(DAVE, 20_000), (EVE, 20_000)]);
    let referendum = runtime.representative_session(DAVE, asset, REPRESENTATIVE).unwrap();
    assert_eq!(
        runtime.last_event(),
        Some(Event::AssetManagement(
            asset_management::Event::RepresentativeVoteSessionStarted {
                caller: DAVE,
                candidate: REPRESENTATIVE,
                asset_account: virtual_account_of(asset),
            }
        ))
    );
    let session = runtime.sessions().proposals(referendum).unwrap();
    assert_eq!(session.kind, VoteProposals::Representative);
    assert_eq!(session.asset, asset);
    assert_eq!(runtime.sessions().proposals(referendum + 1), None);
    assert_eq!(
        runtime.representative_session(DAVE, asset, REPRESENTATIVE),
        Err(DispatchError::AssetManagement(asset_management::Error::DuplicatePreimage))
    );
    assert_eq!(
        runtime.representative_session(EVE, asset, FERDIE),
        Err(DispatchError::AssetManagement(asset_management::Error::DuplicatePreimage))
    );
    // once the election is closed, another can be held
    runtime.fast_forward_to(runtime.block_number() + 4);
    assert_eq!(runtime.bridge().outcome(referendum), Some(Outcome::Rejected));
    assert!(runtime.representative_session(EVE, asset, FERDIE).is_ok());
}

#[test]
fn owners_vote_with_their_tokens() {
    let mut runtime = runtime();
    let asset = purchased(&mut runtime, 40_000, vec![(DAVE, 15_000), (EVE, 25_000)]);
    let referendum = runtime.representative_session(DAVE, asset, REPRESENTATIVE).unwrap();
    assert_eq!(
        runtime.owners_vote(STRANGER, referendum, true),
        Err(DispatchError::AssetManagement(asset_management::Error::NotAnOwner))
    );
    assert_eq!(
        runtime.owners_vote(DAVE, referendum + 1, true),
        Err(DispatchError::AssetManagement(asset_management::Error::NoneValue))
    );
    assert_eq!(
        runtime.investor_vote(DAVE, referendum, true),
        Err(DispatchError::Roles(roles::Error::UnAuthorized))
    );
    runtime.owners_vote(DAVE, referendum, true).unwrap();
    assert_eq!(
        runtime.owners_vote(DAVE, referendum, true),
        Err(DispatchError::AssetManagement(asset_management::Error::Voting(
            voting::Error::AlreadyVoted
        )))
    );
    runtime.owners_vote(EVE, referendum, false).unwrap();
    let tally = runtime.bridge().tally(referendum).unwrap();
    assert_eq!((tally.ayes, tally.nays, tally.turnout), (375, 625, 1000));
    runtime.fast_forward_to(runtime.block_number() + 4);
    assert_eq!(runtime.bridge().outcome(referendum), Some(Outcome::Rejected));
    assert!(runtime.roles().reps(REPRESENTATIVE).is_none());
}

#[test]
fn a_tenant_session_needs_the_representative_and_a_good_judgement() {
    let mut runtime = runtime();
    let asset = purchased(&mut runtime, 40_000, vec![(DAVE, 40_000)]);
    let unauthorized = Err(DispatchError::AssetManagement(asset_management::Error::UnAuthorized));
    assert_eq!(
        runtime.launch_tenant_session(REPRESENTATIVE, asset, TENANT0, Judgement::Reasonable),
        unauthorized
    );
    elect_representative(&mut runtime, asset);
    assert_eq!(
        runtime.launch_tenant_session(DAVE, asset, TENANT0, Judgement::Reasonable),
        unauthorized
    );
    for judgement in [
        Judgement::Unknown,
        Judgement::FeePaid(5),
        Judgement::OutOfDate,
        Judgement::LowQuality,
        Judgement::Erroneous,
    ] {
        assert_eq!(
            runtime.launch_tenant_session(REPRESENTATIVE, asset, TENANT0, judgement),
            unauthorized
        );
    }
    assert_eq!(
        runtime.launch_tenant_session(REPRESENTATIVE, asset, STRANGER, Judgement::KnownGood),
        unauthorized
    );
    assert_eq!(
        runtime.launch_tenant_session(
            REPRESENTATIVE,
            AssetKey { collection: 0, item: 9 },
            TENANT0,
            Judgement::KnownGood
        ),
        Err(DispatchError::AssetManagement(asset_management::Error::NotAnAsset))
    );
    let referendum = runtime
        .launch_tenant_session(REPRESENTATIVE, asset, TENANT0, Judgement::KnownGood)
        .unwrap();
    assert_eq!(runtime.sessions().proposals(referendum).unwrap().kind, VoteProposals::Tenant);
    assert_eq!(
        runtime.launch_tenant_session(REPRESENTATIVE, asset, TENANT0, Judgement::Reasonable),
        Err(DispatchError::AssetManagement(asset_management::Error::DuplicatePreimage))
    );
}

#[test]
fn actions_are_reserved_to_those_who_hold_the_role() {
    let mut runtime = runtime();
    assert_eq!(
        runtime.create_collection(DAVE, 1),
        Err(DispatchError::Roles(roles::Error::OnlyForServicers))
    );
    assert_eq!(
        runtime.create_collection(CHARLIE, 0),
        Err(DispatchError::Onboarding(onboarding::Error::CollectionExists))
    );
    assert_eq!(
        runtime.create_and_submit_proposal(DAVE, 0, 1, vec![], true),
        Err(DispatchError::Roles(roles::Error::UnAuthorized))
    );
    assert_eq!(
        runtime.create_and_submit_proposal(BOB, 7, 1, vec![], true),
        Err(DispatchError::Onboarding(onboarding::Error::NotACollection))
    );
    let asset = runtime.create_and_submit_proposal(BOB, 0, 1, vec![], false).unwrap();
    assert_eq!(runtime.bridge().proposal_count(), 0);
    assert_eq!(
        runtime.last_event(),
        Some(Event::StatusChanged { asset, status: AssetStatus::REVIEWING })
    );
    assert_eq!(
        runtime.validate_transaction_asset(DAVE, asset),
        Err(DispatchError::Roles(roles::Error::UnAuthorized))
    );
    assert_eq!(
        runtime.validate_transaction_asset(NOTARY, asset),
        Err(DispatchError::Onboarding(onboarding::Error::InvalidStatus))
    );
    assert_eq!(
        runtime.investor_vote(TENANT0, 0, true),
        Err(DispatchError::Roles(roles::Error::UnAuthorized))
    );
    assert_eq!(
        runtime.investor_vote(DAVE, 0, true),
        Err(DispatchError::Voting(voting::Error::UnknownProposal))
    );
    assert_eq!(
        runtime.council_vote(DAVE, 0, true),
        Err(DispatchError::Voting(voting::Error::NotCouncilMember))
    );
    assert_eq!(
        runtime.reserve_for_acquisition(AssetKey { collection: 0, item: 5 }, &vec![]),
        Err(DispatchError::Onboarding(onboarding::Error::NotAnAsset))
    );
    assert_eq!(
        runtime.reserve_for_acquisition(asset, &vec![(DAVE, 2)]),
        Err(DispatchError::Fund(housing_fund::Error::InvalidShares))
    );
    assert_eq!(
        runtime.contribute_to_fund(DAVE, 1),
        Err(DispatchError::Fund(housing_fund::Error::ContributionTooSmall))
    );
    assert_eq!(
        runtime.set_role(DAVE, DAVE, Acc::TENANT),
        Err(DispatchError::Roles(roles::Error::OneRoleAllowed))
    );
    assert_eq!(
        runtime.account_rejection(BOB, DAVE),
        Err(DispatchError::Roles(roles::Error::RequireSudo))
    );
    assert_eq!(
        runtime.set_manager(BOB, DAVE),
        Err(DispatchError::Roles(roles::Error::RequireSudo))
    );
    assert_eq!(runtime.set_manager(ALICE, ALICE), Ok(()));
}

#[test]
fn a_tenant_states_its_identity_when_it_asks_for_an_asset() {
    let mut runtime = runtime();
    let asset = purchased(&mut runtime, 40_000, vec![(DAVE, 40_000)]);
    assert_eq!(
        runtime.request_asset(DAVE, ten0(), asset),
        Err(DispatchError::Roles(roles::Error::UnAuthorized))
    );
    assert_eq!(
        runtime.request_asset(TENANT0, ten0(), AssetKey { collection: 0, item: 9 }),
        Err(DispatchError::AssetManagement(asset_management::Error::NotAnAsset))
    );
    let mut long = ten0();
    long.legal = Data::raw("a legal name of more than thirty-two bytes");
    assert!(!long.legal.fits());
    assert!(!long.is_valid());
    assert_eq!(
        runtime.request_asset(TENANT0, long, asset),
        Err(DispatchError::Tenancy(tenancy::Error::InvalidIdentity))
    );
    assert!(!runtime.tenancy().has_identity(TENANT0));
    assert_eq!(runtime.request_asset(TENANT0, ten0(), asset), Ok(()));
    assert!(runtime.tenancy().has_identity(TENANT0));
}

#[test]
fn events_are_kept_in_their_order() {
    let mut runtime = runtime();
    let before = runtime.event_count();
    runtime.set_role(FERDIE, FERDIE, Acc::INVESTOR).unwrap();
    assert_eq!(runtime.event_count(), before + 1);
    assert_eq!(
        runtime.event(before),
        Some(Event::Roles(roles::Event::InvestorCreated(1, FERDIE)))
    );
    assert_eq!(runtime.event(before + 1), None);
    assert_eq!(runtime.block_number(), 1);
    runtime.fast_forward_to(1);
    assert_eq!(runtime.block_number(), 1);
    runtime.fast_forward_to(4);
    assert_eq!(runtime.block_number(), 4);
}
