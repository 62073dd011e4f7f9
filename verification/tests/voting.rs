use fairsquares::action::Action;
use fairsquares::types::AssetKey;
use fairsquares::voting::{
    later, Bridge, Config, Error, Notice, Outcome, Phase, Verdict,
};

const ALICE: u64 = 1;
const BOB: u64 = 2;
const CHARLIE: u64 = 3;
const DAVE: u64 = 4;
const EVE: u64 = 5;

const WINDOW: u64 = 5;
const OPENING: u64 = 2;
const DELAY: u64 = 3;
const PERIOD: u64 = 4;

fn bridge() -> Bridge {
    Bridge::new(
        Config {
            council_window: WINDOW,
            opening_delay: OPENING,
            delay: DELAY,
            voting_period: PERIOD,
        },
        vec![ALICE, BOB, CHARLIE],
    )
}

fn acquire(item: u32) -> Action {
    Action::AcquireAsset { asset: AssetKey { collection: 1, item } }
}

fn run(bridge: &mut Bridge, from: u64, to: u64) -> Vec<(u64, Notice)> {
    let mut told = Vec::new();
    for now in from..=to {
        for notice in bridge.on_initialize(now) {
            told.push((now, notice));
        }
    }
    told
}

#[test]
fn a_second_proposal_with_the_same_action_is_refused_while_the_first_is_open() {
    let mut bridge = bridge();
    let (first, digest) = bridge.submit(BOB, acquire(0), true, 10).unwrap();
    assert_eq!(first, 0);
    assert_eq!(digest, acquire(0).hash());
    assert!(bridge.has_open(&digest));
    assert_eq!(bridge.submit(BOB, acquire(0), true, 10), Err(Error::DuplicatePreimage));
    assert_eq!(bridge.submit(DAVE, acquire(0), false, 11), Err(Error::DuplicatePreimage));
    assert_eq!(
        bridge.open(EVE, acquire(0).encode(), acquire(0).hash(), true, 12),
        Err(Error::DuplicatePreimage)
    );
    assert_eq!(bridge.proposal_count(), 1);
    // another action is accepted
    assert_eq!(bridge.submit(BOB, acquire(1), true, 10).map(|r| r.0), Ok(1));
    assert_eq!(bridge.encoded(0), Some(acquire(0).encode()));
    assert_eq!(bridge.encoded(2), None);
    assert_eq!(bridge.screened(0), Some(true));
}

#[test]
fn a_proposal_can_be_made_again_once_the_first_is_closed() {
    let mut bridge = bridge();
    bridge.submit(BOB, acquire(0), true, 10).unwrap();
    // nobody votes: the council rejects at the end of its window
    let told = run(&mut bridge, 11, 15);
    assert_eq!(told, vec![(15, Notice { proposal: 0, verdict: Verdict::CouncilRejected })]);
    assert_eq!(bridge.phase(0), Some(Phase::Rejected));
    assert_eq!(bridge.outcome(0), Some(Outcome::Rejected));
    assert!(!bridge.has_open(&acquire(0).hash()));
    assert_eq!(bridge.submit(BOB, acquire(0), true, 16).map(|r| r.0), Ok(1));
}

#[test]
fn an_approved_action_is_enacted_after_the_window_the_vote_and_both_delays() {
    let mut bridge = bridge();
    let open_block = 10;
    let (proposal, _) = bridge.submit(BOB, acquire(0), true, open_block).unwrap();
    assert_eq!(bridge.phase(proposal), Some(Phase::Council { end: open_block + WINDOW }));
    assert_eq!(bridge.council_vote(ALICE, proposal, true, 10), Ok(()));
    assert_eq!(bridge.council_vote(BOB, proposal, true, 11), Ok(()));
    assert_eq!(bridge.council_vote(CHARLIE, proposal, false, 12), Ok(()));

    let told = run(&mut bridge, 11, 15);
    assert_eq!(told, vec![(15, Notice { proposal, verdict: Verdict::CouncilApproved })]);
    let start = open_block + WINDOW + OPENING;
    let end = start + PERIOD;
    assert_eq!(bridge.phase(proposal), Some(Phase::Referendum { start, end }));
    assert_eq!(bridge.outcome(proposal), Some(Outcome::Pending));

    assert_eq!(bridge.vote(DAVE, proposal, true, 10, start - 1), Err(Error::ReferendumNotOpen));
    assert_eq!(run(&mut bridge, 16, start), vec![]);
    assert_eq!(bridge.vote(DAVE, proposal, true, 10, start), Ok(()));
    assert_eq!(bridge.vote(EVE, proposal, false, 9, end - 1), Ok(()));
    assert_eq!(bridge.vote(ALICE, proposal, false, 9, end), Err(Error::ReferendumNotOpen));

    let told = run(&mut bridge, start + 1, end);
    assert_eq!(told, vec![(end, Notice { proposal, verdict: Verdict::ReferendumApproved })]);
    assert_eq!(
        bridge.phase(proposal),
        Some(Phase::Queued { enact_at: end + DELAY, voted_until: end })
    );
    assert_eq!(bridge.outcome(proposal), Some(Outcome::Approved));

    // nothing takes effect before the delay has passed
    let told = run(&mut bridge, end + 1, end + DELAY + 2);
    assert_eq!(told, vec![(end + DELAY, Notice { proposal, verdict: Verdict::Enact })]);
    assert!(end + DELAY >= open_block + WINDOW + DELAY);
    assert_eq!(end + DELAY, 24);
    assert_eq!(bridge.phase(proposal), Some(Phase::Enacted));
    assert_eq!(bridge.outcome(proposal), Some(Outcome::Approved));
    assert_eq!(run(&mut bridge, 27, 40), vec![]);
}

#[test]
fn a_referendum_without_a_majority_rejects() {
    let mut bridge = bridge();
    // tie
    let (tie, _) = bridge.submit(BOB, acquire(0), false, 1).unwrap();
    // nobody votes
    let (silent, _) = bridge.submit(BOB, acquire(1), false, 1).unwrap();
    // more against
    let (lost, _) = bridge.submit(BOB, acquire(2), false, 1).unwrap();
    // more in favour
    let (won, _) = bridge.submit(BOB, acquire(3), false, 1).unwrap();
    assert_eq!(bridge.phase(tie), Some(Phase::Referendum { start: 1, end: 1 + PERIOD }));
    assert_eq!(bridge.screened(tie), Some(false));
    bridge.vote(DAVE, tie, true, 10, 1).unwrap();
    bridge.vote(EVE, tie, false, 10, 1).unwrap();
    bridge.vote(DAVE, lost, true, 10, 2).unwrap();
    bridge.vote(EVE, lost, false, 11, 2).unwrap();
    bridge.vote(DAVE, won, true, 11, 2).unwrap();
    bridge.vote(EVE, won, false, 10, 2).unwrap();
    let tally = bridge.tally(won).unwrap();
    assert_eq!((tally.ayes, tally.nays, tally.turnout), (11, 10, 21));
    let told = run(&mut bridge, 2, 5);
    assert_eq!(
        told,
        vec![
            (5, Notice { proposal: tie, verdict: Verdict::ReferendumRejected }),
            (5, Notice { proposal: silent, verdict: Verdict::ReferendumRejected }),
            (5, Notice { proposal: lost, verdict: Verdict::ReferendumRejected }),
            (5, Notice { proposal: won, verdict: Verdict::ReferendumApproved }),
        ]
    );
    assert_eq!(bridge.outcome(tie), Some(Outcome::Rejected));
    assert_eq!(bridge.outcome(silent), Some(Outcome::Rejected));
    assert_eq!(bridge.outcome(lost), Some(Outcome::Rejected));
    assert_eq!(bridge.outcome(won), Some(Outcome::Approved));
    assert_eq!(bridge.outcome(9), None);
}

#[test]
fn a_vote_of_zero_weight_decides_nothing() {
    let mut bridge = bridge();
    let (proposal, _) = bridge.submit(BOB, acquire(0), false, 1).unwrap();
    bridge.vote(DAVE, proposal, true, 0, 1).unwrap();
    run(&mut bridge, 2, 5);
    assert_eq!(bridge.outcome(proposal), Some(Outcome::Rejected));
}

#[test]
fn the_council_needs_more_than_half_of_its_members() {
    let mut bridge = bridge();
    let (one, _) = bridge.submit(BOB, acquire(0), true, 1).unwrap();
    let (two, _) = bridge.submit(BOB, acquire(1), true, 1).unwrap();
    bridge.council_vote(ALICE, one, true, 1).unwrap();
    bridge.council_vote(ALICE, two, true, 1).unwrap();
    bridge.council_vote(BOB, two, true, 1).unwrap();
    let told = run(&mut bridge, 2, 6);
    assert_eq!(
        told,
        vec![
            (6, Notice { proposal: one, verdict: Verdict::CouncilRejected }),
            (6, Notice { proposal: two, verdict: Verdict::CouncilApproved }),
        ]
    );
}

#[test]
fn votes_are_refused() {
    let mut bridge = bridge();
    let (screened, _) = bridge.submit(BOB, acquire(0), true, 1).unwrap();
    let (direct, _) = bridge.submit(BOB, acquire(1), false, 1).unwrap();
    assert_eq!(bridge.council_vote(DAVE, screened, true, 1), Err(Error::NotCouncilMember));
    assert_eq!(bridge.council_vote(ALICE, 7, true, 1), Err(Error::UnknownProposal));
    assert_eq!(bridge.council_vote(ALICE, direct, true, 1), Err(Error::NotInCouncil));
    assert_eq!(bridge.council_vote(ALICE, screened, true, 1 + WINDOW), Err(Error::NotInCouncil));
    assert_eq!(bridge.council_vote(ALICE, screened, true, 2), Ok(()));
    assert_eq!(bridge.council_vote(ALICE, screened, false, 3), Err(Error::AlreadyVoted));

    assert_eq!(bridge.vote(DAVE, 7, true, 1, 1), Err(Error::UnknownProposal));
    assert_eq!(bridge.vote(DAVE, screened, true, 1, 1), Err(Error::ReferendumNotOpen));
    assert_eq!(bridge.vote(DAVE, direct, true, u64::MAX, 1), Ok(()));
    assert_eq!(bridge.vote(DAVE, direct, true, 1, 2), Err(Error::AlreadyVoted));
    assert_eq!(bridge.vote(EVE, direct, true, 1, 2), Err(Error::Overflow));
    assert_eq!(bridge.vote(EVE, direct, false, 1, 2), Err(Error::Overflow));
    let tally = bridge.tally(direct).unwrap();
    assert_eq!((tally.ayes, tally.nays, tally.turnout), (u64::MAX, 0, u64::MAX));
    assert_eq!(bridge.tally(7), None);
}

#[test]
fn dates_beyond_the_last_block_are_the_last_block() {
    assert_eq!(later(5, 3), 8);
    assert_eq!(later(u64::MAX - 1, 1), u64::MAX);
    assert_eq!(later(u64::MAX - 1, 2), u64::MAX);
    assert_eq!(later(u64::MAX, u64::MAX), u64::MAX);
    assert!(Phase::Council { end: 1 }.is_open());
    assert!(Phase::Queued { enact_at: 1, voted_until: 1 }.is_open());
    assert!(!Phase::Enacted.is_open());
    assert!(!Phase::Rejected.is_open());
    assert_eq!(bridge().config().delay, DELAY);
    assert_eq!(bridge().config().opening_delay, OPENING);
}
