use stellar_grants::contract::StellarGrantsContract;
use stellar_grants::env::{Env, Transfer};
use stellar_grants::events::{milestone_voted, ContractEvent, MilestoneVoted};
use stellar_grants::keyed::KeyedList;
use stellar_grants::reentrancy::{lock, unlock, with_non_reentrant};
use stellar_grants::storage::Storage;
use stellar_grants::types::{
    Address, AddressKind, ContractError, EscrowLifecycleState, EscrowMode, EscrowState, Grant, GrantFund,
    GrantStatus, Milestone, MilestoneState,
};

fn addr(n: u128) -> Address {
    Address { kind: AddressKind::Account, high: 0, low: n }
}

fn contract_addr() -> Address {
    Address { kind: AddressKind::Contract, high: 9, low: 9 }
}

/// An environment in which every address these tests act for has authorized the calls.
fn new_env() -> Env {
    let mut env = new_env_without_auths();
    for n in 0..=200u128 {
        env.authorize(addr(n));
    }
    env
}

fn new_env_without_auths() -> Env {
    Env::new(1_700_000_000, contract_addr())
}

/// `new_env` with `addr(100)` as the contract's admin.
fn env_with_admin() -> Env {
    let mut env = new_env();
    StellarGrantsContract::initialize(&mut env, addr(100)).unwrap();
    env
}

fn active_grant(grant_id: u64, owner: Address, token: Address, reviewers: Vec<Address>, escrow: i128, funders: Vec<GrantFund>) -> Grant {
    Grant {
        id: grant_id,
        owner,
        title: "T".into(),
        description: "D".into(),
        token,
        status: GrantStatus::Active,
        total_amount: 1000,
        milestone_amount: 100,
        reviewers,
        total_milestones: 3,
        milestones_paid_out: 0,
        escrow_balance: escrow,
        funders,
        reason: None,
        timestamp: 0,
    }
}

fn submitted(idx: u32) -> Milestone {
    Milestone {
        idx,
        description: "work".into(),
        amount: 100,
        state: MilestoneState::Submitted,
        votes: KeyedList::new(),
        approvals: 0,
        rejections: 0,
        reasons: KeyedList::new(),
        status_updated_at: 0,
        proof_url: None,
        submission_timestamp: 0,
    }
}

#[test]
fn error_codes_are_stable() {
    assert_eq!(ContractError::GrantNotFound.code(), 1);
    assert_eq!(ContractError::InvalidInput.code(), 6);
    assert_eq!(ContractError::InvalidState.code(), 7);
    assert_eq!(ContractError::BatchTooLarge.code(), 18);
    assert_eq!(ContractError::ReentrancyDetected.code(), 19);
}

#[test]
fn initialize_records_first_admin_and_always_succeeds() {
    let mut env = new_env();
    assert_eq!(StellarGrantsContract::initialize(&mut env, addr(100)), Ok(()));
    assert_eq!(env.storage.get_global_admin(), Some(addr(100)));
    assert!(env.events.is_empty());
    // a later call succeeds too and leaves the recorded admin in place
    assert_eq!(StellarGrantsContract::initialize(&mut env, addr(101)), Ok(()));
    assert_eq!(env.storage.get_global_admin(), Some(addr(100)));
}

#[test]
fn grant_create_records_counter_and_event() {
    let mut env = new_env();
    let owner = addr(1);
    let first = StellarGrantsContract::grant_create(&mut env, owner, "A".into(), "x".into(), addr(2), 300, 100, 3, vec![addr(5)]).unwrap();
    let second = StellarGrantsContract::grant_create(&mut env, owner, "B".into(), "y".into(), addr(2), 100, 100, 1, Vec::new()).unwrap();
    assert_eq!((first, second), (1, 2));
    let g = env.storage.get_grant(first).unwrap();
    assert_eq!(g.timestamp, 1_700_000_000);
    assert_eq!(g.reviewers, vec![addr(5)]);
    assert!(g.funders.is_empty());
    match &env.events[0] {
        ContractEvent::GrantCreated { grant_id, owner: o, title, total_amount } => {
            assert_eq!((*grant_id, *o, title.as_slice(), *total_amount), (1, owner, &b"A"[..], 300));
        },
        other => panic!("unexpected event {:?}", other),
    }
}

#[test]
fn grant_create_refuses_overflowing_requirement() {
    let mut env = new_env();
    let r = StellarGrantsContract::grant_create(&mut env, addr(1), "A".into(), "x".into(), addr(2), i128::MAX, i128::MAX / 2, 3, Vec::new());
    assert_eq!(r, Err(ContractError::InvalidInput));
    assert!(env.storage.get_grant(1).is_none());
    assert_eq!(env.storage.grant_counter, None);
}

#[test]
fn contributor_name_limit_counts_bytes() {
    let mut env = new_env();
    // 51 two-byte characters: 51 characters, 102 bytes
    let name = "é".repeat(51).into_bytes();
    let r = StellarGrantsContract::contributor_register(&mut env, addr(1), name, Vec::new(), Vec::new(), Vec::new());
    assert_eq!(r, Err(ContractError::InvalidInput));
    let name = "é".repeat(50).into_bytes();
    let r = StellarGrantsContract::contributor_register(&mut env, addr(1), name, "b".repeat(500).into_bytes(), Vec::new(), Vec::new());
    assert_eq!(r, Ok(()));
    let profile = env.storage.get_contributor(addr(1)).unwrap();
    assert_eq!(profile.registration_timestamp, 1_700_000_000);
}

#[test]
fn text_is_bytes_not_necessarily_utf8() {
    let mut env = new_env();
    let name = vec![0xff, 0xfe, 0x41];
    let r = StellarGrantsContract::contributor_register(&mut env, addr(1), name, Vec::new(), vec![vec![0x80]], Vec::new());
    assert_eq!(r, Ok(()));
    let profile = env.storage.get_contributor(addr(1)).unwrap();
    assert_eq!(profile.name, vec![0xff, 0xfe, 0x41]);
    assert_eq!(profile.skills, vec![vec![0x80]]);
}

#[test]
fn milestone_resubmission_after_rejection_resets_votes() {
    let mut env = new_env();
    let owner = addr(1);
    env.storage.set_grant(1, &active_grant(1, owner, addr(2), vec![addr(3)], 0, Vec::new()));
    let mut m = submitted(0);
    m.state = MilestoneState::Rejected;
    m.votes.set(addr(3), false);
    env.storage.set_milestone(1, 0, &m);
    StellarGrantsContract::milestone_submit(&mut env, 1, 0, owner, "again".into(), "url".into()).unwrap();
    let m = env.storage.get_milestone(1, 0).unwrap();
    assert_eq!(m.state, MilestoneState::Submitted);
    assert!(!m.votes.contains_key(&addr(3)));
    // the submitted milestone carries the grant's payout per milestone
    assert_eq!(m.amount, 100);
}

#[test]
fn get_milestone_errors() {
    let mut env = new_env();
    env.storage.set_grant(1, &active_grant(1, addr(1), addr(2), Vec::new(), 0, Vec::new()));
    assert_eq!(StellarGrantsContract::get_milestone(&env, 1, 3).err(), Some(ContractError::InvalidInput));
    assert_eq!(StellarGrantsContract::get_milestone(&env, 1, 2).err(), Some(ContractError::MilestoneNotFound));
    assert_eq!(StellarGrantsContract::get_milestone_feedback(&env, 7, 0).err(), Some(ContractError::GrantNotFound));
}

#[test]
fn vote_errors() {
    let mut env = new_env();
    let reviewer = addr(3);
    env.storage.set_grant(1, &active_grant(1, addr(1), addr(2), vec![reviewer, addr(4)], 0, Vec::new()));
    assert_eq!(StellarGrantsContract::milestone_vote(&mut env, 1, 0, reviewer, true, None), Err(ContractError::MilestoneNotSubmitted));
    let mut pending = submitted(0);
    pending.state = MilestoneState::Pending;
    env.storage.set_milestone(1, 0, &pending);
    assert_eq!(StellarGrantsContract::milestone_vote(&mut env, 1, 0, reviewer, true, None), Err(ContractError::MilestoneNotSubmitted));
    env.storage.set_milestone(1, 0, &submitted(0));
    assert_eq!(StellarGrantsContract::milestone_vote(&mut env, 1, 0, addr(99), true, None), Err(ContractError::Unauthorized));
    assert_eq!(StellarGrantsContract::milestone_vote(&mut env, 1, 0, reviewer, false, None), Ok(false));
    // a second ballot by the same voter is refused, whether a vote or a rejection
    assert_eq!(StellarGrantsContract::milestone_vote(&mut env, 1, 0, reviewer, true, None), Err(ContractError::AlreadyVoted));
    assert_eq!(StellarGrantsContract::milestone_reject(&mut env, 1, 0, reviewer, "no".into()), Err(ContractError::AlreadyVoted));
    assert_eq!(StellarGrantsContract::milestone_vote(&mut env, 9, 0, reviewer, true, None), Err(ContractError::GrantNotFound));
}

#[test]
fn owner_cannot_vote_on_own_milestones() {
    let mut env = new_env();
    let owner = addr(1);
    env.storage.set_grant(1, &active_grant(1, owner, addr(2), vec![owner, addr(4)], 0, Vec::new()));
    env.storage.set_milestone(1, 0, &submitted(0));
    assert_eq!(StellarGrantsContract::milestone_vote(&mut env, 1, 0, owner, true, None), Err(ContractError::Unauthorized));
    assert_eq!(StellarGrantsContract::milestone_reject(&mut env, 1, 0, owner, "no".into()), Err(ContractError::Unauthorized));
    let m = env.storage.get_milestone(1, 0).unwrap();
    assert_eq!((m.approvals, m.rejections), (0, 0));
    assert!(env.events.is_empty());
}

#[test]
fn voters_need_minimum_stake_once_configured() {
    let mut env = env_with_admin();
    let (a, b) = (addr(3), addr(4));
    env.storage.set_grant(1, &active_grant(1, addr(1), addr(2), vec![a, b], 0, Vec::new()));
    env.storage.set_milestone(1, 0, &submitted(0));
    StellarGrantsContract::set_staking_config(&mut env, addr(100), 50, addr(9)).unwrap();
    assert_eq!(StellarGrantsContract::milestone_vote(&mut env, 1, 0, a, true, None), Err(ContractError::InsufficientStake));
    assert_eq!(StellarGrantsContract::milestone_reject(&mut env, 1, 0, b, "no".into()), Err(ContractError::InsufficientStake));
    StellarGrantsContract::stake_to_review(&mut env, a, 1, 50).unwrap();
    assert_eq!(StellarGrantsContract::milestone_vote(&mut env, 1, 0, a, true, None), Ok(false));
}

#[test]
fn calls_without_authorization_do_nothing() {
    let mut env = new_env_without_auths();
    let owner = addr(1);
    let voter = addr(3);
    env.storage.set_grant(1, &active_grant(1, owner, addr(2), vec![voter], 10, vec![GrantFund { funder: addr(7), amount: 10 }]));
    env.storage.set_milestone(1, 0, &submitted(0));
    assert!(StellarGrantsContract::grant_cancel(&mut env, 1, owner, "r".into()).is_err());
    assert!(StellarGrantsContract::milestone_submit(&mut env, 1, 1, owner, "d".into(), "u".into()).is_err());
    assert!(StellarGrantsContract::milestone_vote(&mut env, 1, 0, voter, true, None).is_err());
    assert!(StellarGrantsContract::milestone_reject(&mut env, 1, 0, voter, "r".into()).is_err());
    assert!(StellarGrantsContract::fund_batch(&mut env, addr(7), vec![(1, 5)]).is_err());
    assert!(StellarGrantsContract::stake_to_review(&mut env, voter, 1, 5).is_err());
    assert!(StellarGrantsContract::contributor_register(&mut env, addr(5), "n".into(), "b".into(), Vec::new(), "g".into()).is_err());
    assert!(env.transfers.is_empty());
    assert!(env.events.is_empty());
    assert_eq!(env.storage.get_grant(1).unwrap().status, GrantStatus::Active);
    // once the owner has authorized the call it goes through
    env.authorize(owner);
    assert_eq!(StellarGrantsContract::grant_cancel(&mut env, 1, owner, "r".into()), Ok(()));
}

#[test]
fn vote_events_and_feedback_limit() {
    let mut env = new_env();
    let reviewer = addr(3);
    env.storage.set_grant(1, &active_grant(1, addr(1), addr(2), vec![reviewer], 0, Vec::new()));
    env.storage.set_milestone(1, 0, &submitted(0));
    let exactly = Some("a".repeat(256).into_bytes());
    assert_eq!(StellarGrantsContract::milestone_vote(&mut env, 1, 0, reviewer, true, exactly), Ok(true));
    assert_eq!(env.events.len(), 2);
    match &env.events[0] {
        ContractEvent::MilestoneStatusChanged { grant_id, milestone_idx, state } => {
            assert_eq!((*grant_id, *milestone_idx, *state), (1, 0, MilestoneState::Approved));
        },
        other => panic!("unexpected event {:?}", other),
    }
    match &env.events[1] {
        ContractEvent::Voted { grant_id, milestone_idx, vote } => {
            assert_eq!((*grant_id, *milestone_idx), (1, 0));
            assert_eq!(*vote, MilestoneVoted { reviewer, approve: true, timestamp: 1_700_000_000 });
        },
        other => panic!("unexpected event {:?}", other),
    }
    let m = env.storage.get_milestone(1, 0).unwrap();
    assert_eq!(m.status_updated_at, 1_700_000_000);
}

#[test]
fn reject_reason_checked_before_grant() {
    let mut env = new_env();
    let r = StellarGrantsContract::milestone_reject(&mut env, 42, 0, addr(3), "x".repeat(257).into_bytes());
    assert_eq!(r, Err(ContractError::InvalidInput));
    let r = StellarGrantsContract::milestone_reject(&mut env, 42, 0, addr(3), "x".repeat(256).into_bytes());
    assert_eq!(r, Err(ContractError::GrantNotFound));
}

#[test]
fn reject_below_majority_keeps_milestone_open() {
    let mut env = new_env();
    let r1 = addr(3);
    env.storage.set_grant(1, &active_grant(1, addr(1), addr(2), vec![r1, addr(4), addr(5)], 0, Vec::new()));
    env.storage.set_milestone(1, 0, &submitted(0));
    // total weight 3, threshold 2: one rejection is not a majority
    assert_eq!(StellarGrantsContract::milestone_reject(&mut env, 1, 0, r1, "late".into()), Ok(false));
    let m = env.storage.get_milestone(1, 0).unwrap();
    assert_eq!(m.state, MilestoneState::Submitted);
    assert_eq!(m.rejections, 1);
    assert_eq!(m.reasons.get(&r1).unwrap(), b"late");
    assert_eq!(env.storage.get_reviewer_reputation(r1), 1);
}

#[test]
fn quorum_needs_strict_majority() {
    let mut env = new_env();
    let (a, b) = (addr(3), addr(4));
    env.storage.set_grant(1, &active_grant(1, addr(1), addr(2), vec![a, b], 0, Vec::new()));
    env.storage.set_milestone(1, 0, &submitted(0));
    // two voters of weight 1: one approval is exactly half, not a majority
    assert_eq!(StellarGrantsContract::milestone_vote(&mut env, 1, 0, a, true, None), Ok(false));
    assert_eq!(StellarGrantsContract::milestone_vote(&mut env, 1, 0, b, true, None), Ok(true));
    assert_eq!(env.storage.get_reviewer_reputation(a), 2);
    assert_eq!(env.storage.get_reviewer_reputation(b), 2);
}

#[test]
fn cancel_rounds_refunds_down_and_never_exceeds_escrow() {
    let mut env = new_env();
    let owner = addr(1);
    let token = addr(2);
    let funders = vec![
        GrantFund { funder: addr(10), amount: 1 },
        GrantFund { funder: addr(11), amount: 1 },
        GrantFund { funder: addr(12), amount: 1 },
    ];
    env.storage.set_grant(1, &active_grant(1, owner, token, Vec::new(), 100, funders));
    StellarGrantsContract::grant_cancel(&mut env, 1, owner, "stop".into()).unwrap();
    let paid: i128 = env.transfers.iter().map(|t| t.amount).sum();
    assert_eq!(env.transfers.len(), 3);
    assert_eq!(paid, 99);
    assert!(paid <= 100 && paid > 100 - 3);
    for t in env.transfers.iter() {
        assert_eq!(t.from, contract_addr());
        assert_eq!(t.token, token);
        assert_eq!(t.amount, 33);
    }
    let g = env.storage.get_grant(1).unwrap();
    assert_eq!(g.status, GrantStatus::Cancelled);
    assert_eq!(g.escrow_balance, 0);
    assert_eq!(g.reason, Some("stop".into()));
    // a second cancellation is refused: no double refund
    assert_eq!(StellarGrantsContract::grant_cancel(&mut env, 1, owner, "again".into()), Err(ContractError::InvalidState));
    assert_eq!(StellarGrantsContract::grant_complete(&mut env, 1), Err(ContractError::InvalidState));
    assert_eq!(env.transfers.len(), 3);
}

#[test]
fn cancel_errors() {
    let mut env = new_env();
    let owner = addr(1);
    assert_eq!(StellarGrantsContract::grant_cancel(&mut env, 1, owner, "r".into()), Err(ContractError::GrantNotFound));
    env.storage.set_grant(1, &active_grant(1, owner, addr(2), Vec::new(), 0, Vec::new()));
    assert_eq!(StellarGrantsContract::grant_cancel(&mut env, 1, owner, "r".into()), Err(ContractError::NoRefundableAmount));
    env.storage.set_grant(1, &active_grant(1, owner, addr(2), Vec::new(), 10, Vec::new()));
    assert_eq!(StellarGrantsContract::grant_cancel(&mut env, 1, owner, "r".into()), Err(ContractError::NoRefundableAmount));
    let mut paid = active_grant(1, owner, addr(2), Vec::new(), 10, Vec::new());
    paid.milestones_paid_out = 3;
    env.storage.set_grant(1, &paid);
    assert_eq!(StellarGrantsContract::grant_cancel(&mut env, 1, owner, "r".into()), Err(ContractError::InvalidState));
    let huge = vec![GrantFund { funder: addr(10), amount: i128::MAX / 2 }];
    env.storage.set_grant(1, &active_grant(1, owner, addr(2), Vec::new(), 10, huge));
    assert_eq!(StellarGrantsContract::grant_cancel(&mut env, 1, owner, "r".into()), Err(ContractError::InvalidInput));
    assert!(env.transfers.is_empty());
    assert_eq!(env.storage.get_grant(1).unwrap().status, GrantStatus::Active);
}

#[test]
fn complete_without_funders_refunds_nothing() {
    let mut env = new_env();
    let mut g = active_grant(1, addr(1), addr(2), Vec::new(), 900, Vec::new());
    g.total_milestones = 2;
    env.storage.set_grant(1, &g);
    for i in 0..2 {
        let mut m = submitted(i);
        m.state = MilestoneState::Approved;
        env.storage.set_milestone(1, i, &m);
    }
    StellarGrantsContract::grant_complete(&mut env, 1).unwrap();
    assert!(env.transfers.is_empty());
    match &env.events[0] {
        ContractEvent::GrantCompleted { grant_id, total_paid, remaining_balance } => {
            assert_eq!((*grant_id, *total_paid, *remaining_balance), (1, 200, 700));
        },
        other => panic!("unexpected event {:?}", other),
    }
}

#[test]
fn complete_errors() {
    let mut env = new_env();
    assert_eq!(StellarGrantsContract::grant_complete(&mut env, 1), Err(ContractError::GrantNotFound));
    let mut g = active_grant(1, addr(1), addr(2), Vec::new(), 900, Vec::new());
    g.total_milestones = 1;
    env.storage.set_grant(1, &g);
    assert_eq!(StellarGrantsContract::grant_complete(&mut env, 1), Err(ContractError::NotAllMilestonesApproved));
}

#[test]
fn fund_records_transfer_and_event() {
    let mut env = new_env();
    let token = addr(2);
    env.storage.set_grant(1, &active_grant(1, addr(1), token, Vec::new(), 0, Vec::new()));
    StellarGrantsContract::grant_fund(&mut env, 1, addr(7), 250).unwrap();
    assert_eq!(env.transfers, vec![Transfer { token, from: addr(7), to: contract_addr(), amount: 250 }]);
    match &env.events[0] {
        ContractEvent::GrantFunded { grant_id, funder, amount, escrow_balance } => {
            assert_eq!((*grant_id, *funder, *amount, *escrow_balance), (1, addr(7), 250, 250));
        },
        other => panic!("unexpected event {:?}", other),
    }
    let mut closed = active_grant(2, addr(1), token, Vec::new(), 0, Vec::new());
    closed.status = GrantStatus::Cancelled;
    env.storage.set_grant(2, &closed);
    assert_eq!(StellarGrantsContract::grant_fund(&mut env, 2, addr(7), 1), Err(ContractError::InvalidState));
}

#[test]
fn fund_refuses_funder_entry_overflow() {
    let mut env = new_env();
    let funders = vec![GrantFund { funder: addr(7), amount: i128::MAX }];
    env.storage.set_grant(1, &active_grant(1, addr(1), addr(2), Vec::new(), 0, funders));
    assert_eq!(StellarGrantsContract::grant_fund(&mut env, 1, addr(7), 1), Err(ContractError::InvalidInput));
    assert!(env.transfers.is_empty());
}

#[test]
fn fund_batch_funds_each_grant() {
    let mut env = new_env();
    let token = addr(2);
    env.storage.set_grant(1, &active_grant(1, addr(1), token, Vec::new(), 0, Vec::new()));
    env.storage.set_grant(2, &active_grant(2, addr(1), token, Vec::new(), 5, vec![GrantFund { funder: addr(7), amount: 5 }]));
    StellarGrantsContract::fund_batch(&mut env, addr(7), vec![(1, 10), (2, 20), (1, 30)]).unwrap();
    let g1 = env.storage.get_grant(1).unwrap();
    let g2 = env.storage.get_grant(2).unwrap();
    assert_eq!(g1.escrow_balance, 40);
    assert_eq!(g1.funders, vec![GrantFund { funder: addr(7), amount: 40 }]);
    assert_eq!(g2.escrow_balance, 25);
    assert_eq!(g2.funders, vec![GrantFund { funder: addr(7), amount: 25 }]);
    assert_eq!(env.transfers.len(), 3);
    assert_eq!(env.events.len(), 3);
}

#[test]
fn fund_batch_is_all_or_nothing() {
    let mut env = new_env();
    env.storage.set_grant(1, &active_grant(1, addr(1), addr(2), Vec::new(), 0, Vec::new()));
    let r = StellarGrantsContract::fund_batch(&mut env, addr(7), vec![(1, 10), (5, 20)]);
    assert_eq!(r, Err(ContractError::GrantNotFound));
    assert_eq!(env.storage.get_grant(1).unwrap().escrow_balance, 0);
    assert!(env.transfers.is_empty());
    assert!(env.events.is_empty());
    let r = StellarGrantsContract::fund_batch(&mut env, addr(7), vec![(1, 10), (1, 0)]);
    assert_eq!(r, Err(ContractError::InvalidInput));
    assert_eq!(env.storage.get_grant(1).unwrap().escrow_balance, 0);
}

#[test]
fn fund_batch_size_limits() {
    let mut env = new_env();
    assert_eq!(StellarGrantsContract::fund_batch(&mut env, addr(7), Vec::new()), Err(ContractError::BatchEmpty));
    env.storage.set_grant(1, &active_grant(1, addr(1), addr(2), Vec::new(), 0, Vec::new()));
    let items: Vec<(u64, i128)> = (0..21).map(|_| (1u64, 1i128)).collect();
    assert_eq!(StellarGrantsContract::fund_batch(&mut env, addr(7), items), Err(ContractError::BatchTooLarge));
    let items: Vec<(u64, i128)> = (0..20).map(|_| (1u64, 1i128)).collect();
    assert_eq!(StellarGrantsContract::fund_batch(&mut env, addr(7), items), Ok(()));
    assert_eq!(env.storage.get_grant(1).unwrap().escrow_balance, 20);
}

#[test]
fn staking_flow() {
    let mut env = env_with_admin();
    let token = addr(2);
    let reviewer = addr(3);
    let treasury = addr(4);
    env.storage.set_grant(1, &active_grant(1, addr(1), token, Vec::new(), 0, Vec::new()));
    assert_eq!(StellarGrantsContract::set_staking_config(&mut env, addr(100), 0, treasury), Err(ContractError::InvalidInput));
    assert_eq!(StellarGrantsContract::set_staking_config(&mut env, addr(100), 50, treasury), Ok(()));
    assert_eq!(env.storage.get_min_reviewer_stake(), 50);
    assert_eq!(env.storage.get_treasury(), Some(treasury));
    assert_eq!(StellarGrantsContract::stake_to_review(&mut env, reviewer, 1, 49), Err(ContractError::InsufficientStake));
    assert_eq!(StellarGrantsContract::stake_to_review(&mut env, reviewer, 1, 50), Ok(()));
    assert_eq!(StellarGrantsContract::stake_to_review(&mut env, reviewer, 1, 60), Ok(()));
    assert_eq!(env.storage.get_reviewer_stake(1, &reviewer), 110);
    // unstaking waits for the grant to finish
    assert_eq!(StellarGrantsContract::unstake(&mut env, reviewer, 1), Err(ContractError::InvalidState));
    assert_eq!(StellarGrantsContract::slash_reviewer(&mut env, addr(100), 1, reviewer), Ok(()));
    assert_eq!(env.storage.get_reviewer_stake(1, &reviewer), 0);
    assert_eq!(env.transfers[2], Transfer { token, from: contract_addr(), to: treasury, amount: 110 });
    assert_eq!(StellarGrantsContract::slash_reviewer(&mut env, addr(100), 1, reviewer), Err(ContractError::StakeNotFound));
    assert_eq!(StellarGrantsContract::stake_to_review(&mut env, reviewer, 9, 50), Err(ContractError::GrantNotFound));
}

#[test]
fn admin_operations_refuse_other_callers() {
    let mut env = env_with_admin();
    let reviewer = addr(3);
    env.storage.set_grant(1, &active_grant(1, addr(1), addr(2), Vec::new(), 0, Vec::new()));
    env.storage.set_reviewer_stake(1, &reviewer, 5);
    let intruder = addr(55);
    assert_eq!(StellarGrantsContract::set_staking_config(&mut env, intruder, 50, intruder), Err(ContractError::Unauthorized));
    assert_eq!(env.storage.get_treasury(), None);
    assert_eq!(env.storage.get_min_reviewer_stake(), 0);
    assert_eq!(StellarGrantsContract::slash_reviewer(&mut env, intruder, 1, reviewer), Err(ContractError::Unauthorized));
    assert_eq!(env.storage.get_reviewer_stake(1, &reviewer), 5);
    assert_eq!(StellarGrantsContract::set_identity_oracle(&mut env, intruder, addr(8)), Err(ContractError::Unauthorized));
    assert_eq!(env.storage.get_identity_oracle(), None);
    assert!(env.transfers.is_empty());
    // without a recorded admin nobody is the admin
    let mut env = new_env();
    assert_eq!(StellarGrantsContract::set_identity_oracle(&mut env, addr(100), addr(8)), Err(ContractError::Unauthorized));
}

#[test]
fn stake_overflow_is_refused() {
    let mut env = new_env();
    env.storage.set_grant(1, &active_grant(1, addr(1), addr(2), Vec::new(), 0, Vec::new()));
    env.storage.set_reviewer_stake(1, &addr(3), i128::MAX);
    assert_eq!(StellarGrantsContract::stake_to_review(&mut env, addr(3), 1, 1), Err(ContractError::InvalidInput));
    assert_eq!(env.storage.get_reviewer_stake(1, &addr(3)), i128::MAX);
    assert!(env.transfers.is_empty());
}

#[test]
fn stake_comes_back_exactly_once() {
    let mut env = new_env();
    let (token, reviewer) = (addr(2), addr(3));
    env.storage.set_grant(1, &active_grant(1, addr(1), token, Vec::new(), 0, Vec::new()));
    StellarGrantsContract::stake_to_review(&mut env, reviewer, 1, 40).unwrap();
    let mut g = env.storage.get_grant(1).unwrap();
    g.status = GrantStatus::Cancelled;
    env.storage.set_grant(1, &g);
    assert_eq!(StellarGrantsContract::unstake(&mut env, reviewer, 1), Ok(()));
    assert_eq!(env.transfers[1], Transfer { token, from: contract_addr(), to: reviewer, amount: 40 });
    assert_eq!(StellarGrantsContract::unstake(&mut env, reviewer, 1), Err(ContractError::StakeNotFound));
    assert_eq!(env.transfers.len(), 2);
}

#[test]
fn unstake_after_completion_once() {
    let mut env = new_env();
    let token = addr(2);
    let reviewer = addr(3);
    let mut g = active_grant(1, addr(1), token, Vec::new(), 0, Vec::new());
    g.status = GrantStatus::Completed;
    env.storage.set_grant(1, &g);
    env.storage.set_reviewer_stake(1, &reviewer, 70);
    assert_eq!(StellarGrantsContract::unstake(&mut env, reviewer, 1), Ok(()));
    assert_eq!(env.transfers, vec![Transfer { token, from: contract_addr(), to: reviewer, amount: 70 }]);
    assert_eq!(StellarGrantsContract::unstake(&mut env, reviewer, 1), Err(ContractError::StakeNotFound));
}

#[test]
fn slash_needs_treasury() {
    let mut env = env_with_admin();
    env.storage.set_grant(1, &active_grant(1, addr(1), addr(2), Vec::new(), 0, Vec::new()));
    env.storage.set_reviewer_stake(1, &addr(3), 5);
    assert_eq!(StellarGrantsContract::slash_reviewer(&mut env, addr(100), 1, addr(3)), Err(ContractError::InvalidInput));
    assert_eq!(env.storage.get_reviewer_stake(1, &addr(3)), 5);
}

#[test]
fn identity_oracle_is_recorded() {
    let mut env = env_with_admin();
    assert_eq!(StellarGrantsContract::set_identity_oracle(&mut env, addr(100), addr(8)), Ok(()));
    assert_eq!(env.storage.get_identity_oracle(), Some(addr(8)));
}

#[test]
fn storage_defaults() {
    let mut s = Storage::new();
    assert_eq!(s.get_reviewer_reputation(addr(1)), 1);
    assert_eq!(s.get_reviewer_stake(1, &addr(1)), 0);
    assert_eq!(s.get_min_reviewer_stake(), 0);
    assert_eq!(s.get_escrow_state(1), EscrowState {
        mode: EscrowMode::Standard,
        lifecycle: EscrowLifecycleState::Funding,
        quorum_ready: false,
        approvals_count: 0,
    });
    assert!(s.get_multisig_signers(1).is_empty());
    assert!(!s.has_release_approval(1, &addr(1)));
    assert!(!s.has_grant(1));
    assert_eq!(s.get_global_admin(), None);
    assert_eq!(s.get_council(), None);
    assert_eq!(s.increment_grant_counter(), 1);
    assert_eq!(s.increment_grant_counter(), 2);
    s.set_global_admin(&addr(5));
    s.set_council(&addr(6));
    s.set_multisig_signers(1, &vec![addr(1), addr(2)]);
    s.set_release_approval(1, &addr(2), true);
    let state = EscrowState { mode: EscrowMode::Multisig, lifecycle: EscrowLifecycleState::Released, quorum_ready: true, approvals_count: 2 };
    s.set_escrow_state(1, &state);
    assert_eq!(s.get_global_admin(), Some(addr(5)));
    assert_eq!(s.get_council(), Some(addr(6)));
    assert_eq!(s.get_multisig_signers(1), vec![addr(1), addr(2)]);
    assert!(s.has_release_approval(1, &addr(2)));
    assert_eq!(s.get_escrow_state(1), state);
}

#[test]
fn keyed_list_overwrites() {
    let mut k: KeyedList<u64, i128> = KeyedList::new();
    k.set(1, 10);
    k.set(2, 20);
    k.set(1, 11);
    assert_eq!(k.get(&1), Some(&11));
    assert_eq!(k.get(&2), Some(&20));
    assert_eq!(k.get(&3), None);
    assert_eq!(k.keys().len(), 2);
    let d = k.duplicate();
    assert_eq!(d.get(&1), Some(&11));
}

#[test]
fn milestone_voted_event_uses_ledger_time() {
    let mut env = new_env();
    milestone_voted(&mut env, 4, 2, addr(3), false);
    match &env.events[0] {
        ContractEvent::Voted { grant_id, milestone_idx, vote } => {
            assert_eq!((*grant_id, *milestone_idx), (4, 2));
            assert_eq!(*vote, MilestoneVoted { reviewer: addr(3), approve: false, timestamp: 1_700_000_000 });
        },
        other => panic!("unexpected event {:?}", other),
    }
}

#[test]
fn reentrancy_guard() {
    let mut env = new_env();
    lock(&mut env);
    assert!(env.reentrancy_locked);
    unlock(&mut env);
    unlock(&mut env);
    assert!(!env.reentrancy_locked);
    let r: Result<u32, ContractError> = with_non_reentrant(&mut env, || Ok(5));
    assert_eq!(r, Ok(5));
    let r: Result<u32, ContractError> = with_non_reentrant(&mut env, || Err(ContractError::InvalidInput));
    assert_eq!(r, Err(ContractError::InvalidInput));
    assert!(!env.reentrancy_locked);
}

#[test]
fn cancel_fits_detects_running_overflow() {
    let mut env = new_env();
    let owner = addr(1);
    let funders = vec![GrantFund { funder: addr(10), amount: i128::MAX }, GrantFund { funder: addr(11), amount: 1 }];
    env.storage.set_grant(1, &active_grant(1, owner, addr(2), Vec::new(), 10, funders));
    assert!(!StellarGrantsContract::cancel_fits(&env, 1, owner));
    // a caller other than the owner is refused before any sum is taken
    assert!(StellarGrantsContract::cancel_fits(&env, 1, addr(5)));
    let fine = vec![GrantFund { funder: addr(10), amount: 5 }];
    env.storage.set_grant(1, &active_grant(1, owner, addr(2), Vec::new(), 10, fine));
    assert!(StellarGrantsContract::cancel_fits(&env, 1, owner));
}

#[test]
fn complete_fits_detects_paid_overflow() {
    let mut env = new_env();
    let mut g = active_grant(1, addr(1), addr(2), Vec::new(), 10, Vec::new());
    g.total_milestones = 2;
    env.storage.set_grant(1, &g);
    for i in 0..2 {
        let mut m = submitted(i);
        m.state = MilestoneState::Approved;
        m.amount = i128::MAX;
        env.storage.set_milestone(1, i, &m);
    }
    assert!(!StellarGrantsContract::complete_fits(&env, 1));
    let mut m = submitted(1);
    m.state = MilestoneState::Approved;
    m.amount = 1;
    env.storage.set_milestone(1, 1, &m);
    // 10 - (MAX + 1) leaves the range
    assert!(!StellarGrantsContract::complete_fits(&env, 1));
    let mut m0 = submitted(0);
    m0.state = MilestoneState::Approved;
    env.storage.set_milestone(1, 0, &m0);
    assert!(StellarGrantsContract::complete_fits(&env, 1));
    assert!(StellarGrantsContract::complete_fits(&env, 99));
    // an inactive grant is refused before any sum is taken
    for i in 0..2 {
        let mut m = submitted(i);
        m.state = MilestoneState::Approved;
        m.amount = i128::MAX;
        env.storage.set_milestone(1, i, &m);
    }
    let mut g = env.storage.get_grant(1).unwrap();
    g.status = GrantStatus::Completed;
    env.storage.set_grant(1, &g);
    assert!(StellarGrantsContract::complete_fits(&env, 1));
    assert_eq!(StellarGrantsContract::grant_complete(&mut env, 1), Err(ContractError::InvalidState));
}

#[test]
fn ballot_fits_detects_tally_overflow() {
    let mut env = new_env();
    let reviewer = addr(3);
    env.storage.set_grant(1, &active_grant(1, addr(1), addr(2), vec![reviewer], 0, Vec::new()));
    let mut m = submitted(0);
    m.approvals = 1;
    m.rejections = 1;
    env.storage.set_milestone(1, 0, &m);
    assert!(StellarGrantsContract::vote_fits(&env, 1, 0, reviewer, true, &None));
    assert!(StellarGrantsContract::reject_fits(&env, 1, 0, reviewer, &"r".into()));
    env.storage.set_reviewer_reputation(reviewer, u32::MAX);
    assert!(!StellarGrantsContract::vote_fits(&env, 1, 0, reviewer, true, &None));
    assert!(!StellarGrantsContract::reject_fits(&env, 1, 0, reviewer, &"r".into()));
    // a ballot refused by its checks never reaches the arithmetic
    assert!(StellarGrantsContract::vote_fits(&env, 1, 0, addr(9), true, &None));
}

#[test]
fn fund_batch_refuses_overflowing_funder_entry() {
    let mut env = new_env();
    let funders = vec![GrantFund { funder: addr(7), amount: i128::MAX }];
    env.storage.set_grant(1, &active_grant(1, addr(1), addr(2), Vec::new(), 0, funders));
    env.storage.set_grant(2, &active_grant(2, addr(1), addr(2), Vec::new(), 0, Vec::new()));
    let r = StellarGrantsContract::fund_batch(&mut env, addr(7), vec![(2, 5), (1, 1)]);
    assert_eq!(r, Err(ContractError::InvalidInput));
    assert_eq!(env.storage.get_grant(2).unwrap().escrow_balance, 0);
    assert!(env.transfers.is_empty());
    // an earlier failing item decides the error
    let r = StellarGrantsContract::fund_batch(&mut env, addr(7), vec![(3, 5), (1, 1)]);
    assert_eq!(r, Err(ContractError::GrantNotFound));
}

#[test]
fn fund_batch_matches_single_fundings() {
    let token = addr(2);
    let setup = |env: &mut Env| {
        env.storage.set_grant(1, &active_grant(1, addr(1), token, Vec::new(), 0, Vec::new()));
        env.storage.set_grant(2, &active_grant(2, addr(1), token, Vec::new(), 5, vec![GrantFund { funder: addr(8), amount: 5 }]));
    };
    let mut batched = new_env();
    setup(&mut batched);
    StellarGrantsContract::fund_batch(&mut batched, addr(7), vec![(1, 10), (2, 20), (1, 30)]).unwrap();
    let mut single = new_env();
    setup(&mut single);
    for (id, amount) in [(1u64, 10i128), (2, 20), (1, 30)] {
        StellarGrantsContract::grant_fund(&mut single, id, addr(7), amount).unwrap();
    }
    for id in [1u64, 2] {
        let (b, s) = (batched.storage.get_grant(id).unwrap(), single.storage.get_grant(id).unwrap());
        assert_eq!(b.escrow_balance, s.escrow_balance);
        assert_eq!(b.funders, s.funders);
    }
    assert_eq!(batched.storage.get_grant(1).unwrap().funders, vec![GrantFund { funder: addr(7), amount: 40 }]);
    assert_eq!(batched.transfers, single.transfers);
    assert_eq!(format!("{:?}", batched.events), format!("{:?}", single.events));
}

#[test]
fn create_fits_detects_counter_overflow() {
    let mut env = new_env();
    assert!(StellarGrantsContract::create_fits(&env, 100, 100, 1));
    env.storage.grant_counter = Some(u64::MAX);
    assert!(!StellarGrantsContract::create_fits(&env, 100, 100, 1));
    // invalid terms are refused before the counter moves
    assert!(StellarGrantsContract::create_fits(&env, 0, 100, 1));
}
