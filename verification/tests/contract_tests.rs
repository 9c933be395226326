use stellar_grants::contract::StellarGrantsContract;
use stellar_grants::env::Env;
use stellar_grants::keyed::KeyedList;
use stellar_grants::types::{
    Address, AddressKind, ContractError, Grant, GrantFund, GrantStatus, Milestone, MilestoneState,
};

fn addr(n: u128) -> Address {
    Address { kind: AddressKind::Account, high: 0, low: n }
}

fn contract_addr() -> Address {
    Address { kind: AddressKind::Contract, high: 7, low: 7 }
}

/// Every address these tests act for has authorized the call.
fn mock_all_auths(env: &mut Env) {
    for n in 0..=200u128 {
        env.authorize(addr(n));
    }
    env.authorize(addr(1000));
}

fn setup_test() -> (Env, Address, Address) {
    let (mut env, admin, contract_id) = setup_test_without_auths();
    mock_all_auths(&mut env);
    (env, admin, contract_id)
}

fn setup_test_without_auths() -> (Env, Address, Address) {
    let contract_id = contract_addr();
    let env = Env::new(0, contract_id);
    let admin = addr(1000);
    (env, admin, contract_id)
}

/// Balance of `who` in `token`: what it started with plus what the recorded transfers moved.
fn balance(env: &Env, token: Address, who: Address, start: i128) -> i128 {
    let mut b = start;
    for t in env.transfers.iter() {
        if t.token == token {
            if t.to == who {
                b += t.amount;
            }
            if t.from == who {
                b -= t.amount;
            }
        }
    }
    b
}

fn grant_with(
    grant_id: u64,
    owner: Address,
    token: Address,
    reviewers: Vec<Address>,
    status: GrantStatus,
    total_amount: i128,
    total_milestones: u32,
    milestones_paid_out: u32,
    escrow_balance: i128,
    funders: Vec<GrantFund>,
) -> Grant {
    Grant {
        id: grant_id,
        title: "Test".into(),
        description: "Desc".into(),
        milestone_amount: 500,
        owner,
        token,
        status,
        total_amount,
        reviewers,
        total_milestones,
        milestones_paid_out,
        escrow_balance,
        funders,
        reason: None,
        timestamp: 0,
    }
}

fn create_grant(env: &mut Env, grant_id: u64, owner: Address, token: Address, reviewers: Vec<Address>) {
    let grant = grant_with(grant_id, owner, token, reviewers, GrantStatus::Active, 1000, 1, 0, 1000, Vec::new());
    env.storage.set_grant(grant_id, &grant);
}

fn milestone_with(milestone_idx: u32, description: &str, amount: i128, state: MilestoneState, approvals: u32) -> Milestone {
    Milestone {
        idx: milestone_idx,
        description: description.into(),
        amount,
        state,
        votes: KeyedList::new(),
        approvals,
        rejections: 0,
        reasons: KeyedList::new(),
        status_updated_at: 0,
        proof_url: None,
        submission_timestamp: 0,
    }
}

fn create_milestone(env: &mut Env, grant_id: u64, milestone_idx: u32, state: MilestoneState) {
    let mut milestone = milestone_with(milestone_idx, "Description", 100, state, 0);
    milestone.proof_url = Some("https://proof.url".into());
    env.storage.set_milestone(grant_id, milestone_idx, &milestone);
}

#[test]
fn test_get_milestone_success() {
    let (mut env, _, _) = setup_test();
    let grant_id = 1;
    let milestone_idx = 0;
    let owner = addr(1);
    let token = addr(2);
    let reviewer = addr(3);
    create_grant(&mut env, grant_id, owner, token, vec![reviewer]);
    create_milestone(&mut env, grant_id, milestone_idx, MilestoneState::Submitted);

    let milestone = StellarGrantsContract::get_milestone(&env, grant_id, milestone_idx).unwrap();
    assert_eq!(milestone.state, MilestoneState::Submitted);
    assert_eq!(milestone.description, b"Description");
}

#[test]
fn test_get_milestone_grant_not_found() {
    let (env, _, _) = setup_test();
    let result = StellarGrantsContract::get_milestone(&env, 99, 0);
    assert_eq!(result.err(), Some(ContractError::GrantNotFound));
}

#[test]
fn test_successful_vote() {
    let (mut env, _, _) = setup_test();
    let grant_id = 1;
    let milestone_idx = 0;
    let owner = addr(1);
    let token = addr(2);
    let reviewer = addr(3);
    create_grant(&mut env, grant_id, owner, token, vec![reviewer]);
    create_milestone(&mut env, grant_id, milestone_idx, MilestoneState::Submitted);

    let result = StellarGrantsContract::milestone_vote(&mut env, grant_id, milestone_idx, reviewer, true, None);
    assert_eq!(result, Ok(true));

    let updated = env.storage.get_milestone(grant_id, milestone_idx).unwrap();
    assert_eq!(updated.approvals, 1);
    assert_eq!(updated.state, MilestoneState::Approved);
    assert!(*updated.votes.get(&reviewer).unwrap());
}

#[test]
fn test_grant_cancel_success_multiple_funders() {
    let (mut env, _, _) = setup_test();
    let token_id = addr(50);
    let owner = addr(1);
    let funder1 = addr(2);
    let funder2 = addr(3);
    let total_funded = 1000i128;
    let fund1 = 600i128;
    let fund2 = 400i128;
    let remaining = 1000i128;
    let grant_id = 1u64;

    let funders = vec![GrantFund { funder: funder1, amount: fund1 }, GrantFund { funder: funder2, amount: fund2 }];
    let grant = grant_with(grant_id, owner, token_id, Vec::new(), GrantStatus::Active, total_funded, 1, 0, remaining, funders);
    env.storage.set_grant(grant_id, &grant);

    StellarGrantsContract::grant_cancel(&mut env, grant_id, owner, "Project discontinued".into()).unwrap();

    assert_eq!(balance(&env, token_id, funder1, 0), 600);
    assert_eq!(balance(&env, token_id, funder2, 0), 400);
    let updated = env.storage.get_grant(grant_id).unwrap();
    assert_eq!(updated.status, GrantStatus::Cancelled);
}

#[test]
fn test_grant_cancel_unauthorized() {
    let (mut env, _, _) = setup_test();
    let owner = addr(1);
    let wrong_owner = addr(2);
    let token = addr(3);
    let grant_id = 1u64;
    create_grant(&mut env, grant_id, owner, token, Vec::new());

    let result = StellarGrantsContract::grant_cancel(&mut env, grant_id, wrong_owner, "test".into());
    assert_eq!(result, Err(ContractError::Unauthorized));
}

#[test]
fn test_grant_cancel_invalid_state() {
    let (mut env, _, _) = setup_test();
    let owner = addr(1);
    let token = addr(2);
    let grant_id = 1u64;
    let grant = grant_with(grant_id, owner, token, Vec::new(), GrantStatus::Completed, 100, 1, 1, 0, Vec::new());
    env.storage.set_grant(grant_id, &grant);

    let result = StellarGrantsContract::grant_cancel(&mut env, grant_id, owner, "test".into());
    assert_eq!(result, Err(ContractError::InvalidState));
}

#[test]
fn test_grant_complete_success_with_refunds() {
    let (mut env, _, _) = setup_test();
    let token_id = addr(50);
    let owner = addr(1);
    let funder1 = addr(2);
    let funder2 = addr(3);
    let grant_id = 1u64;
    let total_funded = 1000i128;
    let milestone_amount = 300i128;
    let fund1 = 600i128;
    let fund2 = 400i128;

    let funders = vec![GrantFund { funder: funder1, amount: fund1 }, GrantFund { funder: funder2, amount: fund2 }];
    let grant = grant_with(grant_id, owner, token_id, Vec::new(), GrantStatus::Active, total_funded, 2, 0, total_funded, funders);
    env.storage.set_grant(grant_id, &grant);
    for i in 0..2 {
        let milestone = milestone_with(i, "Desc", milestone_amount, MilestoneState::Approved, 1);
        env.storage.set_milestone(grant_id, i, &milestone);
    }

    StellarGrantsContract::grant_complete(&mut env, grant_id).unwrap();

    // remaining = 1000 - 600 = 400; funder1 gets 60% = 240, funder2 gets 40% = 160
    assert_eq!(balance(&env, token_id, funder1, 0), 240);
    assert_eq!(balance(&env, token_id, funder2, 0), 160);
    let updated = env.storage.get_grant(grant_id).unwrap();
    assert_eq!(updated.status, GrantStatus::Completed);
    assert_eq!(updated.escrow_balance, 0);
}

#[test]
fn test_grant_complete_pending_milestones() {
    let (mut env, _, _) = setup_test();
    let owner = addr(1);
    let token = addr(2);
    let grant_id = 1u64;
    let grant = grant_with(grant_id, owner, token, Vec::new(), GrantStatus::Active, 1000, 2, 0, 1000, Vec::new());
    env.storage.set_grant(grant_id, &grant);
    env.storage.set_milestone(grant_id, 0, &milestone_with(0, "M1", 500, MilestoneState::Approved, 1));
    env.storage.set_milestone(grant_id, 1, &milestone_with(1, "M2", 500, MilestoneState::Pending, 0));

    let result = StellarGrantsContract::grant_complete(&mut env, grant_id);
    assert_eq!(result, Err(ContractError::NotAllMilestonesApproved));
}

#[test]
fn test_grant_complete_exact_balance() {
    let (mut env, _, _) = setup_test();
    let owner = addr(1);
    let token_id = addr(2);
    let grant_id = 1u64;
    let total_funded = 500i128;
    let grant = grant_with(grant_id, owner, token_id, Vec::new(), GrantStatus::Active, total_funded, 1, 0, total_funded, Vec::new());
    env.storage.set_grant(grant_id, &grant);
    env.storage.set_milestone(grant_id, 0, &milestone_with(0, "M1", 500, MilestoneState::Approved, 1));

    StellarGrantsContract::grant_complete(&mut env, grant_id).unwrap();

    let updated = env.storage.get_grant(grant_id).unwrap();
    assert_eq!(updated.status, GrantStatus::Completed);
    assert_eq!(updated.escrow_balance, 0);
}

#[test]
fn test_get_grant_success() {
    let (mut env, _, _) = setup_test();
    let owner = addr(1);
    let token_id = addr(2);
    let grant_id = 999u64;
    let total_funded = 500i128;
    let grant = grant_with(grant_id, owner, token_id, Vec::new(), GrantStatus::Active, total_funded, 1, 0, total_funded, Vec::new());
    env.storage.set_grant(grant_id, &grant);

    let fetched = StellarGrantsContract::get_grant(&env, grant_id).unwrap();
    assert_eq!(fetched.id, grant_id);
    assert_eq!(fetched.owner, owner);
    assert_eq!(fetched.total_amount, total_funded);
    assert_eq!(fetched.status, GrantStatus::Active);
}

#[test]
fn test_get_grant_not_found() {
    let (env, _, _) = setup_test();
    let invalid_grant_id = 12345u64;
    let result = StellarGrantsContract::get_grant(&env, invalid_grant_id);
    assert_eq!(result.err(), Some(ContractError::GrantNotFound));
}

#[test]
fn test_contributor_register_success() {
    let (mut env, _, _) = setup_test();
    let contributor = addr(1);
    let skills = vec!["Rust".into(), "Soroban".into()];
    StellarGrantsContract::contributor_register(
        &mut env,
        contributor,
        "Alice".into(),
        "Rust Developer".into(),
        skills.clone(),
        "https://github.com/alice".into(),
    )
    .unwrap();

    let result = StellarGrantsContract::contributor_register(
        &mut env,
        contributor,
        "Alice".into(),
        "Rust Developer".into(),
        skills,
        "https://github.com/alice".into(),
    );
    assert_eq!(result, Err(ContractError::AlreadyRegistered));
}

#[test]
fn test_contributor_register_empty_name() {
    let (mut env, _, _) = setup_test();
    let contributor = addr(1);
    let result = StellarGrantsContract::contributor_register(
        &mut env,
        contributor,
        "".into(),
        "Bio".into(),
        Vec::new(),
        "".into(),
    );
    assert_eq!(result, Err(ContractError::InvalidInput));
}

#[test]
fn test_contributor_register_long_bio() {
    let (mut env, _, _) = setup_test();
    let contributor = addr(1);
    let bio = "A".repeat(501).into_bytes();
    let result = StellarGrantsContract::contributor_register(
        &mut env,
        contributor,
        "Bob".into(),
        bio,
        Vec::new(),
        "".into(),
    );
    assert_eq!(result, Err(ContractError::InvalidInput));
}

#[test]
fn test_milestone_submit_success() {
    let (mut env, _, _) = setup_test();
    let owner = addr(1);
    let token = addr(2);
    let grant_id = 1u64;
    let milestone_idx = 0u32;
    let grant = grant_with(grant_id, owner, token, Vec::new(), GrantStatus::Active, 1000, 2, 0, 1000, Vec::new());
    env.storage.set_grant(grant_id, &grant);

    StellarGrantsContract::milestone_submit(
        &mut env,
        grant_id,
        milestone_idx,
        owner,
        "Completed smart contract implementation".into(),
        "https://github.com/org/repo/pull/42".into(),
    )
    .unwrap();

    let milestone = env.storage.get_milestone(grant_id, milestone_idx).unwrap();
    assert_eq!(milestone.state, MilestoneState::Submitted);
    assert_eq!(milestone.description, b"Completed smart contract implementation");
    assert_eq!(milestone.proof_url, Some("https://github.com/org/repo/pull/42".into()));
    assert_eq!(milestone.idx, milestone_idx);
}

#[test]
fn test_milestone_submit_grant_not_found() {
    let (mut env, _, _) = setup_test();
    let recipient = addr(1);
    let result = StellarGrantsContract::milestone_submit(
        &mut env,
        999u64,
        0u32,
        recipient,
        "Work done".into(),
        "https://proof.url".into(),
    );
    assert_eq!(result, Err(ContractError::GrantNotFound));
}

#[test]
fn test_milestone_submit_invalid_milestone_idx() {
    let (mut env, _, _) = setup_test();
    let owner = addr(1);
    let token = addr(2);
    let grant_id = 1u64;
    create_grant(&mut env, grant_id, owner, token, Vec::new());

    // The grant has total_milestones = 1, so index 1 is out of bounds
    let result = StellarGrantsContract::milestone_submit(
        &mut env,
        grant_id,
        1u32,
        owner,
        "Work done".into(),
        "https://proof.url".into(),
    );
    assert_eq!(result, Err(ContractError::InvalidInput));
}

#[test]
fn test_milestone_submit_duplicate() {
    let (mut env, _, _) = setup_test();
    let owner = addr(1);
    let token = addr(2);
    let grant_id = 1u64;
    let milestone_idx = 0u32;
    create_grant(&mut env, grant_id, owner, token, Vec::new());
    create_milestone(&mut env, grant_id, milestone_idx, MilestoneState::Submitted);

    let result = StellarGrantsContract::milestone_submit(
        &mut env,
        grant_id,
        milestone_idx,
        owner,
        "Work done".into(),
        "https://proof.url".into(),
    );
    assert_eq!(result, Err(ContractError::MilestoneAlreadySubmitted));
}

#[test]
fn test_milestone_submit_unauthorized() {
    let (mut env, _, _) = setup_test();
    let owner = addr(1);
    let attacker = addr(2);
    let token = addr(3);
    let grant_id = 1u64;
    create_grant(&mut env, grant_id, owner, token, Vec::new());

    let result = StellarGrantsContract::milestone_submit(
        &mut env,
        grant_id,
        0u32,
        attacker,
        "Work done".into(),
        "https://proof.url".into(),
    );
    assert_eq!(result, Err(ContractError::Unauthorized));
}

#[test]
fn test_milestone_submit_inactive_grant() {
    let (mut env, _, _) = setup_test();
    let owner = addr(1);
    let token = addr(2);
    let grant_id = 1u64;
    let grant = grant_with(grant_id, owner, token, Vec::new(), GrantStatus::Completed, 1000, 1, 1, 0, Vec::new());
    env.storage.set_grant(grant_id, &grant);

    let result = StellarGrantsContract::milestone_submit(
        &mut env,
        grant_id,
        0u32,
        owner,
        "Work done".into(),
        "https://proof.url".into(),
    );
    assert_eq!(result, Err(ContractError::InvalidState));
}

#[test]
fn test_grant_fund_success() {
    let (mut env, _, contract_id) = setup_test();
    let token_id = addr(50);
    let owner = addr(1);
    let funder = addr(2);
    let grant_id = 1u64;
    let fund_amount = 500i128;
    let grant = grant_with(grant_id, owner, token_id, Vec::new(), GrantStatus::Active, 1000, 1, 0, 0, Vec::new());
    env.storage.set_grant(grant_id, &grant);

    StellarGrantsContract::grant_fund(&mut env, grant_id, funder, fund_amount).unwrap();

    // the funder was minted 1000 beforehand
    assert_eq!(balance(&env, token_id, funder, 1000), 500);
    assert_eq!(balance(&env, token_id, contract_id, 0), 500);
    let updated = env.storage.get_grant(grant_id).unwrap();
    assert_eq!(updated.escrow_balance, 500);
    assert_eq!(updated.funders.len(), 1);
    let first = updated.funders[0];
    assert_eq!(first.funder, funder);
    assert_eq!(first.amount, 500);
}

#[test]
fn test_grant_fund_non_existent() {
    let (mut env, _, _) = setup_test();
    let funder = addr(1);
    let result = StellarGrantsContract::grant_fund(&mut env, 999u64, funder, 100i128);
    assert_eq!(result, Err(ContractError::GrantNotFound));
}

#[test]
fn test_grant_fund_invalid_amount() {
    let (mut env, _, _) = setup_test();
    let owner = addr(1);
    let funder = addr(2);
    let token = addr(3);
    let grant_id = 1u64;
    create_grant(&mut env, grant_id, owner, token, Vec::new());

    let result = StellarGrantsContract::grant_fund(&mut env, grant_id, funder, 0i128);
    assert_eq!(result, Err(ContractError::InvalidInput));
    let result2 = StellarGrantsContract::grant_fund(&mut env, grant_id, funder, -100i128);
    assert_eq!(result2, Err(ContractError::InvalidInput));
}

#[test]
fn test_grant_fund_unauthorized() {
    // nobody has authorized anything
    let (mut env, _, _) = setup_test_without_auths();
    let owner = addr(1);
    let funder = addr(2);
    let token = addr(3);
    let grant_id = 1u64;
    create_grant(&mut env, grant_id, owner, token, Vec::new());

    let result = StellarGrantsContract::grant_fund(&mut env, grant_id, funder, 100i128);
    assert!(result.is_err());
    assert!(env.transfers.is_empty());
}

#[test]
fn test_grant_fund_overflow() {
    let (mut env, _, _) = setup_test();
    let owner = addr(1);
    let funder = addr(2);
    let token = addr(3);
    let grant_id = 1u64;
    let grant = grant_with(grant_id, owner, token, Vec::new(), GrantStatus::Active, 1000, 1, 0, i128::MAX, Vec::new());
    env.storage.set_grant(grant_id, &grant);

    // adding to a balance at i128::MAX is refused rather than wrapping
    let result = StellarGrantsContract::grant_fund(&mut env, grant_id, funder, 1);
    assert_eq!(result, Err(ContractError::InvalidInput));
    assert_eq!(env.storage.get_grant(grant_id).unwrap().escrow_balance, i128::MAX);
}

#[test]
fn test_grant_fund_multiple_funders() {
    let (mut env, _, _) = setup_test();
    let token_id = addr(50);
    let owner = addr(1);
    let funder1 = addr(2);
    let funder2 = addr(3);
    let grant_id = 1u64;
    let grant = grant_with(grant_id, owner, token_id, Vec::new(), GrantStatus::Active, 1000, 1, 0, 0, Vec::new());
    env.storage.set_grant(grant_id, &grant);

    StellarGrantsContract::grant_fund(&mut env, grant_id, funder1, 300i128).unwrap();
    StellarGrantsContract::grant_fund(&mut env, grant_id, funder2, 400i128).unwrap();

    let updated = env.storage.get_grant(grant_id).unwrap();
    assert_eq!(updated.escrow_balance, 700);
    assert_eq!(updated.funders.len(), 2);
    let f1 = updated.funders[0];
    let f2 = updated.funders[1];
    assert_eq!(f1.funder, funder1);
    assert_eq!(f1.amount, 300);
    assert_eq!(f2.funder, funder2);
    assert_eq!(f2.amount, 400);
}

#[test]
fn test_grant_fund_existing_funder() {
    let (mut env, _, _) = setup_test();
    let token_id = addr(50);
    let owner = addr(1);
    let funder = addr(2);
    let grant_id = 1u64;
    let grant = grant_with(grant_id, owner, token_id, Vec::new(), GrantStatus::Active, 1000, 1, 0, 0, Vec::new());
    env.storage.set_grant(grant_id, &grant);

    StellarGrantsContract::grant_fund(&mut env, grant_id, funder, 300i128).unwrap();
    StellarGrantsContract::grant_fund(&mut env, grant_id, funder, 200i128).unwrap();

    let updated = env.storage.get_grant(grant_id).unwrap();
    assert_eq!(updated.escrow_balance, 500);
    assert_eq!(updated.funders.len(), 1);
    let f = updated.funders[0];
    assert_eq!(f.funder, funder);
    assert_eq!(f.amount, 500);
}

#[test]
fn test_grant_create_success() {
    let (mut env, _, _) = setup_test();
    let owner = addr(1);
    let token = addr(2);
    let title: Vec<u8> = "New Grant".into();
    let description: Vec<u8> = "Some desc".into();

    let grant_id = StellarGrantsContract::grant_create(
        &mut env,
        owner,
        title.clone(),
        description.clone(),
        token,
        1000i128,
        500i128,
        2u32,
        Vec::new(),
    )
    .unwrap();

    assert_eq!(grant_id, 1);
    let grant = env.storage.get_grant(grant_id).unwrap();
    assert_eq!(grant.owner, owner);
    assert_eq!(grant.title, title);
    assert_eq!(grant.description, description);
    assert_eq!(grant.total_amount, 1000);
    assert_eq!(grant.milestone_amount, 500);
    assert_eq!(grant.total_milestones, 2);
    assert_eq!(grant.status, GrantStatus::Active);
    assert_eq!(grant.escrow_balance, 0);
}

fn try_create(env: &mut Env, total: i128, per_milestone: i128, count: u32) -> Result<u64, ContractError> {
    StellarGrantsContract::grant_create(
        env,
        addr(1),
        "New Grant".into(),
        "Some desc".into(),
        addr(2),
        total,
        per_milestone,
        count,
        Vec::new(),
    )
}

#[test]
fn test_grant_create_invalid_amounts() {
    let (mut env, _, _) = setup_test();
    assert_eq!(try_create(&mut env, 0i128, 500i128, 2u32), Err(ContractError::InvalidInput));
    assert_eq!(try_create(&mut env, 1000i128, -100i128, 2u32), Err(ContractError::InvalidInput));
}

#[test]
fn test_grant_create_invalid_num_milestones() {
    let (mut env, _, _) = setup_test();
    assert_eq!(try_create(&mut env, 1000i128, 500i128, 0u32), Err(ContractError::InvalidInput));
    assert_eq!(try_create(&mut env, 100000i128, 100i128, 101u32), Err(ContractError::InvalidInput));
}

#[test]
fn test_grant_create_amount_mismatch() {
    let (mut env, _, _) = setup_test();
    // total < milestone_amount * num_milestones: 800 < 500 * 2
    assert_eq!(try_create(&mut env, 800i128, 500i128, 2u32), Err(ContractError::InvalidInput));
}

#[test]
fn test_reputation_weighted_quorum() {
    let (mut env, _, _) = setup_test();
    let grant_id = 1;
    let milestone_idx = 0;
    let high = addr(10);
    let low = addr(11);
    create_grant(&mut env, grant_id, addr(1), addr(2), vec![high, low]);
    create_milestone(&mut env, grant_id, milestone_idx, MilestoneState::Submitted);
    env.storage.set_reviewer_reputation(high, 3);
    env.storage.set_reviewer_reputation(low, 1);

    // Total weight = 4, quorum = 3: the high-reputation vote passes alone.
    let result = StellarGrantsContract::milestone_vote(&mut env, grant_id, milestone_idx, high, true, None);
    assert_eq!(result, Ok(true));
    let updated = env.storage.get_milestone(grant_id, milestone_idx).unwrap();
    assert_eq!(updated.state, MilestoneState::Approved);
    assert_eq!(env.storage.get_reviewer_reputation(high), 4);
}

#[test]
fn test_reputation_increment_on_rejection() {
    let (mut env, _, _) = setup_test();
    let grant_id = 1;
    let milestone_idx = 0;
    let reviewer1 = addr(10);
    let reviewer2 = addr(11);
    create_grant(&mut env, grant_id, addr(1), addr(2), vec![reviewer1, reviewer2]);
    create_milestone(&mut env, grant_id, milestone_idx, MilestoneState::Submitted);

    StellarGrantsContract::milestone_reject(&mut env, grant_id, milestone_idx, reviewer1, "Incomplete".into()).unwrap();
    let result = StellarGrantsContract::milestone_reject(&mut env, grant_id, milestone_idx, reviewer2, "Incomplete".into());
    assert_eq!(result, Ok(true));

    assert_eq!(env.storage.get_reviewer_reputation(reviewer1), 2);
    assert_eq!(env.storage.get_reviewer_reputation(reviewer2), 2);
    let updated = env.storage.get_milestone(grant_id, milestone_idx).unwrap();
    assert_eq!(updated.state, MilestoneState::Rejected);
}

#[test]
fn test_reputation_weighted_vote_failure() {
    let (mut env, _, _) = setup_test();
    let grant_id = 1;
    let milestone_idx = 0;
    let high = addr(10);
    let low = addr(11);
    create_grant(&mut env, grant_id, addr(1), addr(2), vec![high, low]);
    create_milestone(&mut env, grant_id, milestone_idx, MilestoneState::Submitted);
    env.storage.set_reviewer_reputation(high, 3);
    env.storage.set_reviewer_reputation(low, 1);

    let result = StellarGrantsContract::milestone_vote(&mut env, grant_id, milestone_idx, low, true, None);
    assert_eq!(result, Ok(false));
    let updated = env.storage.get_milestone(grant_id, milestone_idx).unwrap();
    assert_eq!(updated.state, MilestoneState::Submitted);
    assert_eq!(env.storage.get_reviewer_reputation(low), 1);
}

#[test]
fn test_no_reputation_increment_for_dissenting_voter() {
    let (mut env, _, _) = setup_test();
    let grant_id = 1;
    let milestone_idx = 0;
    let harmonious = addr(10);
    let dissenting = addr(11);
    create_grant(&mut env, grant_id, addr(1), addr(2), vec![harmonious, dissenting]);
    create_milestone(&mut env, grant_id, milestone_idx, MilestoneState::Submitted);
    env.storage.set_reviewer_reputation(harmonious, 2);
    env.storage.set_reviewer_reputation(dissenting, 1);

    StellarGrantsContract::milestone_vote(&mut env, grant_id, milestone_idx, dissenting, false, None).unwrap();
    let result = StellarGrantsContract::milestone_vote(&mut env, grant_id, milestone_idx, harmonious, true, None);
    assert_eq!(result, Ok(true));

    assert_eq!(env.storage.get_reviewer_reputation(harmonious), 3);
    assert_eq!(env.storage.get_reviewer_reputation(dissenting), 1);
}

#[test]
fn test_milestone_feedback_success() {
    let (mut env, _, _) = setup_test();
    let grant_id = 1;
    let milestone_idx = 0;
    let reviewer = addr(10);
    create_grant(&mut env, grant_id, addr(1), addr(2), vec![reviewer]);
    create_milestone(&mut env, grant_id, milestone_idx, MilestoneState::Submitted);

    StellarGrantsContract::milestone_vote(&mut env, grant_id, milestone_idx, reviewer, true, Some("Great job!".into())).unwrap();

    let all_feedback = StellarGrantsContract::get_milestone_feedback(&env, grant_id, milestone_idx).unwrap();
    assert_eq!(all_feedback.get(&reviewer).unwrap(), b"Great job!");
}

#[test]
fn test_milestone_feedback_length_limit() {
    let (mut env, _, _) = setup_test();
    let grant_id = 1;
    let milestone_idx = 0;
    let reviewer = addr(10);
    create_grant(&mut env, grant_id, addr(1), addr(2), vec![reviewer]);
    create_milestone(&mut env, grant_id, milestone_idx, MilestoneState::Submitted);

    let too_long_feedback = Some("A".repeat(257).into_bytes());
    let result = StellarGrantsContract::milestone_vote(&mut env, grant_id, milestone_idx, reviewer, true, too_long_feedback);
    assert_eq!(result, Err(ContractError::InvalidInput));
}

#[test]
fn test_grant_create_unauthorized() {
    let (mut env, _, _) = setup_test_without_auths();
    let owner = addr(1);
    let token = addr(2);
    let reviewers: Vec<Address> = Vec::new();

    let res = StellarGrantsContract::grant_create(
        &mut env,
        owner,
        "New Grant".into(),
        "Some desc".into(),
        token,
        1000i128,
        500i128,
        2u32,
        reviewers,
    );
    assert!(res.is_err());
    assert_eq!(env.storage.get_grant_counter(), 0);
}
