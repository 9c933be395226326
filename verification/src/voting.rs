//! Milestone review: reputation-weighted votes, quorum, and rewards for voters who agreed.
use vstd::prelude::*;
use crate::contract::{byte_len, text_len, StellarGrantsContract, MAX_FEEDBACK_LEN};
use crate::env::{authorizes, env_after, Env};
use crate::events::{voted_event, ContractEvent};
use crate::keyed::KeyedList;
use crate::storage::{Storage, StorageView};
use crate::types::{copy_vec, opt_text, Address, ContractError, MilestoneState, MilestoneView};

verus! {

/// The total reputation of a list of voters, each counted as often as it is listed.
pub open spec fn total_weight(s: StorageView, reviewers: Seq<Address>) -> int
    decreases reviewers.len(),
{
    if reviewers.len() == 0 {
        0
    } else {
        total_weight(s, reviewers.drop_last()) + s.reputation_of(reviewers.last())
    }
}

/// The weight a side must reach to decide: a strict majority of the total weight.
pub open spec fn quorum_threshold(total: int) -> int {
    total / 2 + 1
}

/// The reputations after every voter who voted `side` gains one point.
pub open spec fn rewarded(reps: Map<Address, u32>, votes: Map<Address, bool>, side: bool) -> Map<Address, u32> {
    Map::new(
        |a: Address| reps.contains_key(a) || (votes.contains_key(a) && votes[a] == side),
        |a: Address|
            if votes.contains_key(a) && votes[a] == side {
                ((if reps.contains_key(a) { reps[a] as int } else { 1 }) + 1) as u32
            } else {
                reps[a]
            },
    )
}

/// Whether every voter who voted `side` can gain a point without overflow.
pub open spec fn rewards_in_range(s: StorageView, votes: Map<Address, bool>, side: bool) -> bool {
    forall|a: Address| votes.contains_key(a) && votes[a] == side ==> #[trigger] s.reputation_of(a) < u32::MAX
}

/// A milestone with one more vote recorded: the vote, the reason if any, and the weight on its side.
pub open spec fn cast_vote(m: MilestoneView, reviewer: Address, approve: bool, reason: Option<Seq<u8>>, weight: u32) -> MilestoneView {
    MilestoneView {
        votes: m.votes.insert(reviewer, approve),
        reasons: match reason {
            Some(t) => m.reasons.insert(reviewer, t),
            None => m.reasons,
        },
        approvals: if approve { (m.approvals + weight) as u32 } else { m.approvals },
        rejections: if approve { m.rejections } else { (m.rejections + weight) as u32 },
        ..m
    }
}

/// A milestone moved to a decided state at time `timestamp`.
pub open spec fn settled(m: MilestoneView, state: MilestoneState, timestamp: u64) -> MilestoneView {
    MilestoneView { state, status_updated_at: timestamp, ..m }
}

/// The checks shared by voting and rejecting: the grant and a submitted milestone exist, the voter
/// is one of the grant's voters but not its owner, has not voted on the milestone yet, and, when
/// staking is configured, holds at least the minimum stake on the grant.
pub open spec fn ballot_error(s: StorageView, grant_id: u64, milestone_idx: u32, reviewer: Address) -> Option<ContractError> {
    if !s.grants.contains_key(grant_id) {
        Some(ContractError::GrantNotFound)
    } else if !s.milestones.contains_key((grant_id, milestone_idx)) {
        Some(ContractError::MilestoneNotSubmitted)
    } else if s.milestones[(grant_id, milestone_idx)].state != MilestoneState::Submitted {
        Some(ContractError::MilestoneNotSubmitted)
    } else if !s.grants[grant_id].reviewers.contains(reviewer) {
        Some(ContractError::Unauthorized)
    } else if s.grants[grant_id].owner == reviewer {
        Some(ContractError::Unauthorized)
    } else if s.milestones[(grant_id, milestone_idx)].votes.contains_key(reviewer) {
        Some(ContractError::AlreadyVoted)
    } else if !stake_qualifies(s, grant_id, reviewer) {
        Some(ContractError::InsufficientStake)
    } else {
        None
    }
}

/// Whether a voter's stake on a grant meets the minimum stake, if one is configured.
pub open spec fn stake_qualifies(s: StorageView, grant_id: u64, reviewer: Address) -> bool {
    s.min_reviewer_stake is Some ==> s.stake_of(grant_id, reviewer) >= s.min_stake()
}

/// Whether a voter's stake on a grant meets the minimum stake, if one is configured.
pub(crate) fn has_required_stake(storage: &Storage, grant_id: u64, reviewer: &Address) -> (r: bool)
    ensures
        r == stake_qualifies(storage@, grant_id, *reviewer),
{
    match storage.min_reviewer_stake {
        Some(m) => storage.get_reviewer_stake(grant_id, reviewer) >= m,
        None => true,
    }
}

/// The error `milestone_vote` returns, if any.
pub open spec fn vote_error(
    s: StorageView,
    grant_id: u64,
    milestone_idx: u32,
    reviewer: Address,
    feedback: Option<Seq<u8>>,
) -> Option<ContractError> {
    match ballot_error(s, grant_id, milestone_idx, reviewer) {
        Some(e) => Some(e),
        None => match feedback {
            Some(t) => if text_len(t) > MAX_FEEDBACK_LEN {
                Some(ContractError::InvalidInput)
            } else {
                None
            },
            None => None,
        },
    }
}

/// The error `milestone_reject` returns, if any.
pub open spec fn reject_error(
    s: StorageView,
    grant_id: u64,
    milestone_idx: u32,
    reviewer: Address,
    reason: Seq<u8>,
) -> Option<ContractError> {
    if text_len(reason) > MAX_FEEDBACK_LEN {
        Some(ContractError::InvalidInput)
    } else {
        ballot_error(s, grant_id, milestone_idx, reviewer)
    }
}

/// The milestone once the voter's ballot is counted, before any decision.
pub open spec fn tallied(
    s: StorageView,
    grant_id: u64,
    milestone_idx: u32,
    reviewer: Address,
    approve: bool,
    reason: Option<Seq<u8>>,
) -> MilestoneView {
    cast_vote(s.milestones[(grant_id, milestone_idx)], reviewer, approve, reason, s.reputation_of(reviewer))
}

/// The quorum threshold of a grant's review.
pub open spec fn grant_threshold(s: StorageView, grant_id: u64) -> int {
    quorum_threshold(total_weight(s, s.grants[grant_id].reviewers))
}

/// Whether the arithmetic of counting a ballot stays in range: the side's tally, the total weight,
/// and, once the side decides, the rewards of the voters on it.
pub open spec fn ballot_in_range(
    s: StorageView,
    grant_id: u64,
    milestone_idx: u32,
    reviewer: Address,
    approve: bool,
    reason: Option<Seq<u8>>,
    decide_on_approvals: bool,
) -> bool {
    let m = s.milestones[(grant_id, milestone_idx)];
    let w = s.reputation_of(reviewer);
    let t = tallied(s, grant_id, milestone_idx, reviewer, approve, reason);
    let tally = if decide_on_approvals { t.approvals } else { t.rejections };
    &&& (approve ==> m.approvals + w <= u32::MAX)
    &&& (!approve ==> m.rejections + w <= u32::MAX)
    &&& total_weight(s, s.grants[grant_id].reviewers) <= u32::MAX
    &&& (tally >= grant_threshold(s, grant_id) ==> rewards_in_range(s, t.votes, decide_on_approvals))
}

/// The storage after a ballot is counted and, when `decided`, the milestone settles in `state`
/// and the voters on the deciding side gain a point of reputation.
pub open spec fn after_ballot(
    s: StorageView,
    grant_id: u64,
    milestone_idx: u32,
    t: MilestoneView,
    decided: bool,
    side: bool,
    state: MilestoneState,
    timestamp: u64,
) -> StorageView {
    StorageView {
        milestones: s.milestones.insert(
            (grant_id, milestone_idx),
            if decided { settled(t, state, timestamp) } else { t },
        ),
        reviewer_reputations: if decided {
            rewarded(s.reviewer_reputations, t.votes, side)
        } else {
            s.reviewer_reputations
        },
        ..s
    }
}

/// Lower prefixes of a voter list weigh no more than the whole list.
pub proof fn lemma_weight_prefix(s: StorageView, rs: Seq<Address>, k: int)
    requires
        0 <= k <= rs.len(),
    ensures
        0 <= total_weight(s, rs.take(k)) <= total_weight(s, rs),
    decreases rs.len(),
{
    if k < rs.len() {
        assert(rs.drop_last().take(k) =~= rs.take(k));
        lemma_weight_prefix(s, rs.drop_last(), k);
    } else {
        assert(rs.take(k) =~= rs);
        lemma_weight_nonneg(s, rs);
    }
}

/// A list of voters never weighs less than nothing.
pub proof fn lemma_weight_nonneg(s: StorageView, rs: Seq<Address>)
    ensures
        total_weight(s, rs) >= 0,
    decreases rs.len(),
{
    if rs.len() > 0 {
        lemma_weight_nonneg(s, rs.drop_last());
    }
}

/// Whether `a` is listed in `v`.
pub fn contains_address(v: &Vec<Address>, a: &Address) -> (r: bool)
    ensures
        r == v@.contains(*a),
{
    let n = v.len();
    let mut i: usize = 0;
    while i < n
        invariant
            n == v@.len(),
            i <= n,
            forall|j: int| 0 <= j < i ==> v@[j] != *a,
        decreases n - i,
    {
        if v[i].same(a) {
            assert(v@[i as int] == *a);
            return true;
        }
        i = i + 1;
    }
    false
}

/// The total reputation of the listed voters.
fn reviewers_weight(storage: &Storage, reviewers: &Vec<Address>) -> (r: u32)
    requires
        total_weight(storage@, reviewers@) <= u32::MAX,
    ensures
        r == total_weight(storage@, reviewers@),
{
    let n = reviewers.len();
    let mut total: u32 = 0;
    let mut i: usize = 0;
    while i < n
        invariant
            n == reviewers@.len(),
            i <= n,
            total_weight(storage@, reviewers@) <= u32::MAX,
            total == total_weight(storage@, reviewers@.take(i as int)),
        decreases n - i,
    {
        proof {
            assert(reviewers@.take(i + 1).drop_last() =~= reviewers@.take(i as int));
            lemma_weight_prefix(storage@, reviewers@, i + 1);
        }
        let w = storage.get_reviewer_reputation(reviewers[i]);
        total = total + w;
        i = i + 1;
    }
    proof {
        assert(reviewers@.take(n as int) =~= reviewers@);
    }
    total
}

/// The reputations after the voters among `keys` who voted `side` gain a point.
pub open spec fn rewarded_among(
    reps: Map<Address, u32>,
    votes: Map<Address, bool>,
    side: bool,
    keys: Seq<Address>,
) -> Map<Address, u32> {
    Map::new(
        |a: Address| reps.contains_key(a) || (keys.contains(a) && votes.contains_key(a) && votes[a] == side),
        |a: Address|
            if keys.contains(a) && votes.contains_key(a) && votes[a] == side {
                ((if reps.contains_key(a) { reps[a] as int } else { 1 }) + 1) as u32
            } else {
                reps[a]
            },
    )
}

/// Every voter who voted `side` gains a point of reputation.
fn reward_voters(storage: &mut Storage, votes: &KeyedList<Address, bool>, side: bool)
    requires
        rewards_in_range(old(storage)@, votes@, side),
    ensures
        final(storage)@ == (StorageView {
            reviewer_reputations: rewarded(old(storage)@.reviewer_reputations, votes@, side),
            ..old(storage)@
        }),
{
    let ghost s0 = storage@;
    let keys = votes.keys();
    proof {
        assert forall|j: int| 0 <= j < keys@.len() implies votes@.contains_key(#[trigger] keys@[j]) by {
            assert(keys@[j]@ == keys@[j]);
        }
        assert forall|a: Address| votes@.contains_key(a) implies keys@.contains(a) by {
            let j = choose|j: int| 0 <= j < keys@.len() && #[trigger] keys@[j]@ == a;
            assert(keys@[j]@ == keys@[j]);
        }
        assert forall|j: int, k: int|
            #![trigger keys@[j], keys@[k]]
            0 <= j < keys@.len() && 0 <= k < keys@.len() && j != k implies keys@[j] != keys@[k] by {
            assert(keys@[j]@ == keys@[j] && keys@[k]@ == keys@[k]);
        }
        assert(keys@.take(0) =~= Seq::<Address>::empty());
        assert(rewarded_among(s0.reviewer_reputations, votes@, side, keys@.take(0)) =~= s0.reviewer_reputations);
    }
    let n = keys.len();
    let mut i: usize = 0;
    while i < n
        invariant
            n == keys@.len(),
            i <= n,
            rewards_in_range(s0, votes@, side),
            forall|j: int| 0 <= j < keys@.len() ==> votes@.contains_key(#[trigger] keys@[j]),
            forall|a: Address| votes@.contains_key(a) ==> keys@.contains(a),
            forall|j: int, k: int| #![trigger keys@[j], keys@[k]] 0 <= j < keys@.len() && 0 <= k < keys@.len() && j != k ==> keys@[j] != keys@[k],
            storage@ == (StorageView {
                reviewer_reputations: rewarded_among(s0.reviewer_reputations, votes@, side, keys@.take(i as int)),
                ..s0
            }),
        decreases n - i,
    {
        let voter = keys[i];
        proof {
            assert(votes@.contains_key(keys@[i as int]));
            assert(!keys@.take(i as int).contains(voter)) by {
                if keys@.take(i as int).contains(voter) {
                    let j = choose|j: int| 0 <= j < i && #[trigger] keys@.take(i as int)[j] == voter;
                    assert(keys@[j] == keys@[i as int]);
                }
            }
            assert(keys@.take(i + 1) =~= keys@.take(i as int).push(voter));
        }
        let vote = match votes.get(&voter) {
            Some(b) => *b,
            None => side,
        };
        if vote == side {
            let rep = storage.get_reviewer_reputation(voter);
            proof {
                assert(s0.reputation_of(voter) < u32::MAX);
            }
            storage.set_reviewer_reputation(voter, rep + 1);
        }
        proof {
            let before = rewarded_among(s0.reviewer_reputations, votes@, side, keys@.take(i as int));
            let after = rewarded_among(s0.reviewer_reputations, votes@, side, keys@.take(i + 1));
            if vote == side {
                assert(votes@[voter] == side);
                assert(before.contains_key(voter) == s0.reviewer_reputations.contains_key(voter));
                assert forall|a: Address| a != voter implies (after.contains_key(a) == before.contains_key(a)) && (
                    after.contains_key(a) ==> after[a] == before[a]) by {
                    assert(keys@.take(i + 1).contains(a) == keys@.take(i as int).contains(a)) by {
                        if keys@.take(i + 1).contains(a) {
                            let j = choose|j: int| 0 <= j < i + 1 && #[trigger] keys@.take(i + 1)[j] == a;
                            assert(keys@.take(i as int)[j] == a);
                        }
                    }
                }
                assert(keys@.take(i + 1)[i as int] == voter);
                assert(keys@.take(i + 1).contains(voter));
                assert(after.contains_key(voter));
                assert(storage@.reviewer_reputations =~= after);
            } else {
                assert(before =~= after);
            }
        }
        i = i + 1;
    }
    proof {
        assert(keys@.take(n as int) =~= keys@);
        assert(rewarded_among(s0.reviewer_reputations, votes@, side, keys@) =~= rewarded(
            s0.reviewer_reputations,
            votes@,
            side,
        ));
    }
}

impl StellarGrantsContract {
    /// A voter of the grant votes on a submitted milestone, with optional feedback of at most
    /// [`MAX_FEEDBACK_LEN`] bytes. The vote weighs the voter's reputation. Returns whether the
    /// approvals now reach a strict majority of the voters' total weight; then the milestone is
    /// approved and every voter who voted to approve gains a point of reputation.
    pub fn milestone_vote(
        env: &mut Env,
        grant_id: u64,
        milestone_idx: u32,
        reviewer: Address,
        approve: bool,
        feedback: Option<Vec<u8>>,
    ) -> (r: Result<bool, ContractError>)
        requires
            authorizes(old(env)@, reviewer),
            vote_error(old(env)@.storage, grant_id, milestone_idx, reviewer, opt_text(feedback))
                is None ==> ballot_in_range(old(env)@.storage, grant_id, milestone_idx, reviewer, approve, opt_text(feedback), true),
        ensures
            ({
                let s = old(env)@.storage;
                let t = tallied(s, grant_id, milestone_idx, reviewer, approve, opt_text(feedback));
                let quorum = t.approvals >= grant_threshold(s, grant_id);
                let voted = voted_event(grant_id, milestone_idx, reviewer, approve, old(env)@.ledger_timestamp);
                match vote_error(s, grant_id, milestone_idx, reviewer, opt_text(feedback)) {
                    Some(e) => r == Err::<bool, ContractError>(e) && final(env)@ == old(env)@,
                    None => r == Ok::<bool, ContractError>(quorum) && final(env)@ == env_after(
                        old(env)@,
                        after_ballot(s, grant_id, milestone_idx, t, quorum, true, MilestoneState::Approved, old(env)@.ledger_timestamp),
                        Seq::empty(),
                        if quorum {
                            seq![
                                ContractEvent::MilestoneStatusChanged { grant_id, milestone_idx, state: MilestoneState::Approved },
                                voted,
                            ]
                        } else {
                            seq![voted]
                        },
                    ),
                }
            }),
    {
        if !env.is_authorized(&reviewer) {
            return Err(ContractError::Unauthorized);
        }
        let grant = match env.storage.get_grant(grant_id) {
            Some(g) => g,
            None => {
                return Err(ContractError::GrantNotFound);
            },
        };
        let mut milestone = match env.storage.get_milestone(grant_id, milestone_idx) {
            Some(m) => m,
            None => {
                return Err(ContractError::MilestoneNotSubmitted);
            },
        };
        if milestone.state != MilestoneState::Submitted {
            return Err(ContractError::MilestoneNotSubmitted);
        }
        if !contains_address(&grant.reviewers, &reviewer) {
            return Err(ContractError::Unauthorized);
        }
        if grant.owner.same(&reviewer) {
            return Err(ContractError::Unauthorized);
        }
        if milestone.votes.contains_key(&reviewer) {
            return Err(ContractError::AlreadyVoted);
        }
        if !has_required_stake(&env.storage, grant_id, &reviewer) {
            return Err(ContractError::InsufficientStake);
        }
        let ghost fb = opt_text(feedback);
        if let Some(text) = &feedback {
            if byte_len(text) > MAX_FEEDBACK_LEN {
                return Err(ContractError::InvalidInput);
            }
        }
        let ghost s = env@.storage;
        let ghost e0 = env@;
        let ghost m0 = milestone@;
        match feedback {
            Some(text) => {
                milestone.reasons.set(reviewer, text);
            },
            None => {},
        }
        let reputation = env.storage.get_reviewer_reputation(reviewer);
        milestone.votes.set(reviewer, approve);
        if approve {
            milestone.approvals = milestone.approvals + reputation;
        } else {
            milestone.rejections = milestone.rejections + reputation;
        }
        proof {
            assert(milestone@ =~= tallied(s, grant_id, milestone_idx, reviewer, approve, fb));
        }
        let total_weight = reviewers_weight(&env.storage, &grant.reviewers);
        let quorum_threshold = total_weight / 2 + 1;
        let quorum_reached = milestone.approvals >= quorum_threshold;
        if quorum_reached {
            milestone.state = MilestoneState::Approved;
            milestone.status_updated_at = env.ledger_timestamp;
            reward_voters(&mut env.storage, &milestone.votes, true);
            env.events.push(
                ContractEvent::MilestoneStatusChanged { grant_id, milestone_idx, state: MilestoneState::Approved },
            );
        }
        env.storage.set_milestone(grant_id, milestone_idx, &milestone);
        crate::events::milestone_voted(env, grant_id, milestone_idx, reviewer, approve);
        proof {
            let t = tallied(s, grant_id, milestone_idx, reviewer, approve, fb);
            assert(env@.storage =~= after_ballot(s, grant_id, milestone_idx, t, quorum_reached, true, MilestoneState::Approved, e0.ledger_timestamp));
            let voted = voted_event(grant_id, milestone_idx, reviewer, approve, e0.ledger_timestamp);
            if quorum_reached {
                assert(env@.events =~= e0.events + seq![
                    ContractEvent::MilestoneStatusChanged { grant_id, milestone_idx, state: MilestoneState::Approved },
                    voted,
                ]);
            } else {
                assert(env@.events =~= e0.events + seq![voted]);
            }
            assert(env@.transfers =~= e0.transfers + Seq::empty());
        }
        Ok(quorum_reached)
    }

    /// A voter of the grant rejects a submitted milestone with a reason of at most
    /// [`MAX_FEEDBACK_LEN`] bytes. The rejection weighs the voter's reputation. Returns whether
    /// the rejections now reach a strict majority of the voters' total weight; then the
    /// milestone is rejected and every voter who voted against gains a point of reputation.
    pub fn milestone_reject(
        env: &mut Env,
        grant_id: u64,
        milestone_idx: u32,
        reviewer: Address,
        reason: Vec<u8>,
    ) -> (r: Result<bool, ContractError>)
        requires
            authorizes(old(env)@, reviewer),
            reject_error(old(env)@.storage, grant_id, milestone_idx, reviewer, reason@)
                is None ==> ballot_in_range(old(env)@.storage, grant_id, milestone_idx, reviewer, false, Some(reason@), false),
        ensures
            ({
                let s = old(env)@.storage;
                let t = tallied(s, grant_id, milestone_idx, reviewer, false, Some(reason@));
                let majority = t.rejections >= grant_threshold(s, grant_id);
                let rejected = ContractEvent::MilestoneRejected { grant_id, milestone_idx, reviewer, reason };
                match reject_error(s, grant_id, milestone_idx, reviewer, reason@) {
                    Some(e) => r == Err::<bool, ContractError>(e) && final(env)@ == old(env)@,
                    None => r == Ok::<bool, ContractError>(majority) && final(env)@ == env_after(
                        old(env)@,
                        after_ballot(s, grant_id, milestone_idx, t, majority, false, MilestoneState::Rejected, old(env)@.ledger_timestamp),
                        Seq::empty(),
                        if majority {
                            seq![
                                ContractEvent::MilestoneStatusChanged { grant_id, milestone_idx, state: MilestoneState::Rejected },
                                rejected,
                            ]
                        } else {
                            seq![rejected]
                        },
                    ),
                }
            }),
    {
        if !env.is_authorized(&reviewer) {
            return Err(ContractError::Unauthorized);
        }
        if byte_len(&reason) > MAX_FEEDBACK_LEN {
            return Err(ContractError::InvalidInput);
        }
        let grant = match env.storage.get_grant(grant_id) {
            Some(g) => g,
            None => {
                return Err(ContractError::GrantNotFound);
            },
        };
        let mut milestone = match env.storage.get_milestone(grant_id, milestone_idx) {
            Some(m) => m,
            None => {
                return Err(ContractError::MilestoneNotSubmitted);
            },
        };
        if milestone.state != MilestoneState::Submitted {
            return Err(ContractError::MilestoneNotSubmitted);
        }
        if !contains_address(&grant.reviewers, &reviewer) {
            return Err(ContractError::Unauthorized);
        }
        if grant.owner.same(&reviewer) {
            return Err(ContractError::Unauthorized);
        }
        if milestone.votes.contains_key(&reviewer) {
            return Err(ContractError::AlreadyVoted);
        }
        if !has_required_stake(&env.storage, grant_id, &reviewer) {
            return Err(ContractError::InsufficientStake);
        }
        let ghost s = env@.storage;
        let ghost e0 = env@;
        let reputation = env.storage.get_reviewer_reputation(reviewer);
        milestone.votes.set(reviewer, false);
        milestone.rejections = milestone.rejections + reputation;
        let ghost reason0 = reason;
        let stored_reason = copy_vec(&reason);
        milestone.reasons.set(reviewer, stored_reason);
        proof {
            assert(milestone@ =~= tallied(s, grant_id, milestone_idx, reviewer, false, Some(reason0@)));
        }
        let total_weight = reviewers_weight(&env.storage, &grant.reviewers);
        let majority_threshold = total_weight / 2 + 1;
        let majority_rejected = milestone.rejections >= majority_threshold;
        if majority_rejected {
            milestone.state = MilestoneState::Rejected;
            milestone.status_updated_at = env.ledger_timestamp;
            reward_voters(&mut env.storage, &milestone.votes, false);
            env.events.push(
                ContractEvent::MilestoneStatusChanged { grant_id, milestone_idx, state: MilestoneState::Rejected },
            );
        }
        env.storage.set_milestone(grant_id, milestone_idx, &milestone);
        env.events.push(
            ContractEvent::MilestoneRejected { grant_id, milestone_idx, reviewer, reason },
        );
        proof {
            let t = tallied(s, grant_id, milestone_idx, reviewer, false, Some(reason0@));
            assert(env@.storage =~= after_ballot(s, grant_id, milestone_idx, t, majority_rejected, false, MilestoneState::Rejected, e0.ledger_timestamp));
            let rejected = ContractEvent::MilestoneRejected { grant_id, milestone_idx, reviewer, reason: reason0 };
            if majority_rejected {
                assert(env@.events =~= e0.events + seq![
                    ContractEvent::MilestoneStatusChanged { grant_id, milestone_idx, state: MilestoneState::Rejected },
                    rejected,
                ]);
            } else {
                assert(env@.events =~= e0.events + seq![rejected]);
            }
            assert(env@.transfers =~= e0.transfers + Seq::empty());
        }
        Ok(majority_rejected)
    }
}

} // verus!
