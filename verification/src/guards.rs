//! Range checks for the entry points whose unchecked arithmetic would abort the call.
//!
//! Each check tells a caller, before the call, whether the entry point's arithmetic stays in range
//! on the current state; where it does not, the call aborts instead of returning.
use vstd::prelude::*;
use crate::contract::{byte_len, grant_terms_valid, StellarGrantsContract, MAX_FEEDBACK_LEN, MAX_MILESTONES};
use crate::env::Env;
use crate::funding::fits_i128;
use crate::keyed::KeyedList;
use crate::refund::{
    all_approved, cancel_sums_contributions, completion_in_range, paid_sum, remaining_balance,
    running_totals_fit, total_funded, total_paid,
};
use crate::storage::Storage;
use crate::types::{opt_text, Address, GrantFund, GrantStatus, Milestone, MilestoneState};
use crate::voting::{
    ballot_in_range, contains_address, grant_threshold, has_required_stake, lemma_weight_prefix,
    reject_error, rewards_in_range, tallied, total_weight, vote_error,
};

verus! {

/// Whether every running total of the amounts of `fs` is an `i128`.
pub fn running_totals_in_range(fs: &Vec<GrantFund>) -> (r: bool)
    ensures
        r == running_totals_fit(fs@),
{
    let n = fs.len();
    let mut total: i128 = 0;
    let mut i: usize = 0;
    proof {
        assert(fs@.take(0) =~= Seq::<GrantFund>::empty());
    }
    while i < n
        invariant
            n == fs@.len(),
            i <= n,
            total == total_funded(fs@.take(i as int)),
            forall|k: int| 0 <= k <= i ==> fits_i128(#[trigger] total_funded(fs@.take(k))),
        decreases n - i,
    {
        proof {
            assert(fs@.take(i + 1).drop_last() =~= fs@.take(i as int));
        }
        match total.checked_add(fs[i].amount) {
            Some(t) => {
                total = t;
            },
            None => {
                proof {
                    assert(!fits_i128(total_funded(fs@.take(i + 1))));
                }
                return false;
            },
        }
        i = i + 1;
    }
    proof {
        assert(fs@.take(n as int) =~= fs@);
        assert forall|k: int| 0 <= k <= fs@.len() implies fits_i128(#[trigger] total_funded(fs@.take(k))) by {}
    }
    true
}

/// The sum of the reputations of the listed voters, or `None` when it exceeds `u32::MAX`.
fn checked_weight(storage: &Storage, reviewers: &Vec<Address>) -> (r: Option<u32>)
    ensures
        match r {
            Some(w) => w == total_weight(storage@, reviewers@),
            None => total_weight(storage@, reviewers@) > u32::MAX,
        },
{
    let n = reviewers.len();
    let mut total: u32 = 0;
    let mut i: usize = 0;
    while i < n
        invariant
            n == reviewers@.len(),
            i <= n,
            total == total_weight(storage@, reviewers@.take(i as int)),
        decreases n - i,
    {
        proof {
            assert(reviewers@.take(i + 1).drop_last() =~= reviewers@.take(i as int));
        }
        let w = storage.get_reviewer_reputation(reviewers[i]);
        match total.checked_add(w) {
            Some(t) => {
                total = t;
            },
            None => {
                proof {
                    lemma_weight_prefix(storage@, reviewers@, i + 1);
                }
                return None;
            },
        }
        i = i + 1;
    }
    proof {
        assert(reviewers@.take(n as int) =~= reviewers@);
    }
    Some(total)
}

/// Whether every voter in `votes` on `side`, and `voter` when `extra` is `side`, can gain a point.
fn rewards_fit(storage: &Storage, votes: &KeyedList<Address, bool>, voter: Address, extra: bool, side: bool) -> (r: bool)
    ensures
        r == rewards_in_range(storage@, votes@.insert(voter, extra), side),
{
    let ghost t = votes@.insert(voter, extra);
    if extra == side && storage.get_reviewer_reputation(voter) == u32::MAX {
        return false;
    }
    let keys = votes.keys();
    let n = keys.len();
    let mut i: usize = 0;
    while i < n
        invariant
            n == keys@.len(),
            i <= n,
            forall|j: int| 0 <= j < keys@.len() ==> votes@.contains_key(#[trigger] keys@[j]@),
            forall|a: Address| votes@.contains_key(a) ==> exists|j: int| 0 <= j < keys@.len() && #[trigger] keys@[j]@ == a,
            extra == side ==> storage@.reputation_of(voter) < u32::MAX,
            t == votes@.insert(voter, extra),
            forall|j: int| 0 <= j < i && keys@[j] != voter && votes@[keys@[j]] == side ==> #[trigger] storage@.reputation_of(keys@[j]) < u32::MAX,
        decreases n - i,
    {
        let a = keys[i];
        proof {
            assert(keys@[i as int]@ == a);
        }
        let vote = match votes.get(&a) {
            Some(b) => *b,
            None => !side,
        };
        if vote == side && !a.same(&voter) && storage.get_reviewer_reputation(a) == u32::MAX {
            proof {
                assert(votes@.contains_key(a));
                assert(votes@[a] == side);
                assert(a != voter);
                assert(t[a] == votes@[a]);
                assert(t.contains_key(a) && t[a] == side);
                assert(storage@.reputation_of(a) == u32::MAX);
            }
            return false;
        }
        i = i + 1;
    }
    proof {
        assert forall|a: Address| t.contains_key(a) && t[a] == side implies #[trigger] storage@.reputation_of(a) < u32::MAX by {
            if a != voter {
                let j = choose|j: int| 0 <= j < keys@.len() && #[trigger] keys@[j]@ == a;
                assert(keys@[j]@ == keys@[j]);
            }
        }
    }
    true
}

/// Whether counting a ballot stays in range, for a ballot that passes the shared checks.
fn ballot_arith_fits(
    storage: &Storage,
    reviewers: &Vec<Address>,
    milestone: &Milestone,
    grant_id: u64,
    milestone_idx: u32,
    reviewer: Address,
    approve: bool,
    reason: Ghost<Option<Seq<u8>>>,
    decide_on_approvals: bool,
) -> (r: bool)
    requires
        storage@.grants.contains_key(grant_id),
        storage@.milestones.contains_key((grant_id, milestone_idx)),
        reviewers@ == storage@.grants[grant_id].reviewers,
        milestone@ == storage@.milestones[(grant_id, milestone_idx)],
    ensures
        r == ballot_in_range(storage@, grant_id, milestone_idx, reviewer, approve, reason@, decide_on_approvals),
{
    let ghost s = storage@;
    let ghost t = tallied(s, grant_id, milestone_idx, reviewer, approve, reason@);
    let w = storage.get_reviewer_reputation(reviewer);
    let approvals = if approve {
        match milestone.approvals.checked_add(w) {
            Some(a) => a,
            None => {
                return false;
            },
        }
    } else {
        milestone.approvals
    };
    let rejections = if approve {
        milestone.rejections
    } else {
        match milestone.rejections.checked_add(w) {
            Some(a) => a,
            None => {
                return false;
            },
        }
    };
    let total = match checked_weight(storage, reviewers) {
        Some(t) => t,
        None => {
            return false;
        },
    };
    let threshold = total / 2 + 1;
    let tally = if decide_on_approvals { approvals } else { rejections };
    proof {
        assert(tally == if decide_on_approvals { t.approvals } else { t.rejections });
        assert(threshold == grant_threshold(s, grant_id));
    }
    if tally >= threshold {
        rewards_fit(storage, &milestone.votes, reviewer, approve, decide_on_approvals)
    } else {
        true
    }
}

impl StellarGrantsContract {
    /// Whether [`Self::grant_create`] can hand out a new id; when it cannot, a call with valid
    /// terms aborts.
    pub fn create_fits(env: &Env, total_amount: i128, milestone_amount: i128, num_milestones: u32) -> (r: bool)
        ensures
            r == (grant_terms_valid(total_amount, milestone_amount, num_milestones) ==> env@.storage.counter()
                < u64::MAX),
    {
        let valid = total_amount > 0 && milestone_amount > 0 && num_milestones >= 1 && num_milestones
            <= MAX_MILESTONES && match milestone_amount.checked_mul(num_milestones as i128) {
            Some(required) => required <= total_amount,
            None => false,
        };
        !valid || env.storage.get_grant_counter() < u64::MAX
    }

    /// Whether [`Self::grant_cancel`] adds up the contributions in range; when it would not, the call
    /// aborts.
    pub fn cancel_fits(env: &Env, grant_id: u64, owner: Address) -> (r: bool)
        ensures
            r == (cancel_sums_contributions(env@.storage, grant_id, owner) ==> running_totals_fit(
                env@.storage.grants[grant_id].funders,
            )),
    {
        match env.storage.grants.get(&grant_id) {
            Some(g) => {
                if g.owner.same(&owner) && g.status == GrantStatus::Active && g.milestones_paid_out < g.total_milestones
                    && g.escrow_balance > 0 {
                    running_totals_in_range(&g.funders)
                } else {
                    true
                }
            },
            None => true,
        }
    }

    /// Whether [`Self::grant_complete`] keeps its unchecked arithmetic in range on an active grant;
    /// when it would not, the call aborts.
    pub fn complete_fits(env: &Env, grant_id: u64) -> (r: bool)
        ensures
            r == (env@.storage.grants.contains_key(grant_id) && env@.storage.grants[grant_id].status
                == GrantStatus::Active ==> completion_in_range(env@.storage, grant_id)),
    {
        let ghost s = env@.storage;
        let g = match env.storage.grants.get(&grant_id) {
            Some(g) => g,
            None => {
                return true;
            },
        };
        if g.status != GrantStatus::Active {
            return true;
        }
        let n = g.total_milestones;
        let mut paid: i128 = 0;
        let mut idx: u32 = 0;
        while idx < n
            invariant
                s == env@.storage,
                s.grants.contains_key(grant_id),
                g@ == s.grants[grant_id],
                s.grants[grant_id].status == GrantStatus::Active,
                n == g.total_milestones,
                idx <= n,
                all_approved(s, grant_id, idx as int),
                paid == paid_sum(s, grant_id, idx as int),
                forall|k: int| 0 <= k <= idx && all_approved(s, grant_id, k) ==> fits_i128(#[trigger] paid_sum(s, grant_id, k)),
            decreases n - idx,
        {
            let approved = match env.storage.milestones.get(&(grant_id, idx)) {
                Some(m) => m.state == MilestoneState::Approved,
                None => false,
            };
            if !approved {
                proof {
                    assert forall|k: int| idx < k implies !#[trigger] all_approved(s, grant_id, k) by {
                        if all_approved(s, grant_id, k) {
                            assert(s.milestones.contains_key((grant_id, idx)));
                        }
                    }
                }
                return true;
            }
            let m = match env.storage.milestones.get(&(grant_id, idx)) {
                Some(m) => m,
                None => {
                    return true;
                },
            };
            proof {
                assert(all_approved(s, grant_id, idx + 1)) by {
                    assert forall|j: u32| j < idx + 1 implies #[trigger] s.milestones.contains_key((grant_id, j))
                        && s.milestones[(grant_id, j)].state == MilestoneState::Approved by {
                        if j < idx {
                            assert(s.milestones.contains_key((grant_id, j)));
                        }
                    }
                }
                assert((idx + 1 - 1) as u32 == idx);
            }
            proof {
                assert(paid_sum(s, grant_id, idx + 1) == paid + m.amount);
            }
            match paid.checked_add(m.amount) {
                Some(p) => {
                    paid = p;
                },
                None => {
                    proof {
                        assert(!fits_i128(paid_sum(s, grant_id, idx + 1)));
                    }
                    return false;
                },
            }
            idx = idx + 1;
        }
        proof {
            assert(paid == total_paid(s, grant_id));
            assert(all_approved(s, grant_id, n as int));
        }
        let remaining = match g.escrow_balance.checked_sub(paid) {
            Some(rem) => rem,
            None => {
                proof {
                    assert(!fits_i128(remaining_balance(s, grant_id)));
                }
                return false;
            },
        };
        proof {
            assert(remaining == remaining_balance(s, grant_id));
        }
        if remaining > 0 {
            running_totals_in_range(&g.funders)
        } else {
            true
        }
    }

    /// Whether [`Self::milestone_vote`] keeps its unchecked arithmetic in range; when it would not,
    /// the call aborts.
    pub fn vote_fits(
        env: &Env,
        grant_id: u64,
        milestone_idx: u32,
        reviewer: Address,
        approve: bool,
        feedback: &Option<Vec<u8>>,
    ) -> (r: bool)
        ensures
            r == (vote_error(env@.storage, grant_id, milestone_idx, reviewer, opt_text(*feedback)) is None
                ==> ballot_in_range(env@.storage, grant_id, milestone_idx, reviewer, approve, opt_text(*feedback), true)),
    {
        let g = match env.storage.grants.get(&grant_id) {
            Some(g) => g,
            None => {
                return true;
            },
        };
        let m = match env.storage.milestones.get(&(grant_id, milestone_idx)) {
            Some(m) => m,
            None => {
                return true;
            },
        };
        if m.state != MilestoneState::Submitted || !contains_address(&g.reviewers, &reviewer) || g.owner.same(&reviewer)
            || m.votes.contains_key(&reviewer) || !has_required_stake(&env.storage, grant_id, &reviewer) {
            return true;
        }
        if let Some(text) = feedback {
            if byte_len(text) > MAX_FEEDBACK_LEN {
                return true;
            }
        }
        ballot_arith_fits(
            &env.storage,
            &g.reviewers,
            m,
            grant_id,
            milestone_idx,
            reviewer,
            approve,
            Ghost(opt_text(*feedback)),
            true,
        )
    }

    /// Whether [`Self::milestone_reject`] keeps its unchecked arithmetic in range; when it would not,
    /// the call aborts.
    pub fn reject_fits(env: &Env, grant_id: u64, milestone_idx: u32, reviewer: Address, reason: &Vec<u8>) -> (r:
        bool)
        ensures
            r == (reject_error(env@.storage, grant_id, milestone_idx, reviewer, reason@) is None
                ==> ballot_in_range(env@.storage, grant_id, milestone_idx, reviewer, false, Some(reason@), false)),
    {
        if byte_len(reason) > MAX_FEEDBACK_LEN {
            return true;
        }
        let g = match env.storage.grants.get(&grant_id) {
            Some(g) => g,
            None => {
                return true;
            },
        };
        let m = match env.storage.milestones.get(&(grant_id, milestone_idx)) {
            Some(m) => m,
            None => {
                return true;
            },
        };
        if m.state != MilestoneState::Submitted || !contains_address(&g.reviewers, &reviewer) || g.owner.same(&reviewer)
            || m.votes.contains_key(&reviewer) || !has_required_stake(&env.storage, grant_id, &reviewer) {
            return true;
        }
        ballot_arith_fits(
            &env.storage,
            &g.reviewers,
            m,
            grant_id,
            milestone_idx,
            reviewer,
            false,
            Ghost(Some(reason@)),
            false,
        )
    }
}

} // verus!
