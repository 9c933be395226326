//! Properties of the contract that span calls or hold of every input.
use vstd::prelude::*;
use crate::contract::{
    profile_text_valid, MAX_MILESTONES,
    admin_error, grant_terms_valid, new_grant, stake_error, submit_error, submitted_milestone, unstake_error, with_stake,
};
use crate::env::{EnvView, Transfer};
use crate::events::ContractEvent;
use crate::funding::{
    lemma_batch_stops, MAX_BATCH,
    add_to_first_entry, batch_funded_grant, batch_item_overflows, batch_run, BatchOutcome, batch_item_error, first_entry,
    first_entry_from, fits_i128, fund_error, funded_grant, merge_funder, merged_entry,
};
use crate::refund::{
    cancel_error, cancelled_grant, complete_error, completed_grant, paid_sum, payouts, refund_share,
    remaining_balance, total_funded, total_paid, trunc_div,
};
use crate::storage::StorageView;
use crate::types::{Address, ContractError, GrantFund, GrantStatus, GrantView, MilestoneState, MilestoneView};
use crate::voting::{
    after_ballot, ballot_error, grant_threshold, lemma_weight_nonneg, quorum_threshold, reject_error, rewarded,
    stake_qualifies, tallied, total_weight, vote_error,
};

verus! {

/// Whether every fund entry holds a nonnegative amount.
pub open spec fn amounts_nonnegative(fs: Seq<GrantFund>) -> bool {
    forall|i: int| 0 <= i < fs.len() ==> (#[trigger] fs[i]).amount >= 0
}

/// Whether no two fund entries belong to the same funder.
pub open spec fn funders_distinct(fs: Seq<GrantFund>) -> bool {
    forall|i: int, j: int|
        #![trigger fs[i], fs[j]]
        0 <= i < fs.len() && 0 <= j < fs.len() && i != j ==> fs[i].funder != fs[j].funder
}

proof fn lemma_share_bounds(a: int, r: int, t: int)
    requires
        a >= 0,
        r >= 0,
        t > 0,
    ensures
        t * trunc_div(a * r, t) <= a * r,
        a * r < t * trunc_div(a * r, t) + t,
        trunc_div(a * r, t) >= 0,
{
    assert(a * r >= 0) by (nonlinear_arith)
        requires
            a >= 0,
            r >= 0,
    ;
    let x = a * r;
    assert(t * (x / t) <= x && x < t * (x / t) + t && x / t >= 0) by (nonlinear_arith)
        requires
            x >= 0,
            t > 0,
    ;
}

/// Rounding refunds toward zero neither pays out more than the pro rata shares nor loses a whole
/// unit per funder: with contributions adding up to `s_total` and nonnegative amounts,
/// `total * paid <= remaining * s_total < total * paid + total * n` where `paid` is the sum of the
/// payouts and `n` the number of funders (the right inequality when there is a funder).
pub proof fn lemma_payouts_bounds(fs: Seq<GrantFund>, remaining: i128, total: i128)
    requires
        amounts_nonnegative(fs),
        remaining >= 0,
        total > 0,
        forall|i: int| 0 <= i < fs.len() ==> fits_i128((#[trigger] fs[i]).amount * remaining),
    ensures
        total * total_funded(payouts(fs, remaining, total)) <= remaining * total_funded(fs),
        fs.len() > 0 ==> remaining * total_funded(fs) < total * total_funded(payouts(fs, remaining, total))
            + total * fs.len(),
        total_funded(payouts(fs, remaining, total)) >= 0,
    decreases fs.len(),
{
    if fs.len() > 0 {
        let init = fs.drop_last();
        assert forall|i: int| 0 <= i < init.len() implies fits_i128((#[trigger] init[i]).amount * remaining) by {
            assert(init[i] == fs[i]);
        }
        assert forall|i: int| 0 <= i < init.len() implies (#[trigger] init[i]).amount >= 0 by {
            assert(init[i] == fs[i]);
        }
        lemma_payouts_bounds(init, remaining, total);
        let prev = payouts(init, remaining, total);
        let a = fs.last().amount as int;
        assert(fs.last() == fs[fs.len() - 1]);
        let share = refund_share(fs.last().amount, remaining, total);
        lemma_share_bounds(a, remaining as int, total as int);
        let p_prev = total_funded(prev);
        let s_prev = total_funded(init);
        let t = total as int;
        let r = remaining as int;
        let n = fs.len() as int;
        assert(share <= a * r) by (nonlinear_arith)
            requires
                t * share <= a * r,
                t >= 1,
                share >= 0,
        ;
        assert(fits_i128(a * r));
        let p_new = if share > 0 {
            assert(prev.push(GrantFund { funder: fs.last().funder, amount: share as i128 }).drop_last() =~= prev);
            p_prev + share
        } else {
            p_prev
        };
        assert(total_funded(payouts(fs, remaining, total)) == p_new);
        assert(total_funded(fs) == s_prev + a);
        assert(t * p_new <= r * (s_prev + a)) by (nonlinear_arith)
            requires
                t * p_prev <= r * s_prev,
                t * share <= a * r,
                p_new == p_prev + share || (p_new == p_prev && share == 0),
                share >= 0,
        ;
        if init.len() > 0 {
            assert(r * (s_prev + a) < t * p_new + t * n) by (nonlinear_arith)
                requires
                    r * s_prev < t * p_prev + t * (n - 1),
                    a * r < t * share + t,
                    p_new == p_prev + share || (p_new == p_prev && share == 0),
            ;
        } else {
            assert(p_prev == 0 && s_prev == 0);
            assert(r * (s_prev + a) < t * p_new + t * n) by (nonlinear_arith)
                requires
                    p_prev == 0,
                    s_prev == 0,
                    n == 1,
                    a * r < t * share + t,
                    p_new == p_prev + share || (p_new == p_prev && share == 0),
            ;
        }
    }
}

/// Proportional refunds never pay out more than the balance being refunded: when the amounts are
/// nonnegative and add up to `total`, the payouts add up to at most `remaining`, and to more than
/// `remaining` minus the number of funders.
pub proof fn lemma_refunds_within_balance(fs: Seq<GrantFund>, remaining: i128, total: i128)
    requires
        amounts_nonnegative(fs),
        remaining >= 0,
        total > 0,
        total_funded(fs) == total,
        forall|i: int| 0 <= i < fs.len() ==> fits_i128((#[trigger] fs[i]).amount * remaining),
    ensures
        0 <= total_funded(payouts(fs, remaining, total)) <= remaining,
        remaining - fs.len() < total_funded(payouts(fs, remaining, total)),
{
    lemma_payouts_bounds(fs, remaining, total);
    let p = total_funded(payouts(fs, remaining, total));
    let t = total as int;
    let r = remaining as int;
    assert(p <= r) by (nonlinear_arith)
        requires
            t * p <= r * t,
            t > 0,
    ;
    if fs.len() > 0 {
        let n = fs.len() as int;
        assert(r - n < p) by (nonlinear_arith)
            requires
                r * t < t * p + t * n,
                t > 0,
        ;
    }
}

/// A grant that has left the active state stays out of it: it can be neither cancelled nor
/// completed again, nor funded, staked on, or have milestones submitted.
pub proof fn lemma_finished_grant_is_final(
    s: StorageView,
    grant_id: u64,
    caller: Address,
    amount: i128,
    milestone_idx: u32,
)
    requires
        s.grants.contains_key(grant_id),
        s.grants[grant_id].status != GrantStatus::Active,
    ensures
        cancel_error(s, grant_id, caller) is Some,
        s.grants[grant_id].owner == caller ==> cancel_error(s, grant_id, caller) == Some(
            ContractError::InvalidState,
        ),
        complete_error(s, grant_id) == Some(ContractError::InvalidState),
        amount > 0 ==> fund_error(s, grant_id, caller, amount) == Some(ContractError::InvalidState),
        amount > 0 ==> batch_item_error(s, grant_id, caller, amount) == Some(ContractError::InvalidState),
        stake_error(s, grant_id, caller, amount) == Some(ContractError::InvalidState),
        submit_error(s, grant_id, milestone_idx, caller) == Some(ContractError::InvalidState),
{
}

/// A grant is settled at most once: after a successful cancellation or completion, neither a
/// second cancellation nor a completion goes through, so escrow is never refunded twice.
pub proof fn lemma_settled_once(g: GrantView, reason: Seq<u8>, timestamp: u64, s: StorageView, grant_id: u64, owner: Address)
    ensures
        ({
            let s1 = StorageView { grants: s.grants.insert(grant_id, cancelled_grant(g, reason, timestamp)), ..s };
            &&& cancel_error(s1, grant_id, owner) is Some
            &&& complete_error(s1, grant_id) == Some(ContractError::InvalidState)
        }),
        ({
            let s2 = StorageView { grants: s.grants.insert(grant_id, completed_grant(g, timestamp)), ..s };
            &&& cancel_error(s2, grant_id, owner) is Some
            &&& complete_error(s2, grant_id) == Some(ContractError::InvalidState)
        }),
{
    let s1 = StorageView { grants: s.grants.insert(grant_id, cancelled_grant(g, reason, timestamp)), ..s };
    lemma_finished_grant_is_final(s1, grant_id, owner, 0, 0);
    let s2 = StorageView { grants: s.grants.insert(grant_id, completed_grant(g, timestamp)), ..s };
    lemma_finished_grant_is_final(s2, grant_id, owner, 0, 0);
}

/// A voter casts at most one ballot per milestone: once a vote or rejection by the voter is
/// counted, any further ballot of theirs on that milestone is refused.
pub proof fn lemma_single_ballot(
    s: StorageView,
    grant_id: u64,
    milestone_idx: u32,
    reviewer: Address,
    approve: bool,
    reason: Option<Seq<u8>>,
    decided: bool,
    side: bool,
    state: MilestoneState,
    timestamp: u64,
)
    requires
        ballot_error(s, grant_id, milestone_idx, reviewer) is None,
        state != MilestoneState::Submitted,
    ensures
        ({
            let t = tallied(s, grant_id, milestone_idx, reviewer, approve, reason);
            let s1 = after_ballot(s, grant_id, milestone_idx, t, decided, side, state, timestamp);
            ballot_error(s1, grant_id, milestone_idx, reviewer) == Some(
                if decided { ContractError::MilestoneNotSubmitted } else { ContractError::AlreadyVoted },
            )
        }),
{
}

/// The quorum threshold asks for a strict majority: a tally reaches `total / 2 + 1` exactly when
/// it is more than half of `total`.
pub proof fn lemma_threshold_is_strict_majority(tally: int, total: int)
    requires
        total >= 0,
    ensures
        tally >= quorum_threshold(total) <==> 2 * tally > total,
{
}

/// Approvals and rejections cannot both reach the threshold while together they weigh no more
/// than the total.
pub proof fn lemma_one_side_decides(approvals: int, rejections: int, total: int)
    requires
        total >= 0,
        approvals >= 0,
        rejections >= 0,
        approvals + rejections <= total,
    ensures
        !(approvals >= quorum_threshold(total) && rejections >= quorum_threshold(total)),
{
}

/// The reputation of `a` read from `reps`, 1 when none is recorded.
pub open spec fn reputation_in(reps: Map<Address, u32>, a: Address) -> int {
    if reps.contains_key(a) {
        reps[a] as int
    } else {
        1
    }
}

/// Rewards give exactly one point to each voter on the deciding side and change no other
/// reputation.
pub proof fn lemma_reward_is_one_point(reps: Map<Address, u32>, votes: Map<Address, bool>, side: bool, a: Address)
    requires
        votes.contains_key(a) && votes[a] == side ==> reputation_in(reps, a) < u32::MAX,
    ensures
        reputation_in(rewarded(reps, votes, side), a) == reputation_in(reps, a) + if votes.contains_key(a)
            && votes[a] == side {
            1int
        } else {
            0int
        },
{
}

proof fn lemma_first_entry_from(fs: Seq<GrantFund>, funder: Address, i: int)
    requires
        0 <= i,
    ensures
        ({
            let p = first_entry_from(fs, funder, i);
            (p == -1 && forall|j: int| i <= j < fs.len() ==> (#[trigger] fs[j]).funder != funder) || (i <= p
                < fs.len() && fs[p].funder == funder)
        }),
    decreases fs.len() - i,
{
    if i < fs.len() && fs[i].funder != funder {
        lemma_first_entry_from(fs, funder, i + 1);
    }
}

proof fn lemma_total_update(fs: Seq<GrantFund>, p: int, x: GrantFund)
    requires
        0 <= p < fs.len(),
    ensures
        total_funded(fs.update(p, x)) == total_funded(fs) - fs[p].amount + x.amount,
    decreases fs.len(),
{
    let u = fs.update(p, x);
    if p == fs.len() - 1 {
        assert(u.drop_last() =~= fs.drop_last());
    } else {
        assert(u.drop_last() =~= fs.drop_last().update(p, x));
        lemma_total_update(fs.drop_last(), p, x);
        assert(fs.drop_last()[p] == fs[p]);
    }
}

/// A deposit through `grant_fund` is credited exactly once: the escrow balance and the funders'
/// total both grow by the amount, funders stay distinct, and amounts stay positive.
pub proof fn lemma_fund_credits_once(g: GrantView, funder: Address, amount: i128)
    requires
        amount > 0,
        fits_i128(g.escrow_balance + amount),
        first_entry(g.funders, funder) >= 0 ==> fits_i128(g.funders[first_entry(g.funders, funder)].amount + amount),
    ensures
        ({
            let g2 = funded_grant(g, funder, amount);
            &&& g2.escrow_balance == g.escrow_balance + amount
            &&& total_funded(g2.funders) == total_funded(g.funders) + amount
            &&& funders_distinct(g.funders) ==> funders_distinct(g2.funders)
            &&& (forall|i: int| 0 <= i < g.funders.len() ==> (#[trigger] g.funders[i]).amount > 0) ==> (forall|i: int|
                0 <= i < g2.funders.len() ==> (#[trigger] g2.funders[i]).amount > 0)
        }),
{
    let fs = g.funders;
    let p = first_entry(fs, funder);
    lemma_first_entry_from(fs, funder, 0);
    let g2 = funded_grant(g, funder, amount);
    if p >= 0 {
        let x = GrantFund { funder, amount: (fs[p].amount + amount) as i128 };
        lemma_total_update(fs, p, x);
        assert(g2.funders == fs.update(p, x));
        if funders_distinct(fs) {
            assert forall|i: int, j: int|
                #![trigger g2.funders[i], g2.funders[j]]
                0 <= i < g2.funders.len() && 0 <= j < g2.funders.len() && i != j implies g2.funders[i].funder
                != g2.funders[j].funder by {
                assert(fs[i].funder == g2.funders[i].funder);
                assert(fs[j].funder == g2.funders[j].funder);
            }
        }
    } else {
        let x = GrantFund { funder, amount };
        assert(fs.push(x).drop_last() =~= fs);
        assert(g2.funders == fs.push(x));
        if funders_distinct(fs) {
            assert forall|i: int, j: int|
                #![trigger g2.funders[i], g2.funders[j]]
                0 <= i < g2.funders.len() && 0 <= j < g2.funders.len() && i != j implies g2.funders[i].funder
                != g2.funders[j].funder by {
                if i < fs.len() && j < fs.len() {
                    assert(g2.funders[i] == fs[i] && g2.funders[j] == fs[j]);
                } else if i < fs.len() {
                    assert(g2.funders[i] == fs[i]);
                } else {
                    assert(g2.funders[j] == fs[j]);
                }
            }
        }
    }
}

/// Successive grant creations hand out increasing ids: a creation from storage `s` returns
/// `s.counter() + 1` and leaves the counter there (storage `s1`), and a later creation, from any
/// storage `t` whose counter is still that one (no entry point but creation moves it), returns the
/// next id, one more.
pub proof fn lemma_grant_ids_increase(s: StorageView, g: GrantView, t: StorageView)
    requires
        s.counter() < u64::MAX,
        t.grant_counter == Some((s.counter() + 1) as u64),
    ensures
        ({
            let id1 = s.counter() + 1;
            let s1 = StorageView { grant_counter: Some(id1 as u64), grants: s.grants.insert(id1 as u64, g), ..s };
            let id2 = t.counter() + 1;
            &&& id1 > s.counter()
            &&& s1.counter() == id1
            &&& id2 == id1 + 1
            &&& id2 > id1
        }),
{
}

/// A stake is withdrawn at most once: after an unstake or a slash leaves the stake at zero, a
/// further unstake is refused.
pub proof fn lemma_stake_withdrawn_once(s: StorageView, grant_id: u64, reviewer: Address)
    requires
        s.grants.contains_key(grant_id),
        s.grants[grant_id].status != GrantStatus::Active,
    ensures
        unstake_error(with_stake(s, grant_id, reviewer, 0), grant_id, reviewer) == Some(
            ContractError::StakeNotFound,
        ),
{
}

/// A deposit within a batch is credited exactly once when the funder list has no duplicates: the
/// escrow balance and the funders' total both grow by the amount, and the list stays free of
/// duplicates.
pub proof fn lemma_batch_item_credits_once(g: GrantView, funder: Address, amount: i128)
    requires
        funders_distinct(g.funders),
        fits_i128(g.escrow_balance + amount),
        forall|i: int| 0 <= i < g.funders.len() && (#[trigger] g.funders[i]).funder == funder ==> fits_i128(g.funders[i].amount + amount),
    ensures
        ({
            let g2 = batch_funded_grant(g, funder, amount);
            &&& g2.escrow_balance == g.escrow_balance + amount
            &&& total_funded(g2.funders) == total_funded(g.funders) + amount
            &&& funders_distinct(g2.funders)
        }),
{
    let fs = g.funders;
    let g2 = batch_funded_grant(g, funder, amount);
    if exists|i: int| 0 <= i < fs.len() && (#[trigger] fs[i]).funder == funder {
        let p = choose|i: int| 0 <= i < fs.len() && (#[trigger] fs[i]).funder == funder;
        let x = GrantFund { funder, amount: (fs[p].amount + amount) as i128 };
        assert(merge_funder(fs, funder, amount) =~= fs.update(p, x)) by {
            assert forall|j: int| 0 <= j < fs.len() implies merged_entry(fs[j], funder, amount) == #[trigger] fs.update(
                p,
                x,
            )[j] by {
                if j != p {
                    assert(fs[j].funder != fs[p].funder);
                }
            }
        }
        lemma_total_update(fs, p, x);
        assert forall|i: int, j: int|
            #![trigger g2.funders[i], g2.funders[j]]
            0 <= i < g2.funders.len() && 0 <= j < g2.funders.len() && i != j implies g2.funders[i].funder
            != g2.funders[j].funder by {
            assert(fs[i].funder == g2.funders[i].funder);
            assert(fs[j].funder == g2.funders[j].funder);
        }
    } else {
        let x = GrantFund { funder, amount };
        assert(fs.push(x).drop_last() =~= fs);
        assert forall|i: int, j: int|
            #![trigger g2.funders[i], g2.funders[j]]
            0 <= i < g2.funders.len() && 0 <= j < g2.funders.len() && i != j implies g2.funders[i].funder
            != g2.funders[j].funder by {
            if i < fs.len() && j < fs.len() {
                assert(g2.funders[i] == fs[i] && g2.funders[j] == fs[j]);
            } else if i < fs.len() {
                assert(g2.funders[i] == fs[i]);
            } else {
                assert(g2.funders[j] == fs[j]);
            }
        }
    }
}

/// Only the parties a call names may act: only the owner cancels a grant or submits its
/// milestones, only one of the grant's appointed voters who is not its owner and, when staking is
/// configured, holds the minimum stake casts a ballot, and only milestones within the grant's count
/// are submitted.
pub proof fn lemma_only_parties_act(
    s: StorageView,
    grant_id: u64,
    milestone_idx: u32,
    caller: Address,
    feedback: Option<Seq<u8>>,
    reason: Seq<u8>,
)
    ensures
        cancel_error(s, grant_id, caller) is None ==> s.grants[grant_id].owner == caller,
        submit_error(s, grant_id, milestone_idx, caller) is None ==> s.grants[grant_id].owner == caller
            && milestone_idx < s.grants[grant_id].total_milestones,
        vote_error(s, grant_id, milestone_idx, caller, feedback) is None ==> s.grants[grant_id].reviewers.contains(
            caller,
        ) && s.grants[grant_id].owner != caller && stake_qualifies(s, grant_id, caller),
        reject_error(s, grant_id, milestone_idx, caller, reason) is None ==> s.grants[grant_id].reviewers.contains(
            caller,
        ) && s.grants[grant_id].owner != caller && stake_qualifies(s, grant_id, caller),
{
}

/// Whether every stored grant lists each funder at most once.
pub open spec fn funders_distinct_everywhere(s: StorageView) -> bool {
    forall|id: u64| s.grants.contains_key(id) ==> funders_distinct(#[trigger] s.grants[id].funders)
}

/// What a grant holds in escrow beyond what its funder entries record.
pub open spec fn unrecorded_escrow(g: GrantView) -> int {
    g.escrow_balance - total_funded(g.funders)
}

/// A successful batch records every deposit against its funder: when no grant lists a funder
/// twice, none does afterwards, no grant appears or disappears, and for every grant the escrow
/// balance and the funders' total grow by the same amount.
pub proof fn lemma_batch_records_deposits(
    s: StorageView,
    funder: Address,
    contract: Address,
    items: Seq<(u64, i128)>,
)
    requires
        funders_distinct_everywhere(s),
        batch_run(s, funder, contract, items) is Done,
    ensures
        batch_run(s, funder, contract, items) matches BatchOutcome::Done(s2, _, _) && {
            &&& funders_distinct_everywhere(s2)
            &&& forall|id: u64| #[trigger] s2.grants.contains_key(id) == s.grants.contains_key(id)
            &&& forall|id: u64| s.grants.contains_key(id) ==> unrecorded_escrow(#[trigger] s2.grants[id]) == unrecorded_escrow(
                s.grants[id],
            )
        },
    decreases items.len(),
{
    if items.len() > 0 {
        let init = items.drop_last();
        let prev = batch_run(s, funder, contract, init);
        if !(prev is Done) {
            assert(batch_run(s, funder, contract, items) == prev);
        }
        lemma_batch_records_deposits(s, funder, contract, init);
        let s1 = prev->Done_0;
        let grant_id = items.last().0;
        let amount = items.last().1;
        let g = s1.grants[grant_id];
        assert(batch_item_error(s1, grant_id, funder, amount) is None);
        assert(!batch_item_overflows(g.funders, funder, amount));
        assert(funders_distinct(g.funders));
        lemma_batch_item_credits_once(g, funder, amount);
        let s2 = batch_run(s, funder, contract, items)->Done_0;
        assert forall|id: u64| s2.grants.contains_key(id) implies funders_distinct(#[trigger] s2.grants[id].funders) by {
            if id != grant_id {
                assert(s2.grants[id] == s1.grants[id]);
            }
        }
        assert forall|id: u64| s.grants.contains_key(id) implies unrecorded_escrow(#[trigger] s2.grants[id])
            == unrecorded_escrow(s.grants[id]) by {
            if id != grant_id {
                assert(s2.grants[id] == s1.grants[id]);
            }
            assert(s1.grants.contains_key(id));
        }
    }
}

/// Storage gives back what was written: a grant or milestone read after it is stored is the one
/// stored, and storing under one key leaves every other key as it was.
pub proof fn lemma_read_after_write(
    s: StorageView,
    grant_id: u64,
    other_id: u64,
    g: GrantView,
    key: (u64, u32),
    other_key: (u64, u32),
    m: MilestoneView,
)
    ensures
        s.grants.insert(grant_id, g).contains_key(grant_id) && s.grants.insert(grant_id, g)[grant_id] == g,
        other_id != grant_id ==> s.grants.insert(grant_id, g).contains_key(other_id) == s.grants.contains_key(
            other_id,
        ) && s.grants.insert(grant_id, g)[other_id] == s.grants[other_id],
        s.milestones.insert(key, m)[key] == m,
        other_key != key ==> s.milestones.insert(key, m).contains_key(other_key) == s.milestones.contains_key(
            other_key,
        ) && s.milestones.insert(key, m)[other_key] == s.milestones[other_key],
{
}

/// Staking gives back exactly what was staked: a voter with no stake on an active grant who stakes
/// `amount` (positive, and accepted), and whose own stake on that grant nothing changes until the
/// grant has ended (no slash in between), can unstake, is paid exactly `amount`, and a second
/// unstake finds no stake.
pub proof fn lemma_stake_returned(
    s: StorageView,
    s_end: StorageView,
    grant_id: u64,
    reviewer: Address,
    amount: i128,
)
    requires
        s.stake_of(grant_id, reviewer) == 0,
        amount > 0,
        stake_error(s, grant_id, reviewer, amount) is None,
        s_end.stake_of(grant_id, reviewer) == with_stake(s, grant_id, reviewer, amount).stake_of(grant_id, reviewer),
        s_end.grants.contains_key(grant_id),
        s_end.grants[grant_id].status != GrantStatus::Active,
    ensures
        with_stake(s, grant_id, reviewer, (s.stake_of(grant_id, reviewer) + amount) as i128).stake_of(
            grant_id,
            reviewer,
        ) == amount,
        unstake_error(s_end, grant_id, reviewer) is None,
        s_end.stake_of(grant_id, reviewer) == amount,
        unstake_error(with_stake(s_end, grant_id, reviewer, 0), grant_id, reviewer) == Some(
            ContractError::StakeNotFound,
        ),
{
}

/// The outcome of `grant_fund` calls by `funder` on the items in turn, stopping at the first
/// refusal: the storage they leave and the transfers and events they ask for.
pub open spec fn fund_sequence(s: StorageView, funder: Address, contract: Address, items: Seq<(u64, i128)>) -> BatchOutcome
    decreases items.len(),
{
    if items.len() == 0 {
        BatchOutcome::Done(s, Seq::empty(), Seq::empty())
    } else {
        match fund_sequence(s, funder, contract, items.drop_last()) {
            BatchOutcome::Done(s1, ts, es) => {
                let grant_id = items.last().0;
                let amount = items.last().1;
                match fund_error(s1, grant_id, funder, amount) {
                    Some(e) => BatchOutcome::Refused(e),
                    None => {
                        let g = s1.grants[grant_id];
                        let g2 = funded_grant(g, funder, amount);
                        BatchOutcome::Done(
                            StorageView { grants: s1.grants.insert(grant_id, g2), ..s1 },
                            ts.push(Transfer { token: g.token, from: funder, to: contract, amount }),
                            es.push(
                                ContractEvent::GrantFunded {
                                    grant_id,
                                    funder,
                                    amount,
                                    escrow_balance: g2.escrow_balance,
                                },
                            ),
                        )
                    },
                }
            },
            other => other,
        }
    }
}

/// On a funder list without duplicates, a batch item and a single funding agree: the same entry
/// overflows, and the same list results.
proof fn lemma_batch_item_is_single_funding(fs: Seq<GrantFund>, funder: Address, amount: i128)
    requires
        funders_distinct(fs),
    ensures
        batch_item_overflows(fs, funder, amount) == (first_entry(fs, funder) >= 0 && !fits_i128(
            fs[first_entry(fs, funder)].amount + amount,
        )),
        !batch_item_overflows(fs, funder, amount) ==> merge_funder(fs, funder, amount) == add_to_first_entry(
            fs,
            funder,
            amount,
        ),
{
    lemma_first_entry_from(fs, funder, 0);
    let p = first_entry(fs, funder);
    if p >= 0 {
        assert forall|i: int| 0 <= i < fs.len() && (#[trigger] fs[i]).funder == funder implies i == p by {
            if i != p {
                assert(fs[i].funder != fs[p].funder);
            }
        }
        if !batch_item_overflows(fs, funder, amount) {
            let x = GrantFund { funder, amount: (fs[p].amount + amount) as i128 };
            assert(merge_funder(fs, funder, amount) =~= fs.update(p, x)) by {
                assert(0 <= p < fs.len() && fs[p].funder == funder);
                assert forall|j: int| 0 <= j < fs.len() implies merged_entry(fs[j], funder, amount) == #[trigger] fs.update(
                    p,
                    x,
                )[j] by {
                    if j != p {
                        assert(fs[j].funder != fs[p].funder);
                    }
                }
            }
        }
    } else {
        assert(!(exists|i: int| 0 <= i < fs.len() && (#[trigger] fs[i]).funder == funder));
    }
}

/// A batch is single fundings in turn: when no grant lists a funder twice, `fund_batch` on a list
/// of items refuses exactly when `grant_fund` on the items in order would first refuse, with the
/// same error, and otherwise leaves the same storage and asks for the same transfers and events.
/// A repeated grant id accumulates, and no grant comes to list a funder twice.
pub proof fn lemma_batch_is_sequential_funding(
    s: StorageView,
    funder: Address,
    contract: Address,
    items: Seq<(u64, i128)>,
)
    requires
        funders_distinct_everywhere(s),
    ensures
        batch_run(s, funder, contract, items) == fund_sequence(s, funder, contract, items),
        batch_run(s, funder, contract, items) matches BatchOutcome::Done(s2, _, _) ==> funders_distinct_everywhere(s2),
    decreases items.len(),
{
    if items.len() > 0 {
        let init = items.drop_last();
        lemma_batch_is_sequential_funding(s, funder, contract, init);
        let prev = batch_run(s, funder, contract, init);
        if let BatchOutcome::Done(s1, ts, es) = prev {
            let grant_id = items.last().0;
            let amount = items.last().1;
            if s1.grants.contains_key(grant_id) {
                let g = s1.grants[grant_id];
                assert(funders_distinct(g.funders));
                lemma_batch_item_is_single_funding(g.funders, funder, amount);
                assert(batch_item_error(s1, grant_id, funder, amount) == fund_error(s1, grant_id, funder, amount));
                if fund_error(s1, grant_id, funder, amount) is None {
                    assert(batch_funded_grant(g, funder, amount) == funded_grant(g, funder, amount));
                    lemma_fund_credits_once(g, funder, amount);
                    let s2 = StorageView { grants: s1.grants.insert(grant_id, funded_grant(g, funder, amount)), ..s1 };
                    assert forall|id: u64| s2.grants.contains_key(id) implies funders_distinct(#[trigger] s2.grants[id].funders) by {
                        if id != grant_id {
                            assert(s2.grants[id] == s1.grants[id]);
                        }
                    }
                }
            } else {
                assert(batch_item_error(s1, grant_id, funder, amount) == fund_error(s1, grant_id, funder, amount));
            }
        }
    }
}

/// Admin operations are the admin's alone: a caller that is not the stored admin cannot set the
/// staking configuration, slash a stake, or set the identity oracle, though it authorized the call.
pub proof fn lemma_admin_only(e: EnvView, caller: Address, err: Option<ContractError>)
    requires
        e.storage.global_admin != Some(caller),
    ensures
        admin_error(e, caller, err) == Some(ContractError::Unauthorized),
{
}

/// Staking prevents zero-stake voting: once a positive minimum stake is configured, a ballot that
/// passes its checks comes from a voter holding at least that stake on the grant.
pub proof fn lemma_no_zero_stake_ballot(s: StorageView, grant_id: u64, milestone_idx: u32, reviewer: Address)
    requires
        s.min_reviewer_stake matches Some(m) && m > 0,
        ballot_error(s, grant_id, milestone_idx, reviewer) is None,
    ensures
        s.stake_of(grant_id, reviewer) >= s.min_stake(),
        s.stake_of(grant_id, reviewer) > 0,
{
}

/// The first failing item decides a batch: when the items before position `k` all go through,
/// leaving storage `s1`, and item `k` fails on `s1` with error `e`, the whole batch is refused with
/// `e`, whatever follows (and `fund_batch` then leaves everything as it was).
pub proof fn lemma_first_failing_item_decides(
    s: StorageView,
    funder: Address,
    contract: Address,
    items: Seq<(u64, i128)>,
    k: int,
)
    requires
        0 <= k < items.len(),
        batch_run(s, funder, contract, items.take(k)) is Done,
        batch_item_error(batch_run(s, funder, contract, items.take(k))->Done_0, items[k].0, funder, items[k].1) is Some,
    ensures
        batch_run(s, funder, contract, items) == BatchOutcome::Refused(
            batch_item_error(batch_run(s, funder, contract, items.take(k))->Done_0, items[k].0, funder, items[k].1)->0,
        ),
{
    assert(items.take(k + 1).drop_last() =~= items.take(k));
    assert(items.take(k + 1).last() == items[k]);
    lemma_batch_stops(s, funder, contract, items, k + 1);
}

/// A voter's weight is its reputation: the stored reputation when one is recorded, and 1 for a
/// voter never recorded.
pub proof fn lemma_reputation_is_weight(s: StorageView, a: Address)
    ensures
        s.reviewer_reputations.contains_key(a) ==> s.reputation_of(a) == s.reviewer_reputations[a],
        !s.reviewer_reputations.contains_key(a) ==> s.reputation_of(a) == 1,
{
}

/// The total weight of a review is the sum of the voters' reputations, not their number: no voters
/// weigh nothing, a single voter weighs its reputation, and one more voter adds exactly its
/// reputation.
pub proof fn lemma_weight_is_reputation_sum(s: StorageView, rs: Seq<Address>, r: Address)
    ensures
        total_weight(s, Seq::empty()) == 0,
        total_weight(s, seq![r]) == s.reputation_of(r),
        total_weight(s, rs.push(r)) == total_weight(s, rs) + s.reputation_of(r),
{
    assert(rs.push(r).drop_last() =~= rs);
    assert(seq![r].drop_last() =~= Seq::<Address>::empty());
}

/// A side decides a milestone exactly when its tally is more than half of the total reputation
/// of the grant's voters.
pub proof fn lemma_decision_is_weighted_majority(s: StorageView, grant_id: u64, tally: int)
    ensures
        tally >= grant_threshold(s, grant_id) <==> 2 * tally > total_weight(s, s.grants[grant_id].reviewers),
{
    lemma_weight_nonneg(s, s.grants[grant_id].reviewers);
}

/// Counting a ballot adds the voter's whole reputation to its side and nothing to the other,
/// records the vote, keeps the reason when one is given, and changes nothing else of the
/// milestone.
pub proof fn lemma_ballot_adds_reputation(
    s: StorageView,
    grant_id: u64,
    milestone_idx: u32,
    reviewer: Address,
    approve: bool,
    reason: Option<Seq<u8>>,
)
    requires
        approve ==> s.milestones[(grant_id, milestone_idx)].approvals + s.reputation_of(reviewer) <= u32::MAX,
        !approve ==> s.milestones[(grant_id, milestone_idx)].rejections + s.reputation_of(reviewer) <= u32::MAX,
    ensures
        ({
            let m = s.milestones[(grant_id, milestone_idx)];
            let t = tallied(s, grant_id, milestone_idx, reviewer, approve, reason);
            &&& approve ==> t.approvals == m.approvals + s.reputation_of(reviewer) && t.rejections == m.rejections
            &&& !approve ==> t.rejections == m.rejections + s.reputation_of(reviewer) && t.approvals == m.approvals
            &&& t.votes == m.votes.insert(reviewer, approve)
            &&& (reason matches Some(x) ==> t.reasons == m.reasons.insert(reviewer, x))
            &&& (reason is None ==> t.reasons == m.reasons)
            &&& t.state == m.state && t.amount == m.amount && t.idx == m.idx && t.description == m.description
            &&& t.status_updated_at == m.status_updated_at && t.proof_url == m.proof_url
            &&& t.submission_timestamp == m.submission_timestamp
        }),
{
}

/// After a counted ballot the milestone settles in `state` at time `timestamp` when the ballot
/// decided, and otherwise stays as tallied with every reputation unchanged; nothing but the
/// milestone and the reputations changes.
pub proof fn lemma_ballot_settles(
    s: StorageView,
    grant_id: u64,
    milestone_idx: u32,
    t: MilestoneView,
    decided: bool,
    side: bool,
    state: MilestoneState,
    timestamp: u64,
)
    ensures
        ({
            let s1 = after_ballot(s, grant_id, milestone_idx, t, decided, side, state, timestamp);
            let m1 = s1.milestones[(grant_id, milestone_idx)];
            &&& s1.milestones.contains_key((grant_id, milestone_idx))
            &&& decided ==> m1.state == state && m1.status_updated_at == timestamp && m1.votes == t.votes
                && m1.approvals == t.approvals && m1.rejections == t.rejections
            &&& !decided ==> m1 == t && s1.reviewer_reputations == s.reviewer_reputations
            &&& s1.grants == s.grants && s1.reviewer_stakes == s.reviewer_stakes
            &&& forall|k: (u64, u32)| k != (grant_id, milestone_idx) ==> #[trigger] s1.milestones.contains_key(k)
                == s.milestones.contains_key(k) && s1.milestones[k] == s.milestones[k]
        }),
{
}

/// Completion needs every milestone approved: a grant completes only when it exists, is active,
/// and each of its milestones is stored as Approved; an active grant with a milestone missing or
/// in any other state (Pending, Submitted, Rejected) is refused with `NotAllMilestonesApproved`.
pub proof fn lemma_completion_needs_all_approved(s: StorageView, grant_id: u64, j: u32)
    ensures
        complete_error(s, grant_id) is None ==> s.grants.contains_key(grant_id) && s.grants[grant_id].status
            == GrantStatus::Active,
        complete_error(s, grant_id) is None && j < s.grants[grant_id].total_milestones ==> s.milestones.contains_key(
            (grant_id, j),
        ) && s.milestones[(grant_id, j)].state == MilestoneState::Approved,
        s.grants.contains_key(grant_id) && s.grants[grant_id].status == GrantStatus::Active && j
            < s.grants[grant_id].total_milestones && (!s.milestones.contains_key((grant_id, j))
            || s.milestones[(grant_id, j)].state != MilestoneState::Approved) ==> complete_error(s, grant_id)
            == Some(ContractError::NotAllMilestonesApproved),
{
}

/// Grant terms are accepted exactly when both amounts are positive, there are 1 to 100
/// milestones, and the milestones together ask no more than the total: a total above what the
/// milestones need is accepted too, and raising the total never makes valid terms invalid.
pub proof fn lemma_terms_cover_milestones(total: i128, milestone_amount: i128, num: u32, larger_total: i128)
    ensures
        grant_terms_valid(total, milestone_amount, num) <==> (total > 0 && milestone_amount > 0 && 1 <= num <= 100
            && milestone_amount * num <= total),
        grant_terms_valid(total, milestone_amount, num) && total <= larger_total ==> grant_terms_valid(
            larger_total,
            milestone_amount,
            num,
        ),
        milestone_amount * num > total ==> !grant_terms_valid(total, milestone_amount, num),
{
}

/// A milestone that is submitted or already approved cannot be submitted again, whoever asks;
/// for the owner of an active grant and an index within its milestones, a milestone that is
/// absent, pending or rejected can be, and a submitted or approved one is refused with
/// `MilestoneAlreadySubmitted`.
pub proof fn lemma_approved_milestone_stays(s: StorageView, grant_id: u64, milestone_idx: u32, caller: Address)
    ensures
        s.milestones.contains_key((grant_id, milestone_idx)) && (s.milestones[(grant_id, milestone_idx)].state
            == MilestoneState::Submitted || s.milestones[(grant_id, milestone_idx)].state == MilestoneState::Approved)
            ==> submit_error(s, grant_id, milestone_idx, caller) is Some,
        ({
            let open_to_owner = s.grants.contains_key(grant_id) && s.grants[grant_id].status == GrantStatus::Active
                && milestone_idx < s.grants[grant_id].total_milestones && s.grants[grant_id].owner == caller;
            &&& open_to_owner && s.milestones.contains_key((grant_id, milestone_idx)) && (s.milestones[(
                grant_id,
                milestone_idx,
            )].state == MilestoneState::Submitted || s.milestones[(grant_id, milestone_idx)].state
                == MilestoneState::Approved) ==> submit_error(s, grant_id, milestone_idx, caller) == Some(
                ContractError::MilestoneAlreadySubmitted,
            )
            &&& open_to_owner && (!s.milestones.contains_key((grant_id, milestone_idx)) || s.milestones[(
                grant_id,
                milestone_idx,
            )].state == MilestoneState::Pending || s.milestones[(grant_id, milestone_idx)].state
                == MilestoneState::Rejected) ==> submit_error(s, grant_id, milestone_idx, caller) is None
        }),
{
}

/// What completion pays out is the sum of the milestone amounts: no milestones pay nothing, each
/// further milestone adds its own amount, and what remains for refunds is the escrow balance less
/// that sum.
pub proof fn lemma_paid_is_milestone_sum(s: StorageView, grant_id: u64, k: u32)
    ensures
        paid_sum(s, grant_id, 0) == 0,
        paid_sum(s, grant_id, k + 1) == paid_sum(s, grant_id, k as int) + s.milestones[(grant_id, k)].amount,
        remaining_balance(s, grant_id) == s.grants[grant_id].escrow_balance - total_paid(s, grant_id),
        total_paid(s, grant_id) == paid_sum(s, grant_id, s.grants[grant_id].total_milestones as int),
{
    assert((k + 1 - 1) as u32 == k);
}

/// The records the entry points write: a new grant is active with an empty escrow and no funders
/// or payouts; a submitted milestone carries the grant's payout, no votes and the submission time;
/// a completed grant and a cancelled one have an empty escrow, the cancelled one with its reason,
/// and each keeps its owner, token, voters and funders.
pub proof fn lemma_written_records(
    grant_id: u64,
    owner: Address,
    title: Seq<u8>,
    description: Seq<u8>,
    token: Address,
    total_amount: i128,
    milestone_amount: i128,
    num_milestones: u32,
    reviewers: Seq<Address>,
    timestamp: u64,
    milestone_idx: u32,
    proof_url: Seq<u8>,
    g: GrantView,
    reason: Seq<u8>,
)
    ensures
        ({
            let n = new_grant(grant_id, owner, title, description, token, total_amount, milestone_amount,
                num_milestones, reviewers, timestamp);
            &&& n.id == grant_id && n.owner == owner && n.title == title && n.description == description
            &&& n.token == token && n.total_amount == total_amount && n.milestone_amount == milestone_amount
            &&& n.total_milestones == num_milestones && n.reviewers == reviewers && n.timestamp == timestamp
            &&& n.status == GrantStatus::Active && n.escrow_balance == 0 && n.funders.len() == 0
            &&& n.milestones_paid_out == 0 && n.reason is None
        }),
        ({
            let m = submitted_milestone(milestone_idx, description, milestone_amount, proof_url, timestamp);
            &&& m.idx == milestone_idx && m.description == description && m.amount == milestone_amount
            &&& m.state == MilestoneState::Submitted && m.votes.dom().len() == 0 && m.reasons.dom().len() == 0
            &&& m.approvals == 0 && m.rejections == 0 && m.proof_url == Some(proof_url)
            &&& m.submission_timestamp == timestamp
        }),
        ({
            let c = completed_grant(g, timestamp);
            &&& c.status == GrantStatus::Completed && c.escrow_balance == 0 && c.timestamp == timestamp
            &&& c.owner == g.owner && c.token == g.token && c.reviewers == g.reviewers && c.funders == g.funders
            &&& c.id == g.id && c.total_milestones == g.total_milestones
        }),
        ({
            let c = cancelled_grant(g, reason, timestamp);
            &&& c.status == GrantStatus::Cancelled && c.escrow_balance == 0 && c.timestamp == timestamp
            &&& c.reason == Some(reason)
            &&& c.owner == g.owner && c.token == g.token && c.reviewers == g.reviewers && c.funders == g.funders
            &&& c.id == g.id && c.total_milestones == g.total_milestones
        }),
{
}

/// The limits the contract enforces, counted in bytes: feedback and rejection reasons of up to 256
/// bytes are taken and longer ones refused with `InvalidInput`; a contributor name must be 1 to 100
/// bytes and a bio at most 500; a grant has at most 100 milestones and a batch at most 20 items.
pub proof fn lemma_limits(
    s: StorageView,
    grant_id: u64,
    milestone_idx: u32,
    reviewer: Address,
    text: Seq<u8>,
    name: Seq<u8>,
    bio: Seq<u8>,
)
    ensures
        text.len() > 256 ==> reject_error(s, grant_id, milestone_idx, reviewer, text) == Some(
            ContractError::InvalidInput,
        ),
        text.len() <= 256 ==> reject_error(s, grant_id, milestone_idx, reviewer, text) == ballot_error(
            s,
            grant_id,
            milestone_idx,
            reviewer,
        ),
        ballot_error(s, grant_id, milestone_idx, reviewer) is None ==> (vote_error(
            s,
            grant_id,
            milestone_idx,
            reviewer,
            Some(text),
        ) is None <==> text.len() <= 256),
        ballot_error(s, grant_id, milestone_idx, reviewer) is None ==> vote_error(s, grant_id, milestone_idx, reviewer, None)
            is None,
        profile_text_valid(name, bio) <==> (1 <= name.len() <= 100 && bio.len() <= 500),
        MAX_MILESTONES == 100,
        MAX_BATCH == 20,
{
}

} // verus!
