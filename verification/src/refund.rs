//! Ending a grant: cancellation and completion, with proportional refunds to funders.
use vstd::prelude::*;
use crate::contract::StellarGrantsContract;
use crate::env::{authorizes, env_after, Env, Transfer};
use crate::events::ContractEvent;
use crate::funding::fits_i128;
use crate::storage::StorageView;
use crate::types::{copy_vec, Address, ContractError, GrantFund, GrantStatus, GrantView, MilestoneState};

verus! {

/// The sum of the amounts of a list of fund entries.
pub open spec fn total_funded(fs: Seq<GrantFund>) -> int
    decreases fs.len(),
{
    if fs.len() == 0 {
        0
    } else {
        total_funded(fs.drop_last()) + fs.last().amount
    }
}

/// Whether every running total of the amounts is an `i128`.
pub open spec fn running_totals_fit(fs: Seq<GrantFund>) -> bool {
    forall|k: int| 0 <= k <= fs.len() ==> fits_i128(#[trigger] total_funded(fs.take(k)))
}

/// Division rounding toward zero, by a positive divisor.
pub open spec fn trunc_div(x: int, d: int) -> int {
    if x >= 0 {
        x / d
    } else {
        -((-x) / d)
    }
}

/// The refund of a funder who put in `amount` out of `total`, when `remaining` is refunded:
/// its share of `remaining`, rounded toward zero.
pub open spec fn refund_share(amount: i128, remaining: i128, total: i128) -> int {
    trunc_div(amount * remaining, total as int)
}

/// Whether some funder's amount times `remaining` leaves the `i128` range.
pub open spec fn refund_overflows(fs: Seq<GrantFund>, remaining: i128) -> bool {
    exists|i: int| 0 <= i < fs.len() && !fits_i128((#[trigger] fs[i]).amount * remaining)
}

/// The positive refunds, in funder order, when `remaining` is shared out pro rata over `total`.
pub open spec fn payouts(fs: Seq<GrantFund>, remaining: i128, total: i128) -> Seq<GrantFund>
    decreases fs.len(),
{
    if fs.len() == 0 {
        Seq::empty()
    } else {
        let prev = payouts(fs.drop_last(), remaining, total);
        let share = refund_share(fs.last().amount, remaining, total);
        if share > 0 {
            prev.push(GrantFund { funder: fs.last().funder, amount: share as i128 })
        } else {
            prev
        }
    }
}

/// The transfers that pay out refunds from `from` in `token`.
pub open spec fn payout_transfers(ps: Seq<GrantFund>, token: Address, from: Address) -> Seq<Transfer> {
    ps.map_values(|p: GrantFund| Transfer { token, from, to: p.funder, amount: p.amount })
}

/// The refund event of one payout: a cancellation refund or a final refund on completion.
pub open spec fn payout_event(p: GrantFund, grant_id: u64, on_completion: bool) -> ContractEvent {
    if on_completion {
        ContractEvent::FinalRefund { grant_id, funder: p.funder, amount: p.amount }
    } else {
        ContractEvent::RefundExecuted { grant_id, funder: p.funder, amount: p.amount }
    }
}

/// The refund events of a list of payouts.
pub open spec fn payout_events(ps: Seq<GrantFund>, grant_id: u64, on_completion: bool) -> Seq<ContractEvent> {
    ps.map_values(|p: GrantFund| payout_event(p, grant_id, on_completion))
}

/// Whether `grant_cancel` gets as far as adding up the funders' contributions.
pub open spec fn cancel_sums_contributions(s: StorageView, grant_id: u64, owner: Address) -> bool {
    &&& s.grants.contains_key(grant_id)
    &&& s.grants[grant_id].owner == owner
    &&& s.grants[grant_id].status == GrantStatus::Active
    &&& s.grants[grant_id].milestones_paid_out < s.grants[grant_id].total_milestones
    &&& s.grants[grant_id].escrow_balance > 0
}

/// The error `grant_cancel` returns, if any.
pub open spec fn cancel_error(s: StorageView, grant_id: u64, owner: Address) -> Option<ContractError> {
    if !s.grants.contains_key(grant_id) {
        Some(ContractError::GrantNotFound)
    } else if s.grants[grant_id].owner != owner {
        Some(ContractError::Unauthorized)
    } else if s.grants[grant_id].status != GrantStatus::Active {
        Some(ContractError::InvalidState)
    } else if s.grants[grant_id].milestones_paid_out >= s.grants[grant_id].total_milestones {
        Some(ContractError::InvalidState)
    } else if s.grants[grant_id].escrow_balance <= 0 {
        Some(ContractError::NoRefundableAmount)
    } else if total_funded(s.grants[grant_id].funders) <= 0 {
        Some(ContractError::NoRefundableAmount)
    } else if refund_overflows(s.grants[grant_id].funders, s.grants[grant_id].escrow_balance) {
        Some(ContractError::InvalidInput)
    } else {
        None
    }
}

/// The grant after cancellation: cancelled, escrow emptied, reason and time recorded.
pub open spec fn cancelled_grant(g: GrantView, reason: Seq<u8>, timestamp: u64) -> GrantView {
    GrantView { status: GrantStatus::Cancelled, escrow_balance: 0, reason: Some(reason), timestamp, ..g }
}

/// Whether milestones `0..k` of a grant are all recorded and approved.
pub open spec fn all_approved(s: StorageView, grant_id: u64, k: int) -> bool {
    forall|j: u32|
        j < k ==> #[trigger] s.milestones.contains_key((grant_id, j)) && s.milestones[(grant_id, j)].state
            == MilestoneState::Approved
}

/// The sum of the amounts of milestones `0..k` of a grant.
pub open spec fn paid_sum(s: StorageView, grant_id: u64, k: int) -> int
    decreases k,
{
    if k <= 0 {
        0
    } else {
        paid_sum(s, grant_id, k - 1) + s.milestones[(grant_id, (k - 1) as u32)].amount
    }
}

/// Whether `grant_complete` gets past the milestone check.
pub open spec fn complete_checks_pass(s: StorageView, grant_id: u64) -> bool {
    &&& s.grants.contains_key(grant_id)
    &&& s.grants[grant_id].status == GrantStatus::Active
    &&& all_approved(s, grant_id, s.grants[grant_id].total_milestones as int)
}

/// The total paid out to a grant's milestones, as `grant_complete` adds it up.
pub open spec fn total_paid(s: StorageView, grant_id: u64) -> int {
    paid_sum(s, grant_id, s.grants[grant_id].total_milestones as int)
}

/// What is left in escrow once the milestones are paid.
pub open spec fn remaining_balance(s: StorageView, grant_id: u64) -> int {
    s.grants[grant_id].escrow_balance - total_paid(s, grant_id)
}

/// Whether refunds are due on completion: something remains and the funders put something in.
pub open spec fn completion_refunds_due(s: StorageView, grant_id: u64) -> bool {
    remaining_balance(s, grant_id) > 0 && total_funded(s.grants[grant_id].funders) > 0
}

/// The arithmetic of `grant_complete` that the contract does unchecked stays in range.
pub open spec fn completion_in_range(s: StorageView, grant_id: u64) -> bool {
    let n = s.grants[grant_id].total_milestones as int;
    &&& forall|k: int| 0 <= k <= n && all_approved(s, grant_id, k) ==> fits_i128(#[trigger] paid_sum(s, grant_id, k))
    &&& (all_approved(s, grant_id, n) ==> fits_i128(remaining_balance(s, grant_id)))
    &&& (all_approved(s, grant_id, n) && remaining_balance(s, grant_id) > 0 ==> running_totals_fit(
        s.grants[grant_id].funders,
    ))
}

/// The error `grant_complete` returns, if any.
pub open spec fn complete_error(s: StorageView, grant_id: u64) -> Option<ContractError> {
    if !s.grants.contains_key(grant_id) {
        Some(ContractError::GrantNotFound)
    } else if s.grants[grant_id].status != GrantStatus::Active {
        Some(ContractError::InvalidState)
    } else if !all_approved(s, grant_id, s.grants[grant_id].total_milestones as int) {
        Some(ContractError::NotAllMilestonesApproved)
    } else if completion_refunds_due(s, grant_id) && refund_overflows(
        s.grants[grant_id].funders,
        remaining_balance(s, grant_id) as i128,
    ) {
        Some(ContractError::InvalidInput)
    } else {
        None
    }
}

/// The refunds paid on completion.
pub open spec fn completion_payouts(s: StorageView, grant_id: u64) -> Seq<GrantFund> {
    if completion_refunds_due(s, grant_id) {
        payouts(
            s.grants[grant_id].funders,
            remaining_balance(s, grant_id) as i128,
            total_funded(s.grants[grant_id].funders) as i128,
        )
    } else {
        Seq::empty()
    }
}

/// The grant after completion: completed, escrow emptied, time recorded.
pub open spec fn completed_grant(g: GrantView, timestamp: u64) -> GrantView {
    GrantView { status: GrantStatus::Completed, escrow_balance: 0, timestamp, ..g }
}

/// The sum of the amounts of `fs`, which the caller knows to stay in range as it is added up.
fn sum_contributions(fs: &Vec<GrantFund>) -> (r: i128)
    requires
        running_totals_fit(fs@),
    ensures
        r == total_funded(fs@),
{
    let n = fs.len();
    let mut total: i128 = 0;
    let mut i: usize = 0;
    while i < n
        invariant
            n == fs@.len(),
            i <= n,
            running_totals_fit(fs@),
            total == total_funded(fs@.take(i as int)),
        decreases n - i,
    {
        proof {
            assert(fs@.take(i + 1).drop_last() =~= fs@.take(i as int));
            assert(fits_i128(total_funded(fs@.take(i + 1))));
        }
        total = total + fs[i].amount;
        i = i + 1;
    }
    proof {
        assert(fs@.take(n as int) =~= fs@);
    }
    total
}

/// The pro rata refunds of `remaining` over contributions adding up to `total`, or `None` when some
/// contribution times `remaining` overflows.
fn compute_payouts(fs: &Vec<GrantFund>, remaining: i128, total: i128) -> (r: Option<Vec<GrantFund>>)
    requires
        total > 0,
    ensures
        r is None <==> refund_overflows(fs@, remaining),
        r matches Some(ps) ==> ps@ == payouts(fs@, remaining, total),
{
    let n = fs.len();
    let mut out: Vec<GrantFund> = Vec::new();
    let mut i: usize = 0;
    while i < n
        invariant
            n == fs@.len(),
            i <= n,
            total > 0,
            out@ == payouts(fs@.take(i as int), remaining, total),
            forall|j: int| 0 <= j < i ==> fits_i128((#[trigger] fs@[j]).amount * remaining),
        decreases n - i,
    {
        let entry = fs[i];
        proof {
            assert(fs@.take(i + 1).drop_last() =~= fs@.take(i as int));
            assert(fs@.take(i + 1).last() == fs@[i as int]);
        }
        let product = match entry.amount.checked_mul(remaining) {
            Some(p) => p,
            None => {
                return None;
            },
        };
        let share = match product.checked_div(total) {
            Some(q) => q,
            None => {
                return None;
            },
        };
        proof {
            let x = product as int;
            if x < 0 {
                assert((x * -1) == -x);
            }
        }
        if share > 0 {
            out.push(GrantFund { funder: entry.funder, amount: share });
        }
        i = i + 1;
    }
    proof {
        assert(fs@.take(n as int) =~= fs@);
        if refund_overflows(fs@, remaining) {
            let j = choose|j: int| 0 <= j < fs@.len() && !fits_i128((#[trigger] fs@[j]).amount * remaining);
            assert(fits_i128(fs@[j].amount * remaining));
        }
    }
    Some(out)
}

/// Asks for the transfers of `ps` from the contract in `token` and publishes their refund events.
fn pay_out(env: &mut Env, token: Address, grant_id: u64, ps: &Vec<GrantFund>, on_completion: bool)
    ensures
        final(env)@ == env_after(
            old(env)@,
            old(env)@.storage,
            payout_transfers(ps@, token, old(env)@.current_contract),
            payout_events(ps@, grant_id, on_completion),
        ),
{
    let ghost e0 = env@;
    let n = ps.len();
    let mut i: usize = 0;
    while i < n
        invariant
            n == ps@.len(),
            i <= n,
            env@ == env_after(
                e0,
                e0.storage,
                payout_transfers(ps@.take(i as int), token, e0.current_contract),
                payout_events(ps@.take(i as int), grant_id, on_completion),
            ),
        decreases n - i,
    {
        let p = ps[i];
        env.transfers.push(Transfer { token, from: env.current_contract, to: p.funder, amount: p.amount });
        if on_completion {
            env.events.push(ContractEvent::FinalRefund { grant_id, funder: p.funder, amount: p.amount });
        } else {
            env.events.push(ContractEvent::RefundExecuted { grant_id, funder: p.funder, amount: p.amount });
        }
        proof {
            assert(ps@.take(i + 1) =~= ps@.take(i as int).push(p));
            assert(payout_transfers(ps@.take(i + 1), token, e0.current_contract) =~= payout_transfers(
                ps@.take(i as int),
                token,
                e0.current_contract,
            ).push(Transfer { token, from: e0.current_contract, to: p.funder, amount: p.amount }));
            assert(payout_events(ps@.take(i + 1), grant_id, on_completion) =~= payout_events(
                ps@.take(i as int),
                grant_id,
                on_completion,
            ).push(payout_event(p, grant_id, on_completion)));
            assert(env.transfers@ =~= e0.transfers + payout_transfers(ps@.take(i + 1), token, e0.current_contract));
            assert(env.events@ =~= e0.events + payout_events(ps@.take(i + 1), grant_id, on_completion));
        }
        i = i + 1;
    }
    proof {
        assert(ps@.take(n as int) =~= ps@);
    }
}

impl StellarGrantsContract {
    /// The owner, who must authorize the call, cancels an active grant that still has unpaid
    /// milestones: the escrow balance is
    /// refunded to the funders pro rata to their contributions (each share rounded toward zero,
    /// zero shares skipped), and the grant is marked cancelled with the reason and the time.
    pub fn grant_cancel(env: &mut Env, grant_id: u64, owner: Address, reason: Vec<u8>) -> (r: Result<
        (),
        ContractError,
    >)
        requires
            authorizes(old(env)@, owner),
            cancel_sums_contributions(old(env)@.storage, grant_id, owner) ==> running_totals_fit(old(env)@.storage.grants[grant_id].funders),
        ensures
            r == match cancel_error(old(env)@.storage, grant_id, owner) {
                Some(e) => Err(e),
                None => Ok::<(), ContractError>(()),
            },
            r is Err ==> final(env)@ == old(env)@,
            r is Ok ==> {
                let s = old(env)@.storage;
                let g = s.grants[grant_id];
                let ps = payouts(g.funders, g.escrow_balance, total_funded(g.funders) as i128);
                final(env)@ == env_after(
                    old(env)@,
                    StorageView {
                        grants: s.grants.insert(
                            grant_id,
                            cancelled_grant(g, reason@, old(env)@.ledger_timestamp),
                        ),
                        ..s
                    },
                    payout_transfers(ps, g.token, old(env)@.current_contract),
                    payout_events(ps, grant_id, false).push(
                        ContractEvent::GrantCancelled {
                            grant_id,
                            owner,
                            reason,
                            total_refundable: g.escrow_balance,
                        },
                    ),
                )
            },
    {
        if !env.is_authorized(&owner) {
            return Err(ContractError::Unauthorized);
        }
        let mut grant = match env.storage.get_grant(grant_id) {
            Some(g) => g,
            None => {
                return Err(ContractError::GrantNotFound);
            },
        };
        if !grant.owner.same(&owner) {
            return Err(ContractError::Unauthorized);
        }
        if grant.status != GrantStatus::Active {
            return Err(ContractError::InvalidState);
        }
        if grant.milestones_paid_out >= grant.total_milestones {
            return Err(ContractError::InvalidState);
        }
        let total_refundable = grant.escrow_balance;
        if total_refundable <= 0 {
            return Err(ContractError::NoRefundableAmount);
        }
        let total_contributions = sum_contributions(&grant.funders);
        if total_contributions <= 0 {
            return Err(ContractError::NoRefundableAmount);
        }
        let ps = match compute_payouts(&grant.funders, total_refundable, total_contributions) {
            Some(ps) => ps,
            None => {
                return Err(ContractError::InvalidInput);
            },
        };
        let ghost e0 = env@;
        let ghost g0 = grant@;
        pay_out(env, grant.token, grant_id, &ps, false);
        let ghost reason0 = reason;
        let stored_reason = copy_vec(&reason);
        grant.status = GrantStatus::Cancelled;
        grant.escrow_balance = 0;
        grant.reason = Some(stored_reason);
        grant.timestamp = env.ledger_timestamp;
        proof {
            assert(grant@ =~= cancelled_grant(g0, reason0@, e0.ledger_timestamp));
        }
        env.storage.set_grant(grant_id, &grant);
        env.events.push(ContractEvent::GrantCancelled { grant_id, owner, reason, total_refundable });
        proof {
            assert(env.events@ =~= e0.events + payout_events(ps@, grant_id, false).push(
                ContractEvent::GrantCancelled { grant_id, owner, reason: reason0, total_refundable },
            ));
        }
        Ok(())
    }

    /// Completes an active grant whose milestones are all approved: what remains in escrow after
    /// the milestone amounts is refunded to the funders pro rata, and the grant is marked completed.
    pub fn grant_complete(env: &mut Env, grant_id: u64) -> (r: Result<(), ContractError>)
        requires
            old(env)@.storage.grants.contains_key(grant_id) && old(env)@.storage.grants[grant_id].status
                == GrantStatus::Active ==> completion_in_range(old(env)@.storage, grant_id),
        ensures
            r == match complete_error(old(env)@.storage, grant_id) {
                Some(e) => Err(e),
                None => Ok::<(), ContractError>(()),
            },
            r is Err ==> final(env)@ == old(env)@,
            r is Ok ==> {
                let s = old(env)@.storage;
                let g = s.grants[grant_id];
                let ps = completion_payouts(s, grant_id);
                final(env)@ == env_after(
                    old(env)@,
                    StorageView {
                        grants: s.grants.insert(grant_id, completed_grant(g, old(env)@.ledger_timestamp)),
                        ..s
                    },
                    payout_transfers(ps, g.token, old(env)@.current_contract),
                    payout_events(ps, grant_id, true).push(
                        ContractEvent::GrantCompleted {
                            grant_id,
                            total_paid: total_paid(s, grant_id) as i128,
                            remaining_balance: remaining_balance(s, grant_id) as i128,
                        },
                    ),
                )
            },
    {
        let mut grant = match env.storage.get_grant(grant_id) {
            Some(g) => g,
            None => {
                return Err(ContractError::GrantNotFound);
            },
        };
        if grant.status != GrantStatus::Active {
            return Err(ContractError::InvalidState);
        }
        let ghost s = env@.storage;
        let n = grant.total_milestones;
        let mut paid: i128 = 0;
        let mut idx: u32 = 0;
        while idx < n
            invariant
                s == env@.storage,
                env@ == old(env)@,
                s.grants.contains_key(grant_id),
                s.grants[grant_id].status == GrantStatus::Active,
                grant@ == s.grants[grant_id],
                n == s.grants[grant_id].total_milestones,
                completion_in_range(s, grant_id),
                idx <= n,
                all_approved(s, grant_id, idx as int),
                paid == paid_sum(s, grant_id, idx as int),
            decreases n - idx,
        {
            match env.storage.milestones.get(&(grant_id, idx)) {
                Some(m) => {
                    if m.state != MilestoneState::Approved {
                        proof {
                            assert(!all_approved(s, grant_id, n as int)) by {
                                assert(s.milestones.contains_key((grant_id, idx)));
                                assert(s.milestones[(grant_id, idx)].state != MilestoneState::Approved);
                            }
                        }
                        return Err(ContractError::NotAllMilestonesApproved);
                    }
                    proof {
                        assert(all_approved(s, grant_id, idx + 1)) by {
                            assert forall|j: u32| j < idx + 1 implies #[trigger] s.milestones.contains_key(
                                (grant_id, j),
                            ) && s.milestones[(grant_id, j)].state == MilestoneState::Approved by {
                                if j < idx {
                                    assert(s.milestones.contains_key((grant_id, j)));
                                } else {
                                    assert(j == idx);
                                }
                            }
                        }
                        assert(fits_i128(paid_sum(s, grant_id, idx + 1)));
                        assert((idx + 1 - 1) as u32 == idx);
                    }
                    paid = paid + m.amount;
                },
                None => {
                    proof {
                        assert(!all_approved(s, grant_id, n as int)) by {
                            if all_approved(s, grant_id, n as int) {
                                assert(s.milestones.contains_key((grant_id, idx)));
                            }
                        }
                    }
                    return Err(ContractError::NotAllMilestonesApproved);
                },
            }
            idx = idx + 1;
        }
        let remaining = grant.escrow_balance - paid;
        let ghost e0 = env@;
        let ghost g0 = grant@;
        if remaining > 0 {
            let total_contributions = sum_contributions(&grant.funders);
            if total_contributions > 0 {
                let ps = match compute_payouts(&grant.funders, remaining, total_contributions) {
                    Some(ps) => ps,
                    None => {
                        return Err(ContractError::InvalidInput);
                    },
                };
                pay_out(env, grant.token, grant_id, &ps, true);
            }
        }
        grant.status = GrantStatus::Completed;
        grant.escrow_balance = 0;
        grant.timestamp = env.ledger_timestamp;
        proof {
            assert(grant@ =~= completed_grant(g0, e0.ledger_timestamp));
        }
        env.storage.set_grant(grant_id, &grant);
        env.events.push(ContractEvent::GrantCompleted { grant_id, total_paid: paid, remaining_balance: remaining });
        proof {
            let ps = completion_payouts(s, grant_id);
            assert(env.transfers@ =~= e0.transfers + payout_transfers(ps, g0.token, e0.current_contract));
            assert(env.events@ =~= e0.events + payout_events(ps, grant_id, true).push(
                ContractEvent::GrantCompleted { grant_id, total_paid: paid, remaining_balance: remaining },
            ));
        }
        Ok(())
    }
}

} // verus!
