//! Funding: deposits into a grant's escrow, one at a time or in a batch.
use vstd::prelude::*;
use crate::contract::StellarGrantsContract;
use crate::env::{authorizes, env_after, Env, Transfer};
use crate::events::ContractEvent;
use crate::storage::StorageView;
use crate::types::{Address, ContractError, GrantFund, GrantStatus, GrantView};

verus! {

/// The most grants one batch may fund.
pub const MAX_BATCH: usize = 20;

/// Whether an integer is an `i128`.
pub open spec fn fits_i128(x: int) -> bool {
    i128::MIN <= x <= i128::MAX
}

/// The position of the first entry of `funder` at or after position `i`, or -1.
pub open spec fn first_entry_from(fs: Seq<GrantFund>, funder: Address, i: int) -> int
    decreases fs.len() - i,
{
    if i < 0 || i >= fs.len() {
        -1
    } else if fs[i].funder == funder {
        i
    } else {
        first_entry_from(fs, funder, i + 1)
    }
}

/// The position of the first entry of `funder`, or -1.
pub open spec fn first_entry(fs: Seq<GrantFund>, funder: Address) -> int {
    first_entry_from(fs, funder, 0)
}

/// The error `grant_fund` returns, if any.
pub open spec fn fund_error(s: StorageView, grant_id: u64, funder: Address, amount: i128) -> Option<
    ContractError,
> {
    if amount <= 0 {
        Some(ContractError::InvalidInput)
    } else if !s.grants.contains_key(grant_id) {
        Some(ContractError::GrantNotFound)
    } else if s.grants[grant_id].status != GrantStatus::Active {
        Some(ContractError::InvalidState)
    } else if !fits_i128(s.grants[grant_id].escrow_balance + amount) {
        Some(ContractError::InvalidInput)
    } else if first_entry(s.grants[grant_id].funders, funder) >= 0 && !fits_i128(
        s.grants[grant_id].funders[first_entry(s.grants[grant_id].funders, funder)].amount + amount,
    ) {
        Some(ContractError::InvalidInput)
    } else {
        None
    }
}

/// The funder list after `funder` adds `amount`: its first entry grows, or a new entry is appended.
pub open spec fn add_to_first_entry(fs: Seq<GrantFund>, funder: Address, amount: i128) -> Seq<GrantFund> {
    let p = first_entry(fs, funder);
    if p >= 0 {
        fs.update(p, GrantFund { funder, amount: (fs[p].amount + amount) as i128 })
    } else {
        fs.push(GrantFund { funder, amount })
    }
}

/// The grant after `grant_fund` deposits `amount` from `funder`.
pub open spec fn funded_grant(g: GrantView, funder: Address, amount: i128) -> GrantView {
    GrantView {
        escrow_balance: (g.escrow_balance + amount) as i128,
        funders: add_to_first_entry(g.funders, funder, amount),
        ..g
    }
}

/// Whether adding `amount` to some entry of `funder` leaves the `i128` range.
pub open spec fn batch_item_overflows(fs: Seq<GrantFund>, funder: Address, amount: i128) -> bool {
    exists|i: int| 0 <= i < fs.len() && (#[trigger] fs[i]).funder == funder && !fits_i128(fs[i].amount + amount)
}

/// The error one item of a batch meets, if any: a nonpositive amount, an unknown or inactive
/// grant, or an escrow balance or funder entry that would leave the `i128` range.
pub open spec fn batch_item_error(s: StorageView, grant_id: u64, funder: Address, amount: i128) -> Option<ContractError> {
    if amount <= 0 {
        Some(ContractError::InvalidInput)
    } else if !s.grants.contains_key(grant_id) {
        Some(ContractError::GrantNotFound)
    } else if s.grants[grant_id].status != GrantStatus::Active {
        Some(ContractError::InvalidState)
    } else if !fits_i128(s.grants[grant_id].escrow_balance + amount) {
        Some(ContractError::InvalidInput)
    } else if batch_item_overflows(s.grants[grant_id].funders, funder, amount) {
        Some(ContractError::InvalidInput)
    } else {
        None
    }
}

/// The funder entry after a batch item: entries of `funder` grow by `amount`.
pub open spec fn merged_entry(f: GrantFund, funder: Address, amount: i128) -> GrantFund {
    if f.funder == funder {
        GrantFund { funder: f.funder, amount: (f.amount + amount) as i128 }
    } else {
        f
    }
}

/// The funder list after a batch item: every entry of `funder` grows, or a new entry is appended.
pub open spec fn merge_funder(fs: Seq<GrantFund>, funder: Address, amount: i128) -> Seq<GrantFund> {
    if exists|i: int| 0 <= i < fs.len() && (#[trigger] fs[i]).funder == funder {
        fs.map_values(|f: GrantFund| merged_entry(f, funder, amount))
    } else {
        fs.push(GrantFund { funder, amount })
    }
}

/// The grant after a batch item deposits `amount` from `funder`.
pub open spec fn batch_funded_grant(g: GrantView, funder: Address, amount: i128) -> GrantView {
    GrantView {
        escrow_balance: (g.escrow_balance + amount) as i128,
        funders: merge_funder(g.funders, funder, amount),
        ..g
    }
}

/// How a batch ends: refused with an error, or done with the storage it leaves and the transfers
/// and events it asks for.
pub enum BatchOutcome {
    Refused(ContractError),
    Done(StorageView, Seq<Transfer>, Seq<ContractEvent>),
}

/// The outcome of funding the `items` in order, from storage `s`.
pub open spec fn batch_run(s: StorageView, funder: Address, contract: Address, items: Seq<(u64, i128)>) -> BatchOutcome
    decreases items.len(),
{
    if items.len() == 0 {
        BatchOutcome::Done(s, Seq::empty(), Seq::empty())
    } else {
        match batch_run(s, funder, contract, items.drop_last()) {
            BatchOutcome::Done(s1, ts, es) => {
                let grant_id = items.last().0;
                let amount = items.last().1;
                match batch_item_error(s1, grant_id, funder, amount) {
                    Some(e) => BatchOutcome::Refused(e),
                    None => {
                        let g = s1.grants[grant_id];
                        let g2 = batch_funded_grant(g, funder, amount);
                        BatchOutcome::Done(
                            StorageView { grants: s1.grants.insert(grant_id, g2), ..s1 },
                            ts.push(Transfer { token: g.token, from: funder, to: contract, amount }),
                            es.push(
                                ContractEvent::GrantFunded {
                                    grant_id,
                                    funder,
                                    amount,
                                    escrow_balance: g2.escrow_balance,
                                },
                            ),
                        )
                    },
                }
            },
            other => other,
        }
    }
}

/// Once a prefix of a batch stops, the whole batch stops the same way.
pub proof fn lemma_batch_stops(s: StorageView, funder: Address, contract: Address, items: Seq<(u64, i128)>, k: int)
    requires
        0 <= k <= items.len(),
        !(batch_run(s, funder, contract, items.take(k)) is Done),
    ensures
        batch_run(s, funder, contract, items) == batch_run(s, funder, contract, items.take(k)),
    decreases items.len(),
{
    if k < items.len() {
        assert(items.drop_last().take(k) =~= items.take(k));
        lemma_batch_stops(s, funder, contract, items.drop_last(), k);
    } else {
        assert(items.take(k) =~= items);
    }
}

/// The position of the first entry of `funder` in `fs`, if any.
pub fn first_funder_position(fs: &Vec<GrantFund>, funder: Address) -> (r: Option<usize>)
    ensures
        match r {
            Some(p) => p < fs@.len() && p as int == first_entry(fs@, funder),
            None => first_entry(fs@, funder) == -1,
        },
{
    let n = fs.len();
    let mut i: usize = 0;
    while i < n
        invariant
            n == fs@.len(),
            i <= n,
            first_entry(fs@, funder) == first_entry_from(fs@, funder, i as int),
        decreases n - i,
    {
        if fs[i].funder.same(&funder) {
            return Some(i);
        }
        i = i + 1;
    }
    None
}

impl StellarGrantsContract {
    /// `funder` deposits `amount` of the grant's token into its escrow, and must authorize the call.
    /// The escrow balance grows by `amount`, and so does the first funder entry of `funder`, or a
    /// new entry records it.
    pub fn grant_fund(env: &mut Env, grant_id: u64, funder: Address, amount: i128) -> (r: Result<
        (),
        ContractError,
    >)
        requires
            authorizes(old(env)@, funder),
        ensures
            r == match fund_error(old(env)@.storage, grant_id, funder, amount) {
                Some(e) => Err(e),
                None => Ok::<(), ContractError>(()),
            },
            r is Err ==> final(env)@ == old(env)@,
            r is Ok ==> {
                let g = old(env)@.storage.grants[grant_id];
                let g2 = funded_grant(g, funder, amount);
                final(env)@ == env_after(
                    old(env)@,
                    StorageView { grants: old(env)@.storage.grants.insert(grant_id, g2), ..old(env)@.storage },
                    seq![Transfer { token: g.token, from: funder, to: old(env)@.current_contract, amount }],
                    seq![
                        ContractEvent::GrantFunded {
                            grant_id,
                            funder,
                            amount,
                            escrow_balance: g2.escrow_balance,
                        },
                    ],
                )
            },
    {
        if !env.is_authorized(&funder) {
            return Err(ContractError::Unauthorized);
        }
        if amount <= 0 {
            return Err(ContractError::InvalidInput);
        }
        let mut grant = match env.storage.get_grant(grant_id) {
            Some(g) => g,
            None => {
                return Err(ContractError::GrantNotFound);
            },
        };
        if grant.status != GrantStatus::Active {
            return Err(ContractError::InvalidState);
        }
        let ghost g0 = grant@;
        let new_balance = match grant.escrow_balance.checked_add(amount) {
            Some(b) => b,
            None => {
                return Err(ContractError::InvalidInput);
            },
        };
        let found = first_funder_position(&grant.funders, funder);
        match found {
            Some(p) => {
                let entry = grant.funders[p];
                let new_amount = match entry.amount.checked_add(amount) {
                    Some(a) => a,
                    None => {
                        return Err(ContractError::InvalidInput);
                    },
                };
                grant.funders.set(p, GrantFund { funder, amount: new_amount });
            },
            None => {
                grant.funders.push(GrantFund { funder, amount });
            },
        }
        grant.escrow_balance = new_balance;
        proof {
            assert(grant@ =~= funded_grant(g0, funder, amount));
        }
        env.storage.set_grant(grant_id, &grant);
        env.transfers.push(Transfer { token: grant.token, from: funder, to: env.current_contract, amount });
        env.events.push(ContractEvent::GrantFunded { grant_id, funder, amount, escrow_balance: new_balance });
        Ok(())
    }

    /// `funder` funds several grants at once, item by item as [`Self::grant_fund`] would, except
    /// that every funder entry of `funder` grows; `funder` must authorize the call. An empty batch,
    /// a batch of more than [`MAX_BATCH`] items, or any item that fails leaves everything as it was.
    pub fn fund_batch(env: &mut Env, funder: Address, grants: Vec<(u64, i128)>) -> (r: Result<
        (),
        ContractError,
    >)
        requires
            authorizes(old(env)@, funder),
        ensures
            grants@.len() == 0 ==> r == Err::<(), ContractError>(ContractError::BatchEmpty),
            grants@.len() > MAX_BATCH ==> r == Err::<(), ContractError>(ContractError::BatchTooLarge),
            1 <= grants@.len() <= MAX_BATCH ==> match batch_run(
                old(env)@.storage,
                funder,
                old(env)@.current_contract,
                grants@,
            ) {
                BatchOutcome::Refused(e) => r == Err::<(), ContractError>(e),
                BatchOutcome::Done(s, ts, es) => r is Ok && final(env)@ == env_after(old(env)@, s, ts, es),
            },
            r is Err ==> final(env)@ == old(env)@,
    {
        if !env.is_authorized(&funder) {
            return Err(ContractError::Unauthorized);
        }
        let batch_len = grants.len();
        if batch_len == 0 {
            return Err(ContractError::BatchEmpty);
        }
        if batch_len > MAX_BATCH {
            return Err(ContractError::BatchTooLarge);
        }
        let ghost e0 = env@;
        let contract = env.current_contract;
        let snapshot = env.storage.duplicate();
        let n_transfers = env.transfers.len();
        let n_events = env.events.len();
        let mut k: usize = 0;
        while k < batch_len
            invariant
                batch_len == grants@.len(),
                1 <= batch_len <= MAX_BATCH,
                k <= batch_len,
                e0 == old(env)@,
                authorizes(e0, funder),
                contract == e0.current_contract,
                snapshot@ == e0.storage,
                n_transfers == e0.transfers.len(),
                n_events == e0.events.len(),
                batch_run(e0.storage, funder, contract, grants@.take(k as int)) matches BatchOutcome::Done(
                    s1,
                    ts,
                    es,
                ) && env@ == env_after(e0, s1, ts, es),
            decreases batch_len - k,
        {
            let ghost before = env@;
            let ghost prev = batch_run(e0.storage, funder, contract, grants@.take(k as int));
            let ghost ts = match prev {
                BatchOutcome::Done(_, t, _) => t,
                _ => Seq::empty(),
            };
            let ghost es = match prev {
                BatchOutcome::Done(_, _, e) => e,
                _ => Seq::empty(),
            };
            assert(before.transfers == e0.transfers + ts);
            assert(before.events == e0.events + es);
            proof {
                assert(grants@.take(k + 1).drop_last() =~= grants@.take(k as int));
                assert(grants@.take(k + 1).last() == grants@[k as int]);
            }
            let (grant_id, amount) = grants[k];
            let step = Self::batch_item(env, funder, grant_id, amount);
            match step {
                Err(e) => {
                    proof {
                        lemma_batch_stops(e0.storage, funder, contract, grants@, k + 1);
                    }
                    env.storage = snapshot;
                    env.transfers.truncate(n_transfers);
                    env.events.truncate(n_events);
                    proof {
                        assert(env.transfers@ =~= e0.transfers);
                        assert(env.events@ =~= e0.events);
                        assert(env@ =~= e0);
                    }
                    return Err(e);
                },
                Ok(()) => {
                    proof {
                        let next = batch_run(e0.storage, funder, contract, grants@.take(k + 1));
                        assert(next matches BatchOutcome::Done(s2, ts2, es2) && env@ =~= env_after(
                            e0,
                            s2,
                            ts2,
                            es2,
                        ));
                    }
                },
            }
            k = k + 1;
        }
        proof {
            assert(grants@.take(batch_len as int) =~= grants@);
        }
        Ok(())
    }

    /// One item of a batch, applied to `env` when it does not fail.
    pub(crate) fn batch_item(env: &mut Env, funder: Address, grant_id: u64, amount: i128) -> (r: Result<(), ContractError>)
        ensures
            r == match batch_item_error(old(env)@.storage, grant_id, funder, amount) {
                Some(e) => Err(e),
                None => Ok::<(), ContractError>(()),
            },
            r is Err ==> final(env)@ == old(env)@,
            r is Ok ==> {
                let s = old(env)@.storage;
                let g = s.grants[grant_id];
                let g2 = batch_funded_grant(g, funder, amount);
                final(env)@ == env_after(
                    old(env)@,
                    StorageView { grants: s.grants.insert(grant_id, g2), ..s },
                    seq![Transfer { token: g.token, from: funder, to: old(env)@.current_contract, amount }],
                    seq![
                        ContractEvent::GrantFunded {
                            grant_id,
                            funder,
                            amount,
                            escrow_balance: g2.escrow_balance,
                        },
                    ],
                )
            },
    {
        if amount <= 0 {
            return Err(ContractError::InvalidInput);
        }
        let grant = match env.storage.get_grant(grant_id) {
            Some(g) => g,
            None => {
                return Err(ContractError::GrantNotFound);
            },
        };
        if grant.status != GrantStatus::Active {
            return Err(ContractError::InvalidState);
        }
        let new_balance = match grant.escrow_balance.checked_add(amount) {
            Some(b) => b,
            None => {
                return Err(ContractError::InvalidInput);
            },
        };
        let ghost fs = grant.funders@;
        let n = grant.funders.len();
        let mut merged: Vec<GrantFund> = Vec::new();
        let mut found = false;
        let mut i: usize = 0;
        while i < n
            invariant
                n == fs.len(),
                fs == grant.funders@,
                env@ == old(env)@,
                amount > 0,
                old(env)@.storage.grants.contains_key(grant_id),
                fs == old(env)@.storage.grants[grant_id].funders,
                old(env)@.storage.grants[grant_id].status == GrantStatus::Active,
                fits_i128(old(env)@.storage.grants[grant_id].escrow_balance + amount),
                i <= n,
                forall|j: int| 0 <= j < i && (#[trigger] fs[j]).funder == funder ==> fits_i128(fs[j].amount + amount),
                merged@ =~= fs.subrange(0, i as int).map_values(|f: GrantFund| merged_entry(f, funder, amount)),
                found == exists|j: int| 0 <= j < i && (#[trigger] fs[j]).funder == funder,
            decreases n - i,
        {
            let f = grant.funders[i];
            if f.funder.same(&funder) {
                let grown = match f.amount.checked_add(amount) {
                    Some(a) => a,
                    None => {
                        assert(batch_item_overflows(fs, funder, amount)) by {
                            assert(fs[i as int].funder == funder && !fits_i128(fs[i as int].amount + amount));
                        }
                        return Err(ContractError::InvalidInput);
                    },
                };
                merged.push(GrantFund { funder: f.funder, amount: grown });
                found = true;
            } else {
                merged.push(f);
            }
            proof {
                assert(fs.subrange(0, i + 1).map_values(|f: GrantFund| merged_entry(f, funder, amount))
                    =~= fs.subrange(0, i as int).map_values(|f: GrantFund| merged_entry(f, funder, amount)).push(
                    merged_entry(fs[i as int], funder, amount),
                ));
            }
            i = i + 1;
        }
        if !found {
            merged.push(GrantFund { funder, amount });
        }
        proof {
            assert(fs.subrange(0, n as int) =~= fs);
            assert(!batch_item_overflows(fs, funder, amount));
        }
        let ghost g0 = grant@;
        let mut updated = grant;
        updated.funders = merged;
        updated.escrow_balance = new_balance;
        proof {
            assert(updated@ =~= batch_funded_grant(g0, funder, amount));
        }
        env.storage.set_grant(grant_id, &updated);
        env.transfers.push(Transfer { token: updated.token, from: funder, to: env.current_contract, amount });
        env.events.push(ContractEvent::GrantFunded { grant_id, funder, amount, escrow_balance: new_balance });
        Ok(())
    }
}

} // verus!
