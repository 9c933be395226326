//! Events the contract publishes for off-chain indexers.
use vstd::prelude::*;
use crate::env::{Env, EnvView};
use crate::types::{Address, MilestoneState};

verus! {

/// The data of a milestone vote event.
#[derive(Debug, Clone, Copy, PartialEq, Eq, Structural)]
pub struct MilestoneVoted {
    pub reviewer: Address,
    pub approve: bool,
    pub timestamp: u64,
}

/// An event published by the contract, with the values that identify it.
#[derive(Debug)]
pub enum ContractEvent {
    GrantCreated { grant_id: u64, owner: Address, title: Vec<u8>, total_amount: i128 },
    ContributorRegistered { contributor: Address, name: Vec<u8> },
    RefundExecuted { grant_id: u64, funder: Address, amount: i128 },
    GrantCancelled { grant_id: u64, owner: Address, reason: Vec<u8>, total_refundable: i128 },
    FinalRefund { grant_id: u64, funder: Address, amount: i128 },
    GrantCompleted { grant_id: u64, total_paid: i128, remaining_balance: i128 },
    MilestoneStatusChanged { grant_id: u64, milestone_idx: u32, state: MilestoneState },
    Voted { grant_id: u64, milestone_idx: u32, vote: MilestoneVoted },
    MilestoneRejected { grant_id: u64, milestone_idx: u32, reviewer: Address, reason: Vec<u8> },
    MilestoneSubmitted { grant_id: u64, milestone_idx: u32, description: Vec<u8> },
    GrantFunded { grant_id: u64, funder: Address, amount: i128, escrow_balance: i128 },
}

/// The vote event for the voter on milestone `milestone_idx` of `grant_id`, stamped at `timestamp`.
pub open spec fn voted_event(
    grant_id: u64,
    milestone_idx: u32,
    reviewer: Address,
    approve: bool,
    timestamp: u64,
) -> ContractEvent {
    ContractEvent::Voted {
        grant_id,
        milestone_idx,
        vote: MilestoneVoted { reviewer, approve, timestamp },
    }
}

/// Publishes the vote event, topics `(grant_id, milestone_idx)`, data voter, vote and ledger time.
pub fn milestone_voted(env: &mut Env, grant_id: u64, milestone_idx: u32, reviewer: Address, approve: bool)
    ensures
        final(env)@ == (EnvView {
            events: old(env)@.events.push(
                voted_event(grant_id, milestone_idx, reviewer, approve, old(env)@.ledger_timestamp),
            ),
            ..old(env)@
        }),
{
    let timestamp = env.ledger_timestamp;
    env.events.push(ContractEvent::Voted {
        grant_id,
        milestone_idx,
        vote: MilestoneVoted { reviewer, approve, timestamp },
    });
}

} // verus!
