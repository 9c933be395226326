//! The environment a contract call runs in: storage, ledger time, and the calls' outgoing effects.
use vstd::prelude::*;
use crate::events::ContractEvent;
use crate::storage::{Storage, StorageView};
use crate::types::Address;

verus! {

/// A movement of `amount` units of the token contract `token` from `from` to `to`.
#[derive(Debug, Clone, Copy, PartialEq, Eq, Structural)]
pub struct Transfer {
    pub token: Address,
    pub from: Address,
    pub to: Address,
    pub amount: i128,
}

/// The host environment of the contract: persistent storage, the ledger time, the contract's own
/// address, the temporary reentrancy lock, the addresses that have authorized the current call, and
/// the token transfers and events that the calls so far have asked for, in order.
#[derive(Debug)]
pub struct Env {
    pub storage: Storage,
    pub ledger_timestamp: u64,
    pub current_contract: Address,
    pub reentrancy_locked: bool,
    pub authorized: Vec<Address>,
    pub transfers: Vec<Transfer>,
    pub events: Vec<ContractEvent>,
}

/// The mathematical content of an [`Env`].
#[verifier::ext_equal]
pub struct EnvView {
    pub storage: StorageView,
    pub ledger_timestamp: u64,
    pub current_contract: Address,
    pub reentrancy_locked: bool,
    pub authorized: Seq<Address>,
    pub transfers: Seq<Transfer>,
    pub events: Seq<ContractEvent>,
}

impl View for Env {
    type V = EnvView;

    open spec fn view(&self) -> EnvView {
        EnvView {
            storage: self.storage@,
            ledger_timestamp: self.ledger_timestamp,
            current_contract: self.current_contract,
            reentrancy_locked: self.reentrancy_locked,
            authorized: self.authorized@,
            transfers: self.transfers@,
            events: self.events@,
        }
    }
}

/// `old` after a call that left `storage` behind and asked for `transfers` and `events`.
pub open spec fn env_after(
    old: EnvView,
    storage: StorageView,
    transfers: Seq<Transfer>,
    events: Seq<ContractEvent>,
) -> EnvView {
    EnvView {
        storage,
        transfers: old.transfers + transfers,
        events: old.events + events,
        ..old
    }
}

/// Whether `who` has authorized the current call.
pub open spec fn authorizes(e: EnvView, who: Address) -> bool {
    e.authorized.contains(who)
}

impl Env {
    /// An environment with empty storage, at ledger time `ledger_timestamp`, for the contract at
    /// `current_contract`, where nobody has authorized anything yet.
    pub fn new(ledger_timestamp: u64, current_contract: Address) -> (r: Env)
        ensures
            r@.storage == Storage::new_view(),
            r@.ledger_timestamp == ledger_timestamp,
            r@.current_contract == current_contract,
            !r@.reentrancy_locked,
            r@.authorized == Seq::<Address>::empty(),
            r@.transfers == Seq::<Transfer>::empty(),
            r@.events == Seq::<ContractEvent>::empty(),
    {
        Env {
            storage: Storage::new(),
            ledger_timestamp,
            current_contract,
            reentrancy_locked: false,
            authorized: Vec::new(),
            transfers: Vec::new(),
            events: Vec::new(),
        }
    }

    /// Sets the ledger time that later calls see.
    pub fn set_ledger_timestamp(&mut self, ledger_timestamp: u64)
        ensures
            final(self)@ == (EnvView { ledger_timestamp, ..old(self)@ }),
    {
        self.ledger_timestamp = ledger_timestamp;
    }

    /// Records that `who` has authorized the calls that follow.
    pub fn authorize(&mut self, who: Address)
        ensures
            final(self)@ == (EnvView { authorized: old(self)@.authorized.push(who), ..old(self)@ }),
    {
        self.authorized.push(who);
    }

    /// Whether `who` has authorized the current call.
    pub fn is_authorized(&self, who: &Address) -> (r: bool)
        ensures
            r == authorizes(self@, *who),
    {
        let n = self.authorized.len();
        let mut i: usize = 0;
        while i < n
            invariant
                n == self.authorized@.len(),
                i <= n,
                forall|j: int| 0 <= j < i ==> self.authorized@[j] != *who,
            decreases n - i,
        {
            if self.authorized[i].same(who) {
                assert(self.authorized@[i as int] == *who);
                return true;
            }
            i = i + 1;
        }
        false
    }
}

} // verus!
