//! The contract's persistent storage and its typed accessors.
use vstd::prelude::*;
use crate::keyed::{KeyedList, MapValue};
use crate::types::{
    copy_vec, Address, ContributorProfile, ContributorProfileView, EscrowLifecycleState, EscrowMode,
    EscrowState, Grant, GrantView, Milestone, MilestoneView,
};

verus! {

/// The keys under which the contract keeps its persistent data.
#[derive(Debug, Clone, Copy, PartialEq, Eq, Structural)]
pub enum DataKey {
    Grant(u64),
    Milestone(u64, u32),
    GrantCounter,
    Contributor(Address),
    /// Voter stake amount for a grant: (grant_id, voter) -> i128
    ReviewerStake(u64, Address),
    /// Minimum stake required to review a grant
    MinReviewerStake,
    /// Treasury address for slashed stakes
    Treasury,
    /// Identity oracle contract address for KYC verification
    IdentityOracle,
    ReviewerReputation(Address),
    GlobalAdmin,
    Council,
    EscrowState(u64),
    MultisigSigners(u64),
    ReleaseSignerApproval(u64, Address),
}

/// Everything the contract keeps in persistent storage, one map or slot per kind of [`DataKey`].
#[derive(Debug)]
pub struct Storage {
    pub grants: KeyedList<u64, Grant>,
    pub milestones: KeyedList<(u64, u32), Milestone>,
    pub grant_counter: Option<u64>,
    pub contributors: KeyedList<Address, ContributorProfile>,
    pub reviewer_stakes: KeyedList<(u64, Address), i128>,
    pub min_reviewer_stake: Option<i128>,
    pub treasury: Option<Address>,
    pub identity_oracle: Option<Address>,
    pub reviewer_reputations: KeyedList<Address, u32>,
    pub global_admin: Option<Address>,
    pub council: Option<Address>,
    pub escrow_states: KeyedList<u64, EscrowState>,
    pub multisig_signers: KeyedList<u64, Vec<Address>>,
    pub release_approvals: KeyedList<(u64, Address), bool>,
}

/// The mathematical content of [`Storage`].
#[verifier::ext_equal]
pub struct StorageView {
    pub grants: Map<u64, GrantView>,
    pub milestones: Map<(u64, u32), MilestoneView>,
    pub grant_counter: Option<u64>,
    pub contributors: Map<Address, ContributorProfileView>,
    pub reviewer_stakes: Map<(u64, Address), i128>,
    pub min_reviewer_stake: Option<i128>,
    pub treasury: Option<Address>,
    pub identity_oracle: Option<Address>,
    pub reviewer_reputations: Map<Address, u32>,
    pub global_admin: Option<Address>,
    pub council: Option<Address>,
    pub escrow_states: Map<u64, EscrowState>,
    pub multisig_signers: Map<u64, Seq<Address>>,
    pub release_approvals: Map<(u64, Address), bool>,
}

impl View for Storage {
    type V = StorageView;

    open spec fn view(&self) -> StorageView {
        StorageView {
            grants: self.grants@,
            milestones: self.milestones@,
            grant_counter: self.grant_counter,
            contributors: self.contributors@,
            reviewer_stakes: self.reviewer_stakes@,
            min_reviewer_stake: self.min_reviewer_stake,
            treasury: self.treasury,
            identity_oracle: self.identity_oracle,
            reviewer_reputations: self.reviewer_reputations@,
            global_admin: self.global_admin,
            council: self.council,
            escrow_states: self.escrow_states@,
            multisig_signers: self.multisig_signers@,
            release_approvals: self.release_approvals@,
        }
    }
}

/// The escrow bookkeeping a grant has before any is recorded.
pub open spec fn default_escrow_state() -> EscrowState {
    EscrowState {
        mode: EscrowMode::Standard,
        lifecycle: EscrowLifecycleState::Funding,
        quorum_ready: false,
        approvals_count: 0,
    }
}

impl StorageView {
    /// The stake a voter holds on a grant (nothing recorded reads as 0).
    pub open spec fn stake_of(self, grant_id: u64, reviewer: Address) -> i128 {
        if self.reviewer_stakes.contains_key((grant_id, reviewer)) {
            self.reviewer_stakes[(grant_id, reviewer)]
        } else {
            0
        }
    }

    /// The minimum voter stake (nothing recorded reads as 0).
    pub open spec fn min_stake(self) -> i128 {
        match self.min_reviewer_stake {
            Some(m) => m,
            None => 0,
        }
    }

    /// A voter's reputation, the weight of its votes (nothing recorded reads as 1).
    pub open spec fn reputation_of(self, reviewer: Address) -> u32 {
        if self.reviewer_reputations.contains_key(reviewer) {
            self.reviewer_reputations[reviewer]
        } else {
            1
        }
    }

    /// The grant counter (nothing recorded reads as 0).
    pub open spec fn counter(self) -> u64 {
        match self.grant_counter {
            Some(c) => c,
            None => 0,
        }
    }

    /// A grant's escrow bookkeeping (nothing recorded reads as the default).
    pub open spec fn escrow_state_of(self, grant_id: u64) -> EscrowState {
        if self.escrow_states.contains_key(grant_id) {
            self.escrow_states[grant_id]
        } else {
            default_escrow_state()
        }
    }

    /// A grant's release signers (nothing recorded reads as none).
    pub open spec fn signers_of(self, grant_id: u64) -> Seq<Address> {
        if self.multisig_signers.contains_key(grant_id) {
            self.multisig_signers[grant_id]
        } else {
            Seq::empty()
        }
    }

    /// Whether a signer approved a grant's release (nothing recorded reads as false).
    pub open spec fn approval_of(self, grant_id: u64, signer: Address) -> bool {
        if self.release_approvals.contains_key((grant_id, signer)) {
            self.release_approvals[(grant_id, signer)]
        } else {
            false
        }
    }
}

impl Storage {
    /// The contents of storage with nothing recorded.
    pub open spec fn new_view() -> StorageView {
        StorageView {
            grants: Map::empty(),
            milestones: Map::empty(),
            grant_counter: None,
            contributors: Map::empty(),
            reviewer_stakes: Map::empty(),
            min_reviewer_stake: None,
            treasury: None,
            identity_oracle: None,
            reviewer_reputations: Map::empty(),
            global_admin: None,
            council: None,
            escrow_states: Map::empty(),
            multisig_signers: Map::empty(),
            release_approvals: Map::empty(),
        }
    }

    /// Storage with nothing recorded.
    pub fn new() -> (r: Storage)
        ensures
            r@ == Storage::new_view(),
    {
        Storage {
            grants: KeyedList::new(),
            milestones: KeyedList::new(),
            grant_counter: None,
            contributors: KeyedList::new(),
            reviewer_stakes: KeyedList::new(),
            min_reviewer_stake: None,
            treasury: None,
            identity_oracle: None,
            reviewer_reputations: KeyedList::new(),
            global_admin: None,
            council: None,
            escrow_states: KeyedList::new(),
            multisig_signers: KeyedList::new(),
            release_approvals: KeyedList::new(),
        }
    }

    /// A copy with the same contents.
    pub fn duplicate(&self) -> (r: Storage)
        ensures
            r@ == self@,
    {
        Storage {
            grants: self.grants.duplicate(),
            milestones: self.milestones.duplicate(),
            grant_counter: self.grant_counter,
            contributors: self.contributors.duplicate(),
            reviewer_stakes: self.reviewer_stakes.duplicate(),
            min_reviewer_stake: self.min_reviewer_stake,
            treasury: self.treasury,
            identity_oracle: self.identity_oracle,
            reviewer_reputations: self.reviewer_reputations.duplicate(),
            global_admin: self.global_admin,
            council: self.council,
            escrow_states: self.escrow_states.duplicate(),
            multisig_signers: self.multisig_signers.duplicate(),
            release_approvals: self.release_approvals.duplicate(),
        }
    }

    // --- Staking ---

    /// The stake the voter holds on `grant_id`, 0 when none is recorded.
    pub fn get_reviewer_stake(&self, grant_id: u64, reviewer: &Address) -> (r: i128)
        ensures
            r == self@.stake_of(grant_id, *reviewer),
    {
        match self.reviewer_stakes.get(&(grant_id, *reviewer)) {
            Some(v) => *v,
            None => 0,
        }
    }

    /// Records the stake the voter holds on `grant_id`.
    pub fn set_reviewer_stake(&mut self, grant_id: u64, reviewer: &Address, amount: i128)
        ensures
            final(self)@ == (StorageView {
                reviewer_stakes: old(self)@.reviewer_stakes.insert((grant_id, *reviewer), amount),
                ..old(self)@
            }),
    {
        self.reviewer_stakes.set((grant_id, *reviewer), amount);
    }

    /// The minimum stake a voter must put up, 0 when none is configured.
    pub fn get_min_reviewer_stake(&self) -> (r: i128)
        ensures
            r == self@.min_stake(),
    {
        match self.min_reviewer_stake {
            Some(m) => m,
            None => 0,
        }
    }

    /// The treasury that receives slashed stakes, if configured.
    pub fn get_treasury(&self) -> (r: Option<Address>)
        ensures
            r == self@.treasury,
    {
        self.treasury
    }

    /// The identity oracle used for KYC checks, if configured.
    pub fn get_identity_oracle(&self) -> (r: Option<Address>)
        ensures
            r == self@.identity_oracle,
    {
        self.identity_oracle
    }

    /// The global administrator, if set.
    pub fn get_global_admin(&self) -> (r: Option<Address>)
        ensures
            r == self@.global_admin,
    {
        self.global_admin
    }

    /// Records the global administrator.
    pub fn set_global_admin(&mut self, admin: &Address)
        ensures
            final(self)@ == (StorageView { global_admin: Some(*admin), ..old(self)@ }),
    {
        self.global_admin = Some(*admin);
    }

    /// The council, if set.
    pub fn get_council(&self) -> (r: Option<Address>)
        ensures
            r == self@.council,
    {
        self.council
    }

    /// Records the council.
    pub fn set_council(&mut self, council: &Address)
        ensures
            final(self)@ == (StorageView { council: Some(*council), ..old(self)@ }),
    {
        self.council = Some(*council);
    }

    // --- Grants and milestones ---

    /// A copy of the grant stored under `grant_id`, if any.
    pub fn get_grant(&self, grant_id: u64) -> (r: Option<Grant>)
        ensures
            r is Some <==> self@.grants.contains_key(grant_id),
            r matches Some(g) ==> g@ == self@.grants[grant_id],
    {
        match self.grants.get(&grant_id) {
            Some(g) => Some(g.value_copy()),
            None => None,
        }
    }

    /// Stores a copy of `grant` under `grant_id`.
    pub fn set_grant(&mut self, grant_id: u64, grant: &Grant)
        ensures
            final(self)@ == (StorageView { grants: old(self)@.grants.insert(grant_id, grant@), ..old(self)@ }),
    {
        self.grants.set(grant_id, grant.value_copy());
    }

    /// Whether a grant is stored under `grant_id`.
    pub fn has_grant(&self, grant_id: u64) -> (r: bool)
        ensures
            r == self@.grants.contains_key(grant_id),
    {
        self.grants.contains_key(&grant_id)
    }

    /// A copy of milestone `milestone_idx` of grant `grant_id`, if any.
    pub fn get_milestone(&self, grant_id: u64, milestone_idx: u32) -> (r: Option<Milestone>)
        ensures
            r is Some <==> self@.milestones.contains_key((grant_id, milestone_idx)),
            r matches Some(m) ==> m@ == self@.milestones[(grant_id, milestone_idx)],
    {
        match self.milestones.get(&(grant_id, milestone_idx)) {
            Some(m) => Some(m.value_copy()),
            None => None,
        }
    }

    /// Stores a copy of `milestone` as milestone `milestone_idx` of grant `grant_id`.
    pub fn set_milestone(&mut self, grant_id: u64, milestone_idx: u32, milestone: &Milestone)
        ensures
            final(self)@ == (StorageView {
                milestones: old(self)@.milestones.insert((grant_id, milestone_idx), milestone@),
                ..old(self)@
            }),
    {
        self.milestones.set((grant_id, milestone_idx), milestone.value_copy());
    }

    /// The grant counter: the id of the latest grant, 0 before any.
    pub fn get_grant_counter(&self) -> (r: u64)
        ensures
            r == self@.counter(),
    {
        match self.grant_counter {
            Some(c) => c,
            None => 0,
        }
    }

    /// Advances the grant counter by one and returns the new value, the next grant id.
    pub fn increment_grant_counter(&mut self) -> (r: u64)
        requires
            old(self)@.counter() < u64::MAX,
        ensures
            r == old(self)@.counter() + 1,
            final(self)@ == (StorageView { grant_counter: Some(r), ..old(self)@ }),
    {
        let counter: u64 = match self.grant_counter {
            Some(c) => c,
            None => 0,
        };
        let next = counter + 1;
        self.grant_counter = Some(next);
        next
    }

    // --- Contributors and reputation ---

    /// A copy of the profile registered for `contributor`, if any.
    pub fn get_contributor(&self, contributor: Address) -> (r: Option<ContributorProfile>)
        ensures
            r is Some <==> self@.contributors.contains_key(contributor),
            r matches Some(p) ==> p@ == self@.contributors[contributor],
    {
        match self.contributors.get(&contributor) {
            Some(p) => Some(p.value_copy()),
            None => None,
        }
    }

    /// Stores a copy of `profile` for `contributor`.
    pub fn set_contributor(&mut self, contributor: Address, profile: &ContributorProfile)
        ensures
            final(self)@ == (StorageView {
                contributors: old(self)@.contributors.insert(contributor, profile@),
                ..old(self)@
            }),
    {
        self.contributors.set(contributor, profile.value_copy());
    }

    /// The reputation of the voter, 1 when none is recorded.
    pub fn get_reviewer_reputation(&self, reviewer: Address) -> (r: u32)
        ensures
            r == self@.reputation_of(reviewer),
    {
        match self.reviewer_reputations.get(&reviewer) {
            Some(v) => *v,
            None => 1,
        }
    }

    /// Records the reputation of the voter.
    pub fn set_reviewer_reputation(&mut self, reviewer: Address, score: u32)
        ensures
            final(self)@ == (StorageView {
                reviewer_reputations: old(self)@.reviewer_reputations.insert(reviewer, score),
                ..old(self)@
            }),
    {
        self.reviewer_reputations.set(reviewer, score);
    }

    // --- Escrow release ---

    /// The escrow bookkeeping of `grant_id`, the default when none is recorded.
    pub fn get_escrow_state(&self, grant_id: u64) -> (r: EscrowState)
        ensures
            r == self@.escrow_state_of(grant_id),
    {
        match self.escrow_states.get(&grant_id) {
            Some(s) => *s,
            None => EscrowState {
                mode: EscrowMode::Standard,
                lifecycle: EscrowLifecycleState::Funding,
                quorum_ready: false,
                approvals_count: 0,
            },
        }
    }

    /// Records the escrow bookkeeping of `grant_id`.
    pub fn set_escrow_state(&mut self, grant_id: u64, state: &EscrowState)
        ensures
            final(self)@ == (StorageView {
                escrow_states: old(self)@.escrow_states.insert(grant_id, *state),
                ..old(self)@
            }),
    {
        self.escrow_states.set(grant_id, *state);
    }

    /// The release signers of `grant_id`, none when none are recorded.
    pub fn get_multisig_signers(&self, grant_id: u64) -> (r: Vec<Address>)
        ensures
            r@ == self@.signers_of(grant_id),
    {
        match self.multisig_signers.get(&grant_id) {
            Some(v) => copy_vec(v),
            None => Vec::new(),
        }
    }

    /// Records the release signers of `grant_id`.
    pub fn set_multisig_signers(&mut self, grant_id: u64, signers: &Vec<Address>)
        ensures
            final(self)@ == (StorageView {
                multisig_signers: old(self)@.multisig_signers.insert(grant_id, signers@),
                ..old(self)@
            }),
    {
        self.multisig_signers.set(grant_id, copy_vec(signers));
    }

    /// Whether `signer` approved the release of `grant_id`, false when nothing is recorded.
    pub fn has_release_approval(&self, grant_id: u64, signer: &Address) -> (r: bool)
        ensures
            r == self@.approval_of(grant_id, *signer),
    {
        match self.release_approvals.get(&(grant_id, *signer)) {
            Some(b) => *b,
            None => false,
        }
    }

    /// Records whether `signer` approved the release of `grant_id`.
    pub fn set_release_approval(&mut self, grant_id: u64, signer: &Address, approved: bool)
        ensures
            final(self)@ == (StorageView {
                release_approvals: old(self)@.release_approvals.insert((grant_id, *signer), approved),
                ..old(self)@
            }),
    {
        self.release_approvals.set((grant_id, *signer), approved);
    }
}

} // verus!
