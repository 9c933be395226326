use vstd::prelude::*;
use crate::keyed::{KeyedList, MapKey, MapValue};

verus! {

/// Errors returned by the contract entry points.
#[derive(Debug, Clone, Copy, PartialEq, Eq, Structural)]
pub enum ContractError {
    GrantNotFound,
    Unauthorized,
    MilestoneAlreadyApproved,
    QuorumNotReached,
    DeadlinePassed,
    InvalidInput,
    InvalidState,
    AlreadyRegistered,
    NoRefundableAmount,
    NotAllMilestonesApproved,
    MilestoneNotSubmitted,
    AlreadyVoted,
    MilestoneAlreadySubmitted,
    MilestoneNotFound,
    InsufficientStake,
    StakeNotFound,
    BatchEmpty,
    BatchTooLarge,
    ReentrancyDetected,
}

impl ContractError {
    /// The numeric code under which the host reports this error.
    pub open spec fn spec_code(self) -> u32 {
        match self {
            ContractError::GrantNotFound => 1,
            ContractError::Unauthorized => 2,
            ContractError::MilestoneAlreadyApproved => 3,
            ContractError::QuorumNotReached => 4,
            ContractError::DeadlinePassed => 5,
            ContractError::InvalidInput => 6,
            ContractError::InvalidState => 7,
            ContractError::AlreadyRegistered => 8,
            ContractError::NoRefundableAmount => 9,
            ContractError::NotAllMilestonesApproved => 10,
            ContractError::MilestoneNotSubmitted => 11,
            ContractError::AlreadyVoted => 12,
            ContractError::MilestoneAlreadySubmitted => 13,
            ContractError::MilestoneNotFound => 14,
            ContractError::InsufficientStake => 15,
            ContractError::StakeNotFound => 16,
            ContractError::BatchEmpty => 17,
            ContractError::BatchTooLarge => 18,
            ContractError::ReentrancyDetected => 19,
        }
    }

    /// The numeric code under which the host reports this error.
    pub fn code(&self) -> (c: u32)
        ensures
            c == self.spec_code(),
    {
        match self {
            ContractError::GrantNotFound => 1,
            ContractError::Unauthorized => 2,
            ContractError::MilestoneAlreadyApproved => 3,
            ContractError::QuorumNotReached => 4,
            ContractError::DeadlinePassed => 5,
            ContractError::InvalidInput => 6,
            ContractError::InvalidState => 7,
            ContractError::AlreadyRegistered => 8,
            ContractError::NoRefundableAmount => 9,
            ContractError::NotAllMilestonesApproved => 10,
            ContractError::MilestoneNotSubmitted => 11,
            ContractError::AlreadyVoted => 12,
            ContractError::MilestoneAlreadySubmitted => 13,
            ContractError::MilestoneNotFound => 14,
            ContractError::InsufficientStake => 15,
            ContractError::StakeNotFound => 16,
            ContractError::BatchEmpty => 17,
            ContractError::BatchTooLarge => 18,
            ContractError::ReentrancyDetected => 19,
        }
    }
}


/// Whether an address names an account (a key pair) or a contract.
#[derive(Debug, Clone, Copy, PartialEq, Eq, Structural, Hash)]
pub enum AddressKind {
    Account,
    Contract,
}

/// A ledger address: its kind and its 32-byte payload, held as two halves.
#[derive(Debug, Clone, Copy, PartialEq, Eq, Structural, Hash)]
pub struct Address {
    pub kind: AddressKind,
    pub high: u128,
    pub low: u128,
}

impl View for Address {
    type V = Address;

    open spec fn view(&self) -> Address {
        *self
    }
}

impl Address {
    /// Whether two addresses are the same.
    pub fn same(&self, other: &Address) -> (r: bool)
        ensures
            r == (*self == *other),
    {
        *self == *other
    }
}

impl MapKey for Address {
    fn key_eq(&self, other: &Self) -> (r: bool) {
        *self == *other
    }

    fn key_copy(&self) -> (r: Self) {
        *self
    }
}

impl MapKey for u64 {
    fn key_eq(&self, other: &Self) -> (r: bool) {
        *self == *other
    }

    fn key_copy(&self) -> (r: Self) {
        *self
    }
}

impl MapKey for (u64, u32) {
    fn key_eq(&self, other: &Self) -> (r: bool) {
        self.0 == other.0 && self.1 == other.1
    }

    fn key_copy(&self) -> (r: Self) {
        (self.0, self.1)
    }
}

impl MapKey for (u64, Address) {
    fn key_eq(&self, other: &Self) -> (r: bool) {
        self.0 == other.0 && self.1 == other.1
    }

    fn key_copy(&self) -> (r: Self) {
        (self.0, self.1)
    }
}

impl MapValue for bool {
    fn value_copy(&self) -> (r: Self) {
        *self
    }
}

impl MapValue for u32 {
    fn value_copy(&self) -> (r: Self) {
        *self
    }
}

impl MapValue for i128 {
    fn value_copy(&self) -> (r: Self) {
        *self
    }
}

impl MapValue for Vec<u8> {
    fn value_copy(&self) -> (r: Self) {
        copy_vec(self)
    }
}

impl MapValue for Vec<Address> {
    fn value_copy(&self) -> (r: Self) {
        copy_vec(self)
    }
}

/// A copy of a vector of plain values.
pub fn copy_vec<T: Copy>(v: &Vec<T>) -> (r: Vec<T>)
    ensures
        r@ == v@,
{
    let n = v.len();
    let mut r: Vec<T> = Vec::new();
    let mut i: usize = 0;
    while i < n
        invariant
            n == v@.len(),
            i <= n,
            r@ =~= v@.subrange(0, i as int),
        decreases n - i,
    {
        r.push(v[i]);
        i = i + 1;
    }
    assert(r@ =~= v@);
    r
}

/// The texts that a list of texts holds.
pub open spec fn texts_view(v: Seq<Vec<u8>>) -> Seq<Seq<u8>> {
    v.map_values(|t: Vec<u8>| t@)
}

/// A copy of a list of texts.
pub fn copy_texts(v: &Vec<Vec<u8>>) -> (r: Vec<Vec<u8>>)
    ensures
        texts_view(r@) == texts_view(v@),
{
    let n = v.len();
    let mut r: Vec<Vec<u8>> = Vec::new();
    let mut i: usize = 0;
    while i < n
        invariant
            n == v@.len(),
            i <= n,
            texts_view(r@) =~= texts_view(v@.subrange(0, i as int)),
        decreases n - i,
    {
        let ghost before = r@;
        let t = copy_vec(&v[i]);
        r.push(t);
        proof {
            assert(v@.subrange(0, i + 1) =~= v@.subrange(0, i as int).push(v@[i as int]));
            assert(texts_view(r@) =~= texts_view(before).push(v@[i as int]@));
            assert(texts_view(v@.subrange(0, i + 1)) =~= texts_view(v@.subrange(0, i as int)).push(v@[i as int]@));
        }
        i = i + 1;
    }
    assert(v@.subrange(0, n as int) =~= v@);
    r
}

/// The text that an optional text holds.
pub open spec fn opt_text(o: Option<Vec<u8>>) -> Option<Seq<u8>> {
    match o {
        Some(s) => Some(s@),
        None => None,
    }
}

/// A copy of an optional text.
pub fn copy_opt_text(o: &Option<Vec<u8>>) -> (r: Option<Vec<u8>>)
    ensures
        opt_text(r) == opt_text(*o),
{
    match o {
        Some(s) => Some(copy_vec(s)),
        None => None,
    }
}

/// The lifecycle of a grant: it leaves `Active` once, for `Completed` or `Cancelled`.
#[derive(Debug, Clone, Copy, PartialEq, Eq, Structural)]
pub enum GrantStatus {
    Active,
    Completed,
    Cancelled,
}

/// The review state of a milestone.
#[derive(Debug, Clone, Copy, PartialEq, Eq, Structural)]
pub enum MilestoneState {
    Pending,
    Submitted,
    Approved,
    Rejected,
}

/// The amount one funder has put into a grant's escrow.
#[derive(Debug, Clone, Copy, PartialEq, Eq, Structural)]
pub struct GrantFund {
    pub funder: Address,
    pub amount: i128,
}

/// A milestone-based grant.
#[derive(Debug)]
pub struct Grant {
    pub id: u64,
    pub owner: Address,
    pub title: Vec<u8>,
    pub description: Vec<u8>,
    pub token: Address,
    pub status: GrantStatus,
    pub total_amount: i128,
    pub milestone_amount: i128,
    pub reviewers: Vec<Address>,
    pub total_milestones: u32,
    pub milestones_paid_out: u32,
    pub escrow_balance: i128,
    pub funders: Vec<GrantFund>,
    pub reason: Option<Vec<u8>>,
    pub timestamp: u64,
}

/// The mathematical content of a [`Grant`].
#[verifier::ext_equal]
pub struct GrantView {
    pub id: u64,
    pub owner: Address,
    pub title: Seq<u8>,
    pub description: Seq<u8>,
    pub token: Address,
    pub status: GrantStatus,
    pub total_amount: i128,
    pub milestone_amount: i128,
    pub reviewers: Seq<Address>,
    pub total_milestones: u32,
    pub milestones_paid_out: u32,
    pub escrow_balance: i128,
    pub funders: Seq<GrantFund>,
    pub reason: Option<Seq<u8>>,
    pub timestamp: u64,
}

impl View for Grant {
    type V = GrantView;

    open spec fn view(&self) -> GrantView {
        GrantView {
            id: self.id,
            owner: self.owner,
            title: self.title@,
            description: self.description@,
            token: self.token,
            status: self.status,
            total_amount: self.total_amount,
            milestone_amount: self.milestone_amount,
            reviewers: self.reviewers@,
            total_milestones: self.total_milestones,
            milestones_paid_out: self.milestones_paid_out,
            escrow_balance: self.escrow_balance,
            funders: self.funders@,
            reason: opt_text(self.reason),
            timestamp: self.timestamp,
        }
    }
}

impl MapValue for Grant {
    fn value_copy(&self) -> (r: Self) {
        Grant {
            id: self.id,
            owner: self.owner,
            title: copy_vec(&self.title),
            description: copy_vec(&self.description),
            token: self.token,
            status: self.status,
            total_amount: self.total_amount,
            milestone_amount: self.milestone_amount,
            reviewers: copy_vec(&self.reviewers),
            total_milestones: self.total_milestones,
            milestones_paid_out: self.milestones_paid_out,
            escrow_balance: self.escrow_balance,
            funders: copy_vec(&self.funders),
            reason: copy_opt_text(&self.reason),
            timestamp: self.timestamp,
        }
    }
}

/// A deliverable of a grant, with the votes cast on it.
#[derive(Debug)]
pub struct Milestone {
    pub idx: u32,
    pub description: Vec<u8>,
    pub amount: i128,
    pub state: MilestoneState,
    pub votes: KeyedList<Address, bool>,
    pub approvals: u32,
    pub rejections: u32,
    pub reasons: KeyedList<Address, Vec<u8>>,
    pub status_updated_at: u64,
    pub proof_url: Option<Vec<u8>>,
    pub submission_timestamp: u64,
}

/// The mathematical content of a [`Milestone`].
#[verifier::ext_equal]
pub struct MilestoneView {
    pub idx: u32,
    pub description: Seq<u8>,
    pub amount: i128,
    pub state: MilestoneState,
    pub votes: Map<Address, bool>,
    pub approvals: u32,
    pub rejections: u32,
    pub reasons: Map<Address, Seq<u8>>,
    pub status_updated_at: u64,
    pub proof_url: Option<Seq<u8>>,
    pub submission_timestamp: u64,
}

impl View for Milestone {
    type V = MilestoneView;

    open spec fn view(&self) -> MilestoneView {
        MilestoneView {
            idx: self.idx,
            description: self.description@,
            amount: self.amount,
            state: self.state,
            votes: self.votes@,
            approvals: self.approvals,
            rejections: self.rejections,
            reasons: self.reasons@,
            status_updated_at: self.status_updated_at,
            proof_url: opt_text(self.proof_url),
            submission_timestamp: self.submission_timestamp,
        }
    }
}

impl MapValue for Milestone {
    fn value_copy(&self) -> (r: Self) {
        Milestone {
            idx: self.idx,
            description: copy_vec(&self.description),
            amount: self.amount,
            state: self.state,
            votes: self.votes.duplicate(),
            approvals: self.approvals,
            rejections: self.rejections,
            reasons: self.reasons.duplicate(),
            status_updated_at: self.status_updated_at,
            proof_url: copy_opt_text(&self.proof_url),
            submission_timestamp: self.submission_timestamp,
        }
    }
}

/// A contributor's public profile.
#[derive(Debug)]
pub struct ContributorProfile {
    pub contributor: Address,
    pub name: Vec<u8>,
    pub bio: Vec<u8>,
    pub skills: Vec<Vec<u8>>,
    pub github_url: Vec<u8>,
    pub registration_timestamp: u64,
    pub grants_count: u32,
    pub total_earned: i128,
}

/// The mathematical content of a [`ContributorProfile`].
#[verifier::ext_equal]
pub struct ContributorProfileView {
    pub contributor: Address,
    pub name: Seq<u8>,
    pub bio: Seq<u8>,
    pub skills: Seq<Seq<u8>>,
    pub github_url: Seq<u8>,
    pub registration_timestamp: u64,
    pub grants_count: u32,
    pub total_earned: i128,
}

impl View for ContributorProfile {
    type V = ContributorProfileView;

    open spec fn view(&self) -> ContributorProfileView {
        ContributorProfileView {
            contributor: self.contributor,
            name: self.name@,
            bio: self.bio@,
            skills: texts_view(self.skills@),
            github_url: self.github_url@,
            registration_timestamp: self.registration_timestamp,
            grants_count: self.grants_count,
            total_earned: self.total_earned,
        }
    }
}

impl MapValue for ContributorProfile {
    fn value_copy(&self) -> (r: Self) {
        ContributorProfile {
            contributor: self.contributor,
            name: copy_vec(&self.name),
            bio: copy_vec(&self.bio),
            skills: copy_texts(&self.skills),
            github_url: copy_vec(&self.github_url),
            registration_timestamp: self.registration_timestamp,
            grants_count: self.grants_count,
            total_earned: self.total_earned,
        }
    }
}

/// How a grant's escrow is released.
#[derive(Debug, Clone, Copy, PartialEq, Eq, Structural)]
pub enum EscrowMode {
    Standard,
    Multisig,
}

/// Where a grant's escrow stands.
#[derive(Debug, Clone, Copy, PartialEq, Eq, Structural)]
pub enum EscrowLifecycleState {
    Funding,
    Released,
}

/// The release bookkeeping of a grant's escrow.
#[derive(Debug, Clone, Copy, PartialEq, Eq, Structural)]
pub struct EscrowState {
    pub mode: EscrowMode,
    pub lifecycle: EscrowLifecycleState,
    pub quorum_ready: bool,
    pub approvals_count: u32,
}

impl View for EscrowState {
    type V = EscrowState;

    open spec fn view(&self) -> EscrowState {
        *self
    }
}

impl MapValue for EscrowState {
    fn value_copy(&self) -> (r: Self) {
        *self
    }
}

} // verus!
