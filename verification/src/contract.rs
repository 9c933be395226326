//! The contract's entry points: grant creation, registration, milestone submission, staking.
//!
//! Each entry point runs against an [`Env`]. The acting address must have authorized the call
//! (see [`crate::env::authorizes`]): without that authorization the host aborts the call before
//! it starts, so each entry point requires it (and, called without it, returns `Unauthorized` and
//! does nothing). A call that returns an error leaves the
//! environment as it was: the host rolls the whole call back.
use vstd::prelude::*;
use crate::env::{authorizes, env_after, Env, EnvView, Transfer};
use crate::events::ContractEvent;
use crate::keyed::KeyedList;
use crate::storage::StorageView;
use crate::types::{
    copy_vec, texts_view, Address, ContractError, ContributorProfile, ContributorProfileView, Grant, GrantStatus,
    GrantView, Milestone, MilestoneState, MilestoneView,
};

verus! {

/// The length of a text, in bytes.
pub open spec fn text_len(t: Seq<u8>) -> nat {
    t.len()
}

/// The length of a text, in bytes.
pub fn byte_len(s: &Vec<u8>) -> (r: usize)
    ensures
        r == text_len(s@),
{
    s.len()
}

/// The most milestones a grant may have.
pub const MAX_MILESTONES: u32 = 100;

/// The longest contributor name, in bytes.
pub const MAX_NAME_LEN: usize = 100;

/// The longest contributor bio, in bytes.
pub const MAX_BIO_LEN: usize = 500;

/// The longest review feedback or rejection reason, in bytes.
pub const MAX_FEEDBACK_LEN: usize = 256;

/// The contract.
pub struct StellarGrantsContract;

/// Whether the amounts and milestone count of a new grant are acceptable: both amounts positive,
/// between 1 and [`MAX_MILESTONES`] milestones, and enough in total to pay every milestone.
pub open spec fn grant_terms_valid(total_amount: i128, milestone_amount: i128, num_milestones: u32) -> bool {
    &&& total_amount > 0
    &&& milestone_amount > 0
    &&& 1 <= num_milestones <= MAX_MILESTONES
    &&& milestone_amount * num_milestones <= total_amount
}

/// The grant that `grant_create` records.
pub open spec fn new_grant(
    grant_id: u64,
    owner: Address,
    title: Seq<u8>,
    description: Seq<u8>,
    token: Address,
    total_amount: i128,
    milestone_amount: i128,
    num_milestones: u32,
    reviewers: Seq<Address>,
    timestamp: u64,
) -> GrantView {
    GrantView {
        id: grant_id,
        owner,
        title,
        description,
        token,
        status: GrantStatus::Active,
        total_amount,
        milestone_amount,
        reviewers,
        total_milestones: num_milestones,
        milestones_paid_out: 0,
        escrow_balance: 0,
        funders: Seq::empty(),
        reason: None,
        timestamp,
    }
}

/// Whether a contributor name and bio are acceptable.
pub open spec fn profile_text_valid(name: Seq<u8>, bio: Seq<u8>) -> bool {
    &&& name.len() > 0
    &&& text_len(name) <= MAX_NAME_LEN
    &&& text_len(bio) <= MAX_BIO_LEN
}

/// The error `milestone_submit` returns, if any.
pub open spec fn submit_error(s: StorageView, grant_id: u64, milestone_idx: u32, recipient: Address) -> Option<
    ContractError,
> {
    if !s.grants.contains_key(grant_id) {
        Some(ContractError::GrantNotFound)
    } else if s.grants[grant_id].status != GrantStatus::Active {
        Some(ContractError::InvalidState)
    } else if milestone_idx >= s.grants[grant_id].total_milestones {
        Some(ContractError::InvalidInput)
    } else if s.grants[grant_id].owner != recipient {
        Some(ContractError::Unauthorized)
    } else if s.milestones.contains_key((grant_id, milestone_idx)) && (s.milestones[(
        grant_id,
        milestone_idx,
    )].state == MilestoneState::Submitted || s.milestones[(grant_id, milestone_idx)].state
        == MilestoneState::Approved) {
        Some(ContractError::MilestoneAlreadySubmitted)
    } else {
        None
    }
}

/// The milestone that `milestone_submit` records: submitted, with no votes yet, for the grant's
/// payout per milestone `amount`.
pub open spec fn submitted_milestone(
    milestone_idx: u32,
    description: Seq<u8>,
    amount: i128,
    proof_url: Seq<u8>,
    timestamp: u64,
) -> MilestoneView {
    MilestoneView {
        idx: milestone_idx,
        description,
        amount,
        state: MilestoneState::Submitted,
        votes: Map::empty(),
        approvals: 0,
        rejections: 0,
        reasons: Map::empty(),
        status_updated_at: 0,
        proof_url: Some(proof_url),
        submission_timestamp: timestamp,
    }
}

/// The error `get_milestone` returns, if any.
pub open spec fn lookup_milestone_error(s: StorageView, grant_id: u64, milestone_idx: u32) -> Option<
    ContractError,
> {
    if !s.grants.contains_key(grant_id) {
        Some(ContractError::GrantNotFound)
    } else if milestone_idx >= s.grants[grant_id].total_milestones {
        Some(ContractError::InvalidInput)
    } else if !s.milestones.contains_key((grant_id, milestone_idx)) {
        Some(ContractError::MilestoneNotFound)
    } else {
        None
    }
}

/// The error `stake_to_review` returns, if any: an unknown or inactive grant, an amount under the
/// minimum stake, or a new stake outside the `i128` range.
pub open spec fn stake_error(s: StorageView, grant_id: u64, reviewer: Address, amount: i128) -> Option<ContractError> {
    if !s.grants.contains_key(grant_id) {
        Some(ContractError::GrantNotFound)
    } else if s.grants[grant_id].status != GrantStatus::Active {
        Some(ContractError::InvalidState)
    } else if amount < s.min_stake() {
        Some(ContractError::InsufficientStake)
    } else if !(i128::MIN <= s.stake_of(grant_id, reviewer) + amount <= i128::MAX) {
        Some(ContractError::InvalidInput)
    } else {
        None
    }
}

/// The error `slash_reviewer` returns, if any.
pub open spec fn slash_error(s: StorageView, grant_id: u64, reviewer: Address) -> Option<ContractError> {
    if !s.grants.contains_key(grant_id) {
        Some(ContractError::GrantNotFound)
    } else if s.stake_of(grant_id, reviewer) <= 0 {
        Some(ContractError::StakeNotFound)
    } else if s.treasury is None {
        Some(ContractError::InvalidInput)
    } else {
        None
    }
}

/// The error `unstake` returns, if any.
pub open spec fn unstake_error(s: StorageView, grant_id: u64, reviewer: Address) -> Option<ContractError> {
    if !s.grants.contains_key(grant_id) {
        Some(ContractError::GrantNotFound)
    } else if s.grants[grant_id].status == GrantStatus::Active {
        Some(ContractError::InvalidState)
    } else if s.stake_of(grant_id, reviewer) <= 0 {
        Some(ContractError::StakeNotFound)
    } else {
        None
    }
}

/// Whether `who` is the contract's admin.
pub open spec fn is_admin(s: StorageView, who: Address) -> bool {
    s.global_admin == Some(who)
}

/// The error of an admin operation by `admin` that otherwise fails with `err`, if any: the caller
/// must be the stored admin.
pub open spec fn admin_error(e: EnvView, admin: Address, err: Option<ContractError>) -> Option<ContractError> {
    if !is_admin(e.storage, admin) {
        Some(ContractError::Unauthorized)
    } else {
        err
    }
}

/// `s` with the stake of the voter on `grant_id` set to `amount`.
pub open spec fn with_stake(s: StorageView, grant_id: u64, reviewer: Address, amount: i128) -> StorageView {
    StorageView { reviewer_stakes: s.reviewer_stakes.insert((grant_id, reviewer), amount), ..s }
}

impl StellarGrantsContract {
    /// Initializes the contract, always successfully; `admin`, who must authorize the call, becomes
    /// the contract's admin unless one is recorded already, which then stays.
    pub fn initialize(env: &mut Env, admin: Address) -> (r: Result<(), ContractError>)
        requires
            authorizes(old(env)@, admin),
        ensures
            r is Ok,
            old(env)@.storage.global_admin is Some ==> final(env)@ == old(env)@,
            old(env)@.storage.global_admin is None ==> final(env)@ == (EnvView {
                storage: StorageView { global_admin: Some(admin), ..old(env)@.storage },
                ..old(env)@
            }),
    {
        if env.storage.get_global_admin().is_none() {
            env.storage.set_global_admin(&admin);
        }
        Ok(())
    }

    /// Creates a milestone-based grant owned by `owner`, who must authorize the call, and returns its
    /// id, the next value of the grant counter. Fails with `InvalidInput` unless the terms are valid
    /// (see [`grant_terms_valid`]).
    pub fn grant_create(
        env: &mut Env,
        owner: Address,
        title: Vec<u8>,
        description: Vec<u8>,
        token: Address,
        total_amount: i128,
        milestone_amount: i128,
        num_milestones: u32,
        reviewers: Vec<Address>,
    ) -> (r: Result<u64, ContractError>)
        requires
            authorizes(old(env)@, owner),
            grant_terms_valid(total_amount, milestone_amount, num_milestones) ==> old(env)@.storage.counter()
                < u64::MAX,
        ensures
            r is Ok <==> grant_terms_valid(total_amount, milestone_amount, num_milestones),
            r is Err ==> r == Err::<u64, ContractError>(ContractError::InvalidInput),
            r is Err ==> final(env)@ == old(env)@,
            r matches Ok(id) ==> {
                let s = old(env)@.storage;
                &&& id == s.counter() + 1
                &&& final(env)@ == env_after(
                    old(env)@,
                    StorageView {
                        grant_counter: Some(id),
                        grants: s.grants.insert(
                            id,
                            new_grant(
                                id,
                                owner,
                                title@,
                                description@,
                                token,
                                total_amount,
                                milestone_amount,
                                num_milestones,
                                reviewers@,
                                old(env)@.ledger_timestamp,
                            ),
                        ),
                        ..s
                    },
                    Seq::empty(),
                    seq![ContractEvent::GrantCreated { grant_id: id, owner, title, total_amount }],
                )
            },
    {
        if !env.is_authorized(&owner) {
            return Err(ContractError::Unauthorized);
        }
        if total_amount <= 0 || milestone_amount <= 0 {
            return Err(ContractError::InvalidInput);
        }
        if num_milestones == 0 || num_milestones > MAX_MILESTONES {
            return Err(ContractError::InvalidInput);
        }
        let total_required = match milestone_amount.checked_mul(num_milestones as i128) {
            Some(t) => t,
            None => {
                return Err(ContractError::InvalidInput);
            },
        };
        if total_amount < total_required {
            return Err(ContractError::InvalidInput);
        }
        let grant_id = env.storage.increment_grant_counter();
        let stored_title = copy_vec(&title);
        let grant = Grant {
            id: grant_id,
            owner,
            title: stored_title,
            description,
            token,
            status: GrantStatus::Active,
            total_amount,
            milestone_amount,
            reviewers,
            total_milestones: num_milestones,
            milestones_paid_out: 0,
            escrow_balance: 0,
            funders: Vec::new(),
            reason: None,
            timestamp: env.ledger_timestamp,
        };
        env.storage.set_grant(grant_id, &grant);
        env.events.push(
            ContractEvent::GrantCreated { grant_id, owner, title, total_amount },
        );
        proof {
            assert(grant@ =~= new_grant(
                grant_id,
                owner,
                grant.title@,
                grant.description@,
                token,
                total_amount,
                milestone_amount,
                num_milestones,
                grant.reviewers@,
                env.ledger_timestamp,
            ));
        }
        Ok(grant_id)
    }

    /// Registers the profile of `contributor`, who must authorize the call. Fails with `InvalidInput` on an empty name, a name
    /// longer than [`MAX_NAME_LEN`] bytes or a bio longer than [`MAX_BIO_LEN`] bytes, and with
    /// `AlreadyRegistered` when a profile exists.
    pub fn contributor_register(
        env: &mut Env,
        contributor: Address,
        name: Vec<u8>,
        bio: Vec<u8>,
        skills: Vec<Vec<u8>>,
        github_url: Vec<u8>,
    ) -> (r: Result<(), ContractError>)
        requires
            authorizes(old(env)@, contributor),
        ensures
            r == match (if !profile_text_valid(name@, bio@) {
                Some(ContractError::InvalidInput)
            } else if old(env)@.storage.contributors.contains_key(contributor) {
                Some(ContractError::AlreadyRegistered)
            } else {
                None
            }) {
                Some(e) => Err(e),
                None => Ok::<(), ContractError>(()),
            },
            r is Err ==> final(env)@ == old(env)@,
            r is Ok ==> final(env)@ == env_after(
                old(env)@,
                StorageView {
                    contributors: old(env)@.storage.contributors.insert(
                        contributor,
                        ContributorProfileView {
                            contributor,
                            name: name@,
                            bio: bio@,
                            skills: texts_view(skills@),
                            github_url: github_url@,
                            registration_timestamp: old(env)@.ledger_timestamp,
                            grants_count: 0,
                            total_earned: 0,
                        },
                    ),
                    ..old(env)@.storage
                },
                Seq::empty(),
                seq![ContractEvent::ContributorRegistered { contributor, name }],
            ),
    {
        if !env.is_authorized(&contributor) {
            return Err(ContractError::Unauthorized);
        }
        if name.len() == 0 || byte_len(&name) > MAX_NAME_LEN {
            return Err(ContractError::InvalidInput);
        }
        if byte_len(&bio) > MAX_BIO_LEN {
            return Err(ContractError::InvalidInput);
        }
        if env.storage.get_contributor(contributor).is_some() {
            return Err(ContractError::AlreadyRegistered);
        }
        let stored_name = copy_vec(&name);
        let profile = ContributorProfile {
            contributor,
            name: stored_name,
            bio,
            skills,
            github_url,
            registration_timestamp: env.ledger_timestamp,
            grants_count: 0,
            total_earned: 0,
        };
        env.storage.set_contributor(contributor, &profile);
        env.events.push(ContractEvent::ContributorRegistered { contributor, name });
        Ok(())
    }

    /// The grant recipient submits milestone `milestone_idx` with a description and a proof URL; the
    /// recipient must authorize the call. The milestone is stored as submitted with no votes, for
    /// the grant's payout per milestone, replacing a pending or rejected one.
    pub fn milestone_submit(
        env: &mut Env,
        grant_id: u64,
        milestone_idx: u32,
        recipient: Address,
        description: Vec<u8>,
        proof_url: Vec<u8>,
    ) -> (r: Result<(), ContractError>)
        requires
            authorizes(old(env)@, recipient),
        ensures
            r == match submit_error(old(env)@.storage, grant_id, milestone_idx, recipient) {
                Some(e) => Err(e),
                None => Ok::<(), ContractError>(()),
            },
            r is Err ==> final(env)@ == old(env)@,
            r is Ok ==> final(env)@ == env_after(
                old(env)@,
                StorageView {
                    milestones: old(env)@.storage.milestones.insert(
                        (grant_id, milestone_idx),
                        submitted_milestone(
                            milestone_idx,
                            description@,
                            old(env)@.storage.grants[grant_id].milestone_amount,
                            proof_url@,
                            old(env)@.ledger_timestamp,
                        ),
                    ),
                    ..old(env)@.storage
                },
                Seq::empty(),
                seq![ContractEvent::MilestoneSubmitted { grant_id, milestone_idx, description }],
            ),
    {
        if !env.is_authorized(&recipient) {
            return Err(ContractError::Unauthorized);
        }
        let grant = match env.storage.get_grant(grant_id) {
            Some(g) => g,
            None => {
                return Err(ContractError::GrantNotFound);
            },
        };
        if grant.status != GrantStatus::Active {
            return Err(ContractError::InvalidState);
        }
        if milestone_idx >= grant.total_milestones {
            return Err(ContractError::InvalidInput);
        }
        if !grant.owner.same(&recipient) {
            return Err(ContractError::Unauthorized);
        }
        if let Some(existing) = env.storage.get_milestone(grant_id, milestone_idx) {
            if existing.state == MilestoneState::Submitted || existing.state == MilestoneState::Approved {
                return Err(ContractError::MilestoneAlreadySubmitted);
            }
        }
        let stored_description = copy_vec(&description);
        let milestone = Milestone {
            idx: milestone_idx,
            description: stored_description,
            amount: grant.milestone_amount,
            state: MilestoneState::Submitted,
            votes: KeyedList::new(),
            approvals: 0,
            rejections: 0,
            reasons: KeyedList::new(),
            status_updated_at: 0,
            proof_url: Some(proof_url),
            submission_timestamp: env.ledger_timestamp,
        };
        env.storage.set_milestone(grant_id, milestone_idx, &milestone);
        env.events.push(
            ContractEvent::MilestoneSubmitted { grant_id, milestone_idx, description },
        );
        proof {
            assert(milestone@ =~= submitted_milestone(
                milestone_idx,
                milestone.description@,
                grant.milestone_amount,
                proof_url@,
                env.ledger_timestamp,
            ));
        }
        Ok(())
    }

    /// The grant stored under `grant_id`, or `GrantNotFound`.
    pub fn get_grant(env: &Env, grant_id: u64) -> (r: Result<Grant, ContractError>)
        ensures
            r is Ok <==> env@.storage.grants.contains_key(grant_id),
            r is Err ==> r == Err::<Grant, ContractError>(ContractError::GrantNotFound),
            r matches Ok(g) ==> g@ == env@.storage.grants[grant_id],
    {
        match env.storage.get_grant(grant_id) {
            Some(g) => Ok(g),
            None => Err(ContractError::GrantNotFound),
        }
    }

    /// Milestone `milestone_idx` of grant `grant_id`. Fails with `GrantNotFound`, with
    /// `InvalidInput` for an index past the grant's milestones, and with `MilestoneNotFound` for a
    /// milestone that was never submitted.
    pub fn get_milestone(env: &Env, grant_id: u64, milestone_idx: u32) -> (r: Result<Milestone, ContractError>)
        ensures
            match lookup_milestone_error(env@.storage, grant_id, milestone_idx) {
                Some(e) => r == Err::<Milestone, ContractError>(e),
                None => r matches Ok(m) && m@ == env@.storage.milestones[(grant_id, milestone_idx)],
            },
    {
        let grant = match env.storage.get_grant(grant_id) {
            Some(g) => g,
            None => {
                return Err(ContractError::GrantNotFound);
            },
        };
        if milestone_idx >= grant.total_milestones {
            return Err(ContractError::InvalidInput);
        }
        match env.storage.get_milestone(grant_id, milestone_idx) {
            Some(m) => Ok(m),
            None => Err(ContractError::MilestoneNotFound),
        }
    }

    /// The voter feedback recorded on a milestone, by voter; fails as [`Self::get_milestone`].
    pub fn get_milestone_feedback(env: &Env, grant_id: u64, milestone_idx: u32) -> (r: Result<
        KeyedList<Address, Vec<u8>>,
        ContractError,
    >)
        ensures
            match lookup_milestone_error(env@.storage, grant_id, milestone_idx) {
                Some(e) => r == Err::<KeyedList<Address, Vec<u8>>, ContractError>(e),
                None => r matches Ok(f) && f@ == env@.storage.milestones[(grant_id, milestone_idx)].reasons,
            },
    {
        let milestone = Self::get_milestone(env, grant_id, milestone_idx)?;
        Ok(milestone.reasons)
    }

    /// The admin sets the minimum voter stake and the treasury for slashed stakes. Fails with
    /// `Unauthorized` unless `admin` is the contract's admin, and with
    /// `InvalidInput` unless `min_stake` is positive.
    pub fn set_staking_config(env: &mut Env, admin: Address, min_stake: i128, treasury: Address) -> (r:
        Result<(), ContractError>)
        requires
            authorizes(old(env)@, admin),
        ensures
            r == match admin_error(
                old(env)@,
                admin,
                if min_stake <= 0 { Some(ContractError::InvalidInput) } else { None },
            ) {
                Some(e) => Err(e),
                None => Ok::<(), ContractError>(()),
            },
            r is Err ==> final(env)@ == old(env)@,
            r is Ok ==> final(env)@ == (EnvView {
                storage: StorageView {
                    min_reviewer_stake: Some(min_stake),
                    treasury: Some(treasury),
                    ..old(env)@.storage
                },
                ..old(env)@
            }),
    {
        if !env.is_authorized(&admin) {
            return Err(ContractError::Unauthorized);
        }
        if !Self::admin_matches(env, &admin) {
            return Err(ContractError::Unauthorized);
        }
        if min_stake <= 0 {
            return Err(ContractError::InvalidInput);
        }
        env.storage.min_reviewer_stake = Some(min_stake);
        env.storage.treasury = Some(treasury);
        Ok(())
    }

    /// The admin sets the identity oracle used for KYC checks. Fails with `Unauthorized` unless
    /// `admin` is the contract's admin; `admin` must authorize the call.
    pub fn set_identity_oracle(env: &mut Env, admin: Address, oracle: Address) -> (r: Result<
        (),
        ContractError,
    >)
        requires
            authorizes(old(env)@, admin),
        ensures
            r == match admin_error(old(env)@, admin, None) {
                Some(e) => Err(e),
                None => Ok::<(), ContractError>(()),
            },
            r is Err ==> final(env)@ == old(env)@,
            r is Ok ==> final(env)@ == (EnvView {
                storage: StorageView { identity_oracle: Some(oracle), ..old(env)@.storage },
                ..old(env)@
            }),
    {
        if !env.is_authorized(&admin) {
            return Err(ContractError::Unauthorized);
        }
        if !Self::admin_matches(env, &admin) {
            return Err(ContractError::Unauthorized);
        }
        env.storage.identity_oracle = Some(oracle);
        Ok(())
    }

    /// Whether `who` is the contract's admin.
    fn admin_matches(env: &Env, who: &Address) -> (r: bool)
        ensures
            r == is_admin(env@.storage, *who),
    {
        match env.storage.get_global_admin() {
            Some(a) => a.same(who),
            None => false,
        }
    }

    /// The voter stakes `amount` of the grant's token to take part in its review, and must
    /// authorize the call: the tokens move to the contract and are added to the voter's stake on
    /// the grant. A new stake outside the `i128` range fails with `InvalidInput`.
    pub fn stake_to_review(env: &mut Env, reviewer: Address, grant_id: u64, amount: i128) -> (r: Result<
        (),
        ContractError,
    >)
        requires
            authorizes(old(env)@, reviewer),
        ensures
            r == match stake_error(old(env)@.storage, grant_id, reviewer, amount) {
                Some(e) => Err(e),
                None => Ok::<(), ContractError>(()),
            },
            r is Err ==> final(env)@ == old(env)@,
            r is Ok ==> final(env)@ == env_after(
                old(env)@,
                with_stake(
                    old(env)@.storage,
                    grant_id,
                    reviewer,
                    (old(env)@.storage.stake_of(grant_id, reviewer) + amount) as i128,
                ),
                seq![
                    Transfer {
                        token: old(env)@.storage.grants[grant_id].token,
                        from: reviewer,
                        to: old(env)@.current_contract,
                        amount,
                    },
                ],
                Seq::empty(),
            ),
    {
        if !env.is_authorized(&reviewer) {
            return Err(ContractError::Unauthorized);
        }
        let grant = match env.storage.get_grant(grant_id) {
            Some(g) => g,
            None => {
                return Err(ContractError::GrantNotFound);
            },
        };
        if grant.status != GrantStatus::Active {
            return Err(ContractError::InvalidState);
        }
        let min_stake = env.storage.get_min_reviewer_stake();
        if amount < min_stake {
            return Err(ContractError::InsufficientStake);
        }
        let current = env.storage.get_reviewer_stake(grant_id, &reviewer);
        let new_stake = match current.checked_add(amount) {
            Some(v) => v,
            None => {
                return Err(ContractError::InvalidInput);
            },
        };
        env.transfers.push(
            Transfer { token: grant.token, from: reviewer, to: env.current_contract, amount },
        );
        env.storage.set_reviewer_stake(grant_id, &reviewer, new_stake);
        Ok(())
    }

    /// The admin slashes the whole stake of the voter on `grant_id`, sending it to the treasury.
    /// Fails with `Unauthorized` unless `admin` is the contract's admin.
    pub fn slash_reviewer(env: &mut Env, admin: Address, grant_id: u64, reviewer: Address) -> (r: Result<
        (),
        ContractError,
    >)
        requires
            authorizes(old(env)@, admin),
        ensures
            r == match admin_error(old(env)@, admin, slash_error(old(env)@.storage, grant_id, reviewer)) {
                Some(e) => Err(e),
                None => Ok::<(), ContractError>(()),
            },
            r is Err ==> final(env)@ == old(env)@,
            r is Ok ==> final(env)@ == env_after(
                old(env)@,
                with_stake(old(env)@.storage, grant_id, reviewer, 0),
                seq![
                    Transfer {
                        token: old(env)@.storage.grants[grant_id].token,
                        from: old(env)@.current_contract,
                        to: old(env)@.storage.treasury->0,
                        amount: old(env)@.storage.stake_of(grant_id, reviewer),
                    },
                ],
                Seq::empty(),
            ),
    {
        if !env.is_authorized(&admin) {
            return Err(ContractError::Unauthorized);
        }
        if !Self::admin_matches(env, &admin) {
            return Err(ContractError::Unauthorized);
        }
        let grant = match env.storage.get_grant(grant_id) {
            Some(g) => g,
            None => {
                return Err(ContractError::GrantNotFound);
            },
        };
        let stake = env.storage.get_reviewer_stake(grant_id, &reviewer);
        if stake <= 0 {
            return Err(ContractError::StakeNotFound);
        }
        let treasury = match env.storage.get_treasury() {
            Some(t) => t,
            None => {
                return Err(ContractError::InvalidInput);
            },
        };
        env.transfers.push(
            Transfer { token: grant.token, from: env.current_contract, to: treasury, amount: stake },
        );
        env.storage.set_reviewer_stake(grant_id, &reviewer, 0);
        Ok(())
    }

    /// Returns the whole stake of the voter on `grant_id` once the grant is no longer active; the
    /// voter must authorize the call.
    pub fn unstake(env: &mut Env, reviewer: Address, grant_id: u64) -> (r: Result<(), ContractError>)
        requires
            authorizes(old(env)@, reviewer),
        ensures
            r == match unstake_error(old(env)@.storage, grant_id, reviewer) {
                Some(e) => Err(e),
                None => Ok::<(), ContractError>(()),
            },
            r is Err ==> final(env)@ == old(env)@,
            r is Ok ==> final(env)@ == env_after(
                old(env)@,
                with_stake(old(env)@.storage, grant_id, reviewer, 0),
                seq![
                    Transfer {
                        token: old(env)@.storage.grants[grant_id].token,
                        from: old(env)@.current_contract,
                        to: reviewer,
                        amount: old(env)@.storage.stake_of(grant_id, reviewer),
                    },
                ],
                Seq::empty(),
            ),
    {
        if !env.is_authorized(&reviewer) {
            return Err(ContractError::Unauthorized);
        }
        let grant = match env.storage.get_grant(grant_id) {
            Some(g) => g,
            None => {
                return Err(ContractError::GrantNotFound);
            },
        };
        if grant.status == GrantStatus::Active {
            return Err(ContractError::InvalidState);
        }
        let stake = env.storage.get_reviewer_stake(grant_id, &reviewer);
        if stake <= 0 {
            return Err(ContractError::StakeNotFound);
        }
        env.transfers.push(
            Transfer { token: grant.token, from: env.current_contract, to: reviewer, amount: stake },
        );
        env.storage.set_reviewer_stake(grant_id, &reviewer, 0);
        Ok(())
    }
}

} // verus!
