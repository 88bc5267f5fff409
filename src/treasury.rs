//! The proposal lifecycle engine: signer registry, proposal store and
//! rate-limited dispatch, all held in one owned aggregate.
//!
//! Every operation is specified as a transition of [`TreasuryState`], the
//! abstract view of a [`Treasury`]; a failing operation leaves the state as
//! it was.
use vstd::prelude::*;
use crate::errors::{OracleError, TreasuryError};
use crate::model::{
    Address, LedgerCall, LedgerCallView, Proposal, ProposalStatus, ProposalView, ProposalType, TreasuryConfig,
    DEFAULT_DAILY_BURN_LIMIT, DEFAULT_DAILY_MINT_LIMIT, DEFAULT_SINGLE_OP_LIMIT, MAX_SIGNERS,
    PROPOSAL_EXPIRATION_LEDGERS,
};
use crate::rate_limit::{
    check_and_reserve, current_epoch, maybe_reset_daily_limits, reserve, LimitKind,
    RateLimitState,
};

verus! {

/// The abstract state of a treasury.
pub struct TreasuryState {
    /// The treasury's own identity.
    pub own_address: Address,
    pub config: TreasuryConfig,
    pub signers: Seq<Address>,
    pub threshold: u32,
    /// The proposal with id `k` stands at index `k - 1`.
    pub proposals: Seq<ProposalView>,
    /// Each recorded approval, as (proposal id, signer).
    pub approvals: Seq<(u64, Address)>,
    pub rate_limits: RateLimitState,
}

/// The proposal store, signer registry and rate limiter of one treasury.
pub struct Treasury {
    own_address: Address,
    config: TreasuryConfig,
    signers: Vec<Address>,
    threshold: u32,
    proposals: Vec<Proposal>,
    approvals: Vec<(u64, Address)>,
    rate_limits: RateLimitState,
}

impl View for Treasury {
    type V = TreasuryState;

    closed spec fn view(&self) -> TreasuryState {
        TreasuryState {
            own_address: self.own_address,
            config: self.config,
            signers: self.signers@,
            threshold: self.threshold,
            proposals: self.proposals@.map_values(|p: Proposal| p@),
            approvals: self.approvals@,
            rate_limits: self.rate_limits,
        }
    }
}

/// `s` without the element `a`.
pub open spec fn without(s: Seq<Address>, a: Address) -> Seq<Address> {
    s.remove(s.index_of(a))
}

/// How many approvals of proposal `id` are recorded in `approvals`.
pub open spec fn approvals_for(approvals: Seq<(u64, Address)>, id: u64) -> nat {
    approvals.filter(|x: (u64, Address)| x.0 == id).len()
}

/// Recording one more approval adds one to the count of its proposal and
/// leaves the others.
pub proof fn lemma_approvals_push(approvals: Seq<(u64, Address)>, x: (u64, Address), id: u64)
    ensures
        approvals_for(approvals.push(x), id) == approvals_for(approvals, id) + if x.0 == id {
            1nat
        } else {
            0nat
        },
{
    reveal(Seq::filter);
    assert(approvals.push(x).drop_last() =~= approvals);
}

/// A proposal none of whose approvals are recorded has a count of zero.
pub proof fn lemma_no_approvals(approvals: Seq<(u64, Address)>, id: u64)
    requires
        forall|j: int| 0 <= j < approvals.len() ==> (#[trigger] approvals[j]).0 != id,
    ensures
        approvals_for(approvals, id) == 0,
    decreases approvals.len(),
{
    reveal(Seq::filter);
    if approvals.len() > 0 {
        lemma_no_approvals(approvals.drop_last(), id);
    }
}

/// A proposal has passed its expiry height at `now`.
pub open spec fn expired(p: ProposalView, now: u32) -> bool {
    now > p.expires_at
}

impl TreasuryState {
    /// The invariants of a treasury: a non-empty signer set without
    /// repetitions and of at most `MAX_SIGNERS` members, a threshold between
    /// one and its size, proposals numbered from one, never stored as
    /// expired, minting or burning a positive amount, and each with an
    /// approval count equal to its recorded approvals, no approval recorded
    /// twice nor for a proposal that does not exist, and epoch counters
    /// within their caps.
    pub open spec fn valid(self) -> bool {
        &&& 1 <= self.signers.len() <= MAX_SIGNERS
        &&& self.signers.no_duplicates()
        &&& 1 <= self.threshold <= self.signers.len()
        &&& forall|i: int|
            0 <= i < self.proposals.len() ==> {
                &&& (#[trigger] self.proposals[i]).id == i + 1
                &&& self.proposals[i].status != ProposalStatus::Expired
                &&& (self.proposals[i].proposal_type == ProposalType::Mint
                    || self.proposals[i].proposal_type == ProposalType::Burn)
                    ==> self.proposals[i].amount > 0
                &&& self.proposals[i].approval_count == approvals_for(self.approvals, (i + 1) as u64)
            }
        &&& self.approvals.no_duplicates()
        &&& forall|j: int|
            0 <= j < self.approvals.len() ==> 1 <= (#[trigger] self.approvals[j]).0
                <= self.proposals.len()
        &&& 0 <= self.rate_limits.daily_minted <= self.config.daily_mint_limit
        &&& 0 <= self.rate_limits.daily_burned <= self.config.daily_burn_limit
    }

    pub open spec fn is_signer(self, a: Address) -> bool {
        self.signers.contains(a)
    }

    pub open spec fn has_proposal(self, id: u64) -> bool {
        1 <= id <= self.proposals.len()
    }

    pub open spec fn proposal(self, id: u64) -> ProposalView {
        self.proposals[id - 1]
    }

    pub open spec fn has_approved(self, id: u64, signer: Address) -> bool {
        self.approvals.contains((id, signer))
    }

    /// The id that the next proposal receives.
    pub open spec fn next_id(self) -> nat {
        self.proposals.len() + 1
    }

    /// Why a proposal of this type and these fields cannot be created, if
    /// it cannot.
    pub open spec fn propose_error(
        self,
        proposal_type: ProposalType,
        proposer: Address,
        target: Address,
        amount: i128,
        usdt_amount: i128,
    ) -> Option<TreasuryError> {
        if !self.is_signer(proposer) {
            Some(TreasuryError::NotASigner)
        } else {
            match proposal_type {
                ProposalType::Mint | ProposalType::Burn => {
                    if amount <= 0 {
                        Some(TreasuryError::InvalidAmount)
                    } else {
                        None
                    }
                },
                ProposalType::MintFromUsdt => {
                    if usdt_amount <= 0 {
                        Some(TreasuryError::InvalidUsdtAmount)
                    } else if self.config.oracle_address is None {
                        Some(TreasuryError::OracleNotConfigured)
                    } else {
                        None
                    }
                },
                ProposalType::AddSigner => {
                    if self.is_signer(target) {
                        Some(TreasuryError::SignerAlreadyExists)
                    } else if self.signers.len() >= MAX_SIGNERS {
                        Some(TreasuryError::TooManySigners)
                    } else {
                        None
                    }
                },
                ProposalType::RemoveSigner => {
                    if !self.is_signer(target) {
                        Some(TreasuryError::SignerNotFound)
                    } else if self.signers.len() <= 1 {
                        Some(TreasuryError::CannotRemoveLastSigner)
                    } else {
                        None
                    }
                },
                ProposalType::UpdateThreshold => {
                    if amount < 1 || amount > self.signers.len() {
                        Some(TreasuryError::InvalidThreshold)
                    } else {
                        None
                    }
                },
                ProposalType::UpdateRateLimits => Some(TreasuryError::InvalidProposalType),
                _ => None,
            }
        }
    }

    /// The proposal that a successful creation at height `now` stores.
    pub open spec fn created(
        self,
        proposal_type: ProposalType,
        proposer: Address,
        target: Address,
        amount: i128,
        usdt_amount: i128,
        external_ref: Seq<char>,
        now: u32,
    ) -> ProposalView {
        ProposalView {
            id: self.next_id() as u64,
            proposal_type,
            proposer,
            target,
            amount,
            usdt_amount,
            external_ref,
            created_at: now,
            expires_at: (now + PROPOSAL_EXPIRATION_LEDGERS) as u32,
            approval_count: 1,
            status: ProposalStatus::Pending,
        }
    }

    /// The state with `p` stored and its proposer's approval recorded.
    pub open spec fn with_proposal(self, p: ProposalView) -> TreasuryState {
        TreasuryState {
            proposals: self.proposals.push(p),
            approvals: self.approvals.push((p.id, p.proposer)),
            ..self
        }
    }

    /// Why `signer` cannot approve proposal `id` at `now`, if it cannot.
    pub open spec fn approve_error(self, signer: Address, id: u64, now: u32) -> Option<
        TreasuryError,
    > {
        if !self.is_signer(signer) {
            Some(TreasuryError::NotASigner)
        } else if !self.has_proposal(id) {
            Some(TreasuryError::ProposalNotFound)
        } else if self.proposal(id).status == ProposalStatus::Executed {
            Some(TreasuryError::ProposalAlreadyExecuted)
        } else if self.proposal(id).status != ProposalStatus::Pending {
            Some(TreasuryError::ProposalCancelled)
        } else if expired(self.proposal(id), now) {
            Some(TreasuryError::ProposalExpired)
        } else if self.has_approved(id, signer) {
            Some(TreasuryError::AlreadyApproved)
        } else {
            None
        }
    }

    /// The state after `signer` approves proposal `id`.
    pub open spec fn after_approve(self, signer: Address, id: u64) -> TreasuryState {
        let p = self.proposal(id);
        TreasuryState {
            proposals: self.proposals.update(
                id - 1,
                ProposalView { approval_count: (p.approval_count + 1) as u32, ..p },
            ),
            approvals: self.approvals.push((id, signer)),
            ..self
        }
    }

    /// Why `caller` cannot cancel proposal `id`, if it cannot.
    pub open spec fn cancel_error(self, caller: Address, id: u64) -> Option<TreasuryError> {
        if !self.has_proposal(id) {
            Some(TreasuryError::ProposalNotFound)
        } else if self.proposal(id).proposer != caller {
            Some(TreasuryError::NotProposer)
        } else if self.proposal(id).status == ProposalStatus::Executed {
            Some(TreasuryError::ProposalAlreadyExecuted)
        } else {
            None
        }
    }

    /// The state with proposal `id` given `status`.
    pub open spec fn with_status(self, id: u64, status: ProposalStatus) -> TreasuryState {
        TreasuryState {
            proposals: self.proposals.update(id - 1, ProposalView { status, ..self.proposal(id) }),
            ..self
        }
    }

    /// Why the stored proposal `id` cannot be executed at `now`, if it
    /// cannot: its status, its expiry, and its approvals against the
    /// threshold at this moment.
    pub open spec fn execution_error(self, id: u64, now: u32) -> Option<TreasuryError> {
        let p = self.proposal(id);
        if p.status == ProposalStatus::Executed {
            Some(TreasuryError::ProposalAlreadyExecuted)
        } else if p.status == ProposalStatus::Cancelled {
            Some(TreasuryError::ProposalCancelled)
        } else if expired(p, now) {
            Some(TreasuryError::ProposalExpired)
        } else if p.approval_count < self.threshold {
            Some(TreasuryError::InsufficientApprovals)
        } else {
            None
        }
    }

    /// Proposal `id` exists and may be executed at `now`.
    pub open spec fn executable(self, id: u64, now: u32) -> bool {
        self.has_proposal(id) && self.execution_error(id, now) is None
    }

    /// The state after a rate-limit reservation, or its failure.
    pub open spec fn reserve_then(
        self,
        kind: LimitKind,
        amount: i128,
        now: u32,
        call: LedgerCallView,
    ) -> Result<(TreasuryState, LedgerCallView), TreasuryError> {
        match reserve(self.rate_limits, self.config, kind, amount, now) {
            Ok(rl) => Ok((TreasuryState { rate_limits: rl, ..self }, call)),
            Err(e) => Err(e),
        }
    }

    /// The local effect of executing `p` at `now`, and the call it asks of
    /// the ledger. `quote` is the oracle's answer to converting
    /// `p.usdt_amount` at execution time; its refusal is carried through.
    pub open spec fn dispatch(self, p: ProposalView, now: u32, quote: Result<i128, OracleError>) -> Result<
        (TreasuryState, LedgerCallView),
        TreasuryError,
    > {
        match p.proposal_type {
            ProposalType::Mint => self.reserve_then(
                LimitKind::Mint,
                p.amount,
                now,
                LedgerCallView::Mint { to: p.target, amount: p.amount, external_ref: p.external_ref },
            ),
            ProposalType::Burn => self.reserve_then(
                LimitKind::Burn,
                p.amount,
                now,
                LedgerCallView::Burn {
                    from: p.target,
                    amount: p.amount,
                    external_ref: p.external_ref,
                },
            ),
            ProposalType::MintFromUsdt => {
                if self.config.oracle_address is None {
                    Err(TreasuryError::OracleNotConfigured)
                } else {
                    match quote {
                        Err(e) => Err(TreasuryError::Oracle(e)),
                        Ok(amount) => {
                            if amount <= 0 {
                                Err(TreasuryError::InvalidAmount)
                            } else {
                                self.reserve_then(
                                    LimitKind::Mint,
                                    amount,
                                    now,
                                    LedgerCallView::Mint {
                                        to: p.target,
                                        amount,
                                        external_ref: p.external_ref,
                                    },
                                )
                            }
                        },
                    }
                }
            },
            ProposalType::AddSigner => {
                if self.is_signer(p.target) {
                    Err(TreasuryError::SignerAlreadyExists)
                } else if self.signers.len() >= MAX_SIGNERS {
                    Err(TreasuryError::TooManySigners)
                } else {
                    Ok(
                        (
                            TreasuryState { signers: self.signers.push(p.target), ..self },
                            LedgerCallView::NoCall,
                        ),
                    )
                }
            },
            ProposalType::RemoveSigner => {
                if !self.is_signer(p.target) {
                    Err(TreasuryError::SignerNotFound)
                } else if self.signers.len() <= 1 {
                    Err(TreasuryError::CannotRemoveLastSigner)
                } else {
                    let rest = without(self.signers, p.target);
                    let t = if self.threshold > rest.len() {
                        rest.len() as u32
                    } else {
                        self.threshold
                    };
                    Ok(
                        (
                            TreasuryState { signers: rest, threshold: t, ..self },
                            LedgerCallView::NoCall,
                        ),
                    )
                }
            },
            ProposalType::UpdateThreshold => {
                if p.amount < 1 || p.amount > self.signers.len() {
                    Err(TreasuryError::InvalidThreshold)
                } else {
                    Ok(
                        (
                            TreasuryState {
                                threshold: p.amount as u32,
                                config: TreasuryConfig { threshold: p.amount as u32, ..self.config },
                                ..self
                            },
                            LedgerCallView::NoCall,
                        ),
                    )
                }
            },
            ProposalType::UpdateRateLimits => Err(TreasuryError::InvalidProposalType),
            ProposalType::EmergencyPause => Ok((self, LedgerCallView::Pause)),
            ProposalType::Unpause => Ok((self, LedgerCallView::Unpause)),
            ProposalType::FreezeAccount => Ok((self, LedgerCallView::Freeze { account: p.target })),
            ProposalType::UnfreezeAccount => Ok(
                (self, LedgerCallView::Unfreeze { account: p.target }),
            ),
            ProposalType::SetOracle => Ok(
                (
                    TreasuryState {
                        config: TreasuryConfig { oracle_address: Some(p.target), ..self.config },
                        ..self
                    },
                    LedgerCallView::NoCall,
                ),
            ),
        }
    }

    /// The outcome of `executor` executing proposal `id` at `now`: the new
    /// state, with the proposal marked executed, and the ledger call to make.
    pub open spec fn execute_outcome(
        self,
        executor: Address,
        id: u64,
        now: u32,
        quote: Result<i128, OracleError>,
    ) -> Result<(TreasuryState, LedgerCallView), TreasuryError> {
        if !self.is_signer(executor) {
            Err(TreasuryError::NotASigner)
        } else if !self.has_proposal(id) {
            Err(TreasuryError::ProposalNotFound)
        } else if let Some(e) = self.execution_error(id, now) {
            Err(e)
        } else {
            match self.dispatch(self.proposal(id), now, quote) {
                Ok((s, call)) => Ok((s.with_status(id, ProposalStatus::Executed), call)),
                Err(e) => Err(e),
            }
        }
    }
}

/// A successful approval keeps the treasury's invariants: the approval
/// count of the proposal still equals its recorded approvals.
pub proof fn lemma_approve_keeps_valid(s: TreasuryState, signer: Address, id: u64, now: u32)
    requires
        s.valid(),
        s.approve_error(signer, id, now) is None,
        s.proposal(id).approval_count < u32::MAX,
    ensures
        s.after_approve(signer, id).valid(),
{
    let t = s.after_approve(signer, id);
    assert forall|i: int| 0 <= i < t.proposals.len() implies (#[trigger] t.proposals[i]).approval_count
        == approvals_for(t.approvals, (i + 1) as u64) by {
        lemma_approvals_push(s.approvals, (id, signer), (i + 1) as u64);
        assert(s.proposals[i].approval_count == approvals_for(s.approvals, (i + 1) as u64));
    }
    assert forall|a: int, b: int|
        0 <= a < t.approvals.len() && 0 <= b < t.approvals.len() && a != b implies t.approvals[a]
        != t.approvals[b] by {
        if a < s.approvals.len() && b < s.approvals.len() {
            assert(s.approvals[a] != s.approvals[b]);
        } else if a < s.approvals.len() {
            assert(s.approvals.contains(s.approvals[a]));
        } else {
            assert(s.approvals.contains(s.approvals[b]));
        }
    }
    assert forall|i: int| 0 <= i < t.proposals.len() implies {
        &&& (#[trigger] t.proposals[i]).id == i + 1
        &&& t.proposals[i].status != ProposalStatus::Expired
        &&& (t.proposals[i].proposal_type == ProposalType::Mint || t.proposals[i].proposal_type
            == ProposalType::Burn) ==> t.proposals[i].amount > 0
        &&& t.proposals[i].approval_count == approvals_for(t.approvals, (i + 1) as u64)
    } by {
        lemma_approvals_push(s.approvals, (id, signer), (i + 1) as u64);
        assert(s.proposals[i].approval_count == approvals_for(s.approvals, (i + 1) as u64));
    }
}

/// Storing a new proposal with its proposer's approval keeps the
/// treasury's invariants.
pub proof fn lemma_with_proposal_keeps_valid(s: TreasuryState, p: ProposalView)
    requires
        s.valid(),
        p.id == s.next_id(),
        p.approval_count == 1,
        p.status != ProposalStatus::Expired,
        (p.proposal_type == ProposalType::Mint || p.proposal_type == ProposalType::Burn) ==> p.amount
            > 0,
    ensures
        s.with_proposal(p).valid(),
{
    let t = s.with_proposal(p);
    lemma_no_approvals(s.approvals, p.id);
    assert forall|i: int| 0 <= i < t.proposals.len() implies {
        &&& (#[trigger] t.proposals[i]).id == i + 1
        &&& t.proposals[i].status != ProposalStatus::Expired
        &&& (t.proposals[i].proposal_type == ProposalType::Mint || t.proposals[i].proposal_type
            == ProposalType::Burn) ==> t.proposals[i].amount > 0
        &&& t.proposals[i].approval_count == approvals_for(t.approvals, (i + 1) as u64)
    } by {
        lemma_approvals_push(s.approvals, (p.id, p.proposer), (i + 1) as u64);
        if i < s.proposals.len() {
            assert(s.proposals[i].approval_count == approvals_for(s.approvals, (i + 1) as u64));
        }
    }
    assert forall|a: int, b: int|
        0 <= a < t.approvals.len() && 0 <= b < t.approvals.len() && a != b implies t.approvals[a]
        != t.approvals[b] by {
        if a < s.approvals.len() && b < s.approvals.len() {
            assert(s.approvals[a] != s.approvals[b]);
        } else if a < s.approvals.len() {
            assert(s.approvals[a].0 <= s.proposals.len());
        } else if b < s.approvals.len() {
            assert(s.approvals[b].0 <= s.proposals.len());
        }
    }
}

/// Why a treasury cannot be set up with these signers and threshold, if it
/// cannot.
pub open spec fn initialize_error(signers: Seq<Address>, threshold: u32) -> Option<TreasuryError> {
    if signers.len() == 0 {
        Some(TreasuryError::InvalidThreshold)
    } else if signers.len() > MAX_SIGNERS {
        Some(TreasuryError::TooManySigners)
    } else if threshold == 0 || threshold > signers.len() {
        Some(TreasuryError::InvalidThreshold)
    } else if !signers.no_duplicates() {
        Some(TreasuryError::SignerAlreadyExists)
    } else {
        None
    }
}

/// The state of a treasury set up at height `now`, with the default caps
/// and no oracle.
pub open spec fn initial_state(
    own_address: Address,
    token_address: Address,
    signers: Seq<Address>,
    threshold: u32,
    now: u32,
) -> TreasuryState {
    TreasuryState {
        own_address,
        config: TreasuryConfig {
            token_address,
            oracle_address: None,
            threshold,
            daily_mint_limit: DEFAULT_DAILY_MINT_LIMIT,
            daily_burn_limit: DEFAULT_DAILY_BURN_LIMIT,
            single_op_limit: DEFAULT_SINGLE_OP_LIMIT,
        },
        signers,
        threshold,
        proposals: Seq::empty(),
        approvals: Seq::empty(),
        rate_limits: RateLimitState { daily_minted: 0, daily_burned: 0, last_reset_ledger: now },
    }
}

/// `post` and `r` are what creating a proposal from `pre` gives.
pub open spec fn proposed(
    pre: TreasuryState,
    post: TreasuryState,
    r: Result<u64, TreasuryError>,
    proposal_type: ProposalType,
    proposer: Address,
    target: Address,
    amount: i128,
    usdt_amount: i128,
    external_ref: Seq<char>,
    now: u32,
) -> bool {
    match pre.propose_error(proposal_type, proposer, target, amount, usdt_amount) {
        Some(e) => r == Err::<u64, TreasuryError>(e) && post == pre,
        None => {
            &&& r == Ok::<u64, TreasuryError>(pre.next_id() as u64)
            &&& post == pre.with_proposal(
                pre.created(proposal_type, proposer, target, amount, usdt_amount, external_ref, now),
            )
        },
    }
}

impl Treasury {
    pub open spec fn wf(&self) -> bool {
        self@.valid()
    }

    /// Sets up a treasury governed by `signers` with `threshold` approvals,
    /// the default rate limits, no oracle, and an epoch starting at `now`.
    pub fn initialize(
        own_address: Address,
        token_address: Address,
        signers: Vec<Address>,
        threshold: u32,
        now: u32,
    ) -> (r: Result<Treasury, TreasuryError>)
        ensures
            match r {
                Ok(t) => {
                    &&& initialize_error(signers@, threshold) is None
                    &&& t.wf()
                    &&& t@ == initial_state(own_address, token_address, signers@, threshold, now)
                },
                Err(e) => initialize_error(signers@, threshold) == Some(e),
            },
    {
        let n = signers.len();
        if n == 0 {
            return Err(TreasuryError::InvalidThreshold);
        }
        if n > MAX_SIGNERS as usize {
            return Err(TreasuryError::TooManySigners);
        }
        if threshold == 0 || threshold as usize > n {
            return Err(TreasuryError::InvalidThreshold);
        }
        let mut i: usize = 0;
        while i < n
            invariant
                n == signers.len(),
                0 < n <= MAX_SIGNERS,
                0 < threshold <= n,
                i <= n,
                forall|a: int, b: int| 0 <= a < b < i ==> signers@[a] != signers@[b],
            decreases n - i,
        {
            let mut j: usize = 0;
            while j < i
                invariant
                    n == signers.len(),
                    0 < n <= MAX_SIGNERS,
                    0 < threshold <= n,
                    j <= i < n,
                    forall|a: int| 0 <= a < j ==> signers@[a] != signers@[i as int],
                decreases i - j,
            {
                if signers[j] == signers[i] {
                    assert(!signers@.no_duplicates()) by {
                        assert(signers@[j as int] == signers@[i as int]);
                    }
                    return Err(TreasuryError::SignerAlreadyExists);
                }
                j += 1;
            }
            i += 1;
        }
        assert(signers@.no_duplicates()) by {
            assert forall|a: int, b: int|
                0 <= a < signers@.len() && 0 <= b < signers@.len() && a != b implies signers@[a]
                != signers@[b] by {
                if b < a {
                    assert(signers@[b] != signers@[a]);
                }
            }
        }
        let t = Treasury {
            own_address,
            config: TreasuryConfig {
                token_address,
                oracle_address: None,
                threshold,
                daily_mint_limit: DEFAULT_DAILY_MINT_LIMIT,
                daily_burn_limit: DEFAULT_DAILY_BURN_LIMIT,
                single_op_limit: DEFAULT_SINGLE_OP_LIMIT,
            },
            signers,
            threshold,
            proposals: Vec::new(),
            approvals: Vec::new(),
            rate_limits: RateLimitState { daily_minted: 0, daily_burned: 0, last_reset_ledger: now },
        };
        assert(t@.proposals =~= Seq::<ProposalView>::empty());
        Ok(t)
    }

    /// Position of `a` among the signers.
    fn find_signer(&self, a: Address) -> (r: Option<usize>)
        ensures
            match r {
                Some(k) => k < self@.signers.len() && self@.signers[k as int] == a,
                None => !self@.is_signer(a),
            },
    {
        let mut i: usize = 0;
        while i < self.signers.len()
            invariant
                i <= self.signers@.len(),
                forall|j: int| 0 <= j < i ==> self.signers@[j] != a,
            decreases self.signers.len() - i,
        {
            if self.signers[i] == a {
                return Some(i);
            }
            i += 1;
        }
        None
    }

    /// Whether `address` is a signer.
    pub fn is_signer(&self, address: Address) -> (r: bool)
        ensures
            r == self@.is_signer(address),
    {
        self.find_signer(address).is_some()
    }

    /// Whether `signer`'s approval of proposal `id` is recorded.
    fn has_approved(&self, id: u64, signer: Address) -> (r: bool)
        ensures
            r == self@.has_approved(id, signer),
    {
        let mut i: usize = 0;
        while i < self.approvals.len()
            invariant
                i <= self.approvals@.len(),
                forall|j: int| 0 <= j < i ==> self.approvals@[j] != (id, signer),
            decreases self.approvals.len() - i,
        {
            let (pid, who) = self.approvals[i];
            if pid == id && who == signer {
                assert(self.approvals@[i as int] == (id, signer));
                return true;
            }
            i += 1;
        }
        false
    }

    /// Why a proposal of this type and these fields cannot be created.
    fn propose_check(
        &self,
        proposal_type: ProposalType,
        proposer: Address,
        target: Address,
        amount: i128,
        usdt_amount: i128,
    ) -> (r: Option<TreasuryError>)
        ensures
            r == self@.propose_error(proposal_type, proposer, target, amount, usdt_amount),
    {
        if !self.is_signer(proposer) {
            return Some(TreasuryError::NotASigner);
        }
        let n = self.signers.len();
        match proposal_type {
            ProposalType::Mint | ProposalType::Burn => {
                if amount <= 0 {
                    return Some(TreasuryError::InvalidAmount);
                }
            },
            ProposalType::MintFromUsdt => {
                if usdt_amount <= 0 {
                    return Some(TreasuryError::InvalidUsdtAmount);
                }
                if self.config.oracle_address.is_none() {
                    return Some(TreasuryError::OracleNotConfigured);
                }
            },
            ProposalType::AddSigner => {
                if self.is_signer(target) {
                    return Some(TreasuryError::SignerAlreadyExists);
                }
                if n >= MAX_SIGNERS as usize {
                    return Some(TreasuryError::TooManySigners);
                }
            },
            ProposalType::RemoveSigner => {
                if !self.is_signer(target) {
                    return Some(TreasuryError::SignerNotFound);
                }
                if n <= 1 {
                    return Some(TreasuryError::CannotRemoveLastSigner);
                }
            },
            ProposalType::UpdateThreshold => {
                if amount < 1 || amount > n as i128 {
                    return Some(TreasuryError::InvalidThreshold);
                }
            },
            ProposalType::UpdateRateLimits => {
                return Some(TreasuryError::InvalidProposalType);
            },
            _ => {},
        }
        None
    }

    /// Creates a proposal of `proposal_type` with the proposer's approval
    /// recorded, open until `now + PROPOSAL_EXPIRATION_LEDGERS`, and returns
    /// its id.
    pub fn propose(
        &mut self,
        proposal_type: ProposalType,
        proposer: Address,
        target: Address,
        amount: i128,
        usdt_amount: i128,
        external_ref: String,
        now: u32,
    ) -> (r: Result<u64, TreasuryError>)
        requires
            old(self).wf(),
            now <= u32::MAX - PROPOSAL_EXPIRATION_LEDGERS,
            old(self)@.proposals.len() < u64::MAX,
        ensures
            final(self).wf(),
            proposed(
                old(self)@,
                final(self)@,
                r,
                proposal_type,
                proposer,
                target,
                amount,
                usdt_amount,
                external_ref@,
                now,
            ),
    {
        match self.propose_check(proposal_type, proposer, target, amount, usdt_amount) {
            Some(e) => return Err(e),
            None => {},
        }
        Ok(self.store_proposal(proposal_type, proposer, target, amount, usdt_amount, external_ref, now))
    }

    /// Stores a new pending proposal approved by its proposer, and returns
    /// its id.
    fn store_proposal(
        &mut self,
        proposal_type: ProposalType,
        proposer: Address,
        target: Address,
        amount: i128,
        usdt_amount: i128,
        external_ref: String,
        now: u32,
    ) -> (r: u64)
        requires
            old(self).wf(),
            now <= u32::MAX - PROPOSAL_EXPIRATION_LEDGERS,
            old(self)@.proposals.len() < u64::MAX,
            (proposal_type == ProposalType::Mint || proposal_type == ProposalType::Burn) ==> amount > 0,
        ensures
            final(self).wf(),
            r == old(self)@.next_id(),
            final(self)@ == old(self)@.with_proposal(
                old(self)@.created(proposal_type, proposer, target, amount, usdt_amount, external_ref@, now),
            ),
    {
        let id = self.proposals.len() as u64 + 1;
        let p = Proposal {
            id,
            proposal_type,
            proposer,
            target,
            amount,
            usdt_amount,
            external_ref,
            created_at: now,
            expires_at: now + PROPOSAL_EXPIRATION_LEDGERS,
            approval_count: 1,
            status: ProposalStatus::Pending,
        };
        let ghost pre = self@;
        let ghost pv = p@;
        self.proposals.push(p);
        self.approvals.push((id, proposer));
        assert(self@.proposals =~= pre.proposals.push(pv));
        assert(self@ == pre.with_proposal(pv));
        proof {
            lemma_with_proposal_keeps_valid(pre, pv);
        }
        id
    }

    /// Records `signer`'s approval of proposal `proposal_id` at height `now`.
    pub fn approve(&mut self, signer: Address, proposal_id: u64, now: u32) -> (r: Result<
        (),
        TreasuryError,
    >)
        requires
            old(self).wf(),
            old(self)@.has_proposal(proposal_id) ==> old(self)@.proposal(proposal_id).approval_count
                < u32::MAX,
        ensures
            final(self).wf(),
            match old(self)@.approve_error(signer, proposal_id, now) {
                Some(e) => r == Err::<(), TreasuryError>(e) && final(self)@ == old(self)@,
                None => r is Ok && final(self)@ == old(self)@.after_approve(signer, proposal_id),
            },
    {
        if !self.is_signer(signer) {
            return Err(TreasuryError::NotASigner);
        }
        if proposal_id == 0 || proposal_id > self.proposals.len() as u64 {
            return Err(TreasuryError::ProposalNotFound);
        }
        let idx = (proposal_id - 1) as usize;
        assert(self@.proposal(proposal_id) == self.proposals@[idx as int]@);
        let status = self.proposals[idx].status;
        if status != ProposalStatus::Pending {
            if status == ProposalStatus::Executed {
                return Err(TreasuryError::ProposalAlreadyExecuted);
            }
            return Err(TreasuryError::ProposalCancelled);
        }
        if now > self.proposals[idx].expires_at {
            return Err(TreasuryError::ProposalExpired);
        }
        if self.has_approved(proposal_id, signer) {
            return Err(TreasuryError::AlreadyApproved);
        }
        let ghost pre = self@;
        let count = self.proposals[idx].approval_count;
        self.proposals[idx].approval_count = count + 1;
        self.approvals.push((proposal_id, signer));
        assert(self@.proposals =~= pre.after_approve(signer, proposal_id).proposals);
        proof {
            lemma_approve_keeps_valid(pre, signer, proposal_id, now);
        }
        Ok(())
    }

    /// Cancels proposal `proposal_id` on behalf of `proposer`. Cancelling a
    /// cancelled proposal again succeeds and changes nothing.
    pub fn cancel(&mut self, proposer: Address, proposal_id: u64) -> (r: Result<(), TreasuryError>)
        requires
            old(self).wf(),
        ensures
            final(self).wf(),
            match old(self)@.cancel_error(proposer, proposal_id) {
                Some(e) => r == Err::<(), TreasuryError>(e) && final(self)@ == old(self)@,
                None => r is Ok && final(self)@ == old(self)@.with_status(
                    proposal_id,
                    ProposalStatus::Cancelled,
                ),
            },
    {
        if proposal_id == 0 || proposal_id > self.proposals.len() as u64 {
            return Err(TreasuryError::ProposalNotFound);
        }
        let idx = (proposal_id - 1) as usize;
        assert(self@.proposal(proposal_id) == self.proposals@[idx as int]@);
        if self.proposals[idx].proposer != proposer {
            return Err(TreasuryError::NotProposer);
        }
        if self.proposals[idx].status == ProposalStatus::Executed {
            return Err(TreasuryError::ProposalAlreadyExecuted);
        }
        let ghost pre = self@;
        self.proposals[idx].status = ProposalStatus::Cancelled;
        assert(self@.proposals =~= pre.with_status(
            proposal_id,
            ProposalStatus::Cancelled,
        ).proposals);
        Ok(())
    }

    /// Why the stored proposal `proposal_id` cannot be executed at `now`.
    fn check_proposal_executable(&self, proposal_id: u64, now: u32) -> (r: Option<TreasuryError>)
        requires
            self@.has_proposal(proposal_id),
        ensures
            r == self@.execution_error(proposal_id, now),
    {
        let n = self.proposals.len();
        assert(self@.proposals.len() == n);
        let idx = (proposal_id - 1) as usize;
        assert(self@.proposal(proposal_id) == self.proposals@[idx as int]@);
        let p = &self.proposals[idx];
        if p.status == ProposalStatus::Executed {
            return Some(TreasuryError::ProposalAlreadyExecuted);
        }
        if p.status == ProposalStatus::Cancelled {
            return Some(TreasuryError::ProposalCancelled);
        }
        if now > p.expires_at {
            return Some(TreasuryError::ProposalExpired);
        }
        if p.approval_count < self.threshold {
            return Some(TreasuryError::InsufficientApprovals);
        }
        None
    }

    /// Carries out the local effect of the stored proposal `proposal_id`
    /// and returns the ledger call it asks for.
    fn dispatch(&mut self, proposal_id: u64, now: u32, quote: Result<i128, OracleError>) -> (r: Result<
        LedgerCall,
        TreasuryError,
    >)
        requires
            old(self).wf(),
            old(self)@.has_proposal(proposal_id),
        ensures
            match old(self)@.dispatch(old(self)@.proposal(proposal_id), now, quote) {
                Ok((s, call)) => r matches Ok(c) && c@ == call && final(self)@ == s,
                Err(e) => r == Err::<LedgerCall, TreasuryError>(e) && final(self)@ == old(self)@,
            },
    {
        let ghost pre = self@;
        let n = self.proposals.len();
        assert(pre.proposals.len() == n);
        let idx = (proposal_id - 1) as usize;
        assert(pre.proposal(proposal_id) == self.proposals@[idx as int]@);
        let proposal_type = self.proposals[idx].proposal_type;
        let target = self.proposals[idx].target;
        let amount = self.proposals[idx].amount;
        match proposal_type {
            ProposalType::Mint => {
                match check_and_reserve(
                    &mut self.rate_limits,
                    &self.config,
                    LimitKind::Mint,
                    amount,
                    now,
                ) {
                    Ok(()) => {},
                    Err(e) => return Err(e),
                }
                let external_ref = self.proposals[idx].external_ref.clone();
                Ok(LedgerCall::Mint { to: target, amount, external_ref })
            },
            ProposalType::Burn => {
                match check_and_reserve(
                    &mut self.rate_limits,
                    &self.config,
                    LimitKind::Burn,
                    amount,
                    now,
                ) {
                    Ok(()) => {},
                    Err(e) => return Err(e),
                }
                let external_ref = self.proposals[idx].external_ref.clone();
                Ok(LedgerCall::Burn { from: target, amount, external_ref })
            },
            ProposalType::MintFromUsdt => {
                if self.config.oracle_address.is_none() {
                    return Err(TreasuryError::OracleNotConfigured);
                }
                let converted = match quote {
                    Err(e) => return Err(TreasuryError::Oracle(e)),
                    Ok(a) => a,
                };
                if converted <= 0 {
                    return Err(TreasuryError::InvalidAmount);
                }
                match check_and_reserve(
                    &mut self.rate_limits,
                    &self.config,
                    LimitKind::Mint,
                    converted,
                    now,
                ) {
                    Ok(()) => {},
                    Err(e) => return Err(e),
                }
                let external_ref = self.proposals[idx].external_ref.clone();
                Ok(LedgerCall::Mint { to: target, amount: converted, external_ref })
            },
            ProposalType::AddSigner => {
                if self.is_signer(target) {
                    return Err(TreasuryError::SignerAlreadyExists);
                }
                if self.signers.len() >= MAX_SIGNERS as usize {
                    return Err(TreasuryError::TooManySigners);
                }
                self.signers.push(target);
                assert(self@.signers.no_duplicates()) by {
                    assert forall|a: int, b: int|
                        0 <= a < self@.signers.len() && 0 <= b < self@.signers.len() && a != b
                        implies self@.signers[a] != self@.signers[b] by {
                        if a < pre.signers.len() && b < pre.signers.len() {
                            assert(pre.signers[a] != pre.signers[b]);
                        } else if a < pre.signers.len() {
                            assert(pre.signers.contains(pre.signers[a]));
                        } else {
                            assert(pre.signers.contains(pre.signers[b]));
                        }
                    }
                }
                Ok(LedgerCall::NoCall)
            },
            ProposalType::RemoveSigner => {
                let k = match self.find_signer(target) {
                    None => return Err(TreasuryError::SignerNotFound),
                    Some(k) => k,
                };
                if self.signers.len() <= 1 {
                    return Err(TreasuryError::CannotRemoveLastSigner);
                }
                assert(pre.signers.index_of(target) == k) by {
                    assert(pre.signers[k as int] == target);
                }
                self.signers.remove(k);
                if self.threshold as usize > self.signers.len() {
                    self.threshold = self.signers.len() as u32;
                }
                assert(self@.signers.no_duplicates()) by {
                    assert forall|a: int, b: int|
                        0 <= a < self@.signers.len() && 0 <= b < self@.signers.len() && a != b
                        implies self@.signers[a] != self@.signers[b] by {
                        let a2 = if a < k { a } else { a + 1 };
                        let b2 = if b < k { b } else { b + 1 };
                        assert(self@.signers[a] == pre.signers[a2]);
                        assert(self@.signers[b] == pre.signers[b2]);
                    }
                }
                Ok(LedgerCall::NoCall)
            },
            ProposalType::UpdateThreshold => {
                if amount < 1 || amount > self.signers.len() as i128 {
                    return Err(TreasuryError::InvalidThreshold);
                }
                self.threshold = amount as u32;
                self.config.threshold = amount as u32;
                Ok(LedgerCall::NoCall)
            },
            ProposalType::UpdateRateLimits => Err(TreasuryError::InvalidProposalType),
            ProposalType::EmergencyPause => Ok(LedgerCall::Pause),
            ProposalType::Unpause => Ok(LedgerCall::Unpause),
            ProposalType::FreezeAccount => Ok(LedgerCall::Freeze { account: target }),
            ProposalType::UnfreezeAccount => Ok(LedgerCall::Unfreeze { account: target }),
            ProposalType::SetOracle => {
                self.config.oracle_address = Some(target);
                Ok(LedgerCall::NoCall)
            },
        }
    }

    /// Executes proposal `proposal_id` on behalf of `executor` at height
    /// `now`, and returns the call that the value ledger must then make.
    /// `quote` is the oracle's answer to converting the proposal's quote
    /// amount, read at execution time; it is consulted only by
    /// quote-denominated mints, and the oracle's refusal is carried through.
    /// The caller makes the returned call and abandons the new state if that
    /// call fails.
    pub fn execute(
        &mut self,
        executor: Address,
        proposal_id: u64,
        now: u32,
        quote: Result<i128, OracleError>,
    ) -> (r: Result<LedgerCall, TreasuryError>)
        requires
            old(self).wf(),
        ensures
            final(self).wf(),
            match old(self)@.execute_outcome(executor, proposal_id, now, quote) {
                Ok((s, call)) => r matches Ok(c) && c@ == call && final(self)@ == s,
                Err(e) => r == Err::<LedgerCall, TreasuryError>(e) && final(self)@ == old(self)@,
            },
    {
        if !self.is_signer(executor) {
            return Err(TreasuryError::NotASigner);
        }
        if proposal_id == 0 || proposal_id > self.proposals.len() as u64 {
            return Err(TreasuryError::ProposalNotFound);
        }
        match self.check_proposal_executable(proposal_id, now) {
            Some(e) => return Err(e),
            None => {},
        }
        let call = match self.dispatch(proposal_id, now, quote) {
            Ok(c) => c,
            Err(e) => return Err(e),
        };
        let ghost mid = self@;
        let idx = (proposal_id - 1) as usize;
        self.proposals[idx].status = ProposalStatus::Executed;
        assert(self@.proposals =~= mid.with_status(proposal_id, ProposalStatus::Executed).proposals);
        Ok(call)
    }

    /// Proposes minting `amount` to `to`.
    pub fn propose_mint(
        &mut self,
        proposer: Address,
        to: Address,
        amount: i128,
        external_ref: String,
        now: u32,
    ) -> (r: Result<u64, TreasuryError>)
        requires
            old(self).wf(),
            now <= u32::MAX - PROPOSAL_EXPIRATION_LEDGERS,
            old(self)@.proposals.len() < u64::MAX,
        ensures
            final(self).wf(),
            proposed(
                old(self)@,
                final(self)@,
                r,
                ProposalType::Mint,
                proposer,
                to,
                amount,
                0,
                external_ref@,
                now,
            ),
    {
        self.propose(ProposalType::Mint, proposer, to, amount, 0, external_ref, now)
    }

    /// Proposes burning `amount` from `from`.
    pub fn propose_burn(
        &mut self,
        proposer: Address,
        from: Address,
        amount: i128,
        external_ref: String,
        now: u32,
    ) -> (r: Result<u64, TreasuryError>)
        requires
            old(self).wf(),
            now <= u32::MAX - PROPOSAL_EXPIRATION_LEDGERS,
            old(self)@.proposals.len() < u64::MAX,
        ensures
            final(self).wf(),
            proposed(
                old(self)@,
                final(self)@,
                r,
                ProposalType::Burn,
                proposer,
                from,
                amount,
                0,
                external_ref@,
                now,
            ),
    {
        self.propose(ProposalType::Burn, proposer, from, amount, 0, external_ref, now)
    }

    /// Proposes adding `new_signer` to the signer set.
    pub fn propose_add_signer(
        &mut self,
        proposer: Address,
        new_signer: Address,
        now: u32,
    ) -> (r: Result<u64, TreasuryError>)
        requires
            old(self).wf(),
            now <= u32::MAX - PROPOSAL_EXPIRATION_LEDGERS,
            old(self)@.proposals.len() < u64::MAX,
        ensures
            final(self).wf(),
            proposed(
                old(self)@,
                final(self)@,
                r,
                ProposalType::AddSigner,
                proposer,
                new_signer,
                0,
                0,
                Seq::<char>::empty(),
                now,
            ),
    {
        self.propose(ProposalType::AddSigner, proposer, new_signer, 0, 0, String::new(), now)
    }

    /// Proposes removing `signer_to_remove` from the signer set.
    pub fn propose_remove_signer(
        &mut self,
        proposer: Address,
        signer_to_remove: Address,
        now: u32,
    ) -> (r: Result<u64, TreasuryError>)
        requires
            old(self).wf(),
            now <= u32::MAX - PROPOSAL_EXPIRATION_LEDGERS,
            old(self)@.proposals.len() < u64::MAX,
        ensures
            final(self).wf(),
            proposed(
                old(self)@,
                final(self)@,
                r,
                ProposalType::RemoveSigner,
                proposer,
                signer_to_remove,
                0,
                0,
                Seq::<char>::empty(),
                now,
            ),
    {
        self.propose(
            ProposalType::RemoveSigner,
            proposer,
            signer_to_remove,
            0,
            0,
            String::new(),
            now,
        )
    }

    /// Proposes setting the threshold to `new_threshold`.
    pub fn propose_update_threshold(
        &mut self,
        proposer: Address,
        new_threshold: u32,
        now: u32,
    ) -> (r: Result<u64, TreasuryError>)
        requires
            old(self).wf(),
            now <= u32::MAX - PROPOSAL_EXPIRATION_LEDGERS,
            old(self)@.proposals.len() < u64::MAX,
        ensures
            final(self).wf(),
            proposed(
                old(self)@,
                final(self)@,
                r,
                ProposalType::UpdateThreshold,
                proposer,
                old(self)@.own_address,
                new_threshold as i128,
                0,
                Seq::<char>::empty(),
                now,
            ),
    {
        let own = self.own_address;
        self.propose(
            ProposalType::UpdateThreshold,
            proposer,
            own,
            new_threshold as i128,
            0,
            String::new(),
            now,
        )
    }

    /// Proposes pausing the value ledger.
    pub fn propose_emergency_pause(
        &mut self,
        proposer: Address,
        now: u32,
    ) -> (r: Result<u64, TreasuryError>)
        requires
            old(self).wf(),
            now <= u32::MAX - PROPOSAL_EXPIRATION_LEDGERS,
            old(self)@.proposals.len() < u64::MAX,
        ensures
            final(self).wf(),
            proposed(
                old(self)@,
                final(self)@,
                r,
                ProposalType::EmergencyPause,
                proposer,
                old(self)@.own_address,
                0,
                0,
                Seq::<char>::empty(),
                now,
            ),
    {
        let own = self.own_address;
        self.propose(ProposalType::EmergencyPause, proposer, own, 0, 0, String::new(), now)
    }

    /// Proposes unpausing the value ledger.
    pub fn propose_unpause(
        &mut self,
        proposer: Address,
        now: u32,
    ) -> (r: Result<u64, TreasuryError>)
        requires
            old(self).wf(),
            now <= u32::MAX - PROPOSAL_EXPIRATION_LEDGERS,
            old(self)@.proposals.len() < u64::MAX,
        ensures
            final(self).wf(),
            proposed(
                old(self)@,
                final(self)@,
                r,
                ProposalType::Unpause,
                proposer,
                old(self)@.own_address,
                0,
                0,
                Seq::<char>::empty(),
                now,
            ),
    {
        let own = self.own_address;
        self.propose(ProposalType::Unpause, proposer, own, 0, 0, String::new(), now)
    }

    /// Proposes freezing `account` on the value ledger.
    pub fn propose_freeze_account(
        &mut self,
        proposer: Address,
        account: Address,
        now: u32,
    ) -> (r: Result<u64, TreasuryError>)
        requires
            old(self).wf(),
            now <= u32::MAX - PROPOSAL_EXPIRATION_LEDGERS,
            old(self)@.proposals.len() < u64::MAX,
        ensures
            final(self).wf(),
            proposed(
                old(self)@,
                final(self)@,
                r,
                ProposalType::FreezeAccount,
                proposer,
                account,
                0,
                0,
                Seq::<char>::empty(),
                now,
            ),
    {
        self.propose(ProposalType::FreezeAccount, proposer, account, 0, 0, String::new(), now)
    }

    /// Proposes unfreezing `account` on the value ledger.
    pub fn propose_unfreeze_account(
        &mut self,
        proposer: Address,
        account: Address,
        now: u32,
    ) -> (r: Result<u64, TreasuryError>)
        requires
            old(self).wf(),
            now <= u32::MAX - PROPOSAL_EXPIRATION_LEDGERS,
            old(self)@.proposals.len() < u64::MAX,
        ensures
            final(self).wf(),
            proposed(
                old(self)@,
                final(self)@,
                r,
                ProposalType::UnfreezeAccount,
                proposer,
                account,
                0,
                0,
                Seq::<char>::empty(),
                now,
            ),
    {
        self.propose(ProposalType::UnfreezeAccount, proposer, account, 0, 0, String::new(), now)
    }

    /// Proposes using `oracle_address` as the price oracle.
    pub fn propose_set_oracle(
        &mut self,
        proposer: Address,
        oracle_address: Address,
        now: u32,
    ) -> (r: Result<u64, TreasuryError>)
        requires
            old(self).wf(),
            now <= u32::MAX - PROPOSAL_EXPIRATION_LEDGERS,
            old(self)@.proposals.len() < u64::MAX,
        ensures
            final(self).wf(),
            proposed(
                old(self)@,
                final(self)@,
                r,
                ProposalType::SetOracle,
                proposer,
                oracle_address,
                0,
                0,
                Seq::<char>::empty(),
                now,
            ),
    {
        self.propose(ProposalType::SetOracle, proposer, oracle_address, 0, 0, String::new(), now)
    }

    /// Proposes minting to `to` the base-unit equivalent of `usdt_amount`.
    /// `advisory` is the oracle's answer to converting `usdt_amount` now; a
    /// refusal is carried through, and a conversion is stored for reference
    /// only, since execution converts again.
    pub fn propose_mint_from_usdt(
        &mut self,
        proposer: Address,
        to: Address,
        usdt_amount: i128,
        external_ref: String,
        now: u32,
        advisory: Result<i128, OracleError>,
    ) -> (r: Result<u64, TreasuryError>)
        requires
            old(self).wf(),
            now <= u32::MAX - PROPOSAL_EXPIRATION_LEDGERS,
            old(self)@.proposals.len() < u64::MAX,
        ensures
            final(self).wf(),
            match advisory {
                Ok(a) => proposed(
                    old(self)@,
                    final(self)@,
                    r,
                    ProposalType::MintFromUsdt,
                    proposer,
                    to,
                    a,
                    usdt_amount,
                    external_ref@,
                    now,
                ),
                Err(oe) => final(self)@ == old(self)@ && r == Err::<u64, TreasuryError>(
                    match old(self)@.propose_error(ProposalType::MintFromUsdt, proposer, to, 0, usdt_amount) {
                        Some(e) => e,
                        None => TreasuryError::Oracle(oe),
                    },
                ),
            },
    {
        match self.propose_check(ProposalType::MintFromUsdt, proposer, to, 0, usdt_amount) {
            Some(e) => return Err(e),
            None => {},
        }
        match advisory {
            Err(e) => Err(TreasuryError::Oracle(e)),
            Ok(a) => Ok(
                self.store_proposal(ProposalType::MintFromUsdt, proposer, to, a, usdt_amount, external_ref, now),
            ),
        }
    }

    /// The stored proposal `proposal_id`.
    pub fn get_proposal(&self, proposal_id: u64) -> (r: Result<&Proposal, TreasuryError>)
        ensures
            self@.has_proposal(proposal_id) ==> (r matches Ok(p) && p@ == self@.proposal(proposal_id)),
            !self@.has_proposal(proposal_id) ==> (r matches Err(e) && e == TreasuryError::ProposalNotFound),
    {
        let n = self.proposals.len();
        assert(self@.proposals.len() == n);
        if proposal_id == 0 || proposal_id > n as u64 {
            return Err(TreasuryError::ProposalNotFound);
        }
        let idx = (proposal_id - 1) as usize;
        assert(self@.proposal(proposal_id) == self.proposals@[idx as int]@);
        Ok(&self.proposals[idx])
    }

    /// How many proposals were ever created.
    pub fn proposal_count(&self) -> (r: usize)
        ensures
            r == self@.proposals.len(),
    {
        self.proposals.len()
    }

    /// The signers, in order of admission.
    pub fn get_signers(&self) -> (r: &Vec<Address>)
        ensures
            r@ == self@.signers,
    {
        &self.signers
    }

    /// The number of approvals that execution currently requires.
    pub fn get_threshold(&self) -> (r: u32)
        ensures
            r == self@.threshold,
    {
        self.threshold
    }

    pub fn get_config(&self) -> (r: TreasuryConfig)
        ensures
            r == self@.config,
    {
        self.config
    }

    /// The rate-limit state as seen at `now`; reading it changes nothing.
    pub fn get_rate_limits(&self, now: u32) -> (r: RateLimitState)
        ensures
            r == current_epoch(self@.rate_limits, now),
    {
        maybe_reset_daily_limits(&self.rate_limits, now)
    }

    /// Whether proposal `proposal_id` exists and may be executed at `now`.
    pub fn can_execute(&self, proposal_id: u64, now: u32) -> (r: bool)
        ensures
            r == self@.executable(proposal_id, now),
    {
        let n = self.proposals.len();
        assert(self@.proposals.len() == n);
        if proposal_id == 0 || proposal_id > n as u64 {
            return false;
        }
        self.check_proposal_executable(proposal_id, now).is_none()
    }

    /// What may still be minted in the epoch current at `now`.
    pub fn remaining_mint_capacity(&self, now: u32) -> (r: i128)
        requires
            self.wf(),
        ensures
            r == self@.config.daily_mint_limit - current_epoch(self@.rate_limits, now).daily_minted,
    {
        let state = maybe_reset_daily_limits(&self.rate_limits, now);
        self.config.daily_mint_limit - state.daily_minted
    }

    /// What may still be burned in the epoch current at `now`.
    pub fn remaining_burn_capacity(&self, now: u32) -> (r: i128)
        requires
            self.wf(),
        ensures
            r == self@.config.daily_burn_limit - current_epoch(self@.rate_limits, now).daily_burned,
    {
        let state = maybe_reset_daily_limits(&self.rate_limits, now);
        self.config.daily_burn_limit - state.daily_burned
    }

    /// The configured price oracle.
    pub fn get_oracle(&self) -> (r: Result<Address, TreasuryError>)
        ensures
            match self@.config.oracle_address {
                Some(a) => r == Ok::<Address, TreasuryError>(a),
                None => r == Err::<Address, TreasuryError>(TreasuryError::OracleNotConfigured),
            },
    {
        match self.config.oracle_address {
            Some(a) => Ok(a),
            None => Err(TreasuryError::OracleNotConfigured),
        }
    }
}

} // verus!
