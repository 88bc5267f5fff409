//! Properties of the treasury that relate several operations, proved over
//! the transitions of `TreasuryState` and of the rate limiter.
use vstd::prelude::*;
use crate::errors::{OracleError, TreasuryError};
use crate::model::{
    Address, LedgerCallView, ProposalStatus, ProposalType, ProposalView, TreasuryConfig,
};
use crate::rate_limit::{
    cap_error, current_epoch, epoch_cap, epoch_over, reserve, used, LimitKind, RateLimitState,
};
use crate::treasury::{approvals_for, expired, lemma_approve_keeps_valid, without, TreasuryState};

verus! {

/// A successful approval raises the proposal's approval count by exactly
/// one, records the approval and changes nothing else of the proposal; the
/// count stays equal to the number of distinct signers whose approvals are
/// recorded; and while the proposal stays open, a second approval by the
/// same signer fails with `AlreadyApproved`.
pub proof fn lemma_approval_counts_each_signer_once(
    s: TreasuryState,
    signer: Address,
    id: u64,
    now: u32,
    later: u32,
)
    requires
        s.valid(),
        s.approve_error(signer, id, now) is None,
        s.proposal(id).approval_count < u32::MAX,
        !expired(s.proposal(id), later),
    ensures
        s.after_approve(signer, id).proposal(id).approval_count == s.proposal(id).approval_count
            + 1,
        s.after_approve(signer, id).has_approved(id, signer),
        s.after_approve(signer, id).approve_error(signer, id, later) == Some(
            TreasuryError::AlreadyApproved,
        ),
        s.after_approve(signer, id).proposal(id) == (ProposalView {
            approval_count: (s.proposal(id).approval_count + 1) as u32,
            ..s.proposal(id)
        }),
        s.after_approve(signer, id).valid(),
        s.after_approve(signer, id).proposal(id).approval_count == approvals_for(
            s.after_approve(signer, id).approvals,
            id,
        ),
        s.after_approve(signer, id).approvals.no_duplicates(),
{
    lemma_approve_keeps_valid(s, signer, id, now);
    let t = s.after_approve(signer, id);
    assert(t.proposals[id - 1] == t.proposal(id));
    assert(t.approvals[t.approvals.len() - 1] == (id, signer));
}

/// No operation lowers the approval count of a stored proposal: approving
/// raises it, while creating, cancelling and executing proposals leave the
/// counts of stored proposals as they were.
pub proof fn lemma_approval_count_never_decreases(
    s: TreasuryState,
    k: u64,
    signer: Address,
    id: u64,
    now: u32,
    quote: Result<i128, OracleError>,
    p: ProposalView,
)
    requires
        s.valid(),
        s.has_proposal(k),
    ensures
        s.approve_error(signer, id, now) is None && s.proposal(id).approval_count < u32::MAX
            ==> s.after_approve(signer, id).proposal(k).approval_count >= s.proposal(
            k,
        ).approval_count,
        s.has_proposal(id) ==> s.with_status(id, ProposalStatus::Cancelled).proposal(k).approval_count
            == s.proposal(k).approval_count,
        s.with_proposal(p).proposal(k) == s.proposal(k),
        s.execute_outcome(signer, id, now, quote) matches Ok((t, _)) ==> t.proposal(
            k,
        ).approval_count == s.proposal(k).approval_count,
{
    if let Ok((t, _)) = s.execute_outcome(signer, id, now, quote) {
        let (d, _) = s.dispatch(s.proposal(id), now, quote)->Ok_0;
        assert(d.proposals == s.proposals);
    }
}

/// Execution never succeeds while the approval count is below the
/// threshold read at call time, and fails with `InsufficientApprovals` when
/// that is the only obstacle.
pub proof fn lemma_execute_needs_threshold(
    s: TreasuryState,
    executor: Address,
    id: u64,
    now: u32,
    quote: Result<i128, OracleError>,
)
    requires
        s.valid(),
    ensures
        s.execute_outcome(executor, id, now, quote) is Ok ==> s.proposal(id).approval_count
            >= s.threshold,
        s.is_signer(executor) && s.has_proposal(id) && s.proposal(id).status
            == ProposalStatus::Pending && !expired(s.proposal(id), now) && s.proposal(
            id,
        ).approval_count < s.threshold ==> s.execute_outcome(executor, id, now, quote) == Err::<
            (TreasuryState, LedgerCallView),
            TreasuryError,
        >(TreasuryError::InsufficientApprovals),
{
}

/// A proposal executes at most once: after a successful execution it is
/// marked executed, and every later execution of it fails, with
/// `ProposalAlreadyExecuted` whenever the caller is a signer.
pub proof fn lemma_executes_at_most_once(
    s: TreasuryState,
    executor: Address,
    id: u64,
    now: u32,
    quote: Result<i128, OracleError>,
    again_by: Address,
    again_at: u32,
    again_quote: Result<i128, OracleError>,
)
    requires
        s.valid(),
        s.execute_outcome(executor, id, now, quote) is Ok,
    ensures
        ({
            let t = s.execute_outcome(executor, id, now, quote)->Ok_0.0;
            &&& t.proposal(id).status == ProposalStatus::Executed
            &&& t.execute_outcome(again_by, id, again_at, again_quote) is Err
            &&& t.is_signer(again_by) ==> t.execute_outcome(again_by, id, again_at, again_quote)
                == Err::<(TreasuryState, LedgerCallView), TreasuryError>(
                TreasuryError::ProposalAlreadyExecuted,
            )
        }),
{
    let (d, _) = s.dispatch(s.proposal(id), now, quote)->Ok_0;
    assert(d.proposals == s.proposals);
}

/// Rate-limit epochs reset once per boundary crossing. Starting from an
/// epoch in which nothing of `kind` was used, reserving `x` and then `y`
/// within one epoch succeeds when `x + y` is within the cap and fails on
/// the second reservation when it is not; once the epoch boundary has been
/// crossed, `y` alone is held against the cap, and the new epoch starts at
/// the height of that reservation.
pub proof fn lemma_epoch_resets_once_per_boundary(
    state: RateLimitState,
    config: TreasuryConfig,
    kind: LimitKind,
    x: i128,
    y: i128,
    first_at: u32,
    second_at: u32,
)
    requires
        0 < x <= config.single_op_limit,
        0 < y <= config.single_op_limit,
        x <= epoch_cap(config, kind),
        used(current_epoch(state, first_at), kind) == 0,
    ensures
        reserve(state, config, kind, x, first_at) is Ok,
        ({
            let s1 = reserve(state, config, kind, x, first_at)->Ok_0;
            &&& used(s1, kind) == x
            &&& !epoch_over(s1, second_at) && x + y <= epoch_cap(config, kind) ==> (reserve(
                s1,
                config,
                kind,
                y,
                second_at,
            ) matches Ok(s2) && used(s2, kind) == x + y)
            &&& !epoch_over(s1, second_at) && x + y > epoch_cap(config, kind) ==> reserve(
                s1,
                config,
                kind,
                y,
                second_at,
            ) is Err
            &&& !epoch_over(s1, second_at) && x + y > epoch_cap(config, kind) && x + y
                <= i128::MAX ==> reserve(s1, config, kind, y, second_at) == Err::<
                RateLimitState,
                TreasuryError,
            >(cap_error(kind))
            &&& epoch_over(s1, second_at) && y <= epoch_cap(config, kind) ==> (reserve(
                s1,
                config,
                kind,
                y,
                second_at,
            ) matches Ok(s2) && used(s2, kind) == y && s2.last_reset_ledger == second_at)
        }),
{
}

/// Executing a signer removal removes exactly that signer and, where the
/// threshold would exceed the remaining signers, lowers it to their number.
pub proof fn lemma_remove_signer_lowers_threshold(
    s: TreasuryState,
    executor: Address,
    id: u64,
    now: u32,
    quote: Result<i128, OracleError>,
)
    requires
        s.valid(),
        s.has_proposal(id),
        s.proposal(id).proposal_type == ProposalType::RemoveSigner,
        s.execute_outcome(executor, id, now, quote) is Ok,
    ensures
        ({
            let t = s.execute_outcome(executor, id, now, quote)->Ok_0.0;
            &&& t.signers.len() == s.signers.len() - 1
            &&& !t.is_signer(s.proposal(id).target)
            &&& forall|a: Address| a != s.proposal(id).target ==> (t.is_signer(a) <==> s.is_signer(a))
            &&& t.threshold == if s.threshold > t.signers.len() {
                t.signers.len() as u32
            } else {
                s.threshold
            }
            &&& 1 <= t.threshold <= t.signers.len()
        }),
{
    let target = s.proposal(id).target;
    let k = s.signers.index_of(target);
    assert(s.signers.contains(target));
    let rest = without(s.signers, target);
    assert(rest == s.signers.remove(k));
    assert forall|j: int| 0 <= j < rest.len() implies rest[j] != target by {
        let j2 = if j < k { j } else { j + 1 };
        assert(rest[j] == s.signers[j2]);
    }
    assert forall|a: Address| a != target implies (rest.contains(a) <==> s.signers.contains(a)) by {
        if s.signers.contains(a) {
            let i = choose|i: int| 0 <= i < s.signers.len() && s.signers[i] == a;
            let i2 = if i < k { i } else { i - 1 };
            assert(rest[i2] == a);
        }
        if rest.contains(a) {
            let i = choose|i: int| 0 <= i < rest.len() && rest[i] == a;
            let i2 = if i < k { i } else { i + 1 };
            assert(s.signers[i2] == a);
        }
    }
}

/// A quote-denominated mint mints what the oracle's conversion gives at
/// execution time, whatever amount was recorded when it was proposed; so a
/// change of quote between proposal and execution changes the minted amount.
pub proof fn lemma_quote_mint_converts_at_execution(
    s: TreasuryState,
    executor: Address,
    id: u64,
    now: u32,
    converted: i128,
)
    requires
        s.valid(),
        s.has_proposal(id),
        s.proposal(id).proposal_type == ProposalType::MintFromUsdt,
        s.execute_outcome(executor, id, now, Ok(converted)) is Ok,
    ensures
        s.execute_outcome(executor, id, now, Ok(converted))->Ok_0.1 == (LedgerCallView::Mint {
            to: s.proposal(id).target,
            amount: converted,
            external_ref: s.proposal(id).external_ref,
        }),
        s.execute_outcome(executor, id, now, Ok(converted))->Ok_0.0.rate_limits == reserve(
            s.rate_limits,
            s.config,
            LimitKind::Mint,
            converted,
            now,
        )->Ok_0,
{
}

/// Only the proposer who created a proposal can cancel it: any other caller fails with
/// `NotProposer`, whatever the proposal's status.
pub proof fn lemma_only_proposer_cancels(s: TreasuryState, caller: Address, id: u64)
    requires
        s.has_proposal(id),
    ensures
        s.proposal(id).proposer != caller ==> s.cancel_error(caller, id) == Some(
            TreasuryError::NotProposer,
        ),
        s.cancel_error(caller, id) is None ==> s.proposal(id).proposer == caller,
{
}

} // verus!
