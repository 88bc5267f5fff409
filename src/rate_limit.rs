//! Rolling per-epoch caps on minting and burning, with a lazy epoch reset.
use vstd::prelude::*;
use crate::errors::TreasuryError;
use crate::model::{TreasuryConfig, ONE_DAY_LEDGERS};

verus! {

/// Volume used in the current epoch.
#[derive(Clone, Copy, Debug, PartialEq, Eq, Structural)]
pub struct RateLimitState {
    pub daily_minted: i128,
    pub daily_burned: i128,
    /// Ledger height at which the current epoch began.
    pub last_reset_ledger: u32,
}

/// Which counter an operation draws on.
#[derive(Clone, Copy, Debug, PartialEq, Eq, Structural)]
pub enum LimitKind {
    Mint,
    Burn,
}

/// The epoch that began at `state.last_reset_ledger` is over at `now`.
pub open spec fn epoch_over(state: RateLimitState, now: u32) -> bool {
    now >= state.last_reset_ledger + ONE_DAY_LEDGERS
}

/// The state as seen at `now`: both counters zero and the epoch restamped
/// once the epoch is over, else unchanged.
pub open spec fn current_epoch(state: RateLimitState, now: u32) -> RateLimitState {
    if epoch_over(state, now) {
        RateLimitState { daily_minted: 0, daily_burned: 0, last_reset_ledger: now }
    } else {
        state
    }
}

/// Volume of `kind` used so far in the epoch of `state`.
pub open spec fn used(state: RateLimitState, kind: LimitKind) -> int {
    match kind {
        LimitKind::Mint => state.daily_minted as int,
        LimitKind::Burn => state.daily_burned as int,
    }
}

/// The epoch cap on `kind`.
pub open spec fn epoch_cap(config: TreasuryConfig, kind: LimitKind) -> int {
    match kind {
        LimitKind::Mint => config.daily_mint_limit as int,
        LimitKind::Burn => config.daily_burn_limit as int,
    }
}

/// The error reported when the epoch cap on `kind` would be passed.
pub open spec fn cap_error(kind: LimitKind) -> TreasuryError {
    match kind {
        LimitKind::Mint => TreasuryError::DailyMintLimitExceeded,
        LimitKind::Burn => TreasuryError::DailyBurnLimitExceeded,
    }
}

/// `state` with the counter of `kind` set to `total`.
pub open spec fn with_used(state: RateLimitState, kind: LimitKind, total: i128) -> RateLimitState {
    match kind {
        LimitKind::Mint => RateLimitState { daily_minted: total, ..state },
        LimitKind::Burn => RateLimitState { daily_burned: total, ..state },
    }
}

/// Outcome of reserving `amount` of `kind` at height `now`: the epoch is
/// reset if it is over, then the amount is held against the per-operation
/// cap and the epoch cap, and on success added to the epoch's counter.
pub open spec fn reserve(
    state: RateLimitState,
    config: TreasuryConfig,
    kind: LimitKind,
    amount: i128,
    now: u32,
) -> Result<RateLimitState, TreasuryError> {
    let s = current_epoch(state, now);
    let total = used(s, kind) + amount;
    if amount > config.single_op_limit {
        Err(TreasuryError::SingleOpLimitExceeded)
    } else if total > i128::MAX || total < i128::MIN {
        Err(TreasuryError::InvalidAmount)
    } else if total > epoch_cap(config, kind) {
        Err(cap_error(kind))
    } else {
        Ok(with_used(s, kind, total as i128))
    }
}

/// The state seen at `now`, with the epoch reset if it is over.
pub fn maybe_reset_daily_limits(state: &RateLimitState, now: u32) -> (r: RateLimitState)
    ensures
        r == current_epoch(*state, now),
{
    if now >= state.last_reset_ledger && now - state.last_reset_ledger >= ONE_DAY_LEDGERS {
        RateLimitState { daily_minted: 0, daily_burned: 0, last_reset_ledger: now }
    } else {
        *state
    }
}

/// Reserves `amount` of `kind` at height `now`; on failure the state is
/// left as it was.
pub fn check_and_reserve(
    state: &mut RateLimitState,
    config: &TreasuryConfig,
    kind: LimitKind,
    amount: i128,
    now: u32,
) -> (r: Result<(), TreasuryError>)
    ensures
        match reserve(*old(state), *config, kind, amount, now) {
            Ok(s) => r is Ok && *final(state) == s,
            Err(e) => r == Err::<(), TreasuryError>(e) && *final(state) == *old(state),
        },
{
    let s = maybe_reset_daily_limits(state, now);
    if amount > config.single_op_limit {
        return Err(TreasuryError::SingleOpLimitExceeded);
    }
    let (counter, cap) = match kind {
        LimitKind::Mint => (s.daily_minted, config.daily_mint_limit),
        LimitKind::Burn => (s.daily_burned, config.daily_burn_limit),
    };
    let total = match counter.checked_add(amount) {
        Some(t) => t,
        None => return Err(TreasuryError::InvalidAmount),
    };
    if total > cap {
        return Err(match kind {
            LimitKind::Mint => TreasuryError::DailyMintLimitExceeded,
            LimitKind::Burn => TreasuryError::DailyBurnLimitExceeded,
        });
    }
    *state = match kind {
        LimitKind::Mint => RateLimitState { daily_minted: total, ..s },
        LimitKind::Burn => RateLimitState { daily_burned: total, ..s },
    };
    Ok(())
}

} // verus!
