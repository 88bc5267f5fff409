use bobt_treasury::errors::{BOBTError, OracleError, TreasuryError};
use bobt_treasury::model::{Address, LedgerCall, ProposalStatus, ProposalType, TreasuryConfig};
use bobt_treasury::oracle::{Exchange, PriceOracle};
use bobt_treasury::rate_limit::{check_and_reserve, maybe_reset_daily_limits, LimitKind, RateLimitState};
use bobt_treasury::token::{BOBTToken, Role};
use bobt_treasury::treasury::Treasury;

const TREASURY: Address = Address { id: 1 };
const TOKEN: Address = Address { id: 2 };
const ORACLE: Address = Address { id: 3 };
const A: Address = Address { id: 11 };
const B: Address = Address { id: 12 };
const C: Address = Address { id: 13 };
const X: Address = Address { id: 50 };
const H: u32 = 1000;
const NO_QUOTE: Result<i128, OracleError> = Err(OracleError::InsufficientSources);

fn two_of_three() -> Treasury {
    Treasury::initialize(TREASURY, TOKEN, vec![A, B, C], 2, H).unwrap()
}

fn quote(bid: i128) -> PriceOracle {
    let operator = Address { id: 20 };
    let mut o = PriceOracle::initialize(Address { id: 21 }, vec![operator]);
    o.update_price(operator, Exchange::Binance, bid, bid, 5_000, 5_000, H).unwrap();
    o.update_price(operator, Exchange::Bitget, bid, bid, 5_000, 5_000, H).unwrap();
    o
}

fn ledger_for_treasury() -> BOBTToken {
    let owner = Address { id: 30 };
    let mut ledger = BOBTToken::initialize(owner);
    ledger.grant_role(owner, Role::Minter, TREASURY).unwrap();
    ledger.grant_role(owner, Role::Pauser, TREASURY).unwrap();
    ledger.grant_role(owner, Role::Blacklister, TREASURY).unwrap();
    ledger
}

fn small_caps() -> TreasuryConfig {
    TreasuryConfig {
        token_address: TOKEN,
        oracle_address: None,
        threshold: 1,
        daily_mint_limit: 1000,
        daily_burn_limit: 500,
        single_op_limit: 800,
    }
}

#[test]
fn end_to_end_mint_two_of_three() {
    let mut t = two_of_three();
    let mut ledger = ledger_for_treasury();
    let before = t.remaining_mint_capacity(H);
    let id = t.propose_mint(A, X, 1000, "REF-1".to_string(), H).unwrap();
    assert_eq!(t.get_proposal(id).unwrap().approval_count, 1);
    assert!(matches!(t.execute(A, id, H, NO_QUOTE), Err(TreasuryError::InsufficientApprovals)));
    t.approve(B, id, H).unwrap();
    assert_eq!(t.get_proposal(id).unwrap().approval_count, 2);
    let call = t.execute(A, id, H, NO_QUOTE).unwrap();
    ledger.apply(TREASURY, call).unwrap();
    assert_eq!(ledger.balance(X), 1000);
    assert_eq!(ledger.total_supply(), 1000);
    assert_eq!(t.get_proposal(id).unwrap().status, ProposalStatus::Executed);
    assert_eq!(t.remaining_mint_capacity(H), before - 1000);
    assert!(ledger.mint_request_exists(&"REF-1".to_string()));
}

#[test]
fn approval_count_rises_once_per_distinct_signer() {
    let mut t = Treasury::initialize(TREASURY, TOKEN, vec![A, B, C], 3, H).unwrap();
    let id = t.propose_burn(A, X, 10, "B-1".to_string(), H).unwrap();
    assert_eq!(t.approve(A, id, H), Err(TreasuryError::AlreadyApproved));
    t.approve(B, id, H).unwrap();
    assert_eq!(t.get_proposal(id).unwrap().approval_count, 2);
    assert_eq!(t.approve(B, id, H + 5), Err(TreasuryError::AlreadyApproved));
    assert_eq!(t.get_proposal(id).unwrap().approval_count, 2);
    t.approve(C, id, H).unwrap();
    assert_eq!(t.get_proposal(id).unwrap().approval_count, 3);
}

#[test]
fn threshold_is_read_at_execution_time() {
    let mut t = two_of_three();
    let mint = t.propose_mint(A, X, 5, "M".to_string(), H).unwrap();
    t.approve(B, mint, H).unwrap();
    let raise = t.propose_update_threshold(A, 3, H).unwrap();
    t.approve(B, raise, H).unwrap();
    t.execute(C, raise, H, NO_QUOTE).unwrap();
    assert!(!t.can_execute(mint, H));
    assert!(matches!(t.execute(A, mint, H, NO_QUOTE), Err(TreasuryError::InsufficientApprovals)));
    t.approve(C, mint, H).unwrap();
    assert!(t.can_execute(mint, H));
    assert!(t.execute(A, mint, H, NO_QUOTE).is_ok());
}

#[test]
fn executed_proposal_cannot_run_again() {
    let mut t = two_of_three();
    let id = t.propose_emergency_pause(A, H).unwrap();
    t.approve(B, id, H).unwrap();
    assert!(matches!(t.execute(A, id, H, NO_QUOTE), Ok(LedgerCall::Pause)));
    assert!(matches!(t.execute(A, id, H, NO_QUOTE), Err(TreasuryError::ProposalAlreadyExecuted)));
    assert!(matches!(t.execute(C, id, H, NO_QUOTE), Err(TreasuryError::ProposalAlreadyExecuted)));
    assert_eq!(t.approve(C, id, H), Err(TreasuryError::ProposalAlreadyExecuted));
    assert_eq!(t.cancel(A, id), Err(TreasuryError::ProposalAlreadyExecuted));
}

#[test]
fn epoch_caps_within_one_epoch_and_across_a_boundary() {
    let config = small_caps();
    let start = RateLimitState { daily_minted: 0, daily_burned: 0, last_reset_ledger: H };
    // X then Y within the cap
    let mut s = start;
    assert_eq!(check_and_reserve(&mut s, &config, LimitKind::Mint, 600, H + 1), Ok(()));
    assert_eq!(check_and_reserve(&mut s, &config, LimitKind::Mint, 400, H + 2), Ok(()));
    assert_eq!(s.daily_minted, 1000);
    // X then Y over the cap fails on the second and changes nothing
    let mut s = start;
    assert_eq!(check_and_reserve(&mut s, &config, LimitKind::Mint, 600, H + 1), Ok(()));
    assert_eq!(
        check_and_reserve(&mut s, &config, LimitKind::Mint, 401, H + 2),
        Err(TreasuryError::DailyMintLimitExceeded)
    );
    assert_eq!(s.daily_minted, 600);
    // X, boundary crossed, then Y counts alone
    let crossed = H + 1 + 17280;
    assert_eq!(check_and_reserve(&mut s, &config, LimitKind::Mint, 700, crossed), Ok(()));
    assert_eq!(s, RateLimitState { daily_minted: 700, daily_burned: 0, last_reset_ledger: crossed });
    // the new epoch is not reset again before its own boundary
    assert_eq!(
        check_and_reserve(&mut s, &config, LimitKind::Mint, 301, crossed + 17279),
        Err(TreasuryError::DailyMintLimitExceeded)
    );
}

#[test]
fn rate_limit_errors_and_reset_view() {
    let config = small_caps();
    let mut s = RateLimitState { daily_minted: 900, daily_burned: 450, last_reset_ledger: H };
    assert_eq!(check_and_reserve(&mut s, &config, LimitKind::Burn, 801, H), Err(TreasuryError::SingleOpLimitExceeded));
    assert_eq!(check_and_reserve(&mut s, &config, LimitKind::Burn, 51, H), Err(TreasuryError::DailyBurnLimitExceeded));
    assert_eq!(check_and_reserve(&mut s, &config, LimitKind::Burn, 50, H), Ok(()));
    assert_eq!(s.daily_burned, 500);
    let mut huge = RateLimitState { daily_minted: i128::MAX - 5, daily_burned: 0, last_reset_ledger: H };
    assert_eq!(check_and_reserve(&mut huge, &config, LimitKind::Mint, 10, H), Err(TreasuryError::InvalidAmount));
    assert_eq!(maybe_reset_daily_limits(&s, H + 17279), s);
    assert_eq!(
        maybe_reset_daily_limits(&s, H + 17280),
        RateLimitState { daily_minted: 0, daily_burned: 0, last_reset_ledger: H + 17280 }
    );
}

#[test]
fn treasury_capacity_resets_after_a_day() {
    let mut t = two_of_three();
    let id = t.propose_burn(A, X, 4_000, "BURN-1".to_string(), H).unwrap();
    t.approve(C, id, H).unwrap();
    assert!(matches!(t.execute(B, id, H, NO_QUOTE), Ok(LedgerCall::Burn { amount: 4_000, .. })));
    let cap = t.get_config().daily_burn_limit;
    assert_eq!(t.remaining_burn_capacity(H), cap - 4_000);
    assert_eq!(t.get_rate_limits(H).daily_burned, 4_000);
    assert_eq!(t.remaining_burn_capacity(H + 17280), cap);
    assert_eq!(t.get_rate_limits(H + 17280).daily_burned, 0);
    // reading does not reset the stored epoch
    assert_eq!(t.get_rate_limits(H).daily_burned, 4_000);
}

#[test]
fn remove_signer_lowers_threshold() {
    let mut t = Treasury::initialize(TREASURY, TOKEN, vec![A, B, C], 3, H).unwrap();
    let id = t.propose_remove_signer(A, C, H).unwrap();
    t.approve(B, id, H).unwrap();
    t.approve(C, id, H).unwrap();
    t.execute(A, id, H, NO_QUOTE).unwrap();
    assert_eq!(t.get_signers(), &vec![A, B]);
    assert_eq!(t.get_threshold(), 2);
}

#[test]
fn remove_signer_keeps_lower_threshold() {
    let mut t = two_of_three();
    let id = t.propose_remove_signer(A, B, H).unwrap();
    t.approve(C, id, H).unwrap();
    t.execute(A, id, H, NO_QUOTE).unwrap();
    assert_eq!(t.get_signers(), &vec![A, C]);
    assert_eq!(t.get_threshold(), 2);
}

#[test]
fn quote_mint_converts_again_at_execution() {
    let mut t = Treasury::initialize(TREASURY, TOKEN, vec![A, B], 1, H).unwrap();
    let set = t.propose_set_oracle(A, ORACLE, H).unwrap();
    t.execute(A, set, H, NO_QUOTE).unwrap();
    let at_proposal = quote(91_500_000);
    let advisory = at_proposal.usdt_to_bobt(1_000_000_000, 5_000).unwrap();
    assert_eq!(advisory, 9_150_000_000);
    let id = t.propose_mint_from_usdt(A, X, 1_000_000_000, "DEP".to_string(), H, Ok(advisory)).unwrap();
    assert_eq!(t.get_proposal(id).unwrap().amount, 9_150_000_000);
    // same quote at execution: same amount
    assert_eq!(at_proposal.usdt_to_bobt(1_000_000_000, 5_000), Ok(9_150_000_000));
    // the quote moved: the executed amount follows it
    let at_execution = quote(92_000_000).usdt_to_bobt(1_000_000_000, 5_000).unwrap();
    assert_eq!(at_execution, 9_200_000_000);
    match t.execute(B, id, H, Ok(at_execution)).unwrap() {
        LedgerCall::Mint { to, amount, external_ref } => {
            assert_eq!(to, X);
            assert_eq!(amount, 9_200_000_000);
            assert_eq!(external_ref, "DEP");
        }
        other => panic!("unexpected call {:?}", other),
    }
}

#[test]
fn quote_mint_needs_a_quote() {
    let mut t = Treasury::initialize(TREASURY, TOKEN, vec![A], 1, H).unwrap();
    assert_eq!(
        t.propose_mint_from_usdt(A, X, 10, "Q".to_string(), H, Ok(91)),
        Err(TreasuryError::OracleNotConfigured)
    );
    let set = t.propose_set_oracle(A, ORACLE, H).unwrap();
    t.execute(A, set, H, NO_QUOTE).unwrap();
    assert_eq!(
        t.propose_mint_from_usdt(A, X, 10, "Q".to_string(), H, Err(OracleError::PriceStale)),
        Err(TreasuryError::Oracle(OracleError::PriceStale))
    );
    let id = t.propose_mint_from_usdt(A, X, 10, "Q".to_string(), H, Ok(91)).unwrap();
    assert!(matches!(
        t.execute(A, id, H, Err(OracleError::InsufficientSources)),
        Err(TreasuryError::Oracle(OracleError::InsufficientSources))
    ));
    assert!(matches!(t.execute(A, id, H, Ok(0)), Err(TreasuryError::InvalidAmount)));
    assert_eq!(t.get_proposal(id).unwrap().status, ProposalStatus::Pending);
    assert!(matches!(t.execute(A, id, H, Ok(91)), Ok(LedgerCall::Mint { amount: 91, .. })));
}

#[test]
fn only_the_proposer_cancels() {
    let mut t = two_of_three();
    let id = t.propose_freeze_account(A, X, H).unwrap();
    t.approve(B, id, H).unwrap();
    assert_eq!(t.cancel(B, id), Err(TreasuryError::NotProposer));
    assert_eq!(t.cancel(C, id), Err(TreasuryError::NotProposer));
    assert_eq!(t.get_proposal(id).unwrap().status, ProposalStatus::Pending);
    assert_eq!(t.cancel(A, id), Ok(()));
    assert_eq!(t.get_proposal(id).unwrap().status, ProposalStatus::Cancelled);
    // cancelling again is accepted and changes nothing
    assert_eq!(t.cancel(A, id), Ok(()));
    assert_eq!(t.get_proposal(id).unwrap().status, ProposalStatus::Cancelled);
    assert_eq!(t.approve(C, id, H), Err(TreasuryError::ProposalCancelled));
    assert!(matches!(t.execute(A, id, H, NO_QUOTE), Err(TreasuryError::ProposalCancelled)));
    assert_eq!(t.cancel(A, 99), Err(TreasuryError::ProposalNotFound));
}

#[test]
fn expiry_blocks_approval_and_execution() {
    let mut t = two_of_three();
    let id = t.propose_unpause(A, H).unwrap();
    let p = t.get_proposal(id).unwrap();
    assert_eq!(p.created_at, H);
    assert_eq!(p.expires_at, H + 120_960);
    assert_eq!(t.approve(B, id, H + 120_961), Err(TreasuryError::ProposalExpired));
    t.approve(B, id, H + 120_960).unwrap();
    assert!(!t.can_execute(id, H + 120_961));
    assert!(matches!(t.execute(A, id, H + 120_961, NO_QUOTE), Err(TreasuryError::ProposalExpired)));
    assert_eq!(t.get_proposal(id).unwrap().status, ProposalStatus::Pending);
    assert!(matches!(t.execute(A, id, H + 120_960, NO_QUOTE), Ok(LedgerCall::Unpause)));
}

#[test]
fn proposal_validation_errors() {
    let mut t = two_of_three();
    let outsider = Address { id: 77 };
    assert_eq!(t.propose_mint(A, X, 0, "Z".to_string(), H), Err(TreasuryError::InvalidAmount));
    assert_eq!(t.propose_burn(A, X, -3, "Z".to_string(), H), Err(TreasuryError::InvalidAmount));
    assert_eq!(t.propose_add_signer(A, B, H), Err(TreasuryError::SignerAlreadyExists));
    assert_eq!(t.propose_remove_signer(A, outsider, H), Err(TreasuryError::SignerNotFound));
    assert_eq!(t.propose_update_threshold(A, 0, H), Err(TreasuryError::InvalidThreshold));
    assert_eq!(t.propose_update_threshold(A, 4, H), Err(TreasuryError::InvalidThreshold));
    assert_eq!(t.propose_set_oracle(outsider, ORACLE, H), Err(TreasuryError::NotASigner));
    assert_eq!(
        t.propose(ProposalType::UpdateRateLimits, A, TREASURY, 0, 0, String::new(), H),
        Err(TreasuryError::InvalidProposalType)
    );
    assert_eq!(t.approve(outsider, 1, H), Err(TreasuryError::NotASigner));
    assert_eq!(t.approve(A, 1, H), Err(TreasuryError::ProposalNotFound));
    assert!(matches!(t.execute(A, 0, H, NO_QUOTE), Err(TreasuryError::ProposalNotFound)));
    assert!(matches!(t.execute(outsider, 1, H, NO_QUOTE), Err(TreasuryError::NotASigner)));
    assert!(t.get_proposal(1).is_err());
    // nothing was stored by the failed proposals
    assert_eq!(t.propose_unpause(A, H), Ok(1));
}

#[test]
fn signer_set_bounds() {
    let one = Treasury::initialize(TREASURY, TOKEN, vec![A], 1, H);
    let mut one = one.unwrap();
    assert_eq!(one.propose_remove_signer(A, A, H), Err(TreasuryError::CannotRemoveLastSigner));
    let ten: Vec<Address> = (100..110).map(|i| Address { id: i }).collect();
    let mut full = Treasury::initialize(TREASURY, TOKEN, ten.clone(), 10, H).unwrap();
    assert_eq!(full.propose_add_signer(ten[0], X, H), Err(TreasuryError::TooManySigners));
    let eleven: Vec<Address> = (100..111).map(|i| Address { id: i }).collect();
    assert!(matches!(Treasury::initialize(TREASURY, TOKEN, eleven, 2, H), Err(TreasuryError::TooManySigners)));
    assert!(matches!(Treasury::initialize(TREASURY, TOKEN, vec![], 1, H), Err(TreasuryError::InvalidThreshold)));
    assert!(matches!(Treasury::initialize(TREASURY, TOKEN, vec![A, B], 0, H), Err(TreasuryError::InvalidThreshold)));
    assert!(matches!(Treasury::initialize(TREASURY, TOKEN, vec![A, B], 3, H), Err(TreasuryError::InvalidThreshold)));
    assert!(matches!(Treasury::initialize(TREASURY, TOKEN, vec![A, B, A], 2, H), Err(TreasuryError::SignerAlreadyExists)));
}

#[test]
fn stale_signer_changes_are_checked_again_at_execution() {
    let mut t = Treasury::initialize(TREASURY, TOKEN, vec![A, B], 1, H).unwrap();
    let d = Address { id: 14 };
    let first = t.propose_add_signer(A, d, H).unwrap();
    let second = t.propose_add_signer(B, d, H).unwrap();
    t.execute(A, first, H, NO_QUOTE).unwrap();
    assert!(matches!(t.execute(A, second, H, NO_QUOTE), Err(TreasuryError::SignerAlreadyExists)));
    let r1 = t.propose_remove_signer(A, d, H).unwrap();
    let r2 = t.propose_remove_signer(A, d, H).unwrap();
    t.execute(A, r1, H, NO_QUOTE).unwrap();
    assert!(matches!(t.execute(A, r2, H, NO_QUOTE), Err(TreasuryError::SignerNotFound)));
    let up = t.propose_update_threshold(A, 2, H).unwrap();
    let rm = t.propose_remove_signer(A, B, H).unwrap();
    t.execute(A, rm, H, NO_QUOTE).unwrap();
    assert!(matches!(t.execute(A, up, H, NO_QUOTE), Err(TreasuryError::InvalidThreshold)));
    let last = t.propose_remove_signer(A, A, H);
    assert_eq!(last, Err(TreasuryError::CannotRemoveLastSigner));
}

#[test]
fn ledger_calls_of_each_kind() {
    let mut t = Treasury::initialize(TREASURY, TOKEN, vec![A], 1, H).unwrap();
    let mut ledger = ledger_for_treasury();
    let m = t.propose_mint(A, X, 300, "M1".to_string(), H).unwrap();
    ledger.apply(TREASURY, t.execute(A, m, H, NO_QUOTE).unwrap()).unwrap();
    let b = t.propose_burn(A, X, 100, "B1".to_string(), H).unwrap();
    ledger.apply(TREASURY, t.execute(A, b, H, NO_QUOTE).unwrap()).unwrap();
    assert_eq!(ledger.balance(X), 200);
    assert_eq!(ledger.total_supply(), 200);
    let f = t.propose_freeze_account(A, X, H).unwrap();
    ledger.apply(TREASURY, t.execute(A, f, H, NO_QUOTE).unwrap()).unwrap();
    assert!(ledger.is_frozen(X));
    let m2 = t.propose_mint(A, X, 5, "M2".to_string(), H).unwrap();
    assert_eq!(ledger.apply(TREASURY, t.execute(A, m2, H, NO_QUOTE).unwrap()), Err(BOBTError::AccountFrozen));
    let u = t.propose_unfreeze_account(A, X, H).unwrap();
    ledger.apply(TREASURY, t.execute(A, u, H, NO_QUOTE).unwrap()).unwrap();
    assert!(!ledger.is_frozen(X));
    let p = t.propose_emergency_pause(A, H).unwrap();
    ledger.apply(TREASURY, t.execute(A, p, H, NO_QUOTE).unwrap()).unwrap();
    assert!(ledger.is_paused());
    let up = t.propose_unpause(A, H).unwrap();
    ledger.apply(TREASURY, t.execute(A, up, H, NO_QUOTE).unwrap()).unwrap();
    assert!(!ledger.is_paused());
}

#[test]
fn error_codes() {
    assert_eq!(TreasuryError::AlreadyInitialized.code(), 1);
    assert_eq!(TreasuryError::InsufficientApprovals.code(), 13);
    assert_eq!(TreasuryError::ProposalAlreadyExecuted.code(), 22);
    assert_eq!(TreasuryError::SingleOpLimitExceeded.code(), 33);
    assert_eq!(TreasuryError::CannotRemoveLastSigner.code(), 45);
    assert_eq!(TreasuryError::OraclePriceInvalid.code(), 52);
    assert_eq!(TreasuryError::Oracle(OracleError::PriceStale).code(), 22);
    assert_eq!(OracleError::from_code(24), Some(OracleError::InsufficientSources));
    assert_eq!(OracleError::from_code(99), None);
}
