use bobt_treasury::errors::BOBTError;
use bobt_treasury::model::Address;
use bobt_treasury::token::{BOBTToken, Role};

const OWNER: Address = Address { id: 1 };
const ALICE: Address = Address { id: 2 };
const BOB: Address = Address { id: 3 };
const SPENDER: Address = Address { id: 4 };
const NOW: u32 = 100;

fn setup() -> BOBTToken {
    BOBTToken::initialize(OWNER)
}

fn setup_with_minter() -> BOBTToken {
    let mut t = setup();
    t.grant_role(OWNER, Role::Minter, OWNER).unwrap();
    t
}

#[test]
fn test_version() {
    assert_eq!(setup().decimals(), 7);
    assert_eq!(setup().owner(), OWNER);
}

#[test]
fn test_mint_and_balance() {
    let mut t = setup_with_minter();
    t.admin_mint(OWNER, ALICE, 1000_0000000, "REQ001".to_string()).unwrap();
    assert_eq!(t.balance(ALICE), 1000_0000000);
    assert_eq!(t.total_supply(), 1000_0000000);
}

#[test]
fn test_transfer() {
    let mut t = setup_with_minter();
    t.admin_mint(OWNER, ALICE, 1000_0000000, "REQ002".to_string()).unwrap();
    t.transfer(ALICE, BOB, 300_0000000).unwrap();
    assert_eq!(t.balance(ALICE), 700_0000000);
    assert_eq!(t.balance(BOB), 300_0000000);
    assert_eq!(t.total_supply(), 1000_0000000);
}

#[test]
fn test_burn() {
    let mut t = setup_with_minter();
    t.admin_mint(OWNER, ALICE, 1000_0000000, "REQ003".to_string()).unwrap();
    t.burn(ALICE, 400_0000000).unwrap();
    assert_eq!(t.balance(ALICE), 600_0000000);
    assert_eq!(t.total_supply(), 600_0000000);
}

#[test]
fn test_admin_burn() {
    let mut t = setup_with_minter();
    t.admin_mint(OWNER, ALICE, 1000_0000000, "MINT001".to_string()).unwrap();
    t.admin_burn(OWNER, ALICE, 300_0000000, "BURN001".to_string()).unwrap();
    assert_eq!(t.balance(ALICE), 700_0000000);
    assert_eq!(t.total_supply(), 700_0000000);
    assert!(t.burn_request_exists(&"BURN001".to_string()));
}

#[test]
fn test_approve_and_transfer_from() {
    let mut t = setup_with_minter();
    t.admin_mint(OWNER, ALICE, 1000_0000000, "REQ_APPROVE".to_string()).unwrap();
    t.approve(ALICE, SPENDER, 500_0000000, 1000, NOW).unwrap();
    assert_eq!(t.allowance(ALICE, SPENDER, NOW), 500_0000000);
    t.transfer_from(SPENDER, ALICE, BOB, 200_0000000, NOW).unwrap();
    assert_eq!(t.balance(ALICE), 800_0000000);
    assert_eq!(t.balance(BOB), 200_0000000);
    assert_eq!(t.allowance(ALICE, SPENDER, NOW), 300_0000000);
}

#[test]
fn allowance_lapses_and_limits() {
    let mut t = setup_with_minter();
    t.admin_mint(OWNER, ALICE, 1000, "R".to_string()).unwrap();
    t.approve(ALICE, SPENDER, 300, 200, NOW).unwrap();
    assert_eq!(t.allowance(ALICE, SPENDER, 200), 300);
    assert_eq!(t.allowance(ALICE, SPENDER, 201), 0);
    assert_eq!(t.transfer_from(SPENDER, ALICE, BOB, 301, NOW), Err(BOBTError::InsufficientAllowance));
    assert_eq!(t.transfer_from(SPENDER, ALICE, BOB, 100, 201), Err(BOBTError::InsufficientAllowance));
    t.burn_from(SPENDER, ALICE, 300, NOW).unwrap();
    assert_eq!(t.allowance(ALICE, SPENDER, NOW), 0);
    assert_eq!(t.balance(ALICE), 700);
    assert_eq!(t.total_supply(), 700);
    t.approve(ALICE, SPENDER, 50, NOW, NOW).unwrap();
    assert_eq!(t.allowance(ALICE, SPENDER, NOW), 0);
    t.approve(ALICE, SPENDER, 50, NOW + 1, NOW).unwrap();
    assert_eq!(t.transfer_from(SPENDER, ALICE, ALICE, 10, NOW), Err(BOBTError::CannotTransferToSelf));
    assert_eq!(t.allowance(ALICE, SPENDER, NOW), 50);
}

#[test]
fn test_insufficient_balance() {
    let mut t = setup_with_minter();
    t.admin_mint(OWNER, ALICE, 100_0000000, "REQ_INSUF".to_string()).unwrap();
    assert_eq!(t.transfer(ALICE, BOB, 200_0000000), Err(BOBTError::InsufficientBalance));
}

#[test]
fn test_pause_unpause() {
    let mut t = setup();
    t.grant_role(OWNER, Role::Pauser, OWNER).unwrap();
    t.pause(OWNER).unwrap();
    assert!(t.is_paused());
    t.unpause(OWNER).unwrap();
    assert!(!t.is_paused());
}

#[test]
fn test_cannot_transfer_when_paused() {
    let mut t = setup_with_minter();
    t.grant_role(OWNER, Role::Pauser, OWNER).unwrap();
    t.admin_mint(OWNER, ALICE, 1000_0000000, "REQ004".to_string()).unwrap();
    t.pause(OWNER).unwrap();
    assert_eq!(t.transfer(ALICE, BOB, 100_0000000), Err(BOBTError::ContractPaused));
    assert_eq!(t.admin_mint(OWNER, ALICE, 1, "REQ_PAUSED".to_string()), Err(BOBTError::ContractPaused));
}

#[test]
fn test_freeze_unfreeze() {
    let mut t = setup();
    t.grant_role(OWNER, Role::Blacklister, OWNER).unwrap();
    t.freeze(OWNER, BOB).unwrap();
    assert!(t.is_frozen(BOB));
    t.unfreeze(OWNER, BOB).unwrap();
    assert!(!t.is_frozen(BOB));
}

#[test]
fn frozen_accounts_cannot_move_funds() {
    let mut t = setup_with_minter();
    t.grant_role(OWNER, Role::Blacklister, OWNER).unwrap();
    t.admin_mint(OWNER, ALICE, 1000_0000000, "REQ005".to_string()).unwrap();
    t.freeze(OWNER, ALICE).unwrap();
    assert_eq!(t.transfer(ALICE, BOB, 100_0000000), Err(BOBTError::AccountFrozen));
    assert_eq!(t.transfer(BOB, ALICE, 1), Err(BOBTError::AccountFrozen));
    assert_eq!(t.approve(ALICE, SPENDER, 1, NOW + 5, NOW), Err(BOBTError::AccountFrozen));
}

#[test]
fn test_clawback() {
    let mut t = setup_with_minter();
    t.grant_role(OWNER, Role::Blacklister, OWNER).unwrap();
    t.admin_mint(OWNER, BOB, 500_0000000, "REQ006".to_string()).unwrap();
    assert_eq!(t.balance(BOB), 500_0000000);
    assert_eq!(t.destroy_frozen_funds(OWNER, BOB), Err(BOBTError::AccountNotFrozen));
    t.freeze(OWNER, BOB).unwrap();
    t.destroy_frozen_funds(OWNER, BOB).unwrap();
    assert_eq!(t.balance(BOB), 0);
    assert_eq!(t.total_supply(), 0);
}

#[test]
fn test_role_management() {
    let mut t = setup();
    let minter = Address { id: 9 };
    assert!(!t.has_role(Role::Minter, minter));
    t.grant_role(OWNER, Role::Minter, minter).unwrap();
    assert!(t.has_role(Role::Minter, minter));
    t.revoke_role(OWNER, Role::Minter, minter).unwrap();
    assert!(!t.has_role(Role::Minter, minter));
}

#[test]
fn unauthorized_callers_are_refused() {
    let mut t = setup();
    let attacker = Address { id: 66 };
    assert_eq!(t.admin_mint(attacker, ALICE, 1000_0000000, "REQ007".to_string()), Err(BOBTError::Unauthorized));
    assert_eq!(t.pause(attacker), Err(BOBTError::Unauthorized));
    assert_eq!(t.freeze(attacker, ALICE), Err(BOBTError::Unauthorized));
    assert_eq!(t.grant_role(attacker, Role::Minter, attacker), Err(BOBTError::Unauthorized));
}

#[test]
fn test_transfer_ownership() {
    let mut t = setup();
    let new_owner = Address { id: 7 };
    t.transfer_ownership(OWNER, new_owner).unwrap();
    assert_eq!(t.owner(), new_owner);
    assert!(t.has_role(Role::Owner, new_owner));
    assert!(!t.has_role(Role::Owner, OWNER));
    assert_eq!(t.grant_role(OWNER, Role::Minter, Address { id: 8 }), Err(BOBTError::Unauthorized));
}

#[test]
fn test_request_exists() {
    let mut t = setup_with_minter();
    let id = "REQ_EXISTS".to_string();
    assert!(!t.mint_request_exists(&id));
    t.admin_mint(OWNER, ALICE, 100_0000000, id.clone()).unwrap();
    assert!(t.mint_request_exists(&id));
    assert!(!t.mint_request_exists(&"NONEXISTENT".to_string()));
    assert_eq!(t.admin_mint(OWNER, ALICE, 500_0000000, id), Err(BOBTError::RequestAlreadyExists));
}

#[test]
fn test_cannot_transfer_to_self_returns_error() {
    let mut t = setup_with_minter();
    t.admin_mint(OWNER, ALICE, 1000_0000000, "REQ_SELF".to_string()).unwrap();
    assert_eq!(t.transfer(ALICE, ALICE, 100_0000000), Err(BOBTError::CannotTransferToSelf));
}

#[test]
fn test_zero_balance_query() {
    assert_eq!(setup().balance(Address { id: 999 }), 0);
}

#[test]
fn test_multiple_roles_same_account() {
    let mut t = setup();
    let operator = Address { id: 5 };
    t.grant_role(OWNER, Role::Minter, operator).unwrap();
    t.grant_role(OWNER, Role::Pauser, operator).unwrap();
    t.grant_role(OWNER, Role::Blacklister, operator).unwrap();
    assert!(t.has_role(Role::Minter, operator));
    assert!(t.has_role(Role::Pauser, operator));
    assert!(t.has_role(Role::Blacklister, operator));
    t.revoke_role(OWNER, Role::Pauser, operator).unwrap();
    assert!(t.has_role(Role::Minter, operator));
    assert!(!t.has_role(Role::Pauser, operator));
    assert!(t.has_role(Role::Blacklister, operator));
}

#[test]
fn ledger_rejections() {
    let mut t = setup_with_minter();
    assert_eq!(t.admin_mint(OWNER, ALICE, 0, "R0".to_string()), Err(BOBTError::NegativeAmount));
    assert_eq!(t.admin_mint(OWNER, ALICE, 10, "R1".to_string()), Ok(()));
    assert_eq!(t.admin_mint(OWNER, ALICE, 10_000_000_000_000_000_000, "R2".to_string()), Err(BOBTError::AmountTooLarge));
    assert_eq!(t.admin_burn(OWNER, ALICE, 11, "S1".to_string()), Err(BOBTError::InsufficientBalance));
    assert_eq!(t.admin_burn(OWNER, ALICE, 4, "S1".to_string()), Ok(()));
    assert_eq!(t.admin_burn(OWNER, ALICE, 1, "S1".to_string()), Err(BOBTError::RequestAlreadyExists));
    assert_eq!(t.balance(ALICE), 6);
    t.grant_role(OWNER, Role::Pauser, OWNER).unwrap();
    assert_eq!(t.unpause(OWNER), Err(BOBTError::ContractNotPaused));
    assert_eq!(t.pause(OWNER), Ok(()));
    assert_eq!(t.pause(OWNER), Err(BOBTError::ContractPaused));
    t.grant_role(OWNER, Role::Blacklister, OWNER).unwrap();
    assert_eq!(t.unfreeze(OWNER, ALICE), Err(BOBTError::AccountNotFrozen));
    assert_eq!(t.freeze(OWNER, ALICE), Ok(()));
    assert_eq!(t.freeze(OWNER, ALICE), Err(BOBTError::AccountFrozen));
}
