//! The value ledger: role-based access, balances and supply, transfers and
//! expiring allowances, minting and burning under idempotent request
//! references, pause and freeze flags with clawback, and the application of
//! a treasury's ledger call.
use vstd::prelude::*;
use std::collections::HashMap;
use std::collections::HashSet;
use crate::errors::BOBTError;
use crate::model::{Address, LedgerCall, LedgerCallView};

verus! {

broadcast use vstd::std_specs::hash::group_hash_axioms;

/// Largest total supply: one trillion tokens.
pub const MAX_SUPPLY: i128 = 10_000_000_000_000_000_000;

/// Smallest amount moved by one operation.
pub const MIN_TRANSFER: i128 = 1;

/// Decimals of the token.
pub const TOKEN_DECIMALS: u32 = 7;

/// Roles that the owner grants.
#[derive(Clone, Copy, Debug, PartialEq, Eq, Structural)]
pub enum Role {
    Owner,
    Minter,
    Pauser,
    Blacklister,
    Rescuer,
}

/// The key under which the allowance of `spender` over `from`'s balance
/// is held.
pub open spec fn allowance_key(from: Address, spender: Address) -> u128 {
    (from.id as int * 0x1_0000_0000_0000_0000 + spender.id as int) as u128
}

/// An allowance and the ledger height at which it lapses.
#[derive(Clone, Copy, Debug, PartialEq, Eq, Structural)]
pub struct AllowanceData {
    pub amount: i128,
    pub expiration_ledger: u32,
}

/// Ledger configuration.
#[derive(Clone, Copy, Debug, PartialEq, Eq, Structural)]
pub struct ContractConfig {
    pub max_mint_amount: i128,
    pub max_burn_amount: i128,
    pub min_transfer_amount: i128,
    pub require_whitelist: bool,
}

/// The abstract state of the ledger.
pub struct LedgerState {
    pub owner: Address,
    /// Holders of each role, by address number.
    pub owners: Set<u64>,
    pub minters: Set<u64>,
    pub pausers: Set<u64>,
    pub blacklisters: Set<u64>,
    pub rescuers: Set<u64>,
    /// Allowances by `allowance_key`.
    pub allowances: Map<u128, AllowanceData>,
    /// Balances by address number; an absent entry is a zero balance.
    pub balances: Map<u64, i128>,
    pub total_supply: i128,
    pub paused: bool,
    pub frozen: Set<u64>,
    /// References of the mint requests served so far.
    pub mint_refs: Seq<Seq<char>>,
    /// References of the burn requests served so far.
    pub burn_refs: Seq<Seq<char>>,
}

impl LedgerState {
    pub open spec fn holders(self, role: Role) -> Set<u64> {
        match role {
            Role::Owner => self.owners,
            Role::Minter => self.minters,
            Role::Pauser => self.pausers,
            Role::Blacklister => self.blacklisters,
            Role::Rescuer => self.rescuers,
        }
    }

    pub open spec fn has_role(self, role: Role, a: Address) -> bool {
        self.holders(role).contains(a.id)
    }

    pub open spec fn with_holders(self, role: Role, h: Set<u64>) -> LedgerState {
        match role {
            Role::Owner => LedgerState { owners: h, ..self },
            Role::Minter => LedgerState { minters: h, ..self },
            Role::Pauser => LedgerState { pausers: h, ..self },
            Role::Blacklister => LedgerState { blacklisters: h, ..self },
            Role::Rescuer => LedgerState { rescuers: h, ..self },
        }
    }

    /// The allowance of `spender` over `from`'s balance at height `now`;
    /// a lapsed allowance is zero.
    pub open spec fn allowance(self, from: Address, spender: Address, now: u32) -> i128 {
        let k = allowance_key(from, spender);
        if self.allowances.contains_key(k) && self.allowances[k].expiration_ledger >= now {
            self.allowances[k].amount
        } else {
            0
        }
    }

    /// The allowances after setting that of `spender` over `from` to
    /// `amount` until `expiration_ledger`; a non-positive amount or a past
    /// expiry removes it.
    pub open spec fn allowances_set(
        self,
        from: Address,
        spender: Address,
        amount: i128,
        expiration_ledger: u32,
        now: u32,
    ) -> Map<u128, AllowanceData> {
        if amount > 0 && expiration_ledger > now {
            self.allowances.insert(
                allowance_key(from, spender),
                AllowanceData { amount, expiration_ledger },
            )
        } else {
            self.allowances.remove(allowance_key(from, spender))
        }
    }

    /// Spending `amount` of the allowance of `spender` over `from` at `now`
    /// is possible.
    pub open spec fn can_spend(self, from: Address, spender: Address, amount: i128, now: u32) -> bool {
        let k = allowance_key(from, spender);
        self.allowances.contains_key(k) && self.allowances[k].expiration_ledger >= now
            && self.allowances[k].amount >= amount
    }

    /// The allowances after spending `amount`; an allowance spent to zero is
    /// removed.
    pub open spec fn allowances_spent(self, from: Address, spender: Address, amount: i128) -> Map<
        u128,
        AllowanceData,
    > {
        let k = allowance_key(from, spender);
        let left = self.allowances[k].amount - amount;
        if left > 0 {
            self.allowances.insert(
                k,
                AllowanceData { amount: left as i128, ..self.allowances[k] },
            )
        } else {
            self.allowances.remove(k)
        }
    }

    /// Why moving `amount` from `from` to `to` fails, if it does.
    pub open spec fn transfer_error(self, from: Address, to: Address, amount: i128) -> Option<
        BOBTError,
    > {
        if amount < MIN_TRANSFER {
            Some(BOBTError::NegativeAmount)
        } else if from == to {
            Some(BOBTError::CannotTransferToSelf)
        } else if self.balance(from) < amount {
            Some(BOBTError::InsufficientBalance)
        } else if self.balance(to) + amount > i128::MAX {
            Some(BOBTError::OverflowError)
        } else {
            None
        }
    }

    pub open spec fn after_transfer(self, from: Address, to: Address, amount: i128) -> LedgerState {
        LedgerState {
            balances: self.balances.insert(from.id, (self.balance(from) - amount) as i128).insert(
                to.id,
                (self.balance(to) + amount) as i128,
            ),
            ..self
        }
    }

    /// Why burning `amount` of `from`'s own balance fails, if it does.
    pub open spec fn burn_internal_error(self, from: Address, amount: i128) -> Option<BOBTError> {
        if amount < MIN_TRANSFER {
            Some(BOBTError::NegativeAmount)
        } else if self.balance(from) < amount {
            Some(BOBTError::InsufficientBalance)
        } else if self.total_supply - amount < i128::MIN {
            Some(BOBTError::OverflowError)
        } else {
            None
        }
    }

    pub open spec fn after_burn_internal(self, from: Address, amount: i128) -> LedgerState {
        LedgerState {
            balances: self.balances.insert(from.id, (self.balance(from) - amount) as i128),
            total_supply: (self.total_supply - amount) as i128,
            ..self
        }
    }

    pub open spec fn balance(self, a: Address) -> i128 {
        if self.balances.contains_key(a.id) {
            self.balances[a.id]
        } else {
            0
        }
    }

    /// Why minting `amount` to `to` under `request_id` fails, if it does.
    pub open spec fn mint_error(
        self,
        minter: Address,
        to: Address,
        amount: i128,
        request_id: Seq<char>,
    ) -> Option<BOBTError> {
        if !self.has_role(Role::Minter, minter) {
            Some(BOBTError::Unauthorized)
        } else if self.paused {
            Some(BOBTError::ContractPaused)
        } else if self.frozen.contains(to.id) {
            Some(BOBTError::AccountFrozen)
        } else if self.mint_refs.contains(request_id) {
            Some(BOBTError::RequestAlreadyExists)
        } else if amount < MIN_TRANSFER {
            Some(BOBTError::NegativeAmount)
        } else if self.total_supply + amount > MAX_SUPPLY {
            Some(BOBTError::AmountTooLarge)
        } else if self.balance(to) + amount > i128::MAX {
            Some(BOBTError::OverflowError)
        } else {
            None
        }
    }

    pub open spec fn after_mint(self, to: Address, amount: i128, request_id: Seq<char>) -> LedgerState {
        LedgerState {
            balances: self.balances.insert(to.id, (self.balance(to) + amount) as i128),
            total_supply: (self.total_supply + amount) as i128,
            mint_refs: self.mint_refs.push(request_id),
            ..self
        }
    }

    /// Why burning `amount` from `from` under `request_id` fails, if it
    /// does.
    pub open spec fn burn_error(
        self,
        operator: Address,
        from: Address,
        amount: i128,
        request_id: Seq<char>,
    ) -> Option<BOBTError> {
        if !self.has_role(Role::Minter, operator) {
            Some(BOBTError::Unauthorized)
        } else if self.paused {
            Some(BOBTError::ContractPaused)
        } else if self.burn_refs.contains(request_id) {
            Some(BOBTError::RequestAlreadyExists)
        } else {
            self.burn_internal_error(from, amount)
        }
    }

    pub open spec fn after_burn(self, from: Address, amount: i128, request_id: Seq<char>) -> LedgerState {
        LedgerState { burn_refs: self.burn_refs.push(request_id), ..self.after_burn_internal(from, amount) }
    }

    /// The outcome of serving a treasury's ledger call made by `caller`.
    pub open spec fn apply(self, caller: Address, call: LedgerCallView) -> Result<LedgerState, BOBTError> {
        match call {
            LedgerCallView::NoCall => Ok(self),
            LedgerCallView::Mint { to, amount, external_ref } => match self.mint_error(
                caller,
                to,
                amount,
                external_ref,
            ) {
                Some(e) => Err(e),
                None => Ok(self.after_mint(to, amount, external_ref)),
            },
            LedgerCallView::Burn { from, amount, external_ref } => match self.burn_error(
                caller,
                from,
                amount,
                external_ref,
            ) {
                Some(e) => Err(e),
                None => Ok(self.after_burn(from, amount, external_ref)),
            },
            LedgerCallView::Pause => if !self.has_role(Role::Pauser, caller) {
                Err(BOBTError::Unauthorized)
            } else if self.paused {
                Err(BOBTError::ContractPaused)
            } else {
                Ok(LedgerState { paused: true, ..self })
            },
            LedgerCallView::Unpause => if !self.has_role(Role::Pauser, caller) {
                Err(BOBTError::Unauthorized)
            } else if !self.paused {
                Err(BOBTError::ContractNotPaused)
            } else {
                Ok(LedgerState { paused: false, ..self })
            },
            LedgerCallView::Freeze { account } => if !self.has_role(Role::Blacklister, caller) {
                Err(BOBTError::Unauthorized)
            } else if self.frozen.contains(account.id) {
                Err(BOBTError::AccountFrozen)
            } else {
                Ok(LedgerState { frozen: self.frozen.insert(account.id), ..self })
            },
            LedgerCallView::Unfreeze { account } => if !self.has_role(Role::Blacklister, caller) {
                Err(BOBTError::Unauthorized)
            } else if !self.frozen.contains(account.id) {
                Err(BOBTError::AccountNotFrozen)
            } else {
                Ok(LedgerState { frozen: self.frozen.remove(account.id), ..self })
            },
        }
    }
}

/// The value ledger.
pub struct BOBTToken {
    owner: Address,
    owners: HashSet<u64>,
    minters: HashSet<u64>,
    pausers: HashSet<u64>,
    blacklisters: HashSet<u64>,
    rescuers: HashSet<u64>,
    allowances: HashMap<u128, AllowanceData>,
    balances: HashMap<u64, i128>,
    total_supply: i128,
    paused: bool,
    frozen: HashSet<u64>,
    mint_refs: Vec<String>,
    burn_refs: Vec<String>,
}

impl View for BOBTToken {
    type V = LedgerState;

    closed spec fn view(&self) -> LedgerState {
        LedgerState {
            owner: self.owner,
            owners: self.owners@,
            minters: self.minters@,
            pausers: self.pausers@,
            blacklisters: self.blacklisters@,
            rescuers: self.rescuers@,
            allowances: self.allowances@,
            balances: self.balances@,
            total_supply: self.total_supply,
            paused: self.paused,
            frozen: self.frozen@,
            mint_refs: self.mint_refs@.map_values(|s: String| s@),
            burn_refs: self.burn_refs@.map_values(|s: String| s@),
        }
    }
}

/// Accepts an amount that one operation may move: at least `MIN_TRANSFER`.
pub fn validate_amount(amount: i128) -> (r: Result<(), BOBTError>)
    ensures
        amount >= MIN_TRANSFER ==> r is Ok,
        amount < MIN_TRANSFER ==> r == Err::<(), BOBTError>(BOBTError::NegativeAmount),
{
    if amount <= 0 {
        return Err(BOBTError::NegativeAmount);
    }
    if amount < MIN_TRANSFER {
        return Err(BOBTError::NegativeAmount);
    }
    Ok(())
}

fn key_of(from: Address, spender: Address) -> (r: u128)
    ensures
        r == allowance_key(from, spender),
{
    assert(from.id as int * 0x1_0000_0000_0000_0000 + spender.id as int <= u128::MAX) by (nonlinear_arith)
        requires
            from.id <= u64::MAX,
            spender.id <= u64::MAX,
    ;
    (from.id as u128) * 0x1_0000_0000_0000_0000 + spender.id as u128
}

/// Whether `refs` holds a string with the characters of `id`.
fn contains_ref(refs: &Vec<String>, id: &String) -> (r: bool)
    ensures
        r == refs@.map_values(|s: String| s@).contains(id@),
{
    let ghost v = refs@.map_values(|s: String| s@);
    let mut i: usize = 0;
    while i < refs.len()
        invariant
            i <= refs@.len(),
            v == refs@.map_values(|s: String| s@),
            forall|j: int| 0 <= j < i ==> v[j] != id@,
        decreases refs.len() - i,
    {
        if refs[i] == *id {
            assert(v[i as int] == id@);
            return true;
        }
        i += 1;
    }
    false
}

impl BOBTToken {
    /// A ledger owned by `owner`, unpaused and empty.
    pub fn initialize(owner: Address) -> (r: BOBTToken)
        ensures
            r@.owner == owner,
            r@.owners == Set::<u64>::empty().insert(owner.id),
            r@.minters == Set::<u64>::empty(),
            r@.pausers == Set::<u64>::empty(),
            r@.blacklisters == Set::<u64>::empty(),
            r@.rescuers == Set::<u64>::empty(),
            r@.allowances == Map::<u128, AllowanceData>::empty(),
            r@.balances == Map::<u64, i128>::empty(),
            r@.total_supply == 0,
            !r@.paused,
            r@.frozen == Set::<u64>::empty(),
            r@.mint_refs == Seq::<Seq<char>>::empty(),
            r@.burn_refs == Seq::<Seq<char>>::empty(),
    {
        let mut owners = HashSet::new();
        owners.insert(owner.id);
        let r = BOBTToken {
            owner,
            owners,
            minters: HashSet::new(),
            pausers: HashSet::new(),
            blacklisters: HashSet::new(),
            rescuers: HashSet::new(),
            allowances: HashMap::new(),
            balances: HashMap::new(),
            total_supply: 0,
            paused: false,
            frozen: HashSet::new(),
            mint_refs: Vec::new(),
            burn_refs: Vec::new(),
        };
        assert(r@.mint_refs =~= Seq::<Seq<char>>::empty());
        assert(r@.burn_refs =~= Seq::<Seq<char>>::empty());
        r
    }

    pub fn owner(&self) -> (r: Address)
        ensures
            r == self@.owner,
    {
        self.owner
    }

    /// Whether `account` holds `role`.
    pub fn has_role(&self, role: Role, account: Address) -> (r: bool)
        ensures
            r == self@.has_role(role, account),
    {
        match role {
            Role::Owner => self.owners.contains(&account.id),
            Role::Minter => self.minters.contains(&account.id),
            Role::Pauser => self.pausers.contains(&account.id),
            Role::Blacklister => self.blacklisters.contains(&account.id),
            Role::Rescuer => self.rescuers.contains(&account.id),
        }
    }

    fn holders_mut(&mut self, role: Role) -> (r: &mut HashSet<u64>)
        ensures
            *r == old(self).holders_of(role),
            final(self)@ == old(self)@.with_holders(role, final(r)@),
    {
        match role {
            Role::Owner => &mut self.owners,
            Role::Minter => &mut self.minters,
            Role::Pauser => &mut self.pausers,
            Role::Blacklister => &mut self.blacklisters,
            Role::Rescuer => &mut self.rescuers,
        }
    }

    closed spec fn holders_of(&self, role: Role) -> HashSet<u64> {
        match role {
            Role::Owner => self.owners,
            Role::Minter => self.minters,
            Role::Pauser => self.pausers,
            Role::Blacklister => self.blacklisters,
            Role::Rescuer => self.rescuers,
        }
    }

    /// Grants `role` to `account`, on the owner's behalf.
    pub fn grant_role(&mut self, admin: Address, role: Role, account: Address) -> (r: Result<(), BOBTError>)
        ensures
            admin != old(self)@.owner ==> r == Err::<(), BOBTError>(BOBTError::Unauthorized)
                && final(self)@ == old(self)@,
            admin == old(self)@.owner ==> r is Ok && final(self)@ == old(self)@.with_holders(
                role,
                old(self)@.holders(role).insert(account.id),
            ),
    {
        if admin != self.owner {
            return Err(BOBTError::Unauthorized);
        }
        let h = self.holders_mut(role);
        h.insert(account.id);
        Ok(())
    }

    /// Revokes `role` from `account`, on the owner's behalf.
    pub fn revoke_role(&mut self, admin: Address, role: Role, account: Address) -> (r: Result<(), BOBTError>)
        ensures
            admin != old(self)@.owner ==> r == Err::<(), BOBTError>(BOBTError::Unauthorized)
                && final(self)@ == old(self)@,
            admin == old(self)@.owner ==> r is Ok && final(self)@ == old(self)@.with_holders(
                role,
                old(self)@.holders(role).remove(account.id),
            ),
    {
        if admin != self.owner {
            return Err(BOBTError::Unauthorized);
        }
        let h = self.holders_mut(role);
        h.remove(&account.id);
        Ok(())
    }

    /// Hands ownership to `new_owner`: the owner role moves with it.
    pub fn transfer_ownership(&mut self, current_owner: Address, new_owner: Address) -> (r: Result<
        (),
        BOBTError,
    >)
        ensures
            current_owner != old(self)@.owner ==> r == Err::<(), BOBTError>(BOBTError::Unauthorized)
                && final(self)@ == old(self)@,
            current_owner == old(self)@.owner ==> r is Ok && final(self)@ == (LedgerState {
                owner: new_owner,
                owners: old(self)@.owners.remove(current_owner.id).insert(new_owner.id),
                ..old(self)@
            }),
    {
        if current_owner != self.owner {
            return Err(BOBTError::Unauthorized);
        }
        self.owners.remove(&current_owner.id);
        self.owners.insert(new_owner.id);
        self.owner = new_owner;
        Ok(())
    }

    /// The balance of `id`.
    pub fn balance(&self, id: Address) -> (r: i128)
        ensures
            r == self@.balance(id),
    {
        match self.balances.get(&id.id) {
            Some(b) => *b,
            None => 0,
        }
    }

    pub fn total_supply(&self) -> (r: i128)
        ensures
            r == self@.total_supply,
    {
        self.total_supply
    }

    pub fn decimals(&self) -> (r: u32)
        ensures
            r == TOKEN_DECIMALS,
    {
        TOKEN_DECIMALS
    }

    pub fn is_paused(&self) -> (r: bool)
        ensures
            r == self@.paused,
    {
        self.paused
    }

    pub fn is_frozen(&self, account: Address) -> (r: bool)
        ensures
            r == self@.frozen.contains(account.id),
    {
        self.frozen.contains(&account.id)
    }

    /// The allowance of `spender` over `from`'s balance at height `now`.
    pub fn allowance(&self, from: Address, spender: Address, now: u32) -> (r: i128)
        ensures
            r == self@.allowance(from, spender, now),
    {
        let k = key_of(from, spender);
        match self.allowances.get(&k) {
            Some(d) => if d.expiration_ledger >= now {
                d.amount
            } else {
                0
            },
            None => 0,
        }
    }

    /// Lets `spender` move up to `amount` of `from`'s balance until
    /// `expiration_ledger`; a non-positive amount or a past expiry removes
    /// the allowance.
    pub fn approve(
        &mut self,
        from: Address,
        spender: Address,
        amount: i128,
        expiration_ledger: u32,
        now: u32,
    ) -> (r: Result<(), BOBTError>)
        ensures
            old(self)@.paused ==> r == Err::<(), BOBTError>(BOBTError::ContractPaused) && final(self)@
                == old(self)@,
            !old(self)@.paused && old(self)@.frozen.contains(from.id) ==> r == Err::<(), BOBTError>(
                BOBTError::AccountFrozen,
            ) && final(self)@ == old(self)@,
            !old(self)@.paused && !old(self)@.frozen.contains(from.id) ==> r is Ok && final(self)@
                == (LedgerState {
                allowances: old(self)@.allowances_set(from, spender, amount, expiration_ledger, now),
                ..old(self)@
            }),
    {
        if self.paused {
            return Err(BOBTError::ContractPaused);
        }
        if self.frozen.contains(&from.id) {
            return Err(BOBTError::AccountFrozen);
        }
        let k = key_of(from, spender);
        if amount > 0 && expiration_ledger > now {
            self.allowances.insert(k, AllowanceData { amount, expiration_ledger });
        } else {
            self.allowances.remove(&k);
        }
        Ok(())
    }

    /// Whether spending `amount` of the allowance is possible at `now`.
    fn can_spend(&self, from: Address, spender: Address, amount: i128, now: u32) -> (r: bool)
        ensures
            r == self@.can_spend(from, spender, amount, now),
    {
        let k = key_of(from, spender);
        match self.allowances.get(&k) {
            Some(d) => d.expiration_ledger >= now && d.amount >= amount,
            None => false,
        }
    }

    /// Spends `amount` of a spendable allowance.
    fn spend_allowance(&mut self, from: Address, spender: Address, amount: i128, now: u32)
        requires
            old(self)@.can_spend(from, spender, amount, now),
            amount >= MIN_TRANSFER,
        ensures
            final(self)@ == (LedgerState {
                allowances: old(self)@.allowances_spent(from, spender, amount),
                ..old(self)@
            }),
    {
        let k = key_of(from, spender);
        let d = *self.allowances.get(&k).unwrap();
        let left = d.amount - amount;
        if left > 0 {
            self.allowances.insert(k, AllowanceData { amount: left, ..d });
        } else {
            self.allowances.remove(&k);
        }
    }

    fn check_transfer(&self, from: Address, to: Address, amount: i128) -> (r: Option<BOBTError>)
        ensures
            r == self@.transfer_error(from, to, amount),
    {
        if let Err(e) = validate_amount(amount) {
            return Some(e);
        }
        if from == to {
            return Some(BOBTError::CannotTransferToSelf);
        }
        if self.balance(from) < amount {
            return Some(BOBTError::InsufficientBalance);
        }
        if self.balance(to) > i128::MAX - amount {
            return Some(BOBTError::OverflowError);
        }
        None
    }

    fn transfer_internal(&mut self, from: Address, to: Address, amount: i128)
        requires
            old(self)@.transfer_error(from, to, amount) is None,
        ensures
            final(self)@ == old(self)@.after_transfer(from, to, amount),
    {
        let from_balance = self.balance(from);
        let to_balance = self.balance(to);
        self.balances.insert(from.id, from_balance - amount);
        self.balances.insert(to.id, to_balance + amount);
    }

    /// Moves `amount` from `from` to `to`.
    pub fn transfer(&mut self, from: Address, to: Address, amount: i128) -> (r: Result<(), BOBTError>)
        ensures
            match (if old(self)@.paused {
                Some(BOBTError::ContractPaused)
            } else if old(self)@.frozen.contains(from.id) || old(self)@.frozen.contains(to.id) {
                Some(BOBTError::AccountFrozen)
            } else {
                old(self)@.transfer_error(from, to, amount)
            }) {
                Some(e) => r == Err::<(), BOBTError>(e) && final(self)@ == old(self)@,
                None => r is Ok && final(self)@ == old(self)@.after_transfer(from, to, amount),
            },
    {
        if self.paused {
            return Err(BOBTError::ContractPaused);
        }
        if self.frozen.contains(&from.id) || self.frozen.contains(&to.id) {
            return Err(BOBTError::AccountFrozen);
        }
        match self.check_transfer(from, to, amount) {
            Some(e) => return Err(e),
            None => {},
        }
        self.transfer_internal(from, to, amount);
        Ok(())
    }

    /// Moves `amount` from `from` to `to` on `spender`'s allowance at `now`.
    pub fn transfer_from(
        &mut self,
        spender: Address,
        from: Address,
        to: Address,
        amount: i128,
        now: u32,
    ) -> (r: Result<(), BOBTError>)
        ensures
            match (if old(self)@.paused {
                Some(BOBTError::ContractPaused)
            } else if old(self)@.frozen.contains(from.id) || old(self)@.frozen.contains(to.id)
                || old(self)@.frozen.contains(spender.id) {
                Some(BOBTError::AccountFrozen)
            } else if !old(self)@.can_spend(from, spender, amount, now) {
                Some(BOBTError::InsufficientAllowance)
            } else {
                old(self)@.transfer_error(from, to, amount)
            }) {
                Some(e) => r == Err::<(), BOBTError>(e) && final(self)@ == old(self)@,
                None => r is Ok && final(self)@ == (LedgerState {
                    allowances: old(self)@.allowances_spent(from, spender, amount),
                    ..old(self)@
                }).after_transfer(from, to, amount),
            },
    {
        if self.paused {
            return Err(BOBTError::ContractPaused);
        }
        if self.frozen.contains(&from.id) || self.frozen.contains(&to.id) || self.frozen.contains(
            &spender.id,
        ) {
            return Err(BOBTError::AccountFrozen);
        }
        if !self.can_spend(from, spender, amount, now) {
            return Err(BOBTError::InsufficientAllowance);
        }
        match self.check_transfer(from, to, amount) {
            Some(e) => return Err(e),
            None => {},
        }
        self.spend_allowance(from, spender, amount, now);
        self.transfer_internal(from, to, amount);
        Ok(())
    }

    fn check_burn(&self, from: Address, amount: i128) -> (r: Option<BOBTError>)
        ensures
            r == self@.burn_internal_error(from, amount),
    {
        if let Err(e) = validate_amount(amount) {
            return Some(e);
        }
        if self.balance(from) < amount {
            return Some(BOBTError::InsufficientBalance);
        }
        if self.total_supply < i128::MIN + amount {
            return Some(BOBTError::OverflowError);
        }
        None
    }

    fn burn_internal(&mut self, from: Address, amount: i128)
        requires
            old(self)@.burn_internal_error(from, amount) is None,
        ensures
            final(self)@ == old(self)@.after_burn_internal(from, amount),
    {
        let balance = self.balance(from);
        self.balances.insert(from.id, balance - amount);
        self.total_supply = self.total_supply - amount;
    }

    /// Burns `amount` of the caller's own balance.
    pub fn burn(&mut self, from: Address, amount: i128) -> (r: Result<(), BOBTError>)
        ensures
            match (if old(self)@.paused {
                Some(BOBTError::ContractPaused)
            } else {
                old(self)@.burn_internal_error(from, amount)
            }) {
                Some(e) => r == Err::<(), BOBTError>(e) && final(self)@ == old(self)@,
                None => r is Ok && final(self)@ == old(self)@.after_burn_internal(from, amount),
            },
    {
        if self.paused {
            return Err(BOBTError::ContractPaused);
        }
        match self.check_burn(from, amount) {
            Some(e) => return Err(e),
            None => {},
        }
        self.burn_internal(from, amount);
        Ok(())
    }

    /// Burns `amount` of `from`'s balance on `spender`'s allowance at `now`.
    pub fn burn_from(&mut self, spender: Address, from: Address, amount: i128, now: u32) -> (r: Result<
        (),
        BOBTError,
    >)
        ensures
            match (if old(self)@.paused {
                Some(BOBTError::ContractPaused)
            } else if !old(self)@.can_spend(from, spender, amount, now) {
                Some(BOBTError::InsufficientAllowance)
            } else {
                old(self)@.burn_internal_error(from, amount)
            }) {
                Some(e) => r == Err::<(), BOBTError>(e) && final(self)@ == old(self)@,
                None => r is Ok && final(self)@ == (LedgerState {
                    allowances: old(self)@.allowances_spent(from, spender, amount),
                    ..old(self)@
                }).after_burn_internal(from, amount),
            },
    {
        if self.paused {
            return Err(BOBTError::ContractPaused);
        }
        if !self.can_spend(from, spender, amount, now) {
            return Err(BOBTError::InsufficientAllowance);
        }
        match self.check_burn(from, amount) {
            Some(e) => return Err(e),
            None => {},
        }
        self.spend_allowance(from, spender, amount, now);
        self.burn_internal(from, amount);
        Ok(())
    }

    /// Whether a mint under `request_id` was served.
    pub fn mint_request_exists(&self, request_id: &String) -> (r: bool)
        ensures
            r == self@.mint_refs.contains(request_id@),
    {
        contains_ref(&self.mint_refs, request_id)
    }

    /// Whether a burn under `request_id` was served.
    pub fn burn_request_exists(&self, request_id: &String) -> (r: bool)
        ensures
            r == self@.burn_refs.contains(request_id@),
    {
        contains_ref(&self.burn_refs, request_id)
    }

    /// Mints `amount` to `to` on behalf of `minter`, once per `request_id`.
    pub fn admin_mint(&mut self, minter: Address, to: Address, amount: i128, request_id: String) -> (r:
        Result<(), BOBTError>)
        ensures
            match old(self)@.mint_error(minter, to, amount, request_id@) {
                Some(e) => r == Err::<(), BOBTError>(e) && final(self)@ == old(self)@,
                None => r is Ok && final(self)@ == old(self)@.after_mint(to, amount, request_id@),
            },
    {
        if !self.minters.contains(&minter.id) {
            return Err(BOBTError::Unauthorized);
        }
        if self.paused {
            return Err(BOBTError::ContractPaused);
        }
        if self.frozen.contains(&to.id) {
            return Err(BOBTError::AccountFrozen);
        }
        if contains_ref(&self.mint_refs, &request_id) {
            return Err(BOBTError::RequestAlreadyExists);
        }
        if let Err(e) = validate_amount(amount) {
            return Err(e);
        }
        if self.total_supply > MAX_SUPPLY - amount {
            return Err(BOBTError::AmountTooLarge);
        }
        let balance = self.balance(to);
        let new_balance = match balance.checked_add(amount) {
            Some(b) => b,
            None => return Err(BOBTError::OverflowError),
        };
        let ghost pre = self@;
        self.balances.insert(to.id, new_balance);
        self.total_supply = self.total_supply + amount;
        self.mint_refs.push(request_id);
        assert(self@.mint_refs =~= pre.mint_refs.push(request_id@));
        Ok(())
    }

    /// Burns `amount` from `from` on behalf of `operator`, once per
    /// `request_id`.
    pub fn admin_burn(&mut self, operator: Address, from: Address, amount: i128, request_id: String) -> (r:
        Result<(), BOBTError>)
        ensures
            match old(self)@.burn_error(operator, from, amount, request_id@) {
                Some(e) => r == Err::<(), BOBTError>(e) && final(self)@ == old(self)@,
                None => r is Ok && final(self)@ == old(self)@.after_burn(from, amount, request_id@),
            },
    {
        if !self.minters.contains(&operator.id) {
            return Err(BOBTError::Unauthorized);
        }
        if self.paused {
            return Err(BOBTError::ContractPaused);
        }
        if contains_ref(&self.burn_refs, &request_id) {
            return Err(BOBTError::RequestAlreadyExists);
        }
        match self.check_burn(from, amount) {
            Some(e) => return Err(e),
            None => {},
        }
        self.burn_internal(from, amount);
        let ghost pre = self@;
        self.burn_refs.push(request_id);
        assert(self@.burn_refs =~= pre.burn_refs.push(request_id@));
        Ok(())
    }

    /// Pauses transfers, minting and burning, on behalf of `pauser`.
    pub fn pause(&mut self, pauser: Address) -> (r: Result<(), BOBTError>)
        ensures
            match old(self)@.apply(pauser, LedgerCallView::Pause) {
                Ok(s) => r is Ok && final(self)@ == s,
                Err(e) => r == Err::<(), BOBTError>(e) && final(self)@ == old(self)@,
            },
    {
        if !self.pausers.contains(&pauser.id) {
            return Err(BOBTError::Unauthorized);
        }
        if self.paused {
            return Err(BOBTError::ContractPaused);
        }
        self.paused = true;
        Ok(())
    }

    /// Lifts a pause, on behalf of `pauser`.
    pub fn unpause(&mut self, pauser: Address) -> (r: Result<(), BOBTError>)
        ensures
            match old(self)@.apply(pauser, LedgerCallView::Unpause) {
                Ok(s) => r is Ok && final(self)@ == s,
                Err(e) => r == Err::<(), BOBTError>(e) && final(self)@ == old(self)@,
            },
    {
        if !self.pausers.contains(&pauser.id) {
            return Err(BOBTError::Unauthorized);
        }
        if !self.paused {
            return Err(BOBTError::ContractNotPaused);
        }
        self.paused = false;
        Ok(())
    }

    /// Freezes `account`, on behalf of `blacklister`.
    pub fn freeze(&mut self, blacklister: Address, account: Address) -> (r: Result<(), BOBTError>)
        ensures
            match old(self)@.apply(blacklister, LedgerCallView::Freeze { account }) {
                Ok(s) => r is Ok && final(self)@ == s,
                Err(e) => r == Err::<(), BOBTError>(e) && final(self)@ == old(self)@,
            },
    {
        if !self.blacklisters.contains(&blacklister.id) {
            return Err(BOBTError::Unauthorized);
        }
        if self.frozen.contains(&account.id) {
            return Err(BOBTError::AccountFrozen);
        }
        self.frozen.insert(account.id);
        Ok(())
    }

    /// Lifts the freeze of `account`, on behalf of `blacklister`.
    pub fn unfreeze(&mut self, blacklister: Address, account: Address) -> (r: Result<(), BOBTError>)
        ensures
            match old(self)@.apply(blacklister, LedgerCallView::Unfreeze { account }) {
                Ok(s) => r is Ok && final(self)@ == s,
                Err(e) => r == Err::<(), BOBTError>(e) && final(self)@ == old(self)@,
            },
    {
        if !self.blacklisters.contains(&blacklister.id) {
            return Err(BOBTError::Unauthorized);
        }
        if !self.frozen.contains(&account.id) {
            return Err(BOBTError::AccountNotFrozen);
        }
        self.frozen.remove(&account.id);
        Ok(())
    }

    /// Destroys the whole balance of the frozen `account`, on behalf of
    /// `blacklister`.
    pub fn destroy_frozen_funds(&mut self, blacklister: Address, account: Address) -> (r: Result<
        (),
        BOBTError,
    >)
        ensures
            !old(self)@.has_role(Role::Blacklister, blacklister) ==> r == Err::<(), BOBTError>(
                BOBTError::Unauthorized,
            ) && final(self)@ == old(self)@,
            old(self)@.has_role(Role::Blacklister, blacklister) && !old(self)@.frozen.contains(
                account.id,
            ) ==> r == Err::<(), BOBTError>(BOBTError::AccountNotFrozen) && final(self)@ == old(
                self,
            )@,
            old(self)@.has_role(Role::Blacklister, blacklister) && old(self)@.frozen.contains(
                account.id,
            ) && old(self)@.balance(account) <= 0 ==> r is Ok && final(self)@ == old(self)@,
            old(self)@.has_role(Role::Blacklister, blacklister) && old(self)@.frozen.contains(
                account.id,
            ) && old(self)@.balance(account) > 0 ==> {
                if old(self)@.total_supply - old(self)@.balance(account) < i128::MIN {
                    r == Err::<(), BOBTError>(BOBTError::OverflowError) && final(self)@ == old(self)@
                } else {
                    r is Ok && final(self)@ == (LedgerState {
                        balances: old(self)@.balances.insert(account.id, 0),
                        total_supply: (old(self)@.total_supply - old(self)@.balance(account)) as i128,
                        ..old(self)@
                    })
                }
            },
    {
        if !self.blacklisters.contains(&blacklister.id) {
            return Err(BOBTError::Unauthorized);
        }
        if !self.frozen.contains(&account.id) {
            return Err(BOBTError::AccountNotFrozen);
        }
        let balance = self.balance(account);
        if balance > 0 {
            let new_supply = match self.total_supply.checked_sub(balance) {
                Some(s) => s,
                None => return Err(BOBTError::OverflowError),
            };
            self.balances.insert(account.id, 0);
            self.total_supply = new_supply;
        }
        Ok(())
    }

    /// Serves the ledger call of an executed treasury proposal, made by the
    /// treasury at `caller`.
    pub fn apply(&mut self, caller: Address, call: LedgerCall) -> (r: Result<(), BOBTError>)
        ensures
            match old(self)@.apply(caller, call@) {
                Ok(s) => r is Ok && final(self)@ == s,
                Err(e) => r == Err::<(), BOBTError>(e) && final(self)@ == old(self)@,
            },
    {
        match call {
            LedgerCall::NoCall => Ok(()),
            LedgerCall::Mint { to, amount, external_ref } => self.admin_mint(caller, to, amount, external_ref),
            LedgerCall::Burn { from, amount, external_ref } => self.admin_burn(
                caller,
                from,
                amount,
                external_ref,
            ),
            LedgerCall::Pause => self.pause(caller),
            LedgerCall::Unpause => self.unpause(caller),
            LedgerCall::Freeze { account } => self.freeze(caller, account),
            LedgerCall::Unfreeze { account } => self.unfreeze(caller, account),
        }
    }
}

} // verus!
