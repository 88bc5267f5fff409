//! The treasury's data: identities, proposals, configuration and the
//! calls that an executed proposal asks of the value ledger.
use vstd::prelude::*;

verus! {

/// Maximum number of signers.
pub const MAX_SIGNERS: u32 = 10;

/// Minimum number of signers.
pub const MIN_SIGNERS: u32 = 1;

/// How many ledgers a proposal stays open after its creation (seven days).
pub const PROPOSAL_EXPIRATION_LEDGERS: u32 = 120960;

/// One day in ledgers: the length of a rate-limit epoch.
pub const ONE_DAY_LEDGERS: u32 = 17280;

/// One token in base units.
pub const ONE_TOKEN: i128 = 10_000_000;

/// Default epoch cap on minting: ten million tokens.
pub const DEFAULT_DAILY_MINT_LIMIT: i128 = 100_000_000_000_000;

/// Default epoch cap on burning: ten million tokens.
pub const DEFAULT_DAILY_BURN_LIMIT: i128 = 100_000_000_000_000;

/// Default cap on a single mint or burn: one million tokens.
pub const DEFAULT_SINGLE_OP_LIMIT: i128 = 10_000_000_000_000;

/// Version of the treasury's state layout.
pub const CONTRACT_VERSION: u32 = 1;

/// An account or contract identity, as a number that the host assigns.
#[derive(Clone, Copy, Debug, PartialEq, Eq, Structural)]
pub struct Address {
    pub id: u64,
}

/// The kinds of governance action a proposal can carry.
#[derive(Clone, Copy, Debug, PartialEq, Eq, Structural)]
pub enum ProposalType {
    Mint,
    Burn,
    AddSigner,
    RemoveSigner,
    UpdateThreshold,
    UpdateRateLimits,
    EmergencyPause,
    Unpause,
    FreezeAccount,
    UnfreezeAccount,
    MintFromUsdt,
    SetOracle,
}

/// The stored status of a proposal. `Expired` is never stored: expiry is
/// derived from the ledger height.
#[derive(Clone, Copy, Debug, PartialEq, Eq, Structural)]
pub enum ProposalStatus {
    Pending,
    Executed,
    Cancelled,
    Expired,
}

/// Treasury configuration.
#[derive(Clone, Copy, Debug, PartialEq, Eq, Structural)]
pub struct TreasuryConfig {
    /// The value ledger that mints and burns.
    pub token_address: Address,
    /// The price oracle, once one is set.
    pub oracle_address: Option<Address>,
    /// Threshold cached at initialization and by threshold updates.
    pub threshold: u32,
    pub daily_mint_limit: i128,
    pub daily_burn_limit: i128,
    pub single_op_limit: i128,
}

/// A multi-signature proposal.
#[derive(Debug)]
pub struct Proposal {
    /// Identifier, allocated from 1 upwards.
    pub id: u64,
    pub proposal_type: ProposalType,
    pub proposer: Address,
    /// Account minted to or burned from, signer added or removed,
    /// account frozen, or oracle set.
    pub target: Address,
    /// Amount of a mint or burn, the new threshold, or the advisory
    /// converted amount of a quote-denominated mint.
    pub amount: i128,
    /// Quote-denominated amount of a quote-denominated mint.
    pub usdt_amount: i128,
    /// Caller-supplied reference to an off-chain event.
    pub external_ref: String,
    pub created_at: u32,
    pub expires_at: u32,
    pub approval_count: u32,
    pub status: ProposalStatus,
}

/// What an executed proposal asks of the value ledger.
#[derive(Debug)]
pub enum LedgerCall {
    NoCall,
    Mint { to: Address, amount: i128, external_ref: String },
    Burn { from: Address, amount: i128, external_ref: String },
    Pause,
    Unpause,
    Freeze { account: Address },
    Unfreeze { account: Address },
}

/// The mathematical view of a proposal.
pub struct ProposalView {
    pub id: u64,
    pub proposal_type: ProposalType,
    pub proposer: Address,
    pub target: Address,
    pub amount: i128,
    pub usdt_amount: i128,
    pub external_ref: Seq<char>,
    pub created_at: u32,
    pub expires_at: u32,
    pub approval_count: u32,
    pub status: ProposalStatus,
}

impl View for Proposal {
    type V = ProposalView;

    open spec fn view(&self) -> ProposalView {
        ProposalView {
            id: self.id,
            proposal_type: self.proposal_type,
            proposer: self.proposer,
            target: self.target,
            amount: self.amount,
            usdt_amount: self.usdt_amount,
            external_ref: self.external_ref@,
            created_at: self.created_at,
            expires_at: self.expires_at,
            approval_count: self.approval_count,
            status: self.status,
        }
    }
}

/// The mathematical view of a ledger call.
pub enum LedgerCallView {
    NoCall,
    Mint { to: Address, amount: i128, external_ref: Seq<char> },
    Burn { from: Address, amount: i128, external_ref: Seq<char> },
    Pause,
    Unpause,
    Freeze { account: Address },
    Unfreeze { account: Address },
}

impl View for LedgerCall {
    type V = LedgerCallView;

    open spec fn view(&self) -> LedgerCallView {
        match self {
            LedgerCall::NoCall => LedgerCallView::NoCall,
            LedgerCall::Mint { to, amount, external_ref } => LedgerCallView::Mint {
                to: *to,
                amount: *amount,
                external_ref: external_ref@,
            },
            LedgerCall::Burn { from, amount, external_ref } => LedgerCallView::Burn {
                from: *from,
                amount: *amount,
                external_ref: external_ref@,
            },
            LedgerCall::Pause => LedgerCallView::Pause,
            LedgerCall::Unpause => LedgerCallView::Unpause,
            LedgerCall::Freeze { account } => LedgerCallView::Freeze { account: *account },
            LedgerCall::Unfreeze { account } => LedgerCallView::Unfreeze { account: *account },
        }
    }
}

impl Proposal {
    /// A copy of the proposal.
    pub fn duplicate(&self) -> (r: Proposal)
        ensures
            r == *self,
    {
        Proposal {
            id: self.id,
            proposal_type: self.proposal_type,
            proposer: self.proposer,
            target: self.target,
            amount: self.amount,
            usdt_amount: self.usdt_amount,
            external_ref: self.external_ref.clone(),
            created_at: self.created_at,
            expires_at: self.expires_at,
            approval_count: self.approval_count,
            status: self.status,
        }
    }
}

} // verus!
