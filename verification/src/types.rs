//! The values that the pool records, takes and answers with.

use vstd::prelude::*;

verus! {

/// Canonical account identifier: thirty-two raw bytes.
pub type AccountId = [u8; 32];

pub type Balance = u128;

pub type CollectionId = u32;

pub type ItemId = u32;

pub type LoanApy = u64;

pub type ProposalIndex = u32;

pub type LoanIndex = u32;

/// The largest value a bond fraction may hold, in parts per million.
pub const MILLION: u32 = 1_000_000;

/// A loan proposal.
#[derive(Clone, Copy, Debug, PartialEq, Eq)]
pub struct Proposal {
    pub proposer: AccountId,
    pub amount: Balance,
    pub beneficiary: AccountId,
    pub bond: Balance,
}

/// A funded loan.
#[derive(Clone, Copy, Debug, PartialEq, Eq)]
pub struct LoanInfo {
    pub borrower: AccountId,
    pub amount: Balance,
    pub collection_id: CollectionId,
    pub item_id: ItemId,
    pub loan_apy: LoanApy,
    pub last_timestamp: u64,
}

/// Policy constants of a pool.
#[derive(Clone, Copy, Debug, PartialEq, Eq)]
pub struct Config {
    /// Fraction of a proposal's value that is bonded, in parts per million.
    pub proposal_bond: u32,
    /// Lower bound of a bond.
    pub proposal_bond_minimum: Balance,
    /// Upper bound of a bond, if there is one.
    pub proposal_bond_maximum: Option<Balance>,
    /// Identifier from which the pool's own account is derived.
    pub pallet_id: [u8; 8],
}


/// What a caller is entitled to do.
#[derive(Clone, Copy, Debug, PartialEq, Eq)]
pub struct Authority {
    pub may_reject: bool,
    pub may_approve: bool,
    pub is_loan_contract: bool,
}

/// Collateral to be issued for an approved loan.
#[derive(Clone, Copy, Debug, PartialEq, Eq)]
pub struct CollateralParams {
    pub collection_id: CollectionId,
    pub item_id: ItemId,
    pub collateral_price: Balance,
    pub loan_apy: LoanApy,
}

/// How the loan contract is to be invoked.
#[derive(Clone, Copy, Debug, PartialEq, Eq)]
pub struct DisbursementParams {
    pub dest: AccountId,
    pub admin: AccountId,
    pub value_funds: Balance,
    pub storage_deposit_limit: Option<Balance>,
    pub gas_ref_time: u64,
    pub gas_proof_size: u64,
}

#[derive(Clone, Copy, Debug, PartialEq, Eq)]
pub enum Error {
    /// Proposer's balance is too low.
    InsufficientProposersBalance,
    /// Loan pool's balance is too low.
    InsufficientLoanPoolBalance,
    /// No record under the index.
    InvalidIndex,
    /// The caller lacks the required authority.
    InsufficientPermission,
    /// Max amount of ongoing loans reached.
    TooManyLoans,
}

#[derive(Clone, Copy, Debug, PartialEq, Eq)]
pub enum Event {
    /// New proposal.
    Proposed { proposal_index: ProposalIndex },
    /// Proposal has been approved.
    Approved { proposal_index: ProposalIndex },
    /// Proposal has been rejected.
    Rejected { proposal_index: ProposalIndex },
}

/// Start-up step that makes sure the pool's account exists.
#[derive(Clone, Copy, Debug, PartialEq, Eq)]
pub struct GenesisConfig {}

impl GenesisConfig {
    /// The balance that the pool's account must be set to at start-up, if any:
    /// the ledger's minimum balance, when the account holds less than that.
    pub fn build(&self, free_balance: Balance, minimum_balance: Balance) -> (top_up: Option<Balance>)
        ensures
            top_up == (if free_balance < minimum_balance {
                Some(minimum_balance)
            } else {
                None
            }),
    {
        if free_balance < minimum_balance {
            Some(minimum_balance)
        } else {
            None
        }
    }
}

} // verus!
