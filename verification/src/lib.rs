//! A collateralised lending pool: proposals backed by a bond, approval into
//! funded loans tracked in a bounded registry, and periodic interest accrual.

pub mod types;
pub mod bond;
pub mod accrual;
pub mod payload;
pub mod registry;
pub mod pool;
pub mod laws;

pub use crate::types::{
    AccountId, Authority, Balance, CollateralParams, CollectionId, Config, DisbursementParams,
    Error, Event, GenesisConfig, ItemId, LoanApy, LoanIndex, LoanInfo, Proposal, ProposalIndex,
};
pub use crate::pool::{Approval, Burn, Pallet, PoolState, Reserve, Slash, Step, Undo};
