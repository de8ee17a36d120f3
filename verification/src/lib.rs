//! State transitions of a token-gated DAO: delegations, open donations,
//! donations to proposals and bounties, all driven by one transfer
//! notification.
//!
//! The state is an in-memory aggregate. Every operation validates before it
//! mutates, so a rejected call leaves the aggregate exactly as it found it.

pub mod bounty;
pub mod contract;
pub mod delegation;
pub mod donations;
pub mod error;
pub mod laws;
pub mod ledger;
pub mod model;
pub mod proposals;
pub mod transfer;
pub mod types;
pub mod utils;
pub mod views;

pub use crate::error::DaoError;
pub use crate::bounty::{Bounty, BountyInput};
pub use crate::contract::Contract;
pub use crate::ledger::{Ledger, LedgerEntry};
pub use crate::proposals::{Proposal, ProposalKind};
pub use crate::types::{DaoMetadata, StorageKeys, TransferArgs, TransferPurpose};
