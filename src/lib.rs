//! A crowdfunding ledger: proposals with a funding goal, contributions
//! towards them, and a one-time payout to the owner once the goal is
//! funded past the reclaim threshold.
pub mod funding;
pub mod records;
pub mod contract;
pub mod laws;

pub use contract::{DEFAULT_ADMIN, ForMyFuture};
pub use records::{ContractError, Contribution, Payment, Payout, Proposal, ProposalStatus, User};
