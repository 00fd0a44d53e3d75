//! A time-gated reward distribution engine for a single claimdrop campaign:
//! schedules that release each allocation over time, an allocation ledger,
//! claim settlement and a blacklist, with the plain data types of the chain
//! modules around it.
pub mod bytes;
pub mod contract;
pub mod decimal;
pub mod error;
pub mod evm;
pub mod ledger;
pub mod msg;
pub mod staking;
pub mod tokenfactory;
pub mod vesting;
