//! Plain data types of the chain's EVM modules, as their messages carry them.
pub mod cosmos_base;
pub mod erc20;
pub mod ethsecp256k1;
pub mod feemarket;
pub mod precisebank;
pub mod types;
pub mod vm;
