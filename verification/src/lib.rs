//! Account mapping between Substrate accounts and EVM addresses, the
//! randomness precompile, and the runtime's fee constants.

pub mod hex;
pub mod crypto;
pub mod message;
pub mod storage;
pub mod signing;
pub mod transaction;
pub mod evm_accounts;
pub mod randomness;
pub mod constants;
pub mod laws;
