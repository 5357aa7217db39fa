//! The fixed parameters of the mock runtimes.

use vstd::prelude::*;

verus! {

/// Number of recent block hashes kept by the system pallet.
pub const BLOCK_HASH_COUNT: u64 = 250;

/// Maximum weight of a block.
pub const MAXIMUM_BLOCK_WEIGHT: u32 = 1024;

/// Maximum length of a block, in bytes.
pub const MAXIMUM_BLOCK_LENGTH: u32 = 2048;

/// Share of a block available to normal transactions, in parts per
/// billion: the whole block.
pub const AVAILABLE_BLOCK_RATIO_PER_BILLION: u32 = 1_000_000_000;

/// Minimum period between two blocks, in timestamp units.
pub const MINIMUM_PERIOD: u64 = 1;

/// Blocks a signed claim has to wait before it may evict a contract.
pub const SIGNED_CLAIM_HANDICAP: u64 = 2;

/// Deposit needed to leave a tombstone behind.
pub const TOMBSTONE_DEPOSIT: u64 = 16;

/// Storage size that every contract is charged for at least.
pub const STORAGE_SIZE_OFFSET: u32 = 8;

/// Rent charged per byte of contract storage.
pub const RENT_BYTE_FEE: u64 = 4;

/// Deposit offset used when computing the rent of a contract.
pub const RENT_DEPOSIT_OFFSET: u64 = 10_000;

/// Reward paid for a successful surcharge of a contract.
pub const SURCHARGE_REWARD: u64 = 150;

/// Base fee of every transaction.
pub const TRANSACTION_BASE_FEE: u64 = 2;

/// Fee per byte of a transaction.
pub const TRANSACTION_BYTE_FEE: u64 = 6;

/// Fee for calling into a contract.
pub const CONTRACT_FEE: u64 = 21;

/// Base gas fee of a contract call.
pub const CALL_BASE_FEE: u64 = 135;

/// Base gas fee of a contract instantiation.
pub const INSTANTIATE_BASE_FEE: u64 = 175;

/// Maximum depth of nested contract calls.
pub const MAX_DEPTH: u32 = 100;

/// Maximum size of a value kept in contract storage.
pub const MAX_VALUE_SIZE: u32 = 16_384;

/// The account of Alice in the contract tests.
pub const ALICE: u64 = 1;

/// The account of Bob in the contract tests.
pub const BOB: u64 = 2;

} // verus!
