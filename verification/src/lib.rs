//! Verified account logic of a set of Solana programs: a lamport vault, a
//! token escrow, an NFT marketplace, the Pika Vault collectibles marketplace
//! and an NFT staking program.
//!
//! Every instruction handler is split in two. The library decides: it checks
//! the account constraints, computes the new account states and describes the
//! cross-program calls that the handler has to make. The on-chain entry points
//! perform those calls and write the new states back.
pub mod address;
pub mod cpi;
pub mod pika_vault;
pub mod staking;
pub mod anchor_vault;
pub mod anchor_escrow;
pub mod marketplace;
