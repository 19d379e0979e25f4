//! NFT staking: a user stakes NFTs of a collection and may unstake them
//! once a freeze period has passed.
pub mod error;
pub mod instructions;
pub mod state;
