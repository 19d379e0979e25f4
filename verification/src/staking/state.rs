//! The accounts of the staking program.
use vstd::prelude::*;

use crate::address::Address;

verus! {

/// The program's settings.
#[derive(Clone, Copy, Debug)]
pub struct StakeConfig {
    /// Reward points per staked NFT.
    pub point_per_stake: u8,
    /// How many NFTs a user may stake.
    pub max_stake: u8,
    /// The days that an NFT stays staked before it can be unstaked.
    pub freeze_period: u32,
    pub reward_bump: u8,
    pub bump: u8,
}

/// One staked NFT.
#[derive(Clone, Copy, Debug)]
pub struct StakeAccounts {
    pub owner: Address,
    pub nft_mint: Address,
    /// When the NFT was staked, in seconds since the Unix epoch.
    pub staked_at: i64,
    pub bump: u8,
}

/// A staker.
#[derive(Clone, Copy, Debug)]
pub struct UserAccount {
    /// The reward points earned.
    pub points: u32,
    /// The NFTs staked.
    pub amount_staked: u8,
    pub bump: u8,
}

} // verus!
