//! Creating the staking configuration.
use vstd::prelude::*;

use crate::staking::error::CustomError;
use crate::staking::state::StakeConfig;

verus! {

/// The bump seeds that were found for the configuration and the reward mint.
#[derive(Clone, Copy, Debug)]
pub struct InitializeConfigBumps {
    pub config: u8,
    pub reward_mint: u8,
}

/// The accounts of the configuration's creation.
#[derive(Clone, Copy, Debug)]
pub struct InitializeConfig {
    /// The configuration account as created.
    pub config: StakeConfig,
}

impl InitializeConfig {
    /// Fills the configuration with the given settings.
    pub fn initialize(
        &mut self,
        point_per_stake: u8,
        freeze_period: u32,
        max_stake: u8,
        bumps: &InitializeConfigBumps,
    ) -> (r: Result<(), CustomError>)
        ensures
            r is Ok,
            final(self).config == (StakeConfig {
                point_per_stake,
                max_stake,
                freeze_period,
                reward_bump: bumps.reward_mint,
                bump: bumps.config,
            }),
    {
        self.config = StakeConfig {
            point_per_stake,
            max_stake,
            freeze_period,
            reward_bump: bumps.reward_mint,
            bump: bumps.config,
        };
        Ok(())
    }
}

} // verus!
