//! The instruction handlers of the staking program.
pub mod initialize;
pub mod unstake;
