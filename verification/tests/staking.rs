use anchor_programs::address::Address;
use anchor_programs::staking::error::CustomError;
use anchor_programs::staking::instructions::initialize::{InitializeConfig, InitializeConfigBumps};
use anchor_programs::staking::instructions::unstake::Unstake;
use anchor_programs::staking::state::{StakeAccounts, StakeConfig, UserAccount};

fn addr(b: u8) -> Address {
    Address::new([b; 32])
}

fn config(freeze_period: u32) -> StakeConfig {
    StakeConfig { point_per_stake: 10, max_stake: 5, freeze_period, reward_bump: 1, bump: 2 }
}

fn ctx(staked_at: i64, freeze_period: u32, amount_staked: u8) -> Unstake {
    Unstake {
        user: addr(1),
        nft_mint: addr(2),
        nft_mint_ata: addr(3),
        edition: addr(4),
        stake_account_address: addr(5),
        stake_account: StakeAccounts { owner: addr(1), nft_mint: addr(2), staked_at, bump: 251 },
        config_address: addr(6),
        config: config(freeze_period),
        user_account: UserAccount { points: 0, amount_staked, bump: 7 },
    }
}

const DAY: i64 = 86_400;

#[test]
fn initialize_config_records_settings() {
    let mut c = InitializeConfig { config: config(0) };
    let r = c.initialize(3, 7, 9, &InitializeConfigBumps { config: 250, reward_mint: 249 });
    assert!(r.is_ok());
    assert_eq!(c.config.point_per_stake, 3);
    assert_eq!(c.config.freeze_period, 7);
    assert_eq!(c.config.max_stake, 9);
    assert_eq!(c.config.reward_bump, 249);
    assert_eq!(c.config.bump, 250);
}

#[test]
fn unstake_after_freeze_period() {
    let mut u = ctx(1_000, 3, 2);
    let eff = u.unstake(1_000 + 3 * DAY).unwrap();
    assert_eq!(u.user_account.amount_staked, 1);
    assert!(eff.thaw.delegate == addr(5));
    assert!(eff.thaw.token_account == addr(3));
    assert!(eff.thaw.edition == addr(4));
    assert!(eff.thaw.mint == addr(2));
    assert_eq!(
        eff.thaw.signer_seeds,
        vec![b"stake_account".to_vec(), vec![6u8; 32], vec![2u8; 32], vec![251u8]]
    );
    assert!(eff.revoke.source == addr(2) && eff.revoke.authority == addr(1));
    assert!(eff.close_stake_account.account == addr(5));
    assert!(eff.close_stake_account.destination == addr(1));
}

#[test]
fn unstake_before_freeze_period_is_refused() {
    let mut u = ctx(1_000, 3, 2);
    let r = u.unstake(1_000 + 3 * DAY - 1);
    assert!(r.unwrap_err() == CustomError::FreezePeriodNotPassed);
    assert_eq!(u.user_account.amount_staked, 2);
}

#[test]
fn unstake_counts_whole_days_toward_zero() {
    // Less than a day before the stake rounds to zero days.
    let mut u = ctx(10 * DAY, 0, 1);
    assert!(u.unstake(10 * DAY - DAY + 1).is_ok());
    // More than a day before the stake is a negative count, truncated to 32
    // bits: a very large number of days.
    let mut v = ctx(10 * DAY, u32::MAX, 1);
    assert!(v.unstake(10 * DAY - DAY).is_ok());
    let mut w = ctx(10 * DAY, 1, 1);
    assert!(w.unstake(10 * DAY - DAY + 1).is_err());
}
