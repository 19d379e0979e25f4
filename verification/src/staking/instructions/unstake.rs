//! Unstaking an NFT once its freeze period has passed.
use vstd::prelude::*;

use crate::address::Address;
use crate::cpi::{seeds_view, AccountClose};
use crate::staking::error::CustomError;
use crate::staking::state::{StakeAccounts, StakeConfig, UserAccount};

verus! {

/// Seconds in a day.
pub const SECONDS_PER_DAY: i64 = 86400;

/// The ASCII bytes of `stake_account`, the first seed of a stake account.
pub open spec fn stake_account_seed() -> Seq<u8> {
    seq![115u8, 116u8, 97u8, 107u8, 101u8, 95u8, 97u8, 99u8, 99u8, 111u8, 117u8, 110u8, 116u8]
}

/// `a / d` rounded toward zero, as Rust's integer division rounds.
pub open spec fn div_toward_zero(a: int, d: int) -> int {
    if a >= 0 {
        a / d
    } else {
        -((-a) / d)
    }
}

/// The whole days from `staked_at` to `now`, rounded toward zero and
/// truncated to 32 bits.
pub open spec fn days_elapsed(now: i64, staked_at: i64) -> u32 {
    div_toward_zero(now - staked_at, SECONDS_PER_DAY as int) as u32
}

/// The metadata program's `ThawDelegatedAccount` call, signed by the stake
/// account.
#[derive(Clone, Debug)]
pub struct ThawDelegatedAccount {
    pub delegate: Address,
    pub token_account: Address,
    pub edition: Address,
    pub mint: Address,
    pub signer_seeds: Vec<Vec<u8>>,
}

/// The token program's `revoke` call.
#[derive(Clone, Copy, Debug)]
pub struct RevokeDelegate {
    pub source: Address,
    pub authority: Address,
}

/// The calls that unstaking asks for, in this order.
#[derive(Clone, Debug)]
pub struct UnstakeEffects {
    pub thaw: ThawDelegatedAccount,
    pub revoke: RevokeDelegate,
    /// The stake account's closing, to the user.
    pub close_stake_account: AccountClose,
}

/// The accounts of an unstaking, as the handler reads them.
#[derive(Clone, Copy, Debug)]
pub struct Unstake {
    /// The user, who signs.
    pub user: Address,
    pub nft_mint: Address,
    /// The user's token account for the NFT.
    pub nft_mint_ata: Address,
    /// The NFT's master edition.
    pub edition: Address,
    pub stake_account_address: Address,
    pub stake_account: StakeAccounts,
    pub config_address: Address,
    pub config: StakeConfig,
    pub user_account: UserAccount,
}

/// Builds the bytes of `stake_account`.
fn stake_account_seed_bytes() -> (v: Vec<u8>)
    ensures
        v@ == stake_account_seed(),
{
    let v: Vec<u8> = vec![115u8, 116u8, 97u8, 107u8, 101u8, 95u8, 97u8, 99u8, 99u8, 111u8, 117u8, 110u8, 116u8];
    assert(v@ =~= stake_account_seed());
    v
}

impl Unstake {
    /// Whether the freeze period has passed at time `now`.
    pub open spec fn frozen_until_passed(self, now: i64) -> bool {
        days_elapsed(now, self.stake_account.staked_at) >= self.config.freeze_period
    }

    /// The calls of an unstaking: the NFT's token account is thawed by the
    /// stake account, which signs with the seeds `["stake_account", config,
    /// mint, [bump]]`; the delegation is revoked with the mint as source and
    /// the user as authority; the stake account is closed to the user.
    /// The seeds name the configuration although the stake account's address
    /// derives from `["stake_account", mint]`, and the revocation names the
    /// mint where the token account holds the delegation: both are what the
    /// program asks for.
    pub open spec fn effects_ok(self, eff: UnstakeEffects) -> bool {
        &&& eff.thaw.delegate == self.stake_account_address
        &&& eff.thaw.token_account == self.nft_mint_ata
        &&& eff.thaw.edition == self.edition
        &&& eff.thaw.mint == self.nft_mint
        &&& seeds_view(eff.thaw.signer_seeds) == seq![
            stake_account_seed(),
            self.config_address@,
            self.nft_mint@,
            seq![self.stake_account.bump],
        ]
        &&& eff.revoke == RevokeDelegate { source: self.nft_mint, authority: self.user }
        &&& eff.close_stake_account == AccountClose {
            account: self.stake_account_address,
            destination: self.user,
        }
    }

    /// Unstakes the NFT at time `now`. Before the freeze period has passed
    /// the unstaking is refused and nothing changes; after it, the user has
    /// one NFT less staked.
    pub fn unstake(&mut self, now: i64) -> (r: Result<UnstakeEffects, CustomError>)
        requires
            i64::MIN <= now - old(self).stake_account.staked_at <= i64::MAX,
            old(self).frozen_until_passed(now) ==> old(self).user_account.amount_staked > 0,
        ensures
            !old(self).frozen_until_passed(now) ==> r == Err::<UnstakeEffects, CustomError>(
                CustomError::FreezePeriodNotPassed,
            ) && *final(self) == *old(self),
            old(self).frozen_until_passed(now) ==> (r matches Ok(eff) && old(self).effects_ok(eff)
                && *final(self) == (Unstake {
                user_account: UserAccount {
                    amount_staked: (old(self).user_account.amount_staked - 1) as u8,
                    ..old(self).user_account
                },
                ..*old(self)
            })),
            0 <= now - old(self).stake_account.staked_at < 0x1_0000_0000 * 86400 ==> (r is Ok <==> now
                - old(self).stake_account.staked_at >= old(self).config.freeze_period * 86400),
    {
        proof {
            if 0 <= now - self.stake_account.staked_at < 0x1_0000_0000 * 86400 {
                lemma_freeze_period_in_seconds(*self, now);
            }
        }
        let time_elapsed = ((now - self.stake_account.staked_at) / SECONDS_PER_DAY) as u32;
        assert(time_elapsed == days_elapsed(now, self.stake_account.staked_at));
        if !(time_elapsed >= self.config.freeze_period) {
            return Err(CustomError::FreezePeriodNotPassed);
        }
        let mut signer_seeds: Vec<Vec<u8>> = Vec::new();
        signer_seeds.push(stake_account_seed_bytes());
        signer_seeds.push(self.config_address.to_vec());
        signer_seeds.push(self.nft_mint.to_vec());
        let mut bump: Vec<u8> = Vec::new();
        bump.push(self.stake_account.bump);
        signer_seeds.push(bump);
        assert(seeds_view(signer_seeds) =~= seq![
            stake_account_seed(),
            self.config_address@,
            self.nft_mint@,
            seq![self.stake_account.bump],
        ]);
        let thaw = ThawDelegatedAccount {
            delegate: self.stake_account_address,
            token_account: self.nft_mint_ata,
            edition: self.edition,
            mint: self.nft_mint,
            signer_seeds,
        };
        let revoke = RevokeDelegate { source: self.nft_mint, authority: self.user };
        self.user_account.amount_staked = self.user_account.amount_staked - 1;
        Ok(UnstakeEffects {
            thaw,
            revoke,
            close_stake_account: AccountClose {
                account: self.stake_account_address,
                destination: self.user,
            },
        })
    }
}

/// The freeze period counts whole days, of 86400 seconds each, and all of
/// the configured freeze period counts: an NFT staked for a time from zero
/// up to 2^32 days (beyond which the day count wraps) can be unstaked exactly
/// when it has stayed staked for at least the freeze period's seconds.
pub proof fn lemma_freeze_period_in_seconds(u: Unstake, now: i64)
    requires
        0 <= now - u.stake_account.staked_at < 0x1_0000_0000 * 86400,
    ensures
        u.frozen_until_passed(now) <==> now - u.stake_account.staked_at >= u.config.freeze_period
            * 86400,
{
    let d: int = now - u.stake_account.staked_at;
    let f: int = u.config.freeze_period as int;
    let days: int = d / 86400;
    assert(0 <= days < 0x1_0000_0000) by (nonlinear_arith)
        requires
            0 <= d < 0x1_0000_0000 * 86400,
            days == d / 86400,
    ;
    assert(days_elapsed(now, u.stake_account.staked_at) == days);
    assert(days >= f <==> d >= f * 86400) by (nonlinear_arith)
        requires
            0 <= d,
            0 <= f,
            days == d / 86400,
    ;
}

/// Unstaking is refused for as long as the freeze period lasts and allowed
/// from its end: with a freeze period of `f` days, an NFT staked at `t` is
/// refused at every time before `t + f` days and allowed at `t + f` days.
pub proof fn lemma_unstake_window(u: Unstake, now: i64)
    requires
        0 <= now - u.stake_account.staked_at < 0x1_0000_0000 * 86400,
    ensures
        now - u.stake_account.staked_at < u.config.freeze_period * 86400 ==> !u.frozen_until_passed(
            now,
        ),
        now - u.stake_account.staked_at == u.config.freeze_period * 86400 ==> u.frozen_until_passed(
            now,
        ),
{
    lemma_freeze_period_in_seconds(u, now);
}

} // verus!
