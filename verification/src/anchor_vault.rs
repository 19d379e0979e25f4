//! A lamport vault: each user has a vault, a program-derived account that
//! holds lamports and that only the program can pay out of.
use vstd::prelude::*;

use crate::address::Address;
use crate::cpi::{key_bump, key_bump_seeds, seeds_view, AccountClose, LamportTransfer};

verus! {

/// The state of a user's vault: the bump seeds of the state account and of
/// the vault.
#[derive(Clone, Copy, Debug)]
pub struct Vault {
    pub state_bump: u8,
    pub vault_bump: u8,
}

/// The bump seeds that were found for the state account and the vault.
#[derive(Clone, Copy, Debug)]
pub struct InitializeBumps {
    pub vault_state: u8,
    pub vault: u8,
}

/// The accounts of a vault's creation.
#[derive(Clone, Copy, Debug)]
pub struct Initialize {
    /// The state account as created.
    pub vault_state: Vault,
}

impl Initialize {
    /// Records the bump seeds in the new state account.
    pub fn initialize(&mut self, bump: &InitializeBumps)
        ensures
            final(self).vault_state == (Vault {
                state_bump: bump.vault_state,
                vault_bump: bump.vault,
            }),
    {
        let vault_state = &mut self.vault_state;
        vault_state.state_bump = bump.vault_state;
        vault_state.vault_bump = bump.vault;
    }
}

/// The accounts of a deposit or a withdrawal.
#[derive(Clone, Copy, Debug)]
pub struct Payments {
    /// The vault's user, who signs.
    pub signer: Address,
    pub vault_state_address: Address,
    pub vault_state: Vault,
    pub vault: Address,
}

impl Payments {
    /// The deposit of `amount` lamports: the user pays them into the vault,
    /// signing the transfer itself.
    pub fn deposit(&self, amount: u64) -> (t: LamportTransfer)
        ensures
            t.from == self.signer,
            t.to == self.vault,
            t.lamports == amount,
            seeds_view(t.signer_seeds) == Seq::<Seq<u8>>::empty(),
    {
        let t = LamportTransfer {
            from: self.signer,
            to: self.vault,
            lamports: amount,
            signer_seeds: Vec::new(),
        };
        assert(seeds_view(t.signer_seeds) =~= Seq::<Seq<u8>>::empty());
        t
    }

    /// The withdrawal of `amount` lamports: the vault pays them to the user,
    /// and the program signs for the vault with the seeds
    /// `[state address, [vault bump]]`.
    pub fn withdraw(&self, amount: u64) -> (t: LamportTransfer)
        ensures
            t.from == self.vault,
            t.to == self.signer,
            t.lamports == amount,
            seeds_view(t.signer_seeds) == key_bump_seeds(
                self.vault_state_address,
                self.vault_state.vault_bump,
            ),
            seeds_view(t.signer_seeds) == seq![
                self.vault_state_address.bytes@,
                seq![self.vault_state.vault_bump],
            ],
    {
        let bump_seed = self.vault_state.vault_bump;
        let signer_seeds = key_bump(&self.vault_state_address, bump_seed);
        LamportTransfer { from: self.vault, to: self.signer, lamports: amount, signer_seeds }
    }
}

/// The accounts of a vault's closing.
#[derive(Clone, Copy, Debug)]
pub struct CloseVault {
    /// The vault's user, who signs.
    pub signer: Address,
    pub vault_state_address: Address,
    pub vault_state: Vault,
    pub vault: Address,
    /// The lamports that the vault holds.
    pub vault_lamports: u64,
}

/// What closing a vault asks for.
#[derive(Clone, Debug)]
pub struct CloseVaultEffects {
    /// Everything in the vault, paid to the user.
    pub transfer: LamportTransfer,
    /// The state account's closing, to the user.
    pub close_state: AccountClose,
}

impl CloseVault {
    /// Empties the vault into the user's account, with the program signing
    /// for the vault, and closes the state account to the user.
    pub fn close_vault(&self) -> (eff: CloseVaultEffects)
        ensures
            eff.transfer.from == self.vault,
            eff.transfer.to == self.signer,
            eff.transfer.lamports == self.vault_lamports,
            seeds_view(eff.transfer.signer_seeds) == key_bump_seeds(
                self.vault_state_address,
                self.vault_state.vault_bump,
            ),
            seeds_view(eff.transfer.signer_seeds) == seq![
                self.vault_state_address.bytes@,
                seq![self.vault_state.vault_bump],
            ],
            eff.close_state == (AccountClose {
                account: self.vault_state_address,
                destination: self.signer,
            }),
    {
        let amount = self.vault_lamports;
        let bump_seed = self.vault_state.vault_bump;
        let signer_seeds = key_bump(&self.vault_state_address, bump_seed);
        CloseVaultEffects {
            transfer: LamportTransfer {
                from: self.vault,
                to: self.signer,
                lamports: amount,
                signer_seeds,
            },
            close_state: AccountClose {
                account: self.vault_state_address,
                destination: self.signer,
            },
        }
    }
}

/// What a lamport transfer does to the balance of `account`, once the
/// System program has made it: `account` gains what it receives and loses
/// what it pays.
pub open spec fn balance_change(t: LamportTransfer, account: Address) -> int {
    (if t.to@ == account@ {
        t.lamports as int
    } else {
        0
    }) - (if t.from@ == account@ {
        t.lamports as int
    } else {
        0
    })
}

/// Withdrawing what was deposited undoes the deposit: the two transfers
/// change the balance of every account by opposite amounts.
pub proof fn lemma_withdraw_undoes_deposit(
    p: Payments,
    amount: u64,
    deposit: LamportTransfer,
    withdrawal: LamportTransfer,
    account: Address,
)
    requires
        deposit.from == p.signer,
        deposit.to == p.vault,
        deposit.lamports == amount,
        withdrawal.from == p.vault,
        withdrawal.to == p.signer,
        withdrawal.lamports == amount,
    ensures
        balance_change(deposit, account) + balance_change(withdrawal, account) == 0,
{
}

/// Closing a vault leaves it empty: the vault pays out everything it holds,
/// and the user gains all of it (unless the vault is the user's own account,
/// which its derivation rules out).
pub proof fn lemma_close_empties_vault(c: CloseVault, eff: CloseVaultEffects)
    requires
        eff.transfer.from == c.vault,
        eff.transfer.to == c.signer,
        eff.transfer.lamports == c.vault_lamports,
        c.vault@ != c.signer@,
    ensures
        c.vault_lamports + balance_change(eff.transfer, c.vault) == 0,
        balance_change(eff.transfer, c.signer) == c.vault_lamports,
{
}

} // verus!
