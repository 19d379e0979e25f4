//! Registering a user of the marketplace.
use vstd::prelude::*;

use crate::address::Address;
use crate::pika_vault::error::InstructionError;
use crate::pika_vault::state::UserAccount;

verus! {

/// The bump seed that was found for the new user account.
#[derive(Clone, Copy, Debug)]
pub struct RegisterUserBumps {
    pub user_account: u8,
}

/// The accounts of a registration.
#[derive(Clone, Copy, Debug)]
pub struct RegisterUser {
    /// The user, who signs and pays.
    pub user: Address,
    /// The user account as created.
    pub user_account: UserAccount,
}

impl RegisterUser {
    /// The new user account at time `now`: it belongs to the user, and every
    /// counter starts at zero.
    pub open spec fn registered(self, bumps: RegisterUserBumps, now: i64) -> UserAccount {
        UserAccount {
            authority: self.user,
            nft_sold: 0,
            nft_bought: 0,
            nft_listed: 0,
            created_at: now,
            bump: bumps.user_account,
        }
    }

    /// Fills the new user account at time `now`: it belongs to the user, and
    /// every counter starts at zero.
    pub fn init(&mut self, bumps: &RegisterUserBumps, now: i64) -> (r: Result<(), InstructionError>)
        ensures
            r is Ok,
            final(self).user == old(self).user,
            final(self).user_account == old(self).registered(*bumps, now),
    {
        self.user_account = UserAccount {
            authority: self.user,
            nft_sold: 0,
            nft_bought: 0,
            nft_listed: 0,
            created_at: now,
            bump: bumps.user_account,
        };
        Ok(())
    }
}

} // verus!
