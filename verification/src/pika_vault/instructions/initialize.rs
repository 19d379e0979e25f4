//! Creating the marketplace.
use vstd::prelude::*;

use crate::address::Address;
use crate::pika_vault::error::InstructionError;
use crate::pika_vault::state::MarketPlace;

verus! {

/// The bump seeds that were found for the marketplace and its treasury.
#[derive(Clone, Copy, Debug)]
pub struct InitializeBumps {
    pub marketplace: u8,
    pub treasury: u8,
}

/// The accounts of the marketplace's creation.
#[derive(Clone, Copy, Debug)]
pub struct Initialize {
    /// The admin, who signs and pays.
    pub admin: Address,
    /// The marketplace account as created.
    pub marketplace: MarketPlace,
}

impl Initialize {
    /// Fills the new marketplace: the admin is its authority and `fee` its
    /// fee.
    pub fn init(&mut self, fee: u16, bumps: &InitializeBumps) -> (r: Result<(), InstructionError>)
        ensures
            r is Ok,
            final(self).admin == old(self).admin,
            final(self).marketplace == (MarketPlace {
                authority: old(self).admin,
                fee,
                bump: bumps.marketplace,
                treasury_bump: bumps.treasury,
            }),
    {
        self.marketplace = MarketPlace {
            authority: self.admin,
            fee,
            bump: bumps.marketplace,
            treasury_bump: bumps.treasury,
        };
        Ok(())
    }
}

} // verus!
