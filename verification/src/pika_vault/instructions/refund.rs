//! Refunding a purchase: the escrowed price goes back to the buyer and the
//! card is listed again.
use vstd::prelude::*;

use crate::address::Address;
use crate::cpi::{system_transfer, system_transfer_instruction, Instruction};
use crate::pika_vault::error::{InstructionError, ListingError};
use crate::pika_vault::state::{Escrow, ListingAccount, ListingStatus, UserAccount};

verus! {

/// The accounts of a refund, as the handler reads them.
#[derive(Clone, Debug)]
pub struct Refund {
    /// The buyer, who signs.
    pub buyer: Address,
    pub buyer_account: UserAccount,
    /// The user account of the listing's owner.
    pub seller_account: UserAccount,
    pub listing: ListingAccount,
    pub escrow_address: Address,
    pub escrow: Escrow,
}

impl Refund {
    /// The first account constraint that fails, checked in the order of the
    /// accounts: the listing must be sold, the signer must be the escrow's
    /// buyer, and the escrow must still hold funds.
    pub open spec fn constraint_error(self) -> Option<InstructionError> {
        if self.listing.status != ListingStatus::Sold {
            Some(InstructionError::Listing(ListingError::ListingNotSold))
        } else if self.buyer@ != self.escrow.buyer@ {
            Some(InstructionError::Listing(ListingError::UnauthorizedRefund))
        } else if self.escrow.locked_amount == 0 {
            Some(InstructionError::Listing(ListingError::EscrowAlreadyReleased))
        } else {
            None
        }
    }

    /// The counters that a refund changes can change without overflow.
    pub open spec fn counters_allow(self) -> bool {
        &&& self.buyer_account.nft_bought > 0
        &&& self.seller_account.nft_sold > 0
        &&& self.seller_account.nft_listed < u64::MAX
    }

    /// The accounts after a refund: the escrow holds nothing, the listing is
    /// active again, the buyer has bought one card less and the seller has
    /// sold one less and lists one more.
    pub open spec fn refunded(self) -> Refund {
        Refund {
            buyer_account: UserAccount {
                nft_bought: (self.buyer_account.nft_bought - 1) as u64,
                ..self.buyer_account
            },
            seller_account: UserAccount {
                nft_sold: (self.seller_account.nft_sold - 1) as u64,
                nft_listed: (self.seller_account.nft_listed + 1) as u64,
                ..self.seller_account
            },
            listing: ListingAccount { status: ListingStatus::Active, ..self.listing },
            escrow: Escrow { locked_amount: 0, ..self.escrow },
            ..self
        }
    }

    /// Refunds the purchase. On success the accounts become `refunded()` and
    /// the result is the System transfer of the locked amount from the escrow
    /// to the escrow's buyer, which the caller must invoke. When a constraint
    /// fails, its error comes back and nothing changes.
    pub fn refund(&mut self) -> (r: Result<Instruction, InstructionError>)
        requires
            old(self).constraint_error() is None ==> old(self).counters_allow(),
        ensures
            old(self).constraint_error() matches Some(e) ==> r == Err::<Instruction, InstructionError>(e)
                && *final(self) == *old(self),
            old(self).constraint_error() is None ==> (r matches Ok(ix) && ix@
                == system_transfer_instruction(
                old(self).escrow_address,
                old(self).escrow.buyer,
                old(self).escrow.locked_amount,
            ) && *final(self) == old(self).refunded()),
    {
        if self.listing.status != ListingStatus::Sold {
            return Err(InstructionError::Listing(ListingError::ListingNotSold));
        }
        if self.buyer != self.escrow.buyer {
            return Err(InstructionError::Listing(ListingError::UnauthorizedRefund));
        }
        if !(self.escrow.locked_amount > 0) {
            return Err(InstructionError::Listing(ListingError::EscrowAlreadyReleased));
        }
        if !(self.escrow.locked_amount > 0) {
            return Err(InstructionError::Listing(ListingError::EscrowAlreadyReleased));
        }
        let refund_amount = self.escrow.locked_amount;
        let transfer = system_transfer(&self.escrow_address, &self.escrow.buyer, refund_amount);

        self.escrow.locked_amount = 0;
        self.listing.status = ListingStatus::Active;
        self.buyer_account.nft_bought = self.buyer_account.nft_bought - 1;
        self.seller_account.nft_sold = self.seller_account.nft_sold - 1;
        self.seller_account.nft_listed = self.seller_account.nft_listed + 1;
        Ok(transfer)
    }
}

} // verus!
