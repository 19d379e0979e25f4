//! Buying a listed card: the price goes into an escrow.
use vstd::prelude::*;

use crate::address::Address;
use crate::cpi::{system_transfer, system_transfer_instruction, Instruction};
use crate::pika_vault::error::{InstructionError, ListingError};
use crate::pika_vault::state::{Escrow, ListingAccount, ListingStatus, UserAccount};

verus! {

/// The accounts of a purchase, as the handler reads them.
#[derive(Clone, Debug)]
pub struct Purchase {
    /// The buyer, who signs.
    pub buyer: Address,
    pub buyer_account: UserAccount,
    /// The user account of the listing's owner.
    pub seller_account: UserAccount,
    pub listing: ListingAccount,
    /// The address of the escrow account that the purchase creates.
    pub escrow_address: Address,
    /// The escrow as created: every field zero.
    pub escrow: Escrow,
    pub nft_mint: Address,
}

impl Purchase {
    /// The account constraints: the listing is active and the buyer does not
    /// own it.
    pub open spec fn constraints_hold(self) -> bool {
        &&& self.listing.status == ListingStatus::Active
        &&& self.listing.owner@ != self.buyer@
    }

    /// The counters that a purchase changes can change without overflow.
    pub open spec fn counters_allow(self) -> bool {
        &&& self.buyer_account.nft_bought < u64::MAX
        &&& self.seller_account.nft_sold < u64::MAX
        &&& self.seller_account.nft_listed > 0
    }

    /// The accounts after a purchase at time `now`: the escrow holds the
    /// listing price for the seller and the buyer, the listing is sold, the
    /// buyer has bought one more card and the seller has sold one more and
    /// lists one less. The escrow's bump is not set: it stays as created,
    /// zero.
    pub open spec fn purchased(self, now: i64) -> Purchase {
        Purchase {
            buyer_account: UserAccount {
                nft_bought: (self.buyer_account.nft_bought + 1) as u64,
                ..self.buyer_account
            },
            seller_account: UserAccount {
                nft_sold: (self.seller_account.nft_sold + 1) as u64,
                nft_listed: (self.seller_account.nft_listed - 1) as u64,
                ..self.seller_account
            },
            listing: ListingAccount { status: ListingStatus::Sold, ..self.listing },
            escrow: Escrow {
                seller: self.listing.owner,
                buyer: self.buyer,
                nft_mint: self.nft_mint,
                sale_amount: self.listing.listing_price,
                locked_amount: self.listing.listing_price,
                timestamp: now,
                ..self.escrow
            },
            ..self
        }
    }

    /// Buys the listed card at time `now`. On success the accounts become
    /// `purchased(now)`, and the result is the System transfer of the listing
    /// price from the buyer to the escrow, which the caller must invoke. A
    /// listing that is not active, or that the buyer owns, is refused and
    /// nothing changes.
    pub fn purchase(&mut self, now: i64) -> (r: Result<Instruction, InstructionError>)
        requires
            old(self).constraints_hold() ==> old(self).counters_allow(),
        ensures
            !old(self).constraints_hold() ==> r == Err::<Instruction, InstructionError>(
                InstructionError::ConstraintRaw,
            ) && *final(self) == *old(self),
            old(self).constraints_hold() ==> (r matches Ok(ix) && ix@
                == system_transfer_instruction(
                old(self).buyer,
                old(self).escrow_address,
                old(self).listing.listing_price,
            ) && *final(self) == old(self).purchased(now)),
    {
        if self.listing.status != ListingStatus::Active || self.listing.owner == self.buyer {
            return Err(InstructionError::ConstraintRaw);
        }
        let sale_amount = self.listing.listing_price;
        if self.listing.status != ListingStatus::Active {
            return Err(InstructionError::Listing(ListingError::ListingNotActive));
        }
        let transfer = system_transfer(&self.buyer, &self.escrow_address, sale_amount);

        self.escrow.seller = self.listing.owner;
        self.escrow.buyer = self.buyer;
        self.escrow.nft_mint = self.nft_mint;
        self.escrow.sale_amount = sale_amount;
        self.escrow.locked_amount = sale_amount;
        self.escrow.timestamp = now;

        self.listing.status = ListingStatus::Sold;

        self.buyer_account.nft_bought = self.buyer_account.nft_bought + 1;
        self.seller_account.nft_sold = self.seller_account.nft_sold + 1;
        self.seller_account.nft_listed = self.seller_account.nft_listed - 1;
        Ok(transfer)
    }
}

} // verus!
