//! Taking a card off the market: the NFT goes back to its owner and the
//! listing is closed.
use vstd::prelude::*;

use crate::address::Address;
use crate::cpi::{two_keys_bump, two_keys_bump_seeds, seeds_view, AccountClose, TokenTransfer};
use crate::pika_vault::error::InstructionError;
use crate::pika_vault::state::{ListingAccount, ListingStatus, UserAccount};

verus! {

/// The accounts of a delisting, as the handler reads them.
#[derive(Clone, Debug)]
pub struct Delist {
    /// The owner of the listing, who signs.
    pub owner: Address,
    pub user_account: UserAccount,
    pub marketplace_address: Address,
    pub nft_mint: Address,
    /// The decimals of the NFT's mint.
    pub nft_decimals: u8,
    /// The owner's token account for the NFT.
    pub owner_ata: Address,
    /// The listing's token account that holds the NFT.
    pub vault: Address,
    pub listing_address: Address,
    pub listing: ListingAccount,
}

/// What a delisting asks for besides its new state.
#[derive(Clone, Debug)]
pub struct DelistEffects {
    /// The NFT's return from the vault to the owner.
    pub nft_return: TokenTransfer,
    /// The listing account's closing, to the owner.
    pub close_listing: AccountClose,
}

impl Delist {
    /// The account constraints: the signer owns the listing and it is
    /// active.
    pub open spec fn constraints_hold(self) -> bool {
        &&& self.listing.owner@ == self.owner@
        &&& self.listing.status == ListingStatus::Active
    }

    /// The NFT's return: one token from the vault to the owner's account,
    /// signed by the listing with the seeds `[marketplace, mint, [bump]]`.
    pub open spec fn nft_return_ok(self, t: TokenTransfer) -> bool {
        &&& t.from == self.vault
        &&& t.to == self.owner_ata
        &&& t.authority == self.listing_address
        &&& t.mint == self.nft_mint
        &&& t.amount == 1
        &&& t.decimals == self.nft_decimals
        &&& seeds_view(t.signer_seeds) == two_keys_bump_seeds(
            self.marketplace_address,
            self.nft_mint,
            self.listing.bump,
        )
        &&& seeds_view(t.signer_seeds) == seq![
            self.marketplace_address.bytes@,
            self.nft_mint.bytes@,
            seq![self.listing.bump],
        ]
    }

    /// The accounts after a delisting: the owner lists one card less.
    pub open spec fn delisted(self) -> Delist {
        Delist {
            user_account: UserAccount {
                nft_listed: (self.user_account.nft_listed - 1) as u64,
                ..self.user_account
            },
            ..self
        }
    }

    /// Delists the card. On success the owner lists one card less, the NFT
    /// goes back to the owner and the listing is closed to the owner. When a
    /// constraint fails nothing changes.
    pub fn delist(&mut self) -> (r: Result<DelistEffects, InstructionError>)
        requires
            old(self).constraints_hold() ==> old(self).user_account.nft_listed > 0,
        ensures
            !old(self).constraints_hold() ==> r == Err::<DelistEffects, InstructionError>(
                InstructionError::ConstraintRaw,
            ) && *final(self) == *old(self),
            old(self).constraints_hold() ==> (r matches Ok(eff) && old(self).nft_return_ok(
                eff.nft_return,
            ) && eff.close_listing == (AccountClose {
                account: old(self).listing_address,
                destination: old(self).owner,
            }) && *final(self) == old(self).delisted()),
    {
        if self.listing.owner != self.owner || self.listing.status != ListingStatus::Active {
            return Err(InstructionError::ConstraintRaw);
        }
        let signer_seeds = two_keys_bump(&self.marketplace_address, &self.nft_mint, self.listing.bump);
        let nft_return = TokenTransfer {
            from: self.vault,
            to: self.owner_ata,
            authority: self.listing_address,
            mint: self.nft_mint,
            amount: 1,
            decimals: self.nft_decimals,
            signer_seeds,
        };
        self.user_account.nft_listed = self.user_account.nft_listed - 1;
        Ok(DelistEffects {
            nft_return,
            close_listing: AccountClose { account: self.listing_address, destination: self.owner },
        })
    }
}

} // verus!
