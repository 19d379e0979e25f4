//! A token escrow: a maker offers tokens of one mint for an amount of
//! tokens of another.
use vstd::prelude::*;

use crate::address::Address;
use crate::cpi::{seeds_view, TokenTransfer};

verus! {

/// An offer: the maker gives tokens of `mint_a` and wants `receive_amount`
/// tokens of `mint_b`.
#[derive(Clone, Copy, Debug)]
pub struct Escrow {
    pub seed: u64,
    pub maker: Address,
    pub mint_a: Address,
    pub mint_b: Address,
    pub receive_amount: u64,
    pub bump: u8,
}

/// The bump seed that was found for the new escrow account.
#[derive(Clone, Copy, Debug)]
pub struct MakeBumps {
    pub escrow: u8,
}

/// The accounts of an offer's creation, as the handler reads them.
#[derive(Clone, Copy, Debug)]
pub struct Make {
    /// The maker, who signs and pays.
    pub maker: Address,
    pub mint_a: Address,
    pub mint_b: Address,
    /// The decimals of `mint_a`.
    pub mint_a_decimals: u8,
    /// The maker's token account for `mint_a`.
    pub maker_ata_a: Address,
    /// The escrow account as created.
    pub escrow: Escrow,
    /// The escrow's token account for `mint_a`.
    pub vault: Address,
}

impl Make {
    /// Records the offer in the new escrow account.
    pub fn init_escrow(&mut self, seed: u64, receive_amount: u64, bump: &MakeBumps)
        ensures
            *final(self) == (Make {
                escrow: Escrow {
                    seed,
                    maker: old(self).maker,
                    mint_a: old(self).mint_a,
                    mint_b: old(self).mint_b,
                    receive_amount,
                    bump: bump.escrow,
                },
                ..*old(self)
            }),
    {
        self.escrow = Escrow {
            seed,
            maker: self.maker,
            mint_a: self.mint_a,
            mint_b: self.mint_b,
            receive_amount,
            bump: bump.escrow,
        };
    }

    /// The deposit of `desposite` tokens of `mint_a`, signed by the maker.
    /// Its source and its destination are both the maker's own token
    /// account for `mint_a`: the tokens stay where they are, and none reach
    /// the vault. This is what the program asks for.
    pub fn deposite(&self, desposite: u64) -> (t: TokenTransfer)
        ensures
            t.from == self.maker_ata_a,
            t.to == self.maker_ata_a,
            t.authority == self.maker,
            t.mint == self.mint_a,
            t.amount == desposite,
            t.decimals == self.mint_a_decimals,
            seeds_view(t.signer_seeds) == Seq::<Seq<u8>>::empty(),
    {
        let t = TokenTransfer {
            from: self.maker_ata_a,
            to: self.maker_ata_a,
            authority: self.maker,
            mint: self.mint_a,
            amount: desposite,
            decimals: self.mint_a_decimals,
            signer_seeds: Vec::new(),
        };
        assert(seeds_view(t.signer_seeds) =~= Seq::<Seq<u8>>::empty());
        t
    }

    /// Paying the maker: this does nothing.
    pub fn transfer_to_maker(&mut self)
        ensures
            *final(self) == *old(self),
    {
    }
}

/// The accounts of an offer's acceptance.
#[derive(Clone, Copy, Debug)]
pub struct Take {
    /// The taker, who signs and pays.
    pub taker: Address,
    pub mint_a: Address,
    pub mint_b: Address,
    /// The taker's token account for `mint_b`.
    pub taker_ata_b: Address,
    pub escrow: Escrow,
    /// The escrow's token account for `mint_a`.
    pub vault: Address,
}

/// The accounts of an offer's refund.
#[derive(Clone, Copy, Debug)]
pub struct Refund {
    /// The signer.
    pub signer: Address,
}

} // verus!
