//! What a handler asks other programs to do.
//!
//! The library never calls another program itself: it returns these
//! descriptions, and the on-chain entry point performs them.
use vstd::prelude::*;

use crate::address::Address;

verus! {

/// One account of an instruction, with the access that it asks for.
#[derive(Clone, Copy, Debug)]
pub struct AccountMeta {
    pub pubkey: Address,
    pub is_signer: bool,
    pub is_writable: bool,
}

/// A raw instruction: the program to run, its accounts and its data.
#[derive(Clone, Debug)]
pub struct Instruction {
    pub program_id: Address,
    pub accounts: Vec<AccountMeta>,
    pub data: Vec<u8>,
}

impl View for Instruction {
    type V = (Seq<u8>, Seq<AccountMeta>, Seq<u8>);

    open spec fn view(&self) -> (Seq<u8>, Seq<AccountMeta>, Seq<u8>) {
        (self.program_id@, self.accounts@, self.data@)
    }
}

/// The address of the System program: 32 zero bytes.
pub open spec fn system_program_id() -> Seq<u8> {
    Seq::new(32, |i: int| 0u8)
}

/// The eight little-endian bytes of `v`.
pub open spec fn u64_le_bytes(v: u64) -> Seq<u8> {
    seq![
        (v % 0x100) as u8,
        ((v / 0x100) % 0x100) as u8,
        ((v / 0x1_0000) % 0x100) as u8,
        ((v / 0x100_0000) % 0x100) as u8,
        ((v / 0x1_0000_0000) % 0x100) as u8,
        ((v / 0x100_0000_0000) % 0x100) as u8,
        ((v / 0x1_0000_0000_0000) % 0x100) as u8,
        ((v / 0x100_0000_0000_0000) % 0x100) as u8,
    ]
}

/// The System program's transfer instruction: `from` signs and pays
/// `lamports` to `to`. Its data is the bincode form of
/// `SystemInstruction::Transfer { lamports }`: the variant index 2 as a
/// little-endian `u32`, then `lamports` as a little-endian `u64`.
pub open spec fn system_transfer_instruction(from: Address, to: Address, lamports: u64) -> (
    Seq<u8>,
    Seq<AccountMeta>,
    Seq<u8>,
) {
    (
        system_program_id(),
        seq![
            AccountMeta { pubkey: from, is_signer: true, is_writable: true },
            AccountMeta { pubkey: to, is_signer: false, is_writable: true },
        ],
        seq![2u8, 0u8, 0u8, 0u8] + u64_le_bytes(lamports),
    )
}

/// Builds the System program's transfer instruction with
/// `solana_program::system_instruction::transfer`. Trusted: the result is
/// the instruction that that function returns, field by field; its source
/// builds it from `AccountMeta::new(from, true)`, `AccountMeta::new(to, false)`
/// and the bincode encoding of `SystemInstruction::Transfer { lamports }`.
#[verifier::external_body]
pub(crate) fn system_transfer(from: &Address, to: &Address, lamports: u64) -> (ix: Instruction)
    ensures
        ix@ == system_transfer_instruction(*from, *to, lamports),
{
    let ix = solana_program::system_instruction::transfer(
        &solana_program::pubkey::Pubkey::new_from_array(from.bytes),
        &solana_program::pubkey::Pubkey::new_from_array(to.bytes),
        lamports,
    );
    let accounts = ix.accounts.iter().map(
        |m| AccountMeta { pubkey: Address::new(m.pubkey.to_bytes()), is_signer: m.is_signer, is_writable: m.is_writable },
    ).collect();
    Instruction { program_id: Address::new(ix.program_id.to_bytes()), accounts, data: ix.data }
}

/// A lamport transfer through the System program (a `system_program::transfer`
/// call). `signer_seeds` is empty when `from` signs the transaction itself,
/// and otherwise holds the seeds with which the program signs for `from`.
#[derive(Clone, Debug)]
pub struct LamportTransfer {
    pub from: Address,
    pub to: Address,
    pub lamports: u64,
    pub signer_seeds: Vec<Vec<u8>>,
}

/// A `transfer_checked` call of the token program.
#[derive(Clone, Debug)]
pub struct TokenTransfer {
    pub from: Address,
    pub to: Address,
    pub authority: Address,
    pub mint: Address,
    pub amount: u64,
    pub decimals: u8,
    pub signer_seeds: Vec<Vec<u8>>,
}

/// The program that a call goes to.
#[derive(PartialEq, Eq, Structural, Clone, Copy, Debug)]
pub enum TargetProgram {
    /// The token program of the accounts (the `token_program` account).
    Token,
    /// The associated token account program.
    AssociatedToken,
}

/// A `close_account` call: `account` is closed and its lamports go to
/// `destination`.
#[derive(Clone, Debug)]
pub struct CloseTokenAccount {
    pub program: TargetProgram,
    pub account: Address,
    pub destination: Address,
    pub authority: Address,
    pub signer_seeds: Vec<Vec<u8>>,
}

/// A `mint_to` call of the token program.
#[derive(Clone, Copy, Debug)]
pub struct MintTokens {
    pub mint: Address,
    pub to: Address,
    pub authority: Address,
    pub amount: u64,
}

/// Closing a program-owned account at the end of an instruction: its
/// lamports go to `destination` and its data is cleared.
#[derive(Clone, Copy, Debug)]
pub struct AccountClose {
    pub account: Address,
    pub destination: Address,
}

/// The byte strings of a list of seeds.
pub open spec fn seeds_view(seeds: Vec<Vec<u8>>) -> Seq<Seq<u8>> {
    seeds@.map_values(|s: Vec<u8>| s@)
}

/// The signer seeds `[key, [bump]]`.
pub open spec fn key_bump_seeds(key: Address, bump: u8) -> Seq<Seq<u8>> {
    seq![key@, seq![bump]]
}

/// The signer seeds `[first, second, [bump]]`.
pub open spec fn two_keys_bump_seeds(first: Address, second: Address, bump: u8) -> Seq<Seq<u8>> {
    seq![first@, second@, seq![bump]]
}

/// Builds the signer seeds `[key, [bump]]`.
pub fn key_bump(key: &Address, bump: u8) -> (seeds: Vec<Vec<u8>>)
    ensures
        seeds_view(seeds) == key_bump_seeds(*key, bump),
        seeds_view(seeds) == seq![key.bytes@, seq![bump]],
{
    let mut seeds: Vec<Vec<u8>> = Vec::new();
    seeds.push(key.to_vec());
    let mut b: Vec<u8> = Vec::new();
    b.push(bump);
    seeds.push(b);
    assert(seeds_view(seeds) =~= key_bump_seeds(*key, bump));
    seeds
}

/// Builds the signer seeds `[first, second, [bump]]`.
pub fn two_keys_bump(first: &Address, second: &Address, bump: u8) -> (seeds: Vec<Vec<u8>>)
    ensures
        seeds_view(seeds) == two_keys_bump_seeds(*first, *second, bump),
        seeds_view(seeds) == seq![first.bytes@, second.bytes@, seq![bump]],
{
    let mut seeds: Vec<Vec<u8>> = Vec::new();
    seeds.push(first.to_vec());
    seeds.push(second.to_vec());
    let mut b: Vec<u8> = Vec::new();
    b.push(bump);
    seeds.push(b);
    assert(seeds_view(seeds) =~= two_keys_bump_seeds(*first, *second, bump));
    seeds
}

/// The seeds `[key, [bump]]` that derive a program address are two seeds:
/// the key's 32 bytes, each at its own place, then the bump alone. A program
/// signs for an account only with the seeds that derive its address, so a
/// seed with its bytes in another order signs for no account.
pub proof fn lemma_key_bump_seeds_layout(key: Address, bump: u8)
    ensures
        key_bump_seeds(key, bump).len() == 2,
        key_bump_seeds(key, bump)[0].len() == 32,
        forall|i: int| 0 <= i < 32 ==> #[trigger] key_bump_seeds(key, bump)[0][i] == key.bytes[i],
        key_bump_seeds(key, bump)[1] == seq![bump],
{
}

/// The seeds `[first, second, [bump]]` are three seeds: the first key's 32
/// bytes and the second key's 32 bytes, each byte at its own place, then the
/// bump alone.
pub proof fn lemma_two_keys_bump_seeds_layout(first: Address, second: Address, bump: u8)
    ensures
        two_keys_bump_seeds(first, second, bump).len() == 3,
        two_keys_bump_seeds(first, second, bump)[0].len() == 32,
        two_keys_bump_seeds(first, second, bump)[1].len() == 32,
        forall|i: int|
            0 <= i < 32 ==> #[trigger] two_keys_bump_seeds(first, second, bump)[0][i]
                == first.bytes[i],
        forall|i: int|
            0 <= i < 32 ==> #[trigger] two_keys_bump_seeds(first, second, bump)[1][i]
                == second.bytes[i],
        two_keys_bump_seeds(first, second, bump)[2] == seq![bump],
{
}

/// The seeds of two keys and a bump tell the keys apart: seeds built from
/// different keys, or with the keys swapped, differ.
pub proof fn lemma_two_keys_bump_seeds_injective(
    first: Address,
    second: Address,
    other_first: Address,
    other_second: Address,
    bump: u8,
)
    requires
        two_keys_bump_seeds(first, second, bump) == two_keys_bump_seeds(
            other_first,
            other_second,
            bump,
        ),
    ensures
        first.bytes@ == other_first.bytes@,
        second.bytes@ == other_second.bytes@,
{
    lemma_two_keys_bump_seeds_layout(first, second, bump);
    lemma_two_keys_bump_seeds_layout(other_first, other_second, bump);
    assert(first.bytes@ =~= other_first.bytes@);
    assert(second.bytes@ =~= other_second.bytes@);
}

/// The seeds of a key and a bump tell keys apart.
pub proof fn lemma_key_bump_seeds_injective(key: Address, other: Address, bump: u8)
    requires
        key_bump_seeds(key, bump) == key_bump_seeds(other, bump),
    ensures
        key.bytes@ == other.bytes@,
{
    lemma_key_bump_seeds_layout(key, bump);
    lemma_key_bump_seeds_layout(other, bump);
    assert(key.bytes@ =~= other.bytes@);
}

} // verus!
