//! Token-program instructions: initialising a mint and minting to an account.
use solana_program::pubkey::Pubkey;
use vstd::prelude::*;

verus! {

/// One account that an instruction names, with its roles.
pub struct AccountRole {
    pub key: Vec<u8>,
    pub is_signer: bool,
    pub is_writable: bool,
}

/// A ledger instruction: the program that runs it, the accounts it names in
/// order, and its opaque payload.
pub struct InstructionParts {
    pub program_id: Vec<u8>,
    pub accounts: Vec<AccountRole>,
    pub data: Vec<u8>,
}

/// The fixed identifier of the token program.
pub open spec fn token_program_id() -> Seq<u8> {
    seq![
        6u8, 221, 246, 225, 215, 101, 161, 147, 217, 203, 225, 70, 206, 235, 121, 172,
        28, 180, 133, 237, 95, 91, 55, 145, 58, 140, 245, 133, 126, 255, 0, 169,
    ]
}

/// The identifier of the rent sysvar.
pub open spec fn rent_sysvar_id() -> Seq<u8> {
    seq![
        6u8, 167, 213, 23, 25, 44, 92, 81, 33, 140, 201, 76, 61, 74, 241, 127,
        88, 218, 238, 8, 155, 161, 253, 68, 227, 219, 217, 138, 0, 0, 0, 0,
    ]
}

/// Little-endian bytes of a 64-bit integer.
pub open spec fn le_bytes(v: u64) -> Seq<u8> {
    Seq::new(8, |i: int| ((v as int / pow256(i)) % 256) as u8)
}

/// 256 to the power `i`.
pub open spec fn pow256(i: int) -> int
    decreases i,
{
    if i <= 0 { 1 } else { 256 * pow256(i - 1) }
}

/// Payload of an initialise-mint instruction with no freeze authority:
/// tag 0, the decimals, the mint authority, and the empty option tag.
pub open spec fn initialize_mint_data(authority: Seq<u8>, decimals: u8) -> Seq<u8> {
    seq![0u8, decimals] + authority + seq![0u8]
}

/// Payload of a mint-to instruction: tag 7, then the amount.
pub open spec fn mint_to_data(amount: u64) -> Seq<u8> {
    seq![7u8] + le_bytes(amount)
}

/// What an account entry holds, as plain values.
pub open spec fn role_view(a: AccountRole) -> (Seq<u8>, bool, bool) {
    (a.key@, a.is_signer, a.is_writable)
}

/// The account entries of an instruction, as plain values.
pub open spec fn accounts_view(accounts: Seq<AccountRole>) -> Seq<(Seq<u8>, bool, bool)> {
    accounts.map_values(|a: AccountRole| role_view(a))
}

/// Relies on spl_token::instruction::initialize_mint with the token program's
/// own identifier, which it accepts: the mint (writable) and the rent sysvar
/// as accounts, the packed `InitializeMint` as payload.
#[verifier::external_body]
fn initialize_mint_instruction(mint: &[u8], authority: &[u8], decimals: u8) -> (r: Option<InstructionParts>)
    requires
        mint@.len() == 32,
        authority@.len() == 32,
    ensures
        r is Some,
        r matches Some(ix) ==> ix.program_id@ == token_program_id(),
        r matches Some(ix) ==> accounts_view(ix.accounts@) == seq![(mint@, false, true), (rent_sysvar_id(), false, false)],
        r matches Some(ix) ==> ix.data@ == initialize_mint_data(authority@, decimals),
{
    let mint = Pubkey::try_from(mint).unwrap_or_default();
    let authority = Pubkey::try_from(authority).unwrap_or_default();
    let ix = spl_token::instruction::initialize_mint(&spl_token::id(), &mint, &authority, None, decimals).ok()?;
    let accounts = ix.accounts.iter().map(|m| AccountRole { key: m.pubkey.to_bytes().to_vec(), is_signer: m.is_signer, is_writable: m.is_writable }).collect();
    Some(InstructionParts { program_id: ix.program_id.to_bytes().to_vec(), accounts, data: ix.data })
}

/// Relies on spl_token::instruction::mint_to with the token program's own
/// identifier and no co-signers: mint and destination (writable), then the
/// authority as signer, and the packed `MintTo` as payload.
#[verifier::external_body]
fn mint_to_instruction(mint: &[u8], destination: &[u8], authority: &[u8], amount: u64) -> (r: Option<InstructionParts>)
    requires
        mint@.len() == 32,
        destination@.len() == 32,
        authority@.len() == 32,
    ensures
        r is Some,
        r matches Some(ix) ==> ix.program_id@ == token_program_id(),
        r matches Some(ix) ==> accounts_view(ix.accounts@) == seq![(mint@, false, true), (destination@, false, true), (authority@, true, false)],
        r matches Some(ix) ==> ix.data@ == mint_to_data(amount),
{
    let mint = Pubkey::try_from(mint).unwrap_or_default();
    let destination = Pubkey::try_from(destination).unwrap_or_default();
    let authority = Pubkey::try_from(authority).unwrap_or_default();
    let ix = spl_token::instruction::mint_to(&spl_token::id(), &mint, &destination, &authority, &[], amount).ok()?;
    let accounts = ix.accounts.iter().map(|m| AccountRole { key: m.pubkey.to_bytes().to_vec(), is_signer: m.is_signer, is_writable: m.is_writable }).collect();
    Some(InstructionParts { program_id: ix.program_id.to_bytes().to_vec(), accounts, data: ix.data })
}

/// Builds the instruction that initialises a mint, with no freeze authority.
pub fn build_mint_instruction(mint: &[u8], authority: &[u8], decimals: u8) -> (r: Option<InstructionParts>)
    requires
        mint@.len() == 32,
        authority@.len() == 32,
    ensures
        r is Some,
        r matches Some(ix) ==> ix.program_id@ == token_program_id(),
        r matches Some(ix) ==> accounts_view(ix.accounts@) == seq![(mint@, false, true), (rent_sysvar_id(), false, false)],
        r matches Some(ix) ==> ix.data@ == initialize_mint_data(authority@, decimals),
{
    initialize_mint_instruction(mint, authority, decimals)
}

/// Builds the instruction that mints `amount` tokens to `destination`, signed
/// by `authority` alone.
pub fn build_mint_to_instruction(mint: &[u8], destination: &[u8], authority: &[u8], amount: u64) -> (r: Option<InstructionParts>)
    requires
        mint@.len() == 32,
        destination@.len() == 32,
        authority@.len() == 32,
    ensures
        r is Some,
        r matches Some(ix) ==> ix.program_id@ == token_program_id(),
        r matches Some(ix) ==> accounts_view(ix.accounts@) == seq![(mint@, false, true), (destination@, false, true), (authority@, true, false)],
        r matches Some(ix) ==> ix.data@ == mint_to_data(amount),
{
    mint_to_instruction(mint, destination, authority, amount)
}

} // verus!
