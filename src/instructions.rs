use solana_sdk::instruction::Instruction;
use solana_sdk::program_pack::Pack;
use solana_sdk::pubkey::Pubkey;
use spl_associated_token_account::get_associated_token_address_with_program_id;
use spl_associated_token_account::instruction::create_associated_token_account;
use spl_token::instruction::{initialize_mint, mint_to};
use spl_token::state::Mint;
use vstd::bytes::spec_u64_to_le_bytes;
use vstd::prelude::*;

use crate::keys::PublicKey;

verus! {

/// An account that an instruction touches, and how.
#[derive(Debug, Clone, Copy, PartialEq, Eq)]
pub struct AccountRef {
    pub pubkey: PublicKey,
    pub is_signer: bool,
    pub is_writable: bool,
}

/// One operation for the ledger: the program that runs it, the accounts it
/// touches, and its encoded arguments.
#[derive(Debug, PartialEq, Eq)]
pub struct LedgerInstruction {
    pub program_id: PublicKey,
    pub accounts: Vec<AccountRef>,
    pub data: Vec<u8>,
}

/// What an instruction is, as plain values.
pub struct InstructionView {
    pub program_id: Seq<u8>,
    pub accounts: Seq<AccountRef>,
    pub data: Seq<u8>,
}

impl View for LedgerInstruction {
    type V = InstructionView;

    open spec fn view(&self) -> InstructionView {
        InstructionView { program_id: self.program_id@, accounts: self.accounts@, data: self.data@ }
    }
}

#[verifier::external_type_specification]
#[verifier::external_body]
pub struct ExInstruction(Instruction);

/// The system program: 32 zero bytes.
pub open spec fn system_program_key() -> Seq<u8> {
    Seq::new(32, |i: int| 0u8)
}

/// The token program, `TokenkegQfeZyiNwAJbNbGKPFXCWuBvf9Ss623VQ5DA`.
pub open spec fn token_program_key() -> Seq<u8> {
    seq![
        6u8, 221, 246, 225, 215, 101, 161, 147, 217, 203, 225, 70, 206, 235, 121, 172,
        28, 180, 133, 237, 95, 91, 55, 145, 58, 140, 245, 133, 126, 255, 0, 169,
    ]
}

/// The associated-token-account program, `ATokenGPvbdGVxr1b2hvZbsiqW5xWH25efTNsLJA8knL`.
pub open spec fn associated_token_program_key() -> Seq<u8> {
    seq![
        140u8, 151, 37, 143, 78, 36, 137, 241, 187, 61, 16, 41, 20, 142, 13, 131,
        11, 90, 19, 153, 218, 255, 16, 132, 4, 142, 123, 216, 219, 233, 248, 89,
    ]
}

/// The rent sysvar, `SysvarRent111111111111111111111111111111111`.
pub open spec fn rent_sysvar_key() -> Seq<u8> {
    seq![
        6u8, 167, 213, 23, 25, 44, 92, 81, 33, 140, 201, 76, 61, 74, 241, 127,
        88, 218, 238, 8, 155, 161, 253, 68, 227, 219, 217, 138, 0, 0, 0, 0,
    ]
}

/// Bytes of account data that a token mint occupies.
pub open spec fn mint_account_size() -> u64 {
    82
}

/// `a` refers to `key` with the given flags.
pub open spec fn ref_matches(a: AccountRef, key: Seq<u8>, is_signer: bool, is_writable: bool) -> bool {
    a.pubkey@ == key && a.is_signer == is_signer && a.is_writable == is_writable
}

/// The address of the token account that `wallet` holds for `mint` under `token_program`.
pub uninterp spec fn associated_address_of(
    wallet: Seq<u8>,
    mint: Seq<u8>,
    token_program: Seq<u8>,
) -> Seq<u8>;

/// The system program's instruction that funds and allocates `to` for `owner`.
pub open spec fn is_create_account(
    ix: InstructionView,
    from: Seq<u8>,
    to: Seq<u8>,
    lamports: u64,
    space: u64,
    owner: Seq<u8>,
) -> bool {
    &&& ix.program_id == system_program_key()
    &&& ix.accounts.len() == 2
    &&& ref_matches(ix.accounts[0], from, true, true)
    &&& ref_matches(ix.accounts[1], to, true, true)
    &&& ix.data == seq![0u8, 0, 0, 0] + spec_u64_to_le_bytes(lamports) + spec_u64_to_le_bytes(
        space,
    ) + owner
}

/// The token program's instruction that makes `mint` a mint with `decimals`
/// decimals, minted by `authority`, with no freeze authority.
pub open spec fn is_initialize_mint(
    ix: InstructionView,
    mint: Seq<u8>,
    authority: Seq<u8>,
    decimals: u8,
) -> bool {
    &&& ix.program_id == token_program_key()
    &&& ix.accounts.len() == 2
    &&& ref_matches(ix.accounts[0], mint, false, true)
    &&& ref_matches(ix.accounts[1], rent_sysvar_key(), false, false)
    &&& ix.data == seq![0u8, decimals] + authority + seq![0u8]
}

/// The token program's instruction that mints `amount` of `mint` into
/// `account`, under `owner`, with `signer` as the one signer of a multisignature owner.
pub open spec fn is_mint_to(
    ix: InstructionView,
    mint: Seq<u8>,
    account: Seq<u8>,
    owner: Seq<u8>,
    signer: Seq<u8>,
    amount: u64,
) -> bool {
    &&& ix.program_id == token_program_key()
    &&& ix.accounts.len() == 4
    &&& ref_matches(ix.accounts[0], mint, false, true)
    &&& ref_matches(ix.accounts[1], account, false, true)
    &&& ref_matches(ix.accounts[2], owner, false, false)
    &&& ref_matches(ix.accounts[3], signer, true, false)
    &&& ix.data == seq![7u8] + spec_u64_to_le_bytes(amount)
}

/// The associated-token-account program's instruction that creates the token
/// account of `wallet` for `mint`, paid by `payer`.
pub open spec fn is_create_associated_account(
    ix: InstructionView,
    payer: Seq<u8>,
    wallet: Seq<u8>,
    mint: Seq<u8>,
) -> bool {
    &&& ix.program_id == associated_token_program_key()
    &&& ix.accounts.len() == 6
    &&& ref_matches(ix.accounts[0], payer, true, true)
    &&& ref_matches(
        ix.accounts[1],
        associated_address_of(wallet, mint, token_program_key()),
        false,
        true,
    )
    &&& ref_matches(ix.accounts[2], wallet, false, false)
    &&& ref_matches(ix.accounts[3], mint, false, false)
    &&& ref_matches(ix.accounts[4], system_program_key(), false, false)
    &&& ref_matches(ix.accounts[5], token_program_key(), false, false)
    &&& ix.data == seq![0u8]
}

/// Moves an instruction of the ledger's SDK into the library's own type.
#[verifier::external_body]
fn from_sdk(ix: Instruction) -> (r: LedgerInstruction) {
    let accounts = ix.accounts.iter().map(|a| AccountRef {
        pubkey: PublicKey { bytes: a.pubkey.to_bytes() },
        is_signer: a.is_signer,
        is_writable: a.is_writable,
    }).collect();
    LedgerInstruction { program_id: PublicKey { bytes: ix.program_id.to_bytes() }, accounts, data: ix.data }
}

/// Relies on `spl_token::ID`: the token program's address.
#[verifier::external_body]
fn token_program_id() -> (r: PublicKey)
    ensures
        r@ == token_program_key(),
{
    PublicKey { bytes: spl_token::ID.to_bytes() }
}

/// Relies on `Pack for spl_token::state::Mint`: a mint account's data length.
#[verifier::external_body]
fn mint_len() -> (r: u64)
    ensures
        r == mint_account_size(),
{
    Mint::LEN as u64
}

/// Bytes of account data that a token mint occupies, for the rent query.
pub fn mint_account_len() -> (r: u64)
    ensures
        r == mint_account_size(),
{
    mint_len()
}

/// Relies on `system_instruction::create_account`: system instruction 0 with the
/// lamports, space and owner, bincode-encoded; `from` and `to` both sign and are written.
#[verifier::external_body]
fn sdk_create_account(
    from: PublicKey,
    to: PublicKey,
    lamports: u64,
    space: u64,
    owner: PublicKey,
) -> (r: LedgerInstruction)
    ensures
        is_create_account(r@, from@, to@, lamports, space, owner@),
{
    let (f, t, o) = (Pubkey::from(from.bytes), Pubkey::from(to.bytes), Pubkey::from(owner.bytes));
    from_sdk(solana_sdk::system_instruction::create_account(&f, &t, lamports, space, &o))
}

/// Relies on `spl_token::instruction::initialize_mint`: it refuses any program but the
/// token program, and otherwise packs tag 0, the decimals, the authority and an empty
/// freeze authority.
#[verifier::external_body]
fn sdk_initialize_mint(
    token_program: PublicKey,
    mint: PublicKey,
    authority: PublicKey,
    decimals: u8,
) -> (r: Option<LedgerInstruction>)
    ensures
        r is Some <==> token_program@ == token_program_key(),
        r matches Some(ix) ==> is_initialize_mint(ix@, mint@, authority@, decimals),
{
    let (p, m, a) = (Pubkey::from(token_program.bytes), Pubkey::from(mint.bytes), Pubkey::from(authority.bytes));
    match initialize_mint(&p, &m, &a, None, decimals) {
        Ok(ix) => Some(from_sdk(ix)),
        Err(_) => None,
    }
}

/// Relies on `spl_token::instruction::mint_to` with one multisignature signer: it
/// refuses any program but the token program, and otherwise packs tag 7 and the amount.
#[verifier::external_body]
fn sdk_mint_to(
    token_program: PublicKey,
    mint: PublicKey,
    account: PublicKey,
    owner: PublicKey,
    signer: PublicKey,
    amount: u64,
) -> (r: Option<LedgerInstruction>)
    ensures
        r is Some <==> token_program@ == token_program_key(),
        r matches Some(ix) ==> is_mint_to(ix@, mint@, account@, owner@, signer@, amount),
{
    let (p, m, a) = (Pubkey::from(token_program.bytes), Pubkey::from(mint.bytes), Pubkey::from(account.bytes));
    let (o, s) = (Pubkey::from(owner.bytes), Pubkey::from(signer.bytes));
    match mint_to(&p, &m, &a, &o, &[&s], amount) {
        Ok(ix) => Some(from_sdk(ix)),
        Err(_) => None,
    }
}

/// Relies on `get_associated_token_address_with_program_id`: the derived address
/// depends on the wallet, the mint and the token program alone.
#[verifier::external_body]
fn sdk_associated_address(wallet: PublicKey, mint: PublicKey, token_program: PublicKey) -> (r:
    PublicKey)
    ensures
        r@ == associated_address_of(wallet@, mint@, token_program@),
{
    let (w, m, p) = (Pubkey::from(wallet.bytes), Pubkey::from(mint.bytes), Pubkey::from(token_program.bytes));
    PublicKey { bytes: get_associated_token_address_with_program_id(&w, &m, &p).to_bytes() }
}

/// Relies on `spl_associated_token_account::instruction::create_associated_token_account`:
/// instruction 0 of the associated-token-account program over the payer, the derived
/// address, the wallet, the mint, the system program and the token program.
#[verifier::external_body]
fn sdk_create_associated_account(
    payer: PublicKey,
    wallet: PublicKey,
    mint: PublicKey,
    token_program: PublicKey,
) -> (r: LedgerInstruction)
    requires
        token_program@ == token_program_key(),
    ensures
        is_create_associated_account(r@, payer@, wallet@, mint@),
{
    let (f, w) = (Pubkey::from(payer.bytes), Pubkey::from(wallet.bytes));
    let (m, p) = (Pubkey::from(mint.bytes), Pubkey::from(token_program.bytes));
    from_sdk(create_associated_token_account(&f, &w, &m, &p))
}

/// The instructions that make `mint` a new token mint: the system program funds
/// and allocates the account with `rent_lamports` and gives it to the token
/// program, then the token program initialises it. `payer` and `mint` sign.
pub fn create_token_instructions(
    payer: PublicKey,
    mint: PublicKey,
    mint_authority: PublicKey,
    decimals: u8,
    rent_lamports: u64,
) -> (r: Vec<LedgerInstruction>)
    ensures
        r.len() == 2,
        is_create_account(
            r[0]@,
            payer@,
            mint@,
            rent_lamports,
            mint_account_size(),
            token_program_key(),
        ),
        is_initialize_mint(r[1]@, mint@, mint_authority@, decimals),
{
    let token_program = token_program_id();
    let create = sdk_create_account(payer, mint, rent_lamports, mint_len(), token_program);
    let init = sdk_initialize_mint(token_program, mint, mint_authority, decimals).unwrap();
    let mut r: Vec<LedgerInstruction> = Vec::new();
    r.push(create);
    r.push(init);
    r
}

/// The instructions that mint `amount` of `mint` to the associated token
/// account of `destination`: that account is created, paid by `payer`, then the
/// token program mints into it under `authority`, with `payer` as the signer.
/// Returns the token account's address beside them.
pub fn mint_token_instructions(
    payer: PublicKey,
    mint: PublicKey,
    destination: PublicKey,
    authority: PublicKey,
    amount: u64,
) -> (r: (PublicKey, Vec<LedgerInstruction>))
    ensures
        r.0@ == associated_address_of(destination@, mint@, token_program_key()),
        r.1.len() == 2,
        is_create_associated_account(r.1[0]@, payer@, destination@, mint@),
        is_mint_to(r.1[1]@, mint@, r.0@, authority@, payer@, amount),
{
    let token_program = token_program_id();
    let account = sdk_associated_address(destination, mint, token_program);
    let create = sdk_create_associated_account(payer, destination, mint, token_program);
    let mint_ix = sdk_mint_to(token_program, mint, account, authority, payer, amount).unwrap();
    let mut ixs: Vec<LedgerInstruction> = Vec::new();
    ixs.push(create);
    ixs.push(mint_ix);
    (account, ixs)
}

} // verus!
