//! Unsigned instruction descriptors for the token program and the system
//! program. The order of the accounts and their flags are the calling
//! convention of the target program: another order is another instruction.

use vstd::prelude::*;
use vstd::bytes::{
    lemma_auto_spec_u64_to_from_le_bytes, spec_u64_from_le_bytes, spec_u64_to_le_bytes,
};
use crate::address::PublicAddress;
use crate::error::ApiError;

verus! {

#[verifier::external_type_specification]
#[verifier::external_body]
pub struct ExProgramError(solana_sdk::program_error::ProgramError);

/// The address of the token program.
pub const TOKEN_PROGRAM_ID: [u8; 32] = [
    6, 221, 246, 225, 215, 101, 161, 147, 217, 203, 225, 70, 206, 235, 121, 172,
    28, 180, 133, 237, 95, 91, 55, 145, 58, 140, 245, 133, 126, 255, 0, 169,
];

/// The address of the rent sysvar, which mint initialization reads.
pub const RENT_SYSVAR_ID: [u8; 32] = [
    6, 167, 213, 23, 25, 44, 92, 81, 33, 140, 201, 76, 61, 74, 241, 127,
    88, 218, 238, 8, 155, 161, 253, 68, 227, 219, 217, 138, 0, 0, 0, 0,
];

/// The address of the system program.
pub const SYSTEM_PROGRAM_ID: [u8; 32] = [
    0, 0, 0, 0, 0, 0, 0, 0, 0, 0, 0, 0, 0, 0, 0, 0,
    0, 0, 0, 0, 0, 0, 0, 0, 0, 0, 0, 0, 0, 0, 0, 0,
];

/// One participant of an instruction.
#[derive(Clone, Copy, Debug, PartialEq, Eq)]
pub struct AccountMeta {
    pub pubkey: PublicAddress,
    pub is_signer: bool,
    pub is_writable: bool,
}

/// The model of an `AccountMeta`.
pub struct AccountMetaView {
    pub pubkey: Seq<u8>,
    pub is_signer: bool,
    pub is_writable: bool,
}

impl View for AccountMeta {
    type V = AccountMetaView;

    open spec fn view(&self) -> AccountMetaView {
        AccountMetaView {
            pubkey: self.pubkey@,
            is_signer: self.is_signer,
            is_writable: self.is_writable,
        }
    }
}

impl AccountMeta {
    /// A participant from the bytes of its address and its two flags.
    pub fn from_parts(pubkey: [u8; 32], is_signer: bool, is_writable: bool) -> (meta: AccountMeta)
        ensures
            meta@ == (AccountMetaView { pubkey: pubkey@, is_signer, is_writable }),
    {
        AccountMeta { pubkey: PublicAddress { bytes: pubkey }, is_signer, is_writable }
    }
}

/// An instruction as a caller will later sign and broadcast it.
#[derive(Clone, Debug, PartialEq, Eq)]
pub struct InstructionDescriptor {
    pub program_id: PublicAddress,
    pub accounts: Vec<AccountMeta>,
    pub data: Vec<u8>,
}

/// The model of an `InstructionDescriptor`.
pub struct InstructionView {
    pub program_id: Seq<u8>,
    pub accounts: Seq<AccountMetaView>,
    pub data: Seq<u8>,
}

impl View for InstructionDescriptor {
    type V = InstructionView;

    open spec fn view(&self) -> InstructionView {
        InstructionView {
            program_id: self.program_id@,
            accounts: self.accounts@.map_values(|meta: AccountMeta| meta@),
            data: self.data@,
        }
    }
}

impl InstructionDescriptor {
    /// A descriptor from its three parts.
    pub fn from_parts(program_id: [u8; 32], accounts: Vec<AccountMeta>, data: Vec<u8>) -> (ix:
        InstructionDescriptor)
        ensures
            ix.program_id@ == program_id@,
            ix.accounts == accounts,
            ix.data == data,
    {
        InstructionDescriptor { program_id: PublicAddress { bytes: program_id }, accounts, data }
    }
}

/// An account the instruction may write to.
pub open spec fn writable(pubkey: Seq<u8>, is_signer: bool) -> AccountMetaView {
    AccountMetaView { pubkey, is_signer, is_writable: true }
}

/// An account the instruction only reads.
pub open spec fn readonly(pubkey: Seq<u8>, is_signer: bool) -> AccountMetaView {
    AccountMetaView { pubkey, is_signer, is_writable: false }
}

/// Mint initialization without a freeze authority: opcode 0, the decimals,
/// the mint authority, and a zero byte for the absent freeze authority. The
/// mint is written; the rent sysvar is read; nobody signs.
pub open spec fn initialize_mint_instruction(
    mint: Seq<u8>,
    mint_authority: Seq<u8>,
    decimals: u8,
) -> InstructionView {
    InstructionView {
        program_id: TOKEN_PROGRAM_ID@,
        accounts: seq![writable(mint, false), readonly(RENT_SYSVAR_ID@, false)],
        data: seq![0u8, decimals] + mint_authority + seq![0u8],
    }
}

/// Minting: opcode 7 and the amount in little-endian order. The mint and the
/// destination are written; the authority signs.
pub open spec fn mint_to_instruction(
    mint: Seq<u8>,
    destination: Seq<u8>,
    authority: Seq<u8>,
    amount: u64,
) -> InstructionView {
    InstructionView {
        program_id: TOKEN_PROGRAM_ID@,
        accounts: seq![
            writable(mint, false),
            writable(destination, false),
            readonly(authority, true),
        ],
        data: seq![7u8] + spec_u64_to_le_bytes(amount),
    }
}

/// A token transfer: opcode 3 and the amount in little-endian order. The
/// source and the destination are written; the owner signs.
pub open spec fn transfer_token_instruction(
    source: Seq<u8>,
    destination: Seq<u8>,
    owner: Seq<u8>,
    amount: u64,
) -> InstructionView {
    InstructionView {
        program_id: TOKEN_PROGRAM_ID@,
        accounts: seq![
            writable(source, false),
            writable(destination, false),
            readonly(owner, true),
        ],
        data: seq![3u8] + spec_u64_to_le_bytes(amount),
    }
}

/// A native transfer: the system program's variant 2 as four little-endian
/// bytes, then the lamports in little-endian order. The sender signs and is
/// written; the recipient is written.
pub open spec fn transfer_native_instruction(from: Seq<u8>, to: Seq<u8>, lamports: u64) -> InstructionView {
    InstructionView {
        program_id: SYSTEM_PROGRAM_ID@,
        accounts: seq![writable(from, true), writable(to, false)],
        data: seq![2u8, 0u8, 0u8, 0u8] + spec_u64_to_le_bytes(lamports),
    }
}

/// Trusted: `spl_token::instruction::initialize_mint`, called for the token
/// program's own id and without a freeze authority.
///
/// For that program id the call succeeds. It lists the mint as writable and
/// the rent sysvar as read-only, neither signing, and packs the data as
/// opcode 0, the decimals, the authority's 32 bytes, and one zero byte.
#[verifier::external_body]
fn spl_initialize_mint(mint: &[u8; 32], mint_authority: &[u8; 32], decimals: u8) -> (r: Result<
    InstructionDescriptor,
    solana_sdk::program_error::ProgramError,
>)
    ensures
        r is Ok,
        r matches Ok(ix) ==> ix@ == initialize_mint_instruction(mint@, mint_authority@, decimals),
{
    let mint = solana_sdk::pubkey::Pubkey::from(*mint);
    let mint_authority = solana_sdk::pubkey::Pubkey::from(*mint_authority);
    let ix = spl_token::instruction::initialize_mint(&spl_token::id(), &mint, &mint_authority, None, decimals)?;
    let accounts = ix.accounts.iter().map(|a| AccountMeta::from_parts(a.pubkey.to_bytes(), a.is_signer, a.is_writable));
    Ok(InstructionDescriptor::from_parts(ix.program_id.to_bytes(), accounts.collect(), ix.data))
}

/// Trusted: `spl_token::instruction::mint_to`, called for the token
/// program's own id and with no multisig signers.
///
/// For that program id the call succeeds. It lists the mint and the
/// destination as writable and the authority as the read-only signer, and
/// packs the data as opcode 7 and the amount's eight little-endian bytes.
#[verifier::external_body]
fn spl_mint_to(mint: &[u8; 32], destination: &[u8; 32], authority: &[u8; 32], amount: u64) -> (r: Result<
    InstructionDescriptor,
    solana_sdk::program_error::ProgramError,
>)
    ensures
        r is Ok,
        r matches Ok(ix) ==> ix@ == mint_to_instruction(mint@, destination@, authority@, amount),
{
    let mint = solana_sdk::pubkey::Pubkey::from(*mint);
    let destination = solana_sdk::pubkey::Pubkey::from(*destination);
    let authority = solana_sdk::pubkey::Pubkey::from(*authority);
    let ix = spl_token::instruction::mint_to(&spl_token::id(), &mint, &destination, &authority, &[], amount)?;
    let accounts = ix.accounts.iter().map(|a| AccountMeta::from_parts(a.pubkey.to_bytes(), a.is_signer, a.is_writable));
    Ok(InstructionDescriptor::from_parts(ix.program_id.to_bytes(), accounts.collect(), ix.data))
}

/// Trusted: `spl_token::instruction::transfer`, called for the token
/// program's own id and with no multisig signers.
///
/// For that program id the call succeeds. It lists the source and the
/// destination as writable and the owner as the read-only signer, and packs
/// the data as opcode 3 and the amount's eight little-endian bytes.
#[verifier::external_body]
fn spl_transfer(source: &[u8; 32], destination: &[u8; 32], owner: &[u8; 32], amount: u64) -> (r: Result<
    InstructionDescriptor,
    solana_sdk::program_error::ProgramError,
>)
    ensures
        r is Ok,
        r matches Ok(ix) ==> ix@ == transfer_token_instruction(source@, destination@, owner@, amount),
{
    let source = solana_sdk::pubkey::Pubkey::from(*source);
    let destination = solana_sdk::pubkey::Pubkey::from(*destination);
    let owner = solana_sdk::pubkey::Pubkey::from(*owner);
    let ix = spl_token::instruction::transfer(&spl_token::id(), &source, &destination, &owner, &[], amount)?;
    let accounts = ix.accounts.iter().map(|a| AccountMeta::from_parts(a.pubkey.to_bytes(), a.is_signer, a.is_writable));
    Ok(InstructionDescriptor::from_parts(ix.program_id.to_bytes(), accounts.collect(), ix.data))
}

/// Trusted: `solana_sdk::system_instruction::transfer`.
///
/// It names the system program, lists the sender as the writable signer and
/// the recipient as writable, and serializes the transfer variant as its
/// index 2 in four little-endian bytes followed by the lamports' eight.
#[verifier::external_body]
fn system_transfer(from: &[u8; 32], to: &[u8; 32], lamports: u64) -> (ix: InstructionDescriptor)
    ensures
        ix@ == transfer_native_instruction(from@, to@, lamports),
{
    let from = solana_sdk::pubkey::Pubkey::from(*from);
    let to = solana_sdk::pubkey::Pubkey::from(*to);
    let ix = solana_sdk::system_instruction::transfer(&from, &to, lamports);
    let accounts = ix.accounts.iter().map(|a| AccountMeta::from_parts(a.pubkey.to_bytes(), a.is_signer, a.is_writable));
    InstructionDescriptor::from_parts(ix.program_id.to_bytes(), accounts.collect(), ix.data)
}

/// Gives the descriptor of an assembly call, or `Internal` where the
/// assembly routine refused input that validation had accepted.
fn assembled(r: Result<InstructionDescriptor, solana_sdk::program_error::ProgramError>) -> (out: Result<
    InstructionDescriptor,
    ApiError,
>)
    ensures
        r matches Ok(ix) ==> out == Ok::<InstructionDescriptor, ApiError>(ix),
        r is Err ==> out == Err::<InstructionDescriptor, ApiError>(ApiError::Internal),
{
    match r {
        Ok(ix) => Ok(ix),
        Err(_) => Err(ApiError::Internal),
    }
}

/// The instruction that initializes `mint` as a token mint with
/// `mint_authority` and no freeze authority. Any `decimals` is passed on as
/// it is.
pub fn initialize_mint(mint: &PublicAddress, mint_authority: &PublicAddress, decimals: u8) -> (r: Result<
    InstructionDescriptor,
    ApiError,
>)
    ensures
        r is Ok,
        r matches Ok(ix) ==> ix@ == initialize_mint_instruction(mint@, mint_authority@, decimals),
{
    assembled(spl_initialize_mint(&mint.bytes, &mint_authority.bytes, decimals))
}

/// The instruction that mints `amount` base units of `mint` to
/// `destination`, signed by `authority`. An amount of zero is an
/// instruction like any other.
pub fn mint_to(
    mint: &PublicAddress,
    destination: &PublicAddress,
    authority: &PublicAddress,
    amount: u64,
) -> (r: Result<InstructionDescriptor, ApiError>)
    ensures
        r is Ok,
        r matches Ok(ix) ==> ix@ == mint_to_instruction(mint@, destination@, authority@, amount),
{
    assembled(spl_mint_to(&mint.bytes, &destination.bytes, &authority.bytes, amount))
}

/// The instruction that moves `amount` base units from the token account
/// `source` to the token account `destination`, signed by `owner`.
///
/// `source` is taken as given: it is not derived from the owner and a mint.
/// The caller answers for it being the owner's token account.
pub fn transfer_token(
    source: &PublicAddress,
    destination: &PublicAddress,
    owner: &PublicAddress,
    amount: u64,
) -> (r: Result<InstructionDescriptor, ApiError>)
    ensures
        r is Ok,
        r matches Ok(ix) ==> ix@ == transfer_token_instruction(source@, destination@, owner@, amount),
{
    assembled(spl_transfer(&source.bytes, &destination.bytes, &owner.bytes, amount))
}

/// The instruction that moves `lamports` from `from` to `to`. No minimum and
/// no maximum is applied.
pub fn transfer_native(from: &PublicAddress, to: &PublicAddress, lamports: u64) -> (r: Result<
    InstructionDescriptor,
    ApiError,
>)
    ensures
        r is Ok,
        r matches Ok(ix) ==> ix@ == transfer_native_instruction(from@, to@, lamports),
{
    Ok(system_transfer(&from.bytes, &to.bytes, lamports))
}

/// The payload of mint initialization is 35 bytes: the opcode, the decimals
/// as given, the authority, and the mark of an absent freeze authority.
pub proof fn initialize_mint_payload_layout(mint: Seq<u8>, mint_authority: Seq<u8>, decimals: u8)
    requires
        mint_authority.len() == 32,
    ensures
        initialize_mint_instruction(mint, mint_authority, decimals).data.len() == 35,
        initialize_mint_instruction(mint, mint_authority, decimals).data[0] == 0,
        initialize_mint_instruction(mint, mint_authority, decimals).data[1] == decimals,
        initialize_mint_instruction(mint, mint_authority, decimals).data.subrange(2, 34)
            == mint_authority,
        initialize_mint_instruction(mint, mint_authority, decimals).data[34] == 0,
{
    let data = initialize_mint_instruction(mint, mint_authority, decimals).data;
    assert(data.subrange(2, 34) =~= mint_authority);
}

/// The payload of minting is 9 bytes from which the amount reads back, and
/// only the authority signs.
pub proof fn mint_to_payload_layout(
    mint: Seq<u8>,
    destination: Seq<u8>,
    authority: Seq<u8>,
    amount: u64,
)
    ensures
        mint_to_instruction(mint, destination, authority, amount).data.len() == 9,
        mint_to_instruction(mint, destination, authority, amount).data[0] == 7,
        spec_u64_from_le_bytes(
            mint_to_instruction(mint, destination, authority, amount).data.subrange(1, 9),
        ) == amount,
        forall|i: int|
            0 <= i < 3 ==> (#[trigger] mint_to_instruction(
                mint,
                destination,
                authority,
                amount,
            ).accounts[i].is_signer <==> i == 2),
{
    lemma_auto_spec_u64_to_from_le_bytes();
    let data = mint_to_instruction(mint, destination, authority, amount).data;
    assert(data.subrange(1, 9) =~= spec_u64_to_le_bytes(amount));
}

/// The payload of a token transfer is 9 bytes from which the amount reads
/// back, and only the owner signs.
pub proof fn transfer_token_payload_layout(
    source: Seq<u8>,
    destination: Seq<u8>,
    owner: Seq<u8>,
    amount: u64,
)
    ensures
        transfer_token_instruction(source, destination, owner, amount).data.len() == 9,
        transfer_token_instruction(source, destination, owner, amount).data[0] == 3,
        spec_u64_from_le_bytes(
            transfer_token_instruction(source, destination, owner, amount).data.subrange(1, 9),
        ) == amount,
        forall|i: int|
            0 <= i < 3 ==> (#[trigger] transfer_token_instruction(
                source,
                destination,
                owner,
                amount,
            ).accounts[i].is_signer <==> i == 2),
{
    lemma_auto_spec_u64_to_from_le_bytes();
    let data = transfer_token_instruction(source, destination, owner, amount).data;
    assert(data.subrange(1, 9) =~= spec_u64_to_le_bytes(amount));
}

/// The payload of a native transfer is 12 bytes from which the lamports
/// read back; both accounts are written and only the sender signs.
pub proof fn transfer_native_payload_layout(from: Seq<u8>, to: Seq<u8>, lamports: u64)
    ensures
        transfer_native_instruction(from, to, lamports).data.len() == 12,
        transfer_native_instruction(from, to, lamports).data.subrange(0, 4) == seq![
            2u8,
            0u8,
            0u8,
            0u8,
        ],
        spec_u64_from_le_bytes(transfer_native_instruction(from, to, lamports).data.subrange(4, 12))
            == lamports,
        transfer_native_instruction(from, to, lamports).accounts.len() == 2,
        transfer_native_instruction(from, to, lamports).accounts[0] == writable(from, true),
        transfer_native_instruction(from, to, lamports).accounts[1] == writable(to, false),
{
    lemma_auto_spec_u64_to_from_le_bytes();
    let data = transfer_native_instruction(from, to, lamports).data;
    assert(data.subrange(0, 4) =~= seq![2u8, 0u8, 0u8, 0u8]);
    assert(data.subrange(4, 12) =~= spec_u64_to_le_bytes(lamports));
}

} // verus!
