//! Token-program and system-program instructions: built through the protocol
//! libraries from checked addresses, then rendered in text form for transport.
use solana_sdk::pubkey::Pubkey;
use vstd::prelude::*;

use crate::codec::{address_of, base58_text, base64_decoded, base64_text, encode_base58, encode_base64, parse_address};
use crate::error::{AddressField, CoreError};

verus! {

#[verifier::external_type_specification]
#[verifier::external_body]
pub struct ExProgramError(solana_sdk::program_error::ProgramError);

/// An account that an instruction touches, with its signer and writable flags.
pub struct AccountMeta {
    pub pubkey: Vec<u8>,
    pub is_signer: bool,
    pub is_writable: bool,
}

pub struct AccountMetaView {
    pub pubkey: Seq<u8>,
    pub is_signer: bool,
    pub is_writable: bool,
}

impl View for AccountMeta {
    type V = AccountMetaView;

    open spec fn view(&self) -> AccountMetaView {
        AccountMetaView { pubkey: self.pubkey@, is_signer: self.is_signer, is_writable: self.is_writable }
    }
}

/// An instruction as the protocol libraries build it: the program that runs it,
/// the accounts in the order the program expects them, and an opaque payload.
pub struct RawInstruction {
    pub program_id: Vec<u8>,
    pub accounts: Vec<AccountMeta>,
    pub data: Vec<u8>,
}

pub struct RawInstructionView {
    pub program_id: Seq<u8>,
    pub accounts: Seq<AccountMetaView>,
    pub data: Seq<u8>,
}

impl View for RawInstruction {
    type V = RawInstructionView;

    open spec fn view(&self) -> RawInstructionView {
        RawInstructionView {
            program_id: self.program_id@,
            accounts: self.accounts@.map_values(|a: AccountMeta| a@),
            data: self.data@,
        }
    }
}

/// An account of an instruction in text form: its address in base58.
pub struct AccountRecord {
    pub pubkey: String,
    pub is_signer: bool,
    pub is_writable: bool,
}

pub struct AccountRecordView {
    pub pubkey: Seq<char>,
    pub is_signer: bool,
    pub is_writable: bool,
}

impl View for AccountRecord {
    type V = AccountRecordView;

    open spec fn view(&self) -> AccountRecordView {
        AccountRecordView { pubkey: self.pubkey@, is_signer: self.is_signer, is_writable: self.is_writable }
    }
}

/// An instruction in text form: addresses in base58, the payload in base64.
pub struct InstructionRecord {
    pub program_id: String,
    pub accounts: Vec<AccountRecord>,
    pub instruction_data: String,
}

pub struct InstructionRecordView {
    pub program_id: Seq<char>,
    pub accounts: Seq<AccountRecordView>,
    pub instruction_data: Seq<char>,
}

impl View for InstructionRecord {
    type V = InstructionRecordView;

    open spec fn view(&self) -> InstructionRecordView {
        InstructionRecordView {
            program_id: self.program_id@,
            accounts: self.accounts@.map_values(|a: AccountRecord| a@),
            instruction_data: self.instruction_data@,
        }
    }
}

pub open spec fn meta(pubkey: Seq<u8>, is_signer: bool, is_writable: bool) -> AccountMetaView {
    AccountMetaView { pubkey, is_signer, is_writable }
}

/// The address of the token program, `TokenkegQfeZyiNwAJbNbGKPFXCWuBvf9Ss623VQ5DA`.
pub open spec fn token_program_id() -> Seq<u8> {
    seq![
        6u8, 221, 246, 225, 215, 101, 161, 147, 217, 203, 225, 70, 206, 235, 121, 172,
        28, 180, 133, 237, 95, 91, 55, 145, 58, 140, 245, 133, 126, 255, 0, 169,
    ]
}

/// The address of the rent sysvar, `SysvarRent111111111111111111111111111111111`.
pub open spec fn rent_sysvar_id() -> Seq<u8> {
    seq![
        6u8, 167, 213, 23, 25, 44, 92, 81, 33, 140, 201, 76, 61, 74, 241, 127,
        88, 218, 238, 8, 155, 161, 253, 68, 227, 219, 217, 138, 0, 0, 0, 0,
    ]
}

/// The address of the system program: 32 zero bytes.
pub open spec fn system_program_id() -> Seq<u8> {
    Seq::new(32, |i: int| 0u8)
}

/// The eight little-endian bytes of `n`.
pub open spec fn le_bytes(n: u64) -> Seq<u8> {
    seq![
        (n % 0x100) as u8,
        (n / 0x100 % 0x100) as u8,
        (n / 0x10000 % 0x100) as u8,
        (n / 0x1000000 % 0x100) as u8,
        (n / 0x100000000 % 0x100) as u8,
        (n / 0x10000000000 % 0x100) as u8,
        (n / 0x1000000000000 % 0x100) as u8,
        (n / 0x100000000000000 % 0x100) as u8,
    ]
}

/// The token program's `InitializeMint` with no freeze authority: the mint
/// (writable) and the rent sysvar; tag 0, the decimals, the authority, and a
/// zero byte for the absent freeze authority.
pub open spec fn initialize_mint_instruction(mint: Seq<u8>, authority: Seq<u8>, decimals: u8) -> RawInstructionView {
    RawInstructionView {
        program_id: token_program_id(),
        accounts: seq![meta(mint, false, true), meta(rent_sysvar_id(), false, false)],
        data: seq![0u8, decimals] + authority + seq![0u8],
    }
}

/// The token program's `MintTo` with a single authority: the mint and the
/// destination (writable), the authority (signer); tag 7 and the amount.
pub open spec fn mint_to_instruction(mint: Seq<u8>, destination: Seq<u8>, authority: Seq<u8>, amount: u64) -> RawInstructionView {
    RawInstructionView {
        program_id: token_program_id(),
        accounts: seq![meta(mint, false, true), meta(destination, false, true), meta(authority, true, false)],
        data: seq![7u8] + le_bytes(amount),
    }
}

/// The token program's `Transfer` with a single authority: the source and the
/// destination (writable), the authority (signer); tag 3 and the amount.
pub open spec fn token_transfer_instruction(source: Seq<u8>, destination: Seq<u8>, authority: Seq<u8>, amount: u64) -> RawInstructionView {
    RawInstructionView {
        program_id: token_program_id(),
        accounts: seq![meta(source, false, true), meta(destination, false, true), meta(authority, true, false)],
        data: seq![3u8] + le_bytes(amount),
    }
}

/// The system program's `Transfer`: the payer (signer, writable) and the
/// recipient (writable); variant 2 as a little-endian `u32`, then the lamports.
pub open spec fn system_transfer_instruction(from: Seq<u8>, to: Seq<u8>, lamports: u64) -> RawInstructionView {
    RawInstructionView {
        program_id: system_program_id(),
        accounts: seq![meta(from, true, true), meta(to, false, true)],
        data: seq![2u8, 0, 0, 0] + le_bytes(lamports),
    }
}

/// Relies on `spl_token::instruction::initialize_mint`, which succeeds for the
/// token program's own id.
#[verifier::external_body]
fn spl_initialize_mint(mint: &[u8], authority: &[u8], decimals: u8) -> (r: Result<RawInstruction, solana_sdk::program_error::ProgramError>)
    requires
        mint@.len() == 32,
        authority@.len() == 32,
    ensures
        match r {
            Ok(ix) => ix@ == initialize_mint_instruction(mint@, authority@, decimals),
            Err(_) => false,
        },
{
    let ix = spl_token::instruction::initialize_mint(
        &spl_token::ID,
        &Pubkey::try_from(mint).unwrap(),
        &Pubkey::try_from(authority).unwrap(),
        None,
        decimals,
    )?;
    let accounts = ix.accounts.iter().map(|a| AccountMeta {
        pubkey: a.pubkey.to_bytes().to_vec(), is_signer: a.is_signer, is_writable: a.is_writable,
    });
    Ok(RawInstruction { program_id: ix.program_id.to_bytes().to_vec(), accounts: accounts.collect(), data: ix.data })
}

/// Relies on `spl_token::instruction::mint_to` with no co-signers, which
/// succeeds for the token program's own id.
#[verifier::external_body]
fn spl_mint_to(mint: &[u8], destination: &[u8], authority: &[u8], amount: u64) -> (r: Result<RawInstruction, solana_sdk::program_error::ProgramError>)
    requires
        mint@.len() == 32,
        destination@.len() == 32,
        authority@.len() == 32,
    ensures
        match r {
            Ok(ix) => ix@ == mint_to_instruction(mint@, destination@, authority@, amount),
            Err(_) => false,
        },
{
    let ix = spl_token::instruction::mint_to(
        &spl_token::ID,
        &Pubkey::try_from(mint).unwrap(),
        &Pubkey::try_from(destination).unwrap(),
        &Pubkey::try_from(authority).unwrap(),
        &[],
        amount,
    )?;
    let accounts = ix.accounts.iter().map(|a| AccountMeta {
        pubkey: a.pubkey.to_bytes().to_vec(), is_signer: a.is_signer, is_writable: a.is_writable,
    });
    Ok(RawInstruction { program_id: ix.program_id.to_bytes().to_vec(), accounts: accounts.collect(), data: ix.data })
}

/// Relies on `spl_token::instruction::transfer` with no co-signers, which
/// succeeds for the token program's own id.
#[verifier::external_body]
fn spl_transfer(source: &[u8], destination: &[u8], authority: &[u8], amount: u64) -> (r: Result<RawInstruction, solana_sdk::program_error::ProgramError>)
    requires
        source@.len() == 32,
        destination@.len() == 32,
        authority@.len() == 32,
    ensures
        match r {
            Ok(ix) => ix@ == token_transfer_instruction(source@, destination@, authority@, amount),
            Err(_) => false,
        },
{
    let ix = spl_token::instruction::transfer(
        &spl_token::ID,
        &Pubkey::try_from(source).unwrap(),
        &Pubkey::try_from(destination).unwrap(),
        &Pubkey::try_from(authority).unwrap(),
        &[],
        amount,
    )?;
    let accounts = ix.accounts.iter().map(|a| AccountMeta {
        pubkey: a.pubkey.to_bytes().to_vec(), is_signer: a.is_signer, is_writable: a.is_writable,
    });
    Ok(RawInstruction { program_id: ix.program_id.to_bytes().to_vec(), accounts: accounts.collect(), data: ix.data })
}

/// Relies on `solana_sdk::system_instruction::transfer`, whose payload is the
/// bincode form of `SystemInstruction::Transfer`.
#[verifier::external_body]
fn system_transfer(from: &[u8], to: &[u8], lamports: u64) -> (r: RawInstruction)
    requires
        from@.len() == 32,
        to@.len() == 32,
    ensures
        r@ == system_transfer_instruction(from@, to@, lamports),
{
    let ix = solana_sdk::system_instruction::transfer(
        &Pubkey::try_from(from).unwrap(),
        &Pubkey::try_from(to).unwrap(),
        lamports,
    );
    let accounts = ix.accounts.iter().map(|a| AccountMeta {
        pubkey: a.pubkey.to_bytes().to_vec(), is_signer: a.is_signer, is_writable: a.is_writable,
    });
    RawInstruction { program_id: ix.program_id.to_bytes().to_vec(), accounts: accounts.collect(), data: ix.data }
}

pub open spec fn render_account(a: AccountMetaView) -> AccountRecordView {
    AccountRecordView { pubkey: base58_text(a.pubkey), is_signer: a.is_signer, is_writable: a.is_writable }
}

/// The text form of an instruction: every address in base58, the payload in
/// base64, the accounts in the same order with the same flags.
pub open spec fn render_spec(ix: RawInstructionView) -> InstructionRecordView {
    InstructionRecordView {
        program_id: base58_text(ix.program_id),
        accounts: ix.accounts.map_values(|a: AccountMetaView| render_account(a)),
        instruction_data: base64_text(ix.data),
    }
}

/// Renders an instruction for transport, keeping the order of its accounts.
pub fn render(ix: &RawInstruction) -> (r: InstructionRecord)
    ensures
        r@ == render_spec(ix@),
        base64_decoded(r@.instruction_data) == Some(ix@.data),
{
    let mut accounts: Vec<AccountRecord> = Vec::new();
    let mut i: usize = 0;
    while i < ix.accounts.len()
        invariant
            i <= ix.accounts@.len(),
            accounts@.len() == i,
            forall|j: int| 0 <= j < i ==> #[trigger] accounts@[j]@ == render_account(ix.accounts@[j]@),
        decreases ix.accounts@.len() - i,
    {
        let a = &ix.accounts[i];
        accounts.push(AccountRecord {
            pubkey: encode_base58(a.pubkey.as_slice()),
            is_signer: a.is_signer,
            is_writable: a.is_writable,
        });
        i = i + 1;
    }
    let r = InstructionRecord {
        program_id: encode_base58(ix.program_id.as_slice()),
        accounts,
        instruction_data: encode_base64(ix.data.as_slice()),
    };
    assert(r@.accounts =~= render_spec(ix@).accounts);
    r
}

/// A built record, or the error, as views.
pub open spec fn record_view(r: Result<InstructionRecord, CoreError>) -> Result<InstructionRecordView, CoreError> {
    match r {
        Ok(x) => Ok(x@),
        Err(e) => Err(e),
    }
}

pub open spec fn initialize_mint_outcome(mint: Seq<char>, mint_authority: Seq<char>, decimals: u8) -> Result<InstructionRecordView, CoreError> {
    match (address_of(mint), address_of(mint_authority)) {
        (None, _) => Err(CoreError::InvalidAddress(AddressField::Mint)),
        (Some(_), None) => Err(CoreError::InvalidAddress(AddressField::MintAuthority)),
        (Some(m), Some(a)) => Ok(render_spec(initialize_mint_instruction(m, a, decimals))),
    }
}

/// The token program's instruction that initialises `mint` with
/// `mint_authority` and `decimals`, and no freeze authority.
pub fn build_initialize_mint(mint: &str, mint_authority: &str, decimals: u8) -> (r: Result<InstructionRecord, CoreError>)
    ensures
        record_view(r) == initialize_mint_outcome(mint@, mint_authority@, decimals),
        match r {
            Ok(rec) => rec@.accounts[0].pubkey == mint@ && base64_decoded(rec@.instruction_data) == Some(
                seq![0u8, decimals] + address_of(mint_authority@)->0 + seq![0u8],
            ),
            Err(_) => true,
        },
{
    let m = parse_address(mint, AddressField::Mint)?;
    let a = parse_address(mint_authority, AddressField::MintAuthority)?;
    match spl_initialize_mint(m.as_slice(), a.as_slice(), decimals) {
        Ok(ix) => Ok(render(&ix)),
        Err(_) => Err(CoreError::InstructionConstructionFailed),
    }
}

pub open spec fn mint_to_outcome(mint: Seq<char>, destination: Seq<char>, authority: Seq<char>, amount: u64) -> Result<InstructionRecordView, CoreError> {
    match (address_of(mint), address_of(destination), address_of(authority)) {
        (None, _, _) => Err(CoreError::InvalidAddress(AddressField::Mint)),
        (Some(_), None, _) => Err(CoreError::InvalidAddress(AddressField::Destination)),
        (Some(_), Some(_), None) => Err(CoreError::InvalidAddress(AddressField::Authority)),
        (Some(m), Some(d), Some(a)) => Ok(render_spec(mint_to_instruction(m, d, a, amount))),
    }
}

/// The token program's instruction that mints `amount` of `mint` into
/// `destination`, signed by `authority` alone.
pub fn build_mint_to(mint: &str, destination: &str, authority: &str, amount: u64) -> (r: Result<InstructionRecord, CoreError>)
    ensures
        record_view(r) == mint_to_outcome(mint@, destination@, authority@, amount),
        match r {
            Ok(rec) => rec@.accounts[0].pubkey == mint@ && rec@.accounts[1].pubkey == destination@
                && rec@.accounts[2].pubkey == authority@
                && base64_decoded(rec@.instruction_data) == Some(seq![7u8] + le_bytes(amount)),
            Err(_) => true,
        },
{
    let m = parse_address(mint, AddressField::Mint)?;
    let d = parse_address(destination, AddressField::Destination)?;
    let a = parse_address(authority, AddressField::Authority)?;
    match spl_mint_to(m.as_slice(), d.as_slice(), a.as_slice(), amount) {
        Ok(ix) => Ok(render(&ix)),
        Err(_) => Err(CoreError::InstructionConstructionFailed),
    }
}

pub open spec fn transfer_native_outcome(from: Seq<char>, to: Seq<char>, lamports: u64) -> Result<InstructionRecordView, CoreError> {
    match (address_of(from), address_of(to)) {
        (None, _) => Err(CoreError::InvalidAddress(AddressField::From)),
        (Some(_), None) => Err(CoreError::InvalidAddress(AddressField::To)),
        (Some(f), Some(t)) => Ok(render_spec(system_transfer_instruction(f, t, lamports))),
    }
}

/// The system program's instruction that moves `lamports` from `from` to `to`.
/// It fails only on an address that does not parse.
pub fn build_transfer_native(from: &str, to: &str, lamports: u64) -> (r: Result<InstructionRecord, CoreError>)
    ensures
        record_view(r) == transfer_native_outcome(from@, to@, lamports),
        match r {
            Ok(rec) => rec@.accounts[0].pubkey == from@ && rec@.accounts[1].pubkey == to@
                && base64_decoded(rec@.instruction_data) == Some(seq![2u8, 0, 0, 0] + le_bytes(lamports)),
            Err(_) => true,
        },
{
    let f = parse_address(from, AddressField::From)?;
    let t = parse_address(to, AddressField::To)?;
    let ix = system_transfer(
        f.as_slice(),
        t.as_slice(),
        lamports,
    );
    Ok(render(&ix))
}

pub open spec fn transfer_token_outcome(destination: Seq<char>, mint: Seq<char>, owner: Seq<char>, amount: u64) -> Result<InstructionRecordView, CoreError> {
    match (address_of(mint), address_of(destination), address_of(owner)) {
        (None, _, _) => Err(CoreError::InvalidAddress(AddressField::Mint)),
        (Some(_), None, _) => Err(CoreError::InvalidAddress(AddressField::Destination)),
        (Some(_), Some(_), None) => Err(CoreError::InvalidAddress(AddressField::Owner)),
        (Some(m), Some(d), Some(o)) => Ok(render_spec(token_transfer_instruction(m, d, o, amount))),
    }
}

/// The token program's transfer of `amount` to `destination`, signed by
/// `owner`. There is no separate source token account: the mint address
/// stands in the source position, as callers of this operation expect.
pub fn build_transfer_token(destination: &str, mint: &str, owner: &str, amount: u64) -> (r: Result<InstructionRecord, CoreError>)
    ensures
        record_view(r) == transfer_token_outcome(destination@, mint@, owner@, amount),
        match r {
            Ok(rec) => rec@.accounts[0].pubkey == mint@ && rec@.accounts[1].pubkey == destination@
                && rec@.accounts[2].pubkey == owner@
                && base64_decoded(rec@.instruction_data) == Some(seq![3u8] + le_bytes(amount)),
            Err(_) => true,
        },
{
    let m = parse_address(mint, AddressField::Mint)?;
    let d = parse_address(destination, AddressField::Destination)?;
    let o = parse_address(owner, AddressField::Owner)?;
    match spl_transfer(m.as_slice(), d.as_slice(), o.as_slice(), amount) {
        Ok(ix) => Ok(render(&ix)),
        Err(_) => Err(CoreError::InstructionConstructionFailed),
    }
}

/// A successful `InitializeMint` record lists the mint first, writable and not
/// a signer, and its payload starts with the instruction's tag, 0.
pub proof fn lemma_initialize_mint_shape(mint: Seq<char>, mint_authority: Seq<char>, decimals: u8)
    requires
        initialize_mint_outcome(mint, mint_authority, decimals) is Ok,
    ensures
        ({
            let rec = initialize_mint_outcome(mint, mint_authority, decimals)->Ok_0;
            let ix = initialize_mint_instruction(address_of(mint)->0, address_of(mint_authority)->0, decimals);
            &&& rec == render_spec(ix)
            &&& rec.accounts.len() == 2
            &&& rec.accounts[0].is_writable && !rec.accounts[0].is_signer
            &&& ix.data[0] == 0
        }),
{
}

/// A successful native transfer record has exactly two accounts: the payer,
/// signer and writable, then the recipient, writable and not a signer.
pub proof fn lemma_transfer_native_shape(from: Seq<char>, to: Seq<char>, lamports: u64)
    requires
        transfer_native_outcome(from, to, lamports) is Ok,
    ensures
        ({
            let rec = transfer_native_outcome(from, to, lamports)->Ok_0;
            &&& rec.program_id == base58_text(system_program_id())
            &&& rec.accounts.len() == 2
            &&& rec.accounts[0].is_signer && rec.accounts[0].is_writable
            &&& !rec.accounts[1].is_signer && rec.accounts[1].is_writable
        }),
{
}

/// An address text that is not base58 of exactly 32 bytes makes every builder
/// that takes it fail with `InvalidAddress`, whatever the other parameters.
pub proof fn lemma_unparsable_address_is_rejected(bad: Seq<char>, x: Seq<char>, y: Seq<char>, n: u64, d: u8)
    requires
        address_of(bad) is None,
    ensures
        initialize_mint_outcome(bad, x, d) matches Err(CoreError::InvalidAddress(_)),
        initialize_mint_outcome(x, bad, d) matches Err(CoreError::InvalidAddress(_)),
        mint_to_outcome(bad, x, y, n) matches Err(CoreError::InvalidAddress(_)),
        mint_to_outcome(x, bad, y, n) matches Err(CoreError::InvalidAddress(_)),
        mint_to_outcome(x, y, bad, n) matches Err(CoreError::InvalidAddress(_)),
        transfer_native_outcome(bad, x, n) matches Err(CoreError::InvalidAddress(_)),
        transfer_native_outcome(x, bad, n) matches Err(CoreError::InvalidAddress(_)),
        transfer_token_outcome(bad, x, y, n) matches Err(CoreError::InvalidAddress(_)),
        transfer_token_outcome(x, bad, y, n) matches Err(CoreError::InvalidAddress(_)),
        transfer_token_outcome(x, y, bad, n) matches Err(CoreError::InvalidAddress(_)),
{
}

} // verus!
