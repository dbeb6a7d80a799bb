//! The calls to other programs that the handlers ask for: token transfers
//! and the creation of a record's storage. The instructions are built by
//! `spl_token` and `solana_program`.

use crate::account::{AccountMeta, Instruction, InstructionView, Invocation, InvocationView};
use crate::error::PrizeError;
use crate::pubkey::{address_of, zero_address, Address};
use crate::state::RECORD_SLOT_LEN;
use solana_program::program_error::ProgramError;
use solana_program::pubkey::Pubkey;
use vstd::bytes::spec_u64_to_le_bytes;
use vstd::prelude::*;
use vstd::slice::slice_to_vec;

verus! {

/// `solana_program::program_error::ProgramError`, the failure of a call into
/// the ledger's libraries. Nothing is claimed of what a value holds.
#[verifier::external_type_specification]
#[verifier::external_body]
pub struct ExProgramError(ProgramError);

/// The identifier of the token program.
pub open spec fn token_program() -> Address {
    address_of(
        seq![
            6u8, 221, 246, 225, 215, 101, 161, 147, 217, 203, 225, 70, 206, 235, 121, 172,
            28, 180, 133, 237, 95, 91, 55, 145, 58, 140, 245, 133, 126, 255, 0, 169,
        ],
    )
}

/// The identifier of the system program, which allocates accounts.
pub open spec fn system_program() -> Address {
    zero_address()
}

/// Calls `spl_token::id`.
///
/// Trusted: it returns the token program's identifier, the 32 bytes that
/// `TokenkegQfeZyiNwAJbNbGKPFXCWuBvf9Ss623VQ5DA` stands for.
#[verifier::external_body]
pub(crate) fn token_program_id() -> (id: Address)
    ensures
        id == token_program(),
{
    Address { bytes: spl_token::id().to_bytes() }
}

/// The transfer of `amount` tokens from `source` to `destination` that the
/// token program is asked for, where `signer` signs for `authority`: both
/// token accounts writable, the authority read-only and unsigned, the signer
/// read-only and signed; the data is the tag 3 and the amount.
pub open spec fn transfer_instruction(
    token_program_id: Address,
    source: Address,
    destination: Address,
    authority: Address,
    signer: Address,
    amount: u64,
) -> InstructionView {
    InstructionView {
        program_id: token_program_id,
        accounts: seq![
            AccountMeta { pubkey: source, is_signer: false, is_writable: true },
            AccountMeta { pubkey: destination, is_signer: false, is_writable: true },
            AccountMeta { pubkey: authority, is_signer: false, is_writable: false },
            AccountMeta { pubkey: signer, is_signer: true, is_writable: false },
        ],
        data: seq![3u8] + spec_u64_to_le_bytes(amount),
    }
}

/// Calls `spl_token::instruction::transfer` with one signer.
///
/// Trusted: it fails exactly when `token_program_id` is not the token
/// program, and else returns `transfer_instruction` of its arguments.
#[verifier::external_body]
pub(crate) fn token_transfer(
    token_program_id: &Address,
    source: &Address,
    destination: &Address,
    authority: &Address,
    signer: &Address,
    amount: u64,
) -> (built: Result<Instruction, ProgramError>)
    ensures
        built is Ok <==> *token_program_id == token_program(),
        built matches Ok(instruction) ==> instruction@ == transfer_instruction(
            *token_program_id,
            *source,
            *destination,
            *authority,
            *signer,
            amount,
        ),
{
    let keys = [token_program_id, source, destination, authority, signer].map(
        |a| Pubkey::new_from_array(a.bytes),
    );
    let built = spl_token::instruction::transfer(
        &keys[0], &keys[1], &keys[2], &keys[3], &[&keys[4]], amount,
    )?;
    Ok(Instruction {
        program_id: Address { bytes: built.program_id.to_bytes() },
        accounts: built.accounts.iter().map(|m| AccountMeta {
            pubkey: Address { bytes: m.pubkey.to_bytes() },
            is_signer: m.is_signer,
            is_writable: m.is_writable,
        }).collect(),
        data: built.data,
    })
}

/// The data of the system program's instruction that creates an account
/// with `lamports` of balance and `space` bytes of storage, owned by `owner`:
/// the tag of the instruction, which is zero in four bytes, then the balance
/// and the space, each in eight bytes in little-endian order, then the 32
/// bytes of the owner.
pub open spec fn create_account_data(lamports: u64, space: u64, owner: Address) -> Seq<u8> {
    seq![0u8, 0, 0, 0] + spec_u64_to_le_bytes(lamports) + spec_u64_to_le_bytes(space) + owner@
}

/// The creation of the account `to`, funded by `from`, that the system
/// program is asked for: both accounts writable and signed.
pub open spec fn create_account_instruction(
    from: Address,
    to: Address,
    lamports: u64,
    space: u64,
    owner: Address,
) -> InstructionView {
    InstructionView {
        program_id: system_program(),
        accounts: seq![
            AccountMeta { pubkey: from, is_signer: true, is_writable: true },
            AccountMeta { pubkey: to, is_signer: true, is_writable: true },
        ],
        data: create_account_data(lamports, space, owner),
    }
}

/// Calls `solana_program::system_instruction::create_account`.
///
/// Trusted: the instruction is for the system program, names `from` and `to`
/// as writable signers in that order, and carries the `bincode` form of the
/// system instruction's first variant, which is `create_account_data` of the
/// balance, the space and the owner.
#[verifier::external_body]
pub(crate) fn create_account(
    from: &Address,
    to: &Address,
    lamports: u64,
    space: u64,
    owner: &Address,
) -> (built: Instruction)
    ensures
        built@ == create_account_instruction(*from, *to, lamports, space, *owner),
{
    let keys = [from, to, owner].map(|a| Pubkey::new_from_array(a.bytes));
    let built = solana_program::system_instruction::create_account(
        &keys[0], &keys[1], lamports, space, &keys[2],
    );
    Instruction {
        program_id: Address { bytes: built.program_id.to_bytes() },
        accounts: built.accounts.iter().map(|m| AccountMeta {
            pubkey: Address { bytes: m.pubkey.to_bytes() },
            is_signer: m.is_signer,
            is_writable: m.is_writable,
        }).collect(),
        data: built.data,
    }
}

/// The call that hands `instruction` to the system program for the record
/// account of `payer` under `seed`: the payer, the record account and the
/// system program are the first three accounts of the request, and the
/// program signs with the record's seeds.
pub open spec fn signed_creation(
    instruction: InstructionView,
    seed: Seq<u8>,
    payer: Address,
    bump: u8,
) -> InvocationView {
    InvocationView {
        instruction,
        accounts: seq![0usize, 1, 2],
        signer_seeds: seq![payer@, seed, seq![bump]],
    }
}

/// The call that creates the record account of `payer` under `seed`: a slot
/// of 1000 bytes owned by the program and funded by the payer with `rent`.
pub open spec fn record_creation(
    seed: Seq<u8>,
    program_id: Address,
    payer: Address,
    record: Address,
    bump: u8,
    rent: u64,
) -> InvocationView {
    signed_creation(
        create_account_instruction(payer, record, rent, RECORD_SLOT_LEN as u64, program_id),
        seed,
        payer,
        bump,
    )
}

/// The call that moves `amount` tokens on the signature of a party of the
/// request.
pub open spec fn party_transfer(
    token_program_id: Address,
    source: Address,
    destination: Address,
    party: Address,
    amount: u64,
    accounts: Seq<usize>,
) -> InvocationView {
    InvocationView {
        instruction: transfer_instruction(
            token_program_id,
            source,
            destination,
            party,
            party,
            amount,
        ),
        accounts,
        signer_seeds: Seq::empty(),
    }
}

/// The call that moves `amount` tokens on the program's own authority, for
/// which the program signs with the seed and the authority's bump.
pub open spec fn authority_transfer(
    seed: Seq<u8>,
    token_program_id: Address,
    source: Address,
    destination: Address,
    authority: Address,
    bump: u8,
    amount: u64,
    accounts: Seq<usize>,
) -> InvocationView {
    InvocationView {
        instruction: transfer_instruction(
            token_program_id,
            source,
            destination,
            authority,
            authority,
            amount,
        ),
        accounts,
        signer_seeds: seq![seed, seq![bump]],
    }
}

/// The seed that a bump makes: its one byte.
fn bump_seed(bump: u8) -> (seed: Vec<u8>)
    ensures
        seed@ == seq![bump],
{
    let mut seed: Vec<u8> = Vec::new();
    seed.push(bump);
    seed
}

/// Signs an instruction that creates the record account of `payer` under
/// `seed` with the record's seeds.
pub fn sign_creation(instruction: Instruction, seed: &[u8], payer: &Address, bump: u8) -> (call:
    Invocation)
    ensures
        call@ == signed_creation(instruction@, seed@, *payer, bump),
{
    let mut signer_seeds: Vec<Vec<u8>> = Vec::new();
    signer_seeds.push(payer.to_vec());
    signer_seeds.push(slice_to_vec(seed));
    signer_seeds.push(bump_seed(bump));
    let accounts: Vec<usize> = vec![0, 1, 2];
    let call = Invocation { instruction, accounts, signer_seeds };
    call
}

/// Builds the call that creates a record account.
pub fn create_record(
    seed: &[u8],
    program_id: &Address,
    payer: &Address,
    record: &Address,
    bump: u8,
    rent: u64,
) -> (call: Invocation)
    ensures
        call@ == record_creation(seed@, *program_id, *payer, *record, bump, rent),
{
    let instruction = create_account(payer, record, rent, RECORD_SLOT_LEN as u64, program_id);
    sign_creation(instruction, seed, payer, bump)
}

/// Builds the call that moves tokens on the program's own authority. It is
/// refused for a token program that is not the token program.
pub fn transfer_by_authority(
    seed: &[u8],
    token_program_id: &Address,
    source: &Address,
    destination: &Address,
    authority: &Address,
    bump: u8,
    amount: u64,
    accounts: Vec<usize>,
) -> (call: Result<Invocation, PrizeError>)
    ensures
        match call {
            Ok(call) => *token_program_id == token_program() && call@ == authority_transfer(
                seed@,
                *token_program_id,
                *source,
                *destination,
                *authority,
                bump,
                amount,
                accounts@,
            ),
            Err(e) => *token_program_id != token_program() && e == PrizeError::IncorrectProgramId,
        },
{
    let instruction = match token_transfer(
        token_program_id,
        source,
        destination,
        authority,
        authority,
        amount,
    ) {
        Ok(instruction) => instruction,
        Err(_) => { return Err(PrizeError::IncorrectProgramId); },
    };
    let mut signer_seeds: Vec<Vec<u8>> = Vec::new();
    signer_seeds.push(slice_to_vec(seed));
    signer_seeds.push(bump_seed(bump));
    let call = Invocation { instruction, accounts, signer_seeds };
    Ok(call)
}

/// Builds the call that moves tokens on the signature of a party. It is
/// refused for a token program that is not the token program.
pub fn transfer_by_party(
    token_program_id: &Address,
    source: &Address,
    destination: &Address,
    party: &Address,
    amount: u64,
    accounts: Vec<usize>,
) -> (call: Result<Invocation, PrizeError>)
    ensures
        match call {
            Ok(call) => *token_program_id == token_program() && call@ == party_transfer(
                *token_program_id,
                *source,
                *destination,
                *party,
                amount,
                accounts@,
            ),
            Err(e) => *token_program_id != token_program() && e == PrizeError::IncorrectProgramId,
        },
{
    let instruction = match token_transfer(
        token_program_id,
        source,
        destination,
        party,
        party,
        amount,
    ) {
        Ok(instruction) => instruction,
        Err(_) => { return Err(PrizeError::IncorrectProgramId); },
    };
    let signer_seeds: Vec<Vec<u8>> = Vec::new();
    let call = Invocation { instruction, accounts, signer_seeds };
    Ok(call)
}

/// Whether `address` is the token program's identifier.
pub fn is_token_program(address: &Address) -> (is_it: bool)
    ensures
        is_it == (*address == token_program()),
{
    let id = token_program_id();
    address.same(&id)
}

} // verus!
