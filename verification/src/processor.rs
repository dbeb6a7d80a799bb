//! The staking program: a staker locks tokens in the reward pool for a
//! number of days, and withdraws the reward fixed at that moment once the
//! stake has matured.
//!
//! Accounts are given by position. A stake request comes with the staker,
//! the staker's record account, the system program, the staker's token
//! account, the reward pool's token account, the token program, the pool
//! authority and the prize pool's token account. A withdrawal comes with the
//! staker, the record account, the staker's token account, the system
//! program, the token program, the pool authority and the reward pool's
//! token account. A close request comes with the initializer and the record
//! account derived for the initializer.

use crate::account::{
    answers, outcome_of, Account, Commit, CommitView, Invocation, LamportTransfer, RecordWrite,
    RecordWriteView,
};
use crate::error::PrizeError;
use crate::instruction::StakeInstruction;
use crate::program::{
    authority_transfer, create_record, is_token_program, party_transfer, record_creation,
    token_program, transfer_by_authority, transfer_by_party,
};
use crate::pubkey::{authority_address, derive_authority, derived_address, is_address, Address};
use crate::state::StakeState;
use vstd::prelude::*;

verus! {

/// The domain seed of the staking program: the bytes of `stake`.
pub const STAKE_SEED: [u8; 5] = [115, 116, 97, 107, 101];

/// Tokens that every stake moves from the reward pool to the prize pool, as
/// a multiple of the amount staked.
pub const PRIZE_SUBSIDY_FACTOR: u64 = 5;

/// The first reason, in the order in which they are looked for, to reject a
/// stake request, where `record` and `authority` are what was derived as the
/// staker's record address and as the pool authority: fewer than eight
/// accounts; the staker has not signed; the reward pool's token account is
/// not owned by the token program; the record account is not the one derived
/// for the staker; the token program account is not the token program; no
/// pool authority was derived; five times the amount does not fit in 64
/// bits; the record account exists and what it stores is no record; the
/// maturity does not fit in 64 bits.
pub open spec fn stake_rejection(
    accounts: Seq<Account>,
    duration: u64,
    stake_amount: u64,
    now: u64,
    record: Option<(Address, u8)>,
    authority: Option<(Address, u8)>,
) -> Option<PrizeError> {
    if accounts.len() < 8 {
        Some(PrizeError::NotEnoughAccountKeys)
    } else if !accounts[0].is_signer {
        Some(PrizeError::Unauthorized)
    } else if accounts[4].owner != token_program() {
        Some(PrizeError::IncorrectProgramId)
    } else if !is_address(record, accounts[1].key) {
        Some(PrizeError::InvalidPDA)
    } else if accounts[5].key != token_program() {
        Some(PrizeError::IncorrectProgramId)
    } else if authority is None {
        Some(PrizeError::InvalidPDA)
    } else if stake_amount * PRIZE_SUBSIDY_FACTOR > u64::MAX {
        Some(PrizeError::ArithmeticOverflow)
    } else if accounts[1].lamports != 0 && StakeState::spec_decode(accounts[1].data@) is Err {
        Some(StakeState::spec_decode(accounts[1].data@)->Err_0)
    } else if StakeState::spec_open(duration, stake_amount, now) is Err {
        Some(StakeState::spec_open(duration, stake_amount, now)->Err_0)
    } else {
        None
    }
}

/// What an accepted stake request commits. Where the record account does
/// not exist yet, that is where it holds no balance, it is created first.
/// Then the staker's tokens move into the reward pool on the staker's
/// signature, and five times as many move from the reward pool into the
/// prize pool on the pool authority. The record written is the stake opened
/// at `now`, which replaces whatever the slot held.
pub open spec fn stake_commit(
    program_id: Address,
    accounts: Seq<Account>,
    duration: u64,
    stake_amount: u64,
    now: u64,
    rent: u64,
    record: Option<(Address, u8)>,
    authority: Option<(Address, u8)>,
) -> CommitView {
    let creation = if accounts[1].lamports == 0 {
        seq![
            record_creation(
                STAKE_SEED@,
                program_id,
                accounts[0].key,
                accounts[1].key,
                record->Some_0.1,
                rent,
            ),
        ]
    } else {
        Seq::empty()
    };
    CommitView {
        invocations: creation + seq![
            party_transfer(
                accounts[5].key,
                accounts[3].key,
                accounts[4].key,
                accounts[0].key,
                stake_amount,
                seq![3usize, 4, 0, 5],
            ),
            authority_transfer(
                STAKE_SEED@,
                accounts[5].key,
                accounts[4].key,
                accounts[7].key,
                authority->Some_0.0,
                authority->Some_0.1,
                (stake_amount * PRIZE_SUBSIDY_FACTOR) as u64,
                seq![0usize, 4, 7, 6, 5],
            ),
        ],
        transfer: None,
        write: Some(
            RecordWriteView {
                account: 1,
                data: StakeState::spec_open(duration, stake_amount, now)->Ok_0.spec_encode(),
            },
        ),
    }
}

/// The outcome of a stake request for which `record` and `authority` were
/// derived.
pub open spec fn decided_stake(
    program_id: Address,
    accounts: Seq<Account>,
    duration: u64,
    stake_amount: u64,
    now: u64,
    rent: u64,
    record: Option<(Address, u8)>,
    authority: Option<(Address, u8)>,
) -> Result<CommitView, PrizeError> {
    outcome_of(
        stake_rejection(accounts, duration, stake_amount, now, record, authority),
        stake_commit(program_id, accounts, duration, stake_amount, now, rent, record, authority),
    )
}

/// The outcome of a stake request: what is decided on the record address
/// derived for the staker and on the pool authority derived for the program.
pub open spec fn stake_outcome(
    program_id: Address,
    accounts: Seq<Account>,
    duration: u64,
    stake_amount: u64,
    now: u64,
    rent: u64,
) -> Result<CommitView, PrizeError> {
    decided_stake(
        program_id,
        accounts,
        duration,
        stake_amount,
        now,
        rent,
        derived_address(STAKE_SEED@, accounts[0].key, program_id),
        authority_address(STAKE_SEED@, program_id),
    )
}

/// Decides a stake request at second `now`, given what was derived as the
/// staker's record address and as the pool authority. `rent` is the balance
/// that keeps a record slot alive.
pub fn decide_stake(
    program_id: &Address,
    accounts: &[Account],
    duration: u64,
    stake_amount: u64,
    now: u64,
    rent: u64,
    record: Option<(Address, u8)>,
    authority: Option<(Address, u8)>,
) -> (answer: Result<Commit, PrizeError>)
    ensures
        answers(
            answer,
            decided_stake(
                *program_id,
                accounts@,
                duration,
                stake_amount,
                now,
                rent,
                record,
                authority,
            ),
        ),
{
    if accounts.len() < 8 {
        return Err(PrizeError::NotEnoughAccountKeys);
    }
    let staker = &accounts[0];
    let record_account = &accounts[1];
    let staker_tokens = &accounts[3];
    let reward_pool = &accounts[4];
    let token_program_account = &accounts[5];
    let prize_pool = &accounts[7];

    if !staker.is_signer {
        return Err(PrizeError::Unauthorized);
    }
    if !is_token_program(&reward_pool.owner) {
        return Err(PrizeError::IncorrectProgramId);
    }
    let record_bump = match record {
        Some((address, bump)) => {
            if !address.same(&record_account.key) {
                return Err(PrizeError::InvalidPDA);
            }
            bump
        },
        None => { return Err(PrizeError::InvalidPDA); },
    };
    let mut invocations: Vec<Invocation> = Vec::new();
    if record_account.lamports == 0 {
        invocations.push(
            create_record(
                STAKE_SEED.as_slice(),
                program_id,
                &staker.key,
                &record_account.key,
                record_bump,
                rent,
            ),
        );
    }
    let deposit = transfer_by_party(
        &token_program_account.key,
        &staker_tokens.key,
        &reward_pool.key,
        &staker.key,
        stake_amount,
        vec![3, 4, 0, 5],
    )?;
    let (authority_key, authority_bump) = match authority {
        Some(found) => found,
        None => { return Err(PrizeError::InvalidPDA); },
    };
    let subsidy_amount = match stake_amount.checked_mul(PRIZE_SUBSIDY_FACTOR) {
        Some(amount) => amount,
        None => { return Err(PrizeError::ArithmeticOverflow); },
    };
    let subsidy = transfer_by_authority(
        STAKE_SEED.as_slice(),
        &token_program_account.key,
        &reward_pool.key,
        &prize_pool.key,
        &authority_key,
        authority_bump,
        subsidy_amount,
        vec![0, 4, 7, 6, 5],
    )?;
    invocations.push(deposit);
    invocations.push(subsidy);
    if record_account.lamports != 0 {
        let _ = StakeState::decode(record_account.data.as_slice())?;
    }
    let opened = StakeState::open(duration, stake_amount, now)?;
    let commit = Commit {
        invocations,
        transfer: None,
        write: Some(RecordWrite { account: 1, data: opened.encode() }),
    };
    proof {
        let expected = stake_commit(
            *program_id,
            accounts@,
            duration,
            stake_amount,
            now,
            rent,
            record,
            authority,
        );
        assert(commit@ =~= expected);
    }
    Ok(commit)
}

/// Handles a stake request at second `now`, where `rent` is the balance that
/// keeps a record slot alive.
pub fn stake(
    program_id: &Address,
    accounts: &[Account],
    duration: u64,
    stake_amount: u64,
    now: u64,
    rent: u64,
) -> (answer: Result<Commit, PrizeError>)
    ensures
        answers(answer, stake_outcome(*program_id, accounts@, duration, stake_amount, now, rent)),
{
    if accounts.len() < 8 {
        return Err(PrizeError::NotEnoughAccountKeys);
    }
    let record = crate::pubkey::derive(STAKE_SEED.as_slice(), &accounts[0].key, program_id);
    let authority = derive_authority(STAKE_SEED.as_slice(), program_id);
    decide_stake(program_id, accounts, duration, stake_amount, now, rent, record, authority)
}

/// The first reason, in the order in which they are looked for, to reject a
/// withdrawal at second `now`, where `record` and `authority` are what was
/// derived as the staker's record address and as the pool authority: fewer
/// than seven accounts; the staker has not signed; what the record account
/// stores is no record; the reward has been claimed; the record account is
/// not the one derived for the staker; the stake has not matured; no pool
/// authority was derived; the token program account is not the token
/// program.
pub open spec fn withdraw_rejection(
    accounts: Seq<Account>,
    now: u64,
    record: Option<(Address, u8)>,
    authority: Option<(Address, u8)>,
) -> Option<PrizeError> {
    if accounts.len() < 7 {
        Some(PrizeError::NotEnoughAccountKeys)
    } else if !accounts[0].is_signer {
        Some(PrizeError::Unauthorized)
    } else {
        match StakeState::spec_decode(accounts[1].data@) {
            Err(e) => Some(e),
            Ok(stored) => if stored.is_claimed {
                Some(PrizeError::Claimed)
            } else if !is_address(record, accounts[1].key) {
                Some(PrizeError::InvalidPDA)
            } else if !stored.spec_is_mature(now) {
                Some(PrizeError::InvalidTime)
            } else if authority is None {
                Some(PrizeError::InvalidPDA)
            } else if accounts[4].key != token_program() {
                Some(PrizeError::IncorrectProgramId)
            } else {
                None
            },
        }
    }
}

/// What an accepted withdrawal commits: the reward that the record holds
/// moves from the reward pool to the staker's token account on the pool
/// authority, and the record is written back marked as claimed, with nothing
/// else changed.
pub open spec fn withdraw_commit(
    accounts: Seq<Account>,
    authority: Option<(Address, u8)>,
) -> CommitView {
    let stored = StakeState::spec_decode(accounts[1].data@)->Ok_0;
    CommitView {
        invocations: seq![
            authority_transfer(
                STAKE_SEED@,
                accounts[4].key,
                accounts[6].key,
                accounts[2].key,
                authority->Some_0.0,
                authority->Some_0.1,
                stored.reward_stake_amount,
                seq![0usize, 6, 2, 5, 4],
            ),
        ],
        transfer: None,
        write: Some(
            RecordWriteView {
                account: 1,
                data: (StakeState { is_claimed: true, ..stored }).spec_encode(),
            },
        ),
    }
}

/// The outcome of a withdrawal at second `now` for which `record` and
/// `authority` were derived.
pub open spec fn decided_withdrawal(
    accounts: Seq<Account>,
    now: u64,
    record: Option<(Address, u8)>,
    authority: Option<(Address, u8)>,
) -> Result<CommitView, PrizeError> {
    outcome_of(
        withdraw_rejection(accounts, now, record, authority),
        withdraw_commit(accounts, authority),
    )
}

/// The outcome of a withdrawal at second `now`: what is decided on the
/// record address derived for the staker and on the pool authority derived
/// for the program.
pub open spec fn withdraw_outcome(program_id: Address, accounts: Seq<Account>, now: u64) -> Result<
    CommitView,
    PrizeError,
> {
    decided_withdrawal(
        accounts,
        now,
        derived_address(STAKE_SEED@, accounts[0].key, program_id),
        authority_address(STAKE_SEED@, program_id),
    )
}

/// Decides a withdrawal at second `now`, given what was derived as the
/// staker's record address and as the pool authority.
pub fn decide_withdrawal(
    accounts: &[Account],
    now: u64,
    record: Option<(Address, u8)>,
    authority: Option<(Address, u8)>,
) -> (answer: Result<Commit, PrizeError>)
    ensures
        answers(answer, decided_withdrawal(accounts@, now, record, authority)),
{
    if accounts.len() < 7 {
        return Err(PrizeError::NotEnoughAccountKeys);
    }
    let staker = &accounts[0];
    let record_account = &accounts[1];
    let staker_tokens = &accounts[2];
    let token_program_account = &accounts[4];
    let reward_pool = &accounts[6];

    if !staker.is_signer {
        return Err(PrizeError::Unauthorized);
    }
    let mut stored = StakeState::decode(record_account.data.as_slice())?;
    if stored.is_claimed {
        return Err(PrizeError::Claimed);
    }
    match record {
        Some((address, _)) => {
            if !address.same(&record_account.key) {
                return Err(PrizeError::InvalidPDA);
            }
        },
        None => { return Err(PrizeError::InvalidPDA); },
    }
    let reward = stored.withdraw(now)?;
    let (authority_key, authority_bump) = match authority {
        Some(found) => found,
        None => { return Err(PrizeError::InvalidPDA); },
    };
    let payout = transfer_by_authority(
        STAKE_SEED.as_slice(),
        &token_program_account.key,
        &reward_pool.key,
        &staker_tokens.key,
        &authority_key,
        authority_bump,
        reward,
        vec![0, 6, 2, 5, 4],
    )?;
    let mut invocations: Vec<Invocation> = Vec::new();
    invocations.push(payout);
    let commit = Commit {
        invocations,
        transfer: None,
        write: Some(RecordWrite { account: 1, data: stored.encode() }),
    };
    proof {
        let expected = withdraw_commit(accounts@, authority);
        assert(commit@ =~= expected);
    }
    Ok(commit)
}

/// Handles a withdrawal at second `now`.
pub fn withdraw(program_id: &Address, accounts: &[Account], now: u64) -> (answer: Result<
    Commit,
    PrizeError,
>)
    ensures
        answers(answer, withdraw_outcome(*program_id, accounts@, now)),
{
    if accounts.len() < 7 {
        return Err(PrizeError::NotEnoughAccountKeys);
    }
    let record = crate::pubkey::derive(STAKE_SEED.as_slice(), &accounts[0].key, program_id);
    let authority = derive_authority(STAKE_SEED.as_slice(), program_id);
    decide_withdrawal(accounts, now, record, authority)
}

/// The first reason, in the order in which they are looked for, to reject a
/// close request, where `record` is what was derived as the initializer's
/// record address: fewer than two accounts; the record account is not owned
/// by the program; the initializer has not signed; the record account holds
/// no balance; the record account is not the one derived for the
/// initializer; the initializer's balance would not fit in 64 bits.
pub open spec fn close_rejection(
    program_id: Address,
    accounts: Seq<Account>,
    record: Option<(Address, u8)>,
) -> Option<PrizeError> {
    if accounts.len() < 2 {
        Some(PrizeError::NotEnoughAccountKeys)
    } else if accounts[1].owner != program_id {
        Some(PrizeError::IllegalOwner)
    } else if !accounts[0].is_signer {
        Some(PrizeError::Unauthorized)
    } else if accounts[1].lamports == 0 {
        Some(PrizeError::InsufficientFunds)
    } else if !is_address(record, accounts[1].key) {
        Some(PrizeError::InvalidPDA)
    } else if accounts[0].lamports + accounts[1].lamports > u64::MAX {
        Some(PrizeError::ArithmeticOverflow)
    } else {
        None
    }
}

/// What an accepted close request commits: the whole balance of the record
/// account moves to the initializer. Nothing is called and nothing written.
pub open spec fn close_commit(accounts: Seq<Account>) -> CommitView {
    CommitView {
        invocations: Seq::empty(),
        transfer: Some(LamportTransfer { from: 1, to: 0, amount: accounts[1].lamports }),
        write: None,
    }
}

/// The outcome of a close request for which `record` was derived.
pub open spec fn decided_close(
    program_id: Address,
    accounts: Seq<Account>,
    record: Option<(Address, u8)>,
) -> Result<CommitView, PrizeError> {
    outcome_of(close_rejection(program_id, accounts, record), close_commit(accounts))
}

/// The outcome of a close request under the domain seed of its program:
/// what is decided on the record address derived for the initializer. So the
/// balance of a slot goes to the party that the slot was derived for, and to
/// nobody else.
pub open spec fn close_outcome(
    seed: Seq<u8>,
    program_id: Address,
    accounts: Seq<Account>,
) -> Result<CommitView, PrizeError> {
    decided_close(program_id, accounts, derived_address(seed, accounts[0].key, program_id))
}

/// Decides a close request, given what was derived as the initializer's
/// record address.
pub fn decide_close(
    program_id: &Address,
    accounts: &[Account],
    record: Option<(Address, u8)>,
) -> (answer: Result<Commit, PrizeError>)
    ensures
        answers(answer, decided_close(*program_id, accounts@, record)),
{
    if accounts.len() < 2 {
        return Err(PrizeError::NotEnoughAccountKeys);
    }
    let initializer = &accounts[0];
    let record_account = &accounts[1];

    if !record_account.owner.same(program_id) {
        return Err(PrizeError::IllegalOwner);
    }
    if !initializer.is_signer {
        return Err(PrizeError::Unauthorized);
    }
    let balance = record_account.lamports;
    if balance == 0 {
        return Err(PrizeError::InsufficientFunds);
    }
    match record {
        Some((address, _)) => {
            if !address.same(&record_account.key) {
                return Err(PrizeError::InvalidPDA);
            }
        },
        None => { return Err(PrizeError::InvalidPDA); },
    }
    if initializer.lamports.checked_add(balance).is_none() {
        return Err(PrizeError::ArithmeticOverflow);
    }
    let commit = Commit {
        invocations: Vec::new(),
        transfer: Some(LamportTransfer { from: 1, to: 0, amount: balance }),
        write: None,
    };
    proof {
        let expected = close_commit(accounts@);
        assert(commit@ =~= expected);
    }
    Ok(commit)
}

/// Handles a close request of the program whose domain seed is `seed`.
pub fn close(seed: &[u8], program_id: &Address, accounts: &[Account]) -> (answer: Result<
    Commit,
    PrizeError,
>)
    ensures
        answers(answer, close_outcome(seed@, *program_id, accounts@)),
{
    if accounts.len() < 2 {
        return Err(PrizeError::NotEnoughAccountKeys);
    }
    let record = crate::pubkey::derive(seed, &accounts[0].key, program_id);
    decide_close(program_id, accounts, record)
}

/// The outcome of a request to the staking program in its wire form.
pub open spec fn process_outcome(
    program_id: Address,
    accounts: Seq<Account>,
    instruction_data: Seq<u8>,
    now: u64,
    rent: u64,
) -> Result<CommitView, PrizeError> {
    match StakeInstruction::spec_unpack(instruction_data) {
        Err(e) => Err(e),
        Ok(StakeInstruction::Stake { duration, stake_amount }) => stake_outcome(
            program_id,
            accounts,
            duration,
            stake_amount,
            now,
            rent,
        ),
        Ok(StakeInstruction::Withdraw {  }) => withdraw_outcome(program_id, accounts, now),
        Ok(StakeInstruction::Close {  }) => close_outcome(STAKE_SEED@, program_id, accounts),
    }
}

/// Decodes a request to the staking program and hands it to its handler.
/// `now` is the second at which the request is executed and `rent` the
/// balance that keeps a record slot alive.
pub fn process_instruction(
    program_id: &Address,
    accounts: &[Account],
    instruction_data: &[u8],
    now: u64,
    rent: u64,
) -> (answer: Result<Commit, PrizeError>)
    ensures
        answers(answer, process_outcome(*program_id, accounts@, instruction_data@, now, rent)),
{
    let instruction = StakeInstruction::unpack(instruction_data)?;
    match instruction {
        StakeInstruction::Stake { duration, stake_amount } => stake(
            program_id,
            accounts,
            duration,
            stake_amount,
            now,
            rent,
        ),
        StakeInstruction::Withdraw {  } => withdraw(program_id, accounts, now),
        StakeInstruction::Close {  } => close(STAKE_SEED.as_slice(), program_id, accounts),
    }
}

} // verus!
