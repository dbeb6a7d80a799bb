//! The prize-pool program: an initializer configures three prizes, three
//! winners and a claim window; each winner claims its prize once, out of the
//! balance that the pool's record account holds in escrow.
//!
//! Accounts are given by position. The creation of a pool comes with the
//! initializer, the pool's record account and the system program; an update
//! with the initializer and the record account; a claim with the pool's
//! initializer, the record account and the claimant; a close request with
//! the initializer and the record account. In each of them the record
//! account has to be the one derived for the initializer.

use crate::account::{
    answers, outcome_of, Account, Commit, CommitView, Invocation, LamportTransfer, RecordWrite,
    RecordWriteView,
};
use crate::error::PrizeError;
use crate::instruction::PrizeInstruction;
use crate::processor::{close, close_outcome};
use crate::program::{create_record, record_creation};
use crate::pubkey::{derived_address, is_address, Address};
use crate::state::{PrizePoolRecord, PrizeSchedule};
use vstd::prelude::*;

verus! {

/// The domain seed of the prize-pool program: the bytes of `prize`.
pub const PRIZE_SEED: [u8; 5] = [112, 114, 105, 122, 101];

/// The record that the slot of a pool holds: none yet where the account
/// holds no balance, which is where it does not exist; else what its data
/// stores.
pub open spec fn pool_record(account: Account) -> Result<PrizePoolRecord, PrizeError> {
    if account.lamports == 0 {
        Ok(PrizePoolRecord::spec_empty())
    } else {
        PrizePoolRecord::spec_decode(account.data@)
    }
}

/// The first reason, in the order in which they are looked for, to reject
/// the creation of a pool, where `record` is what was derived as the
/// initializer's record address: fewer than three accounts; the initializer
/// has not signed; the record account is not the one derived for the
/// initializer; the window ends before it starts; the record account exists
/// and what it stores is no record; the record is initialised already.
pub open spec fn init_config_rejection(
    accounts: Seq<Account>,
    schedule: PrizeSchedule,
    record: Option<(Address, u8)>,
) -> Option<PrizeError> {
    if accounts.len() < 3 {
        Some(PrizeError::NotEnoughAccountKeys)
    } else if !accounts[0].is_signer {
        Some(PrizeError::Unauthorized)
    } else if !is_address(record, accounts[1].key) {
        Some(PrizeError::InvalidPDA)
    } else if !schedule.spec_window_is_valid() {
        Some(PrizeError::InvalidTime)
    } else {
        match pool_record(accounts[1]) {
            Err(e) => Some(e),
            Ok(stored) => match stored.spec_init(schedule) {
                Err(e) => Some(e),
                Ok(_) => None,
            },
        }
    }
}

/// What the accepted creation of a pool commits. Where the record account
/// does not exist yet it is created, funded by the initializer. The record
/// written holds the schedule, with no prize paid.
pub open spec fn init_config_commit(
    program_id: Address,
    accounts: Seq<Account>,
    schedule: PrizeSchedule,
    rent: u64,
    record: Option<(Address, u8)>,
) -> CommitView {
    CommitView {
        invocations: if accounts[1].lamports == 0 {
            seq![
                record_creation(
                    PRIZE_SEED@,
                    program_id,
                    accounts[0].key,
                    accounts[1].key,
                    record->Some_0.1,
                    rent,
                ),
            ]
        } else {
            Seq::empty()
        },
        transfer: None,
        write: Some(
            RecordWriteView {
                account: 1,
                data: PrizePoolRecord::configured(schedule, false, false, false).spec_encode(),
            },
        ),
    }
}

/// The outcome of the creation of a pool for which `record` was derived.
pub open spec fn decided_init_config(
    program_id: Address,
    accounts: Seq<Account>,
    schedule: PrizeSchedule,
    rent: u64,
    record: Option<(Address, u8)>,
) -> Result<CommitView, PrizeError> {
    outcome_of(
        init_config_rejection(accounts, schedule, record),
        init_config_commit(program_id, accounts, schedule, rent, record),
    )
}

/// The outcome of the creation of a pool: what is decided on the record
/// address derived for the initializer.
pub open spec fn init_config_outcome(
    program_id: Address,
    accounts: Seq<Account>,
    schedule: PrizeSchedule,
    rent: u64,
) -> Result<CommitView, PrizeError> {
    decided_init_config(
        program_id,
        accounts,
        schedule,
        rent,
        derived_address(PRIZE_SEED@, accounts[0].key, program_id),
    )
}

/// Decides the creation of a pool, given what was derived as the
/// initializer's record address. `rent` is the balance that keeps a record
/// slot alive.
pub fn decide_init_config(
    program_id: &Address,
    accounts: &[Account],
    schedule: &PrizeSchedule,
    rent: u64,
    record: Option<(Address, u8)>,
) -> (answer: Result<Commit, PrizeError>)
    ensures
        answers(answer, decided_init_config(*program_id, accounts@, *schedule, rent, record)),
{
    if accounts.len() < 3 {
        return Err(PrizeError::NotEnoughAccountKeys);
    }
    let initializer = &accounts[0];
    let record_account = &accounts[1];

    if !initializer.is_signer {
        return Err(PrizeError::Unauthorized);
    }
    let bump = match record {
        Some((address, bump)) => {
            if !address.same(&record_account.key) {
                return Err(PrizeError::InvalidPDA);
            }
            bump
        },
        None => { return Err(PrizeError::InvalidPDA); },
    };
    if !schedule.window_is_valid() {
        return Err(PrizeError::InvalidTime);
    }
    let mut invocations: Vec<Invocation> = Vec::new();
    let mut stored = if record_account.lamports == 0 {
        invocations.push(
            create_record(
                PRIZE_SEED.as_slice(),
                program_id,
                &initializer.key,
                &record_account.key,
                bump,
                rent,
            ),
        );
        PrizePoolRecord::empty()
    } else {
        PrizePoolRecord::decode(record_account.data.as_slice())?
    };
    stored.init(schedule)?;
    let commit = Commit {
        invocations,
        transfer: None,
        write: Some(RecordWrite { account: 1, data: stored.encode() }),
    };
    proof {
        let expected = init_config_commit(*program_id, accounts@, *schedule, rent, record);
        assert(commit@ =~= expected);
    }
    Ok(commit)
}

/// Handles the creation of a pool, where `rent` is the balance that keeps a
/// record slot alive.
pub fn init_config(
    program_id: &Address,
    accounts: &[Account],
    schedule: &PrizeSchedule,
    rent: u64,
) -> (answer: Result<Commit, PrizeError>)
    ensures
        answers(answer, init_config_outcome(*program_id, accounts@, *schedule, rent)),
{
    if accounts.len() < 3 {
        return Err(PrizeError::NotEnoughAccountKeys);
    }
    let record = crate::pubkey::derive(PRIZE_SEED.as_slice(), &accounts[0].key, program_id);
    decide_init_config(program_id, accounts, schedule, rent, record)
}

/// The first reason, in the order in which they are looked for, to reject an
/// update, where `record` is what was derived as the initializer's record
/// address: fewer than two accounts; the record account is not owned by the
/// program; the initializer has not signed; the record account is not the
/// one derived for the initializer; what it stores is no record; the record
/// was never initialised; the window ends before it starts.
pub open spec fn update_config_rejection(
    program_id: Address,
    accounts: Seq<Account>,
    schedule: PrizeSchedule,
    is_first_claimed: bool,
    is_second_claimed: bool,
    is_third_claimed: bool,
    record: Option<(Address, u8)>,
) -> Option<PrizeError> {
    if accounts.len() < 2 {
        Some(PrizeError::NotEnoughAccountKeys)
    } else if accounts[1].owner != program_id {
        Some(PrizeError::IllegalOwner)
    } else if !accounts[0].is_signer {
        Some(PrizeError::Unauthorized)
    } else if !is_address(record, accounts[1].key) {
        Some(PrizeError::InvalidPDA)
    } else {
        match PrizePoolRecord::spec_decode(accounts[1].data@) {
            Err(e) => Some(e),
            Ok(stored) => match stored.spec_update(
                schedule,
                is_first_claimed,
                is_second_claimed,
                is_third_claimed,
            ) {
                Err(e) => Some(e),
                Ok(_) => None,
            },
        }
    }
}

/// What an accepted update commits: the record written holds the schedule
/// and the claim flags of the request. Nothing is called and no balance
/// moves.
pub open spec fn update_config_commit(
    schedule: PrizeSchedule,
    is_first_claimed: bool,
    is_second_claimed: bool,
    is_third_claimed: bool,
) -> CommitView {
    CommitView {
        invocations: Seq::empty(),
        transfer: None,
        write: Some(
            RecordWriteView {
                account: 1,
                data: PrizePoolRecord::configured(
                    schedule,
                    is_first_claimed,
                    is_second_claimed,
                    is_third_claimed,
                ).spec_encode(),
            },
        ),
    }
}

/// The outcome of an update for which `record` was derived.
pub open spec fn decided_update_config(
    program_id: Address,
    accounts: Seq<Account>,
    schedule: PrizeSchedule,
    is_first_claimed: bool,
    is_second_claimed: bool,
    is_third_claimed: bool,
    record: Option<(Address, u8)>,
) -> Result<CommitView, PrizeError> {
    outcome_of(
        update_config_rejection(
            program_id,
            accounts,
            schedule,
            is_first_claimed,
            is_second_claimed,
            is_third_claimed,
            record,
        ),
        update_config_commit(schedule, is_first_claimed, is_second_claimed, is_third_claimed),
    )
}

/// The outcome of an update: what is decided on the record address derived
/// for the initializer.
pub open spec fn update_config_outcome(
    program_id: Address,
    accounts: Seq<Account>,
    schedule: PrizeSchedule,
    is_first_claimed: bool,
    is_second_claimed: bool,
    is_third_claimed: bool,
) -> Result<CommitView, PrizeError> {
    decided_update_config(
        program_id,
        accounts,
        schedule,
        is_first_claimed,
        is_second_claimed,
        is_third_claimed,
        derived_address(PRIZE_SEED@, accounts[0].key, program_id),
    )
}

/// Decides an update of a pool, given what was derived as the initializer's
/// record address.
pub fn decide_update_config(
    program_id: &Address,
    accounts: &[Account],
    schedule: &PrizeSchedule,
    is_first_claimed: bool,
    is_second_claimed: bool,
    is_third_claimed: bool,
    record: Option<(Address, u8)>,
) -> (answer: Result<Commit, PrizeError>)
    ensures
        answers(
            answer,
            decided_update_config(
                *program_id,
                accounts@,
                *schedule,
                is_first_claimed,
                is_second_claimed,
                is_third_claimed,
                record,
            ),
        ),
{
    if accounts.len() < 2 {
        return Err(PrizeError::NotEnoughAccountKeys);
    }
    let initializer = &accounts[0];
    let record_account = &accounts[1];

    if !record_account.owner.same(program_id) {
        return Err(PrizeError::IllegalOwner);
    }
    if !initializer.is_signer {
        return Err(PrizeError::Unauthorized);
    }
    match record {
        Some((address, _)) => {
            if !address.same(&record_account.key) {
                return Err(PrizeError::InvalidPDA);
            }
        },
        None => { return Err(PrizeError::InvalidPDA); },
    }
    let mut stored = PrizePoolRecord::decode(record_account.data.as_slice())?;
    stored.update(schedule, is_first_claimed, is_second_claimed, is_third_claimed)?;
    let commit = Commit {
        invocations: Vec::new(),
        transfer: None,
        write: Some(RecordWrite { account: 1, data: stored.encode() }),
    };
    proof {
        let expected = update_config_commit(
            *schedule,
            is_first_claimed,
            is_second_claimed,
            is_third_claimed,
        );
        assert(commit@ =~= expected);
    }
    Ok(commit)
}

/// Handles an update of a pool.
pub fn update_config(
    program_id: &Address,
    accounts: &[Account],
    schedule: &PrizeSchedule,
    is_first_claimed: bool,
    is_second_claimed: bool,
    is_third_claimed: bool,
) -> (answer: Result<Commit, PrizeError>)
    ensures
        answers(
            answer,
            update_config_outcome(
                *program_id,
                accounts@,
                *schedule,
                is_first_claimed,
                is_second_claimed,
                is_third_claimed,
            ),
        ),
{
    if accounts.len() < 2 {
        return Err(PrizeError::NotEnoughAccountKeys);
    }
    let record = crate::pubkey::derive(PRIZE_SEED.as_slice(), &accounts[0].key, program_id);
    decide_update_config(
        program_id,
        accounts,
        schedule,
        is_first_claimed,
        is_second_claimed,
        is_third_claimed,
        record,
    )
}

/// The first reason, in the order in which they are looked for, to reject a
/// claim, where `record` is what was derived as the record address of the
/// pool's initializer: fewer than three accounts; the claimant has not
/// signed; the record account is not owned by the program; the record
/// account is not the one derived for the pool's initializer; what it stores
/// is no record; the claimant is no winner; the claimant's prize has been
/// paid; the escrow, which is the balance of the record account, holds less
/// than the prize; the claimant's balance would not fit in 64 bits.
pub open spec fn claim_rejection(
    program_id: Address,
    accounts: Seq<Account>,
    record: Option<(Address, u8)>,
) -> Option<PrizeError> {
    if accounts.len() < 3 {
        Some(PrizeError::NotEnoughAccountKeys)
    } else if !accounts[2].is_signer {
        Some(PrizeError::Unauthorized)
    } else if accounts[1].owner != program_id {
        Some(PrizeError::IllegalOwner)
    } else if !is_address(record, accounts[1].key) {
        Some(PrizeError::InvalidPDA)
    } else {
        match PrizePoolRecord::spec_decode(accounts[1].data@) {
            Err(e) => Some(e),
            Ok(stored) => match stored.spec_claim(accounts[2].key, accounts[1].lamports) {
                Err(e) => Some(e),
                Ok((_, amount)) => if accounts[2].lamports + amount > u64::MAX {
                    Some(PrizeError::ArithmeticOverflow)
                } else {
                    None
                },
            },
        }
    }
}

/// What an accepted claim commits: the prize of the claimant's rank moves
/// from the record account to the claimant, and the record is written back
/// with that prize marked as paid and nothing else changed. Nothing is
/// called.
pub open spec fn claim_commit(accounts: Seq<Account>) -> CommitView {
    let stored = PrizePoolRecord::spec_decode(accounts[1].data@)->Ok_0;
    let rank = stored.rank_of(accounts[2].key);
    CommitView {
        invocations: Seq::empty(),
        transfer: Some(LamportTransfer { from: 1, to: 2, amount: stored.prize_of(rank) }),
        write: Some(RecordWriteView { account: 1, data: stored.with_claimed(rank).spec_encode() }),
    }
}

/// The outcome of a claim for which `record` was derived.
pub open spec fn decided_claim(
    program_id: Address,
    accounts: Seq<Account>,
    record: Option<(Address, u8)>,
) -> Result<CommitView, PrizeError> {
    outcome_of(claim_rejection(program_id, accounts, record), claim_commit(accounts))
}

/// The outcome of a claim: what is decided on the record address derived
/// for the pool's initializer.
pub open spec fn claim_outcome(program_id: Address, accounts: Seq<Account>) -> Result<
    CommitView,
    PrizeError,
> {
    decided_claim(
        program_id,
        accounts,
        derived_address(PRIZE_SEED@, accounts[0].key, program_id),
    )
}

/// Decides a claim, given what was derived as the record address of the
/// pool's initializer.
pub fn decide_claim(
    program_id: &Address,
    accounts: &[Account],
    record: Option<(Address, u8)>,
) -> (answer: Result<Commit, PrizeError>)
    ensures
        answers(answer, decided_claim(*program_id, accounts@, record)),
{
    if accounts.len() < 3 {
        return Err(PrizeError::NotEnoughAccountKeys);
    }
    let record_account = &accounts[1];
    let claimant = &accounts[2];

    if !claimant.is_signer {
        return Err(PrizeError::Unauthorized);
    }
    if !record_account.owner.same(program_id) {
        return Err(PrizeError::IllegalOwner);
    }
    match record {
        Some((address, _)) => {
            if !address.same(&record_account.key) {
                return Err(PrizeError::InvalidPDA);
            }
        },
        None => { return Err(PrizeError::InvalidPDA); },
    }
    let mut stored = PrizePoolRecord::decode(record_account.data.as_slice())?;
    let amount = stored.claim(&claimant.key, record_account.lamports)?;
    if claimant.lamports.checked_add(amount).is_none() {
        return Err(PrizeError::ArithmeticOverflow);
    }
    let commit = Commit {
        invocations: Vec::new(),
        transfer: Some(LamportTransfer { from: 1, to: 2, amount }),
        write: Some(RecordWrite { account: 1, data: stored.encode() }),
    };
    proof {
        let expected = claim_commit(accounts@);
        assert(commit@ =~= expected);
    }
    Ok(commit)
}

/// Handles a claim.
pub fn claim(program_id: &Address, accounts: &[Account]) -> (answer: Result<Commit, PrizeError>)
    ensures
        answers(answer, claim_outcome(*program_id, accounts@)),
{
    if accounts.len() < 3 {
        return Err(PrizeError::NotEnoughAccountKeys);
    }
    let record = crate::pubkey::derive(PRIZE_SEED.as_slice(), &accounts[0].key, program_id);
    decide_claim(program_id, accounts, record)
}

/// The outcome of a request to the prize-pool program in its wire form.
pub open spec fn process_prize_outcome(
    program_id: Address,
    accounts: Seq<Account>,
    instruction_data: Seq<u8>,
    rent: u64,
) -> Result<CommitView, PrizeError> {
    match PrizeInstruction::spec_unpack(instruction_data) {
        Err(e) => Err(e),
        Ok(PrizeInstruction::InitConfig { schedule }) => init_config_outcome(
            program_id,
            accounts,
            schedule,
            rent,
        ),
        Ok(
            PrizeInstruction::UpdateConfig {
                schedule,
                is_first_claimed,
                is_second_claimed,
                is_third_claimed,
            },
        ) => update_config_outcome(
            program_id,
            accounts,
            schedule,
            is_first_claimed,
            is_second_claimed,
            is_third_claimed,
        ),
        Ok(PrizeInstruction::Claim {  }) => claim_outcome(program_id, accounts),
        Ok(PrizeInstruction::Close {  }) => close_outcome(PRIZE_SEED@, program_id, accounts),
    }
}

/// Decodes a request to the prize-pool program and hands it to its handler.
/// `rent` is the balance that keeps a record slot alive.
pub fn process_prize_instruction(
    program_id: &Address,
    accounts: &[Account],
    instruction_data: &[u8],
    rent: u64,
) -> (answer: Result<Commit, PrizeError>)
    ensures
        answers(answer, process_prize_outcome(*program_id, accounts@, instruction_data@, rent)),
{
    let instruction = PrizeInstruction::unpack(instruction_data)?;
    match instruction {
        PrizeInstruction::InitConfig { schedule } => init_config(
            program_id,
            accounts,
            &schedule,
            rent,
        ),
        PrizeInstruction::UpdateConfig {
            schedule,
            is_first_claimed,
            is_second_claimed,
            is_third_claimed,
        } => update_config(
            program_id,
            accounts,
            &schedule,
            is_first_claimed,
            is_second_claimed,
            is_third_claimed,
        ),
        PrizeInstruction::Claim {  } => claim(program_id, accounts),
        PrizeInstruction::Close {  } => close(PRIZE_SEED.as_slice(), program_id, accounts),
    }
}

} // verus!
