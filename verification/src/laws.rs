//! What holds of the records, their stored form and the handlers, whatever
//! the request.

use crate::account::{
    can_be_carried_out, Account, CommitView, LamportTransfer, RecordWriteView,
};
use crate::codec::{
    encoded_bool, encoded_u64, lemma_address_stored, lemma_bool_stored, lemma_encoded_lengths,
    lemma_u64_stored, u64_at,
};
use crate::error::PrizeError;
use crate::instruction::PrizeInstruction;
use crate::prize::{
    claim_commit, claim_outcome, init_config_outcome, process_prize_outcome,
    update_config_outcome, PRIZE_SEED,
};
use crate::processor::{close_outcome, stake_outcome, withdraw_outcome};
use crate::pubkey::{derived_address, is_record_address, Address};
use crate::state::{reward_for, PrizePoolRecord, PrizeSchedule, StakeState};
use vstd::bytes::{
    lemma_auto_spec_u64_to_from_le_bytes, spec_u64_to_le_bytes, spec_u64_to_le_bytes_to_open,
};
use vstd::prelude::*;

verus! {

/// A stake record is decoded from its stored form, whatever follows it in
/// the slot.
pub proof fn stake_state_round_trip(record: StakeState, tail: Seq<u8>)
    ensures
        record.spec_encode().len() == 42,
        StakeState::spec_decode(record.spec_encode() + tail) == Ok::<StakeState, PrizeError>(
            record,
        ),
{
    broadcast use lemma_encoded_lengths;

    let data = record.spec_encode() + tail;
    assert(data.subrange(0, 1) =~= encoded_bool(record.is_initialized));
    assert(data.subrange(1, 9) =~= encoded_u64(record.duration));
    assert(data.subrange(9, 17) =~= encoded_u64(record.stake_amount));
    assert(data.subrange(17, 25) =~= encoded_u64(record.start_stake_time));
    assert(data.subrange(25, 33) =~= encoded_u64(record.end_stake_time));
    assert(data.subrange(33, 41) =~= encoded_u64(record.reward_stake_amount));
    assert(data.subrange(41, 42) =~= encoded_bool(record.is_claimed));
    lemma_bool_stored(data, 0, record.is_initialized);
    lemma_u64_stored(data, 1, record.duration);
    lemma_u64_stored(data, 9, record.stake_amount);
    lemma_u64_stored(data, 17, record.start_stake_time);
    lemma_u64_stored(data, 25, record.end_stake_time);
    lemma_u64_stored(data, 33, record.reward_stake_amount);
    lemma_bool_stored(data, 41, record.is_claimed);
}

/// A prize-pool record is decoded from its stored form, whatever follows it
/// in the slot.
pub proof fn prize_pool_record_round_trip(record: PrizePoolRecord, tail: Seq<u8>)
    ensures
        record.spec_encode().len() == 148,
        PrizePoolRecord::spec_decode(record.spec_encode() + tail) == Ok::<
            PrizePoolRecord,
            PrizeError,
        >(record),
{
    broadcast use lemma_encoded_lengths;

    let data = record.spec_encode() + tail;
    assert(data.subrange(0, 1) =~= encoded_bool(record.initialized));
    assert(data.subrange(1, 9) =~= encoded_u64(record.total_prize));
    assert(data.subrange(9, 17) =~= encoded_u64(record.first_prize));
    assert(data.subrange(17, 25) =~= encoded_u64(record.second_prize));
    assert(data.subrange(25, 33) =~= encoded_u64(record.third_prize));
    assert(data.subrange(33, 65) =~= record.first_account@);
    assert(data.subrange(65, 97) =~= record.second_account@);
    assert(data.subrange(97, 129) =~= record.third_account@);
    assert(data.subrange(129, 130) =~= encoded_bool(record.is_first_claimed));
    assert(data.subrange(130, 131) =~= encoded_bool(record.is_second_claimed));
    assert(data.subrange(131, 132) =~= encoded_bool(record.is_third_claimed));
    assert(data.subrange(132, 140) =~= encoded_u64(record.start_time));
    assert(data.subrange(140, 148) =~= encoded_u64(record.end_time));
    lemma_bool_stored(data, 0, record.initialized);
    lemma_u64_stored(data, 1, record.total_prize);
    lemma_u64_stored(data, 9, record.first_prize);
    lemma_u64_stored(data, 17, record.second_prize);
    lemma_u64_stored(data, 25, record.third_prize);
    lemma_address_stored(data, 33, record.first_account);
    lemma_address_stored(data, 65, record.second_account);
    lemma_address_stored(data, 97, record.third_account);
    lemma_bool_stored(data, 129, record.is_first_claimed);
    lemma_bool_stored(data, 130, record.is_second_claimed);
    lemma_bool_stored(data, 131, record.is_third_claimed);
    lemma_u64_stored(data, 132, record.start_time);
    lemma_u64_stored(data, 140, record.end_time);
}

/// A stake record takes 42 bytes and a prize-pool record 148.
pub proof fn encoded_record_lengths(stake: StakeState, pool: PrizePoolRecord)
    ensures
        stake.spec_encode().len() == 42,
        pool.spec_encode().len() == 148,
{
    broadcast use lemma_encoded_lengths;
}

/// Only data that is long enough for a record decodes to one.
pub proof fn decoded_data_holds_a_record(data: Seq<u8>)
    ensures
        StakeState::spec_decode(data) is Ok ==> data.len() >= 42,
        PrizePoolRecord::spec_decode(data) is Ok ==> data.len() >= 148,
{
}

/// An encoded record decodes to itself.
pub proof fn encoded_record_is_read_back(stake: StakeState, pool: PrizePoolRecord)
    ensures
        StakeState::spec_decode(stake.spec_encode()) == Ok::<StakeState, PrizeError>(stake),
        PrizePoolRecord::spec_decode(pool.spec_encode()) == Ok::<PrizePoolRecord, PrizeError>(
            pool,
        ),
{
    stake_state_round_trip(stake, Seq::empty());
    prize_pool_record_round_trip(pool, Seq::empty());
    assert(stake.spec_encode() + Seq::<u8>::empty() =~= stake.spec_encode());
    assert(pool.spec_encode() + Seq::<u8>::empty() =~= pool.spec_encode());
}

/// Whether the start of `data` is what was written to the slot.
pub open spec fn stores(data: Seq<u8>, written: Seq<u8>) -> bool {
    written.len() <= data.len() && data.subrange(0, written.len() as int) == written
}

/// A slot is what was written at its start, followed by the rest.
proof fn lemma_written_then_rest(data: Seq<u8>, written: Seq<u8>)
    requires
        stores(data, written),
    ensures
        data == written + data.subrange(written.len() as int, data.len() as int),
{
    assert(data =~= data.subrange(0, written.len() as int) + data.subrange(
        written.len() as int,
        data.len() as int,
    ));
}

/// A slot that stores an encoded stake record decodes to that record.
pub proof fn stored_stake_state_is_read_back(data: Seq<u8>, record: StakeState)
    requires
        stores(data, record.spec_encode()),
    ensures
        StakeState::spec_decode(data) == Ok::<StakeState, PrizeError>(record),
{
    let written = record.spec_encode();
    lemma_written_then_rest(data, written);
    stake_state_round_trip(record, data.subrange(written.len() as int, data.len() as int));
}

/// A slot that stores an encoded prize-pool record decodes to that record.
pub proof fn stored_prize_pool_record_is_read_back(data: Seq<u8>, record: PrizePoolRecord)
    requires
        stores(data, record.spec_encode()),
    ensures
        PrizePoolRecord::spec_decode(data) == Ok::<PrizePoolRecord, PrizeError>(record),
{
    let written = record.spec_encode();
    lemma_written_then_rest(data, written);
    prize_pool_record_round_trip(record, data.subrange(written.len() as int, data.len() as int));
}

/// Eight zero bytes encode the integer zero.
proof fn lemma_zero_u64(data: Seq<u8>, offset: int)
    requires
        0 <= offset,
        offset + 8 <= data.len(),
        forall|i: int| 0 <= i < data.len() ==> data[i] == 0,
    ensures
        u64_at(data, offset) == 0,
{
    lemma_auto_spec_u64_to_from_le_bytes();
    spec_u64_to_le_bytes_to_open(0);
    assert(0u64 & 0xff == 0 && (0u64 >> 8) & 0xff == 0 && (0u64 >> 16) & 0xff == 0 && (0u64 >> 24)
        & 0xff == 0 && (0u64 >> 32) & 0xff == 0 && (0u64 >> 40) & 0xff == 0 && (0u64 >> 48) & 0xff
        == 0 && (0u64 >> 56) & 0xff == 0) by (bit_vector);
    assert(data.subrange(offset, offset + 8) =~= spec_u64_to_le_bytes(0));
}

/// A slot that has just been allocated, all of whose bytes are zero, holds
/// the empty record, for either program.
pub proof fn fresh_slot_holds_the_empty_record(data: Seq<u8>)
    requires
        forall|i: int| 0 <= i < data.len() ==> data[i] == 0,
    ensures
        data.len() >= 42 ==> StakeState::spec_decode(data) == Ok::<StakeState, PrizeError>(
            StakeState::spec_empty(),
        ),
        data.len() >= 148 ==> PrizePoolRecord::spec_decode(data) == Ok::<
            PrizePoolRecord,
            PrizeError,
        >(PrizePoolRecord::spec_empty()),
{
    if data.len() >= 42 {
        lemma_zero_u64(data, 1);
        lemma_zero_u64(data, 9);
        lemma_zero_u64(data, 17);
        lemma_zero_u64(data, 25);
        lemma_zero_u64(data, 33);
    }
    if data.len() >= 148 {
        lemma_zero_u64(data, 132);
        lemma_zero_u64(data, 140);
    }
}

/// Address derivation is idempotent: whatever two derivations from the same
/// seed, party and program answer, they answer the same address and the same
/// bump, or both answer that there is none.
pub proof fn derivation_is_idempotent(
    seed: Seq<u8>,
    party: Address,
    program_id: Address,
    first: Option<(Address, u8)>,
    second: Option<(Address, u8)>,
)
    requires
        first == derived_address(seed, party, program_id),
        second == derived_address(seed, party, program_id),
    ensures
        first == second,
{
}

/// The record that a request to create a pool leaves behind: the new record
/// where the request is accepted, the old one where it is rejected.
pub open spec fn after_init(record: PrizePoolRecord, schedule: PrizeSchedule) -> PrizePoolRecord {
    match record.spec_init(schedule) {
        Ok(created) => created,
        Err(_) => record,
    }
}

/// A pool is created once. After an accepted creation, a second one is
/// rejected and leaves the record as the first left it; it is rejected as
/// already initialised unless its own window ends before it starts.
pub proof fn init_happens_once(
    record: PrizePoolRecord,
    first: PrizeSchedule,
    second: PrizeSchedule,
)
    requires
        record.spec_init(first) is Ok,
    ensures
        after_init(record, first).spec_init(second) is Err,
        second.spec_window_is_valid() ==> after_init(record, first).spec_init(second) == Err::<
            PrizePoolRecord,
            PrizeError,
        >(PrizeError::AlreadyInitialized),
        after_init(after_init(record, first), second) == after_init(record, first),
{
}

/// Every accepted creation and every accepted update leaves a window that
/// does not end before it starts, so every record that the program has
/// written is well formed.
pub proof fn accepted_window_is_valid(
    record: PrizePoolRecord,
    schedule: PrizeSchedule,
    is_first_claimed: bool,
    is_second_claimed: bool,
    is_third_claimed: bool,
)
    ensures
        record.spec_init(schedule) matches Ok(created) ==> created.start_time <= created.end_time
            && created.wf(),
        record.spec_update(schedule, is_first_claimed, is_second_claimed, is_third_claimed)
            matches Ok(updated) ==> updated.start_time <= updated.end_time && updated.wf(),
{
}

/// A window that ends before it starts is always rejected as an invalid
/// time: by the creation of a pool whatever the record, and by an update of
/// every record that has been initialised. The methods that make these
/// transitions leave the record of a rejected request as it was.
pub proof fn invalid_window_is_rejected(
    record: PrizePoolRecord,
    schedule: PrizeSchedule,
    is_first_claimed: bool,
    is_second_claimed: bool,
    is_third_claimed: bool,
)
    requires
        schedule.start_time > schedule.end_time,
    ensures
        record.spec_init(schedule) == Err::<PrizePoolRecord, PrizeError>(PrizeError::InvalidTime),
        after_init(record, schedule) == record,
        record.spec_update(schedule, is_first_claimed, is_second_claimed, is_third_claimed) is Err,
        record.initialized ==> record.spec_update(
            schedule,
            is_first_claimed,
            is_second_claimed,
            is_third_claimed,
        ) == Err::<PrizePoolRecord, PrizeError>(PrizeError::InvalidTime),
{
}

/// What a claim attempt pays: the prize where it is accepted, nothing where
/// it is rejected.
pub open spec fn paid_out(attempt: Result<(PrizePoolRecord, u64), PrizeError>) -> int {
    match attempt {
        Ok((_, amount)) => amount as int,
        Err(_) => 0,
    }
}

/// The record that a claim attempt leaves behind.
pub open spec fn after_claim(
    record: PrizePoolRecord,
    claimant: Address,
    escrow_balance: u64,
) -> PrizePoolRecord {
    match record.spec_claim(claimant, escrow_balance) {
        Ok((paid, _)) => paid,
        Err(_) => record,
    }
}

/// A prize that has been paid is paid to nobody again: whoever holds a rank
/// whose prize is marked as paid is rejected as having claimed, whatever the
/// escrow holds.
pub proof fn paid_rank_is_closed(record: PrizePoolRecord, claimant: Address, escrow_balance: u64)
    requires
        record.rank_of(claimant) != 0,
        record.is_claimed(record.rank_of(claimant)),
    ensures
        record.spec_claim(claimant, escrow_balance) == Err::<(PrizePoolRecord, u64), PrizeError>(
            PrizeError::Claimed,
        ),
{
}

/// Each rank is claimed at most once. After an accepted claim, a second
/// claim of the same rank is rejected as claimed and leaves the record as it
/// was, and both attempts together take exactly one prize out of the escrow.
/// That the second claimant may be another account, which an update has put
/// into the winner's place, is what `paid_rank_is_closed` adds.
pub proof fn claim_is_exclusive(
    record: PrizePoolRecord,
    first: Address,
    second: Address,
    escrow_balance: u64,
)
    requires
        record.spec_claim(first, escrow_balance) is Ok,
        after_claim(record, first, escrow_balance).rank_of(second) == record.rank_of(first),
    ensures
        ({
            let prize = record.prize_of(record.rank_of(first));
            let paid = after_claim(record, first, escrow_balance);
            let left = (escrow_balance - prize) as u64;
            &&& prize <= escrow_balance
            &&& paid_out(record.spec_claim(first, escrow_balance)) == prize
            &&& paid.spec_claim(second, left) == Err::<(PrizePoolRecord, u64), PrizeError>(
                PrizeError::Claimed,
            )
            &&& after_claim(paid, second, left) == paid
            &&& paid_out(record.spec_claim(first, escrow_balance)) + paid_out(
                paid.spec_claim(second, left),
            ) == prize
        }),
{
}

/// A claim changes nothing in the record but the flag of the rank it pays.
pub proof fn claim_keeps_the_schedule(
    record: PrizePoolRecord,
    claimant: Address,
    escrow_balance: u64,
)
    ensures
        ({
            let after = after_claim(record, claimant, escrow_balance);
            &&& forall|who: Address| after.rank_of(who) == record.rank_of(who)
            &&& forall|rank: u8| after.prize_of(rank) == record.prize_of(rank)
            &&& forall|rank: u8|
                rank != record.rank_of(claimant) ==> after.is_claimed(rank) == record.is_claimed(
                    rank,
                )
            &&& record.wf() ==> after.wf()
        }),
{
}

/// An account that is none of the three configured winners is always
/// rejected as no winner, whatever the escrow holds; nothing is paid and the
/// record stays as it was.
pub proof fn non_winner_is_rejected(
    record: PrizePoolRecord,
    claimant: Address,
    escrow_balance: u64,
)
    requires
        claimant != record.first_account,
        claimant != record.second_account,
        claimant != record.third_account,
    ensures
        record.spec_claim(claimant, escrow_balance) == Err::<(PrizePoolRecord, u64), PrizeError>(
            PrizeError::NotWinner,
        ),
        paid_out(record.spec_claim(claimant, escrow_balance)) == 0,
        after_claim(record, claimant, escrow_balance) == record,
{
}

/// The reward is fixed when the stake is opened: it is the reward of the
/// duration and the amount whenever that is, and a withdrawal releases what
/// the record holds, whenever it is accepted, and leaves it in the record.
pub proof fn reward_is_fixed_at_stake_time(
    duration: u64,
    stake_amount: u64,
    opened_at: u64,
    withdrawn_at: u64,
)
    requires
        StakeState::spec_open(duration, stake_amount, opened_at) is Ok,
        StakeState::spec_open(duration, stake_amount, opened_at)->Ok_0.spec_withdraw(
            withdrawn_at,
        ) is Ok,
    ensures
        ({
            let opened = StakeState::spec_open(duration, stake_amount, opened_at)->Ok_0;
            let (withdrawn, released) = opened.spec_withdraw(withdrawn_at)->Ok_0;
            &&& opened.reward_stake_amount == reward_for(duration, stake_amount)
            &&& released == reward_for(duration, stake_amount)
            &&& withdrawn.reward_stake_amount == reward_for(duration, stake_amount)
        }),
{
}

/// A reward is withdrawn once: after an accepted withdrawal every further
/// one is rejected as claimed, whenever it comes.
pub proof fn withdrawal_happens_once(record: StakeState, first_at: u64, second_at: u64)
    requires
        record.spec_withdraw(first_at) is Ok,
    ensures
        record.spec_withdraw(first_at)->Ok_0.0.spec_withdraw(second_at) == Err::<
            (StakeState, u64),
            PrizeError,
        >(PrizeError::Claimed),
{
}

/// A withdrawal before maturity is rejected as an invalid time.
pub proof fn withdrawal_waits_for_maturity(record: StakeState, now: u64)
    requires
        !record.is_claimed,
        now < record.end_stake_time,
    ensures
        record.spec_withdraw(now) == Err::<(StakeState, u64), PrizeError>(PrizeError::InvalidTime),
{
}

/// A pool is created once, request by request. Once the host has committed
/// an accepted creation, so that the slot exists and stores the record
/// written, every later creation for the same initializer and slot is
/// rejected, and commits nothing; it is rejected as already initialised
/// where it is signed and its window does not end before it starts.
pub proof fn init_config_happens_once(
    program_id: Address,
    accounts: Seq<Account>,
    first: PrizeSchedule,
    rent: u64,
    later: Seq<Account>,
    second: PrizeSchedule,
    later_rent: u64,
)
    requires
        init_config_outcome(program_id, accounts, first, rent) is Ok,
        later.len() >= 3,
        later[0].key == accounts[0].key,
        later[1].key == accounts[1].key,
        later[1].lamports != 0,
        stores(
            later[1].data@,
            init_config_outcome(program_id, accounts, first, rent)->Ok_0.write->Some_0.data,
        ),
    ensures
        init_config_outcome(program_id, later, second, later_rent) is Err,
        later[0].is_signer && second.spec_window_is_valid() ==> init_config_outcome(
            program_id,
            later,
            second,
            later_rent,
        ) == Err::<CommitView, PrizeError>(PrizeError::AlreadyInitialized),
{
    stored_prize_pool_record_is_read_back(
        later[1].data@,
        PrizePoolRecord::configured(first, false, false, false),
    );
}

/// Every request that is accepted to create or to update a pool has a window
/// that does not end before it starts.
pub proof fn committed_window_is_valid(
    program_id: Address,
    accounts: Seq<Account>,
    schedule: PrizeSchedule,
    is_first_claimed: bool,
    is_second_claimed: bool,
    is_third_claimed: bool,
    rent: u64,
)
    ensures
        init_config_outcome(program_id, accounts, schedule, rent) is Ok ==> schedule.start_time
            <= schedule.end_time,
        update_config_outcome(
            program_id,
            accounts,
            schedule,
            is_first_claimed,
            is_second_claimed,
            is_third_claimed,
        ) is Ok ==> schedule.start_time <= schedule.end_time,
{
}

/// A request whose window ends before it starts is rejected, so that nothing
/// is committed and the record stays as it was. It is rejected as an invalid
/// time unless a check that comes before the window rejects it: for a
/// creation these are the number of accounts, the signature and the derived
/// address; for an update also the owner of the record account and that it
/// stores an initialised record.
pub proof fn invalid_window_commits_nothing(
    program_id: Address,
    accounts: Seq<Account>,
    schedule: PrizeSchedule,
    is_first_claimed: bool,
    is_second_claimed: bool,
    is_third_claimed: bool,
    rent: u64,
)
    requires
        schedule.start_time > schedule.end_time,
    ensures
        init_config_outcome(program_id, accounts, schedule, rent) is Err,
        update_config_outcome(
            program_id,
            accounts,
            schedule,
            is_first_claimed,
            is_second_claimed,
            is_third_claimed,
        ) is Err,
        accounts.len() >= 3 && accounts[0].is_signer && is_record_address(
            PRIZE_SEED@,
            accounts[0].key,
            program_id,
            accounts[1].key,
        ) ==> init_config_outcome(program_id, accounts, schedule, rent) == Err::<
            CommitView,
            PrizeError,
        >(PrizeError::InvalidTime),
        accounts.len() >= 2 && accounts[1].owner == program_id && accounts[0].is_signer
            && is_record_address(PRIZE_SEED@, accounts[0].key, program_id, accounts[1].key)
            && (PrizePoolRecord::spec_decode(accounts[1].data@) matches Ok(record)
            && record.initialized) ==> update_config_outcome(
            program_id,
            accounts,
            schedule,
            is_first_claimed,
            is_second_claimed,
            is_third_claimed,
        ) == Err::<CommitView, PrizeError>(PrizeError::InvalidTime),
{
}

/// A prize is paid once, request by request. An accepted claim moves exactly
/// the prize of the claimant's rank out of the escrow. Once the host has
/// committed it, so that the slot stores the record written, a claim of the
/// same rank on the same pool, by the same account or another, is rejected
/// as claimed and so moves nothing.
pub proof fn claim_commits_once(program_id: Address, accounts: Seq<Account>, later: Seq<Account>)
    requires
        claim_outcome(program_id, accounts) is Ok,
        later.len() >= 3,
        later[2].is_signer,
        later[1].owner == program_id,
        later[0].key == accounts[0].key,
        later[1].key == accounts[1].key,
        stores(later[1].data@, claim_commit(accounts).write->Some_0.data),
        PrizePoolRecord::spec_decode(accounts[1].data@)->Ok_0.rank_of(later[2].key)
            == PrizePoolRecord::spec_decode(accounts[1].data@)->Ok_0.rank_of(accounts[2].key),
    ensures
        ({
            let record = PrizePoolRecord::spec_decode(accounts[1].data@)->Ok_0;
            let prize = record.prize_of(record.rank_of(accounts[2].key));
            &&& prize <= accounts[1].lamports
            &&& claim_commit(accounts).transfer == Some(
                LamportTransfer { from: 1, to: 2, amount: prize },
            )
            &&& claim_outcome(program_id, later) == Err::<CommitView, PrizeError>(
                PrizeError::Claimed,
            )
        }),
{
    let record = PrizePoolRecord::spec_decode(accounts[1].data@)->Ok_0;
    let rank = record.rank_of(accounts[2].key);
    stored_prize_pool_record_is_read_back(later[1].data@, record.with_claimed(rank));
}

/// A claim by an account that is none of the three winners that the pool's
/// record names is rejected, so that no balance moves. It is rejected as no
/// winner unless a check that comes before rejects it: the signature, the
/// owner of the record account and the derived address.
pub proof fn non_winner_claim_commits_nothing(program_id: Address, accounts: Seq<Account>)
    requires
        accounts.len() >= 3,
        PrizePoolRecord::spec_decode(accounts[1].data@) is Ok,
        ({
            let record = PrizePoolRecord::spec_decode(accounts[1].data@)->Ok_0;
            &&& accounts[2].key != record.first_account
            &&& accounts[2].key != record.second_account
            &&& accounts[2].key != record.third_account
        }),
    ensures
        claim_outcome(program_id, accounts) is Err,
        accounts[2].is_signer && accounts[1].owner == program_id && is_record_address(
            PRIZE_SEED@,
            accounts[0].key,
            program_id,
            accounts[1].key,
        ) ==> claim_outcome(program_id, accounts) == Err::<CommitView, PrizeError>(
            PrizeError::NotWinner,
        ),
{
}

/// What a withdrawal releases is the reward that the record holds: the
/// second at which it is accepted and the balances of the accounts change
/// nothing in what is committed. The release and the claimed flag are
/// committed together, never one without the other: an accepted withdrawal
/// commits the one transfer of the reward and the record marked as claimed,
/// and a rejected one commits neither.
pub proof fn withdraw_releases_the_recorded_reward(
    program_id: Address,
    accounts: Seq<Account>,
    now: u64,
)
    requires
        withdraw_outcome(program_id, accounts, now) is Ok,
    ensures
        ({
            let record = StakeState::spec_decode(accounts[1].data@)->Ok_0;
            let claimed = StakeState { is_claimed: true, ..record };
            let commit = withdraw_outcome(program_id, accounts, now)->Ok_0;
            &&& !record.is_claimed
            &&& commit.invocations.len() == 1
            &&& commit.invocations[0].instruction.data == seq![3u8] + spec_u64_to_le_bytes(
                record.reward_stake_amount,
            )
            &&& commit.transfer is None
            &&& commit.write == Some(RecordWriteView { account: 1, data: claimed.spec_encode() })
            &&& StakeState::spec_decode(claimed.spec_encode()) == Ok::<StakeState, PrizeError>(
                claimed,
            )
        }),
{
    let record = StakeState::spec_decode(accounts[1].data@)->Ok_0;
    encoded_record_is_read_back(
        StakeState { is_claimed: true, ..record },
        PrizePoolRecord::spec_empty(),
    );
}

/// What a stake fixes is what a withdrawal releases. Once the host has
/// committed an accepted stake, so that the slot stores the record written,
/// every withdrawal that is accepted comes at or after the maturity of the
/// stake and releases the reward of the duration and the amount staked,
/// whenever it comes and whatever the accounts hold by then.
pub proof fn withdrawal_releases_what_was_staked(
    program_id: Address,
    accounts: Seq<Account>,
    duration: u64,
    stake_amount: u64,
    now: u64,
    rent: u64,
    later: Seq<Account>,
    later_now: u64,
)
    requires
        stake_outcome(program_id, accounts, duration, stake_amount, now, rent) is Ok,
        later.len() >= 2,
        stores(
            later[1].data@,
            stake_outcome(
                program_id,
                accounts,
                duration,
                stake_amount,
                now,
                rent,
            )->Ok_0.write->Some_0.data,
        ),
        withdraw_outcome(program_id, later, later_now) is Ok,
    ensures
        ({
            let commit = withdraw_outcome(program_id, later, later_now)->Ok_0;
            &&& later_now >= now + duration * 86400
            &&& reward_for(duration, stake_amount) <= u64::MAX
            &&& commit.invocations.len() == 1
            &&& commit.invocations[0].instruction.data == seq![3u8] + spec_u64_to_le_bytes(
                reward_for(duration, stake_amount) as u64,
            )
        }),
{
    let opened = StakeState::spec_open(duration, stake_amount, now)->Ok_0;
    stored_stake_state_is_read_back(later[1].data@, opened);
}

/// A reward is released once, request by request. Once the host has
/// committed an accepted withdrawal, so that the slot stores the record
/// written, every later withdrawal that the staker signs is rejected as
/// claimed, whenever it comes.
pub proof fn withdrawal_commits_once(
    program_id: Address,
    accounts: Seq<Account>,
    now: u64,
    later: Seq<Account>,
    later_now: u64,
)
    requires
        withdraw_outcome(program_id, accounts, now) is Ok,
        later.len() >= 7,
        later[0].is_signer,
        stores(
            later[1].data@,
            withdraw_outcome(program_id, accounts, now)->Ok_0.write->Some_0.data,
        ),
    ensures
        withdraw_outcome(program_id, later, later_now) == Err::<CommitView, PrizeError>(
            PrizeError::Claimed,
        ),
{
    let stored = StakeState::spec_decode(accounts[1].data@)->Ok_0;
    stored_stake_state_is_read_back(later[1].data@, StakeState { is_claimed: true, ..stored });
}

/// An accepted stake request can be carried out: the library commits no
/// call on an account that was not supplied and no record that its slot
/// cannot hold.
pub proof fn accepted_stake_can_be_carried_out(
    program_id: Address,
    accounts: Seq<Account>,
    duration: u64,
    stake_amount: u64,
    now: u64,
    rent: u64,
)
    requires
        stake_outcome(program_id, accounts, duration, stake_amount, now, rent) is Ok,
    ensures
        can_be_carried_out(
            stake_outcome(program_id, accounts, duration, stake_amount, now, rent)->Ok_0,
            accounts,
        ),
{
    let opened = StakeState::spec_open(duration, stake_amount, now)->Ok_0;
    encoded_record_lengths(opened, PrizePoolRecord::spec_empty());
    decoded_data_holds_a_record(accounts[1].data@);
}

/// An accepted withdrawal can be carried out, in the same sense.
pub proof fn accepted_withdrawal_can_be_carried_out(
    program_id: Address,
    accounts: Seq<Account>,
    now: u64,
)
    requires
        withdraw_outcome(program_id, accounts, now) is Ok,
    ensures
        can_be_carried_out(withdraw_outcome(program_id, accounts, now)->Ok_0, accounts),
{
    let record = StakeState::spec_decode(accounts[1].data@)->Ok_0;
    encoded_record_lengths(
        StakeState { is_claimed: true, ..record },
        PrizePoolRecord::spec_empty(),
    );
    decoded_data_holds_a_record(accounts[1].data@);
}

/// An accepted close request can be carried out: the balance that it moves
/// is there, and fits where it arrives.
pub proof fn accepted_close_can_be_carried_out(
    seed: Seq<u8>,
    program_id: Address,
    accounts: Seq<Account>,
)
    requires
        close_outcome(seed, program_id, accounts) is Ok,
    ensures
        can_be_carried_out(close_outcome(seed, program_id, accounts)->Ok_0, accounts),
{
}

/// The balance of a slot goes only to the party that the slot was derived
/// for. A close request is accepted only on the record account derived for
/// its initializer, and then moves the whole balance of that account to the
/// initializer. On any other account it is rejected, so that nothing moves;
/// it is rejected as a wrong derived address unless a check that comes
/// before rejects it: the number of accounts, the owner of the record
/// account, the signature and that the account holds a balance.
pub proof fn close_pays_the_party_of_the_slot(
    seed: Seq<u8>,
    program_id: Address,
    accounts: Seq<Account>,
)
    ensures
        close_outcome(seed, program_id, accounts) matches Ok(commit) ==> {
            &&& is_record_address(seed, accounts[0].key, program_id, accounts[1].key)
            &&& commit.transfer == Some(
                LamportTransfer { from: 1, to: 0, amount: accounts[1].lamports },
            )
            &&& commit.invocations.len() == 0
            &&& commit.write is None
        },
        accounts.len() >= 2 && !is_record_address(
            seed,
            accounts[0].key,
            program_id,
            accounts[1].key,
        ) ==> close_outcome(seed, program_id, accounts) is Err,
        accounts.len() >= 2 && accounts[1].owner == program_id && accounts[0].is_signer
            && accounts[1].lamports > 0 && !is_record_address(
            seed,
            accounts[0].key,
            program_id,
            accounts[1].key,
        ) ==> close_outcome(seed, program_id, accounts) == Err::<CommitView, PrizeError>(
            PrizeError::InvalidPDA,
        ),
{
}

/// An accepted creation of a pool can be carried out: the record fits the
/// slot, which it finds or which is created for it.
pub proof fn accepted_init_config_can_be_carried_out(
    program_id: Address,
    accounts: Seq<Account>,
    schedule: PrizeSchedule,
    rent: u64,
)
    requires
        init_config_outcome(program_id, accounts, schedule, rent) is Ok,
    ensures
        can_be_carried_out(
            init_config_outcome(program_id, accounts, schedule, rent)->Ok_0,
            accounts,
        ),
{
    encoded_record_lengths(
        StakeState::spec_empty(),
        PrizePoolRecord::configured(schedule, false, false, false),
    );
    decoded_data_holds_a_record(accounts[1].data@);
}

/// An accepted update of a pool can be carried out: the record fits the slot
/// that held the one before.
pub proof fn accepted_update_config_can_be_carried_out(
    program_id: Address,
    accounts: Seq<Account>,
    schedule: PrizeSchedule,
    is_first_claimed: bool,
    is_second_claimed: bool,
    is_third_claimed: bool,
)
    requires
        update_config_outcome(
            program_id,
            accounts,
            schedule,
            is_first_claimed,
            is_second_claimed,
            is_third_claimed,
        ) is Ok,
    ensures
        can_be_carried_out(
            update_config_outcome(
                program_id,
                accounts,
                schedule,
                is_first_claimed,
                is_second_claimed,
                is_third_claimed,
            )->Ok_0,
            accounts,
        ),
{
    encoded_record_lengths(
        StakeState::spec_empty(),
        PrizePoolRecord::configured(
            schedule,
            is_first_claimed,
            is_second_claimed,
            is_third_claimed,
        ),
    );
    decoded_data_holds_a_record(accounts[1].data@);
}

/// An accepted claim can be carried out: the prize is in the escrow and fits
/// into the claimant's balance, and the record fits the slot.
pub proof fn accepted_claim_can_be_carried_out(program_id: Address, accounts: Seq<Account>)
    requires
        claim_outcome(program_id, accounts) is Ok,
    ensures
        can_be_carried_out(claim_outcome(program_id, accounts)->Ok_0, accounts),
{
    let record = PrizePoolRecord::spec_decode(accounts[1].data@)->Ok_0;
    encoded_record_lengths(
        StakeState::spec_empty(),
        record.with_claimed(record.rank_of(accounts[2].key)),
    );
    decoded_data_holds_a_record(accounts[1].data@);
}

/// A pool is created once, seen from the wire. Once the prize-pool program
/// has accepted a request that creates a pool and the host has committed it,
/// the slot holds the record of that request, initialised and with no prize
/// paid. Every later creation for the same initializer and slot is rejected,
/// so that it creates no account, moves nothing and leaves the record as it
/// is; it is rejected as already initialised where it is signed and its
/// window does not end before it starts.
pub proof fn second_init_request_is_rejected(
    program_id: Address,
    accounts: Seq<Account>,
    request: Seq<u8>,
    first: PrizeSchedule,
    rent: u64,
    later: Seq<Account>,
    later_request: Seq<u8>,
    second: PrizeSchedule,
    later_rent: u64,
)
    requires
        PrizeInstruction::spec_unpack(request) == Ok::<PrizeInstruction, PrizeError>(
            PrizeInstruction::InitConfig { schedule: first },
        ),
        PrizeInstruction::spec_unpack(later_request) == Ok::<PrizeInstruction, PrizeError>(
            PrizeInstruction::InitConfig { schedule: second },
        ),
        process_prize_outcome(program_id, accounts, request, rent) is Ok,
        later.len() >= 3,
        later[0].key == accounts[0].key,
        later[1].key == accounts[1].key,
        later[1].lamports != 0,
        stores(
            later[1].data@,
            process_prize_outcome(program_id, accounts, request, rent)->Ok_0.write->Some_0.data,
        ),
    ensures
        PrizePoolRecord::spec_decode(later[1].data@) == Ok::<PrizePoolRecord, PrizeError>(
            PrizePoolRecord::configured(first, false, false, false),
        ),
        process_prize_outcome(program_id, later, later_request, later_rent) is Err,
        later[0].is_signer && second.start_time <= second.end_time ==> process_prize_outcome(
            program_id,
            later,
            later_request,
            later_rent,
        ) == Err::<CommitView, PrizeError>(PrizeError::AlreadyInitialized),
{
    stored_prize_pool_record_is_read_back(
        later[1].data@,
        PrizePoolRecord::configured(first, false, false, false),
    );
    init_config_happens_once(program_id, accounts, first, rent, later, second, later_rent);
}

/// Whether a request that creates a pool or, with `is_update`, updates one
/// passes every check that comes before its window: for a creation the
/// number of accounts, the signature and the derived address; for an update
/// also the owner of the record account and that it stores an initialised
/// record.
pub open spec fn passes_the_checks_before_the_window(
    program_id: Address,
    accounts: Seq<Account>,
    is_update: bool,
) -> bool {
    if is_update {
        &&& accounts.len() >= 2
        &&& accounts[1].owner == program_id
        &&& accounts[0].is_signer
        &&& is_record_address(PRIZE_SEED@, accounts[0].key, program_id, accounts[1].key)
        &&& PrizePoolRecord::spec_decode(accounts[1].data@) matches Ok(stored)
            && stored.initialized
    } else {
        &&& accounts.len() >= 3
        &&& accounts[0].is_signer
        &&& is_record_address(PRIZE_SEED@, accounts[0].key, program_id, accounts[1].key)
    }
}

/// What an accepted creation or update of a pool commits: nothing but the
/// record that holds the schedule and the flags, which is initialised.
pub open spec fn commits_the_schedule(
    outcome: Result<CommitView, PrizeError>,
    schedule: PrizeSchedule,
    is_first_claimed: bool,
    is_second_claimed: bool,
    is_third_claimed: bool,
) -> bool {
    let written = PrizePoolRecord::configured(
        schedule,
        is_first_claimed,
        is_second_claimed,
        is_third_claimed,
    );
    outcome matches Ok(commit) ==> {
        &&& schedule.start_time <= schedule.end_time
        &&& commit.write == Some(RecordWriteView { account: 1, data: written.spec_encode() })
        &&& commit.transfer is None
        &&& written.initialized
        &&& written.start_time == schedule.start_time
        &&& written.end_time == schedule.end_time
    }
}

/// How the window of a request decides its outcome: a window that does not
/// end before it starts is never the reason for a rejection; one that does
/// is always rejected, and as an invalid time where `earlier_checks_pass`.
pub open spec fn window_decides(
    outcome: Result<CommitView, PrizeError>,
    schedule: PrizeSchedule,
    earlier_checks_pass: bool,
) -> bool {
    let invalid_time = Err::<CommitView, PrizeError>(PrizeError::InvalidTime);
    &&& schedule.start_time <= schedule.end_time ==> outcome != invalid_time
    &&& schedule.start_time > schedule.end_time ==> outcome is Err
    &&& schedule.start_time > schedule.end_time && earlier_checks_pass ==> outcome
        == invalid_time
}

/// The window of a pool, request by request. The creation or the update of
/// a pool is accepted only with a window that does not end before it starts,
/// and commits the record that holds that window; a window that starts when
/// it ends is never the reason for a rejection. A window that ends before it
/// starts is always rejected; it is rejected as an invalid time unless a
/// check that comes before the window rejects the request.
pub proof fn window_is_checked(
    program_id: Address,
    accounts: Seq<Account>,
    schedule: PrizeSchedule,
    is_first_claimed: bool,
    is_second_claimed: bool,
    is_third_claimed: bool,
    rent: u64,
)
    ensures
        commits_the_schedule(
            init_config_outcome(program_id, accounts, schedule, rent),
            schedule,
            false,
            false,
            false,
        ),
        window_decides(
            init_config_outcome(program_id, accounts, schedule, rent),
            schedule,
            passes_the_checks_before_the_window(program_id, accounts, false),
        ),
        commits_the_schedule(
            update_config_outcome(
                program_id,
                accounts,
                schedule,
                is_first_claimed,
                is_second_claimed,
                is_third_claimed,
            ),
            schedule,
            is_first_claimed,
            is_second_claimed,
            is_third_claimed,
        ),
        window_decides(
            update_config_outcome(
                program_id,
                accounts,
                schedule,
                is_first_claimed,
                is_second_claimed,
                is_third_claimed,
            ),
            schedule,
            passes_the_checks_before_the_window(program_id, accounts, true),
        ),
{
}

/// The window of a pool, seen from the wire. What `window_is_checked` says
/// of the creation and of the update of a pool holds of the requests that
/// the prize-pool program decodes as one or the other; so a request whose
/// window ends before it starts commits nothing and leaves the slot as it
/// was, and the record that an accepted request commits decodes to the
/// schedule of the request.
pub proof fn request_window_is_checked(
    program_id: Address,
    accounts: Seq<Account>,
    request: Seq<u8>,
    schedule: PrizeSchedule,
    is_first_claimed: bool,
    is_second_claimed: bool,
    is_third_claimed: bool,
    rent: u64,
)
    requires
        PrizeInstruction::spec_unpack(request) == Ok::<PrizeInstruction, PrizeError>(
            PrizeInstruction::InitConfig { schedule },
        ) && !is_first_claimed && !is_second_claimed && !is_third_claimed
            || PrizeInstruction::spec_unpack(request) == Ok::<PrizeInstruction, PrizeError>(
            PrizeInstruction::UpdateConfig {
                schedule,
                is_first_claimed,
                is_second_claimed,
                is_third_claimed,
            },
        ),
    ensures
        commits_the_schedule(
            process_prize_outcome(program_id, accounts, request, rent),
            schedule,
            is_first_claimed,
            is_second_claimed,
            is_third_claimed,
        ),
        window_decides(
            process_prize_outcome(program_id, accounts, request, rent),
            schedule,
            passes_the_checks_before_the_window(
                program_id,
                accounts,
                PrizeInstruction::spec_unpack(request)->Ok_0 is UpdateConfig,
            ),
        ),
        ({
            let written = PrizePoolRecord::configured(
                schedule,
                is_first_claimed,
                is_second_claimed,
                is_third_claimed,
            );
            PrizePoolRecord::spec_decode(written.spec_encode()) == Ok::<
                PrizePoolRecord,
                PrizeError,
            >(written)
        }),
{
    window_is_checked(
        program_id,
        accounts,
        schedule,
        is_first_claimed,
        is_second_claimed,
        is_third_claimed,
        rent,
    );
    encoded_record_is_read_back(
        StakeState::spec_empty(),
        PrizePoolRecord::configured(
            schedule,
            is_first_claimed,
            is_second_claimed,
            is_third_claimed,
        ),
    );
}

/// A prize is paid once, seen from the wire. An accepted claim request
/// moves exactly the prize of the claimant's rank out of the escrow into the
/// claimant's account and commits the record with the flag of that rank set
/// and every other field as it was. Once the host has committed it, a claim
/// request for the same rank on the same pool is rejected as claimed, so
/// that it moves nothing: both requests together take one prize out of the
/// escrow.
pub proof fn second_claim_request_is_rejected(
    program_id: Address,
    accounts: Seq<Account>,
    request: Seq<u8>,
    rent: u64,
    later: Seq<Account>,
    later_request: Seq<u8>,
    later_rent: u64,
)
    requires
        PrizeInstruction::spec_unpack(request) == Ok::<PrizeInstruction, PrizeError>(
            PrizeInstruction::Claim {  },
        ),
        PrizeInstruction::spec_unpack(later_request) == Ok::<PrizeInstruction, PrizeError>(
            PrizeInstruction::Claim {  },
        ),
        process_prize_outcome(program_id, accounts, request, rent) is Ok,
        later.len() >= 3,
        later[2].is_signer,
        later[1].owner == program_id,
        later[0].key == accounts[0].key,
        later[1].key == accounts[1].key,
        stores(
            later[1].data@,
            process_prize_outcome(program_id, accounts, request, rent)->Ok_0.write->Some_0.data,
        ),
        PrizePoolRecord::spec_decode(accounts[1].data@)->Ok_0.rank_of(later[2].key)
            == PrizePoolRecord::spec_decode(accounts[1].data@)->Ok_0.rank_of(accounts[2].key),
    ensures
        ({
            let record = PrizePoolRecord::spec_decode(accounts[1].data@)->Ok_0;
            let rank = record.rank_of(accounts[2].key);
            let commit = process_prize_outcome(program_id, accounts, request, rent)->Ok_0;
            &&& 1 <= rank <= 3
            &&& !record.is_claimed(rank)
            &&& record.prize_of(rank) <= accounts[1].lamports
            &&& commit.transfer == Some(
                LamportTransfer { from: 1, to: 2, amount: record.prize_of(rank) },
            )
            &&& commit.invocations.len() == 0
            &&& PrizePoolRecord::spec_decode(later[1].data@) == Ok::<PrizePoolRecord, PrizeError>(
                record.with_claimed(rank),
            )
            &&& record.with_claimed(rank).is_claimed(rank)
            &&& forall|other: u8|
                other != rank ==> record.with_claimed(rank).is_claimed(other) == record.is_claimed(
                    other,
                )
            &&& process_prize_outcome(program_id, later, later_request, later_rent) == Err::<
                CommitView,
                PrizeError,
            >(PrizeError::Claimed)
        }),
{
    let record = PrizePoolRecord::spec_decode(accounts[1].data@)->Ok_0;
    let rank = record.rank_of(accounts[2].key);
    stored_prize_pool_record_is_read_back(later[1].data@, record.with_claimed(rank));
    claim_commits_once(program_id, accounts, later);
}

/// No prize for a non-winner, seen from the wire. A claim request by an
/// account that is none of the three winners that the pool's record names
/// is rejected, so that no balance moves and the record stays as it was,
/// whatever its flags and whatever the escrow holds. It is rejected as no
/// winner unless a check that comes before rejects it: the signature, the
/// owner of the record account and the derived address.
pub proof fn non_winner_claim_request_is_rejected(
    program_id: Address,
    accounts: Seq<Account>,
    request: Seq<u8>,
    rent: u64,
)
    requires
        PrizeInstruction::spec_unpack(request) == Ok::<PrizeInstruction, PrizeError>(
            PrizeInstruction::Claim {  },
        ),
        accounts.len() >= 3,
        PrizePoolRecord::spec_decode(accounts[1].data@) is Ok,
        ({
            let record = PrizePoolRecord::spec_decode(accounts[1].data@)->Ok_0;
            &&& accounts[2].key != record.first_account
            &&& accounts[2].key != record.second_account
            &&& accounts[2].key != record.third_account
        }),
    ensures
        PrizePoolRecord::spec_decode(accounts[1].data@)->Ok_0.rank_of(accounts[2].key) == 0,
        PrizePoolRecord::spec_decode(accounts[1].data@)->Ok_0.prize_of(0) == 0,
        process_prize_outcome(program_id, accounts, request, rent) is Err,
        accounts[2].is_signer && accounts[1].owner == program_id && is_record_address(
            PRIZE_SEED@,
            accounts[0].key,
            program_id,
            accounts[1].key,
        ) ==> process_prize_outcome(program_id, accounts, request, rent) == Err::<
            CommitView,
            PrizeError,
        >(PrizeError::NotWinner),
{
    non_winner_claim_commits_nothing(program_id, accounts);
}

} // verus!
