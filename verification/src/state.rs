//! The two records that the programs keep, their stored layout, and the
//! transitions that a request may make on them.

use crate::codec::{
    address_at, bool_at, encoded_bool, encoded_u64, get_address, get_bool, get_u64, put_address,
    put_bool, put_u64, u64_at,
};
use crate::error::PrizeError;
use crate::pubkey::{zero_address, Address};
use vstd::prelude::*;

verus! {

/// Bytes in the storage slot of a record, whatever the record needs.
pub const RECORD_SLOT_LEN: usize = 1000;

/// Bytes that an encoded [`StakeState`] takes.
pub const STAKE_STATE_LEN: usize = 42;

/// Bytes that an encoded [`PrizePoolRecord`] takes.
pub const PRIZE_POOL_RECORD_LEN: usize = 148;

/// Seconds in one day, the unit in which the duration of a stake is given.
pub const SECONDS_PER_DAY: u64 = 86400;

/// The record of one staker: what was locked, for how long, and the reward
/// that was fixed when the stake was opened.
#[derive(Clone, Copy, Debug, PartialEq, Eq, Structural)]
pub struct StakeState {
    pub is_initialized: bool,
    /// Days for which the stake is locked.
    pub duration: u64,
    /// Token base units that were locked.
    pub stake_amount: u64,
    /// Second at which the stake was opened.
    pub start_stake_time: u64,
    /// Second from which the reward may be withdrawn.
    pub end_stake_time: u64,
    /// Reward in token base units, computed when the stake was opened.
    pub reward_stake_amount: u64,
    pub is_claimed: bool,
}

/// The reward of a stake: the amount times 15 over 36500 for a duration of
/// one day, times 1400 over 36500 for any other duration, rounded down.
pub open spec fn reward_for(duration: u64, stake_amount: u64) -> int {
    if duration == 1 {
        (15 * stake_amount) / 36500
    } else {
        (1400 * stake_amount) / 36500
    }
}

/// The second at which a stake opened at `start` for `duration` days matures.
pub open spec fn maturity_of(start: u64, duration: u64) -> int {
    start + duration * SECONDS_PER_DAY
}

/// Computes the reward of a stake. The reward never exceeds the amount.
pub fn reward(duration: u64, stake_amount: u64) -> (amount: u64)
    ensures
        amount == reward_for(duration, stake_amount),
        amount <= stake_amount,
{
    let rate: u128 = if duration == 1 {
        15
    } else {
        1400
    };
    let scaled: u128 = rate * (stake_amount as u128);
    let share: u128 = scaled / 36500;
    assert(share <= stake_amount) by (nonlinear_arith)
        requires
            share == scaled / 36500,
            scaled == rate * stake_amount,
            rate == 15 || rate == 1400,
    ;
    share as u64
}

impl StakeState {
    /// The record of a slot that has never been written: every byte zero.
    pub open spec fn spec_empty() -> StakeState {
        StakeState {
            is_initialized: false,
            duration: 0,
            stake_amount: 0,
            start_stake_time: 0,
            end_stake_time: 0,
            reward_stake_amount: 0,
            is_claimed: false,
        }
    }

    /// What an initialised record owes to the request that opened it: its
    /// maturity is its start plus its duration in seconds, and its reward is
    /// the reward of its amount and duration.
    pub open spec fn wf(self) -> bool {
        self.is_initialized ==> {
            &&& self.end_stake_time == maturity_of(self.start_stake_time, self.duration)
            &&& self.reward_stake_amount == reward_for(self.duration, self.stake_amount)
        }
    }

    /// The record that a stake of `stake_amount` for `duration` days opens
    /// at second `now`, unless its maturity lies beyond the last second that
    /// 64 bits can hold.
    pub open spec fn spec_open(duration: u64, stake_amount: u64, now: u64) -> Result<
        StakeState,
        PrizeError,
    > {
        if maturity_of(now, duration) > u64::MAX {
            Err(PrizeError::ArithmeticOverflow)
        } else {
            Ok(
                StakeState {
                    is_initialized: true,
                    duration,
                    stake_amount,
                    start_stake_time: now,
                    end_stake_time: maturity_of(now, duration) as u64,
                    reward_stake_amount: reward_for(duration, stake_amount) as u64,
                    is_claimed: false,
                },
            )
        }
    }

    /// Whether the stake has matured at second `now`.
    pub open spec fn spec_is_mature(self, now: u64) -> bool {
        now >= self.end_stake_time
    }

    /// What a withdrawal at second `now` makes of the record, with the reward
    /// that it releases: rejected once the reward has been claimed, and before
    /// maturity; else the record is marked as claimed and nothing else changes.
    pub open spec fn spec_withdraw(self, now: u64) -> Result<(StakeState, u64), PrizeError> {
        if self.is_claimed {
            Err(PrizeError::Claimed)
        } else if !self.spec_is_mature(now) {
            Err(PrizeError::InvalidTime)
        } else {
            Ok((StakeState { is_claimed: true, ..self }, self.reward_stake_amount))
        }
    }

    /// The stored form of the record: its fields in order.
    pub open spec fn spec_encode(self) -> Seq<u8> {
        encoded_bool(self.is_initialized) + encoded_u64(self.duration) + encoded_u64(
            self.stake_amount,
        ) + encoded_u64(self.start_stake_time) + encoded_u64(self.end_stake_time) + encoded_u64(
            self.reward_stake_amount,
        ) + encoded_bool(self.is_claimed)
    }

    /// The record stored at the start of `data`. Bytes behind the record are
    /// not looked at. Data too short for a record has the wrong length; a
    /// flag byte that is neither 0 nor 1 makes the data malformed.
    pub open spec fn spec_decode(data: Seq<u8>) -> Result<StakeState, PrizeError> {
        if data.len() < STAKE_STATE_LEN {
            Err(PrizeError::InvalidDataLength)
        } else {
            match (bool_at(data, 0), bool_at(data, 41)) {
                (Some(is_initialized), Some(is_claimed)) => Ok(
                    StakeState {
                        is_initialized,
                        duration: u64_at(data, 1),
                        stake_amount: u64_at(data, 9),
                        start_stake_time: u64_at(data, 17),
                        end_stake_time: u64_at(data, 25),
                        reward_stake_amount: u64_at(data, 33),
                        is_claimed,
                    },
                ),
                _ => Err(PrizeError::MalformedRequest),
            }
        }
    }

    /// The record of a slot that has never been written.
    pub fn empty() -> (record: StakeState)
        ensures
            record == StakeState::spec_empty(),
            record.wf(),
    {
        StakeState {
            is_initialized: false,
            duration: 0,
            stake_amount: 0,
            start_stake_time: 0,
            end_stake_time: 0,
            reward_stake_amount: 0,
            is_claimed: false,
        }
    }

    /// Whether a stake has been opened in this record.
    pub fn is_initialized(&self) -> (initialized: bool)
        ensures
            initialized == self.is_initialized,
    {
        self.is_initialized
    }

    /// Whether the stake has matured at second `now`, which a withdrawal
    /// asks for.
    pub fn is_mature(&self, now: u64) -> (mature: bool)
        ensures
            mature == self.spec_is_mature(now),
    {
        now >= self.end_stake_time
    }

    /// Opens a stake of `stake_amount` for `duration` days at second `now`.
    pub fn open(duration: u64, stake_amount: u64, now: u64) -> (opened: Result<
        StakeState,
        PrizeError,
    >)
        ensures
            opened == StakeState::spec_open(duration, stake_amount, now),
            opened matches Ok(record) ==> record.wf(),
    {
        let span = match duration.checked_mul(SECONDS_PER_DAY) {
            Some(span) => span,
            None => { return Err(PrizeError::ArithmeticOverflow); },
        };
        let end = match now.checked_add(span) {
            Some(end) => end,
            None => { return Err(PrizeError::ArithmeticOverflow); },
        };
        Ok(
            StakeState {
                is_initialized: true,
                duration,
                stake_amount,
                start_stake_time: now,
                end_stake_time: end,
                reward_stake_amount: reward(duration, stake_amount),
                is_claimed: false,
            },
        )
    }

    /// Withdraws the reward at second `now` and returns its amount. A
    /// rejected withdrawal leaves the record as it was.
    pub fn withdraw(&mut self, now: u64) -> (released: Result<u64, PrizeError>)
        ensures
            match old(self).spec_withdraw(now) {
                Ok((record, amount)) => released == Ok::<u64, PrizeError>(amount) && *final(self)
                    == record,
                Err(e) => released == Err::<u64, PrizeError>(e) && *final(self) == *old(self),
            },
            old(self).wf() ==> final(self).wf(),
    {
        if self.is_claimed {
            return Err(PrizeError::Claimed);
        }
        if !self.is_mature(now) {
            return Err(PrizeError::InvalidTime);
        }
        self.is_claimed = true;
        Ok(self.reward_stake_amount)
    }

    /// Encodes the record in its stored form.
    pub fn encode(&self) -> (bytes: Vec<u8>)
        ensures
            bytes@ == self.spec_encode(),
            bytes@.len() == STAKE_STATE_LEN,
    {
        let mut bytes: Vec<u8> = Vec::new();
        put_bool(&mut bytes, self.is_initialized);
        put_u64(&mut bytes, self.duration);
        put_u64(&mut bytes, self.stake_amount);
        put_u64(&mut bytes, self.start_stake_time);
        put_u64(&mut bytes, self.end_stake_time);
        put_u64(&mut bytes, self.reward_stake_amount);
        put_bool(&mut bytes, self.is_claimed);
        proof {
            broadcast use crate::codec::lemma_encoded_lengths;
        }
        bytes
    }

    /// Decodes the record stored at the start of `data`.
    pub fn decode(data: &[u8]) -> (decoded: Result<StakeState, PrizeError>)
        ensures
            decoded == StakeState::spec_decode(data@),
    {
        if data.len() < STAKE_STATE_LEN {
            return Err(PrizeError::InvalidDataLength);
        }
        let is_initialized = match get_bool(data, 0) {
            Some(flag) => flag,
            None => { return Err(PrizeError::MalformedRequest); },
        };
        let is_claimed = match get_bool(data, 41) {
            Some(flag) => flag,
            None => { return Err(PrizeError::MalformedRequest); },
        };
        Ok(
            StakeState {
                is_initialized,
                duration: get_u64(data, 1),
                stake_amount: get_u64(data, 9),
                start_stake_time: get_u64(data, 17),
                end_stake_time: get_u64(data, 25),
                reward_stake_amount: get_u64(data, 33),
                is_claimed,
            },
        )
    }
}

/// The prize schedule that a request configures: the shares, the three
/// winners and the window in which claims are expected.
#[derive(Clone, Copy, Debug, PartialEq, Eq)]
pub struct PrizeSchedule {
    pub total_prize: u64,
    pub first_prize: u64,
    pub second_prize: u64,
    pub third_prize: u64,
    pub first_account: Address,
    pub second_account: Address,
    pub third_account: Address,
    /// Second at which the claim window opens.
    pub start_time: u64,
    /// Second at which the claim window closes.
    pub end_time: u64,
}

/// The record of one prize pool: its schedule and which of the three prizes
/// have been paid. The shares need not add up to the total.
#[derive(Clone, Copy, Debug, PartialEq, Eq)]
pub struct PrizePoolRecord {
    pub initialized: bool,
    pub total_prize: u64,
    pub first_prize: u64,
    pub second_prize: u64,
    pub third_prize: u64,
    pub first_account: Address,
    pub second_account: Address,
    pub third_account: Address,
    pub is_first_claimed: bool,
    pub is_second_claimed: bool,
    pub is_third_claimed: bool,
    pub start_time: u64,
    pub end_time: u64,
}

impl PrizeSchedule {
    /// Whether the window does not end before it starts.
    pub open spec fn spec_window_is_valid(self) -> bool {
        self.start_time <= self.end_time
    }

    /// Whether the window does not end before it starts.
    pub fn window_is_valid(&self) -> (valid: bool)
        ensures
            valid == self.spec_window_is_valid(),
    {
        self.start_time <= self.end_time
    }
}

impl PrizePoolRecord {
    /// The record of a slot that has never been written: every byte zero.
    pub open spec fn spec_empty() -> PrizePoolRecord {
        PrizePoolRecord {
            initialized: false,
            total_prize: 0,
            first_prize: 0,
            second_prize: 0,
            third_prize: 0,
            first_account: zero_address(),
            second_account: zero_address(),
            third_account: zero_address(),
            is_first_claimed: false,
            is_second_claimed: false,
            is_third_claimed: false,
            start_time: 0,
            end_time: 0,
        }
    }

    /// The window of an initialised record does not end before it starts.
    pub open spec fn wf(self) -> bool {
        self.initialized ==> self.start_time <= self.end_time
    }

    /// The record that holds `schedule` with the given claim flags.
    pub open spec fn configured(
        schedule: PrizeSchedule,
        is_first_claimed: bool,
        is_second_claimed: bool,
        is_third_claimed: bool,
    ) -> PrizePoolRecord {
        PrizePoolRecord {
            initialized: true,
            total_prize: schedule.total_prize,
            first_prize: schedule.first_prize,
            second_prize: schedule.second_prize,
            third_prize: schedule.third_prize,
            first_account: schedule.first_account,
            second_account: schedule.second_account,
            third_account: schedule.third_account,
            is_first_claimed,
            is_second_claimed,
            is_third_claimed,
            start_time: schedule.start_time,
            end_time: schedule.end_time,
        }
    }

    /// The rank of a claimant: 1, 2 or 3 for the first winner slot, in that
    /// order, that holds its identifier, and 0 for anyone else.
    pub open spec fn rank_of(self, claimant: Address) -> u8 {
        if claimant == self.first_account {
            1
        } else if claimant == self.second_account {
            2
        } else if claimant == self.third_account {
            3
        } else {
            0
        }
    }

    /// The prize of a rank; what is no rank has no prize.
    pub open spec fn prize_of(self, rank: u8) -> u64 {
        if rank == 1 {
            self.first_prize
        } else if rank == 2 {
            self.second_prize
        } else if rank == 3 {
            self.third_prize
        } else {
            0
        }
    }

    /// Whether the prize of a rank has been paid.
    pub open spec fn is_claimed(self, rank: u8) -> bool {
        if rank == 1 {
            self.is_first_claimed
        } else if rank == 2 {
            self.is_second_claimed
        } else if rank == 3 {
            self.is_third_claimed
        } else {
            false
        }
    }

    /// The record with the prize of a rank marked as paid.
    pub open spec fn with_claimed(self, rank: u8) -> PrizePoolRecord {
        if rank == 1 {
            PrizePoolRecord { is_first_claimed: true, ..self }
        } else if rank == 2 {
            PrizePoolRecord { is_second_claimed: true, ..self }
        } else if rank == 3 {
            PrizePoolRecord { is_third_claimed: true, ..self }
        } else {
            self
        }
    }

    /// What the creation of a pool with `schedule` makes of the record: a
    /// window that ends before it starts is rejected, then a record that is
    /// initialised already; else the record holds the schedule, with no prize
    /// paid.
    pub open spec fn spec_init(self, schedule: PrizeSchedule) -> Result<
        PrizePoolRecord,
        PrizeError,
    > {
        if !schedule.spec_window_is_valid() {
            Err(PrizeError::InvalidTime)
        } else if self.initialized {
            Err(PrizeError::AlreadyInitialized)
        } else {
            Ok(PrizePoolRecord::configured(schedule, false, false, false))
        }
    }

    /// What an update makes of the record: a record that was never
    /// initialised is rejected, then a window that ends before it starts;
    /// else every field is overwritten, the claim flags with those supplied.
    pub open spec fn spec_update(
        self,
        schedule: PrizeSchedule,
        is_first_claimed: bool,
        is_second_claimed: bool,
        is_third_claimed: bool,
    ) -> Result<PrizePoolRecord, PrizeError> {
        if !self.initialized {
            Err(PrizeError::UninitializedAccount)
        } else if !schedule.spec_window_is_valid() {
            Err(PrizeError::InvalidTime)
        } else {
            Ok(
                PrizePoolRecord::configured(
                    schedule,
                    is_first_claimed,
                    is_second_claimed,
                    is_third_claimed,
                ),
            )
        }
    }

    /// What a claim makes of the record when the escrow holds
    /// `escrow_balance`, with the amount that it pays: rejected for a
    /// claimant that is no winner, then for a prize paid already, then for an
    /// escrow that holds less than the prize; else the prize of the claimant's
    /// rank is marked as paid and nothing else changes.
    pub open spec fn spec_claim(self, claimant: Address, escrow_balance: u64) -> Result<
        (PrizePoolRecord, u64),
        PrizeError,
    > {
        let rank = self.rank_of(claimant);
        if rank == 0 {
            Err(PrizeError::NotWinner)
        } else if self.is_claimed(rank) {
            Err(PrizeError::Claimed)
        } else if escrow_balance < self.prize_of(rank) {
            Err(PrizeError::InsufficientFunds)
        } else {
            Ok((self.with_claimed(rank), self.prize_of(rank)))
        }
    }

    /// The stored form of the record: its fields in order.
    pub open spec fn spec_encode(self) -> Seq<u8> {
        encoded_bool(self.initialized) + encoded_u64(self.total_prize) + encoded_u64(
            self.first_prize,
        ) + encoded_u64(self.second_prize) + encoded_u64(self.third_prize) + self.first_account@
            + self.second_account@ + self.third_account@ + encoded_bool(self.is_first_claimed)
            + encoded_bool(self.is_second_claimed) + encoded_bool(self.is_third_claimed)
            + encoded_u64(self.start_time) + encoded_u64(self.end_time)
    }

    /// The record stored at the start of `data`. Bytes behind the record are
    /// not looked at. Data too short for a record has the wrong length; a
    /// flag byte that is neither 0 nor 1 makes the data malformed.
    pub open spec fn spec_decode(data: Seq<u8>) -> Result<PrizePoolRecord, PrizeError> {
        if data.len() < PRIZE_POOL_RECORD_LEN {
            Err(PrizeError::InvalidDataLength)
        } else {
            match (bool_at(data, 0), bool_at(data, 129), bool_at(data, 130), bool_at(data, 131)) {
                (
                    Some(initialized),
                    Some(is_first_claimed),
                    Some(is_second_claimed),
                    Some(is_third_claimed),
                ) => Ok(
                    PrizePoolRecord {
                        initialized,
                        total_prize: u64_at(data, 1),
                        first_prize: u64_at(data, 9),
                        second_prize: u64_at(data, 17),
                        third_prize: u64_at(data, 25),
                        first_account: address_at(data, 33),
                        second_account: address_at(data, 65),
                        third_account: address_at(data, 97),
                        is_first_claimed,
                        is_second_claimed,
                        is_third_claimed,
                        start_time: u64_at(data, 132),
                        end_time: u64_at(data, 140),
                    },
                ),
                _ => Err(PrizeError::MalformedRequest),
            }
        }
    }

    /// The record of a slot that has never been written.
    pub fn empty() -> (record: PrizePoolRecord)
        ensures
            record == PrizePoolRecord::spec_empty(),
            record.wf(),
    {
        PrizePoolRecord {
            initialized: false,
            total_prize: 0,
            first_prize: 0,
            second_prize: 0,
            third_prize: 0,
            first_account: Address::zero(),
            second_account: Address::zero(),
            third_account: Address::zero(),
            is_first_claimed: false,
            is_second_claimed: false,
            is_third_claimed: false,
            start_time: 0,
            end_time: 0,
        }
    }

    /// Whether a pool has been created in this record.
    pub fn is_initialized(&self) -> (initialized: bool)
        ensures
            initialized == self.initialized,
    {
        self.initialized
    }

    /// Resolves a claimant against the three winner slots: its rank and the
    /// prize of that rank, or rank 0 and no prize for a claimant that is no
    /// winner.
    pub fn get_prize(&self, claimant: &Address) -> (prize: (u8, u64))
        ensures
            prize.0 == self.rank_of(*claimant),
            prize.1 == self.prize_of(prize.0),
            prize.0 <= 3,
    {
        if claimant.same(&self.first_account) {
            (1, self.first_prize)
        } else if claimant.same(&self.second_account) {
            (2, self.second_prize)
        } else if claimant.same(&self.third_account) {
            (3, self.third_prize)
        } else {
            (0, 0)
        }
    }

    /// Creates the pool. A rejected request leaves the record as it was; an
    /// accepted one leaves a window that does not end before it starts.
    pub fn init(&mut self, schedule: &PrizeSchedule) -> (created: Result<(), PrizeError>)
        ensures
            match old(self).spec_init(*schedule) {
                Ok(record) => created is Ok && *final(self) == record,
                Err(e) => created == Err::<(), PrizeError>(e) && *final(self) == *old(self),
            },
            created is Ok ==> final(self).initialized,
            created is Ok ==> final(self).start_time <= final(self).end_time,
            old(self).wf() ==> final(self).wf(),
    {
        if !schedule.window_is_valid() {
            return Err(PrizeError::InvalidTime);
        }
        if self.initialized {
            return Err(PrizeError::AlreadyInitialized);
        }
        self.store(schedule, false, false, false);
        Ok(())
    }

    /// Overwrites the pool's schedule and its claim flags. A rejected request
    /// leaves the record as it was; an accepted one leaves a window that does
    /// not end before it starts.
    pub fn update(
        &mut self,
        schedule: &PrizeSchedule,
        is_first_claimed: bool,
        is_second_claimed: bool,
        is_third_claimed: bool,
    ) -> (updated: Result<(), PrizeError>)
        ensures
            match old(self).spec_update(
                *schedule,
                is_first_claimed,
                is_second_claimed,
                is_third_claimed,
            ) {
                Ok(record) => updated is Ok && *final(self) == record,
                Err(e) => updated == Err::<(), PrizeError>(e) && *final(self) == *old(self),
            },
            updated is Ok ==> final(self).initialized,
            updated is Ok ==> final(self).start_time <= final(self).end_time,
            old(self).wf() ==> final(self).wf(),
    {
        if !self.initialized {
            return Err(PrizeError::UninitializedAccount);
        }
        if !schedule.window_is_valid() {
            return Err(PrizeError::InvalidTime);
        }
        self.store(schedule, is_first_claimed, is_second_claimed, is_third_claimed);
        Ok(())
    }

    /// Pays the claimant's prize out of an escrow that holds
    /// `escrow_balance`, and returns the amount. A rejected claim leaves the
    /// record as it was.
    pub fn claim(&mut self, claimant: &Address, escrow_balance: u64) -> (paid: Result<
        u64,
        PrizeError,
    >)
        ensures
            match old(self).spec_claim(*claimant, escrow_balance) {
                Ok((record, amount)) => paid == Ok::<u64, PrizeError>(amount) && *final(self)
                    == record,
                Err(e) => paid == Err::<u64, PrizeError>(e) && *final(self) == *old(self),
            },
            paid matches Ok(amount) ==> amount <= escrow_balance,
            old(self).wf() ==> final(self).wf(),
    {
        let (rank, amount) = self.get_prize(claimant);
        if rank == 0 {
            return Err(PrizeError::NotWinner);
        }
        let claimed = if rank == 1 {
            self.is_first_claimed
        } else if rank == 2 {
            self.is_second_claimed
        } else {
            self.is_third_claimed
        };
        if claimed {
            return Err(PrizeError::Claimed);
        }
        if escrow_balance < amount {
            return Err(PrizeError::InsufficientFunds);
        }
        if rank == 1 {
            self.is_first_claimed = true;
        } else if rank == 2 {
            self.is_second_claimed = true;
        } else {
            self.is_third_claimed = true;
        }
        Ok(amount)
    }

    fn store(
        &mut self,
        schedule: &PrizeSchedule,
        is_first_claimed: bool,
        is_second_claimed: bool,
        is_third_claimed: bool,
    )
        ensures
            *final(self) == PrizePoolRecord::configured(
                *schedule,
                is_first_claimed,
                is_second_claimed,
                is_third_claimed,
            ),
    {
        self.initialized = true;
        self.total_prize = schedule.total_prize;
        self.first_prize = schedule.first_prize;
        self.second_prize = schedule.second_prize;
        self.third_prize = schedule.third_prize;
        self.first_account = schedule.first_account;
        self.second_account = schedule.second_account;
        self.third_account = schedule.third_account;
        self.is_first_claimed = is_first_claimed;
        self.is_second_claimed = is_second_claimed;
        self.is_third_claimed = is_third_claimed;
        self.start_time = schedule.start_time;
        self.end_time = schedule.end_time;
    }

    /// Encodes the record in its stored form.
    pub fn encode(&self) -> (bytes: Vec<u8>)
        ensures
            bytes@ == self.spec_encode(),
            bytes@.len() == PRIZE_POOL_RECORD_LEN,
    {
        let mut bytes: Vec<u8> = Vec::new();
        put_bool(&mut bytes, self.initialized);
        put_u64(&mut bytes, self.total_prize);
        put_u64(&mut bytes, self.first_prize);
        put_u64(&mut bytes, self.second_prize);
        put_u64(&mut bytes, self.third_prize);
        put_address(&mut bytes, &self.first_account);
        put_address(&mut bytes, &self.second_account);
        put_address(&mut bytes, &self.third_account);
        put_bool(&mut bytes, self.is_first_claimed);
        put_bool(&mut bytes, self.is_second_claimed);
        put_bool(&mut bytes, self.is_third_claimed);
        put_u64(&mut bytes, self.start_time);
        put_u64(&mut bytes, self.end_time);
        proof {
            broadcast use crate::codec::lemma_encoded_lengths;
        }
        bytes
    }

    /// Decodes the record stored at the start of `data`.
    pub fn decode(data: &[u8]) -> (decoded: Result<PrizePoolRecord, PrizeError>)
        ensures
            decoded == PrizePoolRecord::spec_decode(data@),
    {
        if data.len() < PRIZE_POOL_RECORD_LEN {
            return Err(PrizeError::InvalidDataLength);
        }
        let initialized = match get_bool(data, 0) {
            Some(flag) => flag,
            None => { return Err(PrizeError::MalformedRequest); },
        };
        let is_first_claimed = match get_bool(data, 129) {
            Some(flag) => flag,
            None => { return Err(PrizeError::MalformedRequest); },
        };
        let is_second_claimed = match get_bool(data, 130) {
            Some(flag) => flag,
            None => { return Err(PrizeError::MalformedRequest); },
        };
        let is_third_claimed = match get_bool(data, 131) {
            Some(flag) => flag,
            None => { return Err(PrizeError::MalformedRequest); },
        };
        Ok(
            PrizePoolRecord {
                initialized,
                total_prize: get_u64(data, 1),
                first_prize: get_u64(data, 9),
                second_prize: get_u64(data, 17),
                third_prize: get_u64(data, 25),
                first_account: get_address(data, 33),
                second_account: get_address(data, 65),
                third_account: get_address(data, 97),
                is_first_claimed,
                is_second_claimed,
                is_third_claimed,
                start_time: get_u64(data, 132),
                end_time: get_u64(data, 140),
            },
        )
    }
}

} // verus!
