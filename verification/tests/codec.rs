use prize_stake::error::PrizeError;
use prize_stake::pubkey::Address;
use prize_stake::state::{PrizePoolRecord, StakeState, PRIZE_POOL_RECORD_LEN, STAKE_STATE_LEN};

fn sample_stake() -> StakeState {
    StakeState {
        is_initialized: true,
        duration: 30,
        stake_amount: 36500,
        start_stake_time: 1_700_000_000,
        end_stake_time: 1_700_000_000 + 30 * 86400,
        reward_stake_amount: 1400,
        is_claimed: false,
    }
}

fn sample_pool() -> PrizePoolRecord {
    PrizePoolRecord {
        initialized: true,
        total_prize: 600,
        first_prize: 300,
        second_prize: 200,
        third_prize: 100,
        first_account: Address::new([1; 32]),
        second_account: Address::new([2; 32]),
        third_account: Address::new([3; 32]),
        is_first_claimed: false,
        is_second_claimed: true,
        is_third_claimed: false,
        start_time: 10,
        end_time: 0x0102_0304_0506_0708,
    }
}

#[test]
fn stake_state_round_trip() {
    let record = sample_stake();
    let bytes = record.encode();
    assert_eq!(bytes.len(), STAKE_STATE_LEN);
    assert_eq!(StakeState::decode(&bytes), Ok(record));
}

#[test]
fn stake_state_has_the_fixed_layout() {
    let record = StakeState {
        is_initialized: true,
        duration: 1,
        stake_amount: 0x0102_0304_0506_0708,
        start_stake_time: 2,
        end_stake_time: 86402,
        reward_stake_amount: 258,
        is_claimed: true,
    };
    let mut expected = vec![1u8];
    expected.extend_from_slice(&[1, 0, 0, 0, 0, 0, 0, 0]);
    expected.extend_from_slice(&[8, 7, 6, 5, 4, 3, 2, 1]);
    expected.extend_from_slice(&[2, 0, 0, 0, 0, 0, 0, 0]);
    expected.extend_from_slice(&[0x82, 0x51, 0x01, 0, 0, 0, 0, 0]);
    expected.extend_from_slice(&[2, 1, 0, 0, 0, 0, 0, 0]);
    expected.push(1);
    assert_eq!(record.encode(), expected);
    assert_eq!(StakeState::decode(&expected), Ok(record));
}

#[test]
fn stake_state_is_read_from_the_start_of_a_slot() {
    let record = sample_stake();
    let mut slot = record.encode();
    slot.resize(1000, 0xAB);
    assert_eq!(StakeState::decode(&slot), Ok(record));
}

#[test]
fn fresh_slot_decodes_to_the_empty_stake() {
    let slot = vec![0u8; 1000];
    let record = StakeState::decode(&slot).unwrap();
    assert_eq!(record, StakeState::empty());
    assert!(!record.is_initialized());
    assert_eq!(record.encode(), vec![0u8; 42]);
}

#[test]
fn short_stake_data_has_the_wrong_length() {
    assert_eq!(StakeState::decode(&[]), Err(PrizeError::InvalidDataLength));
    assert_eq!(StakeState::decode(&[0u8; 41]), Err(PrizeError::InvalidDataLength));
    assert!(StakeState::decode(&[0u8; 42]).is_ok());
}

#[test]
fn stake_flag_that_is_no_flag_is_malformed() {
    let mut bytes = sample_stake().encode();
    bytes[0] = 2;
    assert_eq!(StakeState::decode(&bytes), Err(PrizeError::MalformedRequest));
    let mut bytes = sample_stake().encode();
    bytes[41] = 255;
    assert_eq!(StakeState::decode(&bytes), Err(PrizeError::MalformedRequest));
}

#[test]
fn prize_pool_record_round_trip() {
    let record = sample_pool();
    let bytes = record.encode();
    assert_eq!(bytes.len(), PRIZE_POOL_RECORD_LEN);
    assert_eq!(PrizePoolRecord::decode(&bytes), Ok(record));
    let mut slot = bytes.clone();
    slot.resize(1000, 7);
    assert_eq!(PrizePoolRecord::decode(&slot), Ok(record));
}

#[test]
fn prize_pool_record_has_the_fixed_layout() {
    let bytes = sample_pool().encode();
    assert_eq!(bytes[0], 1);
    assert_eq!(&bytes[1..9], &[0x58, 0x02, 0, 0, 0, 0, 0, 0]);
    assert_eq!(&bytes[9..17], &[0x2c, 0x01, 0, 0, 0, 0, 0, 0]);
    assert_eq!(&bytes[17..25], &[200, 0, 0, 0, 0, 0, 0, 0]);
    assert_eq!(&bytes[25..33], &[100, 0, 0, 0, 0, 0, 0, 0]);
    assert_eq!(&bytes[33..65], &[1u8; 32]);
    assert_eq!(&bytes[65..97], &[2u8; 32]);
    assert_eq!(&bytes[97..129], &[3u8; 32]);
    assert_eq!(&bytes[129..132], &[0, 1, 0]);
    assert_eq!(&bytes[132..140], &[10, 0, 0, 0, 0, 0, 0, 0]);
    assert_eq!(&bytes[140..148], &[8, 7, 6, 5, 4, 3, 2, 1]);
}

#[test]
fn fresh_slot_decodes_to_the_empty_pool() {
    let slot = vec![0u8; 1000];
    let record = PrizePoolRecord::decode(&slot).unwrap();
    assert_eq!(record, PrizePoolRecord::empty());
    assert!(!record.is_initialized());
    assert_eq!(record.first_account, Address::zero());
}

#[test]
fn malformed_prize_pool_data_is_rejected() {
    assert_eq!(PrizePoolRecord::decode(&[0u8; 147]), Err(PrizeError::InvalidDataLength));
    for offset in [0usize, 129, 130, 131] {
        let mut bytes = sample_pool().encode();
        bytes[offset] = 9;
        assert_eq!(PrizePoolRecord::decode(&bytes), Err(PrizeError::MalformedRequest));
    }
}

#[test]
fn integers_and_flags_are_stored_as_borsh_stores_them() {
    let record = sample_stake();
    let bytes = record.encode();
    assert_eq!(borsh::BorshDeserialize::try_from_slice(&bytes[0..1]).ok(), Some(true));
    assert_eq!(borsh::BorshDeserialize::try_from_slice(&bytes[1..9]).ok(), Some(30u64));
    assert_eq!(borsh::BorshDeserialize::try_from_slice(&bytes[9..17]).ok(), Some(36500u64));
    assert_eq!(borsh::BorshDeserialize::try_from_slice(&bytes[33..41]).ok(), Some(1400u64));
    assert_eq!(borsh::BorshDeserialize::try_from_slice(&bytes[41..42]).ok(), Some(false));
    let mut expected = borsh::BorshSerialize::try_to_vec(&true).unwrap();
    for value in [30u64, 36500, 1_700_000_000, 1_702_592_000, 1400] {
        expected.extend(borsh::BorshSerialize::try_to_vec(&value).unwrap());
    }
    expected.extend(borsh::BorshSerialize::try_to_vec(&false).unwrap());
    assert_eq!(bytes, expected);
}
