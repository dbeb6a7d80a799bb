use prize_stake::account::{Account, Commit, LamportTransfer};
use prize_stake::error::PrizeError;
use prize_stake::prize::{
    claim, decide_claim, decide_init_config, decide_update_config, init_config,
    process_prize_instruction, update_config, PRIZE_SEED,
};
use prize_stake::processor::close;
use prize_stake::pubkey::Address;
use prize_stake::state::{PrizePoolRecord, PrizeSchedule};

const RENT: u64 = 7_850_880;

fn program() -> Address {
    Address::new([42; 32])
}

fn initializer() -> Address {
    Address::new([7; 32])
}

fn winner(rank: u8) -> Address {
    Address::new([rank; 32])
}

fn pool_address() -> (Address, u8) {
    prize_stake::pubkey::derive(b"prize", &initializer(), &program()).unwrap()
}

fn plain(key: Address) -> Account {
    Account { key, owner: Address::zero(), is_signer: false, lamports: 1, data: Vec::new() }
}

fn schedule(start_time: u64, end_time: u64) -> PrizeSchedule {
    PrizeSchedule {
        total_prize: 600,
        first_prize: 300,
        second_prize: 200,
        third_prize: 100,
        first_account: winner(1),
        second_account: winner(2),
        third_account: winner(3),
        start_time,
        end_time,
    }
}

/// The accounts of a request to create a pool whose record account does not
/// exist yet.
fn init_accounts() -> Vec<Account> {
    vec![
        Account { is_signer: true, lamports: 1_000_000_000, ..plain(initializer()) },
        Account { lamports: 0, ..plain(pool_address().0) },
        plain(Address::zero()),
    ]
}

/// What the host does with an accepted request: it creates the slot where
/// that is asked for, moves the balance and stores the record.
fn commit_to(accounts: &mut [Account], commit: &Commit) {
    for call in &commit.invocations {
        assert_eq!(call.instruction.program_id, Address::zero());
        let slot = call.accounts[1];
        accounts[call.accounts[0]].lamports -= RENT;
        accounts[slot].lamports = RENT;
        accounts[slot].owner = program();
        accounts[slot].data = vec![0; 1000];
    }
    if let Some(transfer) = commit.transfer {
        accounts[transfer.from].lamports -= transfer.amount;
        accounts[transfer.to].lamports += transfer.amount;
    }
    if let Some(write) = &commit.write {
        accounts[write.account].data[..write.data.len()].copy_from_slice(&write.data);
    }
}

/// The accounts of a claim by `claimant` on a pool that has been created and
/// holds `escrow`.
fn claim_accounts(claimant: Address, escrow: u64) -> Vec<Account> {
    let mut accounts = init_accounts();
    let commit = init_config(&program(), &accounts, &schedule(100, 200), RENT).unwrap();
    commit_to(&mut accounts, &commit);
    accounts[0].is_signer = false;
    accounts[1].lamports = escrow;
    accounts[2] = Account { is_signer: true, lamports: 50, ..plain(claimant) };
    accounts
}

#[test]
fn seed_is_the_word_prize() {
    assert_eq!(&PRIZE_SEED, b"prize");
}

#[test]
fn init_config_on_a_new_slot() {
    let accounts = init_accounts();
    let commit = init_config(&program(), &accounts, &schedule(100, 200), RENT).unwrap();
    let (pool, bump) = pool_address();
    assert_eq!(commit.invocations.len(), 1);
    let creation = &commit.invocations[0];
    assert_eq!(creation.instruction.program_id, Address::zero());
    assert_eq!(creation.instruction.accounts[0].pubkey, initializer());
    assert_eq!(creation.instruction.accounts[1].pubkey, pool);
    assert_eq!(creation.accounts, vec![0, 1, 2]);
    assert_eq!(creation.signer_seeds, vec![vec![7u8; 32], b"prize".to_vec(), vec![bump]]);
    assert_eq!(commit.transfer, None);
    let written = commit.write.unwrap();
    assert_eq!(written.account, 1);
    let record = PrizePoolRecord::decode(&written.data).unwrap();
    assert!(record.initialized);
    assert_eq!(record.first_account, winner(1));
    assert_eq!((record.first_prize, record.second_prize, record.third_prize), (300, 200, 100));
    assert_eq!((record.start_time, record.end_time), (100, 200));
    assert!(!record.is_first_claimed && !record.is_second_claimed && !record.is_third_claimed);
}

#[test]
fn init_config_twice_is_rejected() {
    let mut accounts = init_accounts();
    let commit = init_config(&program(), &accounts, &schedule(100, 200), RENT).unwrap();
    commit_to(&mut accounts, &commit);
    let after_first = accounts.clone();
    assert_eq!(
        init_config(&program(), &accounts, &schedule(100, 200), RENT),
        Err(PrizeError::AlreadyInitialized)
    );
    assert_eq!(
        init_config(&program(), &accounts, &schedule(1, 2), RENT),
        Err(PrizeError::AlreadyInitialized)
    );
    assert_eq!(accounts, after_first);
    assert_eq!(
        PrizePoolRecord::decode(&accounts[1].data).unwrap().end_time,
        200
    );
}

#[test]
fn init_config_on_an_allocated_slot_creates_nothing() {
    let mut accounts = init_accounts();
    accounts[1].lamports = RENT;
    accounts[1].owner = program();
    accounts[1].data = vec![0; 1000];
    let commit = init_config(&program(), &accounts, &schedule(0, 0), RENT).unwrap();
    assert!(commit.invocations.is_empty());
    assert!(commit.write.is_some());
}

#[test]
fn init_config_rejects_an_invalid_window() {
    let accounts = init_accounts();
    assert_eq!(
        init_config(&program(), &accounts, &schedule(201, 200), RENT),
        Err(PrizeError::InvalidTime)
    );
    let mut accounts = init_accounts();
    let commit = init_config(&program(), &accounts, &schedule(100, 200), RENT).unwrap();
    commit_to(&mut accounts, &commit);
    assert_eq!(
        init_config(&program(), &accounts, &schedule(201, 200), RENT),
        Err(PrizeError::InvalidTime)
    );
}

#[test]
fn init_config_checks_come_in_order() {
    let good = init_accounts();
    assert_eq!(
        init_config(&program(), &good[..2], &schedule(1, 2), RENT),
        Err(PrizeError::NotEnoughAccountKeys)
    );
    let mut accounts = good.clone();
    accounts[0].is_signer = false;
    accounts[1].key = winner(9);
    assert_eq!(
        init_config(&program(), &accounts, &schedule(2, 1), RENT),
        Err(PrizeError::Unauthorized)
    );
    let mut accounts = good.clone();
    accounts[1].key = winner(9);
    assert_eq!(
        init_config(&program(), &accounts, &schedule(2, 1), RENT),
        Err(PrizeError::InvalidPDA)
    );
    let mut accounts = good.clone();
    accounts[1].lamports = 5;
    assert_eq!(
        init_config(&program(), &accounts, &schedule(1, 2), RENT),
        Err(PrizeError::InvalidDataLength)
    );
    accounts[1].data = vec![4; 1000];
    assert_eq!(
        init_config(&program(), &accounts, &schedule(1, 2), RENT),
        Err(PrizeError::MalformedRequest)
    );
}

#[test]
fn update_config_overwrites_the_record() {
    let mut accounts = claim_accounts(winner(1), 1000);
    accounts[0].is_signer = true;
    let mut next = schedule(5, 6);
    next.second_prize = 250;
    let commit = update_config(&program(), &accounts[..2], &next, true, false, true).unwrap();
    assert!(commit.invocations.is_empty());
    assert_eq!(commit.transfer, None);
    let written = commit.write.unwrap();
    assert_eq!(written.account, 1);
    let record = PrizePoolRecord::decode(&written.data).unwrap();
    assert!(record.initialized);
    assert_eq!(record.second_prize, 250);
    assert_eq!((record.start_time, record.end_time), (5, 6));
    assert_eq!(
        (record.is_first_claimed, record.is_second_claimed, record.is_third_claimed),
        (true, false, true)
    );
}

#[test]
fn update_config_checks_come_in_order() {
    let mut good = claim_accounts(winner(1), 1000);
    good[0].is_signer = true;
    let next = schedule(5, 6);
    assert_eq!(
        update_config(&program(), &good[..1], &next, false, false, false),
        Err(PrizeError::NotEnoughAccountKeys)
    );
    let mut accounts = good.clone();
    accounts[1].owner = Address::zero();
    accounts[0].is_signer = false;
    assert_eq!(
        update_config(&program(), &accounts, &next, false, false, false),
        Err(PrizeError::IllegalOwner)
    );
    let mut accounts = good.clone();
    accounts[0].is_signer = false;
    assert_eq!(
        update_config(&program(), &accounts, &next, false, false, false),
        Err(PrizeError::Unauthorized)
    );
    let mut accounts = good.clone();
    accounts[0].key = winner(9);
    assert_eq!(
        update_config(&program(), &accounts, &next, false, false, false),
        Err(PrizeError::InvalidPDA)
    );
    let mut accounts = good.clone();
    accounts[1].data = vec![0; 1000];
    assert_eq!(
        update_config(&program(), &accounts, &schedule(6, 5), false, false, false),
        Err(PrizeError::UninitializedAccount)
    );
    assert_eq!(
        update_config(&program(), &good, &schedule(6, 5), false, false, false),
        Err(PrizeError::InvalidTime)
    );
    let mut accounts = good.clone();
    accounts[1].data.truncate(147);
    assert_eq!(
        update_config(&program(), &accounts, &next, false, false, false),
        Err(PrizeError::InvalidDataLength)
    );
}

#[test]
fn claim_pays_the_prize_of_the_rank() {
    let accounts = claim_accounts(winner(2), 1000);
    let commit = claim(&program(), &accounts).unwrap();
    assert!(commit.invocations.is_empty());
    assert_eq!(commit.transfer, Some(LamportTransfer { from: 1, to: 2, amount: 200 }));
    let written = commit.write.unwrap();
    assert_eq!(written.account, 1);
    let record = PrizePoolRecord::decode(&written.data).unwrap();
    assert!(record.is_second_claimed);
    assert!(!record.is_first_claimed && !record.is_third_claimed);
    let before = PrizePoolRecord::decode(&accounts[1].data).unwrap();
    assert_eq!(record, PrizePoolRecord { is_second_claimed: true, ..before });
}

#[test]
fn claim_twice_pays_once() {
    let mut accounts = claim_accounts(winner(1), 1000);
    let commit = claim(&program(), &accounts).unwrap();
    commit_to(&mut accounts, &commit);
    assert_eq!(accounts[1].lamports, 700);
    assert_eq!(accounts[2].lamports, 350);
    let after_first = accounts.clone();
    assert_eq!(claim(&program(), &accounts), Err(PrizeError::Claimed));
    assert_eq!(accounts, after_first);
    assert_eq!(accounts[1].lamports, 1000 - 300);

    accounts[2] = Account { is_signer: true, lamports: 0, ..plain(winner(3)) };
    let commit = claim(&program(), &accounts).unwrap();
    commit_to(&mut accounts, &commit);
    assert_eq!(accounts[1].lamports, 600);
    assert_eq!(accounts[2].lamports, 100);
}

#[test]
fn claim_by_a_non_winner_moves_nothing() {
    let accounts = claim_accounts(winner(4), 1000);
    assert_eq!(claim(&program(), &accounts), Err(PrizeError::NotWinner));
    let accounts = claim_accounts(initializer(), 1000);
    assert_eq!(claim(&program(), &accounts), Err(PrizeError::NotWinner));
}

#[test]
fn claim_request_needs_the_prize_in_escrow() {
    let accounts = claim_accounts(winner(1), 299);
    assert_eq!(claim(&program(), &accounts), Err(PrizeError::InsufficientFunds));
    let accounts = claim_accounts(winner(1), 300);
    assert_eq!(
        claim(&program(), &accounts).unwrap().transfer,
        Some(LamportTransfer { from: 1, to: 2, amount: 300 })
    );
}

#[test]
fn claim_checks_come_in_order() {
    let good = claim_accounts(winner(1), 1000);
    assert_eq!(claim(&program(), &good[..2]), Err(PrizeError::NotEnoughAccountKeys));

    let mut accounts = good.clone();
    accounts[2].is_signer = false;
    accounts[1].owner = Address::zero();
    assert_eq!(claim(&program(), &accounts), Err(PrizeError::Unauthorized));

    let mut accounts = good.clone();
    accounts[1].owner = Address::zero();
    accounts[0].key = winner(9);
    assert_eq!(claim(&program(), &accounts), Err(PrizeError::IllegalOwner));

    let mut accounts = good.clone();
    accounts[0].key = winner(9);
    accounts[1].data = vec![];
    assert_eq!(claim(&program(), &accounts), Err(PrizeError::InvalidPDA));

    let mut accounts = good.clone();
    accounts[1].data = vec![];
    assert_eq!(claim(&program(), &accounts), Err(PrizeError::InvalidDataLength));
    accounts[1].data = vec![6; 148];
    assert_eq!(claim(&program(), &accounts), Err(PrizeError::MalformedRequest));

    let mut accounts = good.clone();
    accounts[2].lamports = u64::MAX - 299;
    assert_eq!(claim(&program(), &accounts), Err(PrizeError::ArithmeticOverflow));
    accounts[2].lamports = u64::MAX - 300;
    assert!(claim(&program(), &accounts).is_ok());
}

#[test]
fn close_reclaims_the_escrow() {
    let mut accounts = claim_accounts(winner(1), 1000);
    accounts[0].is_signer = true;
    let commit = close(b"prize", &program(), &accounts[..2]).unwrap();
    assert_eq!(commit.transfer, Some(LamportTransfer { from: 1, to: 0, amount: 1000 }));
    assert_eq!(commit.write, None);
    commit_to(&mut accounts, &commit);
    assert_eq!(accounts[1].lamports, 0);
    assert_eq!(close(b"prize", &program(), &accounts[..2]), Err(PrizeError::InsufficientFunds));
}

#[test]
fn close_of_another_pool_is_rejected() {
    let mut accounts = claim_accounts(winner(1), 1000);
    let stranger = Address::new([66; 32]);
    accounts[0] = Account { is_signer: true, lamports: 100, ..plain(stranger) };
    assert_eq!(close(b"prize", &program(), &accounts[..2]), Err(PrizeError::InvalidPDA));
    assert_eq!(
        process_prize_instruction(&program(), &accounts[..2], &[3], RENT),
        Err(PrizeError::InvalidPDA)
    );
    accounts[0] = Account { is_signer: true, lamports: 100, ..plain(initializer()) };
    assert_eq!(
        process_prize_instruction(&program(), &accounts[..2], &[3], RENT).unwrap().transfer,
        Some(LamportTransfer { from: 1, to: 0, amount: 1000 })
    );
}

#[test]
fn process_prize_instruction_dispatches() {
    let mut request = vec![0u8];
    for value in [600u64, 300, 200, 100] {
        request.extend_from_slice(&value.to_le_bytes());
    }
    for rank in 1..=3u8 {
        request.extend_from_slice(&[rank; 32]);
    }
    request.extend_from_slice(&100u64.to_le_bytes());
    request.extend_from_slice(&200u64.to_le_bytes());
    let mut accounts = init_accounts();
    let commit = process_prize_instruction(&program(), &accounts, &request, RENT).unwrap();
    assert_eq!(
        Ok(commit.clone()),
        init_config(&program(), &accounts, &schedule(100, 200), RENT)
    );
    commit_to(&mut accounts, &commit);

    let mut request = vec![1u8];
    for value in [600u64, 300, 200, 100] {
        request.extend_from_slice(&value.to_le_bytes());
    }
    for rank in 1..=3u8 {
        request.extend_from_slice(&[rank; 32]);
    }
    request.extend_from_slice(&[0, 1, 0]);
    request.extend_from_slice(&100u64.to_le_bytes());
    request.extend_from_slice(&300u64.to_le_bytes());
    let commit = process_prize_instruction(&program(), &accounts, &request, RENT).unwrap();
    assert_eq!(
        Ok(commit.clone()),
        update_config(&program(), &accounts, &schedule(100, 300), false, true, false)
    );
    commit_to(&mut accounts, &commit);
    accounts[1].lamports = 1000;

    accounts[2] = Account { is_signer: true, lamports: 0, ..plain(winner(2)) };
    assert_eq!(
        process_prize_instruction(&program(), &accounts, &[2], RENT),
        Err(PrizeError::Claimed)
    );
    accounts[2] = Account { is_signer: true, lamports: 0, ..plain(winner(3)) };
    let commit = process_prize_instruction(&program(), &accounts, &[2], RENT).unwrap();
    assert_eq!(commit.transfer, Some(LamportTransfer { from: 1, to: 2, amount: 100 }));
    commit_to(&mut accounts, &commit);

    let commit = process_prize_instruction(&program(), &accounts, &[3], RENT).unwrap();
    assert_eq!(commit.transfer, Some(LamportTransfer { from: 1, to: 0, amount: 900 }));

    assert_eq!(
        process_prize_instruction(&program(), &accounts, &[4], RENT),
        Err(PrizeError::MalformedRequest)
    );
    assert_eq!(
        process_prize_instruction(&program(), &accounts, &[], RENT),
        Err(PrizeError::MalformedRequest)
    );
}

#[test]
fn decide_init_config_on_a_given_address() {
    let record_key = Address::new([21; 32]);
    let mut accounts = init_accounts();
    accounts[1].key = record_key;
    let commit =
        decide_init_config(&program(), &accounts, &schedule(1, 2), RENT, Some((record_key, 200)))
            .unwrap();
    assert_eq!(commit.invocations.len(), 1);
    assert_eq!(
        commit.invocations[0].signer_seeds,
        vec![vec![7u8; 32], b"prize".to_vec(), vec![200]]
    );
    assert_eq!(
        decide_init_config(&program(), &accounts, &schedule(1, 2), RENT, None),
        Err(PrizeError::InvalidPDA)
    );
    assert_eq!(
        decide_init_config(&program(), &accounts, &schedule(1, 2), RENT, Some((winner(1), 200))),
        Err(PrizeError::InvalidPDA)
    );
    assert_eq!(
        init_config(&program(), &init_accounts(), &schedule(1, 2), RENT),
        decide_init_config(
            &program(),
            &init_accounts(),
            &schedule(1, 2),
            RENT,
            Some(pool_address())
        )
    );
}

#[test]
fn decide_update_and_claim_on_a_given_address() {
    let record_key = Address::new([21; 32]);
    let mut accounts = claim_accounts(winner(3), 1000);
    accounts[1].key = record_key;
    let commit = decide_claim(&program(), &accounts, Some((record_key, 1))).unwrap();
    assert_eq!(commit.transfer, Some(LamportTransfer { from: 1, to: 2, amount: 100 }));
    assert_eq!(decide_claim(&program(), &accounts, None), Err(PrizeError::InvalidPDA));
    assert_eq!(
        decide_claim(&program(), &accounts, Some(pool_address())),
        Err(PrizeError::InvalidPDA)
    );

    accounts[0].is_signer = true;
    let commit = decide_update_config(
        &program(),
        &accounts,
        &schedule(8, 9),
        true,
        true,
        false,
        Some((record_key, 1)),
    )
    .unwrap();
    let record = PrizePoolRecord::decode(&commit.write.unwrap().data).unwrap();
    assert_eq!((record.start_time, record.end_time), (8, 9));
    assert_eq!(
        (record.is_first_claimed, record.is_second_claimed, record.is_third_claimed),
        (true, true, false)
    );
    assert_eq!(
        decide_update_config(&program(), &accounts, &schedule(8, 9), true, true, false, None),
        Err(PrizeError::InvalidPDA)
    );
}
