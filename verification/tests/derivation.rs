use prize_stake::account::AccountMeta;
use prize_stake::account::Instruction;
use prize_stake::program::{
    create_record, is_token_program, sign_creation, transfer_by_authority, transfer_by_party,
};
use prize_stake::pubkey::{derive_authority, Address};
use solana_program::pubkey::Pubkey;

fn key(address: &Address) -> Pubkey {
    Pubkey::new_from_array(address.bytes)
}

#[test]
fn derive_agrees_with_the_ledger() {
    let party = Address::new([7; 32]);
    let program = Address::new([42; 32]);
    let (expected, bump) =
        Pubkey::find_program_address(&[&party.bytes, b"stake"], &key(&program));
    let found = prize_stake::pubkey::derive(b"stake", &party, &program);
    assert_eq!(found, Some((Address::new(expected.to_bytes()), bump)));
    assert_ne!(found.unwrap().0, party);
    assert_ne!(found.unwrap().0, program);
}

#[test]
fn derive_is_repeatable() {
    let party = Address::new([1; 32]);
    let program = Address::new([2; 32]);
    let first = prize_stake::pubkey::derive(b"prize", &party, &program);
    let second = prize_stake::pubkey::derive(b"prize", &party, &program);
    assert_eq!(first, second);
    assert!(first.is_some());
}

#[test]
fn derive_depends_on_each_argument() {
    let party = Address::new([1; 32]);
    let program = Address::new([2; 32]);
    let base = prize_stake::pubkey::derive(b"stake", &party, &program);
    assert_ne!(base, prize_stake::pubkey::derive(b"prize", &party, &program));
    assert_ne!(base, prize_stake::pubkey::derive(b"stake", &program, &program));
    assert_ne!(base, prize_stake::pubkey::derive(b"stake", &party, &party));
}

#[test]
fn derive_has_no_address_for_an_overlong_seed() {
    let party = Address::new([1; 32]);
    let program = Address::new([2; 32]);
    assert_eq!(prize_stake::pubkey::derive(&[0u8; 33], &party, &program), None);
    assert_eq!(derive_authority(&[0u8; 33], &program), None);
}

#[test]
fn derive_authority_agrees_with_the_ledger() {
    let program = Address::new([42; 32]);
    let (expected, bump) = Pubkey::find_program_address(&[b"stake"], &key(&program));
    assert_eq!(
        derive_authority(b"stake", &program),
        Some((Address::new(expected.to_bytes()), bump))
    );
}

#[test]
fn address_helpers() {
    let a = Address::new([5; 32]);
    let mut other = [5u8; 32];
    other[31] = 6;
    let b = Address::new(other);
    assert!(a.same(&a));
    assert!(!a.same(&b));
    assert_eq!(a.to_vec(), vec![5u8; 32]);
    assert_eq!(Address::from_slice(&other), Some(b));
    assert_eq!(Address::from_slice(&other[..31]), None);
    assert_eq!(Address::from_slice(&[0u8; 33]), None);
    assert_eq!(Address::zero(), Address::new([0; 32]));
}

#[test]
fn token_program_is_recognised() {
    let token = Address::new(spl_token::id().to_bytes());
    assert!(is_token_program(&token));
    assert!(!is_token_program(&Address::zero()));
    assert!(!is_token_program(&Address::new([6; 32])));
    assert_eq!(token.bytes[0], 6);
    assert_eq!(token.bytes[31], 169);
}

#[test]
fn token_program_has_the_bytes_that_the_library_states() {
    let stated: [u8; 32] = [
        6, 221, 246, 225, 215, 101, 161, 147, 217, 203, 225, 70, 206, 235, 121, 172, 28, 180,
        133, 237, 95, 91, 55, 145, 58, 140, 245, 133, 126, 255, 0, 169,
    ];
    assert_eq!(spl_token::id().to_bytes(), stated);
    assert!(is_token_program(&Address::new(stated)));
    for position in 0..32 {
        let mut changed = stated;
        changed[position] ^= 1;
        assert!(!is_token_program(&Address::new(changed)));
    }
}

#[test]
fn party_transfer_is_the_token_program_instruction() {
    let token = Address::new(spl_token::id().to_bytes());
    let source = Address::new([1; 32]);
    let destination = Address::new([2; 32]);
    let party = Address::new([3; 32]);
    let call =
        transfer_by_party(&token, &source, &destination, &party, 1000, vec![3, 4, 0, 5]).unwrap();
    let expected = spl_token::instruction::transfer(
        &key(&token),
        &key(&source),
        &key(&destination),
        &key(&party),
        &[&key(&party)],
        1000,
    )
    .unwrap();
    assert_eq!(call.instruction.program_id, token);
    assert_eq!(call.instruction.data, expected.data);
    assert_eq!(call.instruction.data, vec![3, 0xe8, 0x03, 0, 0, 0, 0, 0, 0]);
    assert_eq!(
        call.instruction.accounts,
        vec![
            AccountMeta { pubkey: source, is_signer: false, is_writable: true },
            AccountMeta { pubkey: destination, is_signer: false, is_writable: true },
            AccountMeta { pubkey: party, is_signer: false, is_writable: false },
            AccountMeta { pubkey: party, is_signer: true, is_writable: false },
        ]
    );
    assert_eq!(call.instruction.accounts.len(), expected.accounts.len());
    for (ours, theirs) in call.instruction.accounts.iter().zip(expected.accounts.iter()) {
        assert_eq!(ours.pubkey.bytes, theirs.pubkey.to_bytes());
        assert_eq!(ours.is_signer, theirs.is_signer);
        assert_eq!(ours.is_writable, theirs.is_writable);
    }
    assert_eq!(call.accounts, vec![3, 4, 0, 5]);
    assert!(call.signer_seeds.is_empty());
}

#[test]
fn authority_transfer_is_signed_with_the_seed_and_the_bump() {
    let token = Address::new(spl_token::id().to_bytes());
    let source = Address::new([1; 32]);
    let destination = Address::new([2; 32]);
    let authority = Address::new([4; 32]);
    let call = transfer_by_authority(
        b"stake",
        &token,
        &source,
        &destination,
        &authority,
        254,
        u64::MAX,
        vec![0, 4, 7, 6, 5],
    )
    .unwrap();
    assert_eq!(call.instruction.data, vec![3, 255, 255, 255, 255, 255, 255, 255, 255]);
    assert_eq!(call.instruction.accounts[2].pubkey, authority);
    assert!(!call.instruction.accounts[2].is_signer);
    assert_eq!(call.instruction.accounts[3].pubkey, authority);
    assert!(call.instruction.accounts[3].is_signer);
    assert_eq!(call.signer_seeds, vec![b"stake".to_vec(), vec![254]]);
    assert_eq!(call.accounts, vec![0, 4, 7, 6, 5]);
}

#[test]
fn transfer_is_refused_for_another_token_program() {
    let wrong = Address::new([9; 32]);
    let a = Address::new([1; 32]);
    assert_eq!(
        transfer_by_party(&wrong, &a, &a, &a, 1, vec![]),
        Err(prize_stake::error::PrizeError::IncorrectProgramId)
    );
    assert_eq!(
        transfer_by_authority(b"stake", &wrong, &a, &a, &a, 1, 1, vec![]),
        Err(prize_stake::error::PrizeError::IncorrectProgramId)
    );
}

#[test]
fn record_creation_is_the_system_program_instruction() {
    let program = Address::new([42; 32]);
    let payer = Address::new([1; 32]);
    let record = Address::new([2; 32]);
    let call = create_record(b"stake", &program, &payer, &record, 253, 7_850_880);
    let expected = solana_program::system_instruction::create_account(
        &key(&payer),
        &key(&record),
        7_850_880,
        1000,
        &key(&program),
    );
    assert_eq!(call.instruction.program_id, Address::zero());
    assert_eq!(call.instruction.program_id.bytes, expected.program_id.to_bytes());
    assert_eq!(call.instruction.data, expected.data);
    let mut stated = vec![0u8, 0, 0, 0];
    stated.extend_from_slice(&[0x80, 0xcb, 0x77, 0, 0, 0, 0, 0]);
    stated.extend_from_slice(&[0xe8, 0x03, 0, 0, 0, 0, 0, 0]);
    stated.extend_from_slice(&[42; 32]);
    assert_eq!(call.instruction.data, stated);
    assert_eq!(
        call.instruction.accounts,
        vec![
            AccountMeta { pubkey: payer, is_signer: true, is_writable: true },
            AccountMeta { pubkey: record, is_signer: true, is_writable: true },
        ]
    );
    assert_eq!(call.accounts, vec![0, 1, 2]);
    assert_eq!(call.signer_seeds, vec![vec![1u8; 32], b"stake".to_vec(), vec![253]]);
}

#[test]
fn creation_is_signed_with_the_seeds_of_the_record() {
    let payer = Address::new([1; 32]);
    let instruction = Instruction {
        program_id: Address::zero(),
        accounts: vec![],
        data: vec![1, 2, 3],
    };
    let call = sign_creation(instruction.clone(), b"prize", &payer, 17);
    assert_eq!(call.instruction, instruction);
    assert_eq!(call.accounts, vec![0, 1, 2]);
    assert_eq!(call.signer_seeds, vec![vec![1u8; 32], b"prize".to_vec(), vec![17]]);
}

#[test]
fn record_creation_carries_balance_space_and_owner() {
    let mut owner = [0u8; 32];
    for (position, byte) in owner.iter_mut().enumerate() {
        *byte = 200 + position as u8;
    }
    let program = Address::new(owner);
    let payer = Address::new([1; 32]);
    let record = Address::new([2; 32]);
    let call = create_record(b"prize", &program, &payer, &record, 1, 0x0102_0304_0506_0708);
    let mut stated = vec![0u8, 0, 0, 0];
    stated.extend_from_slice(&[8, 7, 6, 5, 4, 3, 2, 1]);
    stated.extend_from_slice(&1000u64.to_le_bytes());
    stated.extend_from_slice(&owner);
    assert_eq!(call.instruction.data, stated);
    assert_eq!(call.instruction.data.len(), 52);
}
