use lamport_vault::address::{derive_vault_address, keys_equal, vault_seeds_for, vault_signer_seeds_for};
use lamport_vault::error::VaultError;
use lamport_vault::instruction::VaultInstruction;
use lamport_vault::processor::{
    check_vault_accounts, process_deposit, process_instruction, process_withdraw, AccountState, Transfer,
};
use solana_program::pubkey::Pubkey;

const PROGRAM: [u8; 32] = [7u8; 32];
const USER: [u8; 32] = [1u8; 32];
const OTHER_USER: [u8; 32] = [2u8; 32];
const SYSTEM: [u8; 32] = [0u8; 32];

fn vault_of(user: &[u8; 32]) -> ([u8; 32], u8) {
    derive_vault_address(user, &PROGRAM).expect("a vault address exists")
}

fn accounts(user_signs: bool, user_lamports: u64, vault: [u8; 32], vault_lamports: u64) -> Vec<AccountState> {
    vec![
        AccountState { key: USER, is_signer: user_signs, lamports: user_lamports },
        AccountState { key: vault, is_signer: false, lamports: vault_lamports },
        AccountState { key: SYSTEM, is_signer: false, lamports: 1 },
    ]
}

fn payload(tag: u8, amount: u64) -> Vec<u8> {
    let mut v = vec![tag];
    v.extend_from_slice(&amount.to_le_bytes());
    v
}

/// Carries out a requested transfer on the local account states, as the host would.
fn settle(accounts: &mut [AccountState], t: &Transfer) {
    accounts[t.source].lamports -= t.lamports;
    accounts[t.destination].lamports += t.lamports;
}

#[test]
fn decode_deposit() {
    let r = VaultInstruction::try_from_slice(&[0, 0xa0, 0x0f, 0, 0, 0, 0, 0, 0]);
    assert_eq!(r, Ok(VaultInstruction::Deposit { amount: 4_000 }));
}

#[test]
fn decode_withdraw_large_amount() {
    let r = VaultInstruction::try_from_slice(&[1, 0xff, 0xff, 0xff, 0xff, 0xff, 0xff, 0xff, 0xff]);
    assert_eq!(r, Ok(VaultInstruction::Withdraw { amount: u64::MAX }));
    let r = VaultInstruction::try_from_slice(&[1, 1, 2, 3, 4, 5, 6, 7, 8]);
    assert_eq!(r, Ok(VaultInstruction::Withdraw { amount: 0x0807_0605_0403_0201 }));
}

#[test]
fn decode_refuses_malformed_payloads() {
    let bad: Vec<Vec<u8>> = vec![
        vec![],
        vec![0],
        vec![0, 1, 0, 0, 0, 0, 0, 0],
        vec![2, 1, 0, 0, 0, 0, 0, 0, 0],
        vec![0xff, 1, 0, 0, 0, 0, 0, 0, 0],
        vec![0, 1, 0, 0, 0, 0, 0, 0, 0, 0],
    ];
    for b in bad {
        assert_eq!(VaultInstruction::try_from_slice(&b), Err(VaultError::InvalidInstructionData));
    }
}

#[test]
fn decode_inverts_encoding() {
    for amount in [0u64, 1, 255, 256, 4_000, u64::MAX - 1, u64::MAX] {
        assert_eq!(VaultInstruction::try_from_slice(&payload(0, amount)), Ok(VaultInstruction::Deposit { amount }));
        assert_eq!(VaultInstruction::try_from_slice(&payload(1, amount)), Ok(VaultInstruction::Withdraw { amount }));
    }
    assert_eq!(VaultInstruction::Withdraw { amount: 9 }.amount(), 9);
}

#[test]
fn derivation_matches_the_host_and_is_deterministic() {
    let (vault, bump) = vault_of(&USER);
    let (expected, expected_bump) =
        Pubkey::find_program_address(&[b"vault", USER.as_ref()], &Pubkey::new_from_array(PROGRAM));
    assert_eq!(vault, expected.to_bytes());
    assert_eq!(bump, expected_bump);
    assert_eq!(vault_of(&USER), (vault, bump));
    assert_ne!(vault_of(&OTHER_USER).0, vault);
    assert!(!expected.is_on_curve());
}

#[test]
fn seeds_and_key_comparison() {
    let seeds = vault_seeds_for(&USER);
    assert_eq!(seeds, vec![b"vault".to_vec(), USER.to_vec()]);
    let signer = vault_signer_seeds_for(&USER, 254);
    assert_eq!(signer, vec![b"vault".to_vec(), USER.to_vec(), vec![254]]);
    assert!(keys_equal(&USER, &USER));
    assert!(!keys_equal(&USER, &OTHER_USER));
    let mut last = USER;
    last[31] = 9;
    assert!(!keys_equal(&USER, &last));
}

#[test]
fn fresh_deposit() {
    let (vault, _) = vault_of(&USER);
    let mut accts = accounts(true, 10_000, vault, 0);
    let t = process_instruction(&PROGRAM, &accts, &payload(0, 4_000)).expect("deposit accepted");
    assert_eq!((t.source, t.destination, t.provider, t.lamports), (0, 1, 2, 4_000));
    assert!(t.signer_seeds.is_none());
    settle(&mut accts, &t);
    assert_eq!(accts[0].lamports, 6_000);
    assert_eq!(accts[1].lamports, 4_000);
}

#[test]
fn withdraw_full_balance() {
    let (vault, bump) = vault_of(&USER);
    let mut accts = accounts(true, 10_000, vault, 0);
    let t = process_instruction(&PROGRAM, &accts, &payload(0, 4_000)).expect("deposit accepted");
    settle(&mut accts, &t);
    let t = process_instruction(&PROGRAM, &accts, &payload(1, 4_000)).expect("withdraw accepted");
    assert_eq!((t.source, t.destination, t.provider, t.lamports), (1, 0, 2, 4_000));
    let seeds = t.signer_seeds.clone().expect("program signs for the vault");
    assert_eq!(seeds, vec![b"vault".to_vec(), USER.to_vec(), vec![bump]]);
    let refs: Vec<&[u8]> = seeds.iter().map(|s| s.as_slice()).collect();
    let signed = Pubkey::create_program_address(&refs, &Pubkey::new_from_array(PROGRAM)).expect("valid seeds");
    assert_eq!(signed.to_bytes(), vault);
    settle(&mut accts, &t);
    assert_eq!(accts[1].lamports, 0);
    assert_eq!(accts[0].lamports, 10_000);
}

#[test]
fn withdraw_over_balance() {
    let (vault, _) = vault_of(&USER);
    let accts = accounts(true, 0, vault, 1_000);
    let r = process_instruction(&PROGRAM, &accts, &payload(1, 1_001));
    assert_eq!(r.unwrap_err(), VaultError::InsufficientFunds);
    assert_eq!(accts[1].lamports, 1_000);
    assert!(process_withdraw(&PROGRAM, &accts, 1_000).is_ok());
}

#[test]
fn wrong_vault_address() {
    let (other_vault, _) = vault_of(&OTHER_USER);
    let accts = accounts(true, 10_000, other_vault, 0);
    assert_eq!(process_instruction(&PROGRAM, &accts, &payload(0, 4_000)).unwrap_err(), VaultError::InvalidSeeds);
    assert_eq!(process_instruction(&PROGRAM, &accts, &payload(1, 0)).unwrap_err(), VaultError::InvalidSeeds);
    assert_eq!(check_vault_accounts(&PROGRAM, &accts), Err(VaultError::InvalidSeeds));
}

#[test]
fn unsigned_invocation() {
    let (vault, _) = vault_of(&USER);
    let accts = accounts(false, 10_000, vault, 5_000);
    assert_eq!(
        process_instruction(&PROGRAM, &accts, &payload(0, 4_000)).unwrap_err(),
        VaultError::MissingRequiredSignature
    );
    assert_eq!(
        process_instruction(&PROGRAM, &accts, &payload(1, 1)).unwrap_err(),
        VaultError::MissingRequiredSignature
    );
}

#[test]
fn malformed_payload() {
    let (vault, _) = vault_of(&USER);
    let accts = accounts(true, 10_000, vault, 0);
    let short = vec![0u8, 0xa0, 0x0f, 0, 0, 0, 0, 0];
    assert_eq!(process_instruction(&PROGRAM, &accts, &short).unwrap_err(), VaultError::InvalidInstructionData);
    assert_eq!(
        process_instruction(&PROGRAM, &accts, &payload(2, 4_000)).unwrap_err(),
        VaultError::InvalidInstructionData
    );
}

#[test]
fn too_few_accounts() {
    let (vault, _) = vault_of(&USER);
    let mut accts = accounts(true, 10_000, vault, 0);
    accts.pop();
    assert_eq!(process_deposit(&PROGRAM, &accts, 1).unwrap_err(), VaultError::NotEnoughAccountKeys);
    assert_eq!(process_withdraw(&PROGRAM, &[], 1).unwrap_err(), VaultError::NotEnoughAccountKeys);
}

#[test]
fn zero_amounts_are_accepted() {
    let (vault, _) = vault_of(&USER);
    let mut accts = accounts(true, 10, vault, 0);
    for tag in [0u8, 1] {
        let t = process_instruction(&PROGRAM, &accts, &payload(tag, 0)).expect("zero accepted");
        assert_eq!(t.lamports, 0);
        settle(&mut accts, &t);
    }
    assert_eq!(accts[1].lamports, 0);
}

#[test]
fn interleaved_deposits_and_withdrawals_net_out() {
    let (vault, _) = vault_of(&USER);
    let mut accts = accounts(true, 100_000, vault, 0);
    let ops: [(u8, u64); 6] = [(0, 500), (1, 200), (0, 1_000), (1, 1_300), (0, 7), (1, 0)];
    for (tag, amount) in ops {
        let t = process_instruction(&PROGRAM, &accts, &payload(tag, amount)).expect("covered");
        settle(&mut accts, &t);
    }
    assert_eq!(accts[1].lamports, 500 - 200 + 1_000 - 1_300 + 7);
    let r = process_instruction(&PROGRAM, &accts, &payload(1, 8));
    assert_eq!(r.unwrap_err(), VaultError::InsufficientFunds);
}
