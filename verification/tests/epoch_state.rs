use jito_restaking_core::ncn::Ncn;
use ncn_epoch::account::AccountSnapshot;
use ncn_epoch::clock::ClockReading;
use ncn_epoch::epoch_state::{
    complete_initialize_epoch_state, finish_epoch_state, plan_epoch_state,
    process_initialize_epoch_state, EpochStateChecks,
};
use ncn_epoch::program_error::{
    InstructionError, ACCOUNT_ALREADY_INITIALIZED, INCORRECT_PROGRAM_ID, INVALID_ACCOUNT_DATA,
    INVALID_ACCOUNT_OWNER,
};
use solana_program::program_error::ProgramError;
use solana_program::pubkey::Pubkey;

const PROGRAM: [u8; 32] = [11u8; 32];
const RESTAKING: [u8; 32] = [9u8; 32];
const BASE: [u8; 32] = [5u8; 32];
const STATE: [u8; 32] = [2u8; 32];
const PAYER: [u8; 32] = [4u8; 32];

fn account(key: [u8; 32], owner: [u8; 32], is_writable: bool, data: Vec<u8>) -> AccountSnapshot {
    AccountSnapshot { key, owner, is_signer: false, is_writable, lamports: 1_000_000, data }
}

fn ncn_key() -> [u8; 32] {
    Ncn::find_program_address(&Pubkey::new_from_array(RESTAKING), &Pubkey::new_from_array(BASE)).0.to_bytes()
}

fn ncn_data() -> Vec<u8> {
    let mut data = vec![0u8; 592];
    data[0] = 2;
    data[8..40].copy_from_slice(&BASE);
    data[304..312].copy_from_slice(&3u64.to_le_bytes());
    data
}

fn accounts() -> Vec<AccountSnapshot> {
    vec![
        account([1u8; 32], PROGRAM, false, vec![]),
        account(STATE, [0u8; 32], true, vec![]),
        account(ncn_key(), RESTAKING, false, ncn_data()),
        account(PAYER, PROGRAM, true, vec![]),
        account([0u8; 32], [0u8; 32], false, vec![]),
    ]
}

fn checks() -> EpochStateChecks {
    EpochStateChecks {
        account_payer_load: Ok(()),
        epoch_marker_absent: Ok(()),
        epoch_state_address: STATE,
        epoch_state_bump: 254,
        epoch_state_seeds: vec![b"epoch_state".to_vec(), vec![7u8; 32]],
    }
}

fn clock(epoch: u64) -> Result<ClockReading, u64> {
    Ok(ClockReading { slot: 5_000, epoch })
}

fn refusal<T>(r: Result<T, InstructionError>) -> InstructionError {
    match r {
        Err(e) => e,
        Ok(_) => panic!("the instruction was accepted"),
    }
}

#[test]
fn accepted_epoch_state_plans_the_creation() {
    let creation = plan_epoch_state(&PROGRAM, &accounts(), 12, &RESTAKING, checks(), clock(12)).ok().unwrap();
    assert_eq!(creation.payer, PAYER);
    assert_eq!(creation.new_account, STATE);
    assert_eq!(creation.owner, PROGRAM);
    assert_eq!(creation.bump, 254);
    assert_eq!(creation.seeds, vec![b"epoch_state".to_vec(), vec![7u8; 32], vec![254u8]]);
    assert_eq!(creation.ncn, ncn_key());
    assert_eq!(creation.epoch, 12);
}

#[test]
fn wrong_account_count_is_refused() {
    let mut short = accounts();
    short.pop();
    assert_eq!(refusal(plan_epoch_state(&PROGRAM, &short, 12, &RESTAKING, checks(), clock(12))), InstructionError::NotEnoughAccountKeys);
    let mut long = accounts();
    long.push(account([8u8; 32], PROGRAM, false, vec![]));
    assert_eq!(refusal(plan_epoch_state(&PROGRAM, &long, 12, &RESTAKING, checks(), clock(12))), InstructionError::NotEnoughAccountKeys);
    assert_eq!(refusal(process_initialize_epoch_state(&PROGRAM, &long, 12, &RESTAKING, checks())), InstructionError::NotEnoughAccountKeys);
}

#[test]
fn unreadable_clock_is_refused() {
    assert_eq!(refusal(plan_epoch_state(&PROGRAM, &accounts(), 12, &RESTAKING, checks(), Err(77))), InstructionError::Failed(77));
}

#[test]
fn off_chain_clock_is_unsupported() {
    let code = u64::from(ProgramError::UnsupportedSysvar);
    assert_eq!(refusal(process_initialize_epoch_state(&PROGRAM, &accounts(), 12, &RESTAKING, checks())), InstructionError::Failed(code));
}

#[test]
fn future_epoch_is_refused() {
    assert_eq!(refusal(plan_epoch_state(&PROGRAM, &accounts(), 13, &RESTAKING, checks(), clock(12))), InstructionError::InvalidArgument);
    assert!(plan_epoch_state(&PROGRAM, &accounts(), 12, &RESTAKING, checks(), clock(12)).is_ok());
}

#[test]
fn epoch_state_account_must_be_fresh() {
    let mut a = accounts();
    a[1].data = vec![0];
    assert_eq!(refusal(plan_epoch_state(&PROGRAM, &a, 12, &RESTAKING, checks(), clock(12))), InstructionError::Failed(ACCOUNT_ALREADY_INITIALIZED));
    let mut a = accounts();
    a[1].owner = PROGRAM;
    assert_eq!(refusal(plan_epoch_state(&PROGRAM, &a, 12, &RESTAKING, checks(), clock(12))), InstructionError::Failed(INVALID_ACCOUNT_OWNER));
    let mut a = accounts();
    a[1].is_writable = false;
    assert_eq!(refusal(plan_epoch_state(&PROGRAM, &a, 12, &RESTAKING, checks(), clock(12))), InstructionError::Failed(INVALID_ACCOUNT_DATA));
}

#[test]
fn system_program_must_be_given() {
    let mut a = accounts();
    a[4].key = [1u8; 32];
    assert_eq!(refusal(plan_epoch_state(&PROGRAM, &a, 12, &RESTAKING, checks(), clock(12))), InstructionError::Failed(INCORRECT_PROGRAM_ID));
}

#[test]
fn ncn_must_be_a_restaking_ncn_at_its_address() {
    let mut a = accounts();
    a[2].owner = PROGRAM;
    assert_eq!(refusal(plan_epoch_state(&PROGRAM, &a, 12, &RESTAKING, checks(), clock(12))), InstructionError::Failed(INVALID_ACCOUNT_OWNER));
    let mut a = accounts();
    a[2].key = [6u8; 32];
    assert_eq!(refusal(plan_epoch_state(&PROGRAM, &a, 12, &RESTAKING, checks(), clock(12))), InstructionError::Failed(INVALID_ACCOUNT_DATA));
    let mut a = accounts();
    a[2].data[0] = 3;
    assert_eq!(refusal(plan_epoch_state(&PROGRAM, &a, 12, &RESTAKING, checks(), clock(12))), InstructionError::Failed(INVALID_ACCOUNT_DATA));
    let mut a = accounts();
    a[2].data.push(0);
    assert_eq!(refusal(plan_epoch_state(&PROGRAM, &a, 12, &RESTAKING, checks(), clock(12))), InstructionError::Failed(INVALID_ACCOUNT_DATA));
}

#[test]
fn program_checks_are_consulted_in_order() {
    let mut c = checks();
    c.account_payer_load = Err(42);
    c.epoch_marker_absent = Err(43);
    assert_eq!(refusal(plan_epoch_state(&PROGRAM, &accounts(), 12, &RESTAKING, c, clock(12))), InstructionError::Failed(42));
    let mut c = checks();
    c.epoch_marker_absent = Err(43);
    assert_eq!(refusal(plan_epoch_state(&PROGRAM, &accounts(), 12, &RESTAKING, c, clock(12))), InstructionError::Failed(43));
}

#[test]
fn documented_five_accounts_are_accepted() {
    assert_eq!(accounts().len(), 5);
    assert!(plan_epoch_state(&PROGRAM, &accounts(), 0, &RESTAKING, checks(), clock(12)).is_ok());
}

#[test]
fn created_epoch_state_is_not_initialized_again() {
    let a = accounts();
    let creation = plan_epoch_state(&PROGRAM, &a, 12, &RESTAKING, checks(), clock(12)).ok().unwrap();
    let mut again = accounts();
    again[1].owner = creation.owner;
    again[1].data = vec![1u8; 16];
    assert_eq!(refusal(plan_epoch_state(&PROGRAM, &again, 12, &RESTAKING, checks(), clock(12))), InstructionError::Failed(INVALID_ACCOUNT_OWNER));
}

#[test]
fn epoch_state_away_from_its_address_is_refused() {
    let mut c = checks();
    c.epoch_state_address = [12u8; 32];
    assert_eq!(refusal(plan_epoch_state(&PROGRAM, &accounts(), 12, &RESTAKING, c, clock(12))), InstructionError::InvalidSeeds);
}

#[test]
fn finishing_records_ncn_epoch_bump_and_slot() {
    let creation = plan_epoch_state(&PROGRAM, &accounts(), 12, &RESTAKING, checks(), clock(12)).ok().unwrap();
    let record = finish_epoch_state(&creation, Ok(()), Ok(()), Ok(ClockReading { slot: 6_000, epoch: 12 })).unwrap();
    assert_eq!(record.ncn, ncn_key());
    assert_eq!(record.epoch, 12);
    assert_eq!(record.bump, 254);
    assert_eq!(record.slot, 6_000);
    assert_eq!(refusal(finish_epoch_state(&creation, Err(1), Err(2), Err(3))), InstructionError::Failed(1));
    assert_eq!(refusal(finish_epoch_state(&creation, Ok(()), Err(2), Err(3))), InstructionError::Failed(2));
    assert_eq!(refusal(finish_epoch_state(&creation, Ok(()), Ok(()), Err(3))), InstructionError::Failed(3));
}

#[test]
fn completing_reads_the_clock_after_creation() {
    let creation = plan_epoch_state(&PROGRAM, &accounts(), 12, &RESTAKING, checks(), clock(12)).ok().unwrap();
    assert_eq!(refusal(complete_initialize_epoch_state(&creation, Err(1), Ok(()))), InstructionError::Failed(1));
    assert_eq!(refusal(complete_initialize_epoch_state(&creation, Ok(()), Err(2))), InstructionError::Failed(2));
    let code = u64::from(ProgramError::UnsupportedSysvar);
    assert_eq!(refusal(complete_initialize_epoch_state(&creation, Ok(()), Ok(()))), InstructionError::Failed(code));
}
