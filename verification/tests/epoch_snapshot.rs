use jito_restaking_core::ncn::Ncn;
use ncn_epoch::account::AccountSnapshot;
use ncn_epoch::clock::ClockReading;
use ncn_epoch::epoch_snapshot::{
    complete_initialize_epoch_snapshot, plan_epoch_snapshot, process_initialize_epoch_snapshot,
    snapshot_operator_count,
    EpochSnapshotChecks, SnapshotCreation, WeightTableSummary,
};
use ncn_epoch::program_error::{
    InstructionError, ACCOUNT_ALREADY_INITIALIZED, INCORRECT_PROGRAM_ID, INVALID_ACCOUNT_DATA,
    INVALID_ACCOUNT_OWNER,
};
use solana_program::program_error::ProgramError;
use solana_program::pubkey::Pubkey;

const PROGRAM: [u8; 32] = [11u8; 32];
const RESTAKING: [u8; 32] = [9u8; 32];
const BASE: [u8; 32] = [5u8; 32];
const SNAPSHOT: [u8; 32] = [6u8; 32];
const PAYER: [u8; 32] = [4u8; 32];

fn account(key: [u8; 32], owner: [u8; 32], is_writable: bool, data: Vec<u8>) -> AccountSnapshot {
    AccountSnapshot { key, owner, is_signer: false, is_writable, lamports: 1_000_000, data }
}

fn ncn_key() -> [u8; 32] {
    Ncn::find_program_address(&Pubkey::new_from_array(RESTAKING), &Pubkey::new_from_array(BASE)).0.to_bytes()
}

fn ncn_data(operator_count: u64) -> Vec<u8> {
    let mut data = vec![0u8; 592];
    data[0] = 2;
    data[8..40].copy_from_slice(&BASE);
    data[304..312].copy_from_slice(&operator_count.to_le_bytes());
    data
}

fn accounts() -> Vec<AccountSnapshot> {
    vec![
        account([1u8; 32], PROGRAM, false, vec![]),
        account([2u8; 32], PROGRAM, true, vec![1]),
        account([3u8; 32], PROGRAM, false, vec![1]),
        account(ncn_key(), RESTAKING, false, ncn_data(3)),
        account([7u8; 32], PROGRAM, false, vec![1]),
        account(SNAPSHOT, [0u8; 32], true, vec![]),
        account(PAYER, PROGRAM, true, vec![]),
        account([0u8; 32], [0u8; 32], false, vec![]),
    ]
}

fn checks() -> EpochSnapshotChecks {
    EpochSnapshotChecks {
        epoch_state_not_closing: Ok(()),
        config_load: Ok(()),
        account_payer_load: Ok(()),
        epoch_marker_absent: Ok(()),
        weight_table_load: Ok(()),
        weight_table: Ok(WeightTableSummary { finalized: true, vault_count: 4 }),
        epoch_snapshot_address: SNAPSHOT,
        epoch_snapshot_bump: 253,
        epoch_snapshot_seeds: vec![b"epoch_snapshot".to_vec()],
    }
}

fn clock() -> Result<ClockReading, u64> {
    Ok(ClockReading { slot: 9_000, epoch: 20 })
}

fn refusal<T>(r: Result<T, InstructionError>) -> InstructionError {
    match r {
        Err(e) => e,
        Ok(_) => panic!("the instruction was accepted"),
    }
}

fn creation() -> SnapshotCreation {
    plan_epoch_snapshot(&PROGRAM, &accounts(), 20, &RESTAKING, checks(), clock()).ok().unwrap()
}

#[test]
fn accepted_epoch_snapshot_plans_the_creation() {
    let c = creation();
    assert_eq!(c.payer, PAYER);
    assert_eq!(c.new_account, SNAPSHOT);
    assert_eq!(c.owner, PROGRAM);
    assert_eq!(c.bump, 253);
    assert_eq!(c.seeds, vec![b"epoch_snapshot".to_vec(), vec![253u8]]);
    assert_eq!(c.ncn, ncn_key());
    assert_eq!(c.epoch, 20);
    assert_eq!(c.slot, 9_000);
    assert_eq!(c.vault_count, 4);
}

#[test]
fn snapshot_wrong_account_count_is_refused() {
    let mut a = accounts();
    a.pop();
    assert_eq!(refusal(plan_epoch_snapshot(&PROGRAM, &a, 20, &RESTAKING, checks(), clock())), InstructionError::NotEnoughAccountKeys);
    assert_eq!(refusal(process_initialize_epoch_snapshot(&PROGRAM, &a, 20, &RESTAKING, checks())), InstructionError::NotEnoughAccountKeys);
}

#[test]
fn too_many_snapshot_accounts_are_refused() {
    let mut a = accounts();
    a.push(account([14u8; 32], [0u8; 32], true, vec![]));
    assert_eq!(refusal(process_initialize_epoch_snapshot(&PROGRAM, &a, 0, &RESTAKING, checks())), InstructionError::NotEnoughAccountKeys);
}

#[test]
fn created_epoch_snapshot_is_not_initialized_again() {
    let c = creation();
    let mut again = accounts();
    again[5].owner = c.owner;
    again[5].data = vec![1u8; 16];
    assert_eq!(refusal(plan_epoch_snapshot(&PROGRAM, &again, 20, &RESTAKING, checks(), clock())), InstructionError::Failed(INVALID_ACCOUNT_OWNER));
}

#[test]
fn snapshot_off_chain_clock_is_unsupported() {
    let code = u64::from(ProgramError::UnsupportedSysvar);
    assert_eq!(refusal(process_initialize_epoch_snapshot(&PROGRAM, &accounts(), 20, &RESTAKING, checks())), InstructionError::Failed(code));
}

#[test]
fn closing_epoch_is_refused_first() {
    let mut c = checks();
    c.epoch_state_not_closing = Err(50);
    c.config_load = Err(51);
    assert_eq!(refusal(plan_epoch_snapshot(&PROGRAM, &accounts(), 20, &RESTAKING, c, clock())), InstructionError::Failed(50));
}

#[test]
fn unfinalized_weight_table_is_refused() {
    let mut c = checks();
    c.weight_table = Ok(WeightTableSummary { finalized: false, vault_count: 4 });
    assert_eq!(refusal(plan_epoch_snapshot(&PROGRAM, &accounts(), 20, &RESTAKING, c, clock())), InstructionError::WeightTableNotFinalized);
    let mut c = checks();
    c.weight_table = Err(52);
    assert_eq!(refusal(plan_epoch_snapshot(&PROGRAM, &accounts(), 20, &RESTAKING, c, clock())), InstructionError::Failed(52));
}

#[test]
fn snapshot_account_checks() {
    let mut a = accounts();
    a[5].data = vec![1];
    assert_eq!(refusal(plan_epoch_snapshot(&PROGRAM, &a, 20, &RESTAKING, checks(), clock())), InstructionError::Failed(ACCOUNT_ALREADY_INITIALIZED));
    let mut a = accounts();
    a[7].key = [1u8; 32];
    assert_eq!(refusal(plan_epoch_snapshot(&PROGRAM, &a, 20, &RESTAKING, checks(), clock())), InstructionError::Failed(INCORRECT_PROGRAM_ID));
    let mut a = accounts();
    a[3].is_writable = true;
    assert!(plan_epoch_snapshot(&PROGRAM, &a, 20, &RESTAKING, checks(), clock()).is_ok());
    let mut c = checks();
    c.epoch_snapshot_address = [13u8; 32];
    assert_eq!(refusal(plan_epoch_snapshot(&PROGRAM, &accounts(), 20, &RESTAKING, c, clock())), InstructionError::InvalidAccountData);
    assert_eq!(refusal(plan_epoch_snapshot(&PROGRAM, &accounts(), 20, &RESTAKING, checks(), Err(60))), InstructionError::Failed(60));
}

#[test]
fn completion_reads_the_operator_count() {
    let record = complete_initialize_epoch_snapshot(&creation(), Ok(()), &ncn_data(3), Ok(()), Ok("fees"), Ok(())).unwrap();
    assert_eq!(record.operator_count, 3);
    assert_eq!(record.vault_count, 4);
    assert_eq!(record.slot, 9_000);
    assert_eq!(record.epoch, 20);
    assert_eq!(record.bump, 253);
    assert_eq!(record.ncn, ncn_key());
    assert_eq!(record.fees, "fees");
    let record = complete_initialize_epoch_snapshot(&creation(), Ok(()), &ncn_data(0x0102_0304_0506_0708), Ok(()), Ok(0u8), Ok(())).unwrap();
    assert_eq!(record.operator_count, 0x0102_0304_0506_0708);
}

#[test]
fn completion_without_operators_is_refused() {
    let r = complete_initialize_epoch_snapshot(&creation(), Ok(()), &ncn_data(0), Ok(()), Ok(0u8), Ok(()));
    assert_eq!(refusal(r), InstructionError::NoOperators);
}

#[test]
fn completion_failures_in_order() {
    assert_eq!(refusal(complete_initialize_epoch_snapshot(&creation(), Err(1), &ncn_data(0), Err(2), Err::<u8, u64>(3), Err(4))), InstructionError::Failed(1));
    let mut bad = ncn_data(3);
    bad[0] = 1;
    assert_eq!(refusal(complete_initialize_epoch_snapshot(&creation(), Ok(()), &bad, Err(2), Err::<u8, u64>(3), Err(4))), InstructionError::Failed(INVALID_ACCOUNT_DATA));
    assert_eq!(refusal(complete_initialize_epoch_snapshot(&creation(), Ok(()), &ncn_data(3), Err(2), Err::<u8, u64>(3), Err(4))), InstructionError::Failed(2));
    assert_eq!(refusal(complete_initialize_epoch_snapshot(&creation(), Ok(()), &ncn_data(3), Ok(()), Err::<u8, u64>(3), Err(4))), InstructionError::Failed(3));
    assert_eq!(refusal(complete_initialize_epoch_snapshot(&creation(), Ok(()), &ncn_data(3), Ok(()), Ok(0u8), Err(4))), InstructionError::Failed(4));
}

#[test]
fn operator_step_precedes_the_account_writes() {
    assert_eq!(snapshot_operator_count(Ok(()), &ncn_data(5)), Ok(5));
    assert_eq!(snapshot_operator_count(Ok(()), &ncn_data(0)), Err(InstructionError::NoOperators));
    assert_eq!(snapshot_operator_count(Err(8), &ncn_data(5)), Err(InstructionError::Failed(8)));
    let mut short = ncn_data(5);
    short.truncate(100);
    assert_eq!(snapshot_operator_count(Ok(()), &short), Err(InstructionError::Failed(INVALID_ACCOUNT_DATA)));
}
