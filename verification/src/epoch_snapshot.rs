use vstd::prelude::*;
use crate::account::{
    load_system_account, load_system_program, system_account_check, system_program_check,
    system_program_key, AccountSnapshot,
};
use crate::clock::{current_clock, ClockReading};
use crate::epoch_state::failure_code;
use crate::keys::{keys_equal, Key};
use crate::ncn::{
    is_ncn_data, le_u64_at, lemma_le_u64_bounds, load_ncn, ncn_address, ncn_load_check, ncn_load_panics, ncn_operator_count,
    NCN_DISCRIMINATOR, NCN_OPERATOR_COUNT_OFFSET,
};
use crate::program_error::{InstructionError, INVALID_ACCOUNT_DATA};

verus! {

/// Number of accounts the epoch-snapshot instruction takes: the epoch
/// marker, the epoch state, the config, the NCN, the weight table, the
/// epoch snapshot to create, the account payer and the system program, in
/// this order.
pub const EPOCH_SNAPSHOT_ACCOUNT_COUNT: usize = 8usize;

/// What the instruction reads of the epoch's weight table.
#[derive(Debug, Clone, Copy)]
pub struct WeightTableSummary {
    pub finalized: bool,
    pub vault_count: u64,
}

/// What the NCN program's own account types report for the epoch-snapshot
/// instruction, in the order the instruction consults them: that the epoch
/// state is there and the epoch is not closing, loading the config and the
/// account payer, the check that no epoch marker exists yet, loading and
/// reading the weight table, and the program address of the epoch snapshot
/// (its address, bump and seeds).
pub struct EpochSnapshotChecks {
    pub epoch_state_not_closing: Result<(), u64>,
    pub config_load: Result<(), u64>,
    pub account_payer_load: Result<(), u64>,
    pub epoch_marker_absent: Result<(), u64>,
    pub weight_table_load: Result<(), u64>,
    pub weight_table: Result<WeightTableSummary, u64>,
    pub epoch_snapshot_address: Key,
    pub epoch_snapshot_bump: u8,
    pub epoch_snapshot_seeds: Vec<Vec<u8>>,
}

/// The epoch snapshot an accepted instruction asks the payer to create,
/// with what it already knows of its contents.
pub struct SnapshotCreation {
    pub payer: Key,
    pub new_account: Key,
    pub owner: Key,
    pub bump: u8,
    pub seeds: Vec<Vec<u8>>,
    pub ncn: Key,
    pub epoch: u64,
    pub slot: u64,
    pub vault_count: u64,
}

/// The values the new epoch snapshot is made from, and the operator count
/// the epoch state records for the snapshot's progress.
#[derive(Debug)]
pub struct EpochSnapshotRecord<F> {
    pub ncn: Key,
    pub epoch: u64,
    pub bump: u8,
    pub slot: u64,
    pub operator_count: u64,
    pub vault_count: u64,
    pub fees: F,
}

/// The instruction reaches the NCN load: the accounts are complete, the
/// epoch state is open and the config loads.
pub open spec fn epoch_snapshot_reaches_ncn_load(accounts: Seq<AccountSnapshot>, checks: EpochSnapshotChecks) -> bool {
    &&& accounts.len() == EPOCH_SNAPSHOT_ACCOUNT_COUNT
    &&& checks.epoch_state_not_closing is Ok
    &&& checks.config_load is Ok
}

/// The first reason, in the instruction's own order, to refuse creating the
/// epoch snapshot; `None` when every check passes.
pub open spec fn epoch_snapshot_refusal(
    accounts: Seq<AccountSnapshot>,
    restaking_program: Seq<u8>,
    checks: EpochSnapshotChecks,
    clock: Result<ClockReading, u64>,
) -> Option<InstructionError> {
    let ncn = accounts[3];
    let epoch_snapshot = accounts[5];
    let system_program = accounts[7];
    let ncn_check = ncn_load_check(
        restaking_program,
        ncn.key@,
        ncn.owner@,
        ncn.data@,
        ncn.is_writable,
        false,
        ncn_address(restaking_program, ncn.data@.subrange(8, 40)),
    );
    let snapshot_check = system_account_check(
        epoch_snapshot.owner@,
        epoch_snapshot.data@.len(),
        epoch_snapshot.is_writable,
        true,
    );
    let program_check = system_program_check(system_program.key@);
    if accounts.len() != EPOCH_SNAPSHOT_ACCOUNT_COUNT {
        Some(InstructionError::NotEnoughAccountKeys)
    } else if checks.epoch_state_not_closing is Err {
        Some(InstructionError::Failed(failure_code(checks.epoch_state_not_closing)))
    } else if checks.config_load is Err {
        Some(InstructionError::Failed(failure_code(checks.config_load)))
    } else if ncn_check is Err {
        Some(InstructionError::Failed(failure_code(ncn_check)))
    } else if checks.account_payer_load is Err {
        Some(InstructionError::Failed(failure_code(checks.account_payer_load)))
    } else if checks.epoch_marker_absent is Err {
        Some(InstructionError::Failed(failure_code(checks.epoch_marker_absent)))
    } else if snapshot_check is Err {
        Some(InstructionError::Failed(failure_code(snapshot_check)))
    } else if program_check is Err {
        Some(InstructionError::Failed(failure_code(program_check)))
    } else if clock is Err {
        Some(InstructionError::Failed(failure_code(clock)))
    } else if checks.weight_table_load is Err {
        Some(InstructionError::Failed(failure_code(checks.weight_table_load)))
    } else if checks.weight_table is Err {
        Some(InstructionError::Failed(failure_code(checks.weight_table)))
    } else if !checks.weight_table->Ok_0.finalized {
        Some(InstructionError::WeightTableNotFinalized)
    } else if checks.epoch_snapshot_address@ != epoch_snapshot.key@ {
        Some(InstructionError::InvalidAccountData)
    } else {
        None
    }
}

/// The creation that an accepted epoch-snapshot instruction asks for.
pub open spec fn snapshot_creation_matches(
    creation: SnapshotCreation,
    program_id: Seq<u8>,
    accounts: Seq<AccountSnapshot>,
    epoch: u64,
    checks: EpochSnapshotChecks,
    clock: Result<ClockReading, u64>,
) -> bool {
    &&& creation.payer@ == accounts[6].key@
    &&& creation.new_account@ == accounts[5].key@
    &&& creation.owner@ == program_id
    &&& creation.bump == checks.epoch_snapshot_bump
    &&& creation.seeds.deep_view() == checks.epoch_snapshot_seeds.deep_view().push(seq![checks.epoch_snapshot_bump])
    &&& creation.ncn@ == accounts[3].key@
    &&& creation.epoch == epoch
    &&& creation.slot == clock->Ok_0.slot
    &&& creation.vault_count == checks.weight_table->Ok_0.vault_count
}

/// Decides the epoch-snapshot instruction for a given clock reading: checks
/// the accounts in the instruction's order, requires a finalized weight
/// table and the snapshot account at its program address, and says which
/// account to create with which signer seeds.
pub fn plan_epoch_snapshot(
    program_id: &Key,
    accounts: &Vec<AccountSnapshot>,
    epoch: u64,
    restaking_program: &Key,
    checks: EpochSnapshotChecks,
    clock: Result<ClockReading, u64>,
) -> (r: Result<SnapshotCreation, InstructionError>)
    requires
        epoch_snapshot_reaches_ncn_load(accounts@, checks) ==> !ncn_load_panics(restaking_program@, accounts@[3], false),
    ensures
        match epoch_snapshot_refusal(accounts@, restaking_program@, checks, clock) {
            Some(e) => r is Err && r->Err_0 == e,
            None => r is Ok && snapshot_creation_matches(r->Ok_0, program_id@, accounts@, epoch, checks, clock),
        },
{
    if accounts.len() != EPOCH_SNAPSHOT_ACCOUNT_COUNT {
        return Err(InstructionError::NotEnoughAccountKeys);
    }
    let ncn = &accounts[3];
    let epoch_snapshot = &accounts[5];
    let account_payer = &accounts[6];
    let system_program = &accounts[7];
    if let Err(code) = checks.epoch_state_not_closing {
        return Err(InstructionError::Failed(code));
    }
    if let Err(code) = checks.config_load {
        return Err(InstructionError::Failed(code));
    }
    if let Err(code) = load_ncn(restaking_program, ncn, false) {
        return Err(InstructionError::Failed(code));
    }
    if let Err(code) = checks.account_payer_load {
        return Err(InstructionError::Failed(code));
    }
    if let Err(code) = checks.epoch_marker_absent {
        return Err(InstructionError::Failed(code));
    }
    if let Err(code) = load_system_account(epoch_snapshot, true) {
        return Err(InstructionError::Failed(code));
    }
    if let Err(code) = load_system_program(system_program) {
        return Err(InstructionError::Failed(code));
    }
    let now = match clock {
        Ok(c) => c,
        Err(code) => return Err(InstructionError::Failed(code)),
    };
    if let Err(code) = checks.weight_table_load {
        return Err(InstructionError::Failed(code));
    }
    let weight_table = match checks.weight_table {
        Ok(w) => w,
        Err(code) => return Err(InstructionError::Failed(code)),
    };
    if !weight_table.finalized {
        return Err(InstructionError::WeightTableNotFinalized);
    }
    if !keys_equal(&checks.epoch_snapshot_address, &epoch_snapshot.key) {
        return Err(InstructionError::InvalidAccountData);
    }
    let bump = checks.epoch_snapshot_bump;
    let mut seeds = checks.epoch_snapshot_seeds;
    let ghost seeds_before = seeds.deep_view();
    let bump_seed = vec![bump];
    assert(bump_seed.deep_view() =~= seq![bump]);
    seeds.push(bump_seed);
    assert(seeds.deep_view() =~= seeds_before.push(seq![bump]));
    Ok(SnapshotCreation {
        payer: account_payer.key,
        new_account: epoch_snapshot.key,
        owner: *program_id,
        bump,
        seeds,
        ncn: ncn.key,
        epoch,
        slot: now.slot,
        vault_count: weight_table.vault_count,
    })
}

/// The epoch-snapshot instruction up to the creation of the account: reads
/// the clock, then decides as [`plan_epoch_snapshot`] does. With the wrong
/// number of accounts it refuses before reading the clock.
pub fn process_initialize_epoch_snapshot(
    program_id: &Key,
    accounts: &Vec<AccountSnapshot>,
    epoch: u64,
    restaking_program: &Key,
    checks: EpochSnapshotChecks,
) -> (r: Result<SnapshotCreation, InstructionError>)
    requires
        epoch_snapshot_reaches_ncn_load(accounts@, checks) ==> !ncn_load_panics(restaking_program@, accounts@[3], false),
    ensures
        accounts@.len() != EPOCH_SNAPSHOT_ACCOUNT_COUNT ==> r is Err && r->Err_0 == InstructionError::NotEnoughAccountKeys,
        accounts@.len() == EPOCH_SNAPSHOT_ACCOUNT_COUNT ==> exists|clock: Result<ClockReading, u64>|
            match #[trigger] epoch_snapshot_refusal(accounts@, restaking_program@, checks, clock) {
                Some(e) => r is Err && r->Err_0 == e,
                None => r is Ok && snapshot_creation_matches(r->Ok_0, program_id@, accounts@, epoch, checks, clock),
            },
{
    if accounts.len() != EPOCH_SNAPSHOT_ACCOUNT_COUNT {
        return Err(InstructionError::NotEnoughAccountKeys);
    }
    let clock = current_clock();
    plan_epoch_snapshot(program_id, accounts, epoch, restaking_program, checks, clock)
}

/// The outcome of the rest of the epoch-snapshot instruction once the payer
/// has been asked to create the account (`created`): the NCN's operator
/// count must be readable and positive, the new account must open as an
/// epoch snapshot (`snapshot_opened`), the config's current fees must be
/// readable (`fees`), and the epoch state must open for its update
/// (`epoch_state_opened`).
pub open spec fn snapshot_completion<F>(
    creation: SnapshotCreation,
    created: Result<(), u64>,
    ncn_data: Seq<u8>,
    snapshot_opened: Result<(), u64>,
    fees: Result<F, u64>,
    epoch_state_opened: Result<(), u64>,
) -> Result<EpochSnapshotRecord<F>, InstructionError> {
    let operator_count = le_u64_at(ncn_data, NCN_OPERATOR_COUNT_OFFSET as int) as u64;
    if created is Err {
        Err(InstructionError::Failed(failure_code(created)))
    } else if !is_ncn_data(ncn_data) {
        Err(InstructionError::Failed(INVALID_ACCOUNT_DATA))
    } else if operator_count == 0 {
        Err(InstructionError::NoOperators)
    } else if snapshot_opened is Err {
        Err(InstructionError::Failed(failure_code(snapshot_opened)))
    } else if fees is Err {
        Err(InstructionError::Failed(failure_code(fees)))
    } else if epoch_state_opened is Err {
        Err(InstructionError::Failed(failure_code(epoch_state_opened)))
    } else {
        Ok(EpochSnapshotRecord {
            ncn: creation.ncn,
            epoch: creation.epoch,
            bump: creation.bump,
            slot: creation.slot,
            operator_count,
            vault_count: creation.vault_count,
            fees: fees->Ok_0,
        })
    }
}

/// The first step after the account's creation: the creation must have
/// succeeded and the NCN must report at least one operator; gives the
/// operator count.
pub open spec fn snapshot_operator_step(created: Result<(), u64>, ncn_data: Seq<u8>) -> Result<u64, InstructionError> {
    let operator_count = le_u64_at(ncn_data, NCN_OPERATOR_COUNT_OFFSET as int) as u64;
    if created is Err {
        Err(InstructionError::Failed(failure_code(created)))
    } else if !is_ncn_data(ncn_data) {
        Err(InstructionError::Failed(INVALID_ACCOUNT_DATA))
    } else if operator_count == 0 {
        Err(InstructionError::NoOperators)
    } else {
        Ok(operator_count)
    }
}

/// The first step after the account's creation, as
/// [`snapshot_operator_step`] states it: a caller takes it before opening
/// the new account, reading the fees and opening the epoch state, which
/// the instruction does only once the NCN has operators.
pub fn snapshot_operator_count(created: Result<(), u64>, ncn_data: &Vec<u8>) -> (r: Result<u64, InstructionError>)
    requires
        created is Ok ==> ncn_data@.len() > 0,
        created is Ok && ncn_data@[0] == NCN_DISCRIMINATOR ==> ncn_data@.len() >= 8,
    ensures
        r == snapshot_operator_step(created, ncn_data@),
{
    if let Err(code) = created {
        return Err(InstructionError::Failed(code));
    }
    let operator_count = match ncn_operator_count(ncn_data) {
        Ok(count) => count,
        Err(code) => return Err(InstructionError::Failed(code)),
    };
    if operator_count == 0 {
        return Err(InstructionError::NoOperators);
    }
    Ok(operator_count)
}

/// The rest of the epoch-snapshot instruction after the account's
/// creation, as [`snapshot_completion`] states it. `ncn_data` is the data of
/// the NCN account, which the first part of the instruction accepted.
pub fn complete_initialize_epoch_snapshot<F>(
    creation: &SnapshotCreation,
    created: Result<(), u64>,
    ncn_data: &Vec<u8>,
    snapshot_opened: Result<(), u64>,
    fees: Result<F, u64>,
    epoch_state_opened: Result<(), u64>,
) -> (r: Result<EpochSnapshotRecord<F>, InstructionError>)
    requires
        created is Ok ==> ncn_data@.len() > 0,
        created is Ok && ncn_data@[0] == NCN_DISCRIMINATOR ==> ncn_data@.len() >= 8,
    ensures
        r == snapshot_completion(*creation, created, ncn_data@, snapshot_opened, fees, epoch_state_opened),
{
    let operator_count = match snapshot_operator_count(created, ncn_data) {
        Ok(count) => count,
        Err(e) => return Err(e),
    };
    if let Err(code) = snapshot_opened {
        return Err(InstructionError::Failed(code));
    }
    let fees = match fees {
        Ok(f) => f,
        Err(code) => return Err(InstructionError::Failed(code)),
    };
    if let Err(code) = epoch_state_opened {
        return Err(InstructionError::Failed(code));
    }
    Ok(EpochSnapshotRecord {
        ncn: creation.ncn,
        epoch: creation.epoch,
        bump: creation.bump,
        slot: creation.slot,
        operator_count,
        vault_count: creation.vault_count,
        fees,
    })
}

/// An epoch snapshot is created only with exactly the accounts the
/// instruction takes, once the epoch state, config, NCN, payer and marker
/// checks pass, for a finalized weight table, in a writable account that the
/// system program owns and that holds no data, at the snapshot's program
/// address, with the clock readable.
pub proof fn law_epoch_snapshot_creation_guards(
    accounts: Seq<AccountSnapshot>,
    restaking_program: Seq<u8>,
    checks: EpochSnapshotChecks,
    clock: Result<ClockReading, u64>,
)
    requires
        epoch_snapshot_refusal(accounts, restaking_program, checks, clock) is None,
    ensures
        accounts.len() == EPOCH_SNAPSHOT_ACCOUNT_COUNT,
        checks.epoch_state_not_closing is Ok && checks.config_load is Ok,
        checks.account_payer_load is Ok && checks.epoch_marker_absent is Ok,
        checks.weight_table_load is Ok,
        checks.weight_table is Ok && checks.weight_table->Ok_0.finalized,
        accounts[3].owner@ == restaking_program && is_ncn_data(accounts[3].data@),
        accounts[5].owner@ == system_program_key(),
        accounts[5].data@.len() == 0,
        accounts[5].is_writable,
        accounts[5].key@ == checks.epoch_snapshot_address@,
        accounts[7].key@ == system_program_key(),
        clock is Ok,
{
}

/// A completed epoch snapshot counts at least one operator, the NCN's own
/// operator count, and carries the NCN, epoch, bump, slot and vault count
/// that the accepted instruction fixed before creating the account.
pub proof fn law_epoch_snapshot_record_matches_request<F>(
    creation: SnapshotCreation,
    program_id: Seq<u8>,
    accounts: Seq<AccountSnapshot>,
    epoch: u64,
    checks: EpochSnapshotChecks,
    clock: Result<ClockReading, u64>,
    created: Result<(), u64>,
    snapshot_opened: Result<(), u64>,
    fees: Result<F, u64>,
    epoch_state_opened: Result<(), u64>,
)
    requires
        snapshot_creation_matches(creation, program_id, accounts, epoch, checks, clock),
        snapshot_completion(creation, created, accounts[3].data@, snapshot_opened, fees, epoch_state_opened) is Ok,
    ensures
        ({
            let record = snapshot_completion(creation, created, accounts[3].data@, snapshot_opened, fees, epoch_state_opened)->Ok_0;
            &&& record.operator_count > 0
            &&& record.operator_count == le_u64_at(accounts[3].data@, NCN_OPERATOR_COUNT_OFFSET as int)
            &&& record.ncn@ == accounts[3].key@
            &&& record.epoch == epoch
            &&& record.bump == checks.epoch_snapshot_bump
            &&& record.slot == clock->Ok_0.slot
            &&& record.vault_count == checks.weight_table->Ok_0.vault_count
            &&& record.fees == fees->Ok_0
        }),
{
    let count = le_u64_at(accounts[3].data@, NCN_OPERATOR_COUNT_OFFSET as int);
    assert(0 <= count < 0x1_0000_0000_0000_0000) by {
        lemma_le_u64_bounds(accounts[3].data@, NCN_OPERATOR_COUNT_OFFSET as int);
    }
}

/// An accepted instruction changes three accounts only: the epoch snapshot
/// account it creates, which must be writable, the payer, and the epoch
/// state whose snapshot progress it records; the marker, config, NCN,
/// weight table and system program are only read.
pub proof fn law_epoch_snapshot_changes_only_named_accounts(
    creation: SnapshotCreation,
    program_id: Seq<u8>,
    accounts: Seq<AccountSnapshot>,
    epoch: u64,
    restaking_program: Seq<u8>,
    checks: EpochSnapshotChecks,
    clock: Result<ClockReading, u64>,
)
    requires
        epoch_snapshot_refusal(accounts, restaking_program, checks, clock) is None,
        snapshot_creation_matches(creation, program_id, accounts, epoch, checks, clock),
    ensures
        creation.new_account@ == accounts[5].key@,
        accounts[5].is_writable,
        creation.payer@ == accounts[6].key@,
{
}

/// An account that the system program does not own, or that holds data, is
/// never made an epoch snapshot: whatever the other accounts, checks and
/// clock, the instruction refuses and asks for no creation.
pub proof fn law_epoch_snapshot_refuses_used_account(
    accounts: Seq<AccountSnapshot>,
    restaking_program: Seq<u8>,
    checks: EpochSnapshotChecks,
    clock: Result<ClockReading, u64>,
)
    requires
        accounts.len() == EPOCH_SNAPSHOT_ACCOUNT_COUNT,
        accounts[5].owner@ != system_program_key() || accounts[5].data@.len() > 0,
    ensures
        epoch_snapshot_refusal(accounts, restaking_program, checks, clock) is Some,
{
}

/// An epoch snapshot is initialized at most once: once an accepted
/// instruction has created the account for the program (no longer the
/// system program's), the same instruction again, with any checks and
/// clock, is refused.
pub proof fn law_epoch_snapshot_initialized_once(
    creation: SnapshotCreation,
    program_id: Seq<u8>,
    accounts: Seq<AccountSnapshot>,
    epoch: u64,
    restaking_program: Seq<u8>,
    checks: EpochSnapshotChecks,
    clock: Result<ClockReading, u64>,
    created_account: AccountSnapshot,
    checks_again: EpochSnapshotChecks,
    clock_again: Result<ClockReading, u64>,
)
    requires
        epoch_snapshot_refusal(accounts, restaking_program, checks, clock) is None,
        snapshot_creation_matches(creation, program_id, accounts, epoch, checks, clock),
        program_id != system_program_key(),
        created_account.key@ == creation.new_account@,
        created_account.owner@ == creation.owner@,
    ensures
        epoch_snapshot_refusal(accounts.update(5, created_account), restaking_program, checks_again, clock_again) is Some,
{
    law_epoch_snapshot_refuses_used_account(accounts.update(5, created_account), restaking_program, checks_again, clock_again);
}

/// A created snapshot is refused for want of operators exactly when the
/// NCN reports none: with readable NCN data, an operator count of at least
/// one and every account step succeeding, the snapshot is completed and
/// records that count; with a count of zero it is refused with
/// `NoOperators`.
pub proof fn law_snapshot_needs_exactly_some_operator<F>(
    creation: SnapshotCreation,
    ncn_data: Seq<u8>,
    fees: F,
)
    requires
        is_ncn_data(ncn_data),
    ensures
        le_u64_at(ncn_data, NCN_OPERATOR_COUNT_OFFSET as int) >= 1 ==> ({
            let r = snapshot_completion(creation, Ok(()), ncn_data, Ok(()), Ok::<F, u64>(fees), Ok(()));
            &&& r is Ok
            &&& r->Ok_0.operator_count == le_u64_at(ncn_data, NCN_OPERATOR_COUNT_OFFSET as int)
            &&& r->Ok_0.ncn == creation.ncn
            &&& r->Ok_0.epoch == creation.epoch
            &&& r->Ok_0.bump == creation.bump
            &&& r->Ok_0.slot == creation.slot
            &&& r->Ok_0.vault_count == creation.vault_count
            &&& r->Ok_0.fees == fees
        }),
        le_u64_at(ncn_data, NCN_OPERATOR_COUNT_OFFSET as int) == 0 ==> ({
            let r = snapshot_completion(creation, Ok(()), ncn_data, Ok(()), Ok::<F, u64>(fees), Ok(()));
            r is Err && r->Err_0 == InstructionError::NoOperators
        }),
        le_u64_at(ncn_data, NCN_OPERATOR_COUNT_OFFSET as int) >= 1
            ==> snapshot_operator_step(Ok(()), ncn_data) == Ok::<u64, InstructionError>(
                le_u64_at(ncn_data, NCN_OPERATOR_COUNT_OFFSET as int) as u64),
{
    lemma_le_u64_bounds(ncn_data, NCN_OPERATOR_COUNT_OFFSET as int);
}

/// The snapshot instruction accepts whenever every check passes: the exact
/// number of accounts, the NCN program's checks, an NCN account of the
/// restaking program at its address, a fresh writable system account at
/// the snapshot's address, the system program, a readable clock and a
/// finalized weight table.
pub proof fn law_epoch_snapshot_accepts_valid_request(
    accounts: Seq<AccountSnapshot>,
    restaking_program: Seq<u8>,
    checks: EpochSnapshotChecks,
    clock: Result<ClockReading, u64>,
)
    requires
        accounts.len() == EPOCH_SNAPSHOT_ACCOUNT_COUNT,
        checks.epoch_state_not_closing is Ok,
        checks.config_load is Ok,
        checks.account_payer_load is Ok,
        checks.epoch_marker_absent is Ok,
        checks.weight_table_load is Ok,
        checks.weight_table is Ok && checks.weight_table->Ok_0.finalized,
        accounts[3].owner@ == restaking_program,
        is_ncn_data(accounts[3].data@),
        accounts[3].key@ == ncn_address(restaking_program, accounts[3].data@.subrange(8, 40)),
        accounts[5].owner@ == system_program_key(),
        accounts[5].data@.len() == 0,
        accounts[5].is_writable,
        accounts[5].key@ == checks.epoch_snapshot_address@,
        accounts[7].key@ == system_program_key(),
        clock is Ok,
    ensures
        epoch_snapshot_refusal(accounts, restaking_program, checks, clock) is None,
{
}

} // verus!
