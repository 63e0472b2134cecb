use vstd::prelude::*;
use crate::account::{
    load_system_account, load_system_program, system_account_check, system_program_check,
    system_program_key, AccountSnapshot,
};
use crate::clock::{current_clock, ClockReading};
use crate::keys::{keys_equal, Key};
use crate::ncn::{is_ncn_data, load_ncn, ncn_address, ncn_load_check, ncn_load_panics};
use crate::program_error::InstructionError;

verus! {

/// Number of accounts the epoch-state instruction takes: the epoch marker,
/// the epoch state to create, the NCN, the account payer and the system
/// program, in this order.
pub const EPOCH_STATE_ACCOUNT_COUNT: usize = 5usize;

/// What the NCN program's own account types report for the epoch-state
/// instruction, in the order the instruction consults them: loading the
/// account payer, the check that no epoch marker exists yet, and the
/// program address of the epoch state (its address, bump and seeds).
pub struct EpochStateChecks {
    pub account_payer_load: Result<(), u64>,
    pub epoch_marker_absent: Result<(), u64>,
    pub epoch_state_address: Key,
    pub epoch_state_bump: u8,
    pub epoch_state_seeds: Vec<Vec<u8>>,
}

/// An account the instruction has the payer create: who pays, the new
/// account, the program that will own it, and the signer seeds (the
/// address seeds followed by the bump) that prove the address.
pub struct AccountCreation {
    pub payer: Key,
    pub new_account: Key,
    pub owner: Key,
    pub bump: u8,
    pub seeds: Vec<Vec<u8>>,
    pub ncn: Key,
    pub epoch: u64,
}

/// The values the new epoch state is initialized with.
#[derive(Debug, Clone, Copy)]
pub struct EpochStateRecord {
    pub ncn: Key,
    pub epoch: u64,
    pub bump: u8,
    pub slot: u64,
}

/// The error code of a failed check (meaningful only for a failure).
pub open spec fn failure_code<T>(r: Result<T, u64>) -> u64 {
    match r {
        Ok(_) => 0,
        Err(code) => code,
    }
}

/// The accounts the instruction checks itself before the NCN pass: their
/// number, a fresh writable system account for the epoch state, and the
/// system program.
pub open spec fn epoch_state_account_checks_pass(accounts: Seq<AccountSnapshot>) -> bool {
    &&& accounts.len() == EPOCH_STATE_ACCOUNT_COUNT
    &&& system_account_check(accounts[1].owner@, accounts[1].data@.len(), accounts[1].is_writable, true) is Ok
    &&& system_program_check(accounts[4].key@) is Ok
}

/// Whether the accounts pass the checks the instruction makes itself before
/// loading the NCN: a caller tests this to know whether the NCN account's
/// data must be readable.
pub fn epoch_state_accounts_pass_own_checks(accounts: &Vec<AccountSnapshot>) -> (pass: bool)
    ensures
        pass == epoch_state_account_checks_pass(accounts@),
{
    accounts.len() == EPOCH_STATE_ACCOUNT_COUNT
        && load_system_account(&accounts[1], true).is_ok()
        && load_system_program(&accounts[4]).is_ok()
}

/// The first reason, in the instruction's own order, to refuse the
/// epoch state before the NCN account is loaded.
pub open spec fn epoch_state_refusal_before_ncn(
    accounts: Seq<AccountSnapshot>,
    epoch: u64,
    clock: Result<ClockReading, u64>,
) -> Option<InstructionError> {
    let epoch_state = accounts[1];
    let system_program = accounts[4];
    let state_check = system_account_check(
        epoch_state.owner@,
        epoch_state.data@.len(),
        epoch_state.is_writable,
        true,
    );
    let program_check = system_program_check(system_program.key@);
    if accounts.len() != EPOCH_STATE_ACCOUNT_COUNT {
        Some(InstructionError::NotEnoughAccountKeys)
    } else if clock is Err {
        Some(InstructionError::Failed(failure_code(clock)))
    } else if epoch > clock->Ok_0.epoch {
        Some(InstructionError::InvalidArgument)
    } else if state_check is Err {
        Some(InstructionError::Failed(failure_code(state_check)))
    } else if program_check is Err {
        Some(InstructionError::Failed(failure_code(program_check)))
    } else {
        None
    }
}

/// The first reason, in the instruction's own order, to refuse creating the
/// epoch state; `None` when every check passes.
pub open spec fn epoch_state_refusal(
    accounts: Seq<AccountSnapshot>,
    epoch: u64,
    restaking_program: Seq<u8>,
    checks: EpochStateChecks,
    clock: Result<ClockReading, u64>,
) -> Option<InstructionError> {
    let epoch_state = accounts[1];
    let ncn = accounts[2];
    let ncn_check = ncn_load_check(
        restaking_program,
        ncn.key@,
        ncn.owner@,
        ncn.data@,
        ncn.is_writable,
        false,
        ncn_address(restaking_program, ncn.data@.subrange(8, 40)),
    );
    if epoch_state_refusal_before_ncn(accounts, epoch, clock) is Some {
        epoch_state_refusal_before_ncn(accounts, epoch, clock)
    } else if ncn_check is Err {
        Some(InstructionError::Failed(failure_code(ncn_check)))
    } else if checks.account_payer_load is Err {
        Some(InstructionError::Failed(failure_code(checks.account_payer_load)))
    } else if checks.epoch_marker_absent is Err {
        Some(InstructionError::Failed(failure_code(checks.epoch_marker_absent)))
    } else if checks.epoch_state_address@ != epoch_state.key@ {
        Some(InstructionError::InvalidSeeds)
    } else {
        None
    }
}

/// The creation that an accepted epoch-state instruction asks for.
pub open spec fn epoch_state_creation_matches(
    creation: AccountCreation,
    program_id: Seq<u8>,
    accounts: Seq<AccountSnapshot>,
    epoch: u64,
    checks: EpochStateChecks,
) -> bool {
    &&& creation.payer@ == accounts[3].key@
    &&& creation.new_account@ == accounts[1].key@
    &&& creation.owner@ == program_id
    &&& creation.bump == checks.epoch_state_bump
    &&& creation.seeds.deep_view() == checks.epoch_state_seeds.deep_view().push(seq![checks.epoch_state_bump])
    &&& creation.ncn@ == accounts[2].key@
    &&& creation.epoch == epoch
}

/// Decides the epoch-state instruction for a given clock reading: checks the
/// accounts and the epoch in the instruction's order and, when all pass,
/// says which account to create and with which signer seeds.
pub fn plan_epoch_state(
    program_id: &Key,
    accounts: &Vec<AccountSnapshot>,
    epoch: u64,
    restaking_program: &Key,
    checks: EpochStateChecks,
    clock: Result<ClockReading, u64>,
) -> (r: Result<AccountCreation, InstructionError>)
    requires
        epoch_state_refusal_before_ncn(accounts@, epoch, clock) is None
            ==> !ncn_load_panics(restaking_program@, accounts@[2], false),
    ensures
        match epoch_state_refusal(accounts@, epoch, restaking_program@, checks, clock) {
            Some(e) => r is Err && r->Err_0 == e,
            None => r is Ok && epoch_state_creation_matches(r->Ok_0, program_id@, accounts@, epoch, checks),
        },
{
    if accounts.len() != EPOCH_STATE_ACCOUNT_COUNT {
        return Err(InstructionError::NotEnoughAccountKeys);
    }
    let now = match clock {
        Ok(c) => c,
        Err(code) => return Err(InstructionError::Failed(code)),
    };
    if epoch > now.epoch {
        return Err(InstructionError::InvalidArgument);
    }
    let epoch_state = &accounts[1];
    let ncn = &accounts[2];
    let account_payer = &accounts[3];
    let system_program = &accounts[4];
    if let Err(code) = load_system_account(epoch_state, true) {
        return Err(InstructionError::Failed(code));
    }
    if let Err(code) = load_system_program(system_program) {
        return Err(InstructionError::Failed(code));
    }
    if let Err(code) = load_ncn(restaking_program, ncn, false) {
        return Err(InstructionError::Failed(code));
    }
    if let Err(code) = checks.account_payer_load {
        return Err(InstructionError::Failed(code));
    }
    if let Err(code) = checks.epoch_marker_absent {
        return Err(InstructionError::Failed(code));
    }
    if !keys_equal(&checks.epoch_state_address, &epoch_state.key) {
        return Err(InstructionError::InvalidSeeds);
    }
    let bump = checks.epoch_state_bump;
    let mut seeds = checks.epoch_state_seeds;
    let ghost seeds_before = seeds.deep_view();
    let bump_seed = vec![bump];
    assert(bump_seed.deep_view() =~= seq![bump]);
    seeds.push(bump_seed);
    assert(seeds.deep_view() =~= seeds_before.push(seq![bump]));
    Ok(AccountCreation {
        payer: account_payer.key,
        new_account: epoch_state.key,
        owner: *program_id,
        bump,
        seeds,
        ncn: ncn.key,
        epoch,
    })
}

/// The epoch-state instruction up to the creation of the account: reads
/// the clock, then decides as [`plan_epoch_state`] does. With the wrong
/// number of accounts it refuses before reading the clock.
pub fn process_initialize_epoch_state(
    program_id: &Key,
    accounts: &Vec<AccountSnapshot>,
    epoch: u64,
    restaking_program: &Key,
    checks: EpochStateChecks,
) -> (r: Result<AccountCreation, InstructionError>)
    requires
        epoch_state_account_checks_pass(accounts@) ==> !ncn_load_panics(restaking_program@, accounts@[2], false),
    ensures
        accounts@.len() != EPOCH_STATE_ACCOUNT_COUNT ==> r is Err && r->Err_0 == InstructionError::NotEnoughAccountKeys,
        accounts@.len() == EPOCH_STATE_ACCOUNT_COUNT ==> exists|clock: Result<ClockReading, u64>|
            match #[trigger] epoch_state_refusal(accounts@, epoch, restaking_program@, checks, clock) {
                Some(e) => r is Err && r->Err_0 == e,
                None => r is Ok && epoch_state_creation_matches(r->Ok_0, program_id@, accounts@, epoch, checks),
            },
{
    if accounts.len() != EPOCH_STATE_ACCOUNT_COUNT {
        return Err(InstructionError::NotEnoughAccountKeys);
    }
    let clock = current_clock();
    plan_epoch_state(program_id, accounts, epoch, restaking_program, checks, clock)
}

/// The outcome of the rest of the epoch-state instruction: the payer's
/// creation of the account and the opening of its data must succeed, and the
/// clock must be readable; the epoch state then records the NCN, the epoch,
/// the address bump and the current slot.
pub open spec fn epoch_state_completion(
    creation: AccountCreation,
    created: Result<(), u64>,
    opened: Result<(), u64>,
    clock: Result<ClockReading, u64>,
) -> Result<EpochStateRecord, InstructionError> {
    if created is Err {
        Err(InstructionError::Failed(failure_code(created)))
    } else if opened is Err {
        Err(InstructionError::Failed(failure_code(opened)))
    } else if clock is Err {
        Err(InstructionError::Failed(failure_code(clock)))
    } else {
        Ok(EpochStateRecord {
            ncn: creation.ncn,
            epoch: creation.epoch,
            bump: creation.bump,
            slot: clock->Ok_0.slot,
        })
    }
}

/// The rest of the epoch-state instruction for a given clock reading, once
/// the payer has been asked to create the account (`created`) and the new
/// account's data has been opened as an epoch state (`opened`): the values
/// to initialize the epoch state with.
pub fn finish_epoch_state(
    creation: &AccountCreation,
    created: Result<(), u64>,
    opened: Result<(), u64>,
    clock: Result<ClockReading, u64>,
) -> (r: Result<EpochStateRecord, InstructionError>)
    ensures
        r == epoch_state_completion(*creation, created, opened, clock),
{
    if let Err(code) = created {
        return Err(InstructionError::Failed(code));
    }
    if let Err(code) = opened {
        return Err(InstructionError::Failed(code));
    }
    match clock {
        Ok(now) => Ok(EpochStateRecord {
            ncn: creation.ncn,
            epoch: creation.epoch,
            bump: creation.bump,
            slot: now.slot,
        }),
        Err(code) => Err(InstructionError::Failed(code)),
    }
}

/// The epoch-state instruction after the account's creation: reads the
/// clock again, then finishes as [`finish_epoch_state`] does.
pub fn complete_initialize_epoch_state(
    creation: &AccountCreation,
    created: Result<(), u64>,
    opened: Result<(), u64>,
) -> (r: Result<EpochStateRecord, InstructionError>)
    ensures
        created is Err ==> r is Err && r->Err_0 == InstructionError::Failed(failure_code(created)),
        created is Ok && opened is Err ==> r is Err && r->Err_0 == InstructionError::Failed(failure_code(opened)),
        r matches Ok(record) ==> record.ncn == creation.ncn && record.epoch == creation.epoch && record.bump == creation.bump,
        exists|clock: Result<ClockReading, u64>| r == #[trigger] epoch_state_completion(*creation, created, opened, clock),
{
    if let Err(code) = created {
        assert(epoch_state_completion(*creation, created, opened, Err(0)) == Err::<EpochStateRecord, InstructionError>(InstructionError::Failed(code)));
        return Err(InstructionError::Failed(code));
    }
    if let Err(code) = opened {
        assert(epoch_state_completion(*creation, created, opened, Err(0)) == Err::<EpochStateRecord, InstructionError>(InstructionError::Failed(code)));
        return Err(InstructionError::Failed(code));
    }
    let clock = current_clock();
    finish_epoch_state(creation, created, opened, clock)
}

/// An epoch state is created only for an epoch that has begun, with exactly
/// the accounts the instruction takes, in a
/// writable account that the system program owns and that holds no data,
/// at the epoch state's program address, after every account check passed.
pub proof fn law_epoch_state_creation_guards(
    accounts: Seq<AccountSnapshot>,
    epoch: u64,
    restaking_program: Seq<u8>,
    checks: EpochStateChecks,
    clock: Result<ClockReading, u64>,
)
    requires
        epoch_state_refusal(accounts, epoch, restaking_program, checks, clock) is None,
    ensures
        accounts.len() == EPOCH_STATE_ACCOUNT_COUNT,
        clock is Ok && epoch <= clock->Ok_0.epoch,
        accounts[1].owner@ == system_program_key(),
        accounts[1].data@.len() == 0,
        accounts[1].is_writable,
        accounts[1].key@ == checks.epoch_state_address@,
        accounts[4].key@ == system_program_key(),
        accounts[2].owner@ == restaking_program && is_ncn_data(accounts[2].data@),
        checks.account_payer_load is Ok && checks.epoch_marker_absent is Ok,
{
}

/// The epoch state an accepted instruction initializes describes the NCN
/// account passed to it, the epoch it was asked for, and the bump of the
/// program address it was created at.
pub proof fn law_epoch_state_record_matches_request(
    creation: AccountCreation,
    program_id: Seq<u8>,
    accounts: Seq<AccountSnapshot>,
    epoch: u64,
    checks: EpochStateChecks,
    created: Result<(), u64>,
    opened: Result<(), u64>,
    clock: Result<ClockReading, u64>,
)
    requires
        epoch_state_creation_matches(creation, program_id, accounts, epoch, checks),
        epoch_state_completion(creation, created, opened, clock) is Ok,
    ensures
        ({
            let record = epoch_state_completion(creation, created, opened, clock)->Ok_0;
            &&& record.ncn@ == accounts[2].key@
            &&& record.epoch == epoch
            &&& record.bump == checks.epoch_state_bump
            &&& record.slot == clock->Ok_0.slot
        }),
{
}

/// An accepted instruction changes two accounts only: the epoch state
/// account it creates, which must be writable, and the payer; the marker,
/// the NCN and the system program are only read.
pub proof fn law_epoch_state_changes_only_state_and_payer(
    creation: AccountCreation,
    program_id: Seq<u8>,
    accounts: Seq<AccountSnapshot>,
    epoch: u64,
    restaking_program: Seq<u8>,
    checks: EpochStateChecks,
    clock: Result<ClockReading, u64>,
)
    requires
        epoch_state_refusal(accounts, epoch, restaking_program, checks, clock) is None,
        epoch_state_creation_matches(creation, program_id, accounts, epoch, checks),
    ensures
        creation.new_account@ == accounts[1].key@,
        accounts[1].is_writable,
        creation.payer@ == accounts[3].key@,
{
}

/// An account that the system program does not own, or that holds data, is
/// never made an epoch state: whatever the other accounts, checks and clock,
/// the instruction refuses and asks for no creation.
pub proof fn law_epoch_state_refuses_used_account(
    accounts: Seq<AccountSnapshot>,
    epoch: u64,
    restaking_program: Seq<u8>,
    checks: EpochStateChecks,
    clock: Result<ClockReading, u64>,
)
    requires
        accounts.len() == EPOCH_STATE_ACCOUNT_COUNT,
        accounts[1].owner@ != system_program_key() || accounts[1].data@.len() > 0,
    ensures
        epoch_state_refusal(accounts, epoch, restaking_program, checks, clock) is Some,
{
}

/// An epoch state is initialized at most once: once an accepted instruction
/// has created the account for the program (no longer the system
/// program's), the same instruction again, with any checks and clock,
/// is refused.
pub proof fn law_epoch_state_initialized_once(
    creation: AccountCreation,
    program_id: Seq<u8>,
    accounts: Seq<AccountSnapshot>,
    epoch: u64,
    restaking_program: Seq<u8>,
    checks: EpochStateChecks,
    clock: Result<ClockReading, u64>,
    created_account: AccountSnapshot,
    checks_again: EpochStateChecks,
    clock_again: Result<ClockReading, u64>,
)
    requires
        epoch_state_refusal(accounts, epoch, restaking_program, checks, clock) is None,
        epoch_state_creation_matches(creation, program_id, accounts, epoch, checks),
        program_id != system_program_key(),
        created_account.key@ == creation.new_account@,
        created_account.owner@ == creation.owner@,
    ensures
        epoch_state_refusal(accounts.update(1, created_account), epoch, restaking_program, checks_again, clock_again) is Some,
{
    law_epoch_state_refuses_used_account(accounts.update(1, created_account), epoch, restaking_program, checks_again, clock_again);
}

/// An epoch that has begun is never refused as a future epoch: with a
/// readable clock whose epoch is at least the requested one, the refusal,
/// if any, is not `InvalidArgument`; and a later epoch than the clock's is
/// refused as `InvalidArgument` once the account count is right.
pub proof fn law_epoch_state_future_epoch_only(
    accounts: Seq<AccountSnapshot>,
    epoch: u64,
    restaking_program: Seq<u8>,
    checks: EpochStateChecks,
    now: ClockReading,
)
    ensures
        epoch <= now.epoch ==> epoch_state_refusal(accounts, epoch, restaking_program, checks, Ok(now))
            != Some(InstructionError::InvalidArgument),
        accounts.len() == EPOCH_STATE_ACCOUNT_COUNT && epoch > now.epoch
            ==> epoch_state_refusal(accounts, epoch, restaking_program, checks, Ok(now))
                == Some(InstructionError::InvalidArgument),
{
}

/// The epoch-state instruction accepts whenever every check passes: the
/// documented five accounts, an epoch that has begun, a fresh writable
/// system account at the epoch state's address, the system program, an
/// NCN account of the restaking program at its address, and the NCN
/// program's payer and marker checks.
pub proof fn law_epoch_state_accepts_valid_request(
    accounts: Seq<AccountSnapshot>,
    epoch: u64,
    restaking_program: Seq<u8>,
    checks: EpochStateChecks,
    now: ClockReading,
)
    requires
        accounts.len() == EPOCH_STATE_ACCOUNT_COUNT,
        epoch <= now.epoch,
        accounts[1].owner@ == system_program_key(),
        accounts[1].data@.len() == 0,
        accounts[1].is_writable,
        accounts[1].key@ == checks.epoch_state_address@,
        accounts[4].key@ == system_program_key(),
        accounts[2].owner@ == restaking_program,
        is_ncn_data(accounts[2].data@),
        accounts[2].key@ == ncn_address(restaking_program, accounts[2].data@.subrange(8, 40)),
        checks.account_payer_load is Ok,
        checks.epoch_marker_absent is Ok,
    ensures
        epoch_state_refusal(accounts, epoch, restaking_program, checks, Ok(now)) is None,
{
}

} // verus!
