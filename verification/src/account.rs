use vstd::prelude::*;
use crate::keys::Key;
use crate::program_error::{ACCOUNT_ALREADY_INITIALIZED, INCORRECT_PROGRAM_ID, INVALID_ACCOUNT_DATA, INVALID_ACCOUNT_OWNER};
use solana_program::account_info::AccountInfo;
use solana_program::pubkey::Pubkey;

verus! {

/// What an instruction reads of one account: its address, owner, flags,
/// balance and data.
pub struct AccountSnapshot {
    pub key: Key,
    pub owner: Key,
    pub is_signer: bool,
    pub is_writable: bool,
    pub lamports: u64,
    pub data: Vec<u8>,
}

/// The address of the system program: 32 zero bytes
/// ("11111111111111111111111111111111" in base58).
pub open spec fn system_program_key() -> Seq<u8> {
    Seq::new(32, |i: int| 0u8)
}

/// Outcome of the system-account check: owned by the system program,
/// no data yet, and writable where that is asked for.
pub open spec fn system_account_check(owner: Seq<u8>, data_len: nat, is_writable: bool, expect_writable: bool) -> Result<(), u64> {
    if owner != system_program_key() {
        Err(INVALID_ACCOUNT_OWNER)
    } else if data_len != 0 {
        Err(ACCOUNT_ALREADY_INITIALIZED)
    } else if expect_writable && !is_writable {
        Err(INVALID_ACCOUNT_DATA)
    } else {
        Ok(())
    }
}

/// Outcome of the system-program check: the account is the system program.
pub open spec fn system_program_check(key: Seq<u8>) -> Result<(), u64> {
    if key != system_program_key() {
        Err(INCORRECT_PROGRAM_ID)
    } else {
        Ok(())
    }
}

/// Calls `jito_jsm_core::loader::load_system_account` on the account.
/// Its source checks, in this order, that the owner is the system program
/// (else `InvalidAccountOwner`), that the data is empty (else
/// `AccountAlreadyInitialized`) and, when `expect_writable`, that the account
/// is writable (else `InvalidAccountData`); the error is returned as its code.
#[verifier::external_body]
pub(crate) fn load_system_account(account: &AccountSnapshot, expect_writable: bool) -> (r: Result<(), u64>)
    ensures
        r == system_account_check(account.owner@, account.data@.len(), account.is_writable, expect_writable),
{
    let key = Pubkey::new_from_array(account.key);
    let owner = Pubkey::new_from_array(account.owner);
    let mut lamports = account.lamports;
    let mut data = account.data.clone();
    let info = AccountInfo::new(&key, account.is_signer, account.is_writable, &mut lamports, &mut data, &owner, false, 0);
    jito_jsm_core::loader::load_system_account(&info, expect_writable).map_err(u64::from)
}

/// Calls `jito_jsm_core::loader::load_system_program` on the account.
/// Its source returns `IncorrectProgramId` (as its code) unless the account's
/// address is the system program's.
#[verifier::external_body]
pub(crate) fn load_system_program(account: &AccountSnapshot) -> (r: Result<(), u64>)
    ensures
        r == system_program_check(account.key@),
{
    let key = Pubkey::new_from_array(account.key);
    let owner = Pubkey::new_from_array(account.owner);
    let mut lamports = account.lamports;
    let mut data = account.data.clone();
    let info = AccountInfo::new(&key, account.is_signer, account.is_writable, &mut lamports, &mut data, &owner, false, 0);
    jito_jsm_core::loader::load_system_program(&info).map_err(u64::from)
}

} // verus!
