use ncn_epoch::keys::keys_equal;
use ncn_epoch::program_error::{
    ACCOUNT_ALREADY_INITIALIZED, INCORRECT_PROGRAM_ID, INVALID_ACCOUNT_DATA, INVALID_ACCOUNT_OWNER,
};
use solana_program::program_error::ProgramError;

#[test]
fn error_codes_match_program_errors() {
    assert_eq!(u64::from(ProgramError::InvalidAccountData), INVALID_ACCOUNT_DATA);
    assert_eq!(u64::from(ProgramError::IncorrectProgramId), INCORRECT_PROGRAM_ID);
    assert_eq!(u64::from(ProgramError::AccountAlreadyInitialized), ACCOUNT_ALREADY_INITIALIZED);
    assert_eq!(u64::from(ProgramError::InvalidAccountOwner), INVALID_ACCOUNT_OWNER);
}

#[test]
fn keys_compare_bytewise() {
    let a = [7u8; 32];
    let mut b = [7u8; 32];
    assert!(keys_equal(&a, &b));
    b[31] = 8;
    assert!(!keys_equal(&a, &b));
    b[31] = 7;
    b[0] = 0;
    assert!(!keys_equal(&a, &b));
}

#[test]
fn system_program_address_is_zero_bytes() {
    assert_eq!(solana_program::system_program::id().to_bytes(), [0u8; 32]);
}
