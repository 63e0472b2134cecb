use vstd::prelude::*;
use crate::account::AccountSnapshot;
use crate::keys::Key;
use crate::program_error::{INVALID_ACCOUNT_DATA, INVALID_ACCOUNT_OWNER};
use jito_bytemuck::AccountDeserialize;
use jito_restaking_core::ncn::Ncn;
use solana_program::account_info::AccountInfo;
use solana_program::pubkey::Pubkey;

verus! {

/// First byte of the data of an NCN account of the restaking program.
pub const NCN_DISCRIMINATOR: u8 = 2u8;

/// Length of the data of an NCN account: an 8-byte header and the 584-byte record.
pub const NCN_DATA_LEN: usize = 592usize;

/// Offset in NCN account data of the little-endian operator count.
pub const NCN_OPERATOR_COUNT_OFFSET: usize = 304usize;

/// The address at which the restaking program keeps the NCN made from
/// `base` (`Ncn::find_program_address(program, base).0`: a program-derived
/// address, a hash of its seeds).
pub uninterp spec fn ncn_address(restaking_program: Seq<u8>, base: Seq<u8>) -> Seq<u8>;

/// The unsigned integer stored little-endian in the 8 bytes at `at`.
pub open spec fn le_u64_at(bytes: Seq<u8>, at: int) -> int {
    bytes[at] as int
        + bytes[at + 1] as int * 0x100
        + bytes[at + 2] as int * 0x1_0000
        + bytes[at + 3] as int * 0x100_0000
        + bytes[at + 4] as int * 0x1_0000_0000
        + bytes[at + 5] as int * 0x100_0000_0000
        + bytes[at + 6] as int * 0x1_0000_0000_0000
        + bytes[at + 7] as int * 0x100_0000_0000_0000
}

/// Eight bytes read little-endian hold an unsigned 64-bit integer.
pub proof fn lemma_le_u64_bounds(bytes: Seq<u8>, at: int)
    requires
        0 <= at,
        at + 8 <= bytes.len(),
    ensures
        0 <= le_u64_at(bytes, at) <= u64::MAX,
{
    let b0 = bytes[at] as int;
    let b1 = bytes[at + 1] as int;
    let b2 = bytes[at + 2] as int;
    let b3 = bytes[at + 3] as int;
    let b4 = bytes[at + 4] as int;
    let b5 = bytes[at + 5] as int;
    let b6 = bytes[at + 6] as int;
    let b7 = bytes[at + 7] as int;
    assert(0 <= b0 + b1 * 0x100 + b2 * 0x1_0000 + b3 * 0x100_0000 + b4 * 0x1_0000_0000
        + b5 * 0x100_0000_0000 + b6 * 0x1_0000_0000_0000 + b7 * 0x100_0000_0000_0000 <= u64::MAX)
        by (nonlinear_arith)
        requires
            0 <= b0 < 256, 0 <= b1 < 256, 0 <= b2 < 256, 0 <= b3 < 256,
            0 <= b4 < 256, 0 <= b5 < 256, 0 <= b6 < 256, 0 <= b7 < 256;
}

/// Whether `data` is the data of an NCN account: its discriminator and length.
pub open spec fn is_ncn_data(data: Seq<u8>) -> bool {
    data.len() == NCN_DATA_LEN && data[0] == NCN_DISCRIMINATOR
}

/// Outcome of loading an account as an NCN of the restaking program, given
/// the address derived from the base recorded in its data.
pub open spec fn ncn_load_check(
    restaking_program: Seq<u8>,
    account_key: Seq<u8>,
    owner: Seq<u8>,
    data: Seq<u8>,
    is_writable: bool,
    expect_writable: bool,
    derived_address: Seq<u8>,
) -> Result<(), u64> {
    if owner != restaking_program {
        Err(INVALID_ACCOUNT_OWNER)
    } else if data.len() == 0 {
        Err(INVALID_ACCOUNT_DATA)
    } else if expect_writable && !is_writable {
        Err(INVALID_ACCOUNT_DATA)
    } else if data[0] != NCN_DISCRIMINATOR {
        Err(INVALID_ACCOUNT_DATA)
    } else if data.len() != NCN_DATA_LEN {
        Err(INVALID_ACCOUNT_DATA)
    } else if account_key != derived_address {
        Err(INVALID_ACCOUNT_DATA)
    } else {
        Ok(())
    }
}

/// Loading the account as an NCN panics: it passes the owner, emptiness,
/// writability and discriminator checks but is shorter than the 8-byte
/// header that the record is read after.
pub open spec fn ncn_load_panics(restaking_program: Seq<u8>, account: AccountSnapshot, expect_writable: bool) -> bool {
    &&& account.owner@ == restaking_program
    &&& account.data@.len() > 0
    &&& (expect_writable ==> account.is_writable)
    &&& account.data@[0] == NCN_DISCRIMINATOR
    &&& account.data@.len() < 8
}

/// Calls `jito_restaking_core::ncn::Ncn::load` on the account. Per its source:
/// the owner must be the restaking program (else `InvalidAccountOwner`); the
/// data must be non-empty, writable where asked, start with the NCN
/// discriminator and hold exactly one NCN record; and the account must sit at
/// the address derived from the record's base (each else `InvalidAccountData`).
/// Data that starts with the discriminator but is shorter than its 8-byte
/// header makes the record read panic, so it is excluded. The address
/// derivation panics only where no bump seed yields an address, which
/// happens with negligible probability and is not excluded here.
#[verifier::external_body]
pub(crate) fn load_ncn(restaking_program: &Key, account: &AccountSnapshot, expect_writable: bool) -> (r: Result<(), u64>)
    requires
        !ncn_load_panics(restaking_program@, *account, expect_writable),
    ensures
        r == ncn_load_check(
            restaking_program@,
            account.key@,
            account.owner@,
            account.data@,
            account.is_writable,
            expect_writable,
            ncn_address(restaking_program@, account.data@.subrange(8, 40)),
        ),
{
    let program = Pubkey::new_from_array(*restaking_program);
    let key = Pubkey::new_from_array(account.key);
    let owner = Pubkey::new_from_array(account.owner);
    let mut lamports = account.lamports;
    let mut data = account.data.clone();
    let info = AccountInfo::new(&key, account.is_signer, account.is_writable, &mut lamports, &mut data, &owner, false, 0);
    Ncn::load(&program, &info, expect_writable).map_err(u64::from)
}

/// Reads the operator count of an NCN account through
/// `Ncn::try_from_slice_unchecked` and `Ncn::operator_count`. Per their
/// source: the data must start with the NCN discriminator and hold exactly one
/// NCN record (else `InvalidAccountData`); the count is the little-endian
/// integer at byte 304. Empty data, and data that starts with the
/// discriminator but is shorter than its 8-byte header, make the read panic.
#[verifier::external_body]
pub(crate) fn ncn_operator_count(data: &Vec<u8>) -> (r: Result<u64, u64>)
    requires
        data@.len() > 0,
        data@[0] == NCN_DISCRIMINATOR ==> data@.len() >= 8,
    ensures
        r == (if is_ncn_data(data@) {
            Ok(le_u64_at(data@, NCN_OPERATOR_COUNT_OFFSET as int) as u64)
        } else {
            Err(INVALID_ACCOUNT_DATA)
        }),
{
    match Ncn::try_from_slice_unchecked(data) {
        Ok(ncn) => Ok(ncn.operator_count()),
        Err(e) => Err(u64::from(e)),
    }
}

} // verus!
