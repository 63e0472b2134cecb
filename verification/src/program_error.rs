use vstd::prelude::*;

verus! {

/// Program error code of `InvalidAccountData` (builtin error 4, shifted into the upper word).
pub const INVALID_ACCOUNT_DATA: u64 = 0x4_0000_0000u64;

/// Program error code of `IncorrectProgramId` (builtin error 7).
pub const INCORRECT_PROGRAM_ID: u64 = 0x7_0000_0000u64;

/// Program error code of `AccountAlreadyInitialized` (builtin error 9).
pub const ACCOUNT_ALREADY_INITIALIZED: u64 = 0x9_0000_0000u64;

/// Program error code of `InvalidAccountOwner` (builtin error 23).
pub const INVALID_ACCOUNT_OWNER: u64 = 0x17_0000_0000u64;

/// Why an instruction was refused.
///
/// The first variants are the refusals that the instructions decide
/// themselves; `Failed` carries, as its program error code, the error of a
/// check or an account operation that the instruction relies on.
#[derive(Debug, Clone, Copy, PartialEq, Eq, Structural)]
pub enum InstructionError {
    /// Fewer or more accounts than the instruction takes.
    NotEnoughAccountKeys,
    /// An epoch argument outside the range the instruction accepts.
    InvalidArgument,
    /// The account to create is not at the expected program address (epoch state).
    InvalidSeeds,
    /// The account to create is not at the expected program address (epoch snapshot).
    InvalidAccountData,
    /// The weight table of the epoch is not finalized yet.
    WeightTableNotFinalized,
    /// The NCN has no operators to snapshot.
    NoOperators,
    /// A check or account operation failed with this program error code.
    Failed(u64),
}

} // verus!
