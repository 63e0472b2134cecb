//! Verified core of an NCN epoch program: the account checks and state
//! decisions of the epoch-state and epoch-snapshot instructions, and the
//! selection logic of the keeper's metric reports.

pub mod keys;
pub mod program_error;
pub mod account;
pub mod ncn;
pub mod clock;
pub mod epoch_state;
pub mod epoch_snapshot;
pub mod keeper;
