use vstd::prelude::*;
use solana_program::clock::Clock;
use solana_program::sysvar::Sysvar;

verus! {

/// The part of the cluster clock that the instructions read.
#[derive(Debug, Clone, Copy, PartialEq, Eq, Structural)]
pub struct ClockReading {
    pub slot: u64,
    pub epoch: u64,
}

/// Reads the clock sysvar through `Clock::get`. What it returns depends on
/// the cluster (off-chain it fails with `UnsupportedSysvar`), so nothing is
/// stated of it; a failure is returned as its program error code.
#[verifier::external_body]
pub(crate) fn current_clock() -> (r: Result<ClockReading, u64>)
{
    match Clock::get() {
        Ok(clock) => Ok(ClockReading { slot: clock.slot, epoch: clock.epoch }),
        Err(e) => Err(u64::from(e)),
    }
}

} // verus!
