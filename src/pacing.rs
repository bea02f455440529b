use vstd::prelude::*;

verus! {

/// Nanoseconds of one cycle of the 2 MHz clock.
pub const NS_PER_CYCLE: u64 = 500;

/// Real time that one frame of the host may spend stepping.
pub const MAX_FRAME_NS: u64 = 2_000_000;

/// The cycles that the machine should have run after `elapsed_ns` of real time.
pub fn target_cycles(elapsed_ns: u64) -> (t: u64)
    ensures
        t == elapsed_ns / NS_PER_CYCLE,
{
    elapsed_ns / NS_PER_CYCLE
}

/// Whether the host steps again within a frame: the machine is behind its
/// target and the frame still has real time left.
pub fn keep_stepping(emulated_cycles: u64, target: u64, frame_ns: u64) -> (b: bool)
    ensures
        b == (emulated_cycles < target && frame_ns < MAX_FRAME_NS),
{
    emulated_cycles < target && frame_ns < MAX_FRAME_NS
}

} // verus!
