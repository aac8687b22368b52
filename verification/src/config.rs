use vstd::prelude::*;

verus! {

/// Ticks per second of every client and AI loop.
pub const TICK_RATE: u64 = 30;

/// Shortest length of one tick, in milliseconds (1000 / 30, rounded down).
pub const MIN_TICK_LENGTH_MS: u64 = 1000 / TICK_RATE;

/// Shortest length of one tick, in nanoseconds.
pub const MIN_TICK_LENGTH_NANOS: u64 = MIN_TICK_LENGTH_MS * 1_000_000;

/// Size of a read buffer.
pub const BUFFER_SIZE: usize = 2048;

/// The highest AI processor id; processors `0..=NUMBER_OF_PROCESSORS` run.
pub const NUMBER_OF_PROCESSORS: u8 = 1;

/// Intended number of AI entities per processor.
pub const AI_ENTITIES_PER_PROCESSOR: u8 = 100;

/// How long a loop sleeps after a tick that took `elapsed_nanos`: the rest of
/// the minimum tick length, or nothing when the tick already took that long.
pub fn remaining_tick_nanos(elapsed_nanos: u128) -> (res: Option<u64>)
    ensures
        elapsed_nanos < MIN_TICK_LENGTH_NANOS ==> res == Some((MIN_TICK_LENGTH_NANOS - elapsed_nanos) as u64),
        elapsed_nanos >= MIN_TICK_LENGTH_NANOS ==> res is None,
{
    let min: u64 = MIN_TICK_LENGTH_NANOS;
    if elapsed_nanos < min as u128 {
        let e: u64 = elapsed_nanos as u64;
        Some(min - e)
    } else {
        None
    }
}

} // verus!
