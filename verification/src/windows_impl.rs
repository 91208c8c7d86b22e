use vstd::prelude::*;

use crate::duration::IdleDuration;
use crate::error::Error;

verus! {

/// Milliseconds between two readings of the wrapping 32-bit tick counter:
/// plain unsigned subtraction, wrapping modulo 2^32 when the last-input
/// tick exceeds the current one (the counter wrap is not corrected for).
pub open spec fn spec_tick_idle_millis(now: u32, last_input: u32) -> int {
    if last_input <= now {
        now - last_input
    } else {
        now - last_input + 0x1_0000_0000
    }
}

/// Idle milliseconds from the current tick count and the tick count of the
/// last input event, both from the same wrapping counter.
pub fn tick_idle_millis(now: u32, last_input: u32) -> (ms: u32)
    ensures
        ms == spec_tick_idle_millis(now, last_input),
        last_input <= now ==> ms == now - last_input,
{
    now.wrapping_sub(last_input)
}

/// Decide the tick probe's outcome: a successful last-input query yields
/// the tick difference as a millisecond span; a failed query is the
/// probe's one error.
pub fn tick_probe_outcome(now: u32, last_input: Option<u32>) -> (r: Result<IdleDuration, Error>)
    ensures
        last_input matches Some(t) ==> (r matches Ok(d) && d.wf() && d.spec_nanos()
            == spec_tick_idle_millis(now, t) * 1_000_000),
        last_input is None ==> (r matches Err(e) && e.cause@ == "GetLastInputInfo failed"@),
{
    match last_input {
        Some(t) => Ok(IdleDuration::from_millis(tick_idle_millis(now, t) as u64)),
        None => Err(Error::new("GetLastInputInfo failed")),
    }
}

} // verus!
