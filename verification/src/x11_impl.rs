use vstd::prelude::*;

use crate::duration::IdleDuration;
use crate::error::Error;

verus! {

/// Decide the input-subsystem query's outcome: status one is success and
/// the reported idle value is a millisecond count; any other status is the
/// probe's one error.
pub fn screensaver_query_outcome(status: i32, idle_millis: u64) -> (r: Result<
    IdleDuration,
    Error,
>)
    ensures
        status == 1 ==> (r matches Ok(d) && d.wf() && d.spec_nanos() == idle_millis * 1_000_000),
        status != 1 ==> (r matches Err(e) && e.cause@ == "Status not OK"@),
{
    if status == 1 {
        Ok(IdleDuration::from_millis(idle_millis))
    } else {
        Err(Error::new("Status not OK"))
    }
}

} // verus!
