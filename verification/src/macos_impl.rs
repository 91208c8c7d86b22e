use vstd::prelude::*;

use vstd::string::StringExecFns;

use crate::duration::IdleDuration;
use crate::error::Error;

verus! {

/// Where one walk of the device registry ended. The walk acquires the
/// registry root port, looks up the input-system service, takes its first
/// entry, snapshots the entry's property dictionary, and reads the
/// accumulated idle-time property out of it; each variant is the first
/// step that cut the walk short, or the decoded property itself.
pub enum RegistryEvent {
    /// The registry root port could not be acquired; the payload is the
    /// underlying OS error text. Fatal.
    PortFailed(String),
    /// The input-system service lookup failed; the payload is the
    /// underlying OS error text. Fatal.
    ServiceLookupFailed(String),
    /// The lookup matched no entry, or its first entry was invalid.
    NoEntry,
    /// The entry's property dictionary could not be retrieved.
    PropertiesUnavailable,
    /// The dictionary was retrieved but holds no idle-time property.
    PropertyAbsent,
    /// The idle-time property was present but in no recognized encoding.
    ValueUnreadable,
    /// The idle-time property, decoded to a nanosecond count.
    PropertyNanos(u64),
}

/// Decide the registry probe's outcome. Only a failed port acquisition or
/// a failed service lookup is an error, each with the OS error text behind
/// a fixed prefix. An absent property, an empty lookup or an unreadable
/// value is not a failure: the probe then reports zero idle nanoseconds.
pub fn registry_probe_outcome(event: RegistryEvent) -> (r: Result<IdleDuration, Error>)
    ensures
        match event {
            RegistryEvent::PortFailed(m) => r matches Err(e) && e.cause@
                == "Unable to open mach port: "@ + m@,
            RegistryEvent::ServiceLookupFailed(m) => r matches Err(e) && e.cause@
                == "Unable to lookup IOHIDSystem: "@ + m@,
            RegistryEvent::PropertyNanos(ns) => r matches Ok(d) && d.wf() && d.spec_nanos() == ns,
            _ => r matches Ok(d) && d.wf() && d.spec_nanos() == 0,
        },
{
    match event {
        RegistryEvent::PortFailed(m) => Err(
            Error { cause: "Unable to open mach port: ".to_owned().concat(m.as_str()) },
        ),
        RegistryEvent::ServiceLookupFailed(m) => Err(
            Error { cause: "Unable to lookup IOHIDSystem: ".to_owned().concat(m.as_str()) },
        ),
        RegistryEvent::PropertyNanos(ns) => Ok(IdleDuration::from_nanos(ns)),
        _ => Ok(IdleDuration::from_nanos(0)),
    }
}

} // verus!
