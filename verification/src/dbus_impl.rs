use vstd::prelude::*;

use crate::duration::IdleDuration;
use crate::error::Error;

verus! {

/// One bus-exposed idle-reporting service: its bus name, object path and
/// interface name, and whether its reply comes in milliseconds.
#[derive(Clone, Copy)]
pub struct ServiceIdentity {
    pub name: &'static str,
    pub path: &'static str,
    pub interface: &'static str,
    /// The freedesktop screensaver reports its active time in milliseconds;
    /// every other known service reports whole seconds. This special case is
    /// kept exactly as observed, not inferred as a general rule.
    pub reports_milliseconds: bool,
}

/// The known desktop idle-reporting services, in the order they are tried.
pub fn screensaver_identities() -> (r: Vec<ServiceIdentity>)
    ensures
        r@.len() == 3,
        r@[0].name@ == "org.freedesktop.ScreenSaver"@,
        r@[0].path@ == "/org/freedesktop/ScreenSaver"@,
        r@[0].interface@ == "org.freedesktop.ScreenSaver"@,
        r@[0].reports_milliseconds,
        r@[1].name@ == "org.gnome.ScreenSaver"@,
        r@[1].path@ == "/org/gnome/ScreenSaver"@,
        r@[1].interface@ == "org.gnome.ScreenSaver"@,
        !r@[1].reports_milliseconds,
        r@[2].name@ == "org.kde.ScreenSaver"@,
        r@[2].path@ == "/org/kde/ScreenSaver"@,
        r@[2].interface@ == "org.kde.ScreenSaver"@,
        !r@[2].reports_milliseconds,
{
    let mut r: Vec<ServiceIdentity> = Vec::new();
    r.push(ServiceIdentity {
        name: "org.freedesktop.ScreenSaver",
        path: "/org/freedesktop/ScreenSaver",
        interface: "org.freedesktop.ScreenSaver",
        reports_milliseconds: true,
    });
    r.push(ServiceIdentity {
        name: "org.gnome.ScreenSaver",
        path: "/org/gnome/ScreenSaver",
        interface: "org.gnome.ScreenSaver",
        reports_milliseconds: false,
    });
    r.push(ServiceIdentity {
        name: "org.kde.ScreenSaver",
        path: "/org/kde/ScreenSaver",
        interface: "org.kde.ScreenSaver",
        reports_milliseconds: false,
    });
    r
}

/// What one attempt against one service identity came to.
#[derive(Clone, Copy)]
pub enum BusResponse {
    /// No session-bus connection could be opened for this attempt.
    Unreachable,
    /// The connection opened, but the remote call failed or timed out.
    CallFailed,
    /// The service answered with its active time, a 32-bit count.
    ActiveTime(u32),
}

/// Nanoseconds meant by one service's raw reply.
pub open spec fn active_time_nanos(reports_milliseconds: bool, time: u32) -> int {
    if reports_milliseconds {
        time * 1_000_000
    } else {
        time * 1_000_000_000
    }
}

/// Normalize one service's reply into a span: a millisecond-reporting
/// identity's count is taken as milliseconds, any other as whole seconds.
pub fn idle_from_active_time(identity: ServiceIdentity, time: u32) -> (d: IdleDuration)
    ensures
        d.wf(),
        d.spec_nanos() == active_time_nanos(identity.reports_milliseconds, time),
{
    if identity.reports_milliseconds {
        IdleDuration::from_millis(time as u64)
    } else {
        IdleDuration::from_secs(time as u64)
    }
}

/// The span the probe reports, in nanoseconds, for identities tried in
/// order with the given responses: the first identity that answered wins
/// and none after it is considered; `None` when every attempt failed.
pub open spec fn spec_session_bus_result(
    identities: Seq<ServiceIdentity>,
    responses: Seq<BusResponse>,
) -> Option<int>
    decreases identities.len(),
{
    if identities.len() == 0 {
        None
    } else {
        match responses[0] {
            BusResponse::ActiveTime(t) => Some(
                active_time_nanos(identities[0].reports_milliseconds, t),
            ),
            _ => spec_session_bus_result(identities.drop_first(), responses.drop_first()),
        }
    }
}

/// The probe finds a span exactly when some identity answered.
pub proof fn lemma_session_bus_success_iff(
    identities: Seq<ServiceIdentity>,
    responses: Seq<BusResponse>,
)
    requires
        identities.len() == responses.len(),
    ensures
        spec_session_bus_result(identities, responses) is Some <==> exists|i: int|
            0 <= i < responses.len() && responses[i] is ActiveTime,
    decreases identities.len(),
{
    if identities.len() > 0 && !(responses[0] is ActiveTime) {
        lemma_session_bus_success_iff(identities.drop_first(), responses.drop_first());
        if spec_session_bus_result(identities.drop_first(), responses.drop_first()) is Some {
            let i = choose|i: int|
                0 <= i < responses.drop_first().len() && responses.drop_first()[i] is ActiveTime;
            assert(responses[i + 1] is ActiveTime);
        }
        if exists|i: int| 0 <= i < responses.len() && responses[i] is ActiveTime {
            let i = choose|i: int| 0 <= i < responses.len() && responses[i] is ActiveTime;
            assert(responses.drop_first()[i - 1] is ActiveTime);
        }
    }
}

/// Resolve one full pass over the identity list, one response per identity:
/// the first identity that answered decides the span (with its reply
/// normalized by `idle_from_active_time`); if none answered, the probe
/// fails with the no-service error.
pub fn session_bus_idle(
    identities: &Vec<ServiceIdentity>,
    responses: &Vec<BusResponse>,
) -> (r: Result<IdleDuration, Error>)
    requires
        identities@.len() == responses@.len(),
    ensures
        match spec_session_bus_result(identities@, responses@) {
            Some(n) => r matches Ok(d) && d.wf() && d.spec_nanos() == n,
            None => r matches Err(e) && e.cause@ == "No screensaver available"@,
        },
{
    let n: usize = identities.len();
    proof {
        assert(identities@.skip(0) =~= identities@);
        assert(responses@.skip(0) =~= responses@);
    }
    for i in 0..n
        invariant
            identities@.len() == responses@.len(),
            n == identities@.len(),
            spec_session_bus_result(identities@, responses@) == spec_session_bus_result(
                identities@.skip(i as int),
                responses@.skip(i as int),
            ),
    {
        let response = responses[i];
        match response {
            BusResponse::ActiveTime(t) => {
                assert(responses@.skip(i as int)[0] == responses@[i as int]);
                return Ok(idle_from_active_time(identities[i], t));
            },
            _ => {
                proof {
                    assert(responses@.skip(i as int)[0] == responses@[i as int]);
                    assert(identities@.skip(i as int).drop_first() =~= identities@.skip(
                        i as int + 1,
                    ));
                    assert(responses@.skip(i as int).drop_first() =~= responses@.skip(i as int + 1));
                }
            },
        }
    }
    assert(identities@.skip(n as int).len() == 0);
    Err(Error::new("No screensaver available"))
}

} // verus!
