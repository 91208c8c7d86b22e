use user_idle::{IdleDuration, UserIdle};

#[test]
fn seconds_round_trip() {
    let d = IdleDuration::from_secs(10);
    let idle = UserIdle::get_time(Ok(d)).unwrap();
    assert_eq!(idle.as_seconds(), 10);
}

#[test]
fn unit_conversion_chain_concrete() {
    // 123456789 s = 2057613 min = 34293 h = 1428 d = 204 w = 51 mo = 4 y
    let idle = UserIdle::get_time(Ok(IdleDuration::from_secs(123_456_789))).unwrap();
    assert_eq!(idle.as_seconds(), 123_456_789);
    assert_eq!(idle.as_minutes(), idle.as_seconds() / 60);
    assert_eq!(idle.as_minutes(), 2_057_613);
    assert_eq!(idle.as_hours(), idle.as_minutes() / 60);
    assert_eq!(idle.as_hours(), 34_293);
    assert_eq!(idle.as_days(), idle.as_hours() / 24);
    assert_eq!(idle.as_days(), 1_428);
    assert_eq!(idle.as_weeks(), idle.as_days() / 7);
    assert_eq!(idle.as_weeks(), 204);
    assert_eq!(idle.as_months(), idle.as_weeks() / 4);
    assert_eq!(idle.as_months(), 51);
    assert_eq!(idle.as_years(), idle.as_months() / 12);
    assert_eq!(idle.as_years(), 4);
}

#[test]
fn zero_seconds_gives_zero_in_every_unit() {
    let idle = UserIdle::get_time(Ok(IdleDuration::from_secs(0))).unwrap();
    assert_eq!(idle.as_nanoseconds(), 0);
    assert_eq!(idle.as_milliseconds(), 0);
    assert_eq!(idle.as_seconds(), 0);
    assert_eq!(idle.as_minutes(), 0);
    assert_eq!(idle.as_hours(), 0);
    assert_eq!(idle.as_days(), 0);
    assert_eq!(idle.as_weeks(), 0);
    assert_eq!(idle.as_months(), 0);
    assert_eq!(idle.as_years(), 0);
}

#[test]
fn milliseconds_and_nanoseconds() {
    let idle = UserIdle::get_time(Ok(IdleDuration::from_millis(1234))).unwrap();
    assert_eq!(idle.as_nanoseconds(), 1_234_000_000);
    assert_eq!(idle.as_milliseconds(), 1234);
    assert_eq!(idle.as_seconds(), 1);
}

#[test]
fn from_nanos_splits_seconds_and_remainder() {
    let d = IdleDuration::from_nanos(2_500_000_123);
    assert_eq!(d.secs(), 2);
    assert_eq!(d.subsec_nanos(), 500_000_123);
}

#[test]
fn duration_matches_std() {
    let idle = UserIdle::get_time(Ok(IdleDuration::from_millis(1500))).unwrap();
    assert_eq!(idle.duration(), std::time::Duration::from_millis(1500));
    let zero = UserIdle::get_time(Ok(IdleDuration::from_secs(0))).unwrap();
    assert_eq!(zero.duration(), std::time::Duration::new(0, 0));
}

#[test]
fn probe_error_propagates_through_get_time() {
    let probe: Result<IdleDuration, user_idle::Error> = Err(user_idle::Error::new("down"));
    let r = UserIdle::get_time(probe);
    assert_eq!(r.err().unwrap().cause, "down");
}

#[test]
fn error_keeps_its_cause() {
    let e = user_idle::Error::new("something failed");
    assert_eq!(e.cause, "something failed");
}
