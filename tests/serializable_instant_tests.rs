use eule::{SerializableInstant, TimeSpan};
use std::time::{Duration, UNIX_EPOCH};

fn sleep_ms(ms: u64) {
    let rt = tokio::runtime::Runtime::new().unwrap();
    rt.block_on(async { tokio::time::sleep(Duration::from_millis(ms)).await });
}

#[test]
fn test_serializable_instant_now() {
    let instant = SerializableInstant::now();
    assert!(instant.to_system_time().unwrap() > UNIX_EPOCH);
}

#[test]
fn test_serializable_instant_elapsed() {
    let instant = SerializableInstant::now();
    sleep_ms(1000);
    let elapsed = instant.elapsed();
    assert!(elapsed.to_std() >= Duration::from_millis(1000));
}

#[test]
fn test_serializable_instant_duration_since() {
    let instant1 = SerializableInstant::now();
    sleep_ms(1000);
    let instant2 = SerializableInstant::now();
    let duration = instant2.duration_since(instant1);
    assert!(duration.to_std() >= Duration::from_millis(1000));
}

#[test]
fn duration_since_is_exact_and_saturates() {
    let a = SerializableInstant::from_parts(5, 100);
    let b = SerializableInstant::from_parts(4, 900_000_000);
    let d = a.duration_since(b);
    assert_eq!(d.as_nanos(), 100_000_100);
    assert_eq!(d.as_secs(), 0);
    assert_eq!(d.subsec_nanos(), 100_000_100);
    assert_eq!(b.duration_since(a).as_nanos(), 0);
    assert_eq!(a.duration_since(a).as_nanos(), 0);
}

#[test]
fn system_time_round_trip() {
    let t = SerializableInstant::from_parts(1_700_000_000, 42);
    let st = t.to_system_time().unwrap();
    assert_eq!(st, UNIX_EPOCH + Duration::new(1_700_000_000, 42));
    let back = SerializableInstant::from_system_time(st);
    assert_eq!(back.secs(), 1_700_000_000);
    assert_eq!(back.subsec_nanos(), 42);
    let before_epoch = UNIX_EPOCH - Duration::from_secs(10);
    assert_eq!(SerializableInstant::from_system_time(before_epoch).secs(), 0);
}

#[test]
fn time_span_conversions() {
    let d = TimeSpan::from_millis(2_500);
    assert_eq!(d.as_secs(), 2);
    assert_eq!(d.subsec_nanos(), 500_000_000);
    assert_eq!(d.to_std(), Duration::from_millis(2_500));
    assert_eq!(TimeSpan::from_std(Duration::new(3, 7)).as_nanos(), 3_000_000_007);
    assert_eq!(TimeSpan::from_secs(3).doubled_up_to(&TimeSpan::from_secs(5)).as_secs(), 5);
    assert_eq!(TimeSpan::from_secs(2).doubled_up_to(&TimeSpan::from_secs(5)).as_secs(), 4);
    let later = SerializableInstant::from_parts(1, 600_000_000).checked_add(TimeSpan::from_millis(500)).unwrap();
    assert_eq!(later.secs(), 2);
    assert_eq!(later.subsec_nanos(), 100_000_000);
    assert!(SerializableInstant::from_secs(u64::MAX).checked_add(TimeSpan::from_secs(1)).is_none());
}

#[test]
fn test_serializable_instant_conversion() {
    let now = tokio::time::Instant::now();
    let serializable = SerializableInstant::from_instant(now);
    let back_to_instant = serializable.to_instant();
    let difference = if back_to_instant >= now {
        back_to_instant - now
    } else {
        now - back_to_instant
    };
    assert!(difference < Duration::from_millis(1));
}

#[test]
fn saturating_sub_stops_at_the_epoch() {
    let t = SerializableInstant::from_parts(10, 5);
    assert_eq!(t.saturating_sub(TimeSpan::from_parts(3, 10)).subsec_nanos(), 999_999_995);
    assert_eq!(t.saturating_sub(TimeSpan::from_parts(3, 10)).secs(), 6);
    assert_eq!(t.saturating_sub(TimeSpan::from_secs(11)).secs(), 0);
}
