//! Tests of the shared tracker bookkeeping and of timestamps.

use std::cmp::Ordering;

use uify::pipeline::TrackerCommon;
use uify::sample::Timestamp;

#[test]
fn tracker_common_dt_first_call_is_zero() {
    let mut tc = TrackerCommon::new(0i32);
    assert_eq!(tc.dt_nanos_since(Timestamp::from_nanos(1_000_000_000)), 0);
}

#[test]
fn tracker_common_dt_returns_seconds() {
    let mut tc = TrackerCommon::new(0i32);
    let _ = tc.dt_nanos_since(Timestamp::from_nanos(1_000_000_000));
    let dt = tc.dt_nanos_since(Timestamp::from_nanos(1_500_000_000)) as f64 * 1e-9;
    assert!((dt - 0.5).abs() < 1e-12);
}

#[test]
fn tracker_common_dt_out_of_order_yields_zero() {
    let mut tc = TrackerCommon::new(0i32);
    let _ = tc.dt_nanos_since(Timestamp::from_nanos(2_000_000_000));
    let dt = tc.dt_nanos_since(Timestamp::from_nanos(1_000_000_000));
    assert_eq!(dt, 0);
}

#[test]
fn tracker_common_reset_restores_filter_and_clears_timestamp() {
    let mut tc = TrackerCommon::new(7i32);
    tc.filter = 99;
    let _ = tc.dt_nanos_since(Timestamp::from_nanos(1));
    tc.reset();
    assert_eq!(tc.filter, 7);
    // Post-reset, the step length should behave like a first call.
    assert_eq!(tc.dt_nanos_since(Timestamp::from_nanos(123)), 0);
}

#[test]
fn tracker_common_dt_is_exact_nanoseconds() {
    let mut tc = TrackerCommon::new(());
    assert_eq!(tc.dt_nanos_since(Timestamp::from_nanos(5)), 0);
    assert_eq!(tc.dt_nanos_since(Timestamp::from_nanos(12)), 7);
    assert_eq!(tc.dt_nanos_since(Timestamp::from_nanos(12)), 0);
    assert_eq!(tc.dt_nanos_since(Timestamp::from_nanos(u64::MAX)), u64::MAX - 12);
    // Out of order, then back in order relative to the stored (earlier) stamp.
    assert_eq!(tc.dt_nanos_since(Timestamp::from_nanos(3)), 0);
    assert_eq!(tc.dt_nanos_since(Timestamp::from_nanos(10)), 7);
}

#[test]
fn tracker_common_step_lengths_add_up() {
    let mut tc = TrackerCommon::new(vec![1u8, 2, 3]);
    let _ = tc.dt_nanos_since(Timestamp::from_nanos(100));
    let a = tc.dt_nanos_since(Timestamp::from_nanos(250));
    let b = tc.dt_nanos_since(Timestamp::from_nanos(1000));
    assert_eq!(a + b, 900);
    tc.filter.push(4);
    tc.reset();
    assert_eq!(tc.filter, vec![1u8, 2, 3]);
}

#[test]
fn timestamp_nanos_roundtrip() {
    for ns in [0u64, 1, 33_333_333, u64::MAX] {
        assert_eq!(Timestamp::from_nanos(ns).as_nanos(), ns);
        let t = Timestamp(ns);
        assert_eq!(Timestamp::from_nanos(t.as_nanos()), t);
    }
    assert!(Timestamp::from_nanos(1) < Timestamp::from_nanos(2));
}

#[test]
fn abi_version_is_zero() {
    assert_eq!(uify::plugin::uify_abi_version(), 0);
    let _plugin = uify::plugin::TrackerPlugin;
}

#[test]
fn tracker_common_filter_accessors() {
    let mut tc = TrackerCommon::new(7i32);
    assert_eq!(*tc.filter(), 7);
    let _ = tc.dt_nanos_since(Timestamp::from_nanos(10));
    tc.set_filter(42);
    assert_eq!(*tc.filter(), 42);
    // The previous timestamp survives `set_filter`.
    assert_eq!(tc.dt_nanos_since(Timestamp::from_nanos(25)), 15);
    tc.reset();
    assert_eq!(*tc.filter(), 7);
}

#[test]
fn timestamp_order_follows_nanoseconds() {
    assert_eq!(Timestamp(3).partial_cmp(&Timestamp(5)), Some(Ordering::Less));
    assert_eq!(Timestamp(5).partial_cmp(&Timestamp(5)), Some(Ordering::Equal));
    assert_eq!(Timestamp(u64::MAX).partial_cmp(&Timestamp(0)), Some(Ordering::Greater));
    assert_eq!(Timestamp(3).cmp(&Timestamp(5)), Ordering::Less);
    assert!(Timestamp(9) >= Timestamp(9));
}
