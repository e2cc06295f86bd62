use deepspace_quic::rate_limit_cc::{RateLimitBasedCC, RateLimitBasedCCConfig, CONGESTION_WINDOW};

#[test]
fn window_is_the_largest_window() {
    let cc = RateLimitBasedCC;
    assert_eq!(cc.window(), u64::MAX);
    assert_eq!(cc.initial_window(), u64::MAX);
    assert_eq!(CONGESTION_WINDOW, u64::MAX);
}

#[test]
fn events_leave_the_window_alone() {
    let mut cc = RateLimitBasedCC;
    cc.on_ack(1200, false);
    assert_eq!(cc.window(), u64::MAX);
    cc.on_congestion_event(true, 50_000);
    assert_eq!(cc.window(), u64::MAX);
    cc.on_mtu_update(1500);
    assert_eq!(cc.window(), u64::MAX);
    assert_eq!(cc, RateLimitBasedCC);
}

#[test]
fn config_builds_controller_with_largest_window() {
    let config = RateLimitBasedCCConfig;
    let cc = config.build(1200);
    assert_eq!(cc.window(), u64::MAX);
    assert_eq!(cc.initial_window(), cc.window());
}
