use deepspace_quic::client::{
    alpn_protocols, client_transport_settings, remote_port, repeat_plan, request_line, RepeatPlan,
};
use deepspace_quic::transport::{CongestionControl, Span, TransportSettings};

#[test]
fn request_line_is_http09_get() {
    assert_eq!(request_line("/index.html"), "GET /index.html\r\n");
    assert_eq!(request_line("/"), "GET /\r\n");
    assert_eq!(request_line(""), "GET \r\n");
}

#[test]
fn alpn_defaults_to_hq29() {
    assert_eq!(alpn_protocols(None), vec![b"hq-29".to_vec()]);
    assert_eq!(alpn_protocols(Some(b"hq-interop".to_vec())), vec![b"hq-interop".to_vec()]);
}

#[test]
fn port_defaults_to_4433() {
    assert_eq!(remote_port(None), 4433);
    assert_eq!(remote_port(Some(443)), 443);
}

#[test]
fn repeat_defaults_to_once_a_second() {
    assert_eq!(repeat_plan(None, None), RepeatPlan { count: 1, interval_secs: 1 });
    assert_eq!(repeat_plan(Some(5), Some(30)), RepeatPlan { count: 5, interval_secs: 30 });
    assert!(!repeat_plan(None, None).pauses());
    assert!(repeat_plan(Some(2), None).pauses());
    assert!(!repeat_plan(Some(0), None).pauses());
}

#[test]
fn client_settings_without_options_are_defaults() {
    let s = client_transport_settings(false, None, None, None, None);
    assert_eq!(s, TransportSettings::new());
}

#[test]
fn client_settings_deep_space_profile() {
    let s = client_transport_settings(false, Some(3_600_000), Some("noop".to_string()), None, None);
    assert_eq!(s.max_idle_timeout_ms, Some(3_600_000));
    assert_eq!(s.initial_rtt, Some(Span { secs: 3600, nanos: 0 }));
    assert_eq!(s.congestion, CongestionControl::Noop);
}

#[test]
fn client_options_after_maxout_take_precedence() {
    let s = client_transport_settings(true, Some(60_000), Some("bbr".to_string()), Some(5000), Some(70_000));
    assert_eq!(s.max_idle_timeout_ms, Some(60_000));
    assert_eq!(s.initial_rtt, Some(Span { secs: 60, nanos: 0 }));
    assert_eq!(s.congestion, CongestionControl::Bbr { initial_window: 5000 });
    assert_eq!(s.receive_window, Some(70_000));
    assert_eq!(s.send_window, Some(70_000));
    assert_eq!(s.packet_threshold, Some(u32::MAX));
    assert_eq!(s.time_threshold, Some(100_000));
}

#[test]
fn client_window_sets_both_windows() {
    let s = client_transport_settings(false, None, None, None, Some(u32::MAX));
    assert_eq!(s.receive_window, Some(u32::MAX as u64));
    assert_eq!(s.send_window, Some(u32::MAX as u64));
}
