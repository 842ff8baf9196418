use ai_ping::probe::{
    local_ping_failed, local_ping_reached, millis_or_zero, network_time_error,
    network_time_from_date, network_time_info, now_millis,
};

#[test]
fn now_millis_is_after_2020() {
    assert!(now_millis() > 1_577_836_800_000);
}

#[test]
fn millis_or_zero_truncates() {
    assert_eq!(millis_or_zero(None), 0);
    assert_eq!(millis_or_zero(Some(42)), 42);
    assert_eq!(millis_or_zero(Some((1u128 << 64) + 7)), 7);
}

#[test]
fn network_time_from_http_date() {
    let info = network_time_from_date(1_000, 100, Some("Sun, 06 Nov 1994 08:49:37 GMT")).unwrap();
    assert_eq!(info.network_timestamp, 784_111_777_000);
    assert_eq!(info.local_timestamp, 1_050);
    assert_eq!(info.offset_ms, 784_111_777_000 - 1_050);
    assert_eq!(info.rtt_ms, 100);
}

#[test]
fn network_time_without_usable_date() {
    for date in [None, Some("not a date")] {
        let info = network_time_from_date(2_000, 31, date).unwrap();
        assert_eq!(info.network_timestamp, 2_015);
        assert_eq!(info.local_timestamp, 2_015);
        assert_eq!(info.offset_ms, 0);
    }
}

#[test]
fn network_time_offset_can_be_negative() {
    let info = network_time_info(5_000, 0, Some(4_000));
    assert_eq!(info.offset_ms, -1_000);
    assert_eq!(network_time_error("timeout"), "获取网络时间失败: timeout");
}

#[test]
fn local_ping_reports() {
    let ok = local_ping_reached(200, 12);
    assert!(ok.ok);
    assert_eq!(ok.latency_ms, Some(12));
    assert_eq!(ok.target, "1.1.1.1 (Cloudflare)");
    let blocked = local_ping_reached(403, 9);
    assert!(!blocked.ok);
    let failed = local_ping_failed("dns");
    assert!(!failed.ok);
    assert_eq!(failed.latency_ms, None);
    assert_eq!(failed.error.as_deref(), Some("测速失败: dns"));
}
