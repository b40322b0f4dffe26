use webpulse::models::{Heartbeat, HeartbeatStatus, HistoryStatus, MonitorStatus, TimeLayout, Timestamp};

#[test]
fn status_names() {
    assert_eq!(MonitorStatus::Up.as_str(), "up");
    assert_eq!(MonitorStatus::Down.as_str(), "down");
    assert_eq!(MonitorStatus::Unknown.as_str(), "unknown");
    assert_eq!(MonitorStatus::default(), MonitorStatus::Unknown);
    assert_eq!(HistoryStatus::Up.as_str(), "up");
    assert_eq!(HistoryStatus::Down.as_str(), "down");
}

#[test]
fn check_outcome_becomes_monitor_status() {
    assert_eq!(MonitorStatus::from(HistoryStatus::Up), MonitorStatus::Up);
    assert_eq!(MonitorStatus::from(HistoryStatus::Down), MonitorStatus::Down);
    for status in [HistoryStatus::Up, HistoryStatus::Down] {
        assert_eq!(MonitorStatus::from(status).as_str(), status.as_str());
    }
}

#[test]
fn heartbeat_status_text() {
    assert_eq!(HeartbeatStatus::Healthy.to_string(), "healthy");
    assert_eq!(HeartbeatStatus::Late.to_string(), "late");
    assert_eq!(HeartbeatStatus::Down.to_string(), "down");
    assert_eq!(HeartbeatStatus::Unknown.to_string(), "unknown");
    assert_eq!(HeartbeatStatus::default(), HeartbeatStatus::Unknown);
}

#[test]
fn heartbeat_status_from_text() {
    assert_eq!(HeartbeatStatus::from("healthy"), HeartbeatStatus::Healthy);
    assert_eq!(HeartbeatStatus::from("HEALTHY"), HeartbeatStatus::Healthy);
    assert_eq!(HeartbeatStatus::from("Late"), HeartbeatStatus::Late);
    assert_eq!(HeartbeatStatus::from("dOwN"), HeartbeatStatus::Down);
    assert_eq!(HeartbeatStatus::from("unknown"), HeartbeatStatus::Unknown);
    assert_eq!(HeartbeatStatus::from("gone"), HeartbeatStatus::Unknown);
    assert_eq!(HeartbeatStatus::from("DOWNÉ"), HeartbeatStatus::Unknown);
    assert_eq!(HeartbeatStatus::from(""), HeartbeatStatus::Unknown);
}

#[test]
fn heartbeat_status_round_trips_through_text() {
    for status in [
        HeartbeatStatus::Healthy,
        HeartbeatStatus::Late,
        HeartbeatStatus::Down,
        HeartbeatStatus::Unknown,
    ] {
        assert_eq!(HeartbeatStatus::from(status.to_string().as_str()), status);
    }
}

#[test]
fn generated_uuids_are_random_v4_text() {
    let a = Heartbeat::generate_uuid();
    let b = Heartbeat::generate_uuid();
    assert_ne!(a, b);
    for id in [a, b] {
        let chars: Vec<char> = id.chars().collect();
        assert_eq!(chars.len(), 36);
        for (i, c) in chars.iter().enumerate() {
            if [8, 13, 18, 23].contains(&i) {
                assert_eq!(*c, '-');
            } else {
                assert!(c.is_ascii_hexdigit() && !c.is_ascii_uppercase());
            }
        }
        assert_eq!(chars[14], '4');
        assert!(['8', '9', 'a', 'b'].contains(&chars[19]));
    }
}

#[test]
fn timestamps_format_in_utc() {
    let ts = Timestamp::from_unix(1431648000, 0).unwrap();
    assert_eq!(ts.format(TimeLayout::DateTime), "2015-05-15 00:00:00");
    assert_eq!(ts.format(TimeLayout::TimeOfDay), "00:00:00");
    let later = Timestamp::from_unix(1431648000 + 3 * 3600 + 25 * 60 + 7, 500).unwrap();
    assert_eq!(later.format(TimeLayout::DateTime), "2015-05-15 03:25:07");
    assert_eq!(later.format(TimeLayout::TimeOfDay), "03:25:07");
    assert_eq!(later.unix_seconds(), 1431648000 + 3 * 3600 + 25 * 60 + 7);
    assert_eq!(later.subsec_nanos(), 500);
}

#[test]
fn timestamps_out_of_range_are_refused() {
    assert!(Timestamp::from_unix(i64::MAX, 0).is_none());
    assert!(Timestamp::from_unix(0, 2_000_000_000).is_none());
    assert!(Timestamp::from_unix(0, 0).is_some());
}

#[test]
fn whole_seconds_round_towards_zero() {
    let a = Timestamp::from_unix(20, 0).unwrap();
    let b = Timestamp::from_unix(10, 999_999_999).unwrap();
    assert_eq!(a.whole_seconds_since(&b), 9);
    let c = Timestamp::from_unix(20, 500_000_000).unwrap();
    let d = Timestamp::from_unix(10, 0).unwrap();
    assert_eq!(d.whole_seconds_since(&c), -10);
    assert_eq!(c.whole_seconds_since(&d), 10);
}

#[test]
fn now_is_after_2020() {
    let now = Timestamp::now();
    assert!(now.unix_seconds() > 1_577_836_800);
}
