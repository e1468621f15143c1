use airsense::records::hourly_record_due;
use airsense::hub::Registry;
use airsense::liveness::{compute_active, monitor_tick, monitor_tick_now, status_change, DeviceStatus};
use airsense::models::SessionType;

fn dev(id: &str, last: i64, stored: Option<bool>) -> DeviceStatus {
    DeviceStatus { id: id.to_string(), last_update_ms: last, stored_active: stored }
}

#[test]
fn window_boundary() {
    assert!(compute_active(20_000, 10_001));
    assert!(!compute_active(20_000, 10_000));
    assert!(!compute_active(i64::MAX, i64::MIN));
    assert!(compute_active(i64::MIN, i64::MAX));
}

#[test]
fn status_change_only_on_difference() {
    assert_eq!(status_change(30_000, 19_000, true), Some(false));
    assert_eq!(status_change(30_000, 19_000, false), None);
    assert_eq!(status_change(30_000, 25_000, false), Some(true));
    assert_eq!(status_change(30_000, 25_000, true), None);
}

#[test]
fn silent_device_goes_offline_once() {
    let mut r = Registry::new();
    r.register(1, SessionType::Main);
    let now = 1_000_000;
    let out = monitor_tick(&mut r, now, &vec![dev("D1", now - 10_000, Some(true))]);
    assert_eq!(out.len(), 1);
    assert_eq!(out[0].id, "D1");
    assert!(!out[0].active);
    let got = r.take_active(1).unwrap();
    assert_eq!(got.id, "D1");
    assert!(!got.active);
    let again = monitor_tick(&mut r, now + 5_000, &vec![dev("D1", now - 10_000, Some(false))]);
    assert!(again.is_empty());
    assert!(r.take_active(1).is_none());
}

#[test]
fn device_viewer_learns_its_device_went_offline() {
    let mut r = Registry::new();
    r.register(3, SessionType::Child("D1".to_string()));
    let now = 50_000;
    let devices = vec![dev("D2", now - 11_000, Some(true)), dev("D1", now - 11_000, Some(true))];
    let out = monitor_tick(&mut r, now, &devices);
    assert_eq!(out.len(), 2);
    let got = r.take_active(3).unwrap();
    assert_eq!(got.id, "D1");
    assert!(!got.active);
    assert!(r.take_active(3).is_none());
}

#[test]
fn unreadable_stored_flag_is_skipped() {
    let mut r = Registry::new();
    r.register(1, SessionType::Main);
    let out = monitor_tick(&mut r, 100_000, &vec![dev("A", 0, None), dev("B", 99_000, Some(false))]);
    assert_eq!(out.len(), 1);
    assert_eq!(out[0].id, "B");
    assert!(out[0].active);
}

#[test]
fn tick_at_current_time_sees_old_reading_as_offline() {
    let mut r = Registry::new();
    r.register(1, SessionType::Main);
    let out = monitor_tick_now(&mut r, &vec![dev("A", 0, Some(true))]);
    assert_eq!(out.len(), 1);
    assert!(!out[0].active);
}

#[test]
fn hourly_record_spacing() {
    assert!(hourly_record_due(0, None));
    assert!(!hourly_record_due(1_800_000, Some(0)));
    assert!(hourly_record_due(1_800_001, Some(0)));
    assert!(!hourly_record_due(5, Some(10)));
}
