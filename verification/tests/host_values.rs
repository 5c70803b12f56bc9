use rustww::battery::{battery_time, charging_event, discharging_event, BatteryTime};
use rustww::fetch::Method;
use rustww::fs::{resolve_seek, PermisionStatus, SeekError, SeekFrom};
use rustww::geo::{CurrentGeolocation, Geolocation};
use rustww::notify::Notification;
use rustww::ArgsExt;
use rustww::Polled;

#[test]
fn a_present_charging_time_wins() {
    assert_eq!(
        battery_time(Some(90_000), Some(3_600_000)),
        Some(BatteryTime::Charging(90_000))
    );
    assert_eq!(
        battery_time(None, Some(3_600_000)),
        Some(BatteryTime::Discharging(3_600_000))
    );
    assert_eq!(battery_time(None, None), None);
}

#[test]
fn watcher_events_send_only_present_readings() {
    assert_eq!(charging_event(Some(5)), Some(BatteryTime::Charging(5)));
    assert_eq!(charging_event(None), None);
    assert_eq!(discharging_event(Some(6)), Some(BatteryTime::Discharging(6)));
    assert_eq!(discharging_event(None), None);
}

#[test]
fn methods_carry_their_wire_labels() {
    assert_eq!(Method::Get.to_str(), "GET");
    assert_eq!(Method::Post.to_str(), "POST");
    assert_eq!(Method::Head.to_str(), "HEAD");
    assert_eq!(Method::Put.to_str(), "PUT");
    assert_eq!(Method::default(), Method::Get);
}

#[test]
fn permission_states_carry_their_labels() {
    assert_eq!(PermisionStatus::Granted.as_label(), "granted");
    assert_eq!(PermisionStatus::Denied.as_label(), "denied");
    assert_eq!(PermisionStatus::Prompt.as_label(), "prompt");
}

#[test]
fn seeks_resolve_exactly_or_are_rejected() {
    assert_eq!(resolve_seek(SeekFrom::Start(7), 100, 50), Ok(7));
    assert_eq!(resolve_seek(SeekFrom::End(-30), 100, 50), Ok(70));
    assert_eq!(resolve_seek(SeekFrom::End(5), 100, 50), Ok(105));
    assert_eq!(resolve_seek(SeekFrom::Current(-50), 100, 50), Ok(0));
    assert_eq!(
        resolve_seek(SeekFrom::Current(-51), 100, 50),
        Err(SeekError::Overflow)
    );
    assert_eq!(
        resolve_seek(SeekFrom::Current(1), 100, u64::MAX),
        Err(SeekError::Overflow)
    );
    assert_eq!(
        resolve_seek(SeekFrom::Current(i64::MIN), 0, u64::MAX),
        Ok(9_223_372_036_854_775_807)
    );
}

#[test]
fn notification_builder_accumulates_its_fields() {
    let n = Notification::new(String::from("backup finished"))
        .body(String::from("no errors"))
        .fire_after(2_000)
        .close_after(10_000);
    assert_eq!(n.title().as_str(), "backup finished");
}

#[test]
fn message_arguments_become_their_own_string() {
    let s = String::from("ready");
    assert_eq!(s.into_str(), "ready");
}

#[test]
fn current_geolocation_resolves_once() {
    let mut f: CurrentGeolocation<u8> = CurrentGeolocation::new();
    assert_eq!(f.poll(4), Polled::Pending);
    let reading = Geolocation {
        latitude: 41_390_205,
        longitude: 2_154_007,
        accuracy: 12_000,
        altitude: Some(12_000),
        altitude_accuracy: None,
        heading: None,
        speed: Some(1_500),
    };
    assert_eq!(f.resolve(reading), Some(4));
    assert_eq!(f.poll(4), Polled::Item(reading));
}
