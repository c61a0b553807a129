use gnomeqs::ble::{
    find_service_data, parse_ble_device_type, peripheral_endpoint_id, BleListenerState, BleTracker,
    NANOS_PER_SEC, SERVICE_UUID_SHARING,
};
use gnomeqs::channel::DeviceType;
use gnomeqs::endpoint::EndpointTransport;

const S: u64 = NANOS_PER_SEC;

#[test]
fn device_type_bits() {
    assert_eq!(parse_ble_device_type(&[]), DeviceType::Unknown);
    assert_eq!(parse_ble_device_type(&[0b0000_0100]), DeviceType::Phone);
    assert_eq!(parse_ble_device_type(&[0b0000_1000, 0xFF]), DeviceType::Tablet);
    assert_eq!(parse_ble_device_type(&[0b0000_1100]), DeviceType::Laptop);
    assert_eq!(parse_ble_device_type(&[0b0001_0000]), DeviceType::Unknown);
    assert_eq!(parse_ble_device_type(&[0b1110_0111]), DeviceType::Phone);
    assert_eq!(parse_ble_device_type(&[0xFF]), DeviceType::Unknown);
}

#[test]
fn sharing_uuid_value() {
    assert_eq!(SERVICE_UUID_SHARING, 0x0000fe2c_0000_1000_8000_00805f9b34fb);
}

#[test]
fn service_data_lookup() {
    let sd = vec![(1u128, vec![1u8]), (SERVICE_UUID_SHARING, vec![4u8]), (SERVICE_UUID_SHARING, vec![8u8])];
    assert_eq!(find_service_data(&sd, SERVICE_UUID_SHARING), Some(1));
    assert_eq!(find_service_data(&sd, 7), None);
}

#[test]
fn endpoint_id_of_address() {
    assert_eq!(peripheral_endpoint_id("AA:BB"), "ble:AA:BB");
}

#[test]
fn new_device_is_announced_once() {
    let mut t = BleTracker::new();
    let e = t
        .on_service_data("ble:AA:BB".to_string(), None, &[0b0000_0100], 5 * S)
        .expect("new device");
    assert_eq!(e.id, "ble:AA:BB");
    assert_eq!(e.fullname, "ble:AA:BB");
    assert_eq!(e.name.as_deref(), Some("Bluetooth (AA:BB)"));
    assert_eq!(e.rtype, Some(DeviceType::Phone));
    assert_eq!(e.present, Some(true));
    assert_eq!(e.transport, Some(EndpointTransport::BleDiscovery));
    assert_eq!(e.ip, None);
    assert_eq!(t.seen.len(), 1);
    assert!(t
        .on_service_data("ble:AA:BB".to_string(), Some("Phone".to_string()), &[0], 9 * S)
        .is_none());
    assert_eq!(t.seen.len(), 1);
    assert_eq!(t.seen[0].last_seen, 9 * S);
    assert_eq!(t.seen[0].endpoint.name.as_deref(), Some("Bluetooth (AA:BB)"));
}

#[test]
fn advertised_name_is_used() {
    let mut t = BleTracker::new();
    let e = t.on_service_data("ble:CC".to_string(), Some("Pixel".to_string()), &[], 0).unwrap();
    assert_eq!(e.name.as_deref(), Some("Pixel"));
    assert_eq!(e.rtype, Some(DeviceType::Unknown));
}

#[test]
fn properties_decide_on_sharing() {
    let mut t = BleTracker::new();
    assert!(t.on_properties("11", None, &vec![5], &vec![(6, vec![4])], 0).is_none());
    assert_eq!(t.seen.len(), 0);
    let e = t.on_properties("11", Some("Tab".to_string()), &vec![SERVICE_UUID_SHARING], &vec![], 0).unwrap();
    assert_eq!(e.id, "ble:11");
    assert_eq!(e.rtype, Some(DeviceType::Unknown));
    assert_eq!(e.name.as_deref(), Some("Tab"));
    let e = t.on_properties("11", None, &vec![], &vec![(SERVICE_UUID_SHARING, vec![8])], 3).unwrap();
    assert_eq!(e.rtype, Some(DeviceType::Tablet));
    assert_eq!(e.name.as_deref(), Some("Bluetooth (11)"));
    assert_eq!(t.seen.len(), 1);
    assert_eq!(t.seen[0].last_seen, 3);
}

#[test]
fn refresh_marks_known_devices() {
    let mut t = BleTracker::new();
    assert!(!t.refresh("ble:1", 0));
    t.on_properties("1", None, &vec![SERVICE_UUID_SHARING], &vec![], 0).unwrap();
    assert!(t.refresh("ble:1", 7));
    assert_eq!(t.seen[0].last_seen, 7);
}

#[test]
fn expiry_after_thirty_whole_seconds() {
    let mut t = BleTracker::new();
    t.on_service_data("ble:A".to_string(), None, &[], 0).unwrap();
    t.on_service_data("ble:B".to_string(), None, &[], 10 * S).unwrap();
    assert!(t.expire(31 * S - 1).is_empty());
    let gone = t.expire(31 * S);
    assert_eq!(gone.len(), 1);
    assert_eq!(gone[0].id, "ble:A");
    assert_eq!(gone[0].present, Some(false));
    assert_eq!(gone[0].name, None);
    assert_eq!(gone[0].fullname, "");
    assert_eq!(t.seen.len(), 1);
    assert_eq!(t.seen[0].id, "ble:B");
    assert!(t.expire(5 * S).is_empty());
}

#[test]
fn finish_withdraws_everything() {
    let mut t = BleTracker::new();
    t.on_service_data("ble:A".to_string(), None, &[], 0).unwrap();
    t.on_service_data("ble:B".to_string(), None, &[], 0).unwrap();
    let gone = t.finish();
    let ids: Vec<&str> = gone.iter().map(|e| e.id.as_str()).collect();
    assert_eq!(ids, vec!["ble:A", "ble:B"]);
    assert!(gone.iter().all(|e| e.present == Some(false)));
}

#[test]
fn nearby_alert_rate_limit() {
    let mut l = BleListenerState::new();
    let sharing = vec![(SERVICE_UUID_SHARING, vec![0u8])];
    let other = vec![(1u128, vec![0u8])];
    assert!(!l.on_advertisement(&other, 100 * S));
    assert!(!l.on_advertisement(&vec![], 100 * S));
    assert!(l.on_advertisement(&sharing, 100 * S));
    assert_eq!(l.last_alert, 100 * S);
    assert!(!l.on_advertisement(&sharing, 130 * S));
    assert!(l.on_advertisement(&sharing, 130 * S + 1));
    assert!(!l.on_advertisement(&sharing, 10 * S));
    assert_eq!(l.last_alert, 130 * S + 1);
}

fn check_alternation(sent: &[(String, bool)]) {
    let mut announced: Vec<String> = Vec::new();
    for (id, up) in sent {
        let pos = announced.iter().position(|a| a == id);
        if *up {
            assert!(pos.is_none(), "{id} announced twice");
            announced.push(id.clone());
        } else {
            let k = pos.expect("withdrawn without announcement");
            announced.remove(k);
        }
    }
    assert!(announced.is_empty());
}

#[test]
fn discovery_alternates_per_device() {
    let mut t = BleTracker::new();
    let mut sent: Vec<(String, bool)> = Vec::new();
    let note = |e: gnomeqs::endpoint::EndpointInfo, sent: &mut Vec<(String, bool)>| {
        sent.push((e.id.clone(), e.present == Some(true)));
    };
    if let Some(e) = t.on_service_data("ble:A".to_string(), None, &[4], 0) {
        note(e, &mut sent);
    }
    if let Some(e) = t.on_service_data("ble:A".to_string(), None, &[4], 2 * S) {
        note(e, &mut sent);
    }
    if !t.refresh("ble:B", 3 * S) {
        if let Some(e) = t.on_properties("B", None, &vec![SERVICE_UUID_SHARING], &vec![], 3 * S) {
            note(e, &mut sent);
        }
    }
    assert!(t.refresh("ble:B", 20 * S));
    for e in t.expire(40 * S) {
        note(e, &mut sent);
    }
    if let Some(e) = t.on_service_data("ble:A".to_string(), None, &[4], 41 * S) {
        note(e, &mut sent);
    }
    for e in t.finish() {
        note(e, &mut sent);
    }
    let expect: Vec<(String, bool)> = vec![
        ("ble:A".to_string(), true),
        ("ble:B".to_string(), true),
        ("ble:A".to_string(), false),
        ("ble:A".to_string(), true),
        ("ble:B".to_string(), false),
        ("ble:A".to_string(), false),
    ];
    assert_eq!(sent, expect);
    check_alternation(&sent);
}

#[test]
fn bootstrap_duplicate_is_announced_again() {
    let mut t = BleTracker::new();
    let first = t.on_properties("D", None, &vec![SERVICE_UUID_SHARING], &vec![], 0);
    let second = t.on_properties("D", None, &vec![SERVICE_UUID_SHARING], &vec![], 1);
    assert!(first.is_some() && second.is_some());
    assert_eq!(t.seen.len(), 1);
}

#[test]
fn nearby_alerts_are_spaced() {
    let mut l = BleListenerState::new();
    let sharing = vec![(SERVICE_UUID_SHARING, vec![0u8])];
    let times = [10 * S, 40 * S, 50 * S, 71 * S, 101 * S, 102 * S, 133 * S];
    let fired: Vec<bool> = times.iter().map(|&t| l.on_advertisement(&sharing, t)).collect();
    assert_eq!(fired, vec![false, true, false, true, false, true, true]);
    let alerts: Vec<u64> = times.iter().zip(&fired).filter(|(_, f)| **f).map(|(t, _)| *t).collect();
    for w in alerts.windows(2) {
        assert!(w[1] - w[0] > 30 * S);
    }
}

#[test]
fn nearby_alerts_spaced_with_clock_going_back() {
    let mut l = BleListenerState::new();
    let sharing = vec![(SERVICE_UUID_SHARING, vec![0u8])];
    let times = [100 * S, 40 * S, 10 * S, 131 * S, 135 * S, 90 * S, 162 * S];
    let fired: Vec<bool> = times.iter().map(|&t| l.on_advertisement(&sharing, t)).collect();
    assert_eq!(fired, vec![true, false, false, true, false, false, true]);
}
