use heart_core::discovery::scan_should_continue;
use heart_core::discovery::DeviceInfo;
use heart_core::discovery::DeviceList;
use heart_core::discovery::MAX_DEVICES;

fn record(id: &str, connected: bool) -> DeviceInfo {
    DeviceInfo::from_parts(id.to_string(), None, connected)
}

#[test]
fn records_keep_their_parts() {
    let d = DeviceInfo::from_parts("hrm#AABBCCDDEEFF".to_string(), Some("Strap".to_string()), true);
    assert_eq!(d.id, "hrm#AABBCCDDEEFF");
    assert_eq!(d.name.as_deref(), Some("Strap"));
    assert!(d.connected);
    assert_eq!(d.mac_address.as_deref(), Some("AA:BB:CC:DD:EE:FF"));
}

#[test]
fn record_without_derivable_address() {
    let d = record("ephemeral-id", false);
    assert_eq!(d.mac_address, None);
    assert!(!d.connected);
}

#[test]
fn duplicate_identifiers_are_dropped() {
    let mut list = DeviceList::new();
    assert!(list.push_new(record("a", true)));
    assert!(list.push_new(record("b", false)));
    assert!(!list.push_new(record("a", false)));
    assert_eq!(list.len(), 2);
    let v = list.into_vec();
    assert_eq!(v[0].id, "a");
    assert_eq!(v[1].id, "b");
}

#[test]
fn connected_record_wins_over_scanned() {
    let mut list = DeviceList::new();
    // Phase one: already-connected devices.
    list.push_new(record("hrm-1", true));
    // Phase two: the same device shows up in the scan.
    let added = list.push_new(record("hrm-1", false));
    assert!(!added);
    let v = list.into_vec();
    assert_eq!(v.len(), 1);
    assert!(v[0].connected);
}

#[test]
fn contains_id_sees_kept_records_only() {
    let mut list = DeviceList::new();
    list.push_new(record("x", false));
    assert!(list.contains_id(&"x".to_string()));
    assert!(!list.contains_id(&"y".to_string()));
}

#[test]
fn scan_window_and_cap_bound_the_loop() {
    assert!(scan_should_continue(0, 0));
    assert!(scan_should_continue(4999, 99));
    assert!(!scan_should_continue(5000, 0));
    assert!(!scan_should_continue(0, MAX_DEVICES));
    assert!(!scan_should_continue(5000, MAX_DEVICES));
}
