use heart_core::locate::find_device_in_list;
use heart_core::locate::matches_target;

fn ids(names: &[&str]) -> Vec<String> {
    names.iter().map(|s| s.to_string()).collect()
}

#[test]
fn target_is_found_by_exact_match() {
    let list = ids(&["a", "b", "c"]);
    let target = "b".to_string();
    assert_eq!(find_device_in_list(&list, Some(&target)), Some(1));
}

#[test]
fn missing_target_is_not_found() {
    let list = ids(&["a", "b"]);
    let target = "z".to_string();
    assert_eq!(find_device_in_list(&list, Some(&target)), None);
}

#[test]
fn earliest_match_wins() {
    let list = ids(&["dup", "x", "dup"]);
    let target = "dup".to_string();
    assert_eq!(find_device_in_list(&list, Some(&target)), Some(0));
}

#[test]
fn without_target_the_first_device_is_taken() {
    let list = ids(&["first", "second"]);
    assert_eq!(find_device_in_list(&list, None), Some(0));
}

#[test]
fn empty_list_yields_nothing() {
    let list: Vec<String> = Vec::new();
    assert_eq!(find_device_in_list(&list, None), None);
    let target = "a".to_string();
    assert_eq!(find_device_in_list(&list, Some(&target)), None);
}

#[test]
fn target_matching_is_exact() {
    let id = "Device-1".to_string();
    let same = "Device-1".to_string();
    let other = "device-1".to_string();
    assert!(matches_target(&id, Some(&same)));
    assert!(!matches_target(&id, Some(&other)));
    assert!(matches_target(&id, None));
}
