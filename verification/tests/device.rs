use omni_camera::device::{check_can_use, query, DeviceIndex, DeviceInfo};

fn device(index: DeviceIndex, name: &str) -> DeviceInfo {
    DeviceInfo {
        index,
        name: name.to_string(),
        description: format!("{} description", name),
        misc: format!("{} misc", name),
    }
}

#[test]
fn query_lists_devices_named_by_number() {
    let devices = vec![
        device(DeviceIndex::Index(2), "front"),
        device(DeviceIndex::Name("usb:1".to_string()), "virtual"),
        device(DeviceIndex::Index(0), "back"),
    ];
    assert_eq!(
        query(Ok(devices)),
        Ok(vec![
            (2, "front".to_string(), "front description".to_string(), "front misc".to_string()),
            (0, "back".to_string(), "back description".to_string(), "back misc".to_string()),
        ])
    );
}

#[test]
fn query_of_no_devices_is_empty() {
    assert_eq!(query(Ok(Vec::new())), Ok(Vec::new()));
    assert_eq!(query(Ok(vec![device(DeviceIndex::Name("x".to_string()), "only")])), Ok(Vec::new()));
}

#[test]
fn query_keeps_devices_with_the_same_number() {
    let devices = vec![device(DeviceIndex::Index(1), "a"), device(DeviceIndex::Index(1), "b")];
    let rows = query(Ok(devices)).unwrap();
    assert_eq!(rows.len(), 2);
    assert_eq!(rows[0].1, "a");
    assert_eq!(rows[1].1, "b");
}

#[test]
fn device_is_usable_when_it_can_be_connected() {
    assert!(check_can_use(&Ok(())));
    assert!(!check_can_use(&Err("busy".to_string())));
}

#[test]
fn query_passes_a_failed_discovery_on() {
    assert_eq!(query(Err("no backend".to_string())), Err("no backend".to_string()));
}
