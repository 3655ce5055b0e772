use ash_gui::device::{
    find_queue_families, is_device_suitable, pick_physical_device, supports_graphics,
    unique_queue_families, DeviceChoice, QueueFamilyIndices, QueueFamilySupport,
};

fn fam(queue_flags: u32, present_support: bool) -> QueueFamilySupport {
    QueueFamilySupport { queue_flags, present_support }
}

#[test]
fn discovery_graphics_two_present_zero() {
    // Index 2 supports graphics, index 0 presentation; index 3 would also
    // present, but the scan has stopped by then.
    let families = vec![fam(0b100, true), fam(0b10, false), fam(0b111, false), fam(0b1, true)];
    let indices = find_queue_families(&families);
    assert_eq!(
        indices,
        QueueFamilyIndices { graphics_family: Some(2), present_family: Some(0) }
    );
    assert!(indices.is_complete());
}

#[test]
fn discovery_one_family_does_both() {
    let families = vec![fam(0b10, false), fam(0b1, true), fam(0b1, true)];
    assert_eq!(
        find_queue_families(&families),
        QueueFamilyIndices { graphics_family: Some(1), present_family: Some(1) }
    );
}

#[test]
fn discovery_keeps_latest_before_complete() {
    // Graphics is seen at 0 and 1 before presentation turns up at 2.
    let families = vec![fam(1, false), fam(1, false), fam(0, true), fam(1, true)];
    assert_eq!(
        find_queue_families(&families),
        QueueFamilyIndices { graphics_family: Some(1), present_family: Some(2) }
    );
}

#[test]
fn discovery_incomplete() {
    let families = vec![fam(0b10, false), fam(0b1, false)];
    let indices = find_queue_families(&families);
    assert_eq!(indices, QueueFamilyIndices { graphics_family: Some(1), present_family: None });
    assert!(!indices.is_complete());
    assert_eq!(find_queue_families(&vec![]), QueueFamilyIndices::default());
}

#[test]
fn graphics_bit() {
    assert!(supports_graphics(1));
    assert!(supports_graphics(0b1111));
    assert!(!supports_graphics(0b1110));
    assert!(!supports_graphics(0));
}

#[test]
fn suitability() {
    assert!(is_device_suitable(&vec![fam(1, true)]));
    assert!(!is_device_suitable(&vec![fam(1, false), fam(2, false)]));
}

#[test]
fn first_suitable_device_is_picked() {
    let devices = vec![
        vec![fam(1, false)],
        vec![fam(0, true), fam(1, false)],
        vec![fam(1, true)],
    ];
    assert_eq!(
        pick_physical_device(&devices),
        Some(DeviceChoice {
            physical_device_index: 1,
            indices: QueueFamilyIndices { graphics_family: Some(1), present_family: Some(0) },
        })
    );
}

#[test]
fn no_suitable_device() {
    let devices = vec![vec![fam(1, false)], vec![]];
    assert_eq!(pick_physical_device(&devices), None);
    assert_eq!(pick_physical_device(&vec![]), None);
}

#[test]
fn same_family_gives_one_queue() {
    let indices = QueueFamilyIndices { graphics_family: Some(3), present_family: Some(3) };
    assert_eq!(unique_queue_families(&indices), vec![3]);
}

#[test]
fn distinct_families_give_two_queues() {
    let indices = QueueFamilyIndices { graphics_family: Some(2), present_family: Some(0) };
    assert_eq!(unique_queue_families(&indices), vec![2, 0]);
}
