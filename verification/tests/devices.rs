use electrum::input::devices::{contains_capability, DeviceCapability, Devices};

fn id(name: &str) -> String {
    name.to_string()
}

#[test]
fn capability_is_gained_once_and_lost_once() {
    let mut devices = Devices::new();
    let keyboard = vec![DeviceCapability::Keyboard];

    assert_eq!(devices.add_device(&id("kbd-a"), &keyboard), vec![DeviceCapability::Keyboard]);
    assert_eq!(devices.add_device(&id("kbd-b"), &keyboard), vec![]);
    assert!(devices.has_capability(DeviceCapability::Keyboard));

    assert_eq!(devices.remove_device(&id("kbd-a")), vec![]);
    assert!(devices.has_capability(DeviceCapability::Keyboard));
    assert_eq!(devices.remove_device(&id("kbd-b")), vec![DeviceCapability::Keyboard]);
    assert!(!devices.has_capability(DeviceCapability::Keyboard));
}

#[test]
fn only_supported_capabilities_are_registered() {
    let mut devices = Devices::new();
    let reported = vec![
        DeviceCapability::Touch,
        DeviceCapability::Pointer,
        DeviceCapability::TabletTool,
        DeviceCapability::Keyboard,
    ];
    // keyboard comes first, whatever order the device reports
    assert_eq!(
        devices.add_device(&id("combo"), &reported),
        vec![DeviceCapability::Keyboard, DeviceCapability::Pointer]
    );
    assert!(!devices.has_capability(DeviceCapability::Touch));
    assert_eq!(devices.entries.len(), 1);
    assert_eq!(
        devices.entries[0].caps,
        vec![DeviceCapability::Keyboard, DeviceCapability::Pointer]
    );
}

#[test]
fn device_without_supported_capability_is_still_registered() {
    let mut devices = Devices::new();
    assert_eq!(devices.add_device(&id("touch"), &vec![DeviceCapability::Touch]), vec![]);
    assert!(devices.has_device(&id("touch")));
    assert_eq!(devices.remove_device(&id("touch")), vec![]);
    assert!(!devices.has_device(&id("touch")));
}

#[test]
fn has_device_follows_add_and_remove() {
    let mut devices = Devices::new();
    assert!(!devices.has_device(&id("mouse")));
    devices.add_device(&id("mouse"), &vec![DeviceCapability::Pointer]);
    assert!(devices.has_device(&id("mouse")));
    assert!(!devices.has_device(&id("mous")));
    devices.remove_device(&id("mouse"));
    assert!(!devices.has_device(&id("mouse")));
}

#[test]
fn removing_an_unknown_device_loses_nothing() {
    let mut devices = Devices::new();
    devices.add_device(&id("mouse"), &vec![DeviceCapability::Pointer]);
    assert_eq!(devices.remove_device(&id("ghost")), vec![]);
    assert!(devices.has_device(&id("mouse")));
    assert!(devices.has_capability(DeviceCapability::Pointer));
}

#[test]
fn adding_a_device_again_replaces_its_capabilities() {
    let mut devices = Devices::new();
    devices.add_device(&id("dev"), &vec![DeviceCapability::Pointer]);
    // the pointer capability is there before the insert, so only the keyboard is new
    assert_eq!(
        devices.add_device(&id("dev"), &vec![DeviceCapability::Keyboard]),
        vec![DeviceCapability::Keyboard]
    );
    assert_eq!(devices.entries.len(), 1);
    assert!(!devices.has_capability(DeviceCapability::Pointer));
    assert!(devices.has_capability(DeviceCapability::Keyboard));
}

#[test]
fn aggregate_equals_union_over_an_interleaving() {
    // four devices, a fixed interleaving of adds and removes; after each step
    // the registry's capabilities are the union of what is registered, and the
    // reported difference is the change of that union
    let caps: Vec<Vec<DeviceCapability>> = vec![
        vec![DeviceCapability::Keyboard],
        vec![DeviceCapability::Pointer],
        vec![DeviceCapability::Keyboard, DeviceCapability::Pointer],
        vec![DeviceCapability::Touch],
    ];
    let steps: Vec<(bool, usize)> = vec![
        (true, 0),
        (true, 2),
        (true, 1),
        (false, 0),
        (true, 3),
        (false, 2),
        (false, 1),
        (true, 0),
        (false, 3),
        (false, 0),
    ];
    let both = [DeviceCapability::Keyboard, DeviceCapability::Pointer];
    let mut devices = Devices::new();
    let mut registered = vec![false; 4];
    for (add, d) in steps {
        let before: Vec<bool> = both
            .iter()
            .map(|c| (0..4).any(|i| registered[i] && caps[i].contains(c)))
            .collect();
        let name = format!("dev-{}", d);
        let diff = if add {
            registered[d] = true;
            devices.add_device(&name, &caps[d])
        } else {
            registered[d] = false;
            devices.remove_device(&name)
        };
        for (k, c) in both.iter().enumerate() {
            let after = (0..4).any(|i| registered[i] && caps[i].contains(c));
            assert_eq!(devices.has_capability(*c), after);
            let changed = if add { !before[k] && after } else { before[k] && !after };
            assert_eq!(diff.iter().filter(|x| *x == c).count(), if changed { 1 } else { 0 });
        }
    }
}

#[test]
fn contains_capability_finds_members_only() {
    let caps = vec![DeviceCapability::Pointer, DeviceCapability::Switch];
    assert!(contains_capability(&caps, DeviceCapability::Switch));
    assert!(!contains_capability(&caps, DeviceCapability::Keyboard));
    assert!(!contains_capability(&vec![], DeviceCapability::Pointer));
}
