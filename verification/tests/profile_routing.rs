use pipeweaver::id_map::IdMap;
use pipeweaver::profile::{attach_physical_node, PhysicalDeviceDescriptor, PhysicalDeviceEntry};
use pipeweaver::routing::{ProfileDevices, RouteError, RouteTable};
use pipeweaver::shared::NodeType;

fn descriptor(name: Option<&str>, description: Option<&str>) -> PhysicalDeviceDescriptor {
    PhysicalDeviceDescriptor { name: name.map(String::from), description: description.map(String::from) }
}

fn profile_devices() -> Vec<PhysicalDeviceEntry> {
    vec![
        PhysicalDeviceEntry { id: 1, attached_devices: vec![descriptor(Some("alsa_input.usb-mic"), Some("USB Mic"))] },
        PhysicalDeviceEntry { id: 2, attached_devices: vec![
            descriptor(None, Some("Headset")),
            descriptor(Some("alsa_input.headset"), Some("Old Headset")),
        ] },
    ]
}

#[test]
fn attach_by_name_updates_description() {
    let mut devices = profile_devices();
    assert_eq!(attach_physical_node(&mut devices, Some("alsa_input.usb-mic"), Some("Renamed Mic")), Some(1));
    assert_eq!(devices[0].attached_devices[0], descriptor(Some("alsa_input.usb-mic"), Some("Renamed Mic")));
}

#[test]
fn attach_by_description_updates_name_then_matches_by_name() {
    let mut devices = profile_devices();
    assert_eq!(attach_physical_node(&mut devices, Some("alsa_input.new-headset"), Some("Headset")), Some(2));
    assert_eq!(devices[1].attached_devices[0], descriptor(Some("alsa_input.new-headset"), Some("Headset")));
    let before = devices.clone();
    // The same node again: found by its name now, nothing else changes.
    assert_eq!(attach_physical_node(&mut devices, Some("alsa_input.new-headset"), Some("Headset")), Some(2));
    assert_eq!(devices[1].attached_devices, before[1].attached_devices);
}

#[test]
fn name_is_tried_before_description_within_a_device() {
    let mut devices = profile_devices();
    assert_eq!(attach_physical_node(&mut devices, Some("alsa_input.headset"), Some("Headset")), Some(2));
    assert_eq!(devices[1].attached_devices[1], descriptor(Some("alsa_input.headset"), Some("Headset")));
    assert_eq!(devices[1].attached_devices[0], descriptor(None, Some("Headset")));
}

#[test]
fn unknown_hardware_attaches_nowhere() {
    let mut devices = profile_devices();
    assert_eq!(attach_physical_node(&mut devices, Some("other"), Some("Other")), None);
    assert_eq!(attach_physical_node(&mut devices, None, None), None);
    assert_eq!(devices[0].attached_devices, profile_devices()[0].attached_devices);
}

fn devices() -> ProfileDevices {
    ProfileDevices { physical_sources: vec![10], virtual_sources: vec![11], physical_targets: vec![20],
        virtual_targets: vec![21] }
}

fn volumes() -> IdMap<u128, u128> {
    let mut v = IdMap::new();
    v.insert(21, 210);
    v
}

#[test]
fn node_types() {
    let d = devices();
    assert_eq!(d.get_node_type(10), Some(NodeType::PhysicalSource));
    assert_eq!(d.get_node_type(11), Some(NodeType::VirtualSource));
    assert_eq!(d.get_node_type(20), Some(NodeType::PhysicalTarget));
    assert_eq!(d.get_node_type(21), Some(NodeType::VirtualTarget));
    assert_eq!(d.get_node_type(99), None);
}

#[test]
fn routes_read_back() {
    let d = devices();
    let v = volumes();
    let mut t = RouteTable::new();
    assert_eq!(t.routing_route_exists(&d, 10, 20), Ok(false));
    assert_eq!(t.routing_set_route(&d, &v, 10, 20, true), Ok(20));
    assert_eq!(t.routing_route_exists(&d, 10, 20), Ok(true));
    assert_eq!(t.routing_set_route(&d, &v, 10, 21, true), Ok(210));
    assert_eq!(t.routing_set_route(&d, &v, 10, 20, true), Err(RouteError::AlreadySet));
    assert_eq!(t.routing_set_route(&d, &v, 10, 20, false), Ok(20));
    assert_eq!(t.routing_route_exists(&d, 10, 20), Ok(false));
    assert_eq!(t.routing_route_exists(&d, 10, 21), Ok(true));
    assert_eq!(t.routing_set_route(&d, &v, 10, 20, false), Err(RouteError::AlreadySet));
}

#[test]
fn routes_refused() {
    let d = devices();
    let mut t = RouteTable::new();
    assert_eq!(t.routing_set_route(&d, &IdMap::new(), 99, 20, true), Err(RouteError::SourceNotFound));
    assert_eq!(t.routing_set_route(&d, &IdMap::new(), 10, 99, true), Err(RouteError::TargetNotFound));
    assert_eq!(t.routing_set_route(&d, &IdMap::new(), 20, 20, true), Err(RouteError::SourceIsTarget));
    assert_eq!(t.routing_set_route(&d, &IdMap::new(), 10, 11, true), Err(RouteError::TargetIsSource));
    assert_eq!(t.routing_set_route(&d, &IdMap::new(), 10, 21, true), Err(RouteError::NoTargetVolume));
    assert_eq!(t.routing_route_exists(&d, 20, 10), Err(RouteError::SourceIsTarget));
    assert_eq!(RouteError::AlreadySet.message(), "Requested route change already set");
}

#[test]
fn id_map_behaves_as_a_map() {
    let mut m: IdMap<u32, &str> = IdMap::new();
    m.insert(3, "c");
    m.insert(1, "a");
    m.insert(3, "C");
    assert_eq!(m.len(), 2);
    assert_eq!(m.get(&3), Some(&"C"));
    assert_eq!(m.key_at(0), 3);
    assert_eq!(m.remove(&3), Some("C"));
    assert_eq!(m.remove(&3), None);
    assert!(!m.contains_key(&3));
    assert_eq!(m.entry(0), &(1, "a"));
}
