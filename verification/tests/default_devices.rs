use pipeweaver::default_device::{DefaultDefinition, DefaultDevice};

fn empty() -> DefaultDevice {
    DefaultDevice { configured: None, default: None }
}

#[test]
fn configured_name_is_read_back() {
    let mut d = empty();
    assert!(d.set(DefaultDefinition::Configured("speakers".to_string())));
    assert_eq!(d.get_configured().map(|s| s.as_str()), Some("speakers"));
    assert!(!d.set(DefaultDefinition::Configured("speakers".to_string())));
    assert_eq!(d.get_active_node_id(), None);
}

#[test]
fn configured_node_wins_over_default() {
    let mut d = empty();
    assert!(d.set_default("hdmi".to_string()));
    assert!(d.set_default_node_id(40));
    assert_eq!(d.get_active_node_id(), Some(40));
    assert!(d.set_configured("speakers".to_string()));
    assert!(d.set_configured_node_id(41));
    assert_eq!(d.get_active_node_id(), Some(41));
    // Once the configured node is known, the session default is no news.
    assert!(!d.set_default_node_id(42));
    assert_eq!(d.get_active_node_id(), Some(41));
}

#[test]
fn default_equal_to_configured_is_refused() {
    let mut d = empty();
    d.set_configured("speakers".to_string());
    assert!(!d.set_default("speakers".to_string()));
    assert_eq!(d.get_default(), None);
}

#[test]
fn node_ids_follow_devices() {
    let mut d = empty();
    d.set_configured("speakers".to_string());
    d.set_default("hdmi".to_string());
    assert!(d.device_added(7, "speakers"));
    assert_eq!(d.get_active_node_id(), Some(7));
    assert!(!d.device_added(8, "hdmi"));
    assert!(d.device_removed(7));
    assert_eq!(d.get_active_node_id(), Some(8));
    assert!(d.device_removed(8));
    assert_eq!(d.get_active_node_id(), None);
    assert!(!d.device_removed(9));
    assert!(!d.device_added(9, "other"));
}

#[test]
fn set_node_id_without_a_name_changes_nothing() {
    let mut d = empty();
    assert!(!d.set_configured_node_id(3));
    assert!(!d.set_default_node_id(3));
    assert_eq!(d.get_active_node_id(), None);
}

#[test]
fn removed_node_is_forgotten_by_both_entries() {
    let mut d = DefaultDevice::default();
    d.set_default("x".to_string());
    d.set_default_node_id(5);
    d.set_configured("y".to_string());
    d.set_configured_node_id(5);
    assert!(d.device_removed(5));
    assert_eq!(d.get_active_node_id(), None);
    assert!(!d.device_removed(5));
}
