use pipeweaver::daemon::{DeviceAction, DeviceEvent, DeviceGrace, PipewireNode};
use pipeweaver::media::MediaClass;

fn node(id: u32, class: MediaClass) -> PipewireNode {
    PipewireNode { node_id: id, node_class: class, name: Some(format!("dev{}", id)), nickname: None,
        description: Some("Device".to_string()) }
}

#[test]
fn device_waits_then_settles() {
    let mut g = DeviceGrace::new();
    assert_eq!(g.on_device_event(DeviceEvent::Added(node(5, MediaClass::Sink))), DeviceAction::StartGrace(5));
    assert_eq!(g.on_device_event(DeviceEvent::Added(node(5, MediaClass::Sink))), DeviceAction::Nothing);
    assert_eq!(g.on_device_event(DeviceEvent::GraceOver(5)), DeviceAction::Settle(node(5, MediaClass::Sink)));
    assert!(g.pending.is_empty());
    assert_eq!(g.physical, vec![node(5, MediaClass::Sink)]);
    assert_eq!(g.on_device_event(DeviceEvent::Removed(5)), DeviceAction::Withdraw(5, MediaClass::Sink));
    assert!(g.physical.is_empty());
    assert_eq!(g.on_device_event(DeviceEvent::Removed(5)), DeviceAction::Nothing);
}

#[test]
fn device_gone_during_grace_is_dropped_quietly() {
    let mut g = DeviceGrace::new();
    assert_eq!(g.on_device_event(DeviceEvent::Added(node(7, MediaClass::Duplex))), DeviceAction::StartGrace(7));
    assert_eq!(g.on_device_event(DeviceEvent::Added(node(8, MediaClass::Source))), DeviceAction::StartGrace(8));
    assert_eq!(g.on_device_event(DeviceEvent::Removed(7)), DeviceAction::CancelGrace(7));
    assert_eq!(g.pending, vec![node(8, MediaClass::Source)]);
    assert!(g.physical.is_empty());
}


#[test]
fn waiting_devices_are_known() {
    let mut g = DeviceGrace::new();
    assert!(!g.is_waiting(3));
    g.on_device_event(DeviceEvent::Added(node(3, MediaClass::Sink)));
    assert!(g.is_waiting(3));
    g.on_device_event(DeviceEvent::Removed(3));
    assert!(!g.is_waiting(3));
}
