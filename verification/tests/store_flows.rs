use pipeweaver::default_device::DefaultDefinition;
use pipeweaver::events::{LinkType, NodeTarget, PipewireReceiver};
use pipeweaver::media::MediaClass;
use pipeweaver::registry::{ActiveRoute, PortLocation, Props, RegistryDevice, RegistryDeviceNode, RegistryLink};
use pipeweaver::store::control::{NodeRequestError, ParamTarget};
use pipeweaver::store::creation::{node_properties, FilterProperties, NodeProperties};
use pipeweaver::store::defaults::{name_json_value, DefaultTargetError};
use pipeweaver::store::globals::{handle_link, handle_port, CoreDoneAction, GlobalAction};
use pipeweaver::store::metadata::MetadataKind;
use pipeweaver::store::link_setup::LinkError;
use pipeweaver::store::{ReadySignal, Store};

fn props(pairs: &[(&str, &str)]) -> Props {
    Props { entries: pairs.iter().map(|(k, v)| (k.to_string(), v.to_string())).collect() }
}

fn port_props(node: u32, port: u32, name: &str, channel: &str, dir: &str, monitor: bool) -> Props {
    props(&[("node.id", &node.to_string()), ("port.id", &port.to_string()), ("port.name", name),
        ("audio.channel", channel), ("port.direction", dir), ("port.monitor", if monitor { "true" } else { "false" })])
}

/// A store holding the sound card 7 and its speakers, node 60 (profile
/// port 3), with its ports, announced upstream.
fn store_with_speakers() -> Store {
    let mut s = Store::new();
    s.unmanaged_device_add(7, RegistryDevice::from(&props(&[("object.serial", "70"), ("device.name", "card")])));
    let node = RegistryDeviceNode::try_from(&props(&[("object.serial", "600"), ("device.id", "7"),
        ("media.class", "Audio/Sink"), ("node.name", "alsa_output.speakers"), ("node.description", "Speakers"),
        ("object.path", "alsa:acp:Generic:3:playback")])).unwrap();
    s.accept_device_node(60, node);
    handle_port(100, &port_props(60, 0, "playback_FL", "FL", "in", false), &mut s);
    handle_port(101, &port_props(60, 1, "playback_FR", "FR", "in", false), &mut s);
    handle_port(102, &port_props(60, 2, "monitor_FL", "FL", "out", true), &mut s);
    handle_port(103, &port_props(60, 3, "monitor_FR", "FR", "out", true), &mut s);
    assert!(s.on_device_node_info(60, 2, 2, true));
    s.add_pending_device_sync(5, 60);
    assert_eq!(s.on_core_done(5), CoreDoneAction::SettleDevice(60));
    s.unmanaged_node_synced(60);
    s
}

#[test]
fn device_node_is_announced_once_settled() {
    let mut s = store_with_speakers();
    let events = s.take_events();
    assert_eq!(events.len(), 1);
    match &events[0] {
        PipewireReceiver::DeviceAdded(d) => {
            assert_eq!(d.node_id, 60);
            assert_eq!(d.node_class, MediaClass::Sink);
            assert!(d.is_usable);
            assert_eq!(d.ports_in.len(), 2);
            assert_eq!(d.ports_out.len(), 0);
        },
        other => panic!("unexpected {:?}", other),
    }
    assert_eq!(s.unmanaged_device_get(7).unwrap().nodes, vec![60]);
    // The sync is used up.
    assert_eq!(s.on_core_done(5), CoreDoneAction::Nothing);
}

#[test]
fn device_node_waits_for_its_ports() {
    let mut s = Store::new();
    let node = RegistryDeviceNode::try_from(&props(&[("object.serial", "600"), ("media.class", "Audio/Source"),
        ("node.name", "mic")])).unwrap();
    s.accept_device_node(61, node);
    assert!(s.on_device_node_info(61, 0, 2, true));
    assert!(!s.on_device_node_info(61, 0, 2, true));
    s.unmanaged_node_synced(61);
    assert!(s.take_events().is_empty());
    handle_port(110, &port_props(61, 0, "capture_FL", "FL", "out", false), &mut s);
    assert!(s.take_events().is_empty());
    handle_port(111, &port_props(61, 1, "capture_FR", "FR", "out", false), &mut s);
    let events = s.take_events();
    assert!(matches!(&events[..], [PipewireReceiver::DeviceAdded(d)] if d.node_id == 61 && d.node_class == MediaClass::Source));
}

#[test]
fn removing_a_port_withdraws_the_device() {
    let mut s = store_with_speakers();
    s.take_events();
    s.remove_by_id(101);
    let events = s.take_events();
    assert!(matches!(&events[..], [PipewireReceiver::DeviceRemoved(60)]));
    assert!(s.unmanaged_device_node_get(60).unwrap().ports_desynced());
}

#[test]
fn removing_the_device_node() {
    let mut s = store_with_speakers();
    s.take_events();
    s.remove_by_id(60);
    let events = s.take_events();
    assert!(matches!(&events[..], [PipewireReceiver::DeviceRemoved(60)]));
    assert!(s.unmanaged_device_node_get(60).is_none());
    assert!(s.unmanaged_device_get(7).unwrap().nodes.is_empty());
    // An id nobody knows changes nothing.
    s.remove_by_id(9999);
    assert!(s.take_events().is_empty());
}

#[test]
fn route_volume_reaches_the_node() {
    let mut s = store_with_speakers();
    s.take_events();
    s.on_device_route(7, 3, 5, 2, Some(40), Some(true));
    let events = s.take_events();
    assert!(matches!(&events[..], [PipewireReceiver::DeviceVolumeChanged(60, 40), PipewireReceiver::DeviceMuteChanged(60, true)]));
    assert_eq!(s.unmanaged_device_node_get(60).unwrap().volume, 40);
    assert_eq!(s.unmanaged_node_set_volume(60, 80), Ok(Some(ParamTarget::Route {
        device: 7, route_device: 3, route: ActiveRoute { index: 5, n_channels: 2 } })));
    assert_eq!(s.unmanaged_node_set_mute(60, false), Ok(Some(ParamTarget::Route {
        device: 7, route_device: 3, route: ActiveRoute { index: 5, n_channels: 2 } })));
    assert_eq!(s.unmanaged_node_set_volume(61, 80), Err(NodeRequestError::NodeNotFound));
    assert_eq!(NodeRequestError::NodeNotFound.message(), "Node not found");
}

#[test]
fn node_without_parent_takes_volume_itself() {
    let mut s = Store::new();
    let node = RegistryDeviceNode::try_from(&props(&[("object.serial", "1"), ("media.class", "Audio/Sink")])).unwrap();
    s.accept_device_node(62, node);
    assert_eq!(s.unmanaged_node_set_volume(62, 10), Ok(Some(ParamTarget::Node(62))));
}

#[test]
fn session_default_names_a_device() {
    let mut s = store_with_speakers();
    s.take_events();
    s.on_default_property(0, Some("default.audio.sink"), Some("Spa:String:JSON"),
        Some("{\"name\":\"alsa_output.speakers\"}"));
    let events = s.take_events();
    assert!(matches!(&events[..], [PipewireReceiver::DefaultChanged(MediaClass::Sink, NodeTarget::UnmanagedNode(60))]));
    assert_eq!(s.default_sink.get_default().map(|n| n.as_str()), Some("alsa_output.speakers"));
    assert_eq!(s.default_sink.get_active_node_id(), Some(60));
}

#[test]
fn session_default_needs_json_type_and_name() {
    let mut s = store_with_speakers();
    s.take_events();
    s.on_default_property(0, Some("default.audio.sink"), Some("Spa:Id"), Some("{\"name\":\"x\"}"));
    s.on_default_property(0, Some("default.audio.sink"), Some("Spa:String:JSON"), Some("not json"));
    s.on_default_property(0, Some("default.audio.sink"), Some("Spa:String:JSON"), Some("{\"other\":1}"));
    s.on_default_property(0, Some("default.audio.sink"), Some("Spa:String:JSON"), Some("{\"name\":5}"));
    assert!(s.take_events().is_empty());
    assert!(s.default_sink.get_default().is_none());
    s.on_default_property(0, Some("default.configured.audio.source"), Some("Spa:String:JSON"), Some("{\"name\":\"mic\"}"));
    assert_eq!(s.default_source.get_configured().map(|n| n.as_str()), Some("mic"));
    assert!(s.default_sink.get_configured().is_none());
}

#[test]
fn configured_default_write() {
    let mut s = store_with_speakers();
    assert_eq!(s.set_default_sink_node(NodeTarget::UnmanagedNode(60)).unwrap_err(), DefaultTargetError::NoSessionProxy);
    assert!(s.set_session_proxy());
    assert!(!s.set_session_proxy());
    let w = s.set_default_sink_node(NodeTarget::UnmanagedNode(60)).unwrap();
    assert_eq!(w.subject, 0);
    assert_eq!(w.key, "default.configured.audio.sink");
    assert_eq!(w.value_type, "Spa:String:JSON");
    assert_eq!(w.value, "{\"name\":\"alsa_output.speakers\"}");
    assert_eq!(s.set_default_source_node(NodeTarget::UnmanagedNode(60)).unwrap_err(), DefaultTargetError::NotValidTarget);
    assert_eq!(s.set_default_sink_node(NodeTarget::UnmanagedNode(99)).unwrap_err(), DefaultTargetError::NotValidTarget);
    assert_eq!(name_json_value("a b"), "{\"name\":\"a b\"}");
}

#[test]
fn default_written_for_unnamed_node_is_refused() {
    let mut s = Store::new();
    s.set_session_proxy();
    let node = RegistryDeviceNode::try_from(&props(&[("object.serial", "1"), ("media.class", "Audio/Sink")])).unwrap();
    s.accept_device_node(62, node);
    assert_eq!(s.set_default_sink_node(NodeTarget::UnmanagedNode(62)).unwrap_err(), DefaultTargetError::NodeNotFound);
}

#[test]
fn clock_rate_from_settings() {
    let mut s = Store::new();
    s.on_settings_property(Some("clock.rate"), Some("48000"));
    s.on_settings_property(Some("clock.rate"), Some("fast"));
    s.on_settings_property(Some("clock.quantum"), Some("1024"));
    let events = s.take_events();
    assert!(matches!(&events[..], [PipewireReceiver::AnnouncedClock(Some(48000)), PipewireReceiver::AnnouncedClock(None)]));
}

fn our_node(s: &mut Store, id: u128, pw_id: u32) {
    let p = NodeProperties {
        node_id: id,
        node_name: format!("pipeweaver_{}", id),
        node_nick: "nick".to_string(),
        node_description: "Ours".to_string(),
        initial_volume: 100,
        app_id: "io.github.pipeweaver".to_string(),
        app_name: "Pipeweaver".to_string(),
        linger: false,
        class: MediaClass::Sink,
        managed_volume: true,
        buffer: None,
        rate: 48000,
        ready_sender: true,
    };
    s.node_created(&p, true);
    s.managed_node_set_pw_id(id, pw_id);
    s.managed_node_add_port(id, PortLocation::Left, 0);
    s.managed_node_add_port(id, PortLocation::Right, 1);
}

#[test]
fn our_node_becomes_ready_once() {
    let mut s = Store::new();
    our_node(&mut s, 1, 80);
    assert_eq!(s.take_signals(), vec![ReadySignal::Node(1)]);
    s.managed_node_add_port(1, PortLocation::Left, 0);
    assert!(s.take_signals().is_empty());
    assert!(s.is_managed_node(80));
    assert_eq!(s.managed_node_find_by_node_id(80), Some(1));
}

#[test]
fn preparing_a_link_replaces_unmanaged_links() {
    let mut s = store_with_speakers();
    our_node(&mut s, 1, 80);
    // PipeWire already links our left output to the speakers' left input.
    handle_link(900, &props(&[("object.serial", "9"), ("link.output.node", "80"), ("link.output.port", "0"),
        ("link.input.node", "60"), ("link.input.port", "100")]), &mut s);
    handle_link(901, &props(&[("object.serial", "9"), ("link.output.node", "80"), ("link.output.port", "5"),
        ("link.input.node", "60"), ("link.input.port", "100")]), &mut s);
    assert_eq!(s.remove_all_unmanaged_links(60), vec![900, 901]);
    let (group, destroyed) = s.prepare_links(LinkType::Node(1), LinkType::UnmanagedNode(60), 11, 12).unwrap();
    assert_eq!(destroyed, vec![900]);
    assert!(s.get_unmanaged_links().contains_key(&901));
    let left = group.left.unwrap();
    assert_eq!((left.source_node, left.source_port, left.destination_node, left.destination_port), (80, 0, 60, 100));
    let right = group.right.unwrap();
    assert_eq!((right.source_node, right.source_port, right.destination_node, right.destination_port), (80, 1, 60, 101));
    assert!(group.ready_sender);
    assert_eq!(group.first_channel().unwrap().internal_id, 11);
    assert_eq!(s.prepare_links(LinkType::Node(2), LinkType::UnmanagedNode(60), 13, 14).unwrap_err(), LinkError::NodeNotFound);
    assert_eq!(s.prepare_links(LinkType::Node(1), LinkType::UnmanagedNode(61), 13, 14).unwrap_err(),
        LinkError::UnmanagedNodeNotFound);
}

#[test]
fn link_channels_are_created_one_after_another() {
    let mut s = store_with_speakers();
    our_node(&mut s, 1, 80);
    s.take_signals();
    let (group, _) = s.prepare_links(LinkType::Node(1), LinkType::UnmanagedNode(60), 11, 12).unwrap();
    s.add_pending_link(500, group);
    // The left channel is created, bound, and settles on sync 20.
    s.managed_link_bound(500, 11, 700);
    s.set_pending_link_done(500, 11, 20);
    match s.on_core_done(20) {
        CoreDoneAction::CreateLink(500, c) => assert_eq!(c.internal_id, 12),
        other => panic!("unexpected {:?}", other),
    }
    s.managed_link_bound(500, 12, 701);
    s.set_pending_link_done(500, 12, 21);
    assert_eq!(s.on_core_done(21), CoreDoneAction::Nothing);
    assert_eq!(s.take_signals(), vec![ReadySignal::Link(500)]);
    assert_eq!(s.is_managed_link(700), Some(500));
    assert_eq!(s.is_managed_link(701), Some(500));
    // The channels PipeWire reports are ours, not unmanaged links.
    handle_link(700, &props(&[("object.serial", "9"), ("link.output.node", "80"), ("link.output.port", "0"),
        ("link.input.node", "60"), ("link.input.port", "100")]), &mut s);
    assert!(!s.get_unmanaged_links().contains_key(&700));
    // Something removed one channel: the link is dropped and upstream told.
    s.take_events();
    s.remove_by_id(700);
    let events = s.take_events();
    assert!(matches!(&events[..], [PipewireReceiver::ManagedLinkDropped(LinkType::Node(1), LinkType::UnmanagedNode(60))]));
    assert_eq!(s.is_managed_link(701), None);
}

#[test]
fn application_target_writes() {
    let mut s = Store::new();
    our_node(&mut s, 1, 80);
    assert_eq!(s.set_application_target(30, 1).unwrap().len(), 0);
    s.set_session_proxy();
    s.managed_node_set_pw_serial(80, 812);
    let writes = s.set_application_target(30, 1).unwrap();
    assert_eq!(writes.len(), 2);
    assert_eq!((writes[0].subject, writes[0].key.as_str(), writes[0].value_type.as_str(), writes[0].value.as_str()),
        (30, "target.node", "Spa:Id", "80"));
    assert_eq!((writes[1].key.as_str(), writes[1].value.as_str()), ("target.object", "812"));
    assert_eq!(s.set_application_target(30, 2).unwrap_err(), NodeRequestError::TargetNotFound);
    let cleared = s.clear_application_target(30);
    assert_eq!((cleared[0].key.as_str(), cleared[0].value.as_str()), ("target.node", "-1"));
    assert_eq!((cleared[1].key.as_str(), cleared[1].value.as_str()), ("target.object", "-1"));
    assert_eq!(s.set_volume(1, 50), Ok(()));
    assert_eq!(s.set_mute(2, true), Err(NodeRequestError::FailedToFindNode));
}

#[test]
fn node_properties_for_pipewire() {
    let p = NodeProperties {
        node_id: 1,
        node_name: "pipeweaver_system".to_string(),
        node_nick: "System".to_string(),
        node_description: "System".to_string(),
        initial_volume: 100,
        app_id: "io.github.pipeweaver".to_string(),
        app_name: "Pipeweaver".to_string(),
        linger: true,
        class: MediaClass::Source,
        managed_volume: false,
        buffer: Some(512),
        rate: 48000,
        ready_sender: false,
    };
    let props = node_properties(&p);
    assert_eq!(props.get("media.class").map(|s| s.as_str()), Some("Audio/Source/Virtual"));
    assert_eq!(props.get("node.force-rate").map(|s| s.as_str()), Some("48000"));
    assert_eq!(props.get("node.force-quantum").map(|s| s.as_str()), Some("512"));
    assert_eq!(props.get("object.linger").map(|s| s.as_str()), Some("true"));
    assert_eq!(props.get("monitor.channel-volumes").map(|s| s.as_str()), Some("true"));
    assert_eq!(props.entries.len(), 19);
}

#[test]
fn stream_target_from_metadata() {
    let mut s = store_with_speakers();
    s.take_events();
    // A client and its stream, not yet running.
    s.unmanaged_client_add(11, pipeweaver::registry::RegistryClient::try_from(&props(&[("object.serial", "11"),
        ("module.id", "3"), ("pipewire.protocol", "p"), ("pipewire.sec.pid", "1"), ("pipewire.sec.uid", "1"),
        ("pipewire.sec.gid", "1"), ("pipewire.access", "a"), ("application.name", "Player")])).unwrap());
    let node = pipeweaver::registry::RegistryClientNode::try_from(&props(&[("object.serial", "41"), ("client.id", "11"),
        ("node.name", "player"), ("media.class", "Stream/Output/Audio")])).unwrap();
    assert!(s.accept_client_node(40, node));
    s.on_default_property(40, Some("target.object"), Some("Spa:Id"), Some("600"));
    let n = s.unmanaged_client_node_get(40).unwrap();
    assert_eq!(n.media_target, Some(Some(NodeTarget::UnmanagedNode(60))));
    s.on_default_property(40, Some("target.node"), Some("Spa:Id"), Some("-1"));
    assert_eq!(s.unmanaged_client_node_get(40).unwrap().media_target, Some(None));
    assert!(s.take_events().is_empty());
    let orphan = pipeweaver::registry::RegistryClientNode::try_from(&props(&[("object.serial", "42"), ("client.id", "99"),
        ("node.name", "x"), ("media.class", "Stream/Output/Audio")])).unwrap();
    assert!(!s.accept_client_node(43, orphan));
}

#[test]
fn set_default_definition_directly() {
    let mut s = store_with_speakers();
    s.take_events();
    s.set_default_sink(DefaultDefinition::Configured("alsa_output.speakers".to_string()));
    let events = s.take_events();
    assert!(matches!(&events[..], [PipewireReceiver::DefaultChanged(MediaClass::Sink, NodeTarget::UnmanagedNode(60))]));
    s.set_default_sink(DefaultDefinition::Configured("alsa_output.speakers".to_string()));
    assert!(s.take_events().is_empty());
}

#[test]
fn withdrawn_device_returns_with_its_ports() {
    let mut s = store_with_speakers();
    s.take_events();
    s.remove_by_id(101);
    assert!(matches!(&s.take_events()[..], [PipewireReceiver::DeviceRemoved(60)]));
    handle_port(101, &port_props(60, 1, "playback_FR", "FR", "in", false), &mut s);
    let events = s.take_events();
    assert!(matches!(&events[..], [PipewireReceiver::DeviceAdded(d)] if d.node_id == 60));
}

#[test]
fn ports_with_missing_properties_are_ignored() {
    let mut s = store_with_speakers();
    s.take_events();
    handle_port(120, &props(&[("node.id", "60"), ("port.id", "9"), ("port.name", "x"), ("port.direction", "in")]), &mut s);
    handle_port(121, &port_props(60, 9, "x", "FC", "sideways", false), &mut s);
    assert!(s.take_events().is_empty());
    assert!(!s.unmanaged_device_node_get(60).unwrap().ports_desynced());
}

/// A store holding client 11 ("Player") with a running stereo stream 40
/// whose ports are known; the client's binary is not known yet.
fn store_with_running_stream() -> Store {
    let mut s = Store::new();
    s.unmanaged_client_add(11, pipeweaver::registry::RegistryClient::try_from(&props(&[("object.serial", "11"),
        ("module.id", "3"), ("pipewire.protocol", "p"), ("pipewire.sec.pid", "1"), ("pipewire.sec.uid", "1"),
        ("pipewire.sec.gid", "1"), ("pipewire.access", "a"), ("application.name", "Player")])).unwrap());
    let node = pipeweaver::registry::RegistryClientNode::try_from(&props(&[("object.serial", "41"), ("client.id", "11"),
        ("node.name", "player"), ("media.class", "Stream/Output/Audio")])).unwrap();
    assert!(s.accept_client_node(40, node));
    handle_port(400, &port_props(40, 0, "output_FL", "FL", "out", false), &mut s);
    handle_port(401, &port_props(40, 1, "output_FR", "FR", "out", false), &mut s);
    s.unmanaged_client_node_set_state(40, true);
    s
}

#[test]
fn stream_of_client_without_binary_is_not_announced() {
    let mut s = store_with_running_stream();
    assert_eq!(s.is_usable_unmanaged_client_node(40), None);
    s.unmanaged_client_node_check(40);
    s.on_default_property(40, Some("target.node"), Some("Spa:Id"), Some("-1"));
    assert!(s.take_events().is_empty());
}

#[test]
fn stream_is_announced_once_its_client_binary_is_known() {
    let mut s = store_with_running_stream();
    s.take_events();
    s.unmanaged_client_set_binary(11, "player-bin".to_string());
    assert_eq!(s.is_usable_unmanaged_client_node(40), Some(MediaClass::Source));
    let events = s.take_events();
    assert_eq!(events.len(), 1);
    match &events[0] {
        PipewireReceiver::ApplicationAdded(app) => {
            assert_eq!(app.node_id, 40);
            assert_eq!(app.process_name, "player-bin");
        },
        _ => panic!("expected ApplicationAdded"),
    }
    s.unmanaged_client_node_check(40);
    assert!(s.take_events().is_empty());
}

#[test]
fn refused_creation_records_nothing() {
    let mut s = Store::new();
    let p = NodeProperties {
        node_id: 5,
        node_name: "pipeweaver_5".to_string(),
        node_nick: "nick".to_string(),
        node_description: "Ours".to_string(),
        initial_volume: 100,
        app_id: "io.github.pipeweaver".to_string(),
        app_name: "Pipeweaver".to_string(),
        linger: false,
        class: MediaClass::Sink,
        managed_volume: true,
        buffer: None,
        rate: 48000,
        ready_sender: true,
    };
    s.node_created(&p, false);
    assert!(s.managed_node_get(5).is_none());
    s.node_created(&p, true);
    assert!(s.managed_node_get(5).is_some());
    let f = FilterProperties {
        filter_id: 6,
        filter_name: "f".to_string(),
        filter_nick: "f".to_string(),
        filter_description: "f".to_string(),
        app_id: "io.github.pipeweaver".to_string(),
        app_name: "Pipeweaver".to_string(),
        class: MediaClass::Duplex,
        linger: false,
        ready_sender: false,
    };
    s.filter_created(&f, false);
    assert!(s.managed_filter_get(6).is_none());
    s.filter_created(&f, true);
    let filter = s.managed_filter_get(6).unwrap();
    assert_eq!((filter.port_in_right, filter.port_out_right), (1, 1));
}

#[test]
fn globals_are_dispatched_by_interface() {
    let mut s = Store::new();
    assert_eq!(s.on_global(7, "PipeWire:Interface:Device", &props(&[("object.serial", "70"), ("device.name", "card")])),
        GlobalAction::BindDevice(7));
    assert!(s.unmanaged_device_get(7).is_some());
    let node = props(&[("object.serial", "600"), ("device.id", "7"), ("media.class", "Audio/Sink"),
        ("node.name", "alsa_output.speakers"), ("object.path", "alsa:acp:Generic:3:playback")]);
    assert_eq!(s.on_global(60, "PipeWire:Interface:Node", &node), GlobalAction::BindDeviceNode(60));
    assert_eq!(s.unmanaged_device_get(7).unwrap().nodes, vec![60]);
    assert_eq!(s.on_global(61, "PipeWire:Interface:Node", &props(&[("media.class", "Video/Source")])),
        GlobalAction::Nothing);
    let client = props(&[("object.serial", "11"), ("module.id", "3"), ("pipewire.protocol", "p"),
        ("pipewire.sec.pid", "1"), ("pipewire.sec.uid", "1"), ("pipewire.sec.gid", "1"), ("pipewire.access", "a"),
        ("application.name", "Player")]);
    assert_eq!(s.on_global(11, "PipeWire:Interface:Client", &client), GlobalAction::BindClient(11));
    assert_eq!(s.on_global(12, "PipeWire:Interface:Client", &props(&[("object.serial", "12")])), GlobalAction::Nothing);
    let stream = props(&[("object.serial", "41"), ("client.id", "11"), ("node.name", "player"),
        ("media.class", "Stream/Output/Audio")]);
    assert_eq!(s.on_global(40, "PipeWire:Interface:Node", &stream), GlobalAction::BindClientNode(40));
    let orphan = props(&[("object.serial", "42"), ("client.id", "99"), ("node.name", "x"),
        ("media.class", "Stream/Output/Audio")]);
    assert_eq!(s.on_global(43, "PipeWire:Interface:Node", &orphan), GlobalAction::Nothing);
    assert_eq!(s.on_global(5, "PipeWire:Interface:Metadata", &props(&[("metadata.name", "default")])),
        GlobalAction::BindMetadata(5, MetadataKind::Session));
    assert_eq!(s.on_global(6, "PipeWire:Interface:Metadata", &props(&[("metadata.name", "route-settings")])),
        GlobalAction::Nothing);
    assert_eq!(s.on_global(8, "PipeWire:Interface:Module", &props(&[])), GlobalAction::Nothing);
}
