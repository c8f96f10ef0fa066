use pipeweaver::media::MediaClass;
use pipeweaver::registry::{to_object_type, ObjectType, PortLocation, Props, UnknownChannel, RegistryClient, RegistryClientNode,
    RegistryDevice, RegistryDeviceNode, RegistryError, RegistryFactory, RegistryLink, RegistryPort};
use pipeweaver::shared::PortDirection;

fn props(pairs: &[(&str, &str)]) -> Props {
    Props { entries: pairs.iter().map(|(k, v)| (k.to_string(), v.to_string())).collect() }
}

#[test]
fn props_first_entry_wins() {
    let p = props(&[("a", "1"), ("b", "x"), ("a", "2")]);
    assert_eq!(p.get("a").map(|s| s.as_str()), Some("1"));
    assert_eq!(p.get_u32("a"), Some(1));
    assert_eq!(p.get_u32("b"), None);
    assert_eq!(p.get_string("c"), None);
}

#[test]
fn link_read_from_props() {
    let p = props(&[("object.serial", "90"), ("link.input.node", "1"), ("link.input.port", "2"),
        ("link.output.node", "3"), ("link.output.port", "4")]);
    assert_eq!(RegistryLink::try_from(&p), Ok(RegistryLink { object_serial: 90, input_node: 1, input_port: 2,
        output_node: 3, output_port: 4 }));
    let p = props(&[("object.serial", "90"), ("link.input.node", "1"), ("link.input.port", "x")]);
    assert_eq!(RegistryLink::try_from(&p), Err(RegistryError::LinkInputPort));
    assert_eq!(RegistryLink::try_from(&props(&[])), Err(RegistryError::ObjectSerial));
}

#[test]
fn factory_read_from_props() {
    let p = props(&[("object.serial", "5"), ("module.id", "2"), ("factory.name", "link-factory"),
        ("factory.type.name", "PipeWire:Interface:Link"), ("factory.type.version", "3")]);
    let f = RegistryFactory::try_from(&p).unwrap();
    assert_eq!(f.object_serial, 5);
    assert_eq!(f.module_id, 2);
    assert_eq!(f.name, "link-factory");
    assert!(matches!(f.factory_type, ObjectType::Link));
    assert_eq!(f.version, 3);
    let p = props(&[("object.serial", "5"), ("module.id", "2"), ("factory.name", "x")]);
    assert_eq!(RegistryFactory::try_from(&p).unwrap_err(), RegistryError::FactoryTypeName);
}

#[test]
fn object_types() {
    assert!(matches!(to_object_type("PipeWire:Interface:Node"), ObjectType::Node));
    assert!(matches!(to_object_type("PipeWire:Interface:Metadata"), ObjectType::Metadata));
    match to_object_type("PipeWire:Interface:Unknown") {
        ObjectType::Other(s) => assert_eq!(s, "PipeWire:Interface:Unknown"),
        _ => panic!("expected Other"),
    }
}

fn client_props() -> Props {
    props(&[("object.serial", "11"), ("module.id", "3"), ("pipewire.protocol", "protocol-native"),
        ("pipewire.sec.pid", "1000"), ("pipewire.sec.uid", "1001"), ("pipewire.sec.gid", "1002"),
        ("pipewire.access", "unrestricted"), ("application.name", "Firefox")])
}

#[test]
fn client_read_from_props() {
    let c = RegistryClient::try_from(&client_props()).unwrap();
    assert_eq!(c.object_serial, 11);
    assert_eq!(c.process_id, 1000);
    assert_eq!(c.application_name, "Firefox");
    assert_eq!(c.application_binary, None);
    assert!(c.nodes.is_empty());
    let p = props(&[("object.serial", "11"), ("module.id", "3"), ("pipewire.protocol", "p")]);
    assert_eq!(RegistryClient::try_from(&p).unwrap_err(), RegistryError::SecPid);
}

#[test]
fn client_node_read_from_props() {
    let p = props(&[("object.serial", "40"), ("client.id", "11"), ("media.name", "Video"),
        ("node.name", "Firefox"), ("media.class", "Stream/Output/Audio")]);
    let n = RegistryClientNode::try_from(&p).unwrap();
    assert_eq!(n.parent_id, 11);
    assert_eq!(n.application_name, "Video");
    assert_eq!(n.node_name, "Firefox");
    let p = props(&[("object.serial", "40"), ("client.id", "11"), ("node.name", "x"), ("media.class", "Audio/Sink")]);
    assert_eq!(RegistryClientNode::try_from(&p).unwrap_err(), RegistryError::NotAStream);
    let p = props(&[("object.serial", "40"), ("client.id", "11")]);
    assert_eq!(RegistryClientNode::try_from(&p).unwrap_err(), RegistryError::ApplicationName);
}

#[test]
fn device_read_from_props() {
    let p = props(&[("object.serial", "7"), ("device.name", "alsa_card.pci"), ("device.nick", "HDA")]);
    let d = RegistryDevice::from(&p);
    assert_eq!(d.object_serial, 7);
    assert_eq!(d.name.as_deref(), Some("alsa_card.pci"));
    assert_eq!(d.nickname.as_deref(), Some("HDA"));
    assert_eq!(d.description, None);
    assert!(d.nodes.is_empty());
}

fn device_node_props(class: &str) -> Props {
    props(&[("object.serial", "60"), ("device.id", "7"), ("media.class", class), ("node.name", "alsa_output"),
        ("node.description", "Speakers"), ("object.path", "alsa:acp:Generic:3:playback")])
}

#[test]
fn device_node_read_from_props() {
    let n = RegistryDeviceNode::try_from(&device_node_props("Audio/Sink")).unwrap();
    assert_eq!(n.object_serial, 60);
    assert_eq!(n.parent_id, Some(7));
    assert!(!n.sent_upstream && !n.clock_ready && !n.is_synced);
    assert_eq!(n.profile_port(), Some(3));
    assert_eq!(RegistryDeviceNode::try_from(&device_node_props("Audio/Sink/Internal")).unwrap_err(),
        RegistryError::InternalDevice);
    assert_eq!(RegistryDeviceNode::try_from(&device_node_props("Video/Source")).unwrap_err(),
        RegistryError::NotAudioDevice);
    let p = props(&[("object.serial", "60")]);
    assert_eq!(RegistryDeviceNode::try_from(&p).unwrap_err(), RegistryError::MissingMediaClass);
    assert_eq!(RegistryError::InternalDevice.message(), "Internal Device Node");
}

#[test]
fn device_node_usable_class_and_sync() {
    let mut n = RegistryDeviceNode::try_from(&device_node_props("Audio/Sink")).unwrap();
    assert!(n.ports_desynced());
    assert_eq!(n.usable_media_class(), None);
    n.add_port(PortDirection::In, RegistryPort::new(100, "playback_FL", "FL", false));
    n.add_port(PortDirection::In, RegistryPort::new(101, "playback_FR", "FR", false));
    n.add_port(PortDirection::Out, RegistryPort::new(102, "monitor_FL", "FL", true));
    n.add_port(PortDirection::Out, RegistryPort::new(103, "monitor_FR", "FR", true));
    assert_eq!(n.usable_media_class(), Some(MediaClass::Sink));
    n.port_count_in = Some(2);
    n.port_count_out = Some(2);
    assert!(!n.ports_desynced());
    let d = n.to_device_node(55, MediaClass::Sink, true);
    assert_eq!(d.node_id, 55);
    assert_eq!(d.ports_in.len(), 2);
    assert_eq!(d.ports_out.len(), 0);
    assert_eq!(d.description.as_deref(), Some("Speakers"));
}

#[test]
fn surround_device_is_stereo_with_front_pair() {
    let mut n = RegistryDeviceNode::try_from(&device_node_props("Audio/Sink")).unwrap();
    for (i, ch) in ["FL", "FR", "FC", "LFE", "RL", "RR"].iter().enumerate() {
        n.add_port(PortDirection::In, RegistryPort::new(200 + i as u32, ch, ch, false));
    }
    assert_eq!(n.usable_media_class(), Some(MediaClass::Sink));
    let mut m = RegistryDeviceNode::try_from(&device_node_props("Audio/Sink")).unwrap();
    for (i, ch) in ["FC", "LFE", "RL"].iter().enumerate() {
        m.add_port(PortDirection::In, RegistryPort::new(300 + i as u32, ch, ch, false));
    }
    assert_eq!(m.usable_media_class(), None);
}

#[test]
fn port_locations() {
    assert_eq!(PortLocation::from_str("FL"), Ok(PortLocation::Left));
    assert_eq!(PortLocation::from_str("AUX0"), Ok(PortLocation::Left));
    assert_eq!(PortLocation::from_str("FR"), Ok(PortLocation::Right));
    assert_eq!(PortLocation::from_str("AUX1"), Ok(PortLocation::Right));
    assert_eq!(PortLocation::from_str("FC"), Err(UnknownChannel));
    assert_eq!(UnknownChannel.message(), "Unknown Channel");
    for loc in [PortLocation::Left, PortLocation::Right] {
        assert_eq!(PortLocation::from_str(loc.name()), Ok(loc));
    }
    assert_eq!(PortLocation::Left.name(), "FL");
    assert_eq!(PortLocation::Right.name(), "FR");
}

#[test]
fn client_node_channel_counts() {
    let p = props(&[("object.serial", "40"), ("client.id", "11"), ("node.name", "n"), ("media.class", "Stream/Output/Audio")]);
    let mut n = RegistryClientNode::try_from(&p).unwrap();
    n.add_port(1, PortDirection::Out, RegistryPort::new(500, "output_FL", "FL", false));
    n.add_port(2, PortDirection::Out, RegistryPort::new(501, "output_FR", "FR", false));
    n.add_port(3, PortDirection::In, RegistryPort::new(502, "monitor", "FL", true));
    assert_eq!(n.channel_counts(), (0, 2));
}
