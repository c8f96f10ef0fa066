use pipeweaver::media::{check_device_node_class, check_stream_class, class_from_media_string, classify_node_global,
    get_media_class, media_serves_as, DeviceClassError, MediaClass, NodeGlobalKind};
use pipeweaver::shared::{parse_byte, parse_nibble, Colour, DeviceType, InvalidColour, Mix, MuteState, MuteTarget,
    OrderGroup, PortDirection, Quantum};
use pipeweaver::text::{decimal_string, nth_field, parse_u32, split_nth};

#[test]
fn colour_long_form() {
    assert_eq!(Colour::from_str("#FF8000"), Ok(Colour { red: 255, green: 128, blue: 0 }));
    assert_eq!(Colour::from_str("0a0B0c"), Ok(Colour { red: 10, green: 11, blue: 12 }));
}

#[test]
fn colour_short_form() {
    assert_eq!(Colour::from_str("#F80"), Ok(Colour { red: 255, green: 136, blue: 0 }));
    assert_eq!(Colour::from_str("abc"), Ok(Colour { red: 0xaa, green: 0xbb, blue: 0xcc }));
}

#[test]
fn colour_rejects_bad_input() {
    assert_eq!(Colour::from_str("#FF80"), Err(InvalidColour));
    assert_eq!(Colour::from_str("#GG0000"), Err(InvalidColour));
    assert_eq!(Colour::from_str(""), Err(InvalidColour));
    assert_eq!(Colour::from_str("#12345"), Err(InvalidColour));
    assert_eq!(InvalidColour.message(), "invalid colour (expected #RGB or #RRGGBB)");
}

#[test]
fn colour_rejects_signs_and_wide_characters() {
    assert_eq!(Colour::from_str("#+f+f+f"), Err(InvalidColour));
    assert_eq!(Colour::from_str("+f+f+f"), Err(InvalidColour));
    assert_eq!(Colour::from_str("#\u{20ac}abc"), Err(InvalidColour));
    assert_eq!(Colour::from_str("a\u{e9}bcd"), Err(InvalidColour));
}

#[test]
fn colour_round_trips_through_hex_text() {
    for c in [Colour { red: 0, green: 15, blue: 16 }, Colour { red: 171, green: 205, blue: 255 }] {
        let lower = format!("#{:02x}{:02x}{:02x}", c.red, c.green, c.blue);
        let upper = format!("#{:02X}{:02X}{:02X}", c.red, c.green, c.blue);
        assert_eq!(Colour::from_str(&lower), Ok(c));
        assert_eq!(Colour::from_str(&upper), Ok(c));
    }
    assert_eq!(Colour::from_str("#1aF"), Colour::from_str("#11aaFF"));
}

#[test]
fn colour_pair_needs_two_hex_digits() {
    assert_eq!(parse_byte(b'+', b'f'), Err(InvalidColour));
    assert_eq!(parse_byte(b'f', b'f'), Ok(255));
    assert_eq!(parse_byte(b'1', b'0'), Ok(16));
    assert_eq!(parse_byte(b'-', b'1'), Err(InvalidColour));
    assert_eq!(parse_nibble(b'f'), Ok(0xff));
    assert_eq!(parse_nibble(b'1'), Ok(0x11));
    assert_eq!(parse_nibble(b'z'), Err(InvalidColour));
}

#[test]
fn colour_default_is_yellow() {
    assert_eq!(Colour::default(), Colour { red: 255, green: 255, blue: 0 });
}

#[test]
fn enum_defaults() {
    assert_eq!(Mix::default(), Mix::A);
    assert_eq!(DeviceType::default(), DeviceType::Source);
    assert_eq!(PortDirection::default(), PortDirection::In);
    assert_eq!(MuteState::default(), MuteState::Unmuted);
    assert_eq!(MuteTarget::default(), MuteTarget::TargetA);
    assert_eq!(OrderGroup::default(), OrderGroup::Default);
    assert_eq!(Quantum::default(), Quantum::Quantum512);
}

#[test]
fn quantum_samples_and_back() {
    assert_eq!(Quantum::Quantum8.samples(), 8);
    assert_eq!(Quantum::Quantum2048.samples(), 2048);
    assert_eq!(u32::from(Quantum::Quantum256), 256);
    for q in [Quantum::Quantum8, Quantum::Quantum16, Quantum::Quantum32, Quantum::Quantum64, Quantum::Quantum128,
        Quantum::Quantum256, Quantum::Quantum512, Quantum::Quantum1024] {
        assert_eq!(Quantum::from_samples(q.samples()), q);
    }
}

#[test]
fn media_class_by_counts() {
    assert_eq!(get_media_class(2, 0), Some(MediaClass::Sink));
    assert_eq!(get_media_class(1, 0), Some(MediaClass::Sink));
    assert_eq!(get_media_class(0, 2), Some(MediaClass::Source));
    assert_eq!(get_media_class(2, 2), Some(MediaClass::Duplex));
    assert_eq!(get_media_class(2, 1), None);
    assert_eq!(get_media_class(3, 0), None);
    assert_eq!(get_media_class(0, 0), None);
}

#[test]
fn media_class_strings() {
    assert_eq!(class_from_media_string("Audio/Sink"), Some(MediaClass::Sink));
    assert_eq!(class_from_media_string("Audio/Source/Virtual"), Some(MediaClass::Source));
    assert_eq!(class_from_media_string("Audio/Duplex"), Some(MediaClass::Duplex));
    assert_eq!(class_from_media_string("Video/Source"), None);
    assert!(media_serves_as("Audio/Duplex", MediaClass::Sink));
    assert!(media_serves_as("Audio/Sink", MediaClass::Sink));
    assert!(!media_serves_as("Audio/Sink", MediaClass::Source));
    assert!(!media_serves_as("Audio/Source", MediaClass::Duplex));
}

#[test]
fn device_node_classes() {
    assert_eq!(check_device_node_class("Audio/Sink"), Ok(()));
    assert_eq!(check_device_node_class("Audio/Source/Virtual"), Ok(()));
    assert_eq!(check_device_node_class("Audio/Sink/Internal"), Err(DeviceClassError::Internal));
    assert_eq!(check_device_node_class("Stream/Output/Audio"), Err(DeviceClassError::NotAudioDevice));
    assert!(check_stream_class("Stream/Input/Audio"));
    assert!(!check_stream_class("Audio/Sink"));
}

#[test]
fn node_globals_by_exact_class() {
    assert_eq!(classify_node_global(Some("Audio/Sink")), NodeGlobalKind::DeviceNode);
    assert_eq!(classify_node_global(Some("Audio/Source")), NodeGlobalKind::DeviceNode);
    assert_eq!(classify_node_global(Some("Stream/Output/Audio")), NodeGlobalKind::ClientNode);
    assert_eq!(classify_node_global(Some("Audio/Source/Virtual")), NodeGlobalKind::Ignored);
    assert_eq!(classify_node_global(None), NodeGlobalKind::Ignored);
}

#[test]
fn decimal_numbers() {
    assert_eq!(parse_u32("42"), Some(42));
    assert_eq!(parse_u32("+7"), Some(7));
    assert_eq!(parse_u32("4294967295"), Some(u32::MAX));
    assert_eq!(parse_u32("4294967296"), None);
    assert_eq!(parse_u32("-1"), None);
    assert_eq!(parse_u32(""), None);
    assert_eq!(parse_u32("+"), None);
    assert_eq!(parse_u32("12a"), None);
    assert_eq!(decimal_string(0), "0");
    assert_eq!(decimal_string(48000), "48000");
    assert_eq!(decimal_string(u32::MAX), "4294967295");
    for n in [0u32, 9, 10, 99, 100, 65535, 1234567] {
        assert_eq!(parse_u32(&decimal_string(n)), Some(n));
    }
}

#[test]
fn splitting_fields() {
    assert_eq!(split_nth("alsa:pcm:1:hw:1,0:3", ':', 3), Some("hw"));
    assert_eq!(split_nth("a:b", ':', 3), None);
    assert_eq!(nth_field("a::c", ':', 1), Some(""));
    assert_eq!(nth_field("a::c", ':', 2), Some("c"));
}
