use pipeweaver::layout::{base_layout, base_settings, default_ids, default_layout, default_profile};
use pipeweaver::shared::{Colour, Mix};

#[test]
fn base_layout_holds_the_usual_devices() {
    let l = base_layout(1, 2, 3, 4, 5);
    assert_eq!(l.physical_sources.len(), 1);
    assert_eq!(l.physical_sources[0].name, "Microphone");
    assert_eq!(l.physical_sources[0].colour, Colour { red: 47, green: 24, blue: 71 });
    assert_eq!((l.physical_sources[0].volume_a, l.physical_sources[0].volume_b), (100, 100));
    let names: Vec<&str> = l.virtual_sources.iter().map(|s| s.name.as_str()).collect();
    assert_eq!(names, vec!["System", "Browser"]);
    assert_eq!(l.physical_targets[0].name, "Headphones");
    assert_eq!(l.physical_targets[0].colour, Colour::default());
    assert_eq!(l.virtual_targets[0].name, "Chat Mic");
    assert_eq!(l.virtual_targets[0].mix, Mix::A);
    assert_eq!(l.source_order.default, vec![2, 3]);
    assert_eq!(l.source_order.pinned, vec![1]);
    assert_eq!(l.target_order.default, vec![4, 5]);
    assert_eq!(l.target_order.pinned, vec![1]);
    assert_eq!(l.routes, vec![(1, vec![5]), (2, vec![4]), (3, vec![4])]);
    let apps: Vec<(&str, &str, u128)> =
        l.source_apps.iter().map(|a| (a.process.as_str(), a.name.as_str(), a.device)).collect();
    assert_eq!(apps, vec![("firefox", "Firefox", 3), ("chromium", "Chromium", 3), ("chrome", "Google Chrome", 3)]);
}

#[test]
fn base_settings_uses_fresh_distinct_ids() {
    let l = base_settings();
    let mut ids = vec![l.physical_sources[0].id, l.virtual_sources[0].id, l.virtual_sources[1].id,
        l.physical_targets[0].id, l.virtual_targets[0].id];
    ids.sort();
    ids.dedup();
    assert_eq!(ids.len(), 5);
    assert_eq!(l.routes[0], (l.physical_sources[0].id, vec![l.virtual_targets[0].id]));
}

#[test]
fn default_layout_decodes_its_ids() {
    let ids = default_ids();
    assert_eq!(ids.mic, ulid::Ulid::from_string("01JKMZFMP9A8J92S631RF3AP3W").unwrap().0);
    assert_eq!(ids.chat_mic, ulid::Ulid::from_string("01JKMZFMP9RNMBGFMN6A9ER279").unwrap().0);
    let l = default_profile();
    assert_eq!(l.physical_sources.len(), 2);
    assert_eq!(l.virtual_sources.len(), 5);
    assert_eq!(l.physical_targets.len(), 1);
    assert_eq!(l.virtual_targets.len(), 3);
    assert_eq!(l.physical_sources[0].attached.len(), 2);
    assert_eq!(l.physical_sources[0].attached[1].description.as_deref(), Some("Elgato XLR Dock Mono"));
    assert_eq!(l.physical_sources[1].attached[0].name.as_deref(), Some("alsa_input.pci-0000_2f_00.4.analog-stereo"));
    assert_eq!(l.physical_targets[0].attached.len(), 3);
    assert_eq!(l.virtual_targets[0].mix, Mix::B);
    assert_eq!(l.virtual_targets[2].name, "Chat Mic");
    assert_eq!(l.virtual_sources[3].colour, Colour { red: 115, green: 158, blue: 130 });
    assert_eq!(l.routes.len(), 6);
    assert_eq!(l.routes[0], (ids.mic, vec![ids.headphones, ids.stream_mix, ids.chat_mic]));
    assert_eq!(l.routes[5], (ids.system, vec![ids.headphones]));
    let again = default_layout(ids);
    assert_eq!(again.routes, l.routes);
}

#[test]
fn default_ids_are_distinct_and_routes_start_once() {
    let ids = default_ids();
    let mut all = vec![ids.mic, ids.pc_line_in, ids.system, ids.browser, ids.game, ids.music, ids.chat,
        ids.headphones, ids.stream_mix, ids.vod_mix, ids.chat_mic];
    all.sort();
    all.dedup();
    assert_eq!(all.len(), 11);
    assert_eq!(ids.mic, 2102433366877096285262585791256025212);
    let l = default_profile();
    let mut sources: Vec<u128> = l.routes.iter().map(|r| r.0).collect();
    sources.sort();
    sources.dedup();
    assert_eq!(sources.len(), l.routes.len());
}
