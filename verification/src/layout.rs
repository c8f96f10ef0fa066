//! The device layouts a profile starts from: which sources and targets it
//! has, what they are called and coloured, which hardware they attach to,
//! how they are ordered, routed, and which applications they take. The
//! ids of the devices are ULIDs; everything else here is fixed. Volumes
//! are whole percentages; the link between a source's two mix volumes is
//! a ratio that the profile's saved form adds.

use vstd::prelude::*;
use crate::daemon::{default_colour_of, get_colour};
use crate::profile::{descs_view, PhysicalDeviceDescriptor};
use crate::shared::{Colour, Mix};

verus! {

/// A source of a layout: where audio comes into the mixer.
#[derive(Debug, Clone)]
pub struct LayoutSource {
    pub id: u128,
    pub name: String,
    pub colour: Colour,
    pub volume_a: u8,
    pub volume_b: u8,
    pub attached: Vec<PhysicalDeviceDescriptor>,
}

pub struct SourceModel {
    pub id: u128,
    pub name: Seq<char>,
    pub colour: Colour,
    pub volume_a: u8,
    pub volume_b: u8,
    pub attached: Seq<(Option<Seq<char>>, Option<Seq<char>>)>,
}

impl View for LayoutSource {
    type V = SourceModel;

    open spec fn view(&self) -> SourceModel {
        SourceModel {
            id: self.id,
            name: self.name@,
            colour: self.colour,
            volume_a: self.volume_a,
            volume_b: self.volume_b,
            attached: descs_view(self.attached@),
        }
    }
}

/// A target of a layout: where the mixer sends audio, fed by one mix.
#[derive(Debug, Clone)]
pub struct LayoutTarget {
    pub id: u128,
    pub name: String,
    pub colour: Colour,
    pub mix: Mix,
    pub volume: u8,
    pub attached: Vec<PhysicalDeviceDescriptor>,
}

pub struct TargetModel {
    pub id: u128,
    pub name: Seq<char>,
    pub colour: Colour,
    pub mix: Mix,
    pub volume: u8,
    pub attached: Seq<(Option<Seq<char>>, Option<Seq<char>>)>,
}

impl View for LayoutTarget {
    type V = TargetModel;

    open spec fn view(&self) -> TargetModel {
        TargetModel {
            id: self.id,
            name: self.name@,
            colour: self.colour,
            mix: self.mix,
            volume: self.volume,
            attached: descs_view(self.attached@),
        }
    }
}

/// The order devices are shown in: the usual group, the pinned ones and
/// the hidden ones.
#[derive(Debug, Clone)]
pub struct LayoutOrder {
    pub default: Vec<u128>,
    pub pinned: Vec<u128>,
    pub hidden: Vec<u128>,
}

/// An application (by process and name) that a source takes.
#[derive(Debug, Clone)]
pub struct AppMapping {
    pub process: String,
    pub name: String,
    pub device: u128,
}

/// A whole layout.
#[derive(Debug, Clone)]
pub struct ProfileLayout {
    pub physical_sources: Vec<LayoutSource>,
    pub virtual_sources: Vec<LayoutSource>,
    pub physical_targets: Vec<LayoutTarget>,
    pub virtual_targets: Vec<LayoutTarget>,
    pub source_order: LayoutOrder,
    pub target_order: LayoutOrder,
    /// Each source and the targets it is routed to.
    pub routes: Vec<(u128, Vec<u128>)>,
    pub source_apps: Vec<AppMapping>,
}

pub struct LayoutModel {
    pub physical_sources: Seq<SourceModel>,
    pub virtual_sources: Seq<SourceModel>,
    pub physical_targets: Seq<TargetModel>,
    pub virtual_targets: Seq<TargetModel>,
    pub source_order: (Seq<u128>, Seq<u128>, Seq<u128>),
    pub target_order: (Seq<u128>, Seq<u128>, Seq<u128>),
    pub routes: Seq<(u128, Seq<u128>)>,
    pub source_apps: Seq<(Seq<char>, Seq<char>, u128)>,
}

pub open spec fn sources_view(v: Seq<LayoutSource>) -> Seq<SourceModel> {
    v.map_values(|s: LayoutSource| s@)
}

pub open spec fn targets_view(v: Seq<LayoutTarget>) -> Seq<TargetModel> {
    v.map_values(|t: LayoutTarget| t@)
}

pub open spec fn routes_view(v: Seq<(u128, Vec<u128>)>) -> Seq<(u128, Seq<u128>)> {
    v.map_values(|r: (u128, Vec<u128>)| (r.0, r.1@))
}

pub open spec fn apps_view(v: Seq<AppMapping>) -> Seq<(Seq<char>, Seq<char>, u128)> {
    v.map_values(|a: AppMapping| (a.process@, a.name@, a.device))
}

impl View for ProfileLayout {
    type V = LayoutModel;

    open spec fn view(&self) -> LayoutModel {
        LayoutModel {
            physical_sources: sources_view(self.physical_sources@),
            virtual_sources: sources_view(self.virtual_sources@),
            physical_targets: targets_view(self.physical_targets@),
            virtual_targets: targets_view(self.virtual_targets@),
            source_order: (self.source_order.default@, self.source_order.pinned@, self.source_order.hidden@),
            target_order: (self.target_order.default@, self.target_order.pinned@, self.target_order.hidden@),
            routes: routes_view(self.routes@),
            source_apps: apps_view(self.source_apps@),
        }
    }
}

/// A source at full volume on both mixes.
pub open spec fn source_spec(id: u128, name: Seq<char>, colour: Colour,
    attached: Seq<(Option<Seq<char>>, Option<Seq<char>>)>) -> SourceModel {
    SourceModel { id, name, colour, volume_a: 100, volume_b: 100, attached }
}

/// A target at full volume.
pub open spec fn target_spec(id: u128, name: Seq<char>, colour: Colour, mix: Mix,
    attached: Seq<(Option<Seq<char>>, Option<Seq<char>>)>) -> TargetModel {
    TargetModel { id, name, colour, mix, volume: 100, attached }
}

fn source(id: u128, name: &str, colour: Colour, attached: Vec<PhysicalDeviceDescriptor>) -> (r: LayoutSource)
    ensures
        r@ == source_spec(id, name@, colour, descs_view(attached@)),
{
    LayoutSource { id, name: name.to_owned(), colour, volume_a: 100, volume_b: 100, attached }
}

fn target(id: u128, name: &str, colour: Colour, mix: Mix, attached: Vec<PhysicalDeviceDescriptor>) -> (r: LayoutTarget)
    ensures
        r@ == target_spec(id, name@, colour, mix, descs_view(attached@)),
{
    LayoutTarget { id, name: name.to_owned(), colour, mix, volume: 100, attached }
}

fn app(process: &str, name: &str, device: u128) -> (r: AppMapping)
    ensures
        (r.process@, r.name@, r.device) == (process@, name@, device),
{
    AppMapping { process: process.to_owned(), name: name.to_owned(), device }
}

/// The layout a new installation starts with: a microphone, the system
/// and browser sources, headphones and a chat microphone output; the
/// microphone goes to the chat microphone, the system and the browser to
/// the headphones, and the usual browsers are taken by the browser source.
pub open spec fn base_layout_spec(mic: u128, system: u128, browser: u128, headphones: u128, chat_mic: u128)
    -> LayoutModel {
    LayoutModel {
        physical_sources: seq![source_spec(mic, "Microphone"@, Colour { red: 47, green: 24, blue: 71 }, seq![])],
        virtual_sources: seq![
            source_spec(system, "System"@, Colour { red: 153, green: 98, blue: 30 }, seq![]),
            source_spec(browser, "Browser"@, Colour { red: 211, green: 139, blue: 93 }, seq![]),
        ],
        physical_targets: seq![
            target_spec(headphones, "Headphones"@, Colour { red: 255, green: 255, blue: 0 }, Mix::A, seq![]),
        ],
        virtual_targets: seq![target_spec(chat_mic, "Chat Mic"@, Colour { red: 11, green: 37, blue: 69 }, Mix::A, seq![])],
        source_order: (seq![system, browser], seq![mic], seq![]),
        target_order: (seq![headphones, chat_mic], seq![mic], seq![]),
        routes: seq![(mic, seq![chat_mic]), (system, seq![headphones]), (browser, seq![headphones])],
        source_apps: seq![
            ("firefox"@, "Firefox"@, browser),
            ("chromium"@, "Chromium"@, browser),
            ("chrome"@, "Google Chrome"@, browser),
        ],
    }
}

/// The starting layout with these device ids.
pub fn base_layout(mic: u128, system: u128, browser: u128, headphones: u128, chat_mic: u128) -> (r: ProfileLayout)
    ensures
        r@ == base_layout_spec(mic, system, browser, headphones, chat_mic),
{
    proof {
        assert(descs_view(Seq::<PhysicalDeviceDescriptor>::empty()) =~= Seq::empty());
    }
    let physical_sources = vec![source(mic, "Microphone", Colour { red: 47, green: 24, blue: 71 }, Vec::new())];
    let virtual_sources = vec![
        source(system, "System", Colour { red: 153, green: 98, blue: 30 }, Vec::new()),
        source(browser, "Browser", Colour { red: 211, green: 139, blue: 93 }, Vec::new()),
    ];
    let physical_targets = vec![target(headphones, "Headphones", Colour::default(), Mix::A, Vec::new())];
    let virtual_targets = vec![target(chat_mic, "Chat Mic", Colour { red: 11, green: 37, blue: 69 }, Mix::A, Vec::new())];
    let source_order = LayoutOrder { default: vec![system, browser], pinned: vec![mic], hidden: Vec::new() };
    let target_order = LayoutOrder { default: vec![headphones, chat_mic], pinned: vec![mic], hidden: Vec::new() };
    let routes = vec![(mic, vec![chat_mic]), (system, vec![headphones]), (browser, vec![headphones])];
    let source_apps = vec![
        app("firefox", "Firefox", browser),
        app("chromium", "Chromium", browser),
        app("chrome", "Google Chrome", browser),
    ];
    let r = ProfileLayout {
        physical_sources,
        virtual_sources,
        physical_targets,
        virtual_targets,
        source_order,
        target_order,
        routes,
        source_apps,
    };
    assert(r@.physical_sources =~= base_layout_spec(mic, system, browser, headphones, chat_mic).physical_sources);
    assert(r@.virtual_sources =~= base_layout_spec(mic, system, browser, headphones, chat_mic).virtual_sources);
    assert(r@.physical_targets =~= base_layout_spec(mic, system, browser, headphones, chat_mic).physical_targets);
    assert(r@.virtual_targets =~= base_layout_spec(mic, system, browser, headphones, chat_mic).virtual_targets);
    assert(r@.routes =~~= base_layout_spec(mic, system, browser, headphones, chat_mic).routes);
    assert(r@.source_apps =~= base_layout_spec(mic, system, browser, headphones, chat_mic).source_apps);
    assert(r@.source_order == base_layout_spec(mic, system, browser, headphones, chat_mic).source_order);
    assert(r@.target_order == base_layout_spec(mic, system, browser, headphones, chat_mic).target_order);
    r
}

/// The value of one character of a ULID: Crockford's base-32 digits
/// `0-9A-HJKMNP-TV-Z`, letters in either case.
pub open spec fn ulid_digit(c: char) -> Option<int> {
    let u = if 0x61 <= (c as int) && (c as int) <= 0x7a { (c as int) - 32 } else { c as int };
    if 0x30 <= (c as int) && (c as int) <= 0x39 {
        Some((c as int) - 0x30)
    } else if 0x41 <= u && u <= 0x48 {
        Some(u - 0x41 + 10)
    } else if u == 0x4a || u == 0x4b {
        Some(u - 0x4a + 18)
    } else if u == 0x4d || u == 0x4e {
        Some(u - 0x4d + 20)
    } else if 0x50 <= u && u <= 0x54 {
        Some(u - 0x50 + 22)
    } else if 0x56 <= u && u <= 0x5a {
        Some(u - 0x56 + 27)
    } else {
        None
    }
}

/// The digits read most significant first, each step `v * 32 + digit`,
/// kept to 128 bits.
pub open spec fn ulid_digits_value(s: Seq<char>) -> Option<int>
    decreases s.len(),
{
    if s.len() == 0 {
        Some(0)
    } else {
        match (ulid_digits_value(s.drop_last()), ulid_digit(s.last())) {
            (Some(v), Some(d)) => Some((v * 32 + d) % (u128::MAX as int + 1)),
            _ => None,
        }
    }
}

/// What `ulid::Ulid::from_string` decodes from a text: 26 digits, or
/// nothing.
pub open spec fn ulid_value(text: Seq<char>) -> Option<u128> {
    if text.len() == 26 {
        match ulid_digits_value(text) {
            Some(v) => Some(v as u128),
            None => None,
        }
    } else {
        None
    }
}

/// Decodes a ULID with `ulid::Ulid::from_string` and takes the number
/// inside. The contract states the crate's decoder: a text of 26
/// characters (bytes, which is the same for the digits) from the base-32
/// alphabet in either case decodes to `v * 32 + digit` over its digits,
/// kept to 128 bits; any other text is refused.
#[verifier::external_body]
fn parse_ulid(text: &str) -> (r: Option<u128>)
    ensures
        r == ulid_value(text@),
{
    match ulid::Ulid::from_string(text) {
        Ok(u) => Some(u.0),
        Err(_) => None,
    }
}

/// A fresh ULID from `ulid::Ulid::new`, made of the clock and a random
/// source. Nothing is stated of its value.
#[verifier::external_body]
fn new_ulid() -> (r: u128) {
    ulid::Ulid::new().0
}

/// The starting layout, with fresh ids.
pub fn base_settings() -> (r: ProfileLayout)
    ensures
        exists|mic: u128, system: u128, browser: u128, headphones: u128, chat_mic: u128|
            r@ == #[trigger] base_layout_spec(mic, system, browser, headphones, chat_mic),
{
    let mic = new_ulid();
    let system = new_ulid();
    let browser = new_ulid();
    let headphones = new_ulid();
    let chat_mic = new_ulid();
    base_layout(mic, system, browser, headphones, chat_mic)
}

/// The ids of the devices of the full default layout.
#[derive(Debug, Clone, Copy, PartialEq, Eq, Structural)]
pub struct DefaultIds {
    pub mic: u128,
    pub pc_line_in: u128,
    pub system: u128,
    pub browser: u128,
    pub game: u128,
    pub music: u128,
    pub chat: u128,
    pub headphones: u128,
    pub stream_mix: u128,
    pub vod_mix: u128,
    pub chat_mic: u128,
}

pub open spec fn attached_by_description(desc: Seq<char>) -> (Option<Seq<char>>, Option<Seq<char>>) {
    (None, Some(desc))
}

/// The full default layout: two hardware sources (the microphone, known
/// by the descriptions of the usual microphone interfaces, and the PC's
/// line in), five virtual sources, the headphones (known by the usual
/// headphone outputs) and three virtual targets, the stream and VOD mixes
/// fed by mix B. Every source but the system reaches the headphones and
/// the stream mix; the microphone also the chat microphone, the system
/// only the headphones. Each device has its name's colour.
pub open spec fn default_layout_spec(ids: DefaultIds) -> LayoutModel {
    LayoutModel {
        physical_sources: seq![
            source_spec(ids.mic, "Microphone"@, default_colour_of("Microphone"@), seq![
                attached_by_description("BEACN Mic Microphone"@),
                attached_by_description("Elgato XLR Dock Mono"@),
            ]),
            source_spec(ids.pc_line_in, "PC Line In"@, default_colour_of("PC Line In"@), seq![
                (Some("alsa_input.pci-0000_2f_00.4.analog-stereo"@), None),
            ]),
        ],
        virtual_sources: seq![
            source_spec(ids.system, "System"@, default_colour_of("System"@), seq![]),
            source_spec(ids.browser, "Browser"@, default_colour_of("Browser"@), seq![]),
            source_spec(ids.game, "Game"@, default_colour_of("Game"@), seq![]),
            source_spec(ids.music, "Music"@, default_colour_of("Music"@), seq![]),
            source_spec(ids.chat, "Chat"@, default_colour_of("Chat"@), seq![]),
        ],
        physical_targets: seq![
            target_spec(ids.headphones, "Headphones"@, default_colour_of("Headphones"@), Mix::A, seq![
                attached_by_description("BEACN Mic Headphones"@),
                attached_by_description("GoXLR System"@),
                attached_by_description("Elgato XLR Dock Analog Stereo"@),
            ]),
        ],
        virtual_targets: seq![
            target_spec(ids.stream_mix, "Stream Mix"@, default_colour_of("Stream Mix"@), Mix::B, seq![]),
            target_spec(ids.vod_mix, "VOD"@, default_colour_of("VOD"@), Mix::B, seq![]),
            target_spec(ids.chat_mic, "Chat Mic"@, default_colour_of("Chat Mic"@), Mix::A, seq![]),
        ],
        source_order: (seq![], seq![], seq![]),
        target_order: (seq![], seq![], seq![]),
        routes: seq![
            (ids.mic, seq![ids.headphones, ids.stream_mix, ids.chat_mic]),
            (ids.pc_line_in, seq![ids.headphones, ids.stream_mix]),
            (ids.chat, seq![ids.headphones, ids.stream_mix]),
            (ids.music, seq![ids.headphones, ids.stream_mix]),
            (ids.game, seq![ids.headphones, ids.stream_mix]),
            (ids.system, seq![ids.headphones]),
        ],
        source_apps: seq![],
    }
}

fn by_description(desc: &str) -> (r: PhysicalDeviceDescriptor)
    ensures
        crate::profile::desc_view(r) == attached_by_description(desc@),
{
    PhysicalDeviceDescriptor { name: None, description: Some(desc.to_owned()) }
}

fn named_source(id: u128, name: &str, attached: Vec<PhysicalDeviceDescriptor>) -> (r: LayoutSource)
    ensures
        r@ == source_spec(id, name@, default_colour_of(name@), descs_view(attached@)),
{
    source(id, name, get_colour(name), attached)
}

fn named_target(id: u128, name: &str, mix: Mix, attached: Vec<PhysicalDeviceDescriptor>) -> (r: LayoutTarget)
    ensures
        r@ == target_spec(id, name@, default_colour_of(name@), mix, descs_view(attached@)),
{
    target(id, name, get_colour(name), mix, attached)
}

/// The full default layout with these ids.
pub fn default_layout(ids: DefaultIds) -> (r: ProfileLayout)
    ensures
        r@ == default_layout_spec(ids),
{
    proof {
        assert(descs_view(Seq::<PhysicalDeviceDescriptor>::empty()) =~= Seq::empty());
    }
    let mic_hw = vec![by_description("BEACN Mic Microphone"), by_description("Elgato XLR Dock Mono")];
    let line_in_hw = vec![PhysicalDeviceDescriptor {
        name: Some("alsa_input.pci-0000_2f_00.4.analog-stereo".to_owned()),
        description: None,
    }];
    let headphones_hw = vec![
        by_description("BEACN Mic Headphones"),
        by_description("GoXLR System"),
        by_description("Elgato XLR Dock Analog Stereo"),
    ];
    proof {
        assert(descs_view(mic_hw@) =~= seq![
            attached_by_description("BEACN Mic Microphone"@),
            attached_by_description("Elgato XLR Dock Mono"@),
        ]);
        assert(descs_view(line_in_hw@) =~= seq![(Some("alsa_input.pci-0000_2f_00.4.analog-stereo"@), None::<Seq<char>>)]);
        assert(descs_view(headphones_hw@) =~= seq![
            attached_by_description("BEACN Mic Headphones"@),
            attached_by_description("GoXLR System"@),
            attached_by_description("Elgato XLR Dock Analog Stereo"@),
        ]);
    }
    let physical_sources = vec![
        named_source(ids.mic, "Microphone", mic_hw),
        named_source(ids.pc_line_in, "PC Line In", line_in_hw),
    ];
    let virtual_sources = vec![
        named_source(ids.system, "System", Vec::new()),
        named_source(ids.browser, "Browser", Vec::new()),
        named_source(ids.game, "Game", Vec::new()),
        named_source(ids.music, "Music", Vec::new()),
        named_source(ids.chat, "Chat", Vec::new()),
    ];
    let physical_targets = vec![named_target(ids.headphones, "Headphones", Mix::A, headphones_hw)];
    let virtual_targets = vec![
        named_target(ids.stream_mix, "Stream Mix", Mix::B, Vec::new()),
        named_target(ids.vod_mix, "VOD", Mix::B, Vec::new()),
        named_target(ids.chat_mic, "Chat Mic", Mix::A, Vec::new()),
    ];
    let routes = vec![
        (ids.mic, vec![ids.headphones, ids.stream_mix, ids.chat_mic]),
        (ids.pc_line_in, vec![ids.headphones, ids.stream_mix]),
        (ids.chat, vec![ids.headphones, ids.stream_mix]),
        (ids.music, vec![ids.headphones, ids.stream_mix]),
        (ids.game, vec![ids.headphones, ids.stream_mix]),
        (ids.system, vec![ids.headphones]),
    ];
    let r = ProfileLayout {
        physical_sources,
        virtual_sources,
        physical_targets,
        virtual_targets,
        source_order: LayoutOrder { default: Vec::new(), pinned: Vec::new(), hidden: Vec::new() },
        target_order: LayoutOrder { default: Vec::new(), pinned: Vec::new(), hidden: Vec::new() },
        routes,
        source_apps: Vec::new(),
    };
    let ghost d = default_layout_spec(ids);
    assert(r@.physical_sources =~= d.physical_sources);
    assert(r@.virtual_sources =~= d.virtual_sources);
    assert(r@.physical_targets =~= d.physical_targets);
    assert(r@.virtual_targets =~= d.virtual_targets);
    assert(r@.routes =~~= d.routes);
    assert(r@.source_apps =~= d.source_apps);
    assert(r@.source_order =~~= d.source_order);
    assert(r@.target_order =~~= d.target_order);
    r
}

/// Reading one more digit of a text.
proof fn lemma_digit_step(t: Seq<char>, k: int)
    requires
        0 <= k < t.len(),
    ensures
        ulid_digits_value(t.take(k + 1)) == (match (ulid_digits_value(t.take(k)), ulid_digit(t[k])) {
            (Some(v), Some(d)) => Some((v * 32 + d) % (u128::MAX as int + 1)),
            _ => None::<int>,
        }),
{
    assert(t.take(k + 1).drop_last() =~= t.take(k));
}

/// Reading one more digit.
proof fn lemma_digits_push(s: Seq<char>, c: char)
    ensures
        ulid_digits_value(s.push(c)) == (match (ulid_digits_value(s), ulid_digit(c)) {
            (Some(v), Some(d)) => Some((v * 32 + d) % (u128::MAX as int + 1)),
            _ => None::<int>,
        }),
{
    assert(s.push(c).drop_last() =~= s);
}

/// The ids of the full default layout: its eleven fixed ULIDs, decoded.
pub open spec fn default_ids_spec() -> DefaultIds {
    DefaultIds {
        mic: 2102433366877096285262585791256025212u128,
        pc_line_in: 2102433366877096285262585791256025202u128,
        system: 2102433366877600368756927896665618267u128,
        browser: 2102433366877600368756927896665618268u128,
        game: 2102433366876859572251509284926906010u128,
        music: 2102433366877371146633631891618806411u128,
        chat: 2102433366877885323715199956279337171u128,
        headphones: 2102433366877261862722397715054660095u128,
        stream_mix: 2102433366877832812818363183005019290u128,
        vod_mix: 2102433366877832812818363183005019292u128,
        chat_mic: 2102433366877640614586212510111369449u128,
    }
}

/// One fixed id of the full default layout, decoded digit by digit.
#[verifier::spinoff_prover]
#[verifier::rlimit(40)]
proof fn lemma_mic_id_decodes()
    ensures
        ulid_value("01JKMZFMP9A8J92S631RF3AP3W"@) == Some(2102433366877096285262585791256025212u128),
{
    let s = Seq::<char>::empty();
    lemma_digits_push(s, '0'); let s = s.push('0'); assert(ulid_digits_value(s) == Some(0int));
    lemma_digits_push(s, '1'); let s = s.push('1'); assert(ulid_digits_value(s) == Some(1int));
    lemma_digits_push(s, 'J'); let s = s.push('J'); assert(ulid_digits_value(s) == Some(50int));
    lemma_digits_push(s, 'K'); let s = s.push('K'); assert(ulid_digits_value(s) == Some(1619int));
    lemma_digits_push(s, 'M'); let s = s.push('M'); assert(ulid_digits_value(s) == Some(51828int));
    lemma_digits_push(s, 'Z'); let s = s.push('Z'); assert(ulid_digits_value(s) == Some(1658527int));
    lemma_digits_push(s, 'F'); let s = s.push('F'); assert(ulid_digits_value(s) == Some(53072879int));
    lemma_digits_push(s, 'M'); let s = s.push('M'); assert(ulid_digits_value(s) == Some(1698332148int));
    lemma_digits_push(s, 'P'); let s = s.push('P'); assert(ulid_digits_value(s) == Some(54346628758int));
    lemma_digits_push(s, '9'); let s = s.push('9'); assert(ulid_digits_value(s) == Some(1739092120265int));
    lemma_digits_push(s, 'A'); let s = s.push('A'); assert(ulid_digits_value(s) == Some(55650947848490int));
    lemma_digits_push(s, '8'); let s = s.push('8'); assert(ulid_digits_value(s) == Some(1780830331151688int));
    lemma_digits_push(s, 'J'); let s = s.push('J'); assert(ulid_digits_value(s) == Some(56986570596854034int));
    lemma_digits_push(s, '9'); let s = s.push('9'); assert(ulid_digits_value(s) == Some(1823570259099329097int));
    lemma_digits_push(s, '2'); let s = s.push('2'); assert(ulid_digits_value(s) == Some(58354248291178531106int));
    lemma_digits_push(s, 'S'); let s = s.push('S'); assert(ulid_digits_value(s) == Some(1867335945317712995417int));
    lemma_digits_push(s, '6'); let s = s.push('6'); assert(ulid_digits_value(s) == Some(59754750250166815853350int));
    lemma_digits_push(s, '3'); let s = s.push('3'); assert(ulid_digits_value(s) == Some(1912152008005338107307203int));
    lemma_digits_push(s, '1'); let s = s.push('1'); assert(ulid_digits_value(s) == Some(61188864256170819433830497int));
    lemma_digits_push(s, 'R'); let s = s.push('R'); assert(ulid_digits_value(s) == Some(1958043656197466221882575928int));
    lemma_digits_push(s, 'F'); let s = s.push('F'); assert(ulid_digits_value(s) == Some(62657396998318919100242429711int));
    lemma_digits_push(s, '3'); let s = s.push('3'); assert(ulid_digits_value(s) == Some(2005036703946205411207757750755int));
    lemma_digits_push(s, 'A'); let s = s.push('A'); assert(ulid_digits_value(s) == Some(64161174526278573158648248024170int));
    lemma_digits_push(s, 'P'); let s = s.push('P'); assert(ulid_digits_value(s) == Some(2053157584840914341076743936773462int));
    lemma_digits_push(s, '3'); let s = s.push('3'); assert(ulid_digits_value(s) == Some(65701042714909258914455805976750787int));
    lemma_digits_push(s, 'W'); let s = s.push('W'); assert(ulid_digits_value(s) == Some(2102433366877096285262585791256025212int));
    reveal_strlit("01JKMZFMP9A8J92S631RF3AP3W");
    assert("01JKMZFMP9A8J92S631RF3AP3W"@ =~= s);
}

/// One fixed id of the full default layout, decoded digit by digit.
#[verifier::spinoff_prover]
#[verifier::rlimit(40)]
proof fn lemma_pc_line_in_id_decodes()
    ensures
        ulid_value("01JKMZFMP9A8J92S631RF3AP3J"@) == Some(2102433366877096285262585791256025202u128),
{
    let s = Seq::<char>::empty();
    lemma_digits_push(s, '0'); let s = s.push('0'); assert(ulid_digits_value(s) == Some(0int));
    lemma_digits_push(s, '1'); let s = s.push('1'); assert(ulid_digits_value(s) == Some(1int));
    lemma_digits_push(s, 'J'); let s = s.push('J'); assert(ulid_digits_value(s) == Some(50int));
    lemma_digits_push(s, 'K'); let s = s.push('K'); assert(ulid_digits_value(s) == Some(1619int));
    lemma_digits_push(s, 'M'); let s = s.push('M'); assert(ulid_digits_value(s) == Some(51828int));
    lemma_digits_push(s, 'Z'); let s = s.push('Z'); assert(ulid_digits_value(s) == Some(1658527int));
    lemma_digits_push(s, 'F'); let s = s.push('F'); assert(ulid_digits_value(s) == Some(53072879int));
    lemma_digits_push(s, 'M'); let s = s.push('M'); assert(ulid_digits_value(s) == Some(1698332148int));
    lemma_digits_push(s, 'P'); let s = s.push('P'); assert(ulid_digits_value(s) == Some(54346628758int));
    lemma_digits_push(s, '9'); let s = s.push('9'); assert(ulid_digits_value(s) == Some(1739092120265int));
    lemma_digits_push(s, 'A'); let s = s.push('A'); assert(ulid_digits_value(s) == Some(55650947848490int));
    lemma_digits_push(s, '8'); let s = s.push('8'); assert(ulid_digits_value(s) == Some(1780830331151688int));
    lemma_digits_push(s, 'J'); let s = s.push('J'); assert(ulid_digits_value(s) == Some(56986570596854034int));
    lemma_digits_push(s, '9'); let s = s.push('9'); assert(ulid_digits_value(s) == Some(1823570259099329097int));
    lemma_digits_push(s, '2'); let s = s.push('2'); assert(ulid_digits_value(s) == Some(58354248291178531106int));
    lemma_digits_push(s, 'S'); let s = s.push('S'); assert(ulid_digits_value(s) == Some(1867335945317712995417int));
    lemma_digits_push(s, '6'); let s = s.push('6'); assert(ulid_digits_value(s) == Some(59754750250166815853350int));
    lemma_digits_push(s, '3'); let s = s.push('3'); assert(ulid_digits_value(s) == Some(1912152008005338107307203int));
    lemma_digits_push(s, '1'); let s = s.push('1'); assert(ulid_digits_value(s) == Some(61188864256170819433830497int));
    lemma_digits_push(s, 'R'); let s = s.push('R'); assert(ulid_digits_value(s) == Some(1958043656197466221882575928int));
    lemma_digits_push(s, 'F'); let s = s.push('F'); assert(ulid_digits_value(s) == Some(62657396998318919100242429711int));
    lemma_digits_push(s, '3'); let s = s.push('3'); assert(ulid_digits_value(s) == Some(2005036703946205411207757750755int));
    lemma_digits_push(s, 'A'); let s = s.push('A'); assert(ulid_digits_value(s) == Some(64161174526278573158648248024170int));
    lemma_digits_push(s, 'P'); let s = s.push('P'); assert(ulid_digits_value(s) == Some(2053157584840914341076743936773462int));
    lemma_digits_push(s, '3'); let s = s.push('3'); assert(ulid_digits_value(s) == Some(65701042714909258914455805976750787int));
    lemma_digits_push(s, 'J'); let s = s.push('J'); assert(ulid_digits_value(s) == Some(2102433366877096285262585791256025202int));
    reveal_strlit("01JKMZFMP9A8J92S631RF3AP3J");
    assert("01JKMZFMP9A8J92S631RF3AP3J"@ =~= s);
}

/// One fixed id of the full default layout, decoded digit by digit.
#[verifier::spinoff_prover]
#[verifier::rlimit(40)]
proof fn lemma_system_id_decodes()
    ensures
        ulid_value("01JKMZFMP9QKHFTAJYC92HCXTV"@) == Some(2102433366877600368756927896665618267u128),
{
    let s = Seq::<char>::empty();
    lemma_digits_push(s, '0'); let s = s.push('0'); assert(ulid_digits_value(s) == Some(0int));
    lemma_digits_push(s, '1'); let s = s.push('1'); assert(ulid_digits_value(s) == Some(1int));
    lemma_digits_push(s, 'J'); let s = s.push('J'); assert(ulid_digits_value(s) == Some(50int));
    lemma_digits_push(s, 'K'); let s = s.push('K'); assert(ulid_digits_value(s) == Some(1619int));
    lemma_digits_push(s, 'M'); let s = s.push('M'); assert(ulid_digits_value(s) == Some(51828int));
    lemma_digits_push(s, 'Z'); let s = s.push('Z'); assert(ulid_digits_value(s) == Some(1658527int));
    lemma_digits_push(s, 'F'); let s = s.push('F'); assert(ulid_digits_value(s) == Some(53072879int));
    lemma_digits_push(s, 'M'); let s = s.push('M'); assert(ulid_digits_value(s) == Some(1698332148int));
    lemma_digits_push(s, 'P'); let s = s.push('P'); assert(ulid_digits_value(s) == Some(54346628758int));
    lemma_digits_push(s, '9'); let s = s.push('9'); assert(ulid_digits_value(s) == Some(1739092120265int));
    lemma_digits_push(s, 'Q'); let s = s.push('Q'); assert(ulid_digits_value(s) == Some(55650947848503int));
    lemma_digits_push(s, 'K'); let s = s.push('K'); assert(ulid_digits_value(s) == Some(1780830331152115int));
    lemma_digits_push(s, 'H'); let s = s.push('H'); assert(ulid_digits_value(s) == Some(56986570596867697int));
    lemma_digits_push(s, 'F'); let s = s.push('F'); assert(ulid_digits_value(s) == Some(1823570259099766319int));
    lemma_digits_push(s, 'T'); let s = s.push('T'); assert(ulid_digits_value(s) == Some(58354248291192522234int));
    lemma_digits_push(s, 'A'); let s = s.push('A'); assert(ulid_digits_value(s) == Some(1867335945318160711498int));
    lemma_digits_push(s, 'J'); let s = s.push('J'); assert(ulid_digits_value(s) == Some(59754750250181142767954int));
    lemma_digits_push(s, 'Y'); let s = s.push('Y'); assert(ulid_digits_value(s) == Some(1912152008005796568574558int));
    lemma_digits_push(s, 'C'); let s = s.push('C'); assert(ulid_digits_value(s) == Some(61188864256185490194385868int));
    lemma_digits_push(s, '9'); let s = s.push('9'); assert(ulid_digits_value(s) == Some(1958043656197935686220347785int));
    lemma_digits_push(s, '2'); let s = s.push('2'); assert(ulid_digits_value(s) == Some(62657396998333941959051129122int));
    lemma_digits_push(s, 'H'); let s = s.push('H'); assert(ulid_digits_value(s) == Some(2005036703946686142689636131921int));
    lemma_digits_push(s, 'C'); let s = s.push('C'); assert(ulid_digits_value(s) == Some(64161174526293956566068356221484int));
    lemma_digits_push(s, 'X'); let s = s.push('X'); assert(ulid_digits_value(s) == Some(2053157584841406610114187399087517int));
    lemma_digits_push(s, 'T'); let s = s.push('T'); assert(ulid_digits_value(s) == Some(65701042714925011523653996770800570int));
    lemma_digits_push(s, 'V'); let s = s.push('V'); assert(ulid_digits_value(s) == Some(2102433366877600368756927896665618267int));
    reveal_strlit("01JKMZFMP9QKHFTAJYC92HCXTV");
    assert("01JKMZFMP9QKHFTAJYC92HCXTV"@ =~= s);
}

/// One fixed id of the full default layout, decoded digit by digit.
#[verifier::spinoff_prover]
#[verifier::rlimit(40)]
proof fn lemma_browser_id_decodes()
    ensures
        ulid_value("01JKMZFMP9QKHFTAJYC92HCXTW"@) == Some(2102433366877600368756927896665618268u128),
{
    let s = Seq::<char>::empty();
    lemma_digits_push(s, '0'); let s = s.push('0'); assert(ulid_digits_value(s) == Some(0int));
    lemma_digits_push(s, '1'); let s = s.push('1'); assert(ulid_digits_value(s) == Some(1int));
    lemma_digits_push(s, 'J'); let s = s.push('J'); assert(ulid_digits_value(s) == Some(50int));
    lemma_digits_push(s, 'K'); let s = s.push('K'); assert(ulid_digits_value(s) == Some(1619int));
    lemma_digits_push(s, 'M'); let s = s.push('M'); assert(ulid_digits_value(s) == Some(51828int));
    lemma_digits_push(s, 'Z'); let s = s.push('Z'); assert(ulid_digits_value(s) == Some(1658527int));
    lemma_digits_push(s, 'F'); let s = s.push('F'); assert(ulid_digits_value(s) == Some(53072879int));
    lemma_digits_push(s, 'M'); let s = s.push('M'); assert(ulid_digits_value(s) == Some(1698332148int));
    lemma_digits_push(s, 'P'); let s = s.push('P'); assert(ulid_digits_value(s) == Some(54346628758int));
    lemma_digits_push(s, '9'); let s = s.push('9'); assert(ulid_digits_value(s) == Some(1739092120265int));
    lemma_digits_push(s, 'Q'); let s = s.push('Q'); assert(ulid_digits_value(s) == Some(55650947848503int));
    lemma_digits_push(s, 'K'); let s = s.push('K'); assert(ulid_digits_value(s) == Some(1780830331152115int));
    lemma_digits_push(s, 'H'); let s = s.push('H'); assert(ulid_digits_value(s) == Some(56986570596867697int));
    lemma_digits_push(s, 'F'); let s = s.push('F'); assert(ulid_digits_value(s) == Some(1823570259099766319int));
    lemma_digits_push(s, 'T'); let s = s.push('T'); assert(ulid_digits_value(s) == Some(58354248291192522234int));
    lemma_digits_push(s, 'A'); let s = s.push('A'); assert(ulid_digits_value(s) == Some(1867335945318160711498int));
    lemma_digits_push(s, 'J'); let s = s.push('J'); assert(ulid_digits_value(s) == Some(59754750250181142767954int));
    lemma_digits_push(s, 'Y'); let s = s.push('Y'); assert(ulid_digits_value(s) == Some(1912152008005796568574558int));
    lemma_digits_push(s, 'C'); let s = s.push('C'); assert(ulid_digits_value(s) == Some(61188864256185490194385868int));
    lemma_digits_push(s, '9'); let s = s.push('9'); assert(ulid_digits_value(s) == Some(1958043656197935686220347785int));
    lemma_digits_push(s, '2'); let s = s.push('2'); assert(ulid_digits_value(s) == Some(62657396998333941959051129122int));
    lemma_digits_push(s, 'H'); let s = s.push('H'); assert(ulid_digits_value(s) == Some(2005036703946686142689636131921int));
    lemma_digits_push(s, 'C'); let s = s.push('C'); assert(ulid_digits_value(s) == Some(64161174526293956566068356221484int));
    lemma_digits_push(s, 'X'); let s = s.push('X'); assert(ulid_digits_value(s) == Some(2053157584841406610114187399087517int));
    lemma_digits_push(s, 'T'); let s = s.push('T'); assert(ulid_digits_value(s) == Some(65701042714925011523653996770800570int));
    lemma_digits_push(s, 'W'); let s = s.push('W'); assert(ulid_digits_value(s) == Some(2102433366877600368756927896665618268int));
    reveal_strlit("01JKMZFMP9QKHFTAJYC92HCXTW");
    assert("01JKMZFMP9QKHFTAJYC92HCXTW"@ =~= s);
}

/// One fixed id of the full default layout, decoded digit by digit.
#[verifier::spinoff_prover]
#[verifier::rlimit(40)]
proof fn lemma_game_id_decodes()
    ensures
        ulid_value("01JKMZFMP940258X2W86A1FQMT"@) == Some(2102433366876859572251509284926906010u128),
{
    let s = Seq::<char>::empty();
    lemma_digits_push(s, '0'); let s = s.push('0'); assert(ulid_digits_value(s) == Some(0int));
    lemma_digits_push(s, '1'); let s = s.push('1'); assert(ulid_digits_value(s) == Some(1int));
    lemma_digits_push(s, 'J'); let s = s.push('J'); assert(ulid_digits_value(s) == Some(50int));
    lemma_digits_push(s, 'K'); let s = s.push('K'); assert(ulid_digits_value(s) == Some(1619int));
    lemma_digits_push(s, 'M'); let s = s.push('M'); assert(ulid_digits_value(s) == Some(51828int));
    lemma_digits_push(s, 'Z'); let s = s.push('Z'); assert(ulid_digits_value(s) == Some(1658527int));
    lemma_digits_push(s, 'F'); let s = s.push('F'); assert(ulid_digits_value(s) == Some(53072879int));
    lemma_digits_push(s, 'M'); let s = s.push('M'); assert(ulid_digits_value(s) == Some(1698332148int));
    lemma_digits_push(s, 'P'); let s = s.push('P'); assert(ulid_digits_value(s) == Some(54346628758int));
    lemma_digits_push(s, '9'); let s = s.push('9'); assert(ulid_digits_value(s) == Some(1739092120265int));
    lemma_digits_push(s, '4'); let s = s.push('4'); assert(ulid_digits_value(s) == Some(55650947848484int));
    lemma_digits_push(s, '0'); let s = s.push('0'); assert(ulid_digits_value(s) == Some(1780830331151488int));
    lemma_digits_push(s, '2'); let s = s.push('2'); assert(ulid_digits_value(s) == Some(56986570596847618int));
    lemma_digits_push(s, '5'); let s = s.push('5'); assert(ulid_digits_value(s) == Some(1823570259099123781int));
    lemma_digits_push(s, '8'); let s = s.push('8'); assert(ulid_digits_value(s) == Some(58354248291171961000int));
    lemma_digits_push(s, 'X'); let s = s.push('X'); assert(ulid_digits_value(s) == Some(1867335945317502752029int));
    lemma_digits_push(s, '2'); let s = s.push('2'); assert(ulid_digits_value(s) == Some(59754750250160088064930int));
    lemma_digits_push(s, 'W'); let s = s.push('W'); assert(ulid_digits_value(s) == Some(1912152008005122818077788int));
    lemma_digits_push(s, '8'); let s = s.push('8'); assert(ulid_digits_value(s) == Some(61188864256163930178489224int));
    lemma_digits_push(s, '6'); let s = s.push('6'); assert(ulid_digits_value(s) == Some(1958043656197245765711655174int));
    lemma_digits_push(s, 'A'); let s = s.push('A'); assert(ulid_digits_value(s) == Some(62657396998311864502772965578int));
    lemma_digits_push(s, '1'); let s = s.push('1'); assert(ulid_digits_value(s) == Some(2005036703945979664088734898497int));
    lemma_digits_push(s, 'F'); let s = s.push('F'); assert(ulid_digits_value(s) == Some(64161174526271349250839516751919int));
    lemma_digits_push(s, 'Q'); let s = s.push('Q'); assert(ulid_digits_value(s) == Some(2053157584840683176026864536061431int));
    lemma_digits_push(s, 'M'); let s = s.push('M'); assert(ulid_digits_value(s) == Some(65701042714901861632859665153965812int));
    lemma_digits_push(s, 'T'); let s = s.push('T'); assert(ulid_digits_value(s) == Some(2102433366876859572251509284926906010int));
    reveal_strlit("01JKMZFMP940258X2W86A1FQMT");
    assert("01JKMZFMP940258X2W86A1FQMT"@ =~= s);
}

/// One fixed id of the full default layout, decoded digit by digit.
#[verifier::spinoff_prover]
#[verifier::rlimit(40)]
proof fn lemma_music_id_decodes()
    ensures
        ulid_value("01JKMZFMP9HHCDABBKGV038EMB"@) == Some(2102433366877371146633631891618806411u128),
{
    let s = Seq::<char>::empty();
    lemma_digits_push(s, '0'); let s = s.push('0'); assert(ulid_digits_value(s) == Some(0int));
    lemma_digits_push(s, '1'); let s = s.push('1'); assert(ulid_digits_value(s) == Some(1int));
    lemma_digits_push(s, 'J'); let s = s.push('J'); assert(ulid_digits_value(s) == Some(50int));
    lemma_digits_push(s, 'K'); let s = s.push('K'); assert(ulid_digits_value(s) == Some(1619int));
    lemma_digits_push(s, 'M'); let s = s.push('M'); assert(ulid_digits_value(s) == Some(51828int));
    lemma_digits_push(s, 'Z'); let s = s.push('Z'); assert(ulid_digits_value(s) == Some(1658527int));
    lemma_digits_push(s, 'F'); let s = s.push('F'); assert(ulid_digits_value(s) == Some(53072879int));
    lemma_digits_push(s, 'M'); let s = s.push('M'); assert(ulid_digits_value(s) == Some(1698332148int));
    lemma_digits_push(s, 'P'); let s = s.push('P'); assert(ulid_digits_value(s) == Some(54346628758int));
    lemma_digits_push(s, '9'); let s = s.push('9'); assert(ulid_digits_value(s) == Some(1739092120265int));
    lemma_digits_push(s, 'H'); let s = s.push('H'); assert(ulid_digits_value(s) == Some(55650947848497int));
    lemma_digits_push(s, 'H'); let s = s.push('H'); assert(ulid_digits_value(s) == Some(1780830331151921int));
    lemma_digits_push(s, 'C'); let s = s.push('C'); assert(ulid_digits_value(s) == Some(56986570596861484int));
    lemma_digits_push(s, 'D'); let s = s.push('D'); assert(ulid_digits_value(s) == Some(1823570259099567501int));
    lemma_digits_push(s, 'A'); let s = s.push('A'); assert(ulid_digits_value(s) == Some(58354248291186160042int));
    lemma_digits_push(s, 'B'); let s = s.push('B'); assert(ulid_digits_value(s) == Some(1867335945317957121355int));
    lemma_digits_push(s, 'B'); let s = s.push('B'); assert(ulid_digits_value(s) == Some(59754750250174627883371int));
    lemma_digits_push(s, 'K'); let s = s.push('K'); assert(ulid_digits_value(s) == Some(1912152008005588092267891int));
    lemma_digits_push(s, 'G'); let s = s.push('G'); assert(ulid_digits_value(s) == Some(61188864256178818952572528int));
    lemma_digits_push(s, 'V'); let s = s.push('V'); assert(ulid_digits_value(s) == Some(1958043656197722206482320923int));
    lemma_digits_push(s, '0'); let s = s.push('0'); assert(ulid_digits_value(s) == Some(62657396998327110607434269536int));
    lemma_digits_push(s, '3'); let s = s.push('3'); assert(ulid_digits_value(s) == Some(2005036703946467539437896625155int));
    lemma_digits_push(s, '8'); let s = s.push('8'); assert(ulid_digits_value(s) == Some(64161174526286961262012692004968int));
    lemma_digits_push(s, 'E'); let s = s.push('E'); assert(ulid_digits_value(s) == Some(2053157584841182760384406144158990int));
    lemma_digits_push(s, 'M'); let s = s.push('M'); assert(ulid_digits_value(s) == Some(65701042714917848332300996613087700int));
    lemma_digits_push(s, 'B'); let s = s.push('B'); assert(ulid_digits_value(s) == Some(2102433366877371146633631891618806411int));
    reveal_strlit("01JKMZFMP9HHCDABBKGV038EMB");
    assert("01JKMZFMP9HHCDABBKGV038EMB"@ =~= s);
}

/// One fixed id of the full default layout, decoded digit by digit.
#[verifier::spinoff_prover]
#[verifier::rlimit(40)]
proof fn lemma_chat_id_decodes()
    ensures
        ulid_value("01JKMZFMP9Z4X6V73PQXWB786K"@) == Some(2102433366877885323715199956279337171u128),
{
    let s = Seq::<char>::empty();
    lemma_digits_push(s, '0'); let s = s.push('0'); assert(ulid_digits_value(s) == Some(0int));
    lemma_digits_push(s, '1'); let s = s.push('1'); assert(ulid_digits_value(s) == Some(1int));
    lemma_digits_push(s, 'J'); let s = s.push('J'); assert(ulid_digits_value(s) == Some(50int));
    lemma_digits_push(s, 'K'); let s = s.push('K'); assert(ulid_digits_value(s) == Some(1619int));
    lemma_digits_push(s, 'M'); let s = s.push('M'); assert(ulid_digits_value(s) == Some(51828int));
    lemma_digits_push(s, 'Z'); let s = s.push('Z'); assert(ulid_digits_value(s) == Some(1658527int));
    lemma_digits_push(s, 'F'); let s = s.push('F'); assert(ulid_digits_value(s) == Some(53072879int));
    lemma_digits_push(s, 'M'); let s = s.push('M'); assert(ulid_digits_value(s) == Some(1698332148int));
    lemma_digits_push(s, 'P'); let s = s.push('P'); assert(ulid_digits_value(s) == Some(54346628758int));
    lemma_digits_push(s, '9'); let s = s.push('9'); assert(ulid_digits_value(s) == Some(1739092120265int));
    lemma_digits_push(s, 'Z'); let s = s.push('Z'); assert(ulid_digits_value(s) == Some(55650947848511int));
    lemma_digits_push(s, '4'); let s = s.push('4'); assert(ulid_digits_value(s) == Some(1780830331152356int));
    lemma_digits_push(s, 'X'); let s = s.push('X'); assert(ulid_digits_value(s) == Some(56986570596875421int));
    lemma_digits_push(s, '6'); let s = s.push('6'); assert(ulid_digits_value(s) == Some(1823570259100013478int));
    lemma_digits_push(s, 'V'); let s = s.push('V'); assert(ulid_digits_value(s) == Some(58354248291200431323int));
    lemma_digits_push(s, '7'); let s = s.push('7'); assert(ulid_digits_value(s) == Some(1867335945318413802343int));
    lemma_digits_push(s, '3'); let s = s.push('3'); assert(ulid_digits_value(s) == Some(59754750250189241674979int));
    lemma_digits_push(s, 'P'); let s = s.push('P'); assert(ulid_digits_value(s) == Some(1912152008006055733599350int));
    lemma_digits_push(s, 'Q'); let s = s.push('Q'); assert(ulid_digits_value(s) == Some(61188864256193783475179223int));
    lemma_digits_push(s, 'X'); let s = s.push('X'); assert(ulid_digits_value(s) == Some(1958043656198201071205735165int));
    lemma_digits_push(s, 'W'); let s = s.push('W'); assert(ulid_digits_value(s) == Some(62657396998342434278583525308int));
    lemma_digits_push(s, 'B'); let s = s.push('B'); assert(ulid_digits_value(s) == Some(2005036703946957896914672809867int));
    lemma_digits_push(s, '7'); let s = s.push('7'); assert(ulid_digits_value(s) == Some(64161174526302652701269529915751int));
    lemma_digits_push(s, '8'); let s = s.push('8'); assert(ulid_digits_value(s) == Some(2053157584841684886440624957304040int));
    lemma_digits_push(s, '6'); let s = s.push('6'); assert(ulid_digits_value(s) == Some(65701042714933916366099998633729286int));
    lemma_digits_push(s, 'K'); let s = s.push('K'); assert(ulid_digits_value(s) == Some(2102433366877885323715199956279337171int));
    reveal_strlit("01JKMZFMP9Z4X6V73PQXWB786K");
    assert("01JKMZFMP9Z4X6V73PQXWB786K"@ =~= s);
}

/// One fixed id of the full default layout, decoded digit by digit.
#[verifier::spinoff_prover]
#[verifier::rlimit(40)]
proof fn lemma_headphones_id_decodes()
    ensures
        ulid_value("01JKMZFMP9EMT8MFS30M8KP2FZ"@) == Some(2102433366877261862722397715054660095u128),
{
    let s = Seq::<char>::empty();
    lemma_digits_push(s, '0'); let s = s.push('0'); assert(ulid_digits_value(s) == Some(0int));
    lemma_digits_push(s, '1'); let s = s.push('1'); assert(ulid_digits_value(s) == Some(1int));
    lemma_digits_push(s, 'J'); let s = s.push('J'); assert(ulid_digits_value(s) == Some(50int));
    lemma_digits_push(s, 'K'); let s = s.push('K'); assert(ulid_digits_value(s) == Some(1619int));
    lemma_digits_push(s, 'M'); let s = s.push('M'); assert(ulid_digits_value(s) == Some(51828int));
    lemma_digits_push(s, 'Z'); let s = s.push('Z'); assert(ulid_digits_value(s) == Some(1658527int));
    lemma_digits_push(s, 'F'); let s = s.push('F'); assert(ulid_digits_value(s) == Some(53072879int));
    lemma_digits_push(s, 'M'); let s = s.push('M'); assert(ulid_digits_value(s) == Some(1698332148int));
    lemma_digits_push(s, 'P'); let s = s.push('P'); assert(ulid_digits_value(s) == Some(54346628758int));
    lemma_digits_push(s, '9'); let s = s.push('9'); assert(ulid_digits_value(s) == Some(1739092120265int));
    lemma_digits_push(s, 'E'); let s = s.push('E'); assert(ulid_digits_value(s) == Some(55650947848494int));
    lemma_digits_push(s, 'M'); let s = s.push('M'); assert(ulid_digits_value(s) == Some(1780830331151828int));
    lemma_digits_push(s, 'T'); let s = s.push('T'); assert(ulid_digits_value(s) == Some(56986570596858522int));
    lemma_digits_push(s, '8'); let s = s.push('8'); assert(ulid_digits_value(s) == Some(1823570259099472712int));
    lemma_digits_push(s, 'M'); let s = s.push('M'); assert(ulid_digits_value(s) == Some(58354248291183126804int));
    lemma_digits_push(s, 'F'); let s = s.push('F'); assert(ulid_digits_value(s) == Some(1867335945317860057743int));
    lemma_digits_push(s, 'S'); let s = s.push('S'); assert(ulid_digits_value(s) == Some(59754750250171521847801int));
    lemma_digits_push(s, '3'); let s = s.push('3'); assert(ulid_digits_value(s) == Some(1912152008005488699129635int));
    lemma_digits_push(s, '0'); let s = s.push('0'); assert(ulid_digits_value(s) == Some(61188864256175638372148320int));
    lemma_digits_push(s, 'M'); let s = s.push('M'); assert(ulid_digits_value(s) == Some(1958043656197620427908746260int));
    lemma_digits_push(s, '8'); let s = s.push('8'); assert(ulid_digits_value(s) == Some(62657396998323853693079880328int));
    lemma_digits_push(s, 'K'); let s = s.push('K'); assert(ulid_digits_value(s) == Some(2005036703946363318178556170515int));
    lemma_digits_push(s, 'P'); let s = s.push('P'); assert(ulid_digits_value(s) == Some(64161174526283626181713797456502int));
    lemma_digits_push(s, '2'); let s = s.push('2'); assert(ulid_digits_value(s) == Some(2053157584841076037814841518608066int));
    lemma_digits_push(s, 'F'); let s = s.push('F'); assert(ulid_digits_value(s) == Some(65701042714914433210074928595458127int));
    lemma_digits_push(s, 'Z'); let s = s.push('Z'); assert(ulid_digits_value(s) == Some(2102433366877261862722397715054660095int));
    reveal_strlit("01JKMZFMP9EMT8MFS30M8KP2FZ");
    assert("01JKMZFMP9EMT8MFS30M8KP2FZ"@ =~= s);
}

/// One fixed id of the full default layout, decoded digit by digit.
#[verifier::spinoff_prover]
#[verifier::rlimit(40)]
proof fn lemma_stream_mix_id_decodes()
    ensures
        ulid_value("01JKMZFMP9XRDWX1QWBED7BB4T"@) == Some(2102433366877832812818363183005019290u128),
{
    let s = Seq::<char>::empty();
    lemma_digits_push(s, '0'); let s = s.push('0'); assert(ulid_digits_value(s) == Some(0int));
    lemma_digits_push(s, '1'); let s = s.push('1'); assert(ulid_digits_value(s) == Some(1int));
    lemma_digits_push(s, 'J'); let s = s.push('J'); assert(ulid_digits_value(s) == Some(50int));
    lemma_digits_push(s, 'K'); let s = s.push('K'); assert(ulid_digits_value(s) == Some(1619int));
    lemma_digits_push(s, 'M'); let s = s.push('M'); assert(ulid_digits_value(s) == Some(51828int));
    lemma_digits_push(s, 'Z'); let s = s.push('Z'); assert(ulid_digits_value(s) == Some(1658527int));
    lemma_digits_push(s, 'F'); let s = s.push('F'); assert(ulid_digits_value(s) == Some(53072879int));
    lemma_digits_push(s, 'M'); let s = s.push('M'); assert(ulid_digits_value(s) == Some(1698332148int));
    lemma_digits_push(s, 'P'); let s = s.push('P'); assert(ulid_digits_value(s) == Some(54346628758int));
    lemma_digits_push(s, '9'); let s = s.push('9'); assert(ulid_digits_value(s) == Some(1739092120265int));
    lemma_digits_push(s, 'X'); let s = s.push('X'); assert(ulid_digits_value(s) == Some(55650947848509int));
    lemma_digits_push(s, 'R'); let s = s.push('R'); assert(ulid_digits_value(s) == Some(1780830331152312int));
    lemma_digits_push(s, 'D'); let s = s.push('D'); assert(ulid_digits_value(s) == Some(56986570596873997int));
    lemma_digits_push(s, 'W'); let s = s.push('W'); assert(ulid_digits_value(s) == Some(1823570259099967932int));
    lemma_digits_push(s, 'X'); let s = s.push('X'); assert(ulid_digits_value(s) == Some(58354248291198973853int));
    lemma_digits_push(s, '1'); let s = s.push('1'); assert(ulid_digits_value(s) == Some(1867335945318367163297int));
    lemma_digits_push(s, 'Q'); let s = s.push('Q'); assert(ulid_digits_value(s) == Some(59754750250187749225527int));
    lemma_digits_push(s, 'W'); let s = s.push('W'); assert(ulid_digits_value(s) == Some(1912152008006007975216892int));
    lemma_digits_push(s, 'B'); let s = s.push('B'); assert(ulid_digits_value(s) == Some(61188864256192255206940555int));
    lemma_digits_push(s, 'E'); let s = s.push('E'); assert(ulid_digits_value(s) == Some(1958043656198152166622097774int));
    lemma_digits_push(s, 'D'); let s = s.push('D'); assert(ulid_digits_value(s) == Some(62657396998340869331907128781int));
    lemma_digits_push(s, '7'); let s = s.push('7'); assert(ulid_digits_value(s) == Some(2005036703946907818621028120999int));
    lemma_digits_push(s, 'B'); let s = s.push('B'); assert(ulid_digits_value(s) == Some(64161174526301050195872899871979int));
    lemma_digits_push(s, 'B'); let s = s.push('B'); assert(ulid_digits_value(s) == Some(2053157584841633606267932795903339int));
    lemma_digits_push(s, '4'); let s = s.push('4'); assert(ulid_digits_value(s) == Some(65701042714932275400573849468906852int));
    lemma_digits_push(s, 'T'); let s = s.push('T'); assert(ulid_digits_value(s) == Some(2102433366877832812818363183005019290int));
    reveal_strlit("01JKMZFMP9XRDWX1QWBED7BB4T");
    assert("01JKMZFMP9XRDWX1QWBED7BB4T"@ =~= s);
}

/// One fixed id of the full default layout, decoded digit by digit.
#[verifier::spinoff_prover]
#[verifier::rlimit(40)]
proof fn lemma_vod_mix_id_decodes()
    ensures
        ulid_value("01JKMZFMP9XRDWX1QWBED7BB4W"@) == Some(2102433366877832812818363183005019292u128),
{
    let s = Seq::<char>::empty();
    lemma_digits_push(s, '0'); let s = s.push('0'); assert(ulid_digits_value(s) == Some(0int));
    lemma_digits_push(s, '1'); let s = s.push('1'); assert(ulid_digits_value(s) == Some(1int));
    lemma_digits_push(s, 'J'); let s = s.push('J'); assert(ulid_digits_value(s) == Some(50int));
    lemma_digits_push(s, 'K'); let s = s.push('K'); assert(ulid_digits_value(s) == Some(1619int));
    lemma_digits_push(s, 'M'); let s = s.push('M'); assert(ulid_digits_value(s) == Some(51828int));
    lemma_digits_push(s, 'Z'); let s = s.push('Z'); assert(ulid_digits_value(s) == Some(1658527int));
    lemma_digits_push(s, 'F'); let s = s.push('F'); assert(ulid_digits_value(s) == Some(53072879int));
    lemma_digits_push(s, 'M'); let s = s.push('M'); assert(ulid_digits_value(s) == Some(1698332148int));
    lemma_digits_push(s, 'P'); let s = s.push('P'); assert(ulid_digits_value(s) == Some(54346628758int));
    lemma_digits_push(s, '9'); let s = s.push('9'); assert(ulid_digits_value(s) == Some(1739092120265int));
    lemma_digits_push(s, 'X'); let s = s.push('X'); assert(ulid_digits_value(s) == Some(55650947848509int));
    lemma_digits_push(s, 'R'); let s = s.push('R'); assert(ulid_digits_value(s) == Some(1780830331152312int));
    lemma_digits_push(s, 'D'); let s = s.push('D'); assert(ulid_digits_value(s) == Some(56986570596873997int));
    lemma_digits_push(s, 'W'); let s = s.push('W'); assert(ulid_digits_value(s) == Some(1823570259099967932int));
    lemma_digits_push(s, 'X'); let s = s.push('X'); assert(ulid_digits_value(s) == Some(58354248291198973853int));
    lemma_digits_push(s, '1'); let s = s.push('1'); assert(ulid_digits_value(s) == Some(1867335945318367163297int));
    lemma_digits_push(s, 'Q'); let s = s.push('Q'); assert(ulid_digits_value(s) == Some(59754750250187749225527int));
    lemma_digits_push(s, 'W'); let s = s.push('W'); assert(ulid_digits_value(s) == Some(1912152008006007975216892int));
    lemma_digits_push(s, 'B'); let s = s.push('B'); assert(ulid_digits_value(s) == Some(61188864256192255206940555int));
    lemma_digits_push(s, 'E'); let s = s.push('E'); assert(ulid_digits_value(s) == Some(1958043656198152166622097774int));
    lemma_digits_push(s, 'D'); let s = s.push('D'); assert(ulid_digits_value(s) == Some(62657396998340869331907128781int));
    lemma_digits_push(s, '7'); let s = s.push('7'); assert(ulid_digits_value(s) == Some(2005036703946907818621028120999int));
    lemma_digits_push(s, 'B'); let s = s.push('B'); assert(ulid_digits_value(s) == Some(64161174526301050195872899871979int));
    lemma_digits_push(s, 'B'); let s = s.push('B'); assert(ulid_digits_value(s) == Some(2053157584841633606267932795903339int));
    lemma_digits_push(s, '4'); let s = s.push('4'); assert(ulid_digits_value(s) == Some(65701042714932275400573849468906852int));
    lemma_digits_push(s, 'W'); let s = s.push('W'); assert(ulid_digits_value(s) == Some(2102433366877832812818363183005019292int));
    reveal_strlit("01JKMZFMP9XRDWX1QWBED7BB4W");
    assert("01JKMZFMP9XRDWX1QWBED7BB4W"@ =~= s);
}

/// One fixed id of the full default layout, decoded digit by digit.
#[verifier::spinoff_prover]
#[verifier::rlimit(40)]
proof fn lemma_chat_mic_id_decodes()
    ensures
        ulid_value("01JKMZFMP9RNMBGFMN6A9ER279"@) == Some(2102433366877640614586212510111369449u128),
{
    let s = Seq::<char>::empty();
    lemma_digits_push(s, '0'); let s = s.push('0'); assert(ulid_digits_value(s) == Some(0int));
    lemma_digits_push(s, '1'); let s = s.push('1'); assert(ulid_digits_value(s) == Some(1int));
    lemma_digits_push(s, 'J'); let s = s.push('J'); assert(ulid_digits_value(s) == Some(50int));
    lemma_digits_push(s, 'K'); let s = s.push('K'); assert(ulid_digits_value(s) == Some(1619int));
    lemma_digits_push(s, 'M'); let s = s.push('M'); assert(ulid_digits_value(s) == Some(51828int));
    lemma_digits_push(s, 'Z'); let s = s.push('Z'); assert(ulid_digits_value(s) == Some(1658527int));
    lemma_digits_push(s, 'F'); let s = s.push('F'); assert(ulid_digits_value(s) == Some(53072879int));
    lemma_digits_push(s, 'M'); let s = s.push('M'); assert(ulid_digits_value(s) == Some(1698332148int));
    lemma_digits_push(s, 'P'); let s = s.push('P'); assert(ulid_digits_value(s) == Some(54346628758int));
    lemma_digits_push(s, '9'); let s = s.push('9'); assert(ulid_digits_value(s) == Some(1739092120265int));
    lemma_digits_push(s, 'R'); let s = s.push('R'); assert(ulid_digits_value(s) == Some(55650947848504int));
    lemma_digits_push(s, 'N'); let s = s.push('N'); assert(ulid_digits_value(s) == Some(1780830331152149int));
    lemma_digits_push(s, 'M'); let s = s.push('M'); assert(ulid_digits_value(s) == Some(56986570596868788int));
    lemma_digits_push(s, 'B'); let s = s.push('B'); assert(ulid_digits_value(s) == Some(1823570259099801227int));
    lemma_digits_push(s, 'G'); let s = s.push('G'); assert(ulid_digits_value(s) == Some(58354248291193639280int));
    lemma_digits_push(s, 'F'); let s = s.push('F'); assert(ulid_digits_value(s) == Some(1867335945318196456975int));
    lemma_digits_push(s, 'M'); let s = s.push('M'); assert(ulid_digits_value(s) == Some(59754750250182286623220int));
    lemma_digits_push(s, 'N'); let s = s.push('N'); assert(ulid_digits_value(s) == Some(1912152008005833171943061int));
    lemma_digits_push(s, '6'); let s = s.push('6'); assert(ulid_digits_value(s) == Some(61188864256186661502177958int));
    lemma_digits_push(s, 'A'); let s = s.push('A'); assert(ulid_digits_value(s) == Some(1958043656197973168069694666int));
    lemma_digits_push(s, '9'); let s = s.push('9'); assert(ulid_digits_value(s) == Some(62657396998335141378230229321int));
    lemma_digits_push(s, 'E'); let s = s.push('E'); assert(ulid_digits_value(s) == Some(2005036703946724524103367338286int));
    lemma_digits_push(s, 'R'); let s = s.push('R'); assert(ulid_digits_value(s) == Some(64161174526295184771307754825176int));
    lemma_digits_push(s, '2'); let s = s.push('2'); assert(ulid_digits_value(s) == Some(2053157584841445912681848154405634int));
    lemma_digits_push(s, '7'); let s = s.push('7'); assert(ulid_digits_value(s) == Some(65701042714926269205819140940980295int));
    lemma_digits_push(s, '9'); let s = s.push('9'); assert(ulid_digits_value(s) == Some(2102433366877640614586212510111369449int));
    reveal_strlit("01JKMZFMP9RNMBGFMN6A9ER279");
    assert("01JKMZFMP9RNMBGFMN6A9ER279"@ =~= s);
}

/// Decodes the fixed ids of the full default layout.
pub fn default_ids() -> (r: DefaultIds)
    ensures
        r == default_ids_spec(),
{
    proof {
        lemma_mic_id_decodes();
        lemma_pc_line_in_id_decodes();
        lemma_system_id_decodes();
        lemma_browser_id_decodes();
        lemma_game_id_decodes();
        lemma_music_id_decodes();
        lemma_chat_id_decodes();
        lemma_headphones_id_decodes();
        lemma_stream_mix_id_decodes();
        lemma_vod_mix_id_decodes();
        lemma_chat_mic_id_decodes();
    }
    let mic = parse_ulid("01JKMZFMP9A8J92S631RF3AP3W");
    let pc_line_in = parse_ulid("01JKMZFMP9A8J92S631RF3AP3J");
    let system = parse_ulid("01JKMZFMP9QKHFTAJYC92HCXTV");
    let browser = parse_ulid("01JKMZFMP9QKHFTAJYC92HCXTW");
    let game = parse_ulid("01JKMZFMP940258X2W86A1FQMT");
    let music = parse_ulid("01JKMZFMP9HHCDABBKGV038EMB");
    let chat = parse_ulid("01JKMZFMP9Z4X6V73PQXWB786K");
    let headphones = parse_ulid("01JKMZFMP9EMT8MFS30M8KP2FZ");
    let stream_mix = parse_ulid("01JKMZFMP9XRDWX1QWBED7BB4T");
    let vod_mix = parse_ulid("01JKMZFMP9XRDWX1QWBED7BB4W");
    let chat_mic = parse_ulid("01JKMZFMP9RNMBGFMN6A9ER279");
    DefaultIds {
        mic: mic.unwrap(),
        pc_line_in: pc_line_in.unwrap(),
        system: system.unwrap(),
        browser: browser.unwrap(),
        game: game.unwrap(),
        music: music.unwrap(),
        chat: chat.unwrap(),
        headphones: headphones.unwrap(),
        stream_mix: stream_mix.unwrap(),
        vod_mix: vod_mix.unwrap(),
        chat_mic: chat_mic.unwrap(),
    }
}

/// The full default layout under its fixed ids.
pub fn default_profile() -> (r: ProfileLayout)
    ensures
        r@ == default_layout_spec(default_ids_spec()),
{
    default_layout(default_ids())
}

/// Whether a source of the layout has this id.
pub open spec fn is_source(m: LayoutModel, id: u128) -> bool {
    (exists|k: int| 0 <= k < m.physical_sources.len() && #[trigger] m.physical_sources[k].id == id)
        || (exists|k: int| 0 <= k < m.virtual_sources.len() && #[trigger] m.virtual_sources[k].id == id)
}

/// Whether a target of the layout has this id.
pub open spec fn is_target(m: LayoutModel, id: u128) -> bool {
    (exists|k: int| 0 <= k < m.physical_targets.len() && #[trigger] m.physical_targets[k].id == id)
        || (exists|k: int| 0 <= k < m.virtual_targets.len() && #[trigger] m.virtual_targets[k].id == id)
}

/// Every route of the layout leads from one of its sources to its targets.
pub open spec fn routes_known(m: LayoutModel) -> bool {
    forall|i: int| 0 <= i < m.routes.len() ==> is_source(m, (#[trigger] m.routes[i]).0)
        && forall|j: int| 0 <= j < m.routes[i].1.len() ==> is_target(m, #[trigger] m.routes[i].1[j])
}

/// The starting layout routes only its own sources to its own targets.
pub proof fn law_base_layout_routes_known(mic: u128, system: u128, browser: u128, headphones: u128, chat_mic: u128)
    ensures
        routes_known(base_layout_spec(mic, system, browser, headphones, chat_mic)),
{
    let m = base_layout_spec(mic, system, browser, headphones, chat_mic);
    assert(m.physical_sources[0].id == mic);
    assert(m.virtual_sources[0].id == system);
    assert(m.virtual_sources[1].id == browser);
    assert(m.physical_targets[0].id == headphones);
    assert(m.virtual_targets[0].id == chat_mic);
    assert(is_target(m, headphones) && is_target(m, chat_mic));
    assert(is_source(m, mic) && is_source(m, system) && is_source(m, browser));
}

/// The full default layout routes only its own sources to its own targets.
pub proof fn law_default_layout_routes_known(ids: DefaultIds)
    ensures
        routes_known(default_layout_spec(ids)),
{
    let m = default_layout_spec(ids);
    assert(m.physical_sources[0].id == ids.mic);
    assert(m.physical_sources[1].id == ids.pc_line_in);
    assert(m.virtual_sources[0].id == ids.system);
    assert(m.virtual_sources[2].id == ids.game);
    assert(m.virtual_sources[3].id == ids.music);
    assert(m.virtual_sources[4].id == ids.chat);
    assert(m.physical_targets[0].id == ids.headphones);
    assert(m.virtual_targets[0].id == ids.stream_mix);
    assert(m.virtual_targets[2].id == ids.chat_mic);
    assert(is_target(m, ids.headphones) && is_target(m, ids.stream_mix) && is_target(m, ids.chat_mic));
    assert(is_source(m, ids.mic) && is_source(m, ids.pc_line_in) && is_source(m, ids.system)
        && is_source(m, ids.game) && is_source(m, ids.music) && is_source(m, ids.chat));
}

/// No two routes of the layout start at the same source.
pub open spec fn route_sources_distinct(m: LayoutModel) -> bool {
    forall|i: int, j: int| 0 <= i < m.routes.len() && 0 <= j < m.routes.len() && i != j
        ==> (#[trigger] m.routes[i]).0 != (#[trigger] m.routes[j]).0
}

/// The starting layout routes each source once, when its sources' ids
/// differ.
pub proof fn law_base_layout_route_sources_distinct(mic: u128, system: u128, browser: u128, headphones: u128,
    chat_mic: u128)
    requires
        mic != system,
        mic != browser,
        system != browser,
    ensures
        route_sources_distinct(base_layout_spec(mic, system, browser, headphones, chat_mic)),
{
}

/// The eleven ids of the full default layout, in the order they are listed.
pub open spec fn default_id_list(ids: DefaultIds) -> Seq<u128> {
    seq![ids.mic, ids.pc_line_in, ids.system, ids.browser, ids.game, ids.music, ids.chat, ids.headphones,
        ids.stream_mix, ids.vod_mix, ids.chat_mic]
}

/// The fixed ids of the full default layout are all different, and the
/// layout routes each source once.
pub proof fn law_default_layout_ids_distinct()
    ensures
        default_id_list(default_ids_spec()).no_duplicates(),
        route_sources_distinct(default_layout_spec(default_ids_spec())),
{
}

} // verus!
