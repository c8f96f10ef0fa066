//! Value types shared between the daemon, the profile and the PipeWire layer.

use vstd::prelude::*;
use vstd::string::StringSliceAdditionalSpecFns;

verus! {

/// The four kinds of node the mixer knows about.
#[derive(Debug, Copy, Clone, PartialEq, Eq, Structural)]
pub enum NodeType {
    PhysicalSource,
    PhysicalTarget,
    VirtualSource,
    VirtualTarget,
}

/// One of the two mixes every source feeds.
#[derive(Debug, Copy, Clone, PartialEq, Eq, Structural)]
pub enum Mix {
    A,
    B,
}

impl Default for Mix {
    fn default() -> (r: Self)
        ensures
            r == Mix::A,
    {
        Mix::A
    }
}

/// Whether a device brings audio in or carries it out.
#[derive(Debug, Copy, Clone, PartialEq, Eq, Structural)]
pub enum DeviceType {
    Source,
    Target,
}

impl Default for DeviceType {
    fn default() -> (r: Self)
        ensures
            r == DeviceType::Source,
    {
        DeviceType::Source
    }
}

/// Direction of a port on a node.
#[derive(Debug, Copy, Clone, PartialEq, Eq, Structural)]
pub enum PortDirection {
    In,
    Out,
}

impl Default for PortDirection {
    fn default() -> (r: Self)
        ensures
            r == PortDirection::In,
    {
        PortDirection::In
    }
}

#[derive(Debug, Copy, Clone, PartialEq, Eq, Structural)]
pub enum MuteState {
    Unmuted,
    Muted,
}

impl Default for MuteState {
    fn default() -> (r: Self)
        ensures
            r == MuteState::Unmuted,
    {
        MuteState::Unmuted
    }
}

#[derive(Debug, Copy, Clone, Hash, PartialEq, Eq, Structural)]
pub enum MuteTarget {
    TargetA,
    TargetB,
}

impl Default for MuteTarget {
    fn default() -> (r: Self)
        ensures
            r == MuteTarget::TargetA,
    {
        MuteTarget::TargetA
    }
}

#[derive(Debug, Copy, Clone, Hash, PartialEq, Eq, Structural)]
pub enum OrderGroup {
    Default,
    Pinned,
    Hidden,
}

impl Default for OrderGroup {
    fn default() -> (r: Self)
        ensures
            r == OrderGroup::Default,
    {
        OrderGroup::Default
    }
}

/// Buffer size of the audio graph, in samples.
#[derive(Debug, Copy, Clone, PartialEq, Eq, Structural)]
pub enum Quantum {
    Quantum8,
    Quantum16,
    Quantum32,
    Quantum64,
    Quantum128,
    Quantum256,
    Quantum512,
    Quantum1024,
    Quantum2048,
}

impl Default for Quantum {
    fn default() -> (r: Self)
        ensures
            r == Quantum::Quantum512,
    {
        Quantum::Quantum512
    }
}

/// The number of samples a quantum stands for.
pub open spec fn quantum_samples(q: Quantum) -> u32 {
    match q {
        Quantum::Quantum8 => 8,
        Quantum::Quantum16 => 16,
        Quantum::Quantum32 => 32,
        Quantum::Quantum64 => 64,
        Quantum::Quantum128 => 128,
        Quantum::Quantum256 => 256,
        Quantum::Quantum512 => 512,
        Quantum::Quantum1024 => 1024,
        Quantum::Quantum2048 => 2048,
    }
}

/// The sample counts that `Quantum::from_samples` accepts. 2048 is not among
/// them: a quantum of that size can be written but not read back.
pub open spec fn supported_sample_count(value: u32) -> bool {
    value == 8 || value == 16 || value == 32 || value == 64 || value == 128 || value == 256
        || value == 512 || value == 1024
}

impl From<Quantum> for u32 {
    fn from(value: Quantum) -> (r: u32) {
        match value {
            Quantum::Quantum8 => 8,
            Quantum::Quantum16 => 16,
            Quantum::Quantum32 => 32,
            Quantum::Quantum64 => 64,
            Quantum::Quantum128 => 128,
            Quantum::Quantum256 => 256,
            Quantum::Quantum512 => 512,
            Quantum::Quantum1024 => 1024,
            Quantum::Quantum2048 => 2048,
        }
    }
}

impl vstd::std_specs::convert::FromSpecImpl<Quantum> for u32 {
    open spec fn obeys_from_spec() -> bool {
        true
    }

    open spec fn from_spec(v: Quantum) -> u32 {
        quantum_samples(v)
    }
}

impl Quantum {
    /// Sample count of this quantum.
    pub fn samples(self) -> (r: u32)
        ensures
            r == quantum_samples(self),
    {
        u32::from(self)
    }

    /// The quantum of the given sample count. Sizes other than the powers of
    /// two from 8 to 1024 are refused (the daemon stops on them).
    pub fn from_samples(value: u32) -> (q: Quantum)
        requires
            supported_sample_count(value),
        ensures
            quantum_samples(q) == value,
    {
        match value {
            8 => Quantum::Quantum8,
            16 => Quantum::Quantum16,
            32 => Quantum::Quantum32,
            64 => Quantum::Quantum64,
            128 => Quantum::Quantum128,
            256 => Quantum::Quantum256,
            512 => Quantum::Quantum512,
            _ => Quantum::Quantum1024,
        }
    }
}

/// Reading back the sample count of a quantum gives the same quantum, for
/// every quantum but the largest, whose size is not accepted on the way in.
/// Every quantum but the largest is read back from its sample count, and
/// no two quanta share a sample count.
pub proof fn law_quantum_round_trip(q: Quantum)
    requires
        q != Quantum::Quantum2048,
    ensures
        supported_sample_count(quantum_samples(q)),
        forall|r: Quantum| quantum_samples(r) == quantum_samples(q) ==> r == q,
{
}

/// Where an application stream is sent: one of our own nodes (by its
/// 128-bit identifier) or a PipeWire node we do not manage.
#[derive(Debug, Clone, Copy, Hash, PartialEq, Eq, Structural)]
pub enum AppTarget {
    Managed(u128),
    Unmanaged(u32),
}

/// An application that the profile maps onto a device.
#[derive(Debug, Clone)]
pub struct AppDefinition {
    pub device_type: DeviceType,
    pub process: String,
    pub name: String,
}

/// An RGB colour.
#[derive(Debug, Clone, Copy, PartialEq, Eq, Structural)]
pub struct Colour {
    pub red: u8,
    pub green: u8,
    pub blue: u8,
}

impl Default for Colour {
    fn default() -> (r: Self)
        ensures
            r == (Colour { red: 255, green: 255, blue: 0 }),
    {
        Colour { red: 255, green: 255, blue: 0 }
    }
}

} // verus!

verus! {

/// The error of a colour that is neither `#RGB` nor `#RRGGBB`.
#[derive(Debug, Clone, Copy, PartialEq, Eq, Structural)]
pub struct InvalidColour;

impl InvalidColour {
    /// The text the error is shown with.
    pub fn message(&self) -> (r: String)
        ensures
            r@ == "invalid colour (expected #RGB or #RRGGBB)"@,
    {
        "invalid colour (expected #RGB or #RRGGBB)".to_owned()
    }
}

pub open spec fn is_hex_digit(b: u8) -> bool {
    (0x30 <= b <= 0x39) || (0x61 <= b <= 0x66) || (0x41 <= b <= 0x46)
}

pub open spec fn hex_digit_value(b: u8) -> u8 {
    if 0x30 <= b <= 0x39 {
        (b - 0x30) as u8
    } else if 0x61 <= b <= 0x66 {
        (b - 0x61 + 10) as u8
    } else {
        (b - 0x41 + 10) as u8
    }
}

/// The byte that two hex digits spell, high digit first.
pub open spec fn hex_pair_value(hi: u8, lo: u8) -> Option<u8> {
    if is_hex_digit(hi) && is_hex_digit(lo) {
        Some((hex_digit_value(hi) * 16 + hex_digit_value(lo)) as u8)
    } else {
        None
    }
}

/// A single hex digit widened to a byte by repeating it (`A` is `0xAA`).
pub open spec fn hex_nibble_value(b: u8) -> Option<u8> {
    if is_hex_digit(b) {
        Some((hex_digit_value(b) * 17) as u8)
    } else {
        None
    }
}

/// The bytes of a colour string after one leading `#`, if present.
pub open spec fn colour_digits(bytes: Seq<u8>) -> Seq<u8> {
    if bytes.len() > 0 && bytes[0] == 0x23 {
        bytes.skip(1)
    } else {
        bytes
    }
}

/// The colour a string denotes, `#RRGGBB` or `#RGB` (the `#` optional).
pub open spec fn colour_of(bytes: Seq<u8>) -> Option<Colour> {
    let d = colour_digits(bytes);
    if d.len() == 6 {
        match (hex_pair_value(d[0], d[1]), hex_pair_value(d[2], d[3]), hex_pair_value(d[4], d[5])) {
            (Some(r), Some(g), Some(b)) => Some(Colour { red: r, green: g, blue: b }),
            _ => None,
        }
    } else if d.len() == 3 {
        match (hex_nibble_value(d[0]), hex_nibble_value(d[1]), hex_nibble_value(d[2])) {
            (Some(r), Some(g), Some(b)) => Some(Colour { red: r, green: g, blue: b }),
            _ => None,
        }
    } else {
        None
    }
}

fn hex_digit(b: u8) -> (r: Option<u8>)
    ensures
        r == (if is_hex_digit(b) { Some(hex_digit_value(b)) } else { None::<u8> }),
{
    if 0x30 <= b && b <= 0x39 {
        Some(b - 0x30)
    } else if 0x61 <= b && b <= 0x66 {
        Some(b - 0x61 + 10)
    } else if 0x41 <= b && b <= 0x46 {
        Some(b - 0x41 + 10)
    } else {
        None
    }
}

/// Two hex digits read as one byte, high digit first.
pub fn parse_byte(hi: u8, lo: u8) -> (r: Result<u8, InvalidColour>)
    ensures
        r matches Ok(v) ==> hex_pair_value(hi, lo) == Some(v),
        r is Err <==> hex_pair_value(hi, lo) is None,
{
    match (hex_digit(hi), hex_digit(lo)) {
        (Some(h), Some(l)) => Ok(h * 16 + l),
        _ => Err(InvalidColour),
    }
}

/// One hex digit widened to a byte by repeating it.
pub fn parse_nibble(b: u8) -> (r: Result<u8, InvalidColour>)
    ensures
        r matches Ok(v) ==> hex_nibble_value(b) == Some(v),
        r is Err <==> hex_nibble_value(b) is None,
{
    match hex_digit(b) {
        Some(v) => {
            assert(v * 17 == ((v << 4u8) | v)) by (bit_vector)
                requires
                    v < 16,
            ;
            Ok((v << 4) | v)
        },
        None => Err(InvalidColour),
    }
}

impl Colour {
    /// Parses `#RRGGBB` or `#RGB`; the leading `#` may be left out.
    pub fn from_str(s: &str) -> (r: Result<Colour, InvalidColour>)
        ensures
            r matches Ok(c) ==> colour_of(s.spec_bytes()) == Some(c),
            r is Err <==> colour_of(s.spec_bytes()) is None,
    {
        let bytes = s.as_bytes();
        let ghost all = bytes@;
        let start: usize = if bytes.len() > 0 && bytes[0] == 0x23 { 1 } else { 0 };
        let n = bytes.len() - start;
        let ghost d = colour_digits(all);
        assert(d.len() == n);
        assert(forall|i: int| 0 <= i < n ==> d[i] == all[start + i]);
        if n == 6 {
            let red = match parse_byte(bytes[start], bytes[start + 1]) {
                Ok(v) => v,
                Err(e) => return Err(e),
            };
            let green = match parse_byte(bytes[start + 2], bytes[start + 3]) {
                Ok(v) => v,
                Err(e) => return Err(e),
            };
            let blue = match parse_byte(bytes[start + 4], bytes[start + 5]) {
                Ok(v) => v,
                Err(e) => return Err(e),
            };
            Ok(Colour { red, green, blue })
        } else if n == 3 {
            let red = match parse_nibble(bytes[start]) {
                Ok(v) => v,
                Err(e) => return Err(e),
            };
            let green = match parse_nibble(bytes[start + 1]) {
                Ok(v) => v,
                Err(e) => return Err(e),
            };
            let blue = match parse_nibble(bytes[start + 2]) {
                Ok(v) => v,
                Err(e) => return Err(e),
            };
            Ok(Colour { red, green, blue })
        } else {
            Err(InvalidColour)
        }
    }
}

/// The hex digit of a value below 16, in lower or upper case.
pub open spec fn hex_digit_byte(v: int, upper: bool) -> u8 {
    if v < 10 {
        (0x30 + v) as u8
    } else if upper {
        (0x41 + v - 10) as u8
    } else {
        (0x61 + v - 10) as u8
    }
}

/// A colour written `#rrggbb` with two digits per component (`#RRGGBB`
/// when `upper`).
pub open spec fn colour_hex_text(c: Colour, upper: bool) -> Seq<u8> {
    seq![
        0x23u8,
        hex_digit_byte(c.red as int / 16, upper),
        hex_digit_byte(c.red as int % 16, upper),
        hex_digit_byte(c.green as int / 16, upper),
        hex_digit_byte(c.green as int % 16, upper),
        hex_digit_byte(c.blue as int / 16, upper),
        hex_digit_byte(c.blue as int % 16, upper),
    ]
}

proof fn lemma_hex_digit_byte(v: int, upper: bool)
    requires
        0 <= v < 16,
    ensures
        is_hex_digit(hex_digit_byte(v, upper)),
        hex_digit_value(hex_digit_byte(v, upper)) == v,
{
}

proof fn lemma_hex_pair_of(b: u8, upper: bool)
    ensures
        hex_pair_value(hex_digit_byte(b as int / 16, upper), hex_digit_byte(b as int % 16, upper))
            == Some(b),
{
    lemma_hex_digit_byte(b as int / 16, upper);
    lemma_hex_digit_byte(b as int % 16, upper);
}

/// Every colour written with two hex digits per component, in either case,
/// reads back as itself.
pub proof fn law_colour_hex_round_trip(c: Colour, upper: bool)
    ensures
        colour_of(colour_hex_text(c, upper)) == Some(c),
{
    let t = colour_hex_text(c, upper);
    lemma_hex_pair_of(c.red, upper);
    lemma_hex_pair_of(c.green, upper);
    lemma_hex_pair_of(c.blue, upper);
    assert(colour_digits(t) =~= t.skip(1));
}

/// The short form `#xyz` denotes the colour `#xxyyzz`, for any three hex
/// digits.
pub proof fn law_colour_short_form(x: u8, y: u8, z: u8)
    requires
        is_hex_digit(x),
        is_hex_digit(y),
        is_hex_digit(z),
    ensures
        colour_of(seq![0x23u8, x, y, z]) is Some,
        colour_of(seq![0x23u8, x, y, z]) == colour_of(seq![0x23u8, x, x, y, y, z, z]),
{
    let short = seq![0x23u8, x, y, z];
    let long = seq![0x23u8, x, x, y, y, z, z];
    assert(colour_digits(short) =~= seq![x, y, z]);
    assert(colour_digits(long) =~= seq![x, x, y, y, z, z]);
}

} // verus!
