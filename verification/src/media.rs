//! Media classes: what PipeWire says a node is, and what the mixer makes of
//! its channel counts.

use vstd::prelude::*;
use crate::text::{has_infix, has_prefix, has_suffix, str_contains, str_ends_with, str_eq, str_starts_with};

verus! {

#[derive(Debug, Copy, Clone, PartialEq, Eq, Structural)]
pub enum MediaClass {
    Source,
    Sink,
    Duplex,
}

/// A node with one or two inputs and no outputs is a sink, one or two
/// outputs and no inputs a source, and as many inputs as outputs (one or
/// two) a duplex device. Anything else is not usable.
pub open spec fn media_class_for(in_count: int, out_count: int) -> Option<MediaClass> {
    if 1 <= in_count <= 2 && out_count == 0 {
        Some(MediaClass::Sink)
    } else if 1 <= out_count <= 2 && in_count == 0 {
        Some(MediaClass::Source)
    } else if 1 <= in_count <= 2 && in_count == out_count {
        Some(MediaClass::Duplex)
    } else {
        None
    }
}

/// Classifies a node by its (non-monitor) channel counts.
pub fn get_media_class(in_count: usize, out_count: usize) -> (r: Option<MediaClass>)
    ensures
        r == media_class_for(in_count as int, out_count as int),
{
    if 1 <= in_count && in_count <= 2 && out_count == 0 {
        return Some(MediaClass::Sink);
    } else if 1 <= out_count && out_count <= 2 && in_count == 0 {
        return Some(MediaClass::Source);
    } else if 1 <= in_count && in_count <= 2 && in_count == out_count {
        return Some(MediaClass::Duplex);
    }
    None
}

/// What a node's channel counts make it: a mono or stereo node with only
/// inputs is a sink, with only outputs a source, with as many of each a
/// duplex device; every other count is unusable. Swapping the counts swaps
/// sink and source and keeps duplex.
pub proof fn law_media_class_by_channels(in_count: int, out_count: int)
    requires
        in_count >= 0,
        out_count >= 0,
    ensures
        (in_count == 0 && (out_count == 1 || out_count == 2)) ==> media_class_for(in_count, out_count)
            == Some(MediaClass::Source),
        (out_count == 0 && (in_count == 1 || in_count == 2)) ==> media_class_for(in_count, out_count)
            == Some(MediaClass::Sink),
        ((in_count == 1 && out_count == 1) || (in_count == 2 && out_count == 2)) ==> media_class_for(in_count,
            out_count) == Some(MediaClass::Duplex),
        (in_count > 2 || out_count > 2 || (in_count == 0 && out_count == 0) || (in_count > 0 && out_count > 0
            && in_count != out_count)) ==> media_class_for(in_count, out_count) is None,
        media_class_for(in_count, out_count) == Some(MediaClass::Sink) <==> media_class_for(out_count, in_count)
            == Some(MediaClass::Source),
        media_class_for(in_count, out_count) == Some(MediaClass::Duplex) <==> media_class_for(out_count, in_count)
            == Some(MediaClass::Duplex),
{
}

/// The class a PipeWire `media.class` string announces, by its prefix.
pub open spec fn announced_class(s: Seq<char>) -> Option<MediaClass> {
    if has_prefix(s, "Audio/Sink"@) {
        Some(MediaClass::Sink)
    } else if has_prefix(s, "Audio/Source"@) {
        Some(MediaClass::Source)
    } else if has_prefix(s, "Audio/Duplex"@) {
        Some(MediaClass::Duplex)
    } else {
        None
    }
}

/// Reads the class out of a `media.class` string (`Audio/Sink...`,
/// `Audio/Source...`, `Audio/Duplex...`).
pub fn class_from_media_string(s: &str) -> (r: Option<MediaClass>)
    ensures
        r == announced_class(s@),
{
    if str_starts_with(s, "Audio/Sink") {
        Some(MediaClass::Sink)
    } else if str_starts_with(s, "Audio/Source") {
        Some(MediaClass::Source)
    } else if str_starts_with(s, "Audio/Duplex") {
        Some(MediaClass::Duplex)
    } else {
        None
    }
}

/// Whether a node of the given `media.class` can serve as a default of the
/// given kind: sinks and duplex nodes for a sink, sources and duplex nodes
/// for a source, duplex nodes for duplex.
pub open spec fn serves_as(media: Seq<char>, class: MediaClass) -> bool {
    match class {
        MediaClass::Sink => has_infix(media, "Sink"@) || has_infix(media, "Duplex"@),
        MediaClass::Source => has_infix(media, "Source"@) || has_infix(media, "Duplex"@),
        MediaClass::Duplex => has_infix(media, "Duplex"@),
    }
}

pub fn media_serves_as(media: &str, class: MediaClass) -> (r: bool)
    ensures
        r == serves_as(media@, class),
{
    match class {
        MediaClass::Sink => str_contains(media, "Sink") || str_contains(media, "Duplex"),
        MediaClass::Source => str_contains(media, "Source") || str_contains(media, "Duplex"),
        MediaClass::Duplex => str_contains(media, "Duplex"),
    }
}

/// The `media.class` values a device node is accepted with: audio sources
/// and sinks that are not internal.
pub open spec fn is_device_node_class(s: Seq<char>) -> bool {
    (has_prefix(s, "Audio/Source"@) || has_prefix(s, "Audio/Sink"@)) && !has_suffix(s, "/Internal"@)
}

/// Why a device node is refused by its `media.class`.
#[derive(Debug, Copy, Clone, PartialEq, Eq, Structural)]
pub enum DeviceClassError {
    NotAudioDevice,
    Internal,
}

pub fn check_device_node_class(s: &str) -> (r: Result<(), DeviceClassError>)
    ensures
        r is Ok <==> is_device_node_class(s@),
        r == Err::<(), _>(DeviceClassError::NotAudioDevice) <==> !(has_prefix(s@, "Audio/Source"@)
            || has_prefix(s@, "Audio/Sink"@)),
{
    if !str_starts_with(s, "Audio/Source") && !str_starts_with(s, "Audio/Sink") {
        return Err(DeviceClassError::NotAudioDevice);
    }
    if str_ends_with(s, "/Internal") {
        return Err(DeviceClassError::Internal);
    }
    Ok(())
}

/// A stream node (an application's input or output) has a class under `Stream/`.
pub open spec fn is_stream_class(s: Seq<char>) -> bool {
    has_prefix(s, "Stream/"@)
}

pub fn check_stream_class(s: &str) -> (r: bool)
    ensures
        r == is_stream_class(s@),
{
    str_starts_with(s, "Stream/")
}

/// What the registry does with a new node, by its `media.class`.
#[derive(Debug, Copy, Clone, PartialEq, Eq, Structural)]
pub enum NodeGlobalKind {
    DeviceNode,
    ClientNode,
    Ignored,
}

pub open spec fn node_global_kind(media: Option<Seq<char>>) -> NodeGlobalKind {
    match media {
        Some(m) => if m == "Audio/Sink"@ || m == "Audio/Source"@ {
            NodeGlobalKind::DeviceNode
        } else if m == "Stream/Input/Audio"@ || m == "Stream/Output/Audio"@ {
            NodeGlobalKind::ClientNode
        } else {
            NodeGlobalKind::Ignored
        },
        None => NodeGlobalKind::Ignored,
    }
}

/// Decides whether a node the registry announces is a device node, an
/// application stream or neither: only the exact classes count.
pub fn classify_node_global(media: Option<&str>) -> (r: NodeGlobalKind)
    ensures
        r == node_global_kind(match media { Some(m) => Some(m@), None => None }),
{
    match media {
        Some(m) => if str_eq(m, "Audio/Sink") || str_eq(m, "Audio/Source") {
            NodeGlobalKind::DeviceNode
        } else if str_eq(m, "Stream/Input/Audio") || str_eq(m, "Stream/Output/Audio") {
            NodeGlobalKind::ClientNode
        } else {
            NodeGlobalKind::Ignored
        },
        None => NodeGlobalKind::Ignored,
    }
}

} // verus!
