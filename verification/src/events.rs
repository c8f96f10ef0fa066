//! What the PipeWire layer reports upstream, and the ids it reports with.

use vstd::prelude::*;
use crate::media::MediaClass;

verus! {

/// A node a default or a stream can point at: one of ours (by its 128-bit
/// identifier) or one PipeWire owns (by its global id).
#[derive(Debug, Copy, Clone, PartialEq, Eq, Structural)]
pub enum NodeTarget {
    Node(u128),
    UnmanagedNode(u32),
}

/// One end of a managed link.
#[derive(Debug, Copy, Clone, PartialEq, Eq, Structural)]
pub enum LinkType {
    Node(u128),
    Filter(u128),
    UnmanagedNode(u32),
}

/// A port of a device node as announced upstream.
#[derive(Debug, Clone)]
pub struct NodePort {
    pub name: String,
    pub channel: String,
}

/// A hardware node announced upstream.
#[derive(Debug, Clone)]
pub struct DeviceNode {
    pub node_id: u32,
    pub node_class: MediaClass,
    pub is_usable: bool,
    pub name: Option<String>,
    pub nickname: Option<String>,
    pub description: Option<String>,
    pub volume: u8,
    pub muted: bool,
    /// The non-monitor input and output ports.
    pub ports_in: Vec<NodePort>,
    pub ports_out: Vec<NodePort>,
}

/// An application stream announced upstream.
#[derive(Debug, Clone)]
pub struct ApplicationNode {
    pub node_id: u32,
    pub node_class: MediaClass,
    pub media_target: Option<Option<NodeTarget>>,
    pub volume: u8,
    pub muted: bool,
    pub title: Option<String>,
    pub process_name: String,
    pub name: String,
}

/// A message to the daemon.
#[derive(Debug, Clone)]
pub enum PipewireReceiver {
    Quit,
    AnnouncedClock(Option<u32>),
    DefaultChanged(MediaClass, NodeTarget),
    DeviceAdded(DeviceNode),
    DeviceRemoved(u32),
    DeviceUsable(u32, bool),
    DeviceVolumeChanged(u32, u8),
    DeviceMuteChanged(u32, bool),
    ApplicationAdded(ApplicationNode),
    ApplicationTargetChanged(u32, Option<NodeTarget>),
    ApplicationTitleChanged(u32, String),
    ApplicationVolumeChanged(u32, u8),
    ApplicationMuteChanged(u32, bool),
    ApplicationRemoved(u32),
    NodeVolumeChanged(u128, u8),
    NodeMuteChanged(u128, bool),
    ManagedLinkDropped(LinkType, LinkType),
}

} // verus!
