//! The single record of everything the PipeWire thread knows: the objects
//! we created (nodes, filters, links) and the ones PipeWire told us about
//! (devices, applications, their nodes and links). Each operation updates
//! the record and appends what it has to tell the daemon to `events`, and
//! the readiness of our own objects to `signals`; the caller delivers them.

use vstd::prelude::*;
use crate::default_device::DefaultDevice;
use crate::events::{LinkType, NodeTarget, PipewireReceiver};
use crate::id_map::IdMap;
use crate::registry::{RegistryClient, RegistryClientNode, RegistryDevice, RegistryDeviceNode,
    RegistryFactory, RegistryLink, PortLocation};
use crate::shared::PortDirection;

pub mod managed;
pub mod devices;
pub mod clients;
pub mod links;
pub mod unmanaged_links;
pub mod link_setup;
pub mod remove;
pub mod defaults;
pub mod metadata;
pub mod control;
pub mod globals;
pub mod creation;

verus! {

/// The state PipeWire reports for one of our nodes.
#[derive(Debug, Clone)]
pub enum NodeStoreState {
    Error(String),
    Creating,
    Suspending,
    Idle,
    Running,
}

/// A node we created.
#[derive(Debug)]
pub struct ManagedNode {
    pub id: u128,
    pub pw_id: Option<u32>,
    pub object_serial: Option<u32>,
    /// The `node.name` it was created with.
    pub node_name: Option<String>,
    /// The `media.class` it was created with.
    pub media_class: Option<String>,
    pub port_left: Option<u32>,
    pub port_right: Option<u32>,
    pub ports_ready: bool,
    pub node_state: NodeStoreState,
    /// `Some(true)` while a caller waits for readiness, `Some(false)` when
    /// readiness is still to be marked but nobody waits, `None` once done.
    pub ready_sender: Option<bool>,
}

/// A filter we created.
#[derive(Debug)]
pub struct ManagedFilter {
    pub id: u128,
    pub pw_id: Option<u32>,
    /// Port index per direction (input, output) and channel (left, right).
    pub port_in_left: u32,
    pub port_in_right: u32,
    pub port_out_left: u32,
    pub port_out_right: u32,
    pub ready_sender: Option<bool>,
}

/// One channel of a managed link.
#[derive(Debug, Clone, Copy, PartialEq, Eq, Structural)]
pub struct ManagedLinkMap {
    pub pw_id: Option<u32>,
    pub internal_id: u128,
    pub pending_seq_id: Option<i32>,
    /// Node and port of the output side.
    pub source_node: u32,
    pub source_port: u32,
    /// Node and port of the input side.
    pub destination_node: u32,
    pub destination_port: u32,
}

/// A stereo link we created between two endpoints.
#[derive(Debug, Clone, Copy, PartialEq, Eq, Structural)]
pub struct ManagedLink {
    pub source: LinkType,
    pub destination: LinkType,
    pub left: Option<ManagedLinkMap>,
    pub right: Option<ManagedLinkMap>,
    /// Whether a caller still waits for the link to be ready.
    pub ready_sender: bool,
}

/// A link group whose channels are still being created one after another.
#[derive(Debug)]
pub struct PendingLinkSync {
    pub parent_id: u128,
    pub group: ManagedLink,
    /// PipeWire ids of the channels bound so far, by channel id.
    pub bound_ids: IdMap<u128, u32>,
}

/// Readiness of one of our objects, for whoever waits on it.
#[derive(Debug, Clone, Copy, PartialEq, Eq, Structural)]
pub enum ReadySignal {
    Node(u128),
    Filter(u128),
    Link(u128),
}

pub struct Store {
    pub has_session_proxy: bool,
    pub has_settings_proxy: bool,
    pub factories: IdMap<u32, RegistryFactory>,
    pub default_sink: DefaultDevice,
    pub default_source: DefaultDevice,
    pub managed_nodes: IdMap<u128, ManagedNode>,
    pub managed_filters: IdMap<u128, ManagedFilter>,
    pub managed_links: IdMap<u128, ManagedLink>,
    pub unmanaged_devices: IdMap<u32, RegistryDevice>,
    pub unmanaged_device_nodes: IdMap<u32, RegistryDeviceNode>,
    pub unmanaged_clients: IdMap<u32, RegistryClient>,
    pub unmanaged_client_nodes: IdMap<u32, RegistryClientNode>,
    pub unmanaged_links: IdMap<u32, RegistryLink>,
    /// Application nodes announced upstream, in the order they were.
    pub usable_client_nodes: Vec<u32>,
    pub pending_link_syncs: Vec<PendingLinkSync>,
    pub pending_device_syncs: IdMap<i32, u32>,
    pub pending_filter_syncs: IdMap<i32, u128>,
    /// Messages for the daemon, oldest first.
    pub events: Vec<PipewireReceiver>,
    /// Readiness notifications, oldest first.
    pub signals: Vec<ReadySignal>,
}

/// Which parts of the store an operation may change.
pub struct Touch {
    pub sessions: bool,
    pub factories: bool,
    pub defaults: bool,
    pub managed_nodes: bool,
    pub managed_filters: bool,
    pub managed_links: bool,
    pub devices: bool,
    pub device_nodes: bool,
    pub clients: bool,
    pub client_nodes: bool,
    pub unmanaged_links: bool,
    pub usable: bool,
    pub pending: bool,
    pub events: bool,
    pub signals: bool,
}

pub open spec fn touch_none() -> Touch {
    Touch {
        sessions: false,
        factories: false,
        defaults: false,
        managed_nodes: false,
        managed_filters: false,
        managed_links: false,
        devices: false,
        device_nodes: false,
        clients: false,
        client_nodes: false,
        unmanaged_links: false,
        usable: false,
        pending: false,
        events: false,
        signals: false,
    }
}

impl Store {
    /// Every part of the store that `t` does not name is as in `o`.
    pub open spec fn keeps(&self, o: &Store, t: Touch) -> bool {
        &&& (t.sessions || (self.has_session_proxy == o.has_session_proxy && self.has_settings_proxy == o.has_settings_proxy))
        &&& (t.factories || self.factories == o.factories)
        &&& (t.defaults || (self.default_sink == o.default_sink && self.default_source == o.default_source))
        &&& (t.managed_nodes || self.managed_nodes == o.managed_nodes)
        &&& (t.managed_filters || self.managed_filters == o.managed_filters)
        &&& (t.managed_links || self.managed_links == o.managed_links)
        &&& (t.devices || self.unmanaged_devices == o.unmanaged_devices)
        &&& (t.device_nodes || self.unmanaged_device_nodes == o.unmanaged_device_nodes)
        &&& (t.clients || self.unmanaged_clients == o.unmanaged_clients)
        &&& (t.client_nodes || self.unmanaged_client_nodes == o.unmanaged_client_nodes)
        &&& (t.unmanaged_links || self.unmanaged_links == o.unmanaged_links)
        &&& (t.usable || self.usable_client_nodes == o.usable_client_nodes)
        &&& (t.pending || (self.pending_link_syncs == o.pending_link_syncs
            && self.pending_device_syncs == o.pending_device_syncs
            && self.pending_filter_syncs == o.pending_filter_syncs))
        &&& (t.events || self.events == o.events)
        &&& (t.signals || self.signals == o.signals)
    }
}

impl Store {
    pub open spec fn is_empty(&self) -> bool {
        &&& !self.has_session_proxy
        &&& !self.has_settings_proxy
        &&& self.factories@ == Map::<u32, RegistryFactory>::empty()
        &&& self.default_sink@ == crate::default_device::empty_default_device()
        &&& self.default_source@ == crate::default_device::empty_default_device()
        &&& self.managed_nodes@ == Map::<u128, ManagedNode>::empty()
        &&& self.managed_filters@ == Map::<u128, ManagedFilter>::empty()
        &&& self.managed_links@ == Map::<u128, ManagedLink>::empty()
        &&& self.unmanaged_devices@ == Map::<u32, RegistryDevice>::empty()
        &&& self.unmanaged_device_nodes@ == Map::<u32, RegistryDeviceNode>::empty()
        &&& self.unmanaged_clients@ == Map::<u32, RegistryClient>::empty()
        &&& self.unmanaged_client_nodes@ == Map::<u32, RegistryClientNode>::empty()
        &&& self.unmanaged_links@ == Map::<u32, RegistryLink>::empty()
        &&& self.usable_client_nodes@.len() == 0
        &&& self.pending_link_syncs@.len() == 0
        &&& self.pending_device_syncs@ == Map::<i32, u32>::empty()
        &&& self.pending_filter_syncs@ == Map::<i32, u128>::empty()
        &&& self.events@.len() == 0
        &&& self.signals@.len() == 0
    }

    pub fn new() -> (s: Store)
        ensures
            s.is_empty(),
    {
        Store {
            has_session_proxy: false,
            has_settings_proxy: false,
            factories: IdMap::new(),
            default_sink: DefaultDevice { configured: None, default: None },
            default_source: DefaultDevice { configured: None, default: None },
            managed_nodes: IdMap::new(),
            managed_filters: IdMap::new(),
            managed_links: IdMap::new(),
            unmanaged_devices: IdMap::new(),
            unmanaged_device_nodes: IdMap::new(),
            unmanaged_clients: IdMap::new(),
            unmanaged_client_nodes: IdMap::new(),
            unmanaged_links: IdMap::new(),
            usable_client_nodes: Vec::new(),
            pending_link_syncs: Vec::new(),
            pending_device_syncs: IdMap::new(),
            pending_filter_syncs: IdMap::new(),
            events: Vec::new(),
            signals: Vec::new(),
        }
    }

    /// Hands over the messages gathered so far, oldest first.
    pub fn take_events(&mut self) -> (r: Vec<PipewireReceiver>)
        ensures
            r@ == old(self).events@,
            final(self).events@.len() == 0,
            final(self).signals == old(self).signals,
    {
        let mut out = Vec::new();
        std::mem::swap(&mut out, &mut self.events);
        out
    }

    /// Hands over the readiness notifications gathered so far.
    pub fn take_signals(&mut self) -> (r: Vec<ReadySignal>)
        ensures
            r@ == old(self).signals@,
            final(self).signals@.len() == 0,
            final(self).events == old(self).events,
    {
        let mut out = Vec::new();
        std::mem::swap(&mut out, &mut self.signals);
        out
    }

    /// The session metadata was found. Only the first one is kept; false
    /// when one is already held.
    pub fn set_session_proxy(&mut self) -> (accepted: bool)
        ensures
            accepted == !old(self).has_session_proxy,
            final(self).has_session_proxy,
            final(self).has_settings_proxy == old(self).has_settings_proxy,
    {
        if self.has_session_proxy {
            return false;
        }
        self.has_session_proxy = true;
        true
    }

    /// The settings metadata was found. Only the first one is kept.
    pub fn set_settings_proxy(&mut self) -> (accepted: bool)
        ensures
            accepted == !old(self).has_settings_proxy,
            final(self).has_settings_proxy,
            final(self).has_session_proxy == old(self).has_session_proxy,
    {
        if self.has_settings_proxy {
            return false;
        }
        self.has_settings_proxy = true;
        true
    }

    /// Tells upstream the clock rate of the graph.
    pub fn announce_clock_rate(&mut self, rate: Option<u32>)
        ensures
            final(self).events@ == old(self).events@.push(PipewireReceiver::AnnouncedClock(rate)),
            final(self).keeps(old(self), Touch { events: true, ..touch_none() }),
    {
        self.events.push(PipewireReceiver::AnnouncedClock(rate));
    }

    pub fn factory_add(&mut self, id: u32, factory: RegistryFactory)
        ensures
            final(self).factories@ == old(self).factories@.insert(id, factory),
            final(self).keeps(old(self), Touch { factories: true, ..touch_none() }),
    {
        self.factories.insert(id, factory);
    }

    pub fn factory_get(&self, id: u32) -> (r: Option<&RegistryFactory>)
        ensures
            r is Some == self.factories@.contains_key(id),
            r matches Some(f) ==> *f == self.factories@[id],
    {
        self.factories.get(&id)
    }
}

} // verus!
