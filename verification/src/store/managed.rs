//! Nodes and filters we created: waiting for PipeWire to give them an id
//! and ports, telling the creator when they are ready, and forgetting them.

use vstd::prelude::*;
use super::{ManagedFilter, ManagedNode, NodeStoreState, ReadySignal, Store, Touch, touch_none};
use crate::default_device::{active_id, after_device_added, after_device_removed, DefaultDeviceModel};
use crate::events::{LinkType, NodeTarget, PipewireReceiver};
use crate::media::MediaClass;
use crate::registry::PortLocation;

verus! {

/// The first of our nodes (in walk order) that PipeWire knows by `pw_id`.
pub open spec fn first_with_pw_id(s: Seq<(u128, ManagedNode)>, pw_id: u32) -> Option<u128>
    decreases s.len(),
{
    if s.len() == 0 {
        None
    } else if s[0].1.pw_id == Some(pw_id) {
        Some(s[0].0)
    } else {
        first_with_pw_id(s.drop_first(), pw_id)
    }
}

pub proof fn lemma_first_with_pw_id(s: Seq<(u128, ManagedNode)>, pw_id: u32)
    ensures
        first_with_pw_id(s, pw_id) is Some <==> exists|i: int| 0 <= i < s.len() && s[i].1.pw_id == Some(pw_id),
        first_with_pw_id(s, pw_id) matches Some(k) ==> exists|i: int| 0 <= i < s.len() && s[i].0 == k && s[i].1.pw_id == Some(pw_id),
    decreases s.len(),
{
    if s.len() > 0 {
        lemma_first_with_pw_id(s.drop_first(), pw_id);
        if s[0].1.pw_id != Some(pw_id) {
            assert forall|i: int| 0 <= i < s.len() && s[i].1.pw_id == Some(pw_id) implies
                0 <= i - 1 < s.drop_first().len() && s.drop_first()[i - 1].1.pw_id == Some(pw_id) by {}
            if first_with_pw_id(s, pw_id) is Some {
                let j = choose|j: int| 0 <= j < s.drop_first().len() && s.drop_first()[j].0 == first_with_pw_id(s, pw_id)->0 && s.drop_first()[j].1.pw_id == Some(pw_id);
                assert(s[j + 1] == s.drop_first()[j]);
            }
        }
    }
}

/// What the default announcement says: the node the default points at,
/// named by our id when it is one of ours.
pub open spec fn default_event(nodes: Seq<(u128, ManagedNode)>, m: DefaultDeviceModel, class: MediaClass) -> Option<PipewireReceiver> {
    match active_id(m) {
        Some(node_id) => match first_with_pw_id(nodes, node_id) {
            Some(u) => Some(PipewireReceiver::DefaultChanged(class, NodeTarget::Node(u))),
            None => Some(PipewireReceiver::DefaultChanged(class, NodeTarget::UnmanagedNode(node_id))),
        },
        None => None,
    }
}

pub open spec fn push_opt(s: Seq<PipewireReceiver>, e: Option<PipewireReceiver>) -> Seq<PipewireReceiver> {
    match e {
        Some(x) => s.push(x),
        None => s,
    }
}

/// A node is ready when its ports are configured and PipeWire gave it an
/// id; the first time, whoever waits is told (if anyone does).
pub open spec fn after_check_ready(n: ManagedNode) -> (ManagedNode, bool) {
    if n.ports_ready && n.pw_id is Some && n.ready_sender is Some {
        (ManagedNode { ready_sender: None, ..n }, n.ready_sender->0)
    } else {
        (n, false)
    }
}

/// A node of ours is reported ready only once its ports are configured
/// and PipeWire gave it an id, and only once: checking again reports
/// nothing.
pub proof fn law_node_ready_once(n: ManagedNode)
    ensures
        after_check_ready(n).1 ==> n.ports_ready && n.pw_id is Some,
        !after_check_ready(after_check_ready(n).0).1,
{
}

pub open spec fn push_signal_if(s: Seq<ReadySignal>, b: bool, x: ReadySignal) -> Seq<ReadySignal> {
    if b { s.push(x) } else { s }
}

impl Store {
    /// One of our nodes has this PipeWire id.
    pub fn is_managed_node(&self, id: u32) -> (r: bool)
        ensures
            r == exists|k: u128| #[trigger] self.managed_nodes@.contains_key(k) && self.managed_nodes@[k].pw_id == Some(id),
    {
        proof {
            lemma_first_with_pw_id(self.managed_nodes.entries(), id);
        }
        let found = self.managed_node_find_by_node_id(id);
        proof {
            let s = self.managed_nodes.entries();
            if found is Some {
                let i = choose|i: int| 0 <= i < s.len() && s[i].0 == found->0 && s[i].1.pw_id == Some(id);
                assert(s[i] == s[i]);
            } else {
                assert forall|k: u128| #[trigger] self.managed_nodes@.contains_key(k) implies self.managed_nodes@[k].pw_id != Some(id) by {
                    let i = choose|i: int| 0 <= i < s.len() && s[i].0 == k;
                    assert(s[i] == s[i]);
                }
            }
        }
        found.is_some()
    }

    /// Our id of the node PipeWire knows by `id` (the first in walk order).
    pub fn managed_node_find_by_node_id(&self, id: u32) -> (r: Option<u128>)
        ensures
            r == first_with_pw_id(self.managed_nodes.entries(), id),
            self.managed_nodes.walk_ok(),
    {
        let n = self.managed_nodes.len();
        let mut i: usize = 0;
        assert(self.managed_nodes.entries().skip(0) =~= self.managed_nodes.entries());
        while i < n
            invariant
                n == self.managed_nodes.entries().len(),
                self.managed_nodes.walk_ok(),
                i <= n,
                first_with_pw_id(self.managed_nodes.entries(), id)
                    == first_with_pw_id(self.managed_nodes.entries().skip(i as int), id),
            decreases n - i,
        {
            let e = self.managed_nodes.entry(i);
            let ghost rest = self.managed_nodes.entries().skip(i as int);
            assert(rest[0] == *e);
            assert(rest.drop_first() =~= self.managed_nodes.entries().skip(i + 1));
            if e.1.pw_id == Some(id) {
                return Some(e.0);
            }
            i = i + 1;
        }
        None
    }

    pub fn managed_node_add(&mut self, node: ManagedNode)
        ensures
            final(self).managed_nodes@ == old(self).managed_nodes@.insert(node.id, node),
            final(self).events == old(self).events,
            final(self).signals == old(self).signals,
            final(self).keeps(old(self), Touch { managed_nodes: true, ..touch_none() }),
    {
        let id = node.id;
        self.managed_nodes.insert(id, node);
    }

    pub fn managed_node_get(&self, id: u128) -> (r: Option<&ManagedNode>)
        ensures
            r is Some == self.managed_nodes@.contains_key(id),
            r matches Some(n) ==> *n == self.managed_nodes@[id],
    {
        self.managed_nodes.get(&id)
    }

    /// Tells upstream the current default sink, if it points at a node.
    pub fn send_default_sink(&mut self)
        ensures
            final(self).events@ == push_opt(old(self).events@,
                default_event(old(self).managed_nodes.entries(), old(self).default_sink@, MediaClass::Sink)),
            final(self).managed_nodes == old(self).managed_nodes,
            final(self).default_sink == old(self).default_sink,
            final(self).default_source == old(self).default_source,
            final(self).signals == old(self).signals,
            final(self).keeps(old(self), Touch { events: true, ..touch_none() }),
    {
        if let Some(node_id) = self.default_sink.get_active_node_id() {
            let e = match self.managed_node_find_by_node_id(node_id) {
                Some(u) => PipewireReceiver::DefaultChanged(MediaClass::Sink, NodeTarget::Node(u)),
                None => PipewireReceiver::DefaultChanged(MediaClass::Sink, NodeTarget::UnmanagedNode(node_id)),
            };
            self.events.push(e);
        }
    }

    /// Tells upstream the current default source, if it points at a node.
    pub fn send_default_source(&mut self)
        ensures
            final(self).events@ == push_opt(old(self).events@,
                default_event(old(self).managed_nodes.entries(), old(self).default_source@, MediaClass::Source)),
            final(self).managed_nodes == old(self).managed_nodes,
            final(self).default_sink == old(self).default_sink,
            final(self).default_source == old(self).default_source,
            final(self).signals == old(self).signals,
            final(self).keeps(old(self), Touch { events: true, ..touch_none() }),
    {
        if let Some(node_id) = self.default_source.get_active_node_id() {
            let e = match self.managed_node_find_by_node_id(node_id) {
                Some(u) => PipewireReceiver::DefaultChanged(MediaClass::Source, NodeTarget::Node(u)),
                None => PipewireReceiver::DefaultChanged(MediaClass::Source, NodeTarget::UnmanagedNode(node_id)),
            };
            self.events.push(e);
        }
    }

    /// A node with this PipeWire id appeared: update both defaults and
    /// announce those that changed (sink first).
    pub fn defaults_device_added(&mut self, pw_id: u32, name: &str)
        ensures
            ({
                let (sink, sink_changed) = after_device_added(old(self).default_sink@, pw_id, name@);
                let (source, source_changed) = after_device_added(old(self).default_source@, pw_id, name@);
                let nodes = old(self).managed_nodes.entries();
                let e1 = if sink_changed { default_event(nodes, sink, MediaClass::Sink) } else { None };
                let e2 = if source_changed { default_event(nodes, source, MediaClass::Source) } else { None };
                &&& final(self).default_sink@ == sink
                &&& final(self).default_source@ == source
                &&& final(self).events@ == push_opt(push_opt(old(self).events@, e1), e2)
            }),
            final(self).managed_nodes == old(self).managed_nodes,
            final(self).signals == old(self).signals,
            final(self).keeps(old(self), Touch { defaults: true, events: true, ..touch_none() }),
    {
        if self.default_sink.device_added(pw_id, name) {
            self.send_default_sink();
        }
        if self.default_source.device_added(pw_id, name) {
            self.send_default_source();
        }
    }

    /// A node with this PipeWire id went away: update both defaults and
    /// announce those that changed (sink first).
    pub fn defaults_device_removed(&mut self, pw_id: u32)
        ensures
            ({
                let (sink, sink_changed) = after_device_removed(old(self).default_sink@, pw_id);
                let (source, source_changed) = after_device_removed(old(self).default_source@, pw_id);
                let nodes = old(self).managed_nodes.entries();
                let e1 = if sink_changed { default_event(nodes, sink, MediaClass::Sink) } else { None };
                let e2 = if source_changed { default_event(nodes, source, MediaClass::Source) } else { None };
                &&& final(self).default_sink@ == sink
                &&& final(self).default_source@ == source
                &&& final(self).events@ == push_opt(push_opt(old(self).events@, e1), e2)
            }),
            final(self).managed_nodes == old(self).managed_nodes,
            final(self).signals == old(self).signals,
            final(self).keeps(old(self), Touch { defaults: true, events: true, ..touch_none() }),
    {
        if self.default_sink.device_removed(pw_id) {
            self.send_default_sink();
        }
        if self.default_source.device_removed(pw_id) {
            self.send_default_source();
        }
    }

    /// Forgets one of our nodes; if PipeWire had given it an id, the
    /// defaults forget that id.
    pub fn managed_node_remove(&mut self, id: u128)
        ensures
            final(self).managed_nodes@ == old(self).managed_nodes@.remove(id),
            ({
                let had = old(self).managed_nodes@.contains_key(id) && old(self).managed_nodes@[id].pw_id is Some;
                if had {
                    let pw_id = old(self).managed_nodes@[id].pw_id->0;
                    let (sink, sink_changed) = after_device_removed(old(self).default_sink@, pw_id);
                    let (source, source_changed) = after_device_removed(old(self).default_source@, pw_id);
                    let nodes = final(self).managed_nodes.entries();
                    let e1 = if sink_changed { default_event(nodes, sink, MediaClass::Sink) } else { None };
                    let e2 = if source_changed { default_event(nodes, source, MediaClass::Source) } else { None };
                    &&& final(self).default_sink@ == sink
                    &&& final(self).default_source@ == source
                    &&& final(self).events@ == push_opt(push_opt(old(self).events@, e1), e2)
                } else {
                    &&& final(self).default_sink@ == old(self).default_sink@
                    &&& final(self).default_source@ == old(self).default_source@
                    &&& final(self).events@ == old(self).events@
                }
            }),
            final(self).signals == old(self).signals,
            final(self).keeps(old(self), Touch { managed_nodes: true, defaults: true, events: true, ..touch_none() }),
    {
        if self.managed_nodes.contains_key(&id) {
            let node = self.managed_nodes.remove(&id);
            if let Some(node) = node {
                if let Some(pw_id) = node.pw_id {
                    self.defaults_device_removed(pw_id);
                }
            }
        }
    }

    /// Marks readiness of one of our nodes once it has both ports and an id.
    pub fn managed_node_check_ready(&mut self, id: u128)
        requires
            old(self).managed_nodes@.contains_key(id),
        ensures
            ({
                let (n, fire) = after_check_ready(old(self).managed_nodes@[id]);
                &&& final(self).managed_nodes@ == old(self).managed_nodes@.insert(id, n)
                &&& final(self).signals@ == push_signal_if(old(self).signals@, fire, ReadySignal::Node(id))
            }),
            final(self).events == old(self).events,
            final(self).default_sink == old(self).default_sink,
            final(self).default_source == old(self).default_source,
            final(self).keeps(old(self), Touch { managed_nodes: true, signals: true, ..touch_none() }),
    {
        let mut node = self.managed_nodes.remove(&id).unwrap();
        if node.ports_ready && node.pw_id.is_some() {
            if let Some(waiting) = node.ready_sender {
                node.ready_sender = None;
                if waiting {
                    self.signals.push(ReadySignal::Node(id));
                }
            }
        }
        self.managed_nodes.insert(id, node);
        proof {
            assert(self.managed_nodes@ =~= old(self).managed_nodes@.insert(id, after_check_ready(old(self).managed_nodes@[id]).0));
        }
    }

    /// PipeWire gave one of our nodes its id: the defaults may name it, and
    /// it may now be ready.
    pub fn managed_node_set_pw_id(&mut self, id: u128, pw_id: u32)
        requires
            old(self).managed_nodes@.contains_key(id),
        ensures
            ({
                let n0 = old(self).managed_nodes@[id];
                let n1 = ManagedNode { pw_id: Some(pw_id), ..n0 };
                let nodes1 = old(self).managed_nodes@.insert(id, n1);
                let (n2, fire) = after_check_ready(n1);
                &&& final(self).managed_nodes@ == nodes1.insert(id, n2)
                &&& final(self).signals@ == push_signal_if(old(self).signals@, fire, ReadySignal::Node(id))
                &&& (n0.node_name is None ==> {
                    &&& final(self).default_sink@ == old(self).default_sink@
                    &&& final(self).default_source@ == old(self).default_source@
                    &&& final(self).events@ == old(self).events@
                })
                &&& (n0.node_name matches Some(name) ==> {
                    let (sink, _) = after_device_added(old(self).default_sink@, pw_id, name@);
                    let (source, _) = after_device_added(old(self).default_source@, pw_id, name@);
                    &&& final(self).default_sink@ == sink
                    &&& final(self).default_source@ == source
                })
            }),
            final(self).keeps(old(self), Touch { managed_nodes: true, defaults: true, events: true, signals: true, ..touch_none() }),
    {
        let mut node = self.managed_nodes.remove(&id).unwrap();
        let name = match &node.node_name {
            Some(n) => Some(n.clone()),
            None => None,
        };
        node.pw_id = Some(pw_id);
        self.managed_nodes.insert(id, node);
        if let Some(name) = name {
            self.defaults_device_added(pw_id, name.as_str());
        }
        self.managed_node_check_ready(id);
    }

    /// Records the serial of the node PipeWire knows by `id`.
    pub fn managed_node_set_pw_serial(&mut self, id: u32, serial: u32)
        ensures
            ({
                let f = first_with_pw_id(old(self).managed_nodes.entries(), id);
                match f {
                    Some(k) => final(self).managed_nodes@ == old(self).managed_nodes@.insert(k,
                        ManagedNode { object_serial: Some(serial), ..old(self).managed_nodes@[k] }),
                    None => final(self).managed_nodes@ == old(self).managed_nodes@,
                }
            }),
            final(self).events == old(self).events,
            final(self).signals == old(self).signals,
            final(self).keeps(old(self), Touch { managed_nodes: true, ..touch_none() }),
    {
        match self.managed_node_find_by_node_id(id) {
            Some(k) => {
                proof {
                    lemma_first_with_pw_id(self.managed_nodes.entries(), id);
                }
                let mut node = self.managed_nodes.remove(&k).unwrap();
                node.object_serial = Some(serial);
                self.managed_nodes.insert(k, node);
                proof {
                    assert(self.managed_nodes@ =~= old(self).managed_nodes@.insert(k,
                        ManagedNode { object_serial: Some(serial), ..old(self).managed_nodes@[k] }));
                }
            },
            None => {},
        }
    }

    /// PipeWire reports a new state for one of our nodes.
    pub fn managed_node_state_changed(&mut self, id: u128, state: NodeStoreState)
        requires
            old(self).managed_nodes@.contains_key(id),
        ensures
            ({
                let n1 = ManagedNode { node_state: state, ..old(self).managed_nodes@[id] };
                let (n2, fire) = after_check_ready(n1);
                &&& final(self).managed_nodes@ == old(self).managed_nodes@.insert(id, n2)
                &&& final(self).signals@ == push_signal_if(old(self).signals@, fire, ReadySignal::Node(id))
            }),
            final(self).events == old(self).events,
            final(self).keeps(old(self), Touch { managed_nodes: true, signals: true, ..touch_none() }),
    {
        let mut node = self.managed_nodes.remove(&id).unwrap();
        node.node_state = state;
        self.managed_nodes.insert(id, node);
        self.managed_node_check_ready(id);
        proof {
            assert(old(self).managed_nodes@.insert(id, ManagedNode { node_state: state, ..old(self).managed_nodes@[id] }).insert(id,
                after_check_ready(ManagedNode { node_state: state, ..old(self).managed_nodes@[id] }).0)
                =~= old(self).managed_nodes@.insert(id, after_check_ready(ManagedNode { node_state: state, ..old(self).managed_nodes@[id] }).0));
        }
    }

    /// Marks the ports of one of our nodes configured; it may now be ready.
    pub fn managed_node_ports_ready(&mut self, id: u128)
        requires
            old(self).managed_nodes@.contains_key(id),
        ensures
            ({
                let n1 = ManagedNode { ports_ready: true, ..old(self).managed_nodes@[id] };
                let (n2, fire) = after_check_ready(n1);
                &&& final(self).managed_nodes@ == old(self).managed_nodes@.insert(id, n2)
                &&& final(self).signals@ == push_signal_if(old(self).signals@, fire, ReadySignal::Node(id))
            }),
            final(self).events == old(self).events,
            final(self).keeps(old(self), Touch { managed_nodes: true, signals: true, ..touch_none() }),
    {
        let mut node = self.managed_nodes.remove(&id).unwrap();
        node.ports_ready = true;
        self.managed_nodes.insert(id, node);
        self.managed_node_check_ready(id);
        proof {
            let n1 = ManagedNode { ports_ready: true, ..old(self).managed_nodes@[id] };
            assert(old(self).managed_nodes@.insert(id, n1).insert(id, after_check_ready(n1).0)
                =~= old(self).managed_nodes@.insert(id, after_check_ready(n1).0));
        }
    }

    /// Records the port of one channel of one of our nodes; once both
    /// channels have one, the ports are marked configured.
    pub fn managed_node_add_port(&mut self, id: u128, location: PortLocation, port_id: u32)
        requires
            old(self).managed_nodes@.contains_key(id),
        ensures
            ({
                let n0 = old(self).managed_nodes@[id];
                let n1 = match location {
                    PortLocation::Left => ManagedNode { port_left: Some(port_id), ..n0 },
                    PortLocation::Right => ManagedNode { port_right: Some(port_id), ..n0 },
                };
                if n1.port_left is Some && n1.port_right is Some {
                    let (n2, fire) = after_check_ready(ManagedNode { ports_ready: true, ..n1 });
                    &&& final(self).managed_nodes@ == old(self).managed_nodes@.insert(id, n2)
                    &&& final(self).signals@ == push_signal_if(old(self).signals@, fire, ReadySignal::Node(id))
                } else {
                    &&& final(self).managed_nodes@ == old(self).managed_nodes@.insert(id, n1)
                    &&& final(self).signals@ == old(self).signals@
                }
            }),
            final(self).events == old(self).events,
            final(self).keeps(old(self), Touch { managed_nodes: true, signals: true, ..touch_none() }),
    {
        let mut node = self.managed_nodes.remove(&id).unwrap();
        match location {
            PortLocation::Left => node.port_left = Some(port_id),
            PortLocation::Right => node.port_right = Some(port_id),
        }
        let complete = node.port_left.is_some() && node.port_right.is_some();
        self.managed_nodes.insert(id, node);
        if complete {
            self.managed_node_ports_ready(id);
        }
        proof {
            let n0 = old(self).managed_nodes@[id];
            let n1 = match location {
                PortLocation::Left => ManagedNode { port_left: Some(port_id), ..n0 },
                PortLocation::Right => ManagedNode { port_right: Some(port_id), ..n0 },
            };
            assert(old(self).managed_nodes@.insert(id, n1).insert(id, after_check_ready(ManagedNode { ports_ready: true, ..n1 }).0)
                =~= old(self).managed_nodes@.insert(id, after_check_ready(ManagedNode { ports_ready: true, ..n1 }).0));
            assert(old(self).managed_nodes@.insert(id, n1).remove(id).insert(id, n1) =~= old(self).managed_nodes@.insert(id, n1));
        }
    }

    /// Upstream hears of a volume change on one of our nodes.
    pub fn on_volume_change(&mut self, id: u128, volume: u8)
        ensures
            final(self).events@ == old(self).events@.push(PipewireReceiver::NodeVolumeChanged(id, volume)),
            final(self).keeps(old(self), Touch { events: true, ..touch_none() }),
    {
        self.events.push(PipewireReceiver::NodeVolumeChanged(id, volume));
    }

    /// Upstream hears of a mute change on one of our nodes.
    pub fn on_mute_change(&mut self, id: u128, muted: bool)
        ensures
            final(self).events@ == old(self).events@.push(PipewireReceiver::NodeMuteChanged(id, muted)),
            final(self).keeps(old(self), Touch { events: true, ..touch_none() }),
    {
        self.events.push(PipewireReceiver::NodeMuteChanged(id, muted));
    }

    // ----- FILTERS -----

    pub fn managed_filter_add(&mut self, filter: ManagedFilter)
        ensures
            final(self).managed_filters@ == old(self).managed_filters@.insert(filter.id, filter),
            final(self).keeps(old(self), Touch { managed_filters: true, ..touch_none() }),
    {
        let id = filter.id;
        self.managed_filters.insert(id, filter);
    }

    pub fn managed_filter_get(&self, id: u128) -> (r: Option<&ManagedFilter>)
        ensures
            r is Some == self.managed_filters@.contains_key(id),
            r matches Some(f) ==> *f == self.managed_filters@[id],
    {
        self.managed_filters.get(&id)
    }

    /// Tells whoever waits that one of our filters is ready (once).
    pub fn managed_filter_send(&mut self, id: u128)
        requires
            old(self).managed_filters@.contains_key(id),
        ensures
            ({
                let f = old(self).managed_filters@[id];
                &&& final(self).managed_filters@ == old(self).managed_filters@.insert(id,
                    ManagedFilter { ready_sender: None, ..f })
                &&& final(self).signals@ == push_signal_if(old(self).signals@,
                    f.ready_sender == Some(true), ReadySignal::Filter(id))
            }),
            final(self).keeps(old(self), Touch { managed_filters: true, signals: true, ..touch_none() }),
    {
        let mut filter = self.managed_filters.remove(&id).unwrap();
        if let Some(waiting) = filter.ready_sender {
            filter.ready_sender = None;
            if waiting {
                self.signals.push(ReadySignal::Filter(id));
            }
        }
        self.managed_filters.insert(id, filter);
        proof {
            let f = old(self).managed_filters@[id];
            assert(self.managed_filters@ =~= old(self).managed_filters@.insert(id, ManagedFilter { ready_sender: None, ..f }));
        }
    }

    pub fn managed_filter_set_pw_id(&mut self, id: u128, pw_id: u32)
        requires
            old(self).managed_filters@.contains_key(id),
        ensures
            final(self).managed_filters@ == old(self).managed_filters@.insert(id,
                ManagedFilter { pw_id: Some(pw_id), ..old(self).managed_filters@[id] }),
            final(self).keeps(old(self), Touch { managed_filters: true, ..touch_none() }),
    {
        let mut filter = self.managed_filters.remove(&id).unwrap();
        filter.pw_id = Some(pw_id);
        self.managed_filters.insert(id, filter);
        proof {
            assert(self.managed_filters@ =~= old(self).managed_filters@.insert(id,
                ManagedFilter { pw_id: Some(pw_id), ..old(self).managed_filters@[id] }));
        }
    }
}

} // verus!
