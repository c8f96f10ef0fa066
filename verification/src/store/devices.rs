//! Devices and device nodes PipeWire owns: their ports are gathered until
//! they match the counts PipeWire announced, the clock is known and the
//! graph has settled; then the node is announced upstream, and changes of
//! its usability, volume and mute follow.

use vstd::prelude::*;
use super::{Store, Touch, touch_none};
use super::managed::{default_event, push_opt};
use crate::default_device::{after_device_added, after_device_removed};
use crate::events::{PipewireReceiver};
use crate::id_map::IdMap;
use crate::media::{announced_class, class_from_media_string, MediaClass};
use crate::registry::{ActiveRoute, RegistryDevice, RegistryDeviceNode, RegistryPort};
use crate::shared::PortDirection;

verus! {

/// What a step on a device node tells upstream.
pub enum Outcome {
    Nothing,
    Event(PipewireReceiver),
    /// The node is announced with this class and usability.
    Announce(MediaClass, bool),
}

/// Announces a node that is not announced yet and has a recognised class.
pub open spec fn send_outcome(n: RegistryDeviceNode) -> (RegistryDeviceNode, Outcome) {
    if n.sent_upstream || n.media_class is None {
        (n, Outcome::Nothing)
    } else {
        match announced_class(n.media_class->0@) {
            None => (n, Outcome::Nothing),
            Some(c) => (
                RegistryDeviceNode { sent_upstream: true, ..n },
                Outcome::Announce(c, n.spec_usable_media_class() is Some),
            ),
        }
    }
}

/// A device node is announced upstream at most once until it is
/// withdrawn: announcing it again does nothing.
pub proof fn law_device_announced_once(n: RegistryDeviceNode)
    ensures
        send_outcome(send_outcome(n).0).1 is Nothing,
        send_outcome(n).1 is Announce ==> send_outcome(n).0.sent_upstream && !n.sent_upstream,
{
}

/// A node withdrawn because its ports no longer match its counts can be
/// announced again once they do.
pub proof fn law_withdrawn_node_can_return(id: u32, n: RegistryDeviceNode)
    requires
        n.spec_ports_desynced(),
        n.sent_upstream,
    ensures
        reconcile_outcome(id, n).1 == Outcome::Event(PipewireReceiver::DeviceRemoved(id)),
        !reconcile_outcome(id, n).0.sent_upstream,
{
}

/// Once the clock is known, the graph settled and the ports complete, a node
/// is announced, or, if it already was, its usability is reported again.
pub open spec fn port_check_outcome(id: u32, n: RegistryDeviceNode) -> (RegistryDeviceNode, Outcome) {
    if !n.clock_ready || !n.is_synced || n.spec_ports_desynced() {
        (n, Outcome::Nothing)
    } else if n.sent_upstream {
        (n, Outcome::Event(PipewireReceiver::DeviceUsable(id, n.spec_usable_media_class() is Some)))
    } else {
        send_outcome(n)
    }
}

/// After the ports changed: a node whose ports no longer match is withdrawn
/// (if it was announced); otherwise it is checked as above.
pub open spec fn reconcile_outcome(id: u32, n: RegistryDeviceNode) -> (RegistryDeviceNode, Outcome) {
    if n.spec_ports_desynced() {
        if n.sent_upstream {
            (RegistryDeviceNode { sent_upstream: false, ..n }, Outcome::Event(PipewireReceiver::DeviceRemoved(id)))
        } else {
            (n, Outcome::Nothing)
        }
    } else {
        port_check_outcome(id, n)
    }
}

/// `new` is `old` with what `o` says appended; an announcement describes
/// `before` (the node as it was).
pub open spec fn events_after(old: Seq<PipewireReceiver>, new: Seq<PipewireReceiver>, id: u32,
    before: RegistryDeviceNode, o: Outcome) -> bool {
    match o {
        Outcome::Nothing => new == old,
        Outcome::Event(e) => new == old.push(e),
        Outcome::Announce(c, u) => {
            &&& new.len() == old.len() + 1
            &&& new.drop_last() == old
            &&& new.last() matches PipewireReceiver::DeviceAdded(d)
            &&& before.is_announcement(d, id, c, u)
        },
    }
}

/// The device nodes and events `b` after the port `port` of the node
/// `node_id` (on side `dir`) went away from `a` and the node was reconciled.
pub open spec fn port_removed_step(a_nodes: Map<u32, RegistryDeviceNode>, a_events: Seq<PipewireReceiver>,
    b_nodes: Map<u32, RegistryDeviceNode>, b_events: Seq<PipewireReceiver>, node_id: u32, dir: PortDirection, port: u32) -> bool {
    if a_nodes.contains_key(node_id) {
        let n0 = a_nodes[node_id];
        exists|m: RegistryDeviceNode| {
            &&& m.same_except_ports(n0)
            &&& m.ports_in@ == (if dir == PortDirection::In { n0.ports_in@.remove(port) } else { n0.ports_in@ })
            &&& m.ports_out@ == (if dir == PortDirection::Out { n0.ports_out@.remove(port) } else { n0.ports_out@ })
            &&& b_nodes == a_nodes.insert(node_id, reconcile_outcome(node_id, m).0)
            &&& events_after(a_events, b_events, node_id, m, reconcile_outcome(node_id, m).1)
        }
    } else {
        &&& b_nodes == a_nodes
        &&& b_events == a_events
    }
}

/// The device nodes and events `b` after the port appeared on the node
/// `node_id` (on side `dir`) of `a` and the node was reconciled.
pub open spec fn port_added_step(a_nodes: Map<u32, RegistryDeviceNode>, a_events: Seq<PipewireReceiver>,
    b_nodes: Map<u32, RegistryDeviceNode>, b_events: Seq<PipewireReceiver>, node_id: u32, dir: PortDirection,
    port: RegistryPort) -> bool {
    if a_nodes.contains_key(node_id) {
        let n0 = a_nodes[node_id];
        exists|m: RegistryDeviceNode| {
            &&& m.same_except_ports(n0)
            &&& m.ports_in@ == (if dir == PortDirection::In { n0.ports_in@.insert(port.global_id, port) } else { n0.ports_in@ })
            &&& m.ports_out@ == (if dir == PortDirection::Out { n0.ports_out@.insert(port.global_id, port) } else { n0.ports_out@ })
            &&& b_nodes == a_nodes.insert(node_id, reconcile_outcome(node_id, m).0)
            &&& events_after(a_events, b_events, node_id, m, reconcile_outcome(node_id, m).1)
        }
    } else {
        &&& b_nodes == a_nodes
        &&& b_events == a_events
    }
}

pub open spec fn touch_device_nodes() -> Touch {
    Touch { device_nodes: true, events: true, ..touch_none() }
}

/// The device node a route of a device stands for: the first of the
/// device's nodes whose profile port is the route device (among those with
/// `pred`), else the device's only node.
pub open spec fn route_node(nodes: Seq<u32>, device_nodes: Map<u32, RegistryDeviceNode>, route: u32,
    pred: spec_fn(RegistryDeviceNode) -> bool) -> Option<u32> {
    match first_route_match(nodes, device_nodes, route, pred) {
        Some(i) => Some(nodes[i]),
        None => if nodes.len() == 1 { Some(nodes[0]) } else { None },
    }
}

pub open spec fn route_matches(n: u32, device_nodes: Map<u32, RegistryDeviceNode>, route: u32,
    pred: spec_fn(RegistryDeviceNode) -> bool) -> bool {
    device_nodes.contains_key(n) && pred(device_nodes[n]) && device_nodes[n].spec_profile_port() == Some(route)
}

/// The first index in `nodes` that matches.
pub open spec fn first_route_match(nodes: Seq<u32>, device_nodes: Map<u32, RegistryDeviceNode>, route: u32,
    pred: spec_fn(RegistryDeviceNode) -> bool) -> Option<int>
    decreases nodes.len(),
{
    if nodes.len() == 0 {
        None
    } else if route_matches(nodes[0], device_nodes, route, pred) {
        Some(0)
    } else {
        match first_route_match(nodes.drop_first(), device_nodes, route, pred) {
            Some(i) => Some(i + 1),
            None => None,
        }
    }
}

proof fn lemma_first_route_match(nodes: Seq<u32>, device_nodes: Map<u32, RegistryDeviceNode>, route: u32,
    pred: spec_fn(RegistryDeviceNode) -> bool)
    ensures
        first_route_match(nodes, device_nodes, route, pred) matches Some(i) ==> 0 <= i < nodes.len()
            && route_matches(nodes[i], device_nodes, route, pred),
    decreases nodes.len(),
{
    if nodes.len() > 0 {
        lemma_first_route_match(nodes.drop_first(), device_nodes, route, pred);
    }
}

impl Store {
    /// Runs the announcement step on a node taken out of the store.
    fn node_send_step(&mut self, id: u32, node: RegistryDeviceNode) -> (r: RegistryDeviceNode)
        ensures
            r == send_outcome(node).0,
            events_after(old(self).events@, final(self).events@, id, node, send_outcome(node).1),
            final(self).keeps(old(self), Touch { events: true, ..touch_none() }),
    {
        let mut node = node;
        if node.sent_upstream {
            return node;
        }
        let class = match &node.media_class {
            Some(mc) => class_from_media_string(mc.as_str()),
            None => return node,
        };
        let class = match class {
            Some(c) => c,
            None => return node,
        };
        let is_usable = node.usable_media_class().is_some();
        let device_node = node.to_device_node(id, class, is_usable);
        node.sent_upstream = true;
        self.events.push(PipewireReceiver::DeviceAdded(device_node));
        assert(self.events@.drop_last() =~= old(self).events@);
        node
    }

    fn port_check_step(&mut self, id: u32, node: RegistryDeviceNode) -> (r: RegistryDeviceNode)
        ensures
            r == port_check_outcome(id, node).0,
            events_after(old(self).events@, final(self).events@, id, node, port_check_outcome(id, node).1),
            final(self).keeps(old(self), Touch { events: true, ..touch_none() }),
    {
        if !node.clock_ready || !node.is_synced || node.ports_desynced() {
            return node;
        }
        if node.sent_upstream {
            let usable = node.usable_media_class().is_some();
            self.events.push(PipewireReceiver::DeviceUsable(id, usable));
            node
        } else {
            self.node_send_step(id, node)
        }
    }

    fn reconcile_step(&mut self, id: u32, node: RegistryDeviceNode) -> (r: RegistryDeviceNode)
        ensures
            r == reconcile_outcome(id, node).0,
            events_after(old(self).events@, final(self).events@, id, node, reconcile_outcome(id, node).1),
            final(self).keeps(old(self), Touch { events: true, ..touch_none() }),
    {
        let mut node = node;
        if node.ports_desynced() {
            if node.sent_upstream {
                self.events.push(PipewireReceiver::DeviceRemoved(id));
                node.sent_upstream = false;
            }
            return node;
        }
        self.port_check_step(id, node)
    }

    /// Announces the node if it is ready to be and was not announced yet.
    pub fn unmanaged_node_send(&mut self, id: u32)
        ensures
            old(self).unmanaged_device_nodes@.contains_key(id) ==> {
                let n = old(self).unmanaged_device_nodes@[id];
                &&& final(self).unmanaged_device_nodes@ == old(self).unmanaged_device_nodes@.insert(id, send_outcome(n).0)
                &&& events_after(old(self).events@, final(self).events@, id, n, send_outcome(n).1)
            },
            !old(self).unmanaged_device_nodes@.contains_key(id) ==> final(self).unmanaged_device_nodes@
                == old(self).unmanaged_device_nodes@ && final(self).events@ == old(self).events@,
            final(self).keeps(old(self), touch_device_nodes()),
    {
        if let Some(node) = self.unmanaged_device_nodes.remove(&id) {
            let node = self.node_send_step(id, node);
            self.unmanaged_device_nodes.insert(id, node);
            proof {
                assert(self.unmanaged_device_nodes@ =~= old(self).unmanaged_device_nodes@.insert(id,
                    send_outcome(old(self).unmanaged_device_nodes@[id]).0));
            }
        }
    }

    /// Checks whether the node can be announced, or reports its usability
    /// again if it already was.
    pub fn unmanaged_node_port_check(&mut self, id: u32)
        ensures
            old(self).unmanaged_device_nodes@.contains_key(id) ==> {
                let n = old(self).unmanaged_device_nodes@[id];
                &&& final(self).unmanaged_device_nodes@ == old(self).unmanaged_device_nodes@.insert(id, port_check_outcome(id, n).0)
                &&& events_after(old(self).events@, final(self).events@, id, n, port_check_outcome(id, n).1)
            },
            !old(self).unmanaged_device_nodes@.contains_key(id) ==> final(self).unmanaged_device_nodes@
                == old(self).unmanaged_device_nodes@ && final(self).events@ == old(self).events@,
            final(self).keeps(old(self), touch_device_nodes()),
    {
        if let Some(node) = self.unmanaged_device_nodes.remove(&id) {
            let node = self.port_check_step(id, node);
            self.unmanaged_device_nodes.insert(id, node);
            proof {
                assert(self.unmanaged_device_nodes@ =~= old(self).unmanaged_device_nodes@.insert(id,
                    port_check_outcome(id, old(self).unmanaged_device_nodes@[id]).0));
            }
        }
    }

    /// The node's ports changed: withdraw it if they no longer match the
    /// counts, else check it.
    pub fn unmanaged_node_reconcile(&mut self, id: u32)
        ensures
            old(self).unmanaged_device_nodes@.contains_key(id) ==> {
                let n = old(self).unmanaged_device_nodes@[id];
                &&& final(self).unmanaged_device_nodes@ == old(self).unmanaged_device_nodes@.insert(id, reconcile_outcome(id, n).0)
                &&& events_after(old(self).events@, final(self).events@, id, n, reconcile_outcome(id, n).1)
            },
            !old(self).unmanaged_device_nodes@.contains_key(id) ==> final(self).unmanaged_device_nodes@
                == old(self).unmanaged_device_nodes@ && final(self).events@ == old(self).events@,
            final(self).keeps(old(self), touch_device_nodes()),
    {
        if let Some(node) = self.unmanaged_device_nodes.remove(&id) {
            let node = self.reconcile_step(id, node);
            self.unmanaged_device_nodes.insert(id, node);
            proof {
                assert(self.unmanaged_device_nodes@ =~= old(self).unmanaged_device_nodes@.insert(id,
                    reconcile_outcome(id, old(self).unmanaged_device_nodes@[id]).0));
            }
        }
    }

    /// PipeWire announced how many ports the node has. A change is recorded
    /// and the node reconciled; the same counts again change nothing.
    pub fn unmanaged_node_port_count_update(&mut self, id: u32, in_count: u32, out_count: u32)
        ensures
            ({
                let old_nodes = old(self).unmanaged_device_nodes@;
                if old_nodes.contains_key(id) && !(old_nodes[id].port_count_in == Some(in_count)
                    && old_nodes[id].port_count_out == Some(out_count)) {
                    let n = RegistryDeviceNode { port_count_in: Some(in_count), port_count_out: Some(out_count), ..old_nodes[id] };
                    &&& final(self).unmanaged_device_nodes@ == old_nodes.insert(id, reconcile_outcome(id, n).0)
                    &&& events_after(old(self).events@, final(self).events@, id, n, reconcile_outcome(id, n).1)
                } else {
                    &&& final(self).unmanaged_device_nodes@ == old_nodes
                    &&& final(self).events@ == old(self).events@
                }
            }),
            final(self).keeps(old(self), touch_device_nodes()),
    {
        let mut node = match self.unmanaged_device_nodes.remove(&id) {
            Some(n) => n,
            None => {
                proof { assert(self.unmanaged_device_nodes@ =~= old(self).unmanaged_device_nodes@); }
                return;
            },
        };
        if node.port_count_in == Some(in_count) && node.port_count_out == Some(out_count) {
            self.unmanaged_device_nodes.insert(id, node);
            proof { assert(self.unmanaged_device_nodes@ =~= old(self).unmanaged_device_nodes@); }
            return;
        }
        node.port_count_in = Some(in_count);
        node.port_count_out = Some(out_count);
        let node = self.reconcile_step(id, node);
        self.unmanaged_device_nodes.insert(id, node);
        proof {
            let old_nodes = old(self).unmanaged_device_nodes@;
            let n = RegistryDeviceNode { port_count_in: Some(in_count), port_count_out: Some(out_count), ..old_nodes[id] };
            assert(self.unmanaged_device_nodes@ =~= old_nodes.insert(id, reconcile_outcome(id, n).0));
        }
    }

    /// A port of the node went away; the node is reconciled.
    pub fn unmanaged_node_port_removed(&mut self, node_id: u32, dir: PortDirection, port: u32)
        ensures
            port_removed_step(old(self).unmanaged_device_nodes@, old(self).events@,
                final(self).unmanaged_device_nodes@, final(self).events@, node_id, dir, port),
            final(self).keeps(old(self), touch_device_nodes()),
    {
        let mut node = match self.unmanaged_device_nodes.remove(&node_id) {
            Some(n) => n,
            None => {
                proof { assert(self.unmanaged_device_nodes@ =~= old(self).unmanaged_device_nodes@); }
                return;
            },
        };
        match dir {
            PortDirection::In => { node.ports_in.remove(&port); },
            PortDirection::Out => { node.ports_out.remove(&port); },
        }
        let ghost m = node;
        let node = self.reconcile_step(node_id, node);
        self.unmanaged_device_nodes.insert(node_id, node);
        proof {
            let old_nodes = old(self).unmanaged_device_nodes@;
            let n0 = old_nodes[node_id];
            assert(self.unmanaged_device_nodes@ =~= old_nodes.insert(node_id, reconcile_outcome(node_id, m).0));
            assert(m.same_except_ports(n0));
            assert(m.ports_in@ == (if dir == PortDirection::In { n0.ports_in@.remove(port) } else { n0.ports_in@ }));
            assert(m.ports_out@ == (if dir == PortDirection::Out { n0.ports_out@.remove(port) } else { n0.ports_out@ }));
        }
    }

    /// A port of the node appeared; the node is reconciled.
    pub fn unmanaged_node_port_add(&mut self, node_id: u32, dir: PortDirection, port: RegistryPort)
        ensures
            port_added_step(old(self).unmanaged_device_nodes@, old(self).events@,
                final(self).unmanaged_device_nodes@, final(self).events@, node_id, dir, port),
            final(self).keeps(old(self), touch_device_nodes()),
    {
        let mut node = match self.unmanaged_device_nodes.remove(&node_id) {
            Some(n) => n,
            None => {
                proof { assert(self.unmanaged_device_nodes@ =~= old(self).unmanaged_device_nodes@); }
                return;
            },
        };
        node.add_port(dir, port);
        let ghost m = node;
        let node = self.reconcile_step(node_id, node);
        self.unmanaged_device_nodes.insert(node_id, node);
        proof {
            let old_nodes = old(self).unmanaged_device_nodes@;
            assert(self.unmanaged_device_nodes@ =~= old_nodes.insert(node_id, reconcile_outcome(node_id, m).0));
        }
    }

    /// The node's clock is known. The first time, the node is checked and
    /// true is returned (a graph sync is then due).
    pub fn unmanaged_node_set_clock_ready(&mut self, id: u32) -> (r: bool)
        ensures
            ({
                let old_nodes = old(self).unmanaged_device_nodes@;
                if old_nodes.contains_key(id) && !old_nodes[id].clock_ready {
                    let n = RegistryDeviceNode { clock_ready: true, ..old_nodes[id] };
                    &&& r
                    &&& final(self).unmanaged_device_nodes@ == old_nodes.insert(id, port_check_outcome(id, n).0)
                    &&& events_after(old(self).events@, final(self).events@, id, n, port_check_outcome(id, n).1)
                } else {
                    &&& !r
                    &&& final(self).unmanaged_device_nodes@ == old_nodes
                    &&& final(self).events@ == old(self).events@
                }
            }),
            final(self).keeps(old(self), touch_device_nodes()),
    {
        let mut node = match self.unmanaged_device_nodes.remove(&id) {
            Some(n) => n,
            None => {
                proof { assert(self.unmanaged_device_nodes@ =~= old(self).unmanaged_device_nodes@); }
                return false;
            },
        };
        if node.clock_ready {
            self.unmanaged_device_nodes.insert(id, node);
            proof { assert(self.unmanaged_device_nodes@ =~= old(self).unmanaged_device_nodes@); }
            return false;
        }
        node.clock_ready = true;
        let node = self.port_check_step(id, node);
        self.unmanaged_device_nodes.insert(id, node);
        proof {
            let old_nodes = old(self).unmanaged_device_nodes@;
            let n = RegistryDeviceNode { clock_ready: true, ..old_nodes[id] };
            assert(self.unmanaged_device_nodes@ =~= old_nodes.insert(id, port_check_outcome(id, n).0));
        }
        true
    }

    /// The graph settled after the node's clock became known: the node is
    /// marked synced and checked.
    pub fn unmanaged_node_synced(&mut self, id: u32)
        ensures
            ({
                let old_nodes = old(self).unmanaged_device_nodes@;
                if old_nodes.contains_key(id) {
                    let n = RegistryDeviceNode { is_synced: true, ..old_nodes[id] };
                    &&& final(self).unmanaged_device_nodes@ == old_nodes.insert(id, port_check_outcome(id, n).0)
                    &&& events_after(old(self).events@, final(self).events@, id, n, port_check_outcome(id, n).1)
                } else {
                    &&& final(self).unmanaged_device_nodes@ == old_nodes
                    &&& final(self).events@ == old(self).events@
                }
            }),
            final(self).keeps(old(self), touch_device_nodes()),
    {
        let mut node = match self.unmanaged_device_nodes.remove(&id) {
            Some(n) => n,
            None => {
                proof { assert(self.unmanaged_device_nodes@ =~= old(self).unmanaged_device_nodes@); }
                return;
            },
        };
        node.is_synced = true;
        let node = self.port_check_step(id, node);
        self.unmanaged_device_nodes.insert(id, node);
        proof {
            let old_nodes = old(self).unmanaged_device_nodes@;
            let n = RegistryDeviceNode { is_synced: true, ..old_nodes[id] };
            assert(self.unmanaged_device_nodes@ =~= old_nodes.insert(id, port_check_outcome(id, n).0));
        }
    }

    /// Whether the node's ports differ from its announced counts (a node we
    /// do not know counts as differing).
    pub fn unmanaged_node_is_desynced(&self, node_id: u32) -> (r: bool)
        ensures
            r == (!self.unmanaged_device_nodes@.contains_key(node_id)
                || self.unmanaged_device_nodes@[node_id].spec_ports_desynced()),
    {
        match self.unmanaged_device_nodes.get(&node_id) {
            Some(node) => node.ports_desynced(),
            None => true,
        }
    }

    /// The class a device node can be used as, if any.
    pub fn is_usable_unmanaged_device_node(&self, id: u32) -> (r: Option<MediaClass>)
        ensures
            r == (if self.unmanaged_device_nodes@.contains_key(id) {
                self.unmanaged_device_nodes@[id].spec_usable_media_class()
            } else {
                None
            }),
    {
        match self.unmanaged_device_nodes.get(&id) {
            Some(node) => node.usable_media_class(),
            None => None,
        }
    }

    /// Remembers which device node a pending graph sync is for.
    pub fn add_pending_device_sync(&mut self, seq: i32, id: u32)
        ensures
            final(self).pending_device_syncs@ == old(self).pending_device_syncs@.insert(seq, id),
            final(self).keeps(old(self), Touch { pending: true, ..touch_none() }),
            final(self).pending_link_syncs == old(self).pending_link_syncs,
            final(self).pending_filter_syncs == old(self).pending_filter_syncs,
    {
        self.pending_device_syncs.insert(seq, id);
    }

    /// The device node a finished graph sync was for, forgotten as it is
    /// handed out.
    pub fn take_pending_device_sync(&mut self, seq: i32) -> (r: Option<u32>)
        ensures
            final(self).pending_device_syncs@ == old(self).pending_device_syncs@.remove(seq),
            r is Some == old(self).pending_device_syncs@.contains_key(seq),
            r matches Some(id) ==> id == old(self).pending_device_syncs@[seq],
            final(self).keeps(old(self), Touch { pending: true, ..touch_none() }),
            final(self).pending_link_syncs == old(self).pending_link_syncs,
            final(self).pending_filter_syncs == old(self).pending_filter_syncs,
    {
        self.pending_device_syncs.remove(&seq)
    }
}

/// A device reported the volume of one of its routes: the node that route
/// stands for takes it, and upstream hears of it if the node was announced.
pub open spec fn volume_step(devices: Map<u32, RegistryDevice>, nodes: Map<u32, RegistryDeviceNode>,
    events: Seq<PipewireReceiver>, device_id: u32, route_device: u32, volume: u8)
    -> (Map<u32, RegistryDeviceNode>, Seq<PipewireReceiver>) {
    let t = if devices.contains_key(device_id) {
        route_node(devices[device_id].nodes@, nodes, route_device, mute_pred(None))
    } else {
        None
    };
    if t is Some && nodes.contains_key(t->0) {
        let n = nodes[t->0];
        (
            nodes.insert(t->0, RegistryDeviceNode { volume, ..n }),
            if n.sent_upstream { events.push(PipewireReceiver::DeviceVolumeChanged(t->0, volume)) } else { events },
        )
    } else {
        (nodes, events)
    }
}

/// A device reported the mute state of one of its routes: the node that
/// route stands for (among those in the other state) takes it, and
/// upstream hears of it if the node was announced.
pub open spec fn mute_step(devices: Map<u32, RegistryDevice>, nodes: Map<u32, RegistryDeviceNode>,
    events: Seq<PipewireReceiver>, device_id: u32, route_device: u32, muted: bool)
    -> (Map<u32, RegistryDeviceNode>, Seq<PipewireReceiver>) {
    let t = if devices.contains_key(device_id) {
        route_node(devices[device_id].nodes@, nodes, route_device, mute_pred(Some(muted)))
    } else {
        None
    };
    if t is Some && nodes.contains_key(t->0) && nodes[t->0].muted != muted {
        let n = nodes[t->0];
        (
            nodes.insert(t->0, RegistryDeviceNode { muted, ..n }),
            if n.sent_upstream { events.push(PipewireReceiver::DeviceMuteChanged(t->0, muted)) } else { events },
        )
    } else {
        (nodes, events)
    }
}

/// Every id but `id`.
pub open spec fn not_id(id: u32) -> spec_fn(u32) -> bool {
    |n: u32| n != id
}

pub open spec fn mute_pred(mute: Option<bool>) -> spec_fn(RegistryDeviceNode) -> bool {
    |n: RegistryDeviceNode| mute is None || n.muted != mute->0
}

/// The nodes of a device without `id`, for every device.
pub open spec fn devices_without_node(old: Map<u32, RegistryDevice>, new: Map<u32, RegistryDevice>, id: u32) -> bool {
    &&& new.dom() == old.dom()
    &&& forall|k: u32| #[trigger] new.contains_key(k) ==> {
        &&& new[k].nodes@ == old[k].nodes@.filter(not_id(id))
        &&& new[k].object_serial == old[k].object_serial
        &&& new[k].nickname == old[k].nickname
        &&& new[k].description == old[k].description
        &&& new[k].name == old[k].name
        &&& new[k].active_routes@ == old[k].active_routes@
    }
}

/// `v` without any `id`, order kept.
pub fn vec_without(v: &Vec<u32>, id: u32) -> (r: Vec<u32>)
    ensures
        r@ == v@.filter(not_id(id)),
{
    let mut out: Vec<u32> = Vec::new();
    let mut i: usize = 0;
    assert(v@.take(0).filter(not_id(id)) =~= Seq::<u32>::empty()) by {
        reveal(Seq::filter);
    }
    while i < v.len()
        invariant
            i <= v@.len(),
            out@ == v@.take(i as int).filter(not_id(id)),
        decreases v@.len() - i,
    {
        let x = v[i];
        proof {
            reveal(Seq::filter);
            assert(v@.take(i + 1).drop_last() =~= v@.take(i as int));
        }
        if x != id {
            out.push(x);
        }
        i = i + 1;
    }
    assert(v@.take(v@.len() as int) =~= v@);
    out
}

impl Store {
    /// `self` is `o` after the device node `id` went away: upstream hears
    /// of it (if it was known), the devices forget it, the defaults forget
    /// its id.
    pub open spec fn device_node_removed(&self, o: &Store, id: u32) -> bool {
        let ev0 = if o.unmanaged_device_nodes@.contains_key(id) {
            o.events@.push(PipewireReceiver::DeviceRemoved(id))
        } else {
            o.events@
        };
        let (sink, sink_changed) = after_device_removed(o.default_sink@, id);
        let (source, source_changed) = after_device_removed(o.default_source@, id);
        let nodes = o.managed_nodes.entries();
        let e1 = if sink_changed { default_event(nodes, sink, MediaClass::Sink) } else { None };
        let e2 = if source_changed { default_event(nodes, source, MediaClass::Source) } else { None };
        &&& self.unmanaged_device_nodes@ == o.unmanaged_device_nodes@.remove(id)
        &&& devices_without_node(o.unmanaged_devices@, self.unmanaged_devices@, id)
        &&& self.default_sink@ == sink
        &&& self.default_source@ == source
        &&& self.events@ == push_opt(push_opt(ev0, e1), e2)
        &&& self.keeps(o, Touch { device_nodes: true, devices: true, defaults: true, events: true, ..touch_none() })
    }

    /// Records a device PipeWire owns, unless the id is one of our nodes.
    pub fn unmanaged_device_add(&mut self, id: u32, device: RegistryDevice)
        ensures
            ({
                let managed = exists|k: u128| #[trigger] old(self).managed_nodes@.contains_key(k)
                    && old(self).managed_nodes@[k].pw_id == Some(id);
                if managed {
                    final(self).unmanaged_devices@ == old(self).unmanaged_devices@
                } else {
                    final(self).unmanaged_devices@ == old(self).unmanaged_devices@.insert(id, device)
                }
            }),
            final(self).keeps(old(self), Touch { devices: true, ..touch_none() }),
    {
        if self.is_managed_node(id) {
            return;
        }
        self.unmanaged_devices.insert(id, device);
    }

    pub fn unmanaged_device_get(&self, id: u32) -> (r: Option<&RegistryDevice>)
        ensures
            r is Some == self.unmanaged_devices@.contains_key(id),
            r matches Some(d) ==> *d == self.unmanaged_devices@[id],
    {
        self.unmanaged_devices.get(&id)
    }

    /// Adds a node to a device's node list (when the device is known).
    pub fn unmanaged_device_add_node(&mut self, device_id: u32, node_id: u32)
        ensures
            old(self).unmanaged_devices@.contains_key(device_id) ==> {
                let d = old(self).unmanaged_devices@[device_id];
                let d2 = final(self).unmanaged_devices@[device_id];
                &&& final(self).unmanaged_devices@.dom() == old(self).unmanaged_devices@.dom()
                &&& forall|k: u32| k != device_id && #[trigger] old(self).unmanaged_devices@.contains_key(k)
                    ==> final(self).unmanaged_devices@[k] == old(self).unmanaged_devices@[k]
                &&& d2.nodes@ == d.nodes@.push(node_id)
                &&& d2.object_serial == d.object_serial
                &&& d2.active_routes@ == d.active_routes@
                &&& d2.name == d.name
            },
            !old(self).unmanaged_devices@.contains_key(device_id) ==> final(self).unmanaged_devices@
                == old(self).unmanaged_devices@,
            final(self).keeps(old(self), Touch { devices: true, ..touch_none() }),
    {
        if let Some(mut device) = self.unmanaged_devices.remove(&device_id) {
            device.add_node(node_id);
            let ghost d2 = device;
            self.unmanaged_devices.insert(device_id, device);
            assert(self.unmanaged_devices@ =~= old(self).unmanaged_devices@.insert(device_id, d2));
        } else {
            proof { assert(self.unmanaged_devices@ =~= old(self).unmanaged_devices@); }
        }
    }

    /// Records the route a device plays through for a route device.
    pub fn unmanaged_device_set_active_route(&mut self, device_id: u32, route_device: u32, index: u32, n_channels: u32)
        ensures
            old(self).unmanaged_devices@.contains_key(device_id) ==> {
                let d = old(self).unmanaged_devices@[device_id];
                let d2 = final(self).unmanaged_devices@[device_id];
                &&& final(self).unmanaged_devices@.dom() == old(self).unmanaged_devices@.dom()
                &&& forall|k: u32| k != device_id && #[trigger] old(self).unmanaged_devices@.contains_key(k)
                    ==> final(self).unmanaged_devices@[k] == old(self).unmanaged_devices@[k]
                &&& d2.active_routes@ == d.active_routes@.insert(route_device, ActiveRoute { index, n_channels })
                &&& d2.nodes == d.nodes
                &&& d2.object_serial == d.object_serial
            },
            !old(self).unmanaged_devices@.contains_key(device_id) ==> final(self).unmanaged_devices@
                == old(self).unmanaged_devices@,
            final(self).keeps(old(self), Touch { devices: true, ..touch_none() }),
    {
        if let Some(mut device) = self.unmanaged_devices.remove(&device_id) {
            device.active_routes.insert(route_device, ActiveRoute { index, n_channels });
            let ghost d2 = device;
            self.unmanaged_devices.insert(device_id, device);
            assert(self.unmanaged_devices@ =~= old(self).unmanaged_devices@.insert(device_id, d2));
        } else {
            proof { assert(self.unmanaged_devices@ =~= old(self).unmanaged_devices@); }
        }
    }

    pub fn unmanaged_device_remove(&mut self, id: u32)
        ensures
            final(self).unmanaged_devices@ == old(self).unmanaged_devices@.remove(id),
            final(self).keeps(old(self), Touch { devices: true, ..touch_none() }),
    {
        self.unmanaged_devices.remove(&id);
    }

    /// The node a route of a device stands for (see `route_node`).
    fn find_route_node(&self, device_id: u32, route: u32, mute: Option<bool>) -> (r: Option<u32>)
        ensures
            r == (if self.unmanaged_devices@.contains_key(device_id) {
                route_node(self.unmanaged_devices@[device_id].nodes@, self.unmanaged_device_nodes@, route, mute_pred(mute))
            } else {
                None
            }),
    {
        let device = match self.unmanaged_devices.get(&device_id) {
            Some(d) => d,
            None => return None,
        };
        let nodes = &device.nodes;
        let ghost pred = mute_pred(mute);
        let ghost dn = self.unmanaged_device_nodes@;
        let mut i: usize = 0;
        assert(nodes@.skip(0) =~= nodes@);
        while i < nodes.len()
            invariant
                i <= nodes@.len(),
                self.unmanaged_devices@.contains_key(device_id),
                nodes@ == self.unmanaged_devices@[device_id].nodes@,
                dn == self.unmanaged_device_nodes@,
                pred == mute_pred(mute),
                forall|j: int| 0 <= j < i ==> !route_matches(nodes@[j], dn, route, pred),
                first_route_match(nodes@, dn, route, pred) == (match first_route_match(nodes@.skip(i as int), dn, route, pred) {
                    Some(j) => Some(j + i),
                    None => None::<int>,
                }),
            decreases nodes@.len() - i,
        {
            let node_id = nodes[i];
            let ghost rest = nodes@.skip(i as int);
            assert(rest[0] == node_id);
            assert(rest.drop_first() =~= nodes@.skip(i + 1));
            if let Some(node) = self.unmanaged_device_nodes.get(&node_id) {
                let pred_ok = match mute {
                    Some(m) => node.muted != m,
                    None => true,
                };
                if pred_ok && node.profile_port() == Some(route) {
                    assert(pred(dn[node_id]));
                    assert(route_matches(rest[0], dn, route, pred));
                    assert(first_route_match(rest, dn, route, pred) == Some(0int));
                    assert(first_route_match(nodes@, dn, route, pred) == Some(i as int));
                    assert(nodes@[i as int] == node_id);
                    assert(route_node(nodes@, dn, route, pred) == Some(node_id));
                    return Some(node_id);
                }
            }
            i = i + 1;
        }
        assert(nodes@.skip(i as int).len() == 0);
        if nodes.len() == 1 {
            Some(nodes[0])
        } else {
            None
        }
    }

    /// A device reported the volume of one of its routes: the node that
    /// route stands for takes it, and upstream hears of it if the node was
    /// announced.
    pub fn unmanaged_device_node_volume_changed(&mut self, device_id: u32, route_device: u32, volume: u8)
        ensures
            (final(self).unmanaged_device_nodes@, final(self).events@) == volume_step(old(self).unmanaged_devices@,
                old(self).unmanaged_device_nodes@, old(self).events@, device_id, route_device, volume),
            final(self).keeps(old(self), touch_device_nodes()),
    {
        let target = self.find_route_node(device_id, route_device, None);
        if let Some(node_id) = target {
            if let Some(mut node) = self.unmanaged_device_nodes.remove(&node_id) {
                node.volume = volume;
                if node.sent_upstream {
                    self.events.push(PipewireReceiver::DeviceVolumeChanged(node_id, volume));
                }
                self.unmanaged_device_nodes.insert(node_id, node);
                proof {
                    let n = old(self).unmanaged_device_nodes@[node_id];
                    assert(self.unmanaged_device_nodes@ =~= old(self).unmanaged_device_nodes@.insert(node_id,
                        RegistryDeviceNode { volume, ..n }));
                }
            } else {
                proof { assert(self.unmanaged_device_nodes@ =~= old(self).unmanaged_device_nodes@); }
            }
        }
    }

    /// A device reported the mute state of one of its routes: the node that
    /// route stands for takes it if it differs, and upstream hears of it if
    /// the node was announced.
    pub fn unmanaged_device_node_mute_changed(&mut self, device_id: u32, route_device: u32, muted: bool)
        ensures
            (final(self).unmanaged_device_nodes@, final(self).events@) == mute_step(old(self).unmanaged_devices@,
                old(self).unmanaged_device_nodes@, old(self).events@, device_id, route_device, muted),
            final(self).keeps(old(self), touch_device_nodes()),
    {
        let target = self.find_route_node(device_id, route_device, Some(muted));
        if let Some(node_id) = target {
            if let Some(mut node) = self.unmanaged_device_nodes.remove(&node_id) {
                if node.muted != muted {
                    node.muted = muted;
                    if node.sent_upstream {
                        self.events.push(PipewireReceiver::DeviceMuteChanged(node_id, muted));
                    }
                }
                self.unmanaged_device_nodes.insert(node_id, node);
                proof {
                    let n = old(self).unmanaged_device_nodes@[node_id];
                    if n.muted != muted {
                        assert(self.unmanaged_device_nodes@ =~= old(self).unmanaged_device_nodes@.insert(node_id,
                            RegistryDeviceNode { muted, ..n }));
                    } else {
                        assert(self.unmanaged_device_nodes@ =~= old(self).unmanaged_device_nodes@);
                    }
                }
            } else {
                proof { assert(self.unmanaged_device_nodes@ =~= old(self).unmanaged_device_nodes@); }
            }
        }
    }

    /// Records a device node PipeWire owns, unless the id is one of our
    /// nodes. A named node may be a default, which is then announced.
    pub fn unmanaged_device_node_add(&mut self, id: u32, node: RegistryDeviceNode)
        ensures
            ({
                let managed = exists|k: u128| #[trigger] old(self).managed_nodes@.contains_key(k)
                    && old(self).managed_nodes@[k].pw_id == Some(id);
                if managed {
                    &&& final(self).unmanaged_device_nodes@ == old(self).unmanaged_device_nodes@
                    &&& final(self).keeps(old(self), touch_none())
                } else {
                    &&& final(self).unmanaged_device_nodes@ == old(self).unmanaged_device_nodes@.insert(id, node)
                    &&& (node.name is None ==> final(self).keeps(old(self), Touch { device_nodes: true, ..touch_none() }))
                    &&& (node.name matches Some(name) ==> {
                        let (sink, sink_changed) = after_device_added(old(self).default_sink@, id, name@);
                        let (source, source_changed) = after_device_added(old(self).default_source@, id, name@);
                        let nodes = old(self).managed_nodes.entries();
                        let e1 = if sink_changed { default_event(nodes, sink, MediaClass::Sink) } else { None };
                        let e2 = if source_changed { default_event(nodes, source, MediaClass::Source) } else { None };
                        &&& final(self).default_sink@ == sink
                        &&& final(self).default_source@ == source
                        &&& final(self).events@ == push_opt(push_opt(old(self).events@, e1), e2)
                        &&& final(self).keeps(old(self), Touch { device_nodes: true, defaults: true, events: true, ..touch_none() })
                    })
                }
            }),
    {
        if self.is_managed_node(id) {
            return;
        }
        if let Some(name) = &node.name {
            let name = name.clone();
            self.defaults_device_added(id, name.as_str());
        }
        self.unmanaged_device_nodes.insert(id, node);
    }

    pub fn unmanaged_device_node_get(&self, id: u32) -> (r: Option<&RegistryDeviceNode>)
        ensures
            r is Some == self.unmanaged_device_nodes@.contains_key(id),
            r matches Some(n) ==> *n == self.unmanaged_device_nodes@[id],
    {
        self.unmanaged_device_nodes.get(&id)
    }

    /// Removes `id` from the node list of every device.
    fn devices_forget_node(&mut self, id: u32)
        ensures
            devices_without_node(old(self).unmanaged_devices@, final(self).unmanaged_devices@, id),
            final(self).keeps(old(self), Touch { devices: true, ..touch_none() }),
    {
        let n = self.unmanaged_devices.len();
        let mut keys: Vec<u32> = Vec::new();
        let mut i: usize = 0;
        while i < n
            invariant
                n == self.unmanaged_devices.entries().len(),
                self.unmanaged_devices.walk_ok(),
                i <= n,
                keys@ == self.unmanaged_devices.entries().take(i as int).map_values(|e: (u32, RegistryDevice)| e.0),
            decreases n - i,
        {
            let k = self.unmanaged_devices.key_at(i);
            let ghost before = keys@;
            keys.push(k);
            assert(keys@ =~= self.unmanaged_devices.entries().take(i + 1).map_values(|e: (u32, RegistryDevice)| e.0));
            i = i + 1;
        }
        assert(self.unmanaged_devices.entries().take(n as int) =~= self.unmanaged_devices.entries());
        let ghost all = self.unmanaged_devices.entries();
        let ghost old_devs = self.unmanaged_devices@;
        proof {
            assert forall|a: int, b: int| 0 <= a < keys@.len() && 0 <= b < keys@.len() && a != b implies keys@[a] != keys@[b] by {
                assert(keys@[a] == all[a].0);
                assert(keys@[b] == all[b].0);
            }
            assert forall|k: u32| #[trigger] old_devs.contains_key(k) implies keys@.contains(k) by {
                let j = choose|j: int| 0 <= j < all.len() && all[j].0 == k;
                assert(keys@[j] == k);
            }
        }
        let mut j: usize = 0;
        while j < keys.len()
            invariant
                j <= keys@.len(),
                forall|a: int, b: int| 0 <= a < keys@.len() && 0 <= b < keys@.len() && a != b ==> keys@[a] != keys@[b],
                forall|a: int| 0 <= a < keys@.len() ==> old_devs.contains_key(#[trigger] keys@[a]),
                forall|k: u32| #[trigger] old_devs.contains_key(k) ==> keys@.contains(k),
                self.unmanaged_devices@.dom() == old_devs.dom(),
                forall|k: u32| #[trigger] self.unmanaged_devices@.contains_key(k) ==> {
                    let d = self.unmanaged_devices@[k];
                    let o = old_devs[k];
                    &&& (keys@.take(j as int).contains(k) ==> d.nodes@ == o.nodes@.filter(not_id(id)))
                    &&& (!keys@.take(j as int).contains(k) ==> d.nodes@ == o.nodes@)
                    &&& d.object_serial == o.object_serial
                    &&& d.nickname == o.nickname
                    &&& d.description == o.description
                    &&& d.name == o.name
                    &&& d.active_routes@ == o.active_routes@
                },
                self.keeps(old(self), Touch { devices: true, ..touch_none() }),
            decreases keys@.len() - j,
        {
            let k = keys[j];
            assert(self.unmanaged_devices@.contains_key(k));
            let mut device = self.unmanaged_devices.remove(&k).unwrap();
            let nodes = vec_without(&device.nodes, id);
            device.nodes = nodes;
            self.unmanaged_devices.insert(k, device);
            proof {
                let t1 = keys@.take(j + 1);
                let t0 = keys@.take(j as int);
                assert forall|x: u32| #[trigger] t1.contains(x) == (t0.contains(x) || x == k) by {
                    if t1.contains(x) {
                        let a = choose|a: int| 0 <= a < t1.len() && t1[a] == x;
                        if a < j { assert(t0[a] == x); }
                    }
                    if t0.contains(x) {
                        let a = choose|a: int| 0 <= a < t0.len() && t0[a] == x;
                        assert(t1[a] == x);
                    }
                    if x == k { assert(t1[j as int] == x); }
                }
                assert(!t0.contains(k)) by {
                    if t0.contains(k) {
                        let a = choose|a: int| 0 <= a < t0.len() && t0[a] == k;
                        assert(keys@[a] == keys@[j as int]);
                    }
                }
                assert(self.unmanaged_devices@.dom() =~= old_devs.dom());
            }
            j = j + 1;
        }
        proof {
            assert(keys@.take(keys@.len() as int) =~= keys@);
            assert(old_devs == old(self).unmanaged_devices@);
            assert forall|k: u32| #[trigger] self.unmanaged_devices@.contains_key(k) implies
                self.unmanaged_devices@[k].nodes@ == old_devs[k].nodes@.filter(not_id(id)) by {
                assert(old_devs.contains_key(k));
                assert(keys@.contains(k));
                assert(keys@.take(j as int).contains(k));
            }
        }
    }

    /// A device node went away: upstream hears of it (if it was known), the
    /// devices forget it, and the defaults forget its id.
    pub fn unmanaged_device_node_remove(&mut self, id: u32)
        ensures
            final(self).device_node_removed(old(self), id),
    {
        if self.unmanaged_device_nodes.contains_key(&id) {
            self.events.push(PipewireReceiver::DeviceRemoved(id));
        }
        self.unmanaged_device_nodes.remove(&id);
        self.devices_forget_node(id);
        self.defaults_device_removed(id);
    }
}

} // verus!
