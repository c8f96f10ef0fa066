//! What the store does with the objects the PipeWire registry announces,
//! and with the replies that follow (node info, device routes, finished
//! graph syncs). Binding proxies and listening stay with the PipeWire
//! layer, which hands the store what it read.

use vstd::prelude::*;
use super::{ManagedLinkMap, Store, Touch, touch_none};
use super::clients::touch_clients;
use super::devices::{events_after, mute_step, port_added_step, port_check_outcome, reconcile_outcome,
    touch_device_nodes, volume_step, Outcome};
use super::links::{after_link_ready_check, apply_bound, first_pending_on, next_pending_channel};
use super::managed::push_signal_if;
use super::ReadySignal;
use crate::events::PipewireReceiver;
use super::managed::first_with_pw_id;
use crate::default_device::after_device_added;
use crate::registry::{ActiveRoute, Props, RegistryClient, RegistryClientNode, RegistryDevice, RegistryDeviceNode,
    RegistryFactory, RegistryLink, RegistryPort, ObjectType, link_from_props, lookup, lookup_u32, object_type_of,
    factory_error, known_interface, to_object_type, device_read, device_node_read, device_node_error, client_read,
    client_error, client_node_read, client_node_error};
use crate::media::{classify_node_global, node_global_kind, NodeGlobalKind};
use super::metadata::{metadata_kind, metadata_kind_of, MetadataKind};
use crate::shared::PortDirection;
use crate::text::{str_eq, u32_of};

verus! {

/// A port announced by the registry, as the store reads it: the node it
/// belongs to, its port id, its side, name, channel and whether it is a
/// monitor port. Ports lacking one of the first five, or with a side other
/// than `in` or `out`, are not read.
pub open spec fn port_global_of(p: Seq<(Seq<char>, Seq<char>)>) -> Option<(u32, u32, PortDirection, Seq<char>, Seq<char>, bool)> {
    let node = lookup(p, "node.id"@);
    let pid = lookup(p, "port.id"@);
    let name = lookup(p, "port.name"@);
    let channel = lookup(p, "audio.channel"@);
    let dir = lookup(p, "port.direction"@);
    if node is None || pid is None || name is None || channel is None || dir is None {
        None
    } else if dir->0 != "in"@ && dir->0 != "out"@ {
        None
    } else if u32_of(node->0) is None || u32_of(pid->0) is None {
        None
    } else {
        Some((
            u32_of(node->0)->0,
            u32_of(pid->0)->0,
            if dir->0 == "in"@ { PortDirection::In } else { PortDirection::Out },
            name->0,
            channel->0,
            lookup(p, "port.monitor"@) == Some("true"@),
        ))
    }
}

/// The port a registry port global stands for, with the global's id.
pub open spec fn port_is(port: RegistryPort, id: u32, g: (u32, u32, PortDirection, Seq<char>, Seq<char>, bool)) -> bool {
    port.global_id == id && port.name@ == g.3 && port.channel@ == g.4 && port.is_monitor == g.5
}

/// What a finished graph sync asks of the PipeWire layer.
#[derive(Debug, Clone, Copy, PartialEq, Eq, Structural)]
pub enum CoreDoneAction {
    /// Create the next channel of a pending link group.
    CreateLink(u128, ManagedLinkMap),
    /// Let the device node settle, then mark it synced.
    SettleDevice(u32),
    Nothing,
}

/// A report of a device node's port counts: new counts are applied and
/// the node reconciled. The node after, what upstream hears, and the node
/// that is described.
pub open spec fn count_report(id: u32, n: RegistryDeviceNode, inputs: u32, outputs: u32)
    -> (RegistryDeviceNode, Outcome, RegistryDeviceNode) {
    if n.port_count_in == Some(inputs) && n.port_count_out == Some(outputs) {
        (n, Outcome::Nothing, n)
    } else {
        let c = RegistryDeviceNode { port_count_in: Some(inputs), port_count_out: Some(outputs), ..n };
        (reconcile_outcome(id, c).0, reconcile_outcome(id, c).1, c)
    }
}

/// A report carrying properties makes a node's clock known the first time,
/// and the node is checked.
pub open spec fn clock_report(id: u32, n: RegistryDeviceNode, has_props: bool)
    -> (RegistryDeviceNode, Outcome, RegistryDeviceNode) {
    if has_props && !n.clock_ready {
        let c = RegistryDeviceNode { clock_ready: true, ..n };
        (port_check_outcome(id, c).0, port_check_outcome(id, c).1, c)
    } else {
        (n, Outcome::Nothing, n)
    }
}

impl Store {
    /// `self` is `o` after a node global `id` was seen: when it is one of
    /// ours its serial is recorded (when it reads as a number).
    pub open spec fn managed_global_seen(&self, o: &Store, id: u32, props: Seq<(Seq<char>, Seq<char>)>) -> bool {
        &&& (first_with_pw_id(o.managed_nodes.entries(), id) is Some && lookup_u32(props, "object.serial"@) is Some ==> {
                let k = first_with_pw_id(o.managed_nodes.entries(), id)->0;
                self.managed_nodes@ == o.managed_nodes@.insert(k,
                    super::ManagedNode { object_serial: lookup_u32(props, "object.serial"@), ..o.managed_nodes@[k] })
            })
        &&& (!(first_with_pw_id(o.managed_nodes.entries(), id) is Some && lookup_u32(props, "object.serial"@) is Some) ==> self.managed_nodes@ == o.managed_nodes@)
        &&& (self.keeps(o, Touch { managed_nodes: true, ..touch_none() }))
    }

    /// `self` is `o` after the device node `id` was recorded: its parent
    /// device lists it, the store records it unless it is one of ours, and
    /// a default it names is announced.
    pub open spec fn device_node_accepted(&self, o: &Store, id: u32, node: RegistryDeviceNode) -> bool {
        let parent = node.parent_id;
        let devices_ok = if parent is Some && o.unmanaged_devices@.contains_key(parent->0) {
            let d = o.unmanaged_devices@[parent->0];
            let d2 = self.unmanaged_devices@[parent->0];
            &&& self.unmanaged_devices@.dom() == o.unmanaged_devices@.dom()
            &&& forall|k: u32| k != parent->0 && #[trigger] o.unmanaged_devices@.contains_key(k)
                ==> self.unmanaged_devices@[k] == o.unmanaged_devices@[k]
            &&& d2.nodes@ == d.nodes@.push(id)
            &&& d2.object_serial == d.object_serial
            &&& d2.active_routes@ == d.active_routes@
            &&& d2.name == d.name
        } else {
            self.unmanaged_devices@ == o.unmanaged_devices@
        };
        let managed = exists|k: u128| #[trigger] o.managed_nodes@.contains_key(k)
            && o.managed_nodes@[k].pw_id == Some(id);
        &&& devices_ok
        &&& managed ==> self.unmanaged_device_nodes@ == o.unmanaged_device_nodes@
        &&& !managed ==> self.unmanaged_device_nodes@ == o.unmanaged_device_nodes@.insert(id, node)
        &&& (managed || node.name is None) ==> self.keeps(o,
            Touch { devices: true, device_nodes: true, ..touch_none() })
        &&& (!managed && node.name is Some) ==> {
            let name = node.name->0@;
            let (sink, sink_changed) = after_device_added(o.default_sink@, id, name);
            let (source, source_changed) = after_device_added(o.default_source@, id, name);
            let nodes = o.managed_nodes.entries();
            let e1 = if sink_changed { super::managed::default_event(nodes, sink, crate::media::MediaClass::Sink) } else { None };
            let e2 = if source_changed { super::managed::default_event(nodes, source, crate::media::MediaClass::Source) } else { None };
            &&& self.default_sink@ == sink
            &&& self.default_source@ == source
            &&& self.events@ == super::managed::push_opt(super::managed::push_opt(o.events@, e1), e2)
            &&& self.keeps(o, Touch { devices: true, device_nodes: true, defaults: true, events: true, ..touch_none() })
        }
    }

    /// `self` is `o` after the stream node `id` was offered: recorded (and
    /// listed by its client) when its client is known, dropped otherwise.
    pub open spec fn client_node_accepted(&self, o: &Store, id: u32, node: RegistryClientNode) -> bool {
        &&& (o.unmanaged_clients@.contains_key(node.parent_id) ==> {
                let c = o.unmanaged_clients@[node.parent_id];
                &&& self.unmanaged_clients@ == o.unmanaged_clients@.insert(node.parent_id,
                    crate::registry::RegistryClient { nodes: self.unmanaged_clients@[node.parent_id].nodes, ..c })
                &&& self.unmanaged_clients@[node.parent_id].nodes@ == c.nodes@.push(id)
                &&& self.unmanaged_client_nodes@ == o.unmanaged_client_nodes@.insert(id, node)
                &&& self.keeps(o, Touch { clients: true, client_nodes: true, ..touch_none() })
            })
        &&& (!o.unmanaged_clients@.contains_key(node.parent_id) ==> self.keeps(o, touch_none()))
    }

    /// A node was announced that may be one of ours: if it is, its serial
    /// is recorded (when it reads as a number) and true is returned.
    pub fn managed_node_global(&mut self, id: u32, props: &Props) -> (r: bool)
        ensures
            r == (first_with_pw_id(old(self).managed_nodes.entries(), id) is Some),
            final(self).managed_global_seen(old(self), id, props@),
            !r ==> *final(self) == *old(self),
    {
        if self.managed_node_find_by_node_id(id).is_none() {
            return false;
        }
        if let Some(serial) = props.get_u32("object.serial") {
            self.managed_node_set_pw_serial(id, serial);
        }
        true
    }

    /// A device node was read from the registry: its parent device lists
    /// it, and the store records it (announcing a default it names).
    pub fn accept_device_node(&mut self, id: u32, node: RegistryDeviceNode)
        ensures
            final(self).device_node_accepted(old(self), id, node),
    {
        if let Some(parent_id) = node.parent_id {
            self.unmanaged_device_add_node(parent_id, id);
        }
        self.unmanaged_device_node_add(id, node);
    }

    /// A stream node was read from the registry: when its client is known
    /// the client lists it and the store records it (true); otherwise it is
    /// dropped (false).
    pub fn accept_client_node(&mut self, id: u32, node: RegistryClientNode) -> (r: bool)
        ensures
            r == old(self).unmanaged_clients@.contains_key(node.parent_id),
            final(self).client_node_accepted(old(self), id, node),
    {
        if self.unmanaged_client_get(node.parent_id).is_none() {
            return false;
        }
        let parent = node.parent_id;
        self.unmanaged_client_add_node(parent, id);
        self.unmanaged_client_node_add(id, node);
        true
    }

    /// PipeWire reported a device node's port counts (and whether it
    /// carried properties). New counts are applied and the node reconciled;
    /// the first report with properties makes the clock known and checks
    /// the node, and true asks for a graph sync.
    pub fn on_device_node_info(&mut self, id: u32, inputs: u32, outputs: u32, has_props: bool) -> (r: bool)
        ensures
            !old(self).unmanaged_device_nodes@.contains_key(id) ==> !r && final(self).keeps(old(self), touch_none()),
            old(self).unmanaged_device_nodes@.contains_key(id) ==> {
                let n = old(self).unmanaged_device_nodes@[id];
                let (n1, o1, b1) = count_report(id, n, inputs, outputs);
                let (n2, o2, b2) = clock_report(id, n1, has_props);
                &&& r == (has_props && !n.clock_ready)
                &&& final(self).unmanaged_device_nodes@ == old(self).unmanaged_device_nodes@.insert(id, n2)
                &&& exists|mid: Seq<PipewireReceiver>| events_after(old(self).events@, mid, id, b1, o1)
                    && #[trigger] events_after(mid, final(self).events@, id, b2, o2)
                &&& final(self).keeps(old(self), touch_device_nodes())
            },
    {
        if self.unmanaged_device_node_get(id).is_none() {
            return false;
        }
        self.unmanaged_node_port_count_update(id, inputs, outputs);
        let ghost mid = self.events@;
        let ghost nodes1 = self.unmanaged_device_nodes@;
        proof {
            let n = old(self).unmanaged_device_nodes@[id];
            assert(nodes1[id] == count_report(id, n, inputs, outputs).0);
        }
        let r = if has_props {
            self.unmanaged_node_set_clock_ready(id)
        } else {
            false
        };
        proof {
            let n = old(self).unmanaged_device_nodes@[id];
            let (n1, o1, b1) = count_report(id, n, inputs, outputs);
            assert(events_after(old(self).events@, mid, id, b1, o1));
            let (n2, o2, b2) = clock_report(id, n1, has_props);
            assert(events_after(mid, self.events@, id, b2, o2));
            assert(self.unmanaged_device_nodes@ =~= old(self).unmanaged_device_nodes@.insert(id, clock_report(id, n1, has_props).0));
        }
        r
    }

    /// A device reported the route one of its route devices plays through,
    /// with the route's volume and mute when given: a new or changed route
    /// is recorded, then the volume and the mute state go to the node that
    /// route stands for.
    pub fn on_device_route(&mut self, id: u32, route_device: u32, index: u32, n_channels: u32,
        volume: Option<u8>, muted: Option<bool>)
        ensures
            ({
                let devs = old(self).unmanaged_devices@;
                let route = ActiveRoute { index, n_channels };
                let (nodes1, events1) = match volume {
                    Some(v) => volume_step(devs, old(self).unmanaged_device_nodes@, old(self).events@, id, route_device, v),
                    None => (old(self).unmanaged_device_nodes@, old(self).events@),
                };
                let (nodes2, events2) = match muted {
                    Some(m) => mute_step(devs, nodes1, events1, id, route_device, m),
                    None => (nodes1, events1),
                };
                &&& devs.contains_key(id) ==> {
                    let d = devs[id];
                    let d2 = final(self).unmanaged_devices@[id];
                    &&& final(self).unmanaged_devices@.dom() == devs.dom()
                    &&& forall|k: u32| k != id && #[trigger] devs.contains_key(k)
                        ==> final(self).unmanaged_devices@[k] == devs[k]
                    &&& d2.active_routes@ == d.active_routes@.insert(route_device, route)
                    &&& d2.nodes == d.nodes
                    &&& d2.object_serial == d.object_serial
                }
                &&& !devs.contains_key(id) ==> final(self).unmanaged_devices@ == devs
                &&& final(self).unmanaged_device_nodes@ == nodes2
                &&& final(self).events@ == events2
            }),
            final(self).keeps(old(self), Touch { devices: true, device_nodes: true, events: true, ..touch_none() }),
    {
        let changed = match self.unmanaged_device_get(id) {
            Some(d) => match d.active_routes.get(&route_device) {
                Some(r) => r.index != index || r.n_channels != n_channels,
                None => true,
            },
            None => true,
        };
        if changed {
            self.unmanaged_device_set_active_route(id, route_device, index, n_channels);
        }
        proof {
            let devs = old(self).unmanaged_devices@;
            if !changed && devs.contains_key(id) {
                assert(devs[id].active_routes@.insert(route_device, ActiveRoute { index, n_channels })
                    =~= devs[id].active_routes@);
            }
            assert forall|k: u32| #[trigger] devs.contains_key(k) implies self.unmanaged_devices@[k].nodes == devs[k].nodes by {}
            assert(forall|k: u32| #[trigger] devs.contains_key(k) ==> self.unmanaged_devices@[k].nodes@ == devs[k].nodes@);
        }
        if let Some(v) = volume {
            self.unmanaged_device_node_volume_changed(id, route_device, v);
        }
        if let Some(m) = muted {
            self.unmanaged_device_node_mute_changed(id, route_device, m);
        }
    }

    /// A graph sync finished. A pending link group waiting on it gets its
    /// next channel created; a group with none left becomes a managed link
    /// (see `get_next_pending_link`), and then a device node waiting on the
    /// sync is let settle.
    pub fn on_core_done(&mut self, seq: i32) -> (r: CoreDoneAction)
        ensures
            ({
                let pls = old(self).pending_link_syncs@;
                let f = first_pending_on(pls, seq);
                if f is Some && next_pending_channel(pls[f->0].group) is Some {
                    &&& r == CoreDoneAction::CreateLink(pls[f->0].parent_id, next_pending_channel(pls[f->0].group)->0)
                    &&& final(self).keeps(old(self), touch_none())
                } else {
                    &&& (f matches Some(i) ==> {
                        let p = pls[i];
                        let (l, fire) = after_link_ready_check(apply_bound(p.group, p.bound_ids@));
                        &&& final(self).pending_link_syncs@ == pls.remove(i)
                        &&& final(self).managed_links@ == old(self).managed_links@.insert(p.parent_id, l)
                        &&& final(self).signals@ == push_signal_if(old(self).signals@, fire, ReadySignal::Link(p.parent_id))
                    })
                    &&& (f is None ==> {
                        &&& final(self).pending_link_syncs == old(self).pending_link_syncs
                        &&& final(self).managed_links == old(self).managed_links
                        &&& final(self).signals == old(self).signals
                    })
                    &&& final(self).pending_device_syncs@ == old(self).pending_device_syncs@.remove(seq)
                    &&& r == (if old(self).pending_device_syncs@.contains_key(seq) {
                        CoreDoneAction::SettleDevice(old(self).pending_device_syncs@[seq])
                    } else {
                        CoreDoneAction::Nothing
                    })
                    &&& final(self).pending_filter_syncs == old(self).pending_filter_syncs
                    &&& final(self).keeps(old(self), Touch { pending: true, managed_links: true, signals: true, ..touch_none() })
                }
            }),
    {
        if let Some(parent) = self.get_pending_link_parent_id_by_seq(seq) {
            if let Some(link) = self.get_next_pending_link(seq) {
                return CoreDoneAction::CreateLink(parent, link);
            }
        }
        match self.take_pending_device_sync(seq) {
            Some(node) => CoreDoneAction::SettleDevice(node),
            None => CoreDoneAction::Nothing,
        }
    }
}


impl Store {
    /// `self` is `o` after the port global `id` was handled.
    pub open spec fn port_handled(&self, o: &Store, id: u32, props: Seq<(Seq<char>, Seq<char>)>) -> bool {
        match port_global_of(props) {
            None => self.keeps(o, touch_none()),
            Some(g) => if o.unmanaged_device_nodes@.contains_key(g.0) {
                &&& exists|port: RegistryPort| port_is(port, id, g) && #[trigger] port_added_step(
                    o.unmanaged_device_nodes@, o.events@, self.unmanaged_device_nodes@,
                    self.events@, g.0, g.2, port)
                &&& self.keeps(o, touch_device_nodes())
            } else if o.unmanaged_client_nodes@.contains_key(g.0) {
                exists|port: RegistryPort| port_is(port, id, g)
                    && #[trigger] self.client_port_added(o, g.0, g.1, g.2, port)
            } else {
                self.keeps(o, touch_none())
            },
        }
    }

    /// `self` is `o` after the link global `id` was handled.
    pub open spec fn link_handled(&self, o: &Store, id: u32, props: Seq<(Seq<char>, Seq<char>)>) -> bool {
        &&& (self.unmanaged_links@ == (match link_from_props(props) {
            Ok(link) => if super::links::first_link_with_pw(o.managed_links.entries(), id) is None
                && !super::unmanaged_links::pending_binds(o.pending_link_syncs@, id) {
                o.unmanaged_links@.insert(id, link)
            } else {
                o.unmanaged_links@
            },
            Err(_) => o.unmanaged_links@,
        }))
        &&& (self.keeps(o, Touch { unmanaged_links: true, ..touch_none() }))
    }

    /// `self` is `o` after the factory global `id` was handled.
    pub open spec fn factory_handled(&self, o: &Store, id: u32, props: Seq<(Seq<char>, Seq<char>)>) -> bool {
        &&& (factory_error(props) is Some ==> self.factories@ == o.factories@)
        &&& (factory_error(props) is None ==> {
            let f = self.factories@[id];
            &&& self.factories@ == o.factories@.insert(id, f)
            &&& Some(f.object_serial) == lookup_u32(props, "object.serial"@)
            &&& Some(f.module_id) == lookup_u32(props, "module.id"@)
            &&& Some(f.name@) == lookup(props, "factory.name"@)
            &&& object_type_of(f.factory_type, lookup(props, "factory.type.name"@)->0)
            &&& Some(f.version) == lookup_u32(props, "factory.type.version"@)
        })
        &&& (self.keeps(o, Touch { factories: true, ..touch_none() }))
    }
}

/// A port was announced: recorded on its device node (which is then
/// reconciled), else on its stream node (which is then checked).
pub fn handle_port(id: u32, props: &Props, store: &mut Store)
    ensures
        final(store).port_handled(old(store), id, props@),
{
    let node_id = props.get("node.id");
    let pid = props.get("port.id");
    let name = props.get("port.name");
    let channel = props.get("audio.channel");
    let direction = props.get("port.direction");
    if node_id.is_none() || pid.is_none() || name.is_none() || channel.is_none() || direction.is_none() {
        return;
    }
    let name = name.unwrap();
    let channel = channel.unwrap();
    let d = direction.unwrap();
    let direction = if str_eq(d.as_str(), "in") {
        PortDirection::In
    } else if str_eq(d.as_str(), "out") {
        PortDirection::Out
    } else {
        return;
    };
    let is_monitor = match props.get("port.monitor") {
        Some(m) => str_eq(m.as_str(), "true"),
        None => false,
    };
    let port = RegistryPort::new(id, name.as_str(), channel.as_str(), is_monitor);
    let node_id = match crate::text::parse_u32(node_id.unwrap().as_str()) {
        Some(n) => n,
        None => return,
    };
    let port_id = match crate::text::parse_u32(pid.unwrap().as_str()) {
        Some(n) => n,
        None => return,
    };
    let ghost g = port_global_of(props@)->0;
    assert(port_is(port, id, g));
    let ghost p = port;
    if store.unmanaged_device_node_get(node_id).is_some() {
        store.unmanaged_node_port_add(node_id, direction, port);
        assert(port_added_step(old(store).unmanaged_device_nodes@, old(store).events@,
            store.unmanaged_device_nodes@, store.events@, g.0, g.2, p));
        return;
    }
    if store.unmanaged_client_node_get(node_id).is_some() {
        store.unmanaged_client_node_add_port(node_id, port_id, direction, port);
        assert(store.client_port_added(old(store), g.0, g.1, g.2, p));
    }
}

/// A link was announced: recorded when it reads as a link and is not
/// one of ours.
pub fn handle_link(id: u32, props: &Props, store: &mut Store)
    ensures
        final(store).link_handled(old(store), id, props@),
{
    if let Ok(link) = RegistryLink::try_from(props) {
        store.unmanaged_link_add(id, link);
    }
}

/// A factory was announced: recorded when it reads as one.
pub fn handle_factory(id: u32, props: &Props, store: &mut Store)
    ensures
        final(store).factory_handled(old(store), id, props@),
{
    if let Ok(factory) = RegistryFactory::try_from(props) {
        store.factory_add(id, factory);
        assert(store.factories@ =~= old(store).factories@.insert(id, store.factories@[id]));
    }
}

/// What PipeWire is asked after a global was announced: to bind the
/// object the store will follow, if any.
#[derive(Debug, Clone, Copy, PartialEq, Eq, Structural)]
pub enum GlobalAction {
    Nothing,
    BindDevice(u32),
    BindDeviceNode(u32),
    BindClientNode(u32),
    BindClient(u32),
    BindMetadata(u32, MetadataKind),
}

impl Store {
    /// `self` is `o` after a new device `id` read as `d`: recorded unless
    /// the id is one of our nodes.
    pub open spec fn device_recorded(&self, o: &Store, id: u32, d: RegistryDevice) -> bool {
        let managed = exists|k: u128| #[trigger] o.managed_nodes@.contains_key(k)
            && o.managed_nodes@[k].pw_id == Some(id);
        &&& managed ==> self.unmanaged_devices@ == o.unmanaged_devices@
        &&& !managed ==> self.unmanaged_devices@ == o.unmanaged_devices@.insert(id, d)
        &&& self.keeps(o, Touch { devices: true, ..touch_none() })
    }

    /// `self` is `o` after a node global `id` that is not one of ours.
    pub open spec fn node_global_handled(&self, o: &Store, id: u32, props: Seq<(Seq<char>, Seq<char>)>,
        r: GlobalAction) -> bool {
        match node_global_kind(lookup(props, "media.class"@)) {
            NodeGlobalKind::DeviceNode => if device_node_error(props) is None {
                &&& r == GlobalAction::BindDeviceNode(id)
                &&& exists|n: RegistryDeviceNode| device_node_read(n, props) && #[trigger] self.device_node_accepted(o, id, n)
            } else {
                r == GlobalAction::Nothing && self.keeps(o, touch_none())
            },
            NodeGlobalKind::ClientNode => if client_node_error(props) is None {
                exists|n: RegistryClientNode| client_node_read(n, props) && #[trigger] self.client_node_accepted(o, id, n)
                    && r == (if o.unmanaged_clients@.contains_key(n.parent_id) {
                        GlobalAction::BindClientNode(id)
                    } else {
                        GlobalAction::Nothing
                    })
            } else {
                r == GlobalAction::Nothing && self.keeps(o, touch_none())
            },
            NodeGlobalKind::Ignored => r == GlobalAction::Nothing && self.keeps(o, touch_none()),
        }
    }

    /// `self` is `o` after the registry announced the global `id` with the
    /// interface name `interface` and these properties, and `r` is what
    /// PipeWire is asked.
    pub open spec fn global_handled(&self, o: &Store, id: u32, interface: Seq<char>,
        props: Seq<(Seq<char>, Seq<char>)>, r: GlobalAction) -> bool {
        match known_interface(interface) {
            Some(ObjectType::Device) => {
                &&& r == GlobalAction::BindDevice(id)
                &&& exists|d: RegistryDevice| device_read(d, props) && #[trigger] self.device_recorded(o, id, d)
            },
            Some(ObjectType::Node) => if first_with_pw_id(o.managed_nodes.entries(), id) is Some {
                r == GlobalAction::Nothing && self.managed_global_seen(o, id, props)
            } else {
                self.node_global_handled(o, id, props, r)
            },
            Some(ObjectType::Port) => r == GlobalAction::Nothing && self.port_handled(o, id, props),
            Some(ObjectType::Link) => r == GlobalAction::Nothing && self.link_handled(o, id, props),
            Some(ObjectType::Factory) => r == GlobalAction::Nothing && self.factory_handled(o, id, props),
            Some(ObjectType::Client) => if client_error(props) is None {
                &&& r == GlobalAction::BindClient(id)
                &&& exists|c: RegistryClient| client_read(c, props)
                    && #[trigger] o.unmanaged_clients@.insert(id, c) == self.unmanaged_clients@
                &&& self.keeps(o, Touch { clients: true, ..touch_none() })
            } else {
                r == GlobalAction::Nothing && self.keeps(o, touch_none())
            },
            Some(ObjectType::Metadata) => {
                &&& r == (match metadata_kind_of(props) {
                    Some(k) => GlobalAction::BindMetadata(id, k),
                    None => GlobalAction::Nothing,
                })
                &&& self.keeps(o, touch_none())
            },
            _ => r == GlobalAction::Nothing && self.keeps(o, touch_none()),
        }
    }

    /// The registry announced a global: the store records what it follows
    /// and says what PipeWire is to bind. A device must carry its serial
    /// (the PipeWire layer stops on one without).
    pub fn on_global(&mut self, id: u32, interface: &str, props: &Props) -> (r: GlobalAction)
        requires
            known_interface(interface@) == Some(ObjectType::Device) ==> lookup_u32(props@, "object.serial"@) is Some,
        ensures
            final(self).global_handled(old(self), id, interface@, props@, r),
    {
        let t = to_object_type(interface);
        match t {
            ObjectType::Device => {
                let d = RegistryDevice::from(props);
                let ghost dv = d;
                self.unmanaged_device_add(id, d);
                assert(self.device_recorded(old(self), id, dv));
                GlobalAction::BindDevice(id)
            },
            ObjectType::Node => {
                if self.managed_node_global(id, props) {
                    return GlobalAction::Nothing;
                }
                let class: Option<&str> = match props.get("media.class") {
                    Some(c) => Some(c.as_str()),
                    None => None,
                };
                match classify_node_global(class) {
                    NodeGlobalKind::DeviceNode => match RegistryDeviceNode::try_from(props) {
                        Ok(node) => {
                            let ghost nv = node;
                            self.accept_device_node(id, node);
                            assert(self.device_node_accepted(old(self), id, nv));
                            GlobalAction::BindDeviceNode(id)
                        },
                        Err(_) => GlobalAction::Nothing,
                    },
                    NodeGlobalKind::ClientNode => match RegistryClientNode::try_from(props) {
                        Ok(node) => {
                            let ghost nv = node;
                            let r = if self.accept_client_node(id, node) {
                                GlobalAction::BindClientNode(id)
                            } else {
                                GlobalAction::Nothing
                            };
                            assert(self.client_node_accepted(old(self), id, nv));
                            r
                        },
                        Err(_) => GlobalAction::Nothing,
                    },
                    NodeGlobalKind::Ignored => GlobalAction::Nothing,
                }
            },
            ObjectType::Port => {
                handle_port(id, props, self);
                GlobalAction::Nothing
            },
            ObjectType::Link => {
                handle_link(id, props, self);
                GlobalAction::Nothing
            },
            ObjectType::Factory => {
                handle_factory(id, props, self);
                GlobalAction::Nothing
            },
            ObjectType::Client => match RegistryClient::try_from(props) {
                Ok(client) => {
                    let ghost cv = client;
                    self.unmanaged_client_add(id, client);
                    assert(old(self).unmanaged_clients@.insert(id, cv) == self.unmanaged_clients@);
                    GlobalAction::BindClient(id)
                },
                Err(_) => GlobalAction::Nothing,
            },
            ObjectType::Metadata => match metadata_kind(props) {
                Some(kind) => GlobalAction::BindMetadata(id, kind),
                None => GlobalAction::Nothing,
            },
            _ => GlobalAction::Nothing,
        }
    }
}

} // verus!
