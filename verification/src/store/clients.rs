//! Applications and their stream nodes: a stream is announced once it
//! runs, has a name, a mono or stereo layout and a known program binary;
//! it is withdrawn when it stops or goes away.

use vstd::prelude::*;
use super::{Store, Touch, touch_none};
use super::devices::{not_id, vec_without};
use crate::events::{ApplicationNode, NodeTarget, PipewireReceiver};
use crate::media::{media_class_for, MediaClass};
use crate::registry::{clone_opt_string, non_monitor_count, RegistryClient, RegistryClientNode, RegistryDeviceNode,
    RegistryPort};
use crate::shared::PortDirection;
use crate::store::ManagedNode;
use crate::store::managed::first_with_pw_id;
use crate::text::str_eq;

verus! {

/// How a stream names the node it plays to: a PipeWire node id, or an
/// object serial (as the metadata gives it).
#[derive(Debug, Clone, Copy, PartialEq, Eq, Structural)]
pub enum TargetType {
    Node(Option<u32>),
    Serial(Option<u32>),
}

/// Whether the stream's parent client is known and knows its program binary.
pub open spec fn parent_has_binary(clients: Map<u32, RegistryClient>, n: RegistryClientNode) -> bool {
    clients.contains_key(n.parent_id) && clients[n.parent_id].application_binary is Some
}

/// The class a stream node with these channel counts can be announced as:
/// it runs, is named, its parent client knows its binary, and its layout
/// is mono or stereo.
pub open spec fn usable_class_counts(clients: Map<u32, RegistryClient>, n: RegistryClientNode,
    in_count: nat, out_count: nat) -> Option<MediaClass> {
    if n.node_name@.len() == 0 || n.application_name@.len() == 0 || n.is_running != Some(true) {
        None
    } else if !parent_has_binary(clients, n) {
        None
    } else {
        media_class_for(in_count as int, out_count as int)
    }
}

/// The class a stream node can be announced as, by its non-monitor ports.
pub open spec fn client_usable_class(clients: Map<u32, RegistryClient>, n: RegistryClientNode) -> Option<MediaClass> {
    usable_class_counts(clients, n, non_monitor_count(n.ports_in.entries()), non_monitor_count(n.ports_out.entries()))
}

/// The announcement of a stream node.
pub open spec fn app_node_of(id: u32, class: MediaClass, n: RegistryClientNode, parent: RegistryClient) -> ApplicationNode {
    ApplicationNode {
        node_id: id,
        node_class: class,
        media_target: n.media_target,
        volume: n.volume,
        muted: n.is_muted,
        title: n.media_title,
        process_name: parent.application_binary->0,
        name: n.application_name,
    }
}

/// One announcement step: a usable stream whose client is known and which
/// is not announced yet is announced.
pub open spec fn check_step(clients: Map<u32, RegistryClient>, cnodes: Map<u32, RegistryClientNode>,
    usable: Seq<u32>, events: Seq<PipewireReceiver>, id: u32) -> (Seq<u32>, Seq<PipewireReceiver>) {
    if usable.contains(id) {
        (usable, events)
    } else if cnodes.contains_key(id) && client_usable_class(clients, cnodes[id]) is Some {
        let n = cnodes[id];
        (
            usable.push(id),
            events.push(PipewireReceiver::ApplicationAdded(
                app_node_of(id, client_usable_class(clients, n)->0, n, clients[n.parent_id]),
            )),
        )
    } else {
        (usable, events)
    }
}

/// A stream is announced at most once: an announcement step keeps the
/// list of announced streams free of repeats, announces nothing for a
/// stream already on it, and a second step right after the first changes
/// nothing. A step announces a stream (exactly one `ApplicationAdded`,
/// the stream listed once) when it is not listed yet and is usable, its
/// client then being known with its binary; otherwise nothing changes.
pub proof fn law_stream_announced_once(clients: Map<u32, RegistryClient>, cnodes: Map<u32, RegistryClientNode>,
    usable: Seq<u32>, events: Seq<PipewireReceiver>, id: u32)
    requires
        usable.no_duplicates(),
    ensures
        check_step(clients, cnodes, usable, events, id).0.no_duplicates(),
        usable.contains(id) ==> check_step(clients, cnodes, usable, events, id) == (usable, events),
        ({
            let (u, e) = check_step(clients, cnodes, usable, events, id);
            check_step(clients, cnodes, u, e, id) == (u, e)
        }),
        ({
            let (u, e) = check_step(clients, cnodes, usable, events, id);
            if !usable.contains(id) && cnodes.contains_key(id) && client_usable_class(clients, cnodes[id]) is Some {
                let n = cnodes[id];
                &&& u == usable.push(id)
                &&& e == events.push(PipewireReceiver::ApplicationAdded(
                    app_node_of(id, client_usable_class(clients, n)->0, n, clients[n.parent_id])))
                &&& clients.contains_key(n.parent_id) && clients[n.parent_id].application_binary is Some
            } else {
                u == usable && e == events
            }
        }),
{
    let (u, _) = check_step(clients, cnodes, usable, events, id);
    if !usable.contains(id) && u != usable {
        assert(u == usable.push(id));
        assert forall|i: int, j: int| 0 <= i < u.len() && 0 <= j < u.len() && i != j implies u[i] != u[j] by {
            if i == usable.len() as int {
                assert(u[j] == usable[j]);
            } else if j == usable.len() as int {
                assert(u[i] == usable[i]);
            }
        }
        assert(u[usable.len() as int] == id);
        assert(u.contains(id));
    }
}

/// Announcement steps for several nodes in turn.
pub open spec fn check_fold(clients: Map<u32, RegistryClient>, cnodes: Map<u32, RegistryClientNode>,
    usable: Seq<u32>, events: Seq<PipewireReceiver>, ids: Seq<u32>) -> (Seq<u32>, Seq<PipewireReceiver>)
    decreases ids.len(),
{
    if ids.len() == 0 {
        (usable, events)
    } else {
        let (u, e) = check_fold(clients, cnodes, usable, events, ids.drop_last());
        check_step(clients, cnodes, u, e, ids.last())
    }
}

/// The first of our nodes (walk order) with this object serial.
pub open spec fn first_with_serial(s: Seq<(u128, ManagedNode)>, serial: u32) -> Option<u128>
    decreases s.len(),
{
    if s.len() == 0 {
        None
    } else if s[0].1.object_serial == Some(serial) {
        Some(s[0].0)
    } else {
        first_with_serial(s.drop_first(), serial)
    }
}

/// The first device node (walk order) with this object serial.
pub open spec fn first_device_with_serial(s: Seq<(u32, RegistryDeviceNode)>, serial: u32) -> Option<u32>
    decreases s.len(),
{
    if s.len() == 0 {
        None
    } else if s[0].1.object_serial == serial {
        Some(s[0].0)
    } else {
        first_device_with_serial(s.drop_first(), serial)
    }
}

/// The node a stream's target names. A device node wins over one of ours.
pub open spec fn resolve_target(managed: Seq<(u128, ManagedNode)>, devices: Seq<(u32, RegistryDeviceNode)>,
    device_map: Map<u32, RegistryDeviceNode>, target: TargetType) -> Option<NodeTarget> {
    match target {
        TargetType::Node(Some(t)) => if device_map.contains_key(t) {
            Some(NodeTarget::UnmanagedNode(t))
        } else {
            match first_with_pw_id(managed, t) {
                Some(u) => Some(NodeTarget::Node(u)),
                None => None,
            }
        },
        TargetType::Serial(Some(t)) => match first_device_with_serial(devices, t) {
            Some(k) => Some(NodeTarget::UnmanagedNode(k)),
            None => match first_with_serial(managed, t) {
                Some(u) => Some(NodeTarget::Node(u)),
                None => None,
            },
        },
        _ => None,
    }
}

pub open spec fn touch_clients() -> Touch {
    Touch { client_nodes: true, usable: true, events: true, ..touch_none() }
}

/// Whether `x` occurs in `v`.
pub fn vec_contains(v: &Vec<u32>, x: u32) -> (r: bool)
    ensures
        r == v@.contains(x),
{
    let mut i: usize = 0;
    while i < v.len()
        invariant
            i <= v@.len(),
            forall|j: int| 0 <= j < i ==> v@[j] != x,
        decreases v@.len() - i,
    {
        if v[i] == x {
            assert(v@[i as int] == x);
            return true;
        }
        i = i + 1;
    }
    false
}

impl Store {
    /// `self` is `o` after the port was recorded on the stream node (under
    /// `port_id`) and the node checked for announcement.
    pub open spec fn client_port_added(&self, o: &Store, node_id: u32, port_id: u32, dir: PortDirection,
        port: RegistryPort) -> bool {
        &&& o.unmanaged_client_nodes@.contains_key(node_id) ==> {
            let n = o.unmanaged_client_nodes@[node_id];
            let n2 = self.unmanaged_client_nodes@[node_id];
            &&& self.unmanaged_client_nodes@ == o.unmanaged_client_nodes@.insert(node_id, n2)
            &&& n2.ports_in@ == (if dir == PortDirection::In { n.ports_in@.insert(port_id, port) } else { n.ports_in@ })
            &&& n2.ports_out@ == (if dir == PortDirection::Out { n.ports_out@.insert(port_id, port) } else { n.ports_out@ })
            &&& n2 == (RegistryClientNode { ports_in: n2.ports_in, ports_out: n2.ports_out, ..n })
            &&& (self.usable_client_nodes@, self.events@) == check_step(o.unmanaged_clients@,
                self.unmanaged_client_nodes@, o.usable_client_nodes@, o.events@, node_id)
        }
        &&& !o.unmanaged_client_nodes@.contains_key(node_id) ==> {
            &&& self.unmanaged_client_nodes@ == o.unmanaged_client_nodes@
            &&& self.keeps(o, Touch { client_nodes: true, ..touch_none() })
        }
        &&& self.keeps(o, touch_clients())
    }

    pub fn unmanaged_client_add(&mut self, id: u32, client: RegistryClient)
        ensures
            final(self).unmanaged_clients@ == old(self).unmanaged_clients@.insert(id, client),
            final(self).keeps(old(self), Touch { clients: true, ..touch_none() }),
    {
        self.unmanaged_clients.insert(id, client);
    }

    pub fn unmanaged_client_get(&self, id: u32) -> (r: Option<&RegistryClient>)
        ensures
            r is Some == self.unmanaged_clients@.contains_key(id),
            r matches Some(c) ==> *c == self.unmanaged_clients@[id],
    {
        self.unmanaged_clients.get(&id)
    }

    pub fn unmanaged_client_remove(&mut self, id: u32)
        ensures
            final(self).unmanaged_clients@ == old(self).unmanaged_clients@.remove(id),
            final(self).keeps(old(self), Touch { clients: true, ..touch_none() }),
    {
        self.unmanaged_clients.remove(&id);
    }

    /// Adds a stream node to its client's node list (when the client is known).
    pub fn unmanaged_client_add_node(&mut self, client_id: u32, node_id: u32)
        ensures
            old(self).unmanaged_clients@.contains_key(client_id) ==> {
                let c = old(self).unmanaged_clients@[client_id];
                final(self).unmanaged_clients@ == old(self).unmanaged_clients@.insert(client_id,
                    RegistryClient { nodes: final(self).unmanaged_clients@[client_id].nodes, ..c })
                && final(self).unmanaged_clients@[client_id].nodes@ == c.nodes@.push(node_id)
            },
            !old(self).unmanaged_clients@.contains_key(client_id) ==> final(self).unmanaged_clients@
                == old(self).unmanaged_clients@,
            final(self).keeps(old(self), Touch { clients: true, ..touch_none() }),
    {
        if let Some(mut client) = self.unmanaged_clients.remove(&client_id) {
            client.add_node(node_id);
            let ghost c2 = client;
            self.unmanaged_clients.insert(client_id, client);
            assert(self.unmanaged_clients@ =~= old(self).unmanaged_clients@.insert(client_id, c2));
        } else {
            proof { assert(self.unmanaged_clients@ =~= old(self).unmanaged_clients@); }
        }
    }

    pub fn unmanaged_client_node_add(&mut self, id: u32, node: RegistryClientNode)
        ensures
            final(self).unmanaged_client_nodes@ == old(self).unmanaged_client_nodes@.insert(id, node),
            final(self).keeps(old(self), Touch { client_nodes: true, ..touch_none() }),
    {
        self.unmanaged_client_nodes.insert(id, node);
    }

    pub fn unmanaged_client_node_get(&self, id: u32) -> (r: Option<&RegistryClientNode>)
        ensures
            r is Some == self.unmanaged_client_nodes@.contains_key(id),
            r matches Some(n) ==> *n == self.unmanaged_client_nodes@[id],
    {
        self.unmanaged_client_nodes.get(&id)
    }

    /// The class a stream node can be announced as, if any.
    pub fn is_usable_unmanaged_client_node(&self, id: u32) -> (r: Option<MediaClass>)
        ensures
            r == (if self.unmanaged_client_nodes@.contains_key(id) {
                client_usable_class(self.unmanaged_clients@, self.unmanaged_client_nodes@[id])
            } else {
                None
            }),
    {
        let node = match self.unmanaged_client_nodes.get(&id) {
            Some(n) => n,
            None => return None,
        };
        if node.node_name.as_str().unicode_len() == 0 || node.application_name.as_str().unicode_len() == 0
            || node.is_running != Some(true) {
            return None;
        }
        match self.unmanaged_clients.get(&node.parent_id) {
            Some(parent) => {
                if parent.application_binary.is_none() {
                    return None;
                }
            },
            None => return None,
        }
        let (in_count, out_count) = node.channel_counts();
        crate::media::get_media_class(in_count, out_count)
    }

    /// Announces a stream node if it is usable, its client is known and it
    /// was not announced yet.
    pub fn unmanaged_client_node_check(&mut self, id: u32)
        ensures
            (final(self).usable_client_nodes@, final(self).events@) == check_step(old(self).unmanaged_clients@,
                old(self).unmanaged_client_nodes@, old(self).usable_client_nodes@, old(self).events@, id),
            final(self).keeps(old(self), Touch { usable: true, events: true, ..touch_none() }),
    {
        if vec_contains(&self.usable_client_nodes, id) {
            return;
        }
        let class = self.is_usable_unmanaged_client_node(id);
        let node = match self.unmanaged_client_nodes.get(&id) {
            Some(n) => n,
            None => return,
        };
        let class = match class {
            Some(c) => c,
            None => return,
        };
        let parent = match self.unmanaged_clients.get(&node.parent_id) {
            Some(p) => p,
            None => return,
        };
        let process_name = match &parent.application_binary {
            Some(b) => b.clone(),
            None => return,
        };
        let app = ApplicationNode {
            node_id: id,
            node_class: class,
            media_target: node.media_target,
            volume: node.volume,
            muted: node.is_muted,
            title: clone_opt_string(&node.media_title),
            process_name,
            name: node.application_name.clone(),
        };
        self.usable_client_nodes.push(id);
        self.events.push(PipewireReceiver::ApplicationAdded(app));
    }

    /// Records a port of a stream node and checks the node.
    pub fn unmanaged_client_node_add_port(&mut self, node_id: u32, port_id: u32, dir: PortDirection, port: RegistryPort)
        ensures
            final(self).client_port_added(old(self), node_id, port_id, dir, port),
    {
        let mut node = match self.unmanaged_client_nodes.remove(&node_id) {
            Some(n) => n,
            None => {
                proof { assert(self.unmanaged_client_nodes@ =~= old(self).unmanaged_client_nodes@); }
                return;
            },
        };
        node.add_port(port_id, dir, port);
        self.unmanaged_client_nodes.insert(node_id, node);
        self.unmanaged_client_node_check(node_id);
        assert(self.unmanaged_client_nodes@ =~= old(self).unmanaged_client_nodes@.insert(node_id,
            self.unmanaged_client_nodes@[node_id]));
    }

    /// The stream's volume changed; upstream hears of a change.
    pub fn unmanaged_client_node_set_volume(&mut self, id: u32, volume: u8)
        ensures
            ({
                let old_nodes = old(self).unmanaged_client_nodes@;
                if old_nodes.contains_key(id) && old_nodes[id].volume != volume {
                    &&& final(self).unmanaged_client_nodes@ == old_nodes.insert(id, RegistryClientNode { volume, ..old_nodes[id] })
                    &&& final(self).events@ == old(self).events@.push(PipewireReceiver::ApplicationVolumeChanged(id, volume))
                } else {
                    &&& final(self).unmanaged_client_nodes@ == old_nodes
                    &&& final(self).events@ == old(self).events@
                }
            }),
            final(self).keeps(old(self), Touch { client_nodes: true, events: true, ..touch_none() }),
    {
        if let Some(mut node) = self.unmanaged_client_nodes.remove(&id) {
            if node.volume != volume {
                node.volume = volume;
                self.events.push(PipewireReceiver::ApplicationVolumeChanged(id, volume));
            }
            let ghost n2 = node;
            self.unmanaged_client_nodes.insert(id, node);
            proof { assert(self.unmanaged_client_nodes@ =~= old(self).unmanaged_client_nodes@.insert(id, n2)); }
        } else {
            proof { assert(self.unmanaged_client_nodes@ =~= old(self).unmanaged_client_nodes@); }
        }
    }

    /// The stream's mute state changed; upstream hears of a change.
    pub fn unmanaged_client_node_set_mute(&mut self, id: u32, muted: bool)
        ensures
            ({
                let old_nodes = old(self).unmanaged_client_nodes@;
                if old_nodes.contains_key(id) && old_nodes[id].is_muted != muted {
                    &&& final(self).unmanaged_client_nodes@ == old_nodes.insert(id, RegistryClientNode { is_muted: muted, ..old_nodes[id] })
                    &&& final(self).events@ == old(self).events@.push(PipewireReceiver::ApplicationMuteChanged(id, muted))
                } else {
                    &&& final(self).unmanaged_client_nodes@ == old_nodes
                    &&& final(self).events@ == old(self).events@
                }
            }),
            final(self).keeps(old(self), Touch { client_nodes: true, events: true, ..touch_none() }),
    {
        if let Some(mut node) = self.unmanaged_client_nodes.remove(&id) {
            if node.is_muted != muted {
                node.is_muted = muted;
                self.events.push(PipewireReceiver::ApplicationMuteChanged(id, muted));
            }
            let ghost n2 = node;
            self.unmanaged_client_nodes.insert(id, node);
            proof { assert(self.unmanaged_client_nodes@ =~= old(self).unmanaged_client_nodes@.insert(id, n2)); }
        } else {
            proof { assert(self.unmanaged_client_nodes@ =~= old(self).unmanaged_client_nodes@); }
        }
    }

    /// The stream's media name changed. `AudioStream` (the generic name)
    /// clears the title silently; another name becomes the title, and a new
    /// title is reported.
    pub fn unmanaged_client_node_set_media(&mut self, id: u32, media: String)
        ensures
            ({
                let old_nodes = old(self).unmanaged_client_nodes@;
                let generic = media@ == "AudioStream"@;
                if !old_nodes.contains_key(id) || (old_nodes[id].media_title is None && generic) {
                    &&& final(self).unmanaged_client_nodes@ == old_nodes
                    &&& final(self).events@ == old(self).events@
                } else if generic {
                    &&& final(self).unmanaged_client_nodes@ == old_nodes.insert(id, RegistryClientNode { media_title: None, ..old_nodes[id] })
                    &&& final(self).events@ == old(self).events@
                } else if old_nodes[id].media_title is Some && old_nodes[id].media_title->0@ == media@ {
                    &&& final(self).unmanaged_client_nodes@ == old_nodes
                    &&& final(self).events@ == old(self).events@
                } else {
                    &&& final(self).unmanaged_client_nodes@ == old_nodes.insert(id, RegistryClientNode { media_title: Some(media), ..old_nodes[id] })
                    &&& final(self).events@ == old(self).events@.push(PipewireReceiver::ApplicationTitleChanged(id, media))
                }
            }),
            final(self).keeps(old(self), Touch { client_nodes: true, events: true, ..touch_none() }),
    {
        if let Some(mut node) = self.unmanaged_client_nodes.remove(&id) {
            let generic = str_eq(media.as_str(), "AudioStream");
            if node.media_title.is_none() && generic {
            } else if node.media_title.is_some() && generic {
                node.media_title = None;
            } else {
                let same = match &node.media_title {
                    Some(t) => *t == media,
                    None => false,
                };
                if !same {
                    let m2 = media.clone();
                    node.media_title = Some(media);
                    self.events.push(PipewireReceiver::ApplicationTitleChanged(id, m2));
                }
            }
            let ghost n2 = node;
            self.unmanaged_client_nodes.insert(id, node);
            proof {
                assert(self.unmanaged_client_nodes@ =~= old(self).unmanaged_client_nodes@.insert(id, n2));
                let n0 = old(self).unmanaged_client_nodes@[id];
                if n2 == n0 {
                    assert(self.unmanaged_client_nodes@ =~= old(self).unmanaged_client_nodes@);
                }
            }
        } else {
            proof { assert(self.unmanaged_client_nodes@ =~= old(self).unmanaged_client_nodes@); }
        }
    }
}

/// The nodes of a client without `id`, for every client.
pub open spec fn clients_without_node(old: Map<u32, RegistryClient>, new: Map<u32, RegistryClient>, id: u32) -> bool {
    &&& new.dom() == old.dom()
    &&& forall|k: u32| #[trigger] new.contains_key(k) ==> new[k] == (RegistryClient { nodes: new[k].nodes, ..old[k] })
        && new[k].nodes@ == old[k].nodes@.filter(not_id(id))
}

impl Store {
    /// `self` is `o` after the stream node `id` went away: withdrawn if it
    /// was announced, forgotten by the store and by every client.
    pub open spec fn client_node_removed(&self, o: &Store, id: u32) -> bool {
        &&& (o.usable_client_nodes@.contains(id) ==> {
            &&& self.events@ == o.events@.push(PipewireReceiver::ApplicationRemoved(id))
            &&& self.usable_client_nodes@ == o.usable_client_nodes@.filter(not_id(id))
        })
        &&& (!o.usable_client_nodes@.contains(id) ==> {
            &&& self.events@ == o.events@
            &&& self.usable_client_nodes@ == o.usable_client_nodes@
        })
        &&& self.unmanaged_client_nodes@ == o.unmanaged_client_nodes@.remove(id)
        &&& clients_without_node(o.unmanaged_clients@, self.unmanaged_clients@, id)
        &&& self.keeps(o, Touch { clients: true, client_nodes: true, usable: true, events: true, ..touch_none() })
    }
}

fn copy_ids(v: &Vec<u32>) -> (r: Vec<u32>)
    ensures
        r@ == v@,
{
    let mut out: Vec<u32> = Vec::new();
    let mut i: usize = 0;
    while i < v.len()
        invariant
            i <= v@.len(),
            out@ == v@.take(i as int),
        decreases v@.len() - i,
    {
        out.push(v[i]);
        assert(out@ =~= v@.take(i + 1));
        i = i + 1;
    }
    assert(v@.take(v@.len() as int) =~= v@);
    out
}

impl Store {
    /// `self` is `o` after metadata named the node the stream `id` plays
    /// to: the stream records it; if the stream was announced upstream
    /// hears of the new target, otherwise the stream is checked for
    /// announcement.
    pub open spec fn target_set(&self, o: &Store, id: u32, target: TargetType) -> bool {
        let result = resolve_target(o.managed_nodes.entries(), o.unmanaged_device_nodes.entries(),
            o.unmanaged_device_nodes@, target);
        let old_nodes = o.unmanaged_client_nodes@;
        &&& if old_nodes.contains_key(id) {
            let nodes2 = old_nodes.insert(id, RegistryClientNode { media_target: Some(result), ..old_nodes[id] });
            &&& self.unmanaged_client_nodes@ == nodes2
            &&& if o.usable_client_nodes@.contains(id) {
                &&& self.usable_client_nodes@ == o.usable_client_nodes@
                &&& self.events@ == o.events@.push(PipewireReceiver::ApplicationTargetChanged(id, result))
            } else {
                (self.usable_client_nodes@, self.events@) == check_step(o.unmanaged_clients@,
                    nodes2, o.usable_client_nodes@, o.events@, id)
            }
        } else {
            &&& self.unmanaged_client_nodes@ == old_nodes
            &&& self.usable_client_nodes@ == o.usable_client_nodes@
            &&& self.events@ == o.events@
        }
        &&& self.keeps(o, touch_clients())
    }

    /// The node a stream's target names (see `resolve_target`).
    pub fn resolve_node_target(&self, target: TargetType) -> (r: Option<NodeTarget>)
        ensures
            r == resolve_target(self.managed_nodes.entries(), self.unmanaged_device_nodes.entries(),
                self.unmanaged_device_nodes@, target),
    {
        match target {
            TargetType::Node(Some(t)) => {
                if self.unmanaged_device_nodes.contains_key(&t) {
                    Some(NodeTarget::UnmanagedNode(t))
                } else {
                    match self.managed_node_find_by_node_id(t) {
                        Some(u) => Some(NodeTarget::Node(u)),
                        None => None,
                    }
                }
            },
            TargetType::Serial(Some(t)) => {
                let n = self.unmanaged_device_nodes.len();
                let mut i: usize = 0;
                assert(self.unmanaged_device_nodes.entries().skip(0) =~= self.unmanaged_device_nodes.entries());
                while i < n
                    invariant
                        n == self.unmanaged_device_nodes.entries().len(),
                        i <= n,
                        target == TargetType::Serial(Some(t)),
                        first_device_with_serial(self.unmanaged_device_nodes.entries(), t)
                            == first_device_with_serial(self.unmanaged_device_nodes.entries().skip(i as int), t),
                    decreases n - i,
                {
                    let e = self.unmanaged_device_nodes.entry(i);
                    let ghost rest = self.unmanaged_device_nodes.entries().skip(i as int);
                    assert(rest[0] == *e);
                    assert(rest.drop_first() =~= self.unmanaged_device_nodes.entries().skip(i + 1));
                    if e.1.object_serial == t {
                        return Some(NodeTarget::UnmanagedNode(e.0));
                    }
                    i = i + 1;
                }
                let m = self.managed_nodes.len();
                let mut j: usize = 0;
                assert(self.managed_nodes.entries().skip(0) =~= self.managed_nodes.entries());
                while j < m
                    invariant
                        m == self.managed_nodes.entries().len(),
                        j <= m,
                        target == TargetType::Serial(Some(t)),
                        first_device_with_serial(self.unmanaged_device_nodes.entries(), t) is None,
                        first_with_serial(self.managed_nodes.entries(), t)
                            == first_with_serial(self.managed_nodes.entries().skip(j as int), t),
                    decreases m - j,
                {
                    let e = self.managed_nodes.entry(j);
                    let ghost rest = self.managed_nodes.entries().skip(j as int);
                    assert(rest[0] == *e);
                    assert(rest.drop_first() =~= self.managed_nodes.entries().skip(j + 1));
                    if e.1.object_serial == Some(t) {
                        return Some(NodeTarget::Node(e.0));
                    }
                    j = j + 1;
                }
                None
            },
            _ => None,
        }
    }

    /// Metadata named the node a stream plays to. The stream records it;
    /// if the stream was announced upstream hears of the new target,
    /// otherwise the stream is checked for announcement.
    pub fn unmanaged_client_node_set_target(&mut self, id: u32, target: TargetType)
        ensures
            final(self).target_set(old(self), id, target),
    {
        let result = self.resolve_node_target(target);
        if let Some(mut node) = self.unmanaged_client_nodes.remove(&id) {
            node.media_target = Some(result);
            let ghost n2 = node;
            self.unmanaged_client_nodes.insert(id, node);
            proof { assert(self.unmanaged_client_nodes@ =~= old(self).unmanaged_client_nodes@.insert(id, n2)); }
            if vec_contains(&self.usable_client_nodes, id) {
                self.events.push(PipewireReceiver::ApplicationTargetChanged(id, result));
            } else {
                self.unmanaged_client_node_check(id);
            }
        } else {
            proof { assert(self.unmanaged_client_nodes@ =~= old(self).unmanaged_client_nodes@); }
        }
    }

    /// Withdraws a stream from upstream: upstream hears it is gone, and it
    /// leaves the list of announced streams.
    pub fn unmanaged_client_clear_usable(&mut self, id: u32)
        ensures
            final(self).events@ == old(self).events@.push(PipewireReceiver::ApplicationRemoved(id)),
            final(self).usable_client_nodes@ == old(self).usable_client_nodes@.filter(not_id(id)),
            final(self).keeps(old(self), Touch { usable: true, events: true, ..touch_none() }),
    {
        self.events.push(PipewireReceiver::ApplicationRemoved(id));
        let kept = vec_without(&self.usable_client_nodes, id);
        self.usable_client_nodes = kept;
    }

    /// The stream started or stopped running. The first report, or a start,
    /// checks it for announcement; a stop withdraws it.
    pub fn unmanaged_client_node_set_state(&mut self, id: u32, running: bool)
        ensures
            ({
                let old_nodes = old(self).unmanaged_client_nodes@;
                if old_nodes.contains_key(id) && old_nodes[id].is_running != Some(running) {
                    let nodes2 = old_nodes.insert(id, RegistryClientNode { is_running: Some(running), ..old_nodes[id] });
                    &&& final(self).unmanaged_client_nodes@ == nodes2
                    &&& if old_nodes[id].is_running is None || running {
                        (final(self).usable_client_nodes@, final(self).events@) == check_step(old(self).unmanaged_clients@,
                            nodes2, old(self).usable_client_nodes@, old(self).events@, id)
                    } else {
                        &&& final(self).events@ == old(self).events@.push(PipewireReceiver::ApplicationRemoved(id))
                        &&& final(self).usable_client_nodes@ == old(self).usable_client_nodes@.filter(not_id(id))
                    }
                } else {
                    &&& final(self).unmanaged_client_nodes@ == old_nodes
                    &&& final(self).usable_client_nodes@ == old(self).usable_client_nodes@
                    &&& final(self).events@ == old(self).events@
                }
            }),
            final(self).keeps(old(self), touch_clients()),
    {
        let mut node = match self.unmanaged_client_nodes.remove(&id) {
            Some(n) => n,
            None => {
                proof { assert(self.unmanaged_client_nodes@ =~= old(self).unmanaged_client_nodes@); }
                return;
            },
        };
        let previous = node.is_running;
        if previous == Some(running) {
            self.unmanaged_client_nodes.insert(id, node);
            proof { assert(self.unmanaged_client_nodes@ =~= old(self).unmanaged_client_nodes@); }
            return;
        }
        node.is_running = Some(running);
        let ghost n2 = node;
        self.unmanaged_client_nodes.insert(id, node);
        proof { assert(self.unmanaged_client_nodes@ =~= old(self).unmanaged_client_nodes@.insert(id, n2)); }
        if previous.is_none() || running {
            self.unmanaged_client_node_check(id);
        } else {
            self.unmanaged_client_clear_usable(id);
        }
    }

    /// Removes `id` from the node list of every client.
    fn clients_forget_node(&mut self, id: u32)
        ensures
            clients_without_node(old(self).unmanaged_clients@, final(self).unmanaged_clients@, id),
            final(self).keeps(old(self), Touch { clients: true, ..touch_none() }),
    {
        let n = self.unmanaged_clients.len();
        let mut keys: Vec<u32> = Vec::new();
        let mut i: usize = 0;
        while i < n
            invariant
                n == self.unmanaged_clients.entries().len(),
                self.unmanaged_clients.walk_ok(),
                i <= n,
                keys@ == self.unmanaged_clients.entries().take(i as int).map_values(|e: (u32, RegistryClient)| e.0),
            decreases n - i,
        {
            let k = self.unmanaged_clients.key_at(i);
            keys.push(k);
            assert(keys@ =~= self.unmanaged_clients.entries().take(i + 1).map_values(|e: (u32, RegistryClient)| e.0));
            i = i + 1;
        }
        assert(self.unmanaged_clients.entries().take(n as int) =~= self.unmanaged_clients.entries());
        let ghost all = self.unmanaged_clients.entries();
        let ghost old_cl = self.unmanaged_clients@;
        proof {
            assert forall|a: int, b: int| 0 <= a < keys@.len() && 0 <= b < keys@.len() && a != b implies keys@[a] != keys@[b] by {
                assert(keys@[a] == all[a].0);
                assert(keys@[b] == all[b].0);
            }
            assert forall|k: u32| #[trigger] old_cl.contains_key(k) implies keys@.contains(k) by {
                let j = choose|j: int| 0 <= j < all.len() && all[j].0 == k;
                assert(keys@[j] == k);
            }
        }
        let mut j: usize = 0;
        while j < keys.len()
            invariant
                j <= keys@.len(),
                forall|a: int, b: int| 0 <= a < keys@.len() && 0 <= b < keys@.len() && a != b ==> keys@[a] != keys@[b],
                forall|a: int| 0 <= a < keys@.len() ==> old_cl.contains_key(#[trigger] keys@[a]),
                forall|k: u32| #[trigger] old_cl.contains_key(k) ==> keys@.contains(k),
                self.unmanaged_clients@.dom() == old_cl.dom(),
                forall|k: u32| #[trigger] self.unmanaged_clients@.contains_key(k) ==> {
                    let c = self.unmanaged_clients@[k];
                    let o = old_cl[k];
                    &&& (keys@.take(j as int).contains(k) ==> c.nodes@ == o.nodes@.filter(not_id(id)))
                    &&& (!keys@.take(j as int).contains(k) ==> c.nodes@ == o.nodes@)
                    &&& c == (RegistryClient { nodes: c.nodes, ..o })
                },
                self.keeps(old(self), Touch { clients: true, ..touch_none() }),
            decreases keys@.len() - j,
        {
            let k = keys[j];
            assert(self.unmanaged_clients@.contains_key(k));
            let mut client = self.unmanaged_clients.remove(&k).unwrap();
            let nodes = vec_without(&client.nodes, id);
            client.nodes = nodes;
            self.unmanaged_clients.insert(k, client);
            proof {
                let t1 = keys@.take(j + 1);
                let t0 = keys@.take(j as int);
                assert forall|x: u32| #[trigger] t1.contains(x) == (t0.contains(x) || x == k) by {
                    if t1.contains(x) {
                        let a = choose|a: int| 0 <= a < t1.len() && t1[a] == x;
                        if a < j { assert(t0[a] == x); }
                    }
                    if t0.contains(x) {
                        let a = choose|a: int| 0 <= a < t0.len() && t0[a] == x;
                        assert(t1[a] == x);
                    }
                    if x == k { assert(t1[j as int] == x); }
                }
                assert(!t0.contains(k)) by {
                    if t0.contains(k) {
                        let a = choose|a: int| 0 <= a < t0.len() && t0[a] == k;
                        assert(keys@[a] == keys@[j as int]);
                    }
                }
                assert(self.unmanaged_clients@.dom() =~= old_cl.dom());
            }
            j = j + 1;
        }
        proof {
            assert(keys@.take(keys@.len() as int) =~= keys@);
            assert(old_cl == old(self).unmanaged_clients@);
            assert forall|k: u32| #[trigger] self.unmanaged_clients@.contains_key(k) implies
                self.unmanaged_clients@[k].nodes@ == old_cl[k].nodes@.filter(not_id(id)) by {
                assert(old_cl.contains_key(k));
                assert(keys@.contains(k));
                assert(keys@.take(j as int).contains(k));
            }
        }
    }

    /// A stream node went away: it is withdrawn if it was announced, and
    /// forgotten by the store and by every client.
    pub fn unmanaged_client_node_remove(&mut self, id: u32)
        ensures
            final(self).client_node_removed(old(self), id),
    {
        if vec_contains(&self.usable_client_nodes, id) {
            self.events.push(PipewireReceiver::ApplicationRemoved(id));
            let kept = vec_without(&self.usable_client_nodes, id);
            self.usable_client_nodes = kept;
        }
        self.unmanaged_client_nodes.remove(&id);
        self.clients_forget_node(id);
    }

    /// A client's program binary became known: every stream node it lists
    /// is checked for announcement, in list order.
    pub fn unmanaged_client_set_binary(&mut self, id: u32, name: String)
        ensures
            old(self).unmanaged_clients@.contains_key(id) ==> {
                let c = old(self).unmanaged_clients@[id];
                let clients2 = old(self).unmanaged_clients@.insert(id, RegistryClient { application_binary: Some(name), ..c });
                &&& final(self).unmanaged_clients@ == clients2
                &&& (final(self).usable_client_nodes@, final(self).events@) == check_fold(clients2,
                    old(self).unmanaged_client_nodes@, old(self).usable_client_nodes@, old(self).events@, c.nodes@)
            },
            !old(self).unmanaged_clients@.contains_key(id) ==> {
                &&& final(self).unmanaged_clients@ == old(self).unmanaged_clients@
                &&& final(self).usable_client_nodes@ == old(self).usable_client_nodes@
                &&& final(self).events@ == old(self).events@
            },
            final(self).keeps(old(self), Touch { clients: true, usable: true, events: true, ..touch_none() }),
    {
        let nodes = match self.unmanaged_clients.remove(&id) {
            Some(mut client) => {
                client.application_binary = Some(name);
                let nodes = copy_ids(&client.nodes);
                let ghost c2 = client;
                self.unmanaged_clients.insert(id, client);
                proof { assert(self.unmanaged_clients@ =~= old(self).unmanaged_clients@.insert(id, c2)); }
                nodes
            },
            None => {
                proof { assert(self.unmanaged_clients@ =~= old(self).unmanaged_clients@); }
                Vec::new()
            },
        };
        let ghost clients2 = self.unmanaged_clients@;
        let ghost cnodes = self.unmanaged_client_nodes@;
        let ghost u0 = self.usable_client_nodes@;
        let ghost e0 = self.events@;
        let mut i: usize = 0;
        assert(nodes@.take(0) =~= Seq::<u32>::empty());
        while i < nodes.len()
            invariant
                i <= nodes@.len(),
                clients2 == self.unmanaged_clients@,
                cnodes == self.unmanaged_client_nodes@,
                (self.usable_client_nodes@, self.events@) == check_fold(clients2, cnodes, u0, e0, nodes@.take(i as int)),
                self.keeps(old(self), Touch { clients: true, usable: true, events: true, ..touch_none() }),
            decreases nodes@.len() - i,
        {
            let node_id = nodes[i];
            assert(nodes@.take(i + 1).drop_last() =~= nodes@.take(i as int));
            self.unmanaged_client_node_check(node_id);
            i = i + 1;
        }
        assert(nodes@.take(nodes@.len() as int) =~= nodes@);
    }
}

} // verus!
