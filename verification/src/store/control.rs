//! Requests from the daemon that act on nodes: volume, mute and the node an
//! application plays to. The store decides what is to be set where; the
//! PipeWire layer sends it.

use vstd::prelude::*;
use super::Store;
use super::defaults::MetadataWrite;
use crate::registry::{ActiveRoute, RegistryDevice, RegistryDeviceNode, RegistryLink};
use crate::text::{decimal_of, decimal_string};

verus! {

/// Why a request on a node cannot be carried out.
#[derive(Debug, Clone, Copy, PartialEq, Eq, Structural)]
pub enum NodeRequestError {
    /// No device node has this id.
    NodeNotFound,
    /// No node of ours, or no stream, has this id.
    FailedToFindNode,
    /// The node to play to is not one of ours.
    TargetNotFound,
}

impl NodeRequestError {
    pub fn message(&self) -> (r: &'static str)
        ensures
            r@ == (match *self {
                NodeRequestError::NodeNotFound => "Node not found"@,
                NodeRequestError::FailedToFindNode => "Failed to find node"@,
                NodeRequestError::TargetNotFound => "Target Not Found"@,
            }),
    {
        match self {
            NodeRequestError::NodeNotFound => "Node not found",
            NodeRequestError::FailedToFindNode => "Failed to find node",
            NodeRequestError::TargetNotFound => "Target Not Found",
        }
    }
}

/// Where a device node's volume or mute is set: on the node itself, or on
/// the route of its parent device that the node plays through.
#[derive(Debug, Clone, Copy, PartialEq, Eq, Structural)]
pub enum ParamTarget {
    Node(u32),
    Route { device: u32, route_device: u32, route: ActiveRoute },
}

/// Where a request on the device node `n` goes: a node without a known
/// parent device takes it itself; otherwise the parent's active route for
/// the node's profile port takes it, and without one nothing does.
pub open spec fn param_target(devices: Map<u32, RegistryDevice>, id: u32, n: RegistryDeviceNode) -> Option<ParamTarget> {
    if n.parent_id is None || !devices.contains_key(n.parent_id->0) {
        Some(ParamTarget::Node(id))
    } else {
        let parent = devices[n.parent_id->0];
        match n.spec_profile_port() {
            Some(port) => if parent.active_routes@.contains_key(port) {
                Some(ParamTarget::Route { device: n.parent_id->0, route_device: port, route: parent.active_routes@[port] })
            } else {
                None
            },
            None => None,
        }
    }
}

/// The ids (walk order) of the links that enter or leave the node.
pub open spec fn links_of_node(s: Seq<(u32, RegistryLink)>, node: u32) -> Seq<u32>
    decreases s.len(),
{
    if s.len() == 0 {
        Seq::empty()
    } else {
        let rest = links_of_node(s.drop_last(), node);
        if s.last().1.input_node == node || s.last().1.output_node == node { rest.push(s.last().0) } else { rest }
    }
}

pub open spec fn id_write(subject: u32, key: Seq<char>, value: Seq<char>, w: MetadataWrite) -> bool {
    w.subject == subject && w.key@ == key && w.value_type@ == "Spa:Id"@ && w.value@ == value
}

fn id_metadata_write(subject: u32, key: &str, value: String) -> (w: MetadataWrite)
    ensures
        id_write(subject, key@, value@, w),
{
    MetadataWrite { subject, key: key.to_owned(), value_type: "Spa:Id".to_owned(), value }
}

impl Store {
    /// Where the device node's volume or mute goes (see `param_target`).
    fn device_node_param_target(&self, id: u32) -> (r: Result<Option<ParamTarget>, NodeRequestError>)
        ensures
            !self.unmanaged_device_nodes@.contains_key(id) ==> r == Err::<Option<ParamTarget>, NodeRequestError>(
                NodeRequestError::NodeNotFound),
            self.unmanaged_device_nodes@.contains_key(id) ==> r == Ok::<Option<ParamTarget>, NodeRequestError>(
                param_target(self.unmanaged_devices@, id, self.unmanaged_device_nodes@[id])),
    {
        let node = match self.unmanaged_device_node_get(id) {
            Some(n) => n,
            None => return Err(NodeRequestError::NodeNotFound),
        };
        let parent_id = match node.parent_id {
            Some(p) => p,
            None => return Ok(Some(ParamTarget::Node(id))),
        };
        let parent = match self.unmanaged_device_get(parent_id) {
            Some(d) => d,
            None => return Ok(Some(ParamTarget::Node(id))),
        };
        let port = match node.profile_port() {
            Some(p) => p,
            None => return Ok(None),
        };
        match parent.active_routes.get(&port) {
            Some(route) => Ok(Some(ParamTarget::Route { device: parent_id, route_device: port, route: *route })),
            None => Ok(None),
        }
    }

    /// Where the device node's volume is to be set (nowhere when the node
    /// plays through no known route); an unknown node is refused.
    pub fn unmanaged_node_set_volume(&self, id: u32, volume: u8) -> (r: Result<Option<ParamTarget>, NodeRequestError>)
        ensures
            !self.unmanaged_device_nodes@.contains_key(id) ==> r == Err::<Option<ParamTarget>, NodeRequestError>(
                NodeRequestError::NodeNotFound),
            self.unmanaged_device_nodes@.contains_key(id) ==> r == Ok::<Option<ParamTarget>, NodeRequestError>(
                param_target(self.unmanaged_devices@, id, self.unmanaged_device_nodes@[id])),
    {
        self.device_node_param_target(id)
    }

    /// Where the device node's mute state is to be set (see
    /// `unmanaged_node_set_volume`).
    pub fn unmanaged_node_set_mute(&self, id: u32, muted: bool) -> (r: Result<Option<ParamTarget>, NodeRequestError>)
        ensures
            !self.unmanaged_device_nodes@.contains_key(id) ==> r == Err::<Option<ParamTarget>, NodeRequestError>(
                NodeRequestError::NodeNotFound),
            self.unmanaged_device_nodes@.contains_key(id) ==> r == Ok::<Option<ParamTarget>, NodeRequestError>(
                param_target(self.unmanaged_devices@, id, self.unmanaged_device_nodes@[id])),
    {
        self.device_node_param_target(id)
    }

    /// A volume for one of our nodes: refused when we have no such node.
    pub fn set_volume(&self, id: u128, volume: u8) -> (r: Result<(), NodeRequestError>)
        ensures
            r is Ok <==> self.managed_nodes@.contains_key(id),
            r matches Err(e) ==> e == NodeRequestError::FailedToFindNode,
    {
        if self.managed_nodes.contains_key(&id) { Ok(()) } else { Err(NodeRequestError::FailedToFindNode) }
    }

    /// A mute state for one of our nodes: refused when we have no such node.
    pub fn set_mute(&self, id: u128, muted: bool) -> (r: Result<(), NodeRequestError>)
        ensures
            r is Ok <==> self.managed_nodes@.contains_key(id),
            r matches Err(e) ==> e == NodeRequestError::FailedToFindNode,
    {
        if self.managed_nodes.contains_key(&id) { Ok(()) } else { Err(NodeRequestError::FailedToFindNode) }
    }

    /// A volume for a stream: refused when there is no such stream.
    pub fn set_application_volume(&self, id: u32, volume: u8) -> (r: Result<(), NodeRequestError>)
        ensures
            r is Ok <==> self.unmanaged_client_nodes@.contains_key(id),
            r matches Err(e) ==> e == NodeRequestError::FailedToFindNode,
    {
        if self.unmanaged_client_nodes.contains_key(&id) { Ok(()) } else { Err(NodeRequestError::FailedToFindNode) }
    }

    /// A mute state for a stream: refused when there is no such stream.
    pub fn set_application_muted(&self, id: u32, muted: bool) -> (r: Result<(), NodeRequestError>)
        ensures
            r is Ok <==> self.unmanaged_client_nodes@.contains_key(id),
            r matches Err(e) ==> e == NodeRequestError::FailedToFindNode,
    {
        if self.unmanaged_client_nodes.contains_key(&id) { Ok(()) } else { Err(NodeRequestError::FailedToFindNode) }
    }

    /// The session metadata writes that make a stream play to one of our
    /// nodes: its node id under `target.node`, then its serial under
    /// `target.object`, each only when known. Nothing is written without
    /// the session metadata; an unknown node is refused.
    pub fn set_application_target(&self, app_id: u32, target: u128) -> (r: Result<Vec<MetadataWrite>, NodeRequestError>)
        ensures
            !self.managed_nodes@.contains_key(target) ==> r == Err::<Vec<MetadataWrite>, NodeRequestError>(
                NodeRequestError::TargetNotFound),
            self.managed_nodes@.contains_key(target) ==> (r matches Ok(ws) && {
                let n = self.managed_nodes@[target];
                if !self.has_session_proxy {
                    ws@.len() == 0
                } else {
                    let k = if n.pw_id is Some { 1int } else { 0int };
                    &&& ws@.len() == k + (if n.object_serial is Some { 1int } else { 0int })
                    &&& n.pw_id matches Some(p) ==> id_write(app_id, "target.node"@, decimal_of(p as nat), ws@[0])
                    &&& n.object_serial matches Some(s) ==> id_write(app_id, "target.object"@, decimal_of(s as nat), ws@[k])
                }
            }),
    {
        let node = match self.managed_node_get(target) {
            Some(n) => n,
            None => return Err(NodeRequestError::TargetNotFound),
        };
        let mut writes: Vec<MetadataWrite> = Vec::new();
        if !self.has_session_proxy {
            return Ok(writes);
        }
        if let Some(pw_id) = node.pw_id {
            writes.push(id_metadata_write(app_id, "target.node", decimal_string(pw_id)));
        }
        if let Some(serial) = node.object_serial {
            writes.push(id_metadata_write(app_id, "target.object", decimal_string(serial)));
        }
        Ok(writes)
    }

    /// The session metadata writes that send a stream back to the default:
    /// `-1` under `target.node`, then under `target.object`; nothing
    /// without the session metadata.
    pub fn clear_application_target(&self, app_id: u32) -> (r: Vec<MetadataWrite>)
        ensures
            !self.has_session_proxy ==> r@.len() == 0,
            self.has_session_proxy ==> r@.len() == 2 && id_write(app_id, "target.node"@, "-1"@, r@[0])
                && id_write(app_id, "target.object"@, "-1"@, r@[1]),
    {
        let mut writes: Vec<MetadataWrite> = Vec::new();
        if !self.has_session_proxy {
            return writes;
        }
        writes.push(id_metadata_write(app_id, "target.node", "-1".to_owned()));
        writes.push(id_metadata_write(app_id, "target.object", "-1".to_owned()));
        writes
    }

    /// The links PipeWire owns that enter or leave the node, for PipeWire
    /// to destroy.
    pub fn remove_all_unmanaged_links(&self, node: u32) -> (r: Vec<u32>)
        ensures
            r@ == links_of_node(self.unmanaged_links.entries(), node),
    {
        let n = self.unmanaged_links.len();
        let ghost all = self.unmanaged_links.entries();
        let mut out: Vec<u32> = Vec::new();
        let mut i: usize = 0;
        while i < n
            invariant
                n == all.len(),
                all == self.unmanaged_links.entries(),
                i <= n,
                out@ == links_of_node(all.take(i as int), node),
            decreases n - i,
        {
            let e = self.unmanaged_links.entry(i);
            assert(all.take(i + 1).drop_last() =~= all.take(i as int));
            if e.1.input_node == node || e.1.output_node == node {
                out.push(e.0);
            }
            i = i + 1;
        }
        assert(all.take(n as int) =~= all);
        out
    }
}

} // verus!
