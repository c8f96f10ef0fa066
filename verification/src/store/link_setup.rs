//! Working out which ports a new managed link connects, and which links
//! PipeWire already has between those ports and must lose first.

use vstd::prelude::*;
use super::{ManagedLink, ManagedLinkMap, Store, Touch, touch_none};
use super::links::{LinkFilter, kept_links};
use crate::events::LinkType;
use crate::id_map::IdMap;
use crate::registry::{RegistryDeviceNode, RegistryLink, RegistryPort, PortLocation, port_location_of};
use crate::shared::PortDirection;

verus! {

/// Why the ports of a link endpoint cannot be found.
#[derive(Debug, Clone, Copy, PartialEq, Eq, Structural)]
pub enum LinkError {
    /// No managed node has this id.
    NodeNotFound,
    /// No device node has this id.
    UnmanagedNodeNotFound,
    /// The device node has no port for the channel asked for.
    NeitherStereoNorMono,
}

impl LinkError {
    pub fn message(&self) -> (r: &'static str)
        ensures
            r@ == (match *self {
                LinkError::NodeNotFound => "Unable to Locate Node"@,
                LinkError::UnmanagedNodeNotFound => "Unmanaged Device Node not Found"@,
                LinkError::NeitherStereoNorMono => "Requested Unmanaged Node is Neither Stereo or Mono"@,
            }),
    {
        match self {
            LinkError::NodeNotFound => "Unable to Locate Node",
            LinkError::UnmanagedNodeNotFound => "Unmanaged Device Node not Found",
            LinkError::NeitherStereoNorMono => "Requested Unmanaged Node is Neither Stereo or Mono",
        }
    }
}

/// The first port (walk order) whose channel names the location.
pub open spec fn first_port_at(s: Seq<(u32, RegistryPort)>, loc: PortLocation) -> Option<u32>
    decreases s.len(),
{
    if s.len() == 0 {
        None
    } else if port_location_of(s[0].1.channel@) == Some(loc) {
        Some(s[0].0)
    } else {
        first_port_at(s.drop_first(), loc)
    }
}

pub open spec fn port_entries(n: RegistryDeviceNode, dir: PortDirection) -> Seq<(u32, RegistryPort)> {
    match dir {
        PortDirection::In => n.ports_in.entries(),
        PortDirection::Out => n.ports_out.entries(),
    }
}

/// The port of a device node carrying a location: its only port when it
/// has one, else the first whose channel names the location.
pub open spec fn device_port_at(n: RegistryDeviceNode, dir: PortDirection, loc: PortLocation) -> Option<u32> {
    let s = port_entries(n, dir);
    if s.len() == 1 {
        Some(s[0].0)
    } else {
        first_port_at(s, loc)
    }
}

/// One port asked for: an endpoint, the side of it, the channel.
pub type PortQuery = (LinkType, PortDirection, PortLocation);

/// The four ports a link asks for, in the order they are looked up.
pub open spec fn link_queries(source: LinkType, dest: LinkType) -> Seq<PortQuery> {
    seq![
        (source, PortDirection::Out, PortLocation::Left),
        (dest, PortDirection::In, PortLocation::Left),
        (source, PortDirection::Out, PortLocation::Right),
        (dest, PortDirection::In, PortLocation::Right),
    ]
}

impl Store {
    /// Looking the port up cannot fail on a missing value that our own
    /// objects are expected to hold: a managed node that exists is bound
    /// and has the port, a managed filter exists and is bound.
    pub open spec fn port_lookup_ok(&self, q: PortQuery) -> bool {
        let (link, dir, loc) = q;
        match link {
            LinkType::Node(id) => self.managed_nodes@.contains_key(id) ==> {
                let n = self.managed_nodes@[id];
                &&& n.pw_id is Some
                &&& (match loc {
                    PortLocation::Left => n.port_left is Some,
                    PortLocation::Right => n.port_right is Some,
                })
            },
            LinkType::Filter(id) => {
                &&& self.managed_filters@.contains_key(id)
                &&& self.managed_filters@[id].pw_id is Some
            },
            LinkType::UnmanagedNode(_) => true,
        }
    }

    /// The node and port a query resolves to.
    pub open spec fn port_of(&self, q: PortQuery) -> Result<(u32, u32), LinkError> {
        let (link, dir, loc) = q;
        match link {
            LinkType::Node(id) => if !self.managed_nodes@.contains_key(id) {
                Err(LinkError::NodeNotFound)
            } else {
                let n = self.managed_nodes@[id];
                Ok((n.pw_id->0, match loc {
                    PortLocation::Left => n.port_left->0,
                    PortLocation::Right => n.port_right->0,
                }))
            },
            LinkType::Filter(id) => {
                let f = self.managed_filters@[id];
                Ok((f.pw_id->0, match (dir, loc) {
                    (PortDirection::In, PortLocation::Left) => f.port_in_left,
                    (PortDirection::In, PortLocation::Right) => f.port_in_right,
                    (PortDirection::Out, PortLocation::Left) => f.port_out_left,
                    (PortDirection::Out, PortLocation::Right) => f.port_out_right,
                }))
            },
            LinkType::UnmanagedNode(id) => if !self.unmanaged_device_nodes@.contains_key(id) {
                Err(LinkError::UnmanagedNodeNotFound)
            } else {
                match device_port_at(self.unmanaged_device_nodes@[id], dir, loc) {
                    Some(p) => Ok((id, p)),
                    None => Err(LinkError::NeitherStereoNorMono),
                }
            },
        }
    }

    /// The queries run in order, each one that runs being safe to run;
    /// the first failure stops them.
    pub open spec fn queries_ok(&self, qs: Seq<PortQuery>) -> bool
        decreases qs.len(),
    {
        qs.len() == 0 || (self.port_lookup_ok(qs[0]) && (self.port_of(qs[0]) is Err || self.queries_ok(qs.drop_first())))
    }

    /// The first failure among the queries, in order.
    pub open spec fn first_query_error(&self, qs: Seq<PortQuery>) -> Option<LinkError>
        decreases qs.len(),
    {
        if qs.len() == 0 {
            None
        } else if self.port_of(qs[0]) is Err {
            Some(self.port_of(qs[0])->Err_0)
        } else {
            self.first_query_error(qs.drop_first())
        }
    }
}

/// A link PipeWire has between one of the two port pairs.
pub open spec fn joins_pair(l: RegistryLink, left: (u32, u32), right: (u32, u32)) -> bool {
    (l.output_port == left.0 && l.input_port == left.1) || (l.output_port == right.0 && l.input_port == right.1)
}

/// The ids (walk order) of the links that join one of the pairs.
pub open spec fn links_joining(s: Seq<(u32, RegistryLink)>, left: (u32, u32), right: (u32, u32)) -> Seq<u32>
    decreases s.len(),
{
    if s.len() == 0 {
        Seq::empty()
    } else {
        let rest = links_joining(s.drop_last(), left, right);
        if joins_pair(s.last().1, left, right) { rest.push(s.last().0) } else { rest }
    }
}

pub open spec fn links_apart(m: Map<u32, RegistryLink>, left: (u32, u32), right: (u32, u32)) -> Map<u32, RegistryLink> {
    Map::new(|k: u32| m.contains_key(k) && !joins_pair(m[k], left, right), |k: u32| m[k])
}

pub open spec fn new_channel(id: u128, src: (u32, u32), dst: (u32, u32)) -> ManagedLinkMap {
    ManagedLinkMap {
        pw_id: None,
        internal_id: id,
        pending_seq_id: None,
        source_node: src.0,
        source_port: src.1,
        destination_node: dst.0,
        destination_port: dst.1,
    }
}

fn port_at(ports: &IdMap<u32, RegistryPort>, loc: PortLocation) -> (r: Option<u32>)
    ensures
        r == (if ports.entries().len() == 1 { Some(ports.entries()[0].0) } else { first_port_at(ports.entries(), loc) }),
{
    let n = ports.len();
    if n == 1 {
        return Some(ports.key_at(0));
    }
    let mut i: usize = 0;
    assert(ports.entries().skip(0) =~= ports.entries());
    while i < n
        invariant
            n == ports.entries().len(),
            n != 1,
            i <= n,
            first_port_at(ports.entries(), loc) == first_port_at(ports.entries().skip(i as int), loc),
        decreases n - i,
    {
        let e = ports.entry(i);
        let ghost rest = ports.entries().skip(i as int);
        assert(rest[0] == *e);
        assert(rest.drop_first() =~= ports.entries().skip(i + 1));
        if let Ok(found) = PortLocation::from_str(e.1.channel.as_str()) {
            if found == loc {
                return Some(e.0);
            }
        }
        i = i + 1;
    }
    None
}

/// A filter of ours is linked through its own ports: each side and
/// channel resolves to the filter's bound node and the port of that same
/// side and channel.
pub proof fn law_filter_ports_by_side_and_channel(s: Store, id: u128)
    requires
        s.managed_filters@.contains_key(id),
        s.managed_filters@[id].pw_id is Some,
    ensures
        ({
            let f = s.managed_filters@[id];
            let pw = f.pw_id->0;
            &&& s.port_of((LinkType::Filter(id), PortDirection::In, PortLocation::Left)) == Ok::<(u32, u32), LinkError>((pw, f.port_in_left))
            &&& s.port_of((LinkType::Filter(id), PortDirection::In, PortLocation::Right)) == Ok::<(u32, u32), LinkError>((pw, f.port_in_right))
            &&& s.port_of((LinkType::Filter(id), PortDirection::Out, PortLocation::Left)) == Ok::<(u32, u32), LinkError>((pw, f.port_out_left))
            &&& s.port_of((LinkType::Filter(id), PortDirection::Out, PortLocation::Right)) == Ok::<(u32, u32), LinkError>((pw, f.port_out_right))
        }),
{
}

/// A node of ours is linked through its left port for the left channel and
/// its right port for the right one, on either side.
pub proof fn law_node_ports_by_channel(s: Store, id: u128, dir: PortDirection)
    requires
        s.managed_nodes@.contains_key(id),
        s.managed_nodes@[id].pw_id is Some,
        s.managed_nodes@[id].port_left is Some,
        s.managed_nodes@[id].port_right is Some,
    ensures
        ({
            let n = s.managed_nodes@[id];
            &&& s.port_of((LinkType::Node(id), dir, PortLocation::Left)) == Ok::<(u32, u32), LinkError>((n.pw_id->0, n.port_left->0))
            &&& s.port_of((LinkType::Node(id), dir, PortLocation::Right)) == Ok::<(u32, u32), LinkError>((n.pw_id->0, n.port_right->0))
        }),
{
}

impl Store {
    /// The PipeWire node and port index that one channel of a link
    /// endpoint uses on one side.
    pub fn get_port(&self, link: LinkType, direction: PortDirection, location: PortLocation) -> (r: Result<(u32, u32), LinkError>)
        requires
            self.port_lookup_ok((link, direction, location)),
        ensures
            r == self.port_of((link, direction, location)),
    {
        match link {
            LinkType::Node(id) => {
                let node = match self.managed_node_get(id) {
                    Some(n) => n,
                    None => return Err(LinkError::NodeNotFound),
                };
                let pw = node.pw_id.unwrap();
                let port = match location {
                    PortLocation::Left => node.port_left.unwrap(),
                    PortLocation::Right => node.port_right.unwrap(),
                };
                Ok((pw, port))
            },
            LinkType::Filter(id) => {
                let filter = self.managed_filter_get(id).unwrap();
                let pw = filter.pw_id.unwrap();
                let port = match (direction, location) {
                    (PortDirection::In, PortLocation::Left) => filter.port_in_left,
                    (PortDirection::In, PortLocation::Right) => filter.port_in_right,
                    (PortDirection::Out, PortLocation::Left) => filter.port_out_left,
                    (PortDirection::Out, PortLocation::Right) => filter.port_out_right,
                };
                Ok((pw, port))
            },
            LinkType::UnmanagedNode(id) => {
                let node = match self.unmanaged_device_node_get(id) {
                    Some(n) => n,
                    None => return Err(LinkError::UnmanagedNodeNotFound),
                };
                let found = match direction {
                    PortDirection::In => port_at(&node.ports_in, location),
                    PortDirection::Out => port_at(&node.ports_out, location),
                };
                match found {
                    Some(p) => Ok((id, p)),
                    None => Err(LinkError::NeitherStereoNorMono),
                }
            },
        }
    }

    fn lookup_ok(&self, link: LinkType, loc: PortLocation) -> (r: bool)
        ensures
            forall|dir: PortDirection| r == #[trigger] self.port_lookup_ok((link, dir, loc)),
    {
        match link {
            LinkType::Node(id) => match self.managed_node_get(id) {
                Some(n) => n.pw_id.is_some() && match loc {
                    PortLocation::Left => n.port_left.is_some(),
                    PortLocation::Right => n.port_right.is_some(),
                },
                None => true,
            },
            LinkType::Filter(id) => match self.managed_filter_get(id) {
                Some(f) => f.pw_id.is_some(),
                None => false,
            },
            LinkType::UnmanagedNode(_) => true,
        }
    }

    /// Whether preparing a link from `source` to `dest` would stop on one
    /// of our own nodes or filters lacking its PipeWire id or a port (or on
    /// a filter that does not exist).
    pub fn link_ports_missing(&self, source: LinkType, dest: LinkType) -> (r: bool)
        ensures
            r == !self.queries_ok(link_queries(source, dest)),
    {
        let ghost qs = link_queries(source, dest);
        proof {
            assert(qs.drop_first() =~= seq![qs[1], qs[2], qs[3]]);
            assert(qs.drop_first().drop_first() =~= seq![qs[2], qs[3]]);
            assert(qs.drop_first().drop_first().drop_first() =~= seq![qs[3]]);
            assert(qs.drop_first().drop_first().drop_first().drop_first() =~= Seq::<PortQuery>::empty());
            reveal_with_fuel(Store::queries_ok, 5);
        }
        if !self.lookup_ok(source, PortLocation::Left) {
            return true;
        }
        if self.get_port(source, PortDirection::Out, PortLocation::Left).is_err() {
            return false;
        }
        if !self.lookup_ok(dest, PortLocation::Left) {
            return true;
        }
        if self.get_port(dest, PortDirection::In, PortLocation::Left).is_err() {
            return false;
        }
        if !self.lookup_ok(source, PortLocation::Right) {
            return true;
        }
        if self.get_port(source, PortDirection::Out, PortLocation::Right).is_err() {
            return false;
        }
        !self.lookup_ok(dest, PortLocation::Right)
    }

    /// Forgets, and hands back the ids of, the unmanaged links joining one
    /// of the two port pairs (output port, input port).
    fn take_links_joining(&mut self, left: (u32, u32), right: (u32, u32)) -> (r: Vec<u32>)
        ensures
            r@ == links_joining(old(self).unmanaged_links.entries(), left, right),
            final(self).unmanaged_links@ == links_apart(old(self).unmanaged_links@, left, right),
            final(self).keeps(old(self), Touch { unmanaged_links: true, ..touch_none() }),
    {
        let n = self.unmanaged_links.len();
        let ghost all = self.unmanaged_links.entries();
        let ghost m = self.unmanaged_links@;
        let mut kept: IdMap<u32, RegistryLink> = IdMap::new();
        let mut out: Vec<u32> = Vec::new();
        let mut i: usize = 0;
        while i < n
            invariant
                n == all.len(),
                all == self.unmanaged_links.entries(),
                m == self.unmanaged_links@,
                self.unmanaged_links.walk_ok(),
                i <= n,
                out@ == links_joining(all.take(i as int), left, right),
                forall|k: u32| #[trigger] kept@.contains_key(k) ==> m.contains_key(k) && !joins_pair(m[k], left, right)
                    && kept@[k] == m[k] && exists|j: int| 0 <= j < i && all[j].0 == k,
                forall|j: int| 0 <= j < i && !joins_pair(#[trigger] all[j].1, left, right) ==> kept@.contains_key(all[j].0),
            decreases n - i,
        {
            let e = self.unmanaged_links.entry(i);
            let k = e.0;
            let l = e.1;
            assert(all.take(i + 1).drop_last() =~= all.take(i as int));
            if (l.output_port == left.0 && l.input_port == left.1) || (l.output_port == right.0 && l.input_port == right.1) {
                out.push(k);
            } else {
                kept.insert(k, l);
            }
            i = i + 1;
        }
        proof {
            assert(all.take(n as int) =~= all);
            assert forall|k: u32| #[trigger] m.contains_key(k) && !joins_pair(m[k], left, right) implies kept@.contains_key(k) by {
                let j = choose|j: int| 0 <= j < all.len() && all[j].0 == k;
                assert(all[j].1 == m[k]);
            }
            assert(kept@ =~= links_apart(m, left, right));
        }
        self.unmanaged_links = kept;
        out
    }

    /// Prepares a stereo link from `source` to `dest`: drops any managed
    /// link between them, finds the four ports, forgets the unmanaged links
    /// already joining those ports (their ids are handed back, for PipeWire
    /// to destroy) and builds the new group, whose channels get the ids
    /// given, waiting for its caller.
    pub fn prepare_links(&mut self, source: LinkType, dest: LinkType, left_id: u128, right_id: u128)
        -> (r: Result<(ManagedLink, Vec<u32>), LinkError>)
        requires
            old(self).queries_ok(link_queries(source, dest)),
        ensures
            final(self).managed_links@ == kept_links(old(self).managed_links@, LinkFilter::Pair(source, dest)),
            r is Err <==> old(self).first_query_error(link_queries(source, dest)) is Some,
            r matches Err(e) ==> old(self).first_query_error(link_queries(source, dest)) == Some(e)
                && final(self).keeps(old(self), Touch { managed_links: true, ..touch_none() }),
            r matches Ok((group, destroyed)) ==> {
                let src_l = old(self).port_of((source, PortDirection::Out, PortLocation::Left))->Ok_0;
                let dst_l = old(self).port_of((dest, PortDirection::In, PortLocation::Left))->Ok_0;
                let src_r = old(self).port_of((source, PortDirection::Out, PortLocation::Right))->Ok_0;
                let dst_r = old(self).port_of((dest, PortDirection::In, PortLocation::Right))->Ok_0;
                &&& group == ManagedLink {
                    source,
                    destination: dest,
                    left: Some(new_channel(left_id, src_l, dst_l)),
                    right: Some(new_channel(right_id, src_r, dst_r)),
                    ready_sender: true,
                }
                &&& destroyed@ == links_joining(old(self).unmanaged_links.entries(), (src_l.1, dst_l.1), (src_r.1, dst_r.1))
                &&& final(self).unmanaged_links@ == links_apart(old(self).unmanaged_links@, (src_l.1, dst_l.1), (src_r.1, dst_r.1))
                &&& final(self).keeps(old(self), Touch { managed_links: true, unmanaged_links: true, ..touch_none() })
            },
    {
        let ghost qs = link_queries(source, dest);
        let ghost s0 = *old(self);
        self.managed_link_remove(source, dest);
        proof {
            assert(qs.drop_first() =~= seq![qs[1], qs[2], qs[3]]);
            assert(qs.drop_first().drop_first() =~= seq![qs[2], qs[3]]);
            assert(qs.drop_first().drop_first().drop_first() =~= seq![qs[3]]);
            assert(qs.drop_first().drop_first().drop_first().drop_first() =~= Seq::<PortQuery>::empty());
            assert(self.port_of(qs[0]) == s0.port_of(qs[0]));
            assert(self.port_of(qs[1]) == s0.port_of(qs[1]));
            assert(self.port_of(qs[2]) == s0.port_of(qs[2]));
            assert(self.port_of(qs[3]) == s0.port_of(qs[3]));
            assert(self.port_lookup_ok(qs[0]) == s0.port_lookup_ok(qs[0]));
            assert(self.port_lookup_ok(qs[1]) == s0.port_lookup_ok(qs[1]));
            assert(self.port_lookup_ok(qs[2]) == s0.port_lookup_ok(qs[2]));
            assert(self.port_lookup_ok(qs[3]) == s0.port_lookup_ok(qs[3]));
            reveal_with_fuel(Store::queries_ok, 5);
            reveal_with_fuel(Store::first_query_error, 5);
        }
        let src_l = match self.get_port(source, PortDirection::Out, PortLocation::Left) {
            Ok(p) => p,
            Err(e) => return Err(e),
        };
        let dst_l = match self.get_port(dest, PortDirection::In, PortLocation::Left) {
            Ok(p) => p,
            Err(e) => return Err(e),
        };
        let src_r = match self.get_port(source, PortDirection::Out, PortLocation::Right) {
            Ok(p) => p,
            Err(e) => return Err(e),
        };
        let dst_r = match self.get_port(dest, PortDirection::In, PortLocation::Right) {
            Ok(p) => p,
            Err(e) => return Err(e),
        };
        let destroyed = self.take_links_joining((src_l.1, dst_l.1), (src_r.1, dst_r.1));
        let group = ManagedLink {
            source,
            destination: dest,
            left: Some(ManagedLinkMap {
                pw_id: None,
                internal_id: left_id,
                pending_seq_id: None,
                source_node: src_l.0,
                source_port: src_l.1,
                destination_node: dst_l.0,
                destination_port: dst_l.1,
            }),
            right: Some(ManagedLinkMap {
                pw_id: None,
                internal_id: right_id,
                pending_seq_id: None,
                source_node: src_r.0,
                source_port: src_r.1,
                destination_node: dst_r.0,
                destination_port: dst_r.1,
            }),
            ready_sender: true,
        };
        Ok((group, destroyed))
    }

    /// Drops the managed link from `source` to `destination`.
    pub fn remove_link(&mut self, source: LinkType, destination: LinkType)
        ensures
            final(self).managed_links@ == kept_links(old(self).managed_links@, LinkFilter::Pair(source, destination)),
            final(self).keeps(old(self), Touch { managed_links: true, ..touch_none() }),
    {
        self.managed_link_remove(source, destination);
    }
}

impl ManagedLink {
    /// The channel to create first: the left one if there is one.
    pub fn first_channel(&self) -> (r: Option<ManagedLinkMap>)
        ensures
            r == (if self.left is Some { self.left } else { self.right }),
    {
        match self.left {
            Some(c) => Some(c),
            None => self.right,
        }
    }
}

} // verus!
