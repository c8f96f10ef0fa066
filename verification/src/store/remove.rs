//! PipeWire only says that an id went away, never what kind of object it
//! was; the removal looks through every collection in turn and hands the
//! id to the first one that holds it.

use vstd::prelude::*;
use super::{ManagedLink, Store, Touch, touch_none};
use super::devices::{port_removed_step, touch_device_nodes};
use super::links::first_link_with_pw;
use crate::events::PipewireReceiver;
use crate::id_map::entries_without;
use crate::registry::RegistryDeviceNode;
use crate::shared::PortDirection;

verus! {

/// Drops the first managed link (walk order) one of whose channels is
/// `pw_id`, telling upstream: the links, their walk and the events after.
pub open spec fn drop_link_with_pw(links: Map<u128, ManagedLink>, walk: Seq<(u128, ManagedLink)>,
    events: Seq<PipewireReceiver>, pw_id: u32) -> (Map<u128, ManagedLink>, Seq<(u128, ManagedLink)>, Seq<PipewireReceiver>) {
    match first_link_with_pw(walk, pw_id) {
        Some(k) => (
            links.remove(k),
            entries_without(walk, k),
            events.push(PipewireReceiver::ManagedLinkDropped(links[k].source, links[k].destination)),
        ),
        None => (links, walk, events),
    }
}

/// The device node sides (walk order, input before output) holding the
/// port `port`.
pub open spec fn port_owners(s: Seq<(u32, RegistryDeviceNode)>, port: u32) -> Seq<(u32, PortDirection)>
    decreases s.len(),
{
    if s.len() == 0 {
        Seq::empty()
    } else {
        let rest = port_owners(s.drop_last(), port);
        let (id, n) = s.last();
        let with_in = if n.ports_in@.contains_key(port) { rest.push((id, PortDirection::In)) } else { rest };
        if n.ports_out@.contains_key(port) { with_in.push((id, PortDirection::Out)) } else { with_in }
    }
}

/// The device nodes and events `b` after the port went away from each
/// side in `plan`, one after another, starting from `a`.
pub open spec fn ports_removed(a_nodes: Map<u32, RegistryDeviceNode>, a_events: Seq<PipewireReceiver>,
    b_nodes: Map<u32, RegistryDeviceNode>, b_events: Seq<PipewireReceiver>, plan: Seq<(u32, PortDirection)>, port: u32) -> bool
    decreases plan.len(),
{
    if plan.len() == 0 {
        b_nodes == a_nodes && b_events == a_events
    } else {
        exists|m_nodes: Map<u32, RegistryDeviceNode>, m_events: Seq<PipewireReceiver>| {
            &&& ports_removed(a_nodes, a_events, m_nodes, m_events, plan.drop_last(), port)
            &&& #[trigger] port_removed_step(m_nodes, m_events, b_nodes, b_events, plan.last().0, plan.last().1, port)
        }
    }
}

impl Store {
    /// The sides of device nodes holding the port, in walk order.
    fn port_owner_list(&self, port: u32) -> (r: Vec<(u32, PortDirection)>)
        ensures
            r@ == port_owners(self.unmanaged_device_nodes.entries(), port),
    {
        let n = self.unmanaged_device_nodes.len();
        let ghost all = self.unmanaged_device_nodes.entries();
        let mut out: Vec<(u32, PortDirection)> = Vec::new();
        let mut i: usize = 0;
        while i < n
            invariant
                n == all.len(),
                all == self.unmanaged_device_nodes.entries(),
                i <= n,
                out@ == port_owners(all.take(i as int), port),
            decreases n - i,
        {
            let e = self.unmanaged_device_nodes.entry(i);
            assert(all.take(i + 1).drop_last() =~= all.take(i as int));
            assert(all.take(i + 1).last() == all[i as int]);
            if e.1.ports_in.contains_key(&port) {
                out.push((e.0, PortDirection::In));
            }
            if e.1.ports_out.contains_key(&port) {
                out.push((e.0, PortDirection::Out));
            }
            i = i + 1;
        }
        assert(all.take(n as int) =~= all);
        out
    }

    /// Drops the first managed link with a channel bound to `pw_id`, if any,
    /// and tells upstream.
    fn drop_managed_link(&mut self, pw_id: u32)
        ensures
            (final(self).managed_links@, final(self).managed_links.entries(), final(self).events@)
                == drop_link_with_pw(old(self).managed_links@, old(self).managed_links.entries(), old(self).events@, pw_id),
            final(self).keeps(old(self), Touch { managed_links: true, events: true, ..touch_none() }),
    {
        if let Some(k) = self.is_managed_link(pw_id) {
            let removed = self.managed_links.remove(&k);
            match removed {
                Some(link) => {
                    self.events.push(PipewireReceiver::ManagedLinkDropped(link.source, link.destination));
                },
                None => {},
            }
        }
    }

    /// An object went away. The first collection holding the id (devices,
    /// device nodes, clients, stream nodes, unmanaged links) forgets it.
    /// Otherwise a managed link with a channel of that id is dropped (twice
    /// over, should two share it) and upstream told, and the port is taken
    /// from every device node side holding it.
    pub fn remove_by_id(&mut self, id: u32)
        ensures
            if old(self).unmanaged_devices@.contains_key(id) {
                &&& final(self).unmanaged_devices@ == old(self).unmanaged_devices@.remove(id)
                &&& final(self).keeps(old(self), Touch { devices: true, ..touch_none() })
            } else if old(self).unmanaged_device_nodes@.contains_key(id) {
                final(self).device_node_removed(old(self), id)
            } else if old(self).unmanaged_clients@.contains_key(id) {
                &&& final(self).unmanaged_clients@ == old(self).unmanaged_clients@.remove(id)
                &&& final(self).keeps(old(self), Touch { clients: true, ..touch_none() })
            } else if old(self).unmanaged_client_nodes@.contains_key(id) {
                final(self).client_node_removed(old(self), id)
            } else if old(self).unmanaged_links@.contains_key(id) {
                &&& final(self).unmanaged_links@ == old(self).unmanaged_links@.remove(id)
                &&& final(self).keeps(old(self), Touch { unmanaged_links: true, ..touch_none() })
            } else {
                let (l1, w1, e1) = drop_link_with_pw(old(self).managed_links@, old(self).managed_links.entries(),
                    old(self).events@, id);
                let (l2, w2, e2) = drop_link_with_pw(l1, w1, e1, id);
                &&& final(self).managed_links@ == l2
                &&& ports_removed(old(self).unmanaged_device_nodes@, e2, final(self).unmanaged_device_nodes@,
                    final(self).events@, port_owners(old(self).unmanaged_device_nodes.entries(), id), id)
                &&& final(self).keeps(old(self), Touch { managed_links: true, device_nodes: true, events: true, ..touch_none() })
            },
    {
        if self.unmanaged_devices.contains_key(&id) {
            return self.unmanaged_device_remove(id);
        }
        if self.unmanaged_device_nodes.contains_key(&id) {
            return self.unmanaged_device_node_remove(id);
        }
        if self.unmanaged_clients.contains_key(&id) {
            return self.unmanaged_client_remove(id);
        }
        if self.unmanaged_client_nodes.contains_key(&id) {
            return self.unmanaged_client_node_remove(id);
        }
        if self.unmanaged_links.contains_key(&id) {
            return self.unmanaged_link_remove(id);
        }
        self.drop_managed_link(id);
        self.drop_managed_link(id);
        let plan = self.port_owner_list(id);
        let ghost n0 = self.unmanaged_device_nodes@;
        let ghost e0 = self.events@;
        let ghost mid = *self;
        let mut i: usize = 0;
        assert(plan@.take(0) =~= Seq::<(u32, PortDirection)>::empty());
        while i < plan.len()
            invariant
                i <= plan@.len(),
                ports_removed(n0, e0, self.unmanaged_device_nodes@, self.events@, plan@.take(i as int), id),
                self.keeps(&mid, touch_device_nodes()),
            decreases plan@.len() - i,
        {
            let (node_id, dir) = plan[i];
            let ghost before_nodes = self.unmanaged_device_nodes@;
            let ghost before_events = self.events@;
            self.unmanaged_node_port_removed(node_id, dir, id);
            proof {
                let t = plan@.take(i + 1);
                assert(t.drop_last() =~= plan@.take(i as int));
                assert(t.last() == plan@[i as int]);
                assert(port_removed_step(before_nodes, before_events, self.unmanaged_device_nodes@, self.events@,
                    t.last().0, t.last().1, id));
            }
            i = i + 1;
        }
        assert(plan@.take(plan@.len() as int) =~= plan@);
    }
}

} // verus!
