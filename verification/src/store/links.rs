//! Links we create. A managed link is a pair of per-channel PipeWire links
//! (left and right); they are created one after another while the group
//! waits among the pending syncs, and the group is ready once both
//! channels are bound to PipeWire ids.

use vstd::prelude::*;
use super::{ManagedLink, ManagedLinkMap, PendingLinkSync, ReadySignal, Store, Touch, touch_none};
use super::managed::push_signal_if;
use crate::events::{LinkType, PipewireReceiver};
use crate::id_map::IdMap;

verus! {

/// Which managed links a removal keeps.
#[derive(Debug, Clone, Copy, PartialEq, Eq, Structural)]
pub enum LinkFilter {
    /// Drop the links from the first endpoint to the second.
    Pair(LinkType, LinkType),
    /// Drop every link from or to the endpoint.
    Touching(LinkType),
}

pub open spec fn keeps_link(f: LinkFilter, l: ManagedLink) -> bool {
    match f {
        LinkFilter::Pair(s, d) => l.source != s || l.destination != d,
        LinkFilter::Touching(t) => l.source != t && l.destination != t,
    }
}

pub open spec fn kept_links(m: Map<u128, ManagedLink>, f: LinkFilter) -> Map<u128, ManagedLink> {
    Map::new(|k: u128| m.contains_key(k) && keeps_link(f, m[k]), |k: u128| m[k])
}

pub open spec fn channel_has_pw(c: Option<ManagedLinkMap>, pw_id: u32) -> bool {
    c is Some && c->0.pw_id == Some(pw_id)
}

/// The first managed link (walk order) one of whose channels PipeWire
/// knows by `pw_id`.
pub open spec fn first_link_with_pw(s: Seq<(u128, ManagedLink)>, pw_id: u32) -> Option<u128>
    decreases s.len(),
{
    if s.len() == 0 {
        None
    } else if channel_has_pw(s[0].1.left, pw_id) || channel_has_pw(s[0].1.right, pw_id) {
        Some(s[0].0)
    } else {
        first_link_with_pw(s.drop_first(), pw_id)
    }
}

pub proof fn lemma_first_link_with_pw(s: Seq<(u128, ManagedLink)>, pw_id: u32)
    ensures
        first_link_with_pw(s, pw_id) matches Some(k) ==> exists|i: int| 0 <= i < s.len() && s[i].0 == k,
    decreases s.len(),
{
    if s.len() > 0 {
        lemma_first_link_with_pw(s.drop_first(), pw_id);
        if first_link_with_pw(s, pw_id) is Some && !(channel_has_pw(s[0].1.left, pw_id) || channel_has_pw(s[0].1.right, pw_id)) {
            let j = choose|j: int| 0 <= j < s.drop_first().len() && s.drop_first()[j].0 == first_link_with_pw(s, pw_id)->0;
            assert(s[j + 1] == s.drop_first()[j]);
        }
    }
}

/// A link is ready once a caller waits, both channels exist and both are
/// bound; the caller is then told, once.
pub open spec fn after_link_ready_check(l: ManagedLink) -> (ManagedLink, bool) {
    if l.ready_sender && l.left is Some && l.right is Some && l.left->0.pw_id is Some && l.right->0.pw_id is Some {
        (ManagedLink { ready_sender: false, ..l }, true)
    } else {
        (l, false)
    }
}

/// A managed link is reported ready only once both of its channels are
/// bound, and only once: checking again reports nothing.
pub proof fn law_link_ready_once(l: ManagedLink)
    ensures
        after_link_ready_check(l).1 ==> l.left is Some && l.right is Some
            && l.left->0.pw_id is Some && l.right->0.pw_id is Some,
        !after_link_ready_check(after_link_ready_check(l).0).1,
{
}

/// Binds the channel with this id (left first) to a PipeWire id; also
/// says which PipeWire id stops being an unmanaged link.
pub open spec fn bind_channel(l: ManagedLink, link_id: u128, pw_id: u32) -> (ManagedLink, bool) {
    if l.left is Some && l.left->0.internal_id == link_id {
        (ManagedLink { left: Some(ManagedLinkMap { pw_id: Some(pw_id), ..l.left->0 }), ..l }, true)
    } else if l.right is Some && l.right->0.internal_id == link_id {
        (ManagedLink { right: Some(ManagedLinkMap { pw_id: Some(pw_id), ..l.right->0 }), ..l }, true)
    } else {
        (l, false)
    }
}

/// The bound PipeWire ids applied to the channels of a finished group.
pub open spec fn apply_bound(l: ManagedLink, bound: Map<u128, u32>) -> ManagedLink {
    ManagedLink {
        left: match l.left {
            Some(c) => if bound.contains_key(c.internal_id) {
                Some(ManagedLinkMap { pw_id: Some(bound[c.internal_id]), ..c })
            } else {
                Some(c)
            },
            None => None,
        },
        right: match l.right {
            Some(c) => if bound.contains_key(c.internal_id) {
                Some(ManagedLinkMap { pw_id: Some(bound[c.internal_id]), ..c })
            } else {
                Some(c)
            },
            None => None,
        },
        ..l
    }
}

pub open spec fn channel_waits_on(c: Option<ManagedLinkMap>, seq: i32) -> bool {
    c is Some && c->0.pending_seq_id == Some(seq)
}

pub open spec fn group_waits_on(p: PendingLinkSync, seq: i32) -> bool {
    channel_waits_on(p.group.left, seq) || channel_waits_on(p.group.right, seq)
}

/// The first pending group (in order) waiting on this sync.
pub open spec fn first_pending_on(s: Seq<PendingLinkSync>, seq: i32) -> Option<int> {
    if exists|i: int| 0 <= i < s.len() && group_waits_on(s[i], seq) {
        Some(choose|i: int| 0 <= i < s.len() && group_waits_on(s[i], seq)
            && forall|j: int| 0 <= j < i ==> !group_waits_on(s[j], seq))
    } else {
        None
    }
}

/// The first pending group (in order) created for this parent.
pub open spec fn first_pending_for(s: Seq<PendingLinkSync>, parent: u128) -> Option<int> {
    if exists|i: int| 0 <= i < s.len() && s[i].parent_id == parent {
        Some(choose|i: int| 0 <= i < s.len() && s[i].parent_id == parent
            && forall|j: int| 0 <= j < i ==> s[j].parent_id != parent)
    } else {
        None
    }
}

pub open spec fn channel_is(c: Option<ManagedLinkMap>, link_id: u128) -> bool {
    c is Some && c->0.internal_id == link_id
}

pub open spec fn group_has_channel(p: PendingLinkSync, parent: u128, link_id: u128) -> bool {
    p.parent_id == parent && (channel_is(p.group.left, link_id) || channel_is(p.group.right, link_id))
}

/// The first pending group (in order) of this parent holding this channel.
pub open spec fn first_pending_with(s: Seq<PendingLinkSync>, parent: u128, link_id: u128) -> Option<int> {
    if exists|i: int| 0 <= i < s.len() && group_has_channel(s[i], parent, link_id) {
        Some(choose|i: int| 0 <= i < s.len() && group_has_channel(s[i], parent, link_id)
            && forall|j: int| 0 <= j < i ==> !group_has_channel(s[j], parent, link_id))
    } else {
        None
    }
}

/// The same pending group with `f` applied to its link.
pub open spec fn same_pending_except_group(a: PendingLinkSync, b: PendingLinkSync) -> bool {
    a.parent_id == b.parent_id && a.bound_ids@ == b.bound_ids@
}

proof fn lemma_first_index<A>(s: Seq<A>, p: spec_fn(A) -> bool, i: int)
    requires
        0 <= i < s.len(),
        p(s[i]),
        forall|j: int| 0 <= j < i ==> !p(s[j]),
    ensures
        forall|k: int| #![trigger s[k]] 0 <= k < s.len() && p(s[k]) && (forall|j: int| 0 <= j < k ==> !p(s[j])) ==> k == i,
{
    assert forall|k: int| #![trigger s[k]] 0 <= k < s.len() && p(s[k]) && (forall|j: int| 0 <= j < k ==> !p(s[j])) implies k == i by {
        if k < i {
            assert(!p(s[k]));
        } else if k > i {
            assert(!p(s[i]));
        }
    }
}

impl Store {
    /// Our link one of whose channels PipeWire knows by `id` (the first in
    /// walk order).
    pub fn is_managed_link(&self, id: u32) -> (r: Option<u128>)
        ensures
            r == first_link_with_pw(self.managed_links.entries(), id),
            r matches Some(k) ==> self.managed_links@.contains_key(k),
    {
        let n = self.managed_links.len();
        let mut i: usize = 0;
        assert(self.managed_links.entries().skip(0) =~= self.managed_links.entries());
        proof { lemma_first_link_with_pw(self.managed_links.entries(), id); }
        while i < n
            invariant
                n == self.managed_links.entries().len(),
                self.managed_links.walk_ok(),
                i <= n,
                first_link_with_pw(self.managed_links.entries(), id)
                    == first_link_with_pw(self.managed_links.entries().skip(i as int), id),
            decreases n - i,
        {
            let e = self.managed_links.entry(i);
            let ghost rest = self.managed_links.entries().skip(i as int);
            assert(rest[0] == *e);
            assert(rest.drop_first() =~= self.managed_links.entries().skip(i + 1));
            let l = &e.1;
            let left = match &l.left {
                Some(c) => c.pw_id == Some(id),
                None => false,
            };
            let right = match &l.right {
                Some(c) => c.pw_id == Some(id),
                None => false,
            };
            if left || right {
                return Some(e.0);
            }
            i = i + 1;
        }
        None
    }

    pub fn managed_link_add(&mut self, id: u128, group: ManagedLink)
        ensures
            final(self).managed_links@ == old(self).managed_links@.insert(id, group),
            final(self).keeps(old(self), Touch { managed_links: true, ..touch_none() }),
    {
        self.managed_links.insert(id, group);
    }

    /// Keeps only the managed links the filter keeps.
    pub fn managed_link_retain(&mut self, filter: LinkFilter)
        ensures
            final(self).managed_links@ == kept_links(old(self).managed_links@, filter),
            final(self).keeps(old(self), Touch { managed_links: true, ..touch_none() }),
    {
        let n = self.managed_links.len();
        let mut kept: IdMap<u128, ManagedLink> = IdMap::new();
        let ghost all = self.managed_links.entries();
        let ghost m = self.managed_links@;
        let mut i: usize = 0;
        while i < n
            invariant
                n == all.len(),
                all == self.managed_links.entries(),
                m == self.managed_links@,
                self.managed_links.walk_ok(),
                i <= n,
                forall|k: u128| #[trigger] kept@.contains_key(k) ==> m.contains_key(k) && keeps_link(filter, m[k])
                    && kept@[k] == m[k] && exists|j: int| 0 <= j < i && all[j].0 == k,
                forall|j: int| 0 <= j < i && keeps_link(filter, #[trigger] all[j].1) ==> kept@.contains_key(all[j].0),
            decreases n - i,
        {
            let e = self.managed_links.entry(i);
            let k = e.0;
            let l = e.1;
            let keep = match filter {
                LinkFilter::Pair(s, d) => l.source != s || l.destination != d,
                LinkFilter::Touching(t) => l.source != t && l.destination != t,
            };
            if keep {
                kept.insert(k, l);
            }
            i = i + 1;
        }
        proof {
            assert forall|k: u128| #[trigger] m.contains_key(k) && keeps_link(filter, m[k]) implies kept@.contains_key(k) by {
                let j = choose|j: int| 0 <= j < all.len() && all[j].0 == k;
                assert(all[j].1 == m[k]);
            }
            assert(kept@ =~= kept_links(m, filter));
        }
        self.managed_links = kept;
    }

    /// Drops the managed links from `source` to `destination`.
    pub fn managed_link_remove(&mut self, source: LinkType, destination: LinkType)
        ensures
            final(self).managed_links@ == kept_links(old(self).managed_links@, LinkFilter::Pair(source, destination)),
            final(self).keeps(old(self), Touch { managed_links: true, ..touch_none() }),
    {
        self.managed_link_retain(LinkFilter::Pair(source, destination));
    }

    /// Drops every managed link from or to `id`.
    pub fn managed_link_remove_for_type(&mut self, id: LinkType)
        ensures
            final(self).managed_links@ == kept_links(old(self).managed_links@, LinkFilter::Touching(id)),
            final(self).keeps(old(self), Touch { managed_links: true, ..touch_none() }),
    {
        self.managed_link_retain(LinkFilter::Touching(id));
    }

    /// Forgets one of our filters and every managed link from or to it.
    pub fn managed_filter_remove(&mut self, filter: u128)
        ensures
            final(self).managed_links@ == kept_links(old(self).managed_links@, LinkFilter::Touching(LinkType::Filter(filter))),
            final(self).managed_filters@ == old(self).managed_filters@.remove(filter),
            final(self).keeps(old(self), Touch { managed_links: true, managed_filters: true, ..touch_none() }),
    {
        self.managed_link_remove_for_type(LinkType::Filter(filter));
        self.managed_filters.remove(&filter);
    }

    /// Tells the waiting caller once the link is ready.
    pub fn managed_link_ready_check(&mut self, id: u128)
        ensures
            old(self).managed_links@.contains_key(id) ==> {
                let (l, fire) = after_link_ready_check(old(self).managed_links@[id]);
                &&& final(self).managed_links@ == old(self).managed_links@.insert(id, l)
                &&& final(self).signals@ == push_signal_if(old(self).signals@, fire, ReadySignal::Link(id))
            },
            !old(self).managed_links@.contains_key(id) ==> final(self).managed_links@ == old(self).managed_links@
                && final(self).signals@ == old(self).signals@,
            final(self).keeps(old(self), Touch { managed_links: true, signals: true, ..touch_none() }),
    {
        let mut link = match self.managed_links.get(&id) {
            Some(l) => *l,
            None => return,
        };
        if !link.ready_sender {
            self.managed_links.insert(id, link);
            proof { assert(self.managed_links@ =~= old(self).managed_links@.insert(id, link)); }
            return;
        }
        let configured = link.left.is_some() && link.right.is_some();
        let bound = match (&link.left, &link.right) {
            (Some(l), Some(r)) => l.pw_id.is_some() && r.pw_id.is_some(),
            _ => false,
        };
        if configured && bound {
            link.ready_sender = false;
            self.signals.push(ReadySignal::Link(id));
        }
        self.managed_links.insert(id, link);
    }

    /// Starts waiting for the channels of a new link group.
    pub fn add_pending_link(&mut self, parent_id: u128, group: ManagedLink)
        ensures
            final(self).pending_link_syncs@.len() == old(self).pending_link_syncs@.len() + 1,
            final(self).pending_link_syncs@.drop_last() == old(self).pending_link_syncs@,
            final(self).pending_link_syncs@.last().parent_id == parent_id,
            final(self).pending_link_syncs@.last().group == group,
            final(self).pending_link_syncs@.last().bound_ids@ == Map::<u128, u32>::empty(),
            final(self).keeps(old(self), Touch { pending: true, ..touch_none() }),
            final(self).pending_device_syncs == old(self).pending_device_syncs,
            final(self).pending_filter_syncs == old(self).pending_filter_syncs,
    {
        self.pending_link_syncs.push(PendingLinkSync { parent_id, group, bound_ids: IdMap::new() });
        assert(self.pending_link_syncs@.drop_last() =~= old(self).pending_link_syncs@);
    }

    fn pending_index_for(&self, parent: u128) -> (r: Option<usize>)
        ensures
            r matches Some(i) ==> first_pending_for(self.pending_link_syncs@, parent) == Some(i as int),
            r matches Some(i) ==> i < self.pending_link_syncs@.len(),
            r is None ==> first_pending_for(self.pending_link_syncs@, parent) is None,
    {
        let ghost s = self.pending_link_syncs@;
        let mut i: usize = 0;
        while i < self.pending_link_syncs.len()
            invariant
                s == self.pending_link_syncs@,
                i <= s.len(),
                forall|j: int| 0 <= j < i ==> s[j].parent_id != parent,
            decreases s.len() - i,
        {
            if self.pending_link_syncs[i].parent_id == parent {
                proof {
                    let p = |x: PendingLinkSync| x.parent_id == parent;
                    lemma_first_index(s, p, i as int);
                    let c = choose|c: int| 0 <= c < s.len() && s[c].parent_id == parent
                        && forall|j: int| 0 <= j < c ==> s[j].parent_id != parent;
                    assert(p(s[c]));
                }
                return Some(i);
            }
            i = i + 1;
        }
        None
    }

    fn get_pending_link_index_by_seq(&self, seq: i32) -> (r: Option<usize>)
        ensures
            r matches Some(i) ==> first_pending_on(self.pending_link_syncs@, seq) == Some(i as int),
            r matches Some(i) ==> i < self.pending_link_syncs@.len(),
            r is None ==> first_pending_on(self.pending_link_syncs@, seq) is None,
    {
        let ghost s = self.pending_link_syncs@;
        let mut i: usize = 0;
        while i < self.pending_link_syncs.len()
            invariant
                s == self.pending_link_syncs@,
                i <= s.len(),
                forall|j: int| 0 <= j < i ==> !group_waits_on(s[j], seq),
            decreases s.len() - i,
        {
            let g = &self.pending_link_syncs[i].group;
            let on_left = match &g.left {
                Some(c) => c.pending_seq_id == Some(seq),
                None => false,
            };
            let on_right = match &g.right {
                Some(c) => c.pending_seq_id == Some(seq),
                None => false,
            };
            if on_left || on_right {
                proof {
                    let p = |x: PendingLinkSync| group_waits_on(x, seq);
                    lemma_first_index(s, p, i as int);
                    let c = choose|c: int| 0 <= c < s.len() && group_waits_on(s[c], seq)
                        && forall|j: int| 0 <= j < c ==> !group_waits_on(s[j], seq);
                    assert(p(s[c]));
                }
                return Some(i);
            }
            i = i + 1;
        }
        None
    }

    /// The parent of the pending group waiting on this sync, if any.
    pub fn get_pending_link_parent_id_by_seq(&self, seq: i32) -> (r: Option<u128>)
        ensures
            r == (match first_pending_on(self.pending_link_syncs@, seq) {
                Some(i) => Some(self.pending_link_syncs@[i].parent_id),
                None => None,
            }),
    {
        match self.get_pending_link_index_by_seq(seq) {
            Some(i) => Some(self.pending_link_syncs[i].parent_id),
            None => None,
        }
    }

    /// Records the sync a created channel of a pending group waits on.
    pub fn set_pending_link_done(&mut self, parent_id: u128, link_id: u128, seq_id: i32)
        ensures
            match first_pending_with(old(self).pending_link_syncs@, parent_id, link_id) {
                Some(i) => {
                    let p = old(self).pending_link_syncs@[i];
                    let g = p.group;
                    let g2 = if channel_is(g.left, link_id) {
                        ManagedLink { left: Some(ManagedLinkMap { pending_seq_id: Some(seq_id), ..g.left->0 }), ..g }
                    } else {
                        ManagedLink { right: Some(ManagedLinkMap { pending_seq_id: Some(seq_id), ..g.right->0 }), ..g }
                    };
                    &&& final(self).pending_link_syncs@.len() == old(self).pending_link_syncs@.len()
                    &&& forall|j: int| 0 <= j < old(self).pending_link_syncs@.len() && j != i
                        ==> #[trigger] final(self).pending_link_syncs@[j] == old(self).pending_link_syncs@[j]
                    &&& final(self).pending_link_syncs@[i].group == g2
                    &&& same_pending_except_group(final(self).pending_link_syncs@[i], p)
                },
                None => final(self).pending_link_syncs@ == old(self).pending_link_syncs@,
            },
            final(self).keeps(old(self), Touch { pending: true, ..touch_none() }),
            final(self).pending_device_syncs == old(self).pending_device_syncs,
            final(self).pending_filter_syncs == old(self).pending_filter_syncs,
    {
        let ghost s = self.pending_link_syncs@;
        let mut i: usize = 0;
        while i < self.pending_link_syncs.len()
            invariant
                s == self.pending_link_syncs@,
                s == old(self).pending_link_syncs@,
                i <= s.len(),
                forall|j: int| 0 <= j < i ==> !group_has_channel(s[j], parent_id, link_id),
                self.keeps(old(self), touch_none()),
            decreases s.len() - i,
        {
            let p = &self.pending_link_syncs[i];
            if p.parent_id == parent_id {
                let on_left = match &p.group.left {
                    Some(c) => c.internal_id == link_id,
                    None => false,
                };
                let on_right = match &p.group.right {
                    Some(c) => c.internal_id == link_id,
                    None => false,
                };
                if on_left || on_right {
                    proof {
                        let pr = |x: PendingLinkSync| group_has_channel(x, parent_id, link_id);
                        lemma_first_index(s, pr, i as int);
                        let c = choose|c: int| 0 <= c < s.len() && group_has_channel(s[c], parent_id, link_id)
                            && forall|j: int| 0 <= j < c ==> !group_has_channel(s[j], parent_id, link_id);
                        assert(pr(s[c]));
                    }
                    let mut pending = self.pending_link_syncs.remove(i);
                    if on_left {
                        let mut c = pending.group.left.unwrap();
                        c.pending_seq_id = Some(seq_id);
                        pending.group.left = Some(c);
                    } else {
                        let mut c = pending.group.right.unwrap();
                        c.pending_seq_id = Some(seq_id);
                        pending.group.right = Some(c);
                    }
                    self.pending_link_syncs.insert(i, pending);
                    return;
                }
            }
            i = i + 1;
        }
    }

    /// A channel of a link group was bound to a PipeWire id. While the group
    /// is pending the id is kept for later; once it is a managed link the
    /// channel takes it (and the id stops counting as an unmanaged link) and
    /// the link is checked for readiness.
    pub fn managed_link_bound(&mut self, id: u128, link_id: u128, pw_id: u32)
        ensures
            match first_pending_for(old(self).pending_link_syncs@, id) {
                Some(i) => {
                    let p = old(self).pending_link_syncs@[i];
                    &&& final(self).pending_link_syncs@.len() == old(self).pending_link_syncs@.len()
                    &&& forall|j: int| 0 <= j < old(self).pending_link_syncs@.len() && j != i
                        ==> #[trigger] final(self).pending_link_syncs@[j] == old(self).pending_link_syncs@[j]
                    &&& final(self).pending_link_syncs@[i].parent_id == p.parent_id
                    &&& final(self).pending_link_syncs@[i].group == p.group
                    &&& final(self).pending_link_syncs@[i].bound_ids@ == p.bound_ids@.insert(link_id, pw_id)
                    &&& final(self).keeps(old(self), Touch { pending: true, ..touch_none() })
                },
                None => {
                    &&& final(self).pending_link_syncs == old(self).pending_link_syncs
                    &&& if old(self).managed_links@.contains_key(id) {
                        let (l1, bound) = bind_channel(old(self).managed_links@[id], link_id, pw_id);
                        let (l2, fire) = after_link_ready_check(l1);
                        &&& final(self).managed_links@ == old(self).managed_links@.insert(id, l2)
                        &&& final(self).unmanaged_links@ == (if bound { old(self).unmanaged_links@.remove(pw_id) } else { old(self).unmanaged_links@ })
                        &&& final(self).signals@ == push_signal_if(old(self).signals@, fire, ReadySignal::Link(id))
                    } else {
                        &&& final(self).managed_links@ == old(self).managed_links@
                        &&& final(self).unmanaged_links@ == old(self).unmanaged_links@
                        &&& final(self).signals@ == old(self).signals@
                    }
                    &&& final(self).keeps(old(self), Touch { managed_links: true, unmanaged_links: true, signals: true, ..touch_none() })
                },
            },
    {
        if let Some(i) = self.pending_index_for(id) {
            let mut pending = self.pending_link_syncs.remove(i);
            pending.bound_ids.insert(link_id, pw_id);
            self.pending_link_syncs.insert(i, pending);
            return;
        }
        let mut link = match self.managed_links.get(&id) {
            Some(l) => *l,
            None => return,
        };
        let mut bound = false;
        match link.left {
            Some(mut c) => if c.internal_id == link_id {
                c.pw_id = Some(pw_id);
                link.left = Some(c);
                bound = true;
            },
            None => {},
        }
        if !bound {
            match link.right {
                Some(mut c) => if c.internal_id == link_id {
                    c.pw_id = Some(pw_id);
                    link.right = Some(c);
                    bound = true;
                },
                None => {},
            }
        }
        if bound {
            self.unmanaged_links.remove(&pw_id);
        } else {
            proof { assert(self.unmanaged_links@ =~= old(self).unmanaged_links@); }
        }
        self.managed_links.insert(id, link);
        self.managed_link_ready_check(id);
        proof {
            let (l1, _) = bind_channel(old(self).managed_links@[id], link_id, pw_id);
            assert(old(self).managed_links@.insert(id, l1).insert(id, after_link_ready_check(l1).0)
                =~= old(self).managed_links@.insert(id, after_link_ready_check(l1).0));
        }
    }
}

pub open spec fn channel_unsent(c: Option<ManagedLinkMap>) -> bool {
    c is Some && c->0.pending_seq_id is None
}

/// What is left to do for the pending group waiting on a sync: the next
/// channel to create, or (none left) the group is finished.
pub open spec fn next_pending_channel(g: ManagedLink) -> Option<ManagedLinkMap> {
    if channel_unsent(g.left) {
        g.left
    } else if channel_unsent(g.right) {
        g.right
    } else {
        None
    }
}

impl Store {
    /// A sync finished. If a pending group waits on it, the next channel of
    /// that group is handed out for creation; when none is left the group
    /// becomes a managed link, with the ids bound meanwhile, and is checked
    /// for readiness.
    pub fn get_next_pending_link(&mut self, seq: i32) -> (r: Option<ManagedLinkMap>)
        ensures
            match first_pending_on(old(self).pending_link_syncs@, seq) {
                None => r is None && final(self).keeps(old(self), touch_none()),
                Some(i) => {
                    let p = old(self).pending_link_syncs@[i];
                    if next_pending_channel(p.group) is Some {
                        r == next_pending_channel(p.group) && final(self).keeps(old(self), touch_none())
                    } else {
                        let g2 = apply_bound(p.group, p.bound_ids@);
                        let (l, fire) = after_link_ready_check(g2);
                        &&& r is None
                        &&& final(self).pending_link_syncs@ == old(self).pending_link_syncs@.remove(i)
                        &&& final(self).managed_links@ == old(self).managed_links@.insert(p.parent_id, l)
                        &&& final(self).signals@ == push_signal_if(old(self).signals@, fire, ReadySignal::Link(p.parent_id))
                        &&& final(self).keeps(old(self), Touch { pending: true, managed_links: true, signals: true, ..touch_none() })
                        &&& final(self).pending_device_syncs == old(self).pending_device_syncs
                        &&& final(self).pending_filter_syncs == old(self).pending_filter_syncs
                    }
                },
            },
    {
        let i = match self.get_pending_link_index_by_seq(seq) {
            Some(i) => i,
            None => return None,
        };
        let g = self.pending_link_syncs[i].group;
        match g.left {
            Some(c) => if c.pending_seq_id.is_none() {
                return Some(c);
            },
            None => {},
        }
        match g.right {
            Some(c) => if c.pending_seq_id.is_none() {
                return Some(c);
            },
            None => {},
        }
        let pending = self.pending_link_syncs.remove(i);
        let mut group = pending.group;
        match group.left {
            Some(mut c) => match pending.bound_ids.get(&c.internal_id) {
                Some(pw) => {
                    c.pw_id = Some(*pw);
                    group.left = Some(c);
                },
                None => {},
            },
            None => {},
        }
        match group.right {
            Some(mut c) => match pending.bound_ids.get(&c.internal_id) {
                Some(pw) => {
                    c.pw_id = Some(*pw);
                    group.right = Some(c);
                },
                None => {},
            },
            None => {},
        }
        assert(group == apply_bound(pending.group, pending.bound_ids@));
        let parent = pending.parent_id;
        self.managed_link_add(parent, group);
        self.managed_link_ready_check(parent);
        proof {
            assert(old(self).managed_links@.insert(parent, group).insert(parent, after_link_ready_check(group).0)
                =~= old(self).managed_links@.insert(parent, after_link_ready_check(group).0));
        }
        None
    }

    /// Creating a channel failed. A pending group is dropped (its waiting
    /// caller told); a managed link's waiting caller is told, or, if nobody
    /// waits any more, the link is dropped and upstream hears of it.
    pub fn managed_link_error(&mut self, parent_id: u128, link_id: u128)
        ensures
            match first_pending_for(old(self).pending_link_syncs@, parent_id) {
                Some(i) => {
                    let p = old(self).pending_link_syncs@[i];
                    &&& final(self).pending_link_syncs@ == old(self).pending_link_syncs@.remove(i)
                    &&& final(self).signals@ == push_signal_if(old(self).signals@, p.group.ready_sender, ReadySignal::Link(parent_id))
                    &&& final(self).keeps(old(self), Touch { pending: true, signals: true, ..touch_none() })
                    &&& final(self).pending_device_syncs == old(self).pending_device_syncs
                    &&& final(self).pending_filter_syncs == old(self).pending_filter_syncs
                },
                None => if old(self).managed_links@.contains_key(parent_id) {
                    let l = old(self).managed_links@[parent_id];
                    if l.ready_sender {
                        &&& final(self).managed_links@ == old(self).managed_links@.insert(parent_id, ManagedLink { ready_sender: false, ..l })
                        &&& final(self).signals@ == old(self).signals@.push(ReadySignal::Link(parent_id))
                        &&& final(self).keeps(old(self), Touch { managed_links: true, signals: true, ..touch_none() })
                    } else {
                        &&& final(self).managed_links@ == old(self).managed_links@.remove(parent_id)
                        &&& final(self).events@ == old(self).events@.push(PipewireReceiver::ManagedLinkDropped(l.source, l.destination))
                        &&& final(self).keeps(old(self), Touch { managed_links: true, events: true, ..touch_none() })
                    }
                } else {
                    final(self).keeps(old(self), touch_none())
                },
            },
    {
        if let Some(i) = self.pending_index_for(parent_id) {
            let pending = self.pending_link_syncs.remove(i);
            if pending.group.ready_sender {
                self.signals.push(ReadySignal::Link(parent_id));
            }
            return;
        }
        let mut link = match self.managed_links.get(&parent_id) {
            Some(l) => *l,
            None => return,
        };
        if link.ready_sender {
            link.ready_sender = false;
            self.managed_links.insert(parent_id, link);
            self.signals.push(ReadySignal::Link(parent_id));
        } else {
            self.managed_links.remove(&parent_id);
            self.events.push(PipewireReceiver::ManagedLinkDropped(link.source, link.destination));
        }
    }
}

} // verus!
