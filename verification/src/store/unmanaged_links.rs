//! Links PipeWire told us about that are neither one of our managed links
//! nor a channel of a link group we are still creating.

use vstd::prelude::*;
use super::{PendingLinkSync, Store, Touch, touch_none};
use super::links::first_link_with_pw;
use crate::id_map::IdMap;
use crate::registry::RegistryLink;

verus! {

/// Some pending link group has already bound a channel to `id`.
pub open spec fn pending_binds(s: Seq<PendingLinkSync>, id: u32) -> bool {
    exists|i: int, k: u128| 0 <= i < s.len() && #[trigger] s[i].bound_ids@.contains_key(k)
        && s[i].bound_ids@[k] == id
}

fn bound_to(ids: &IdMap<u128, u32>, id: u32) -> (r: bool)
    ensures
        r == exists|k: u128| ids@.contains_key(k) && ids@[k] == id,
{
    let n = ids.len();
    let mut i: usize = 0;
    while i < n
        invariant
            n == ids.entries().len(),
            ids.walk_ok(),
            i <= n,
            forall|j: int| 0 <= j < i ==> (#[trigger] ids.entries()[j]).1 != id,
        decreases n - i,
    {
        let e = ids.entry(i);
        if e.1 == id {
            return true;
        }
        i = i + 1;
    }
    proof {
        assert forall|k: u128| ids@.contains_key(k) implies ids@[k] != id by {
            let j = choose|j: int| 0 <= j < ids.entries().len() && ids.entries()[j].0 == k;
            assert(ids.entries()[j].1 != id);
        }
    }
    false
}

impl Store {
    /// Whether a pending link group has bound one of its channels to `id`.
    pub fn in_pending_link(&self, id: u32) -> (r: bool)
        ensures
            r == pending_binds(self.pending_link_syncs@, id),
    {
        let n = self.pending_link_syncs.len();
        let mut i: usize = 0;
        while i < n
            invariant
                n == self.pending_link_syncs@.len(),
                i <= n,
                forall|j: int, k: u128| 0 <= j < i && #[trigger] self.pending_link_syncs@[j].bound_ids@.contains_key(k)
                    ==> self.pending_link_syncs@[j].bound_ids@[k] != id,
            decreases n - i,
        {
            if bound_to(&self.pending_link_syncs[i].bound_ids, id) {
                return true;
            }
            i = i + 1;
        }
        false
    }

    /// Records a link PipeWire reports, unless it is a channel of one of our
    /// own links (managed, or still being created).
    pub fn unmanaged_link_add(&mut self, id: u32, link: RegistryLink)
        ensures
            final(self).unmanaged_links@ == (if first_link_with_pw(old(self).managed_links.entries(), id) is None
                && !pending_binds(old(self).pending_link_syncs@, id) {
                old(self).unmanaged_links@.insert(id, link)
            } else {
                old(self).unmanaged_links@
            }),
            final(self).keeps(old(self), Touch { unmanaged_links: true, ..touch_none() }),
    {
        let in_pending = self.in_pending_link(id);
        if self.is_managed_link(id).is_none() && !in_pending {
            self.unmanaged_links.insert(id, link);
        }
    }

    pub fn unmanaged_link_remove(&mut self, id: u32)
        ensures
            final(self).unmanaged_links@ == old(self).unmanaged_links@.remove(id),
            final(self).keeps(old(self), Touch { unmanaged_links: true, ..touch_none() }),
    {
        self.unmanaged_links.remove(&id);
    }

    pub fn get_unmanaged_links(&self) -> (r: &IdMap<u32, RegistryLink>)
        ensures
            r@ == self.unmanaged_links@,
    {
        &self.unmanaged_links
    }
}

} // verus!
