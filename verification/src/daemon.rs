//! Plain values the daemon passes around: its configuration, the names it
//! registers under, the nodes it reports and its worker's messages, and
//! the grace period a newly found physical device waits out before use.

use vstd::prelude::*;
use crate::media::MediaClass;
use crate::shared::Colour;
use crate::registry::clone_opt_string;
use crate::text::str_eq;

verus! {

/// The settings of the built-in HTTP server.
#[derive(Debug, Clone)]
pub struct HttpSettings {
    pub enabled: bool,
    pub bind_address: String,
    pub cors_enabled: bool,
    pub port: u16,
}

impl Default for HttpSettings {
    fn default() -> (r: Self)
        ensures
            !r.enabled && r.bind_address@.len() == 0 && !r.cors_enabled && r.port == 0,
    {
        HttpSettings { enabled: false, bind_address: String::new(), cors_enabled: false, port: 0 }
    }
}

/// The daemon's configuration.
#[derive(Debug, Clone)]
pub struct DaemonConfig {
    pub http_settings: HttpSettings,
}

impl Default for DaemonConfig {
    fn default() -> (r: Self)
        ensures
            !r.http_settings.enabled && r.http_settings.bind_address@.len() == 0
                && !r.http_settings.cors_enabled && r.http_settings.port == 0,
    {
        DaemonConfig { http_settings: HttpSettings::default() }
    }
}

/// How the daemon names what it creates in PipeWire.
#[derive(Debug, Clone)]
pub struct NamingScheme {
    pub app_id: String,
    pub app_name: String,
    pub group_prefix: String,
}

/// A node the PipeWire layer reports.
#[derive(Debug, Clone, PartialEq)]
pub struct PipewireNode {
    pub node_id: u32,
    pub node_class: MediaClass,
    pub name: Option<String>,
    pub nickname: Option<String>,
    pub description: Option<String>,
}

/// The colour a new device of the given name starts with: the names of
/// the usual default devices have their own, everything else is cyan.
pub open spec fn default_colour_of(name: Seq<char>) -> Colour {
    if name == "Microphone"@ { Colour { red: 47, green: 24, blue: 71 } }
    else if name == "PC Line In"@ { Colour { red: 98, green: 17, blue: 99 } }
    else if name == "System"@ { Colour { red: 153, green: 98, blue: 30 } }
    else if name == "Browser"@ { Colour { red: 211, green: 139, blue: 93 } }
    else if name == "Game"@ { Colour { red: 243, green: 255, blue: 182 } }
    else if name == "Music"@ { Colour { red: 115, green: 158, blue: 130 } }
    else if name == "Chat"@ { Colour { red: 44, green: 85, blue: 48 } }
    else if name == "Headphones"@ { Colour { red: 0, green: 255, blue: 255 } }
    else if name == "Stream Mix"@ { Colour { red: 19, green: 64, blue: 116 } }
    else if name == "VOD"@ { Colour { red: 19, green: 49, blue: 92 } }
    else if name == "Chat Mic"@ { Colour { red: 11, green: 37, blue: 69 } }
    else { Colour { red: 0, green: 255, blue: 255 } }
}

pub fn get_colour(name: &str) -> (r: Colour)
    ensures
        r == default_colour_of(name@),
{
    if str_eq(name, "Microphone") { Colour { red: 47, green: 24, blue: 71 } }
    else if str_eq(name, "PC Line In") { Colour { red: 98, green: 17, blue: 99 } }
    else if str_eq(name, "System") { Colour { red: 153, green: 98, blue: 30 } }
    else if str_eq(name, "Browser") { Colour { red: 211, green: 139, blue: 93 } }
    else if str_eq(name, "Game") { Colour { red: 243, green: 255, blue: 182 } }
    else if str_eq(name, "Music") { Colour { red: 115, green: 158, blue: 130 } }
    else if str_eq(name, "Chat") { Colour { red: 44, green: 85, blue: 48 } }
    else if str_eq(name, "Headphones") { Colour { red: 0, green: 255, blue: 255 } }
    else if str_eq(name, "Stream Mix") { Colour { red: 19, green: 64, blue: 116 } }
    else if str_eq(name, "VOD") { Colour { red: 19, green: 49, blue: 92 } }
    else if str_eq(name, "Chat Mic") { Colour { red: 11, green: 37, blue: 69 } }
    else { Colour { red: 0, green: 255, blue: 255 } }
}

/// What the primary worker is asked to do.
#[derive(Debug, Clone, Copy, PartialEq, Eq, Structural)]
pub enum WorkerMessage {
    RefreshState,
}

/// The first node with this id, in list order.
pub open spec fn first_node(s: Seq<PipewireNode>, id: u32) -> Option<PipewireNode>
    decreases s.len(),
{
    if s.len() == 0 {
        None
    } else if s[0].node_id == id {
        Some(s[0])
    } else {
        first_node(s.drop_first(), id)
    }
}

/// Whether a node is not the one with this id.
pub open spec fn other_node(id: u32) -> spec_fn(PipewireNode) -> bool {
    |n: PipewireNode| n.node_id != id
}

/// What the daemon hears about physical devices: one was found, one went
/// away, or a found one has waited out its grace period.
#[derive(Debug, Clone)]
pub enum DeviceEvent {
    Added(PipewireNode),
    Removed(u32),
    GraceOver(u32),
}

/// What the daemon does in answer.
#[derive(Debug, Clone, PartialEq)]
pub enum DeviceAction {
    Nothing,
    /// Start the grace period (a one-second timer) of this node.
    StartGrace(u32),
    /// The node vanished during its grace period: stop its timer.
    CancelGrace(u32),
    /// A device in use went away: withdraw its source and/or target, as
    /// its class says.
    Withdraw(u32, MediaClass),
    /// A device outlasted its grace period: offer its source and/or
    /// target, as its class says.
    Settle(PipewireNode),
}

/// Devices waiting out their grace period, and devices in use.
#[derive(Debug, Clone)]
pub struct DeviceGrace {
    pub pending: Vec<PipewireNode>,
    pub physical: Vec<PipewireNode>,
}

/// One step of the grace period: the lists after the event, and the
/// action. A device already waiting is not waited for twice; one that
/// vanishes while waiting is dropped quietly; one that vanishes in use is
/// withdrawn (every entry with its id leaves the list of devices in use);
/// one whose wait is over moves from waiting to in use.
pub open spec fn grace_step(pending: Seq<PipewireNode>, physical: Seq<PipewireNode>, e: DeviceEvent)
    -> (Seq<PipewireNode>, Seq<PipewireNode>, DeviceAction) {
    match e {
        DeviceEvent::Added(n) => if first_node(pending, n.node_id) is Some {
            (pending, physical, DeviceAction::Nothing)
        } else {
            (pending.push(n), physical, DeviceAction::StartGrace(n.node_id))
        },
        DeviceEvent::Removed(id) => if first_node(pending, id) is Some {
            (pending.filter(other_node(id)), physical, DeviceAction::CancelGrace(id))
        } else if first_node(physical, id) is Some {
            (pending, physical.filter(other_node(id)), DeviceAction::Withdraw(id, first_node(physical, id)->0.node_class))
        } else {
            (pending, physical, DeviceAction::Nothing)
        },
        DeviceEvent::GraceOver(id) => {
            let n = first_node(pending, id)->0;
            (pending.filter(other_node(id)), physical.push(n), DeviceAction::Settle(n))
        },
    }
}

fn copy_node(n: &PipewireNode) -> (r: PipewireNode)
    ensures
        r == *n,
{
    PipewireNode {
        node_id: n.node_id,
        node_class: n.node_class,
        name: clone_opt_string(&n.name),
        nickname: clone_opt_string(&n.nickname),
        description: clone_opt_string(&n.description),
    }
}

/// Whether some node of the list has this id.
fn has_node_id(v: &Vec<PipewireNode>, id: u32) -> (r: bool)
    ensures
        r == first_node(v@, id) is Some,
{
    let mut i: usize = 0;
    assert(v@.skip(0) =~= v@);
    while i < v.len()
        invariant
            i <= v@.len(),
            first_node(v@, id) == first_node(v@.skip(i as int), id),
        decreases v@.len() - i,
    {
        assert(v@.skip(i as int).drop_first() =~= v@.skip(i + 1));
        if v[i].node_id == id {
            return true;
        }
        i = i + 1;
    }
    assert(v@.skip(i as int) =~= Seq::<PipewireNode>::empty());
    false
}

/// The list without the nodes of this id (order kept), and the first of
/// them.
fn split_off_node(v: Vec<PipewireNode>, id: u32) -> (r: (Vec<PipewireNode>, Option<PipewireNode>))
    ensures
        r.0@ == v@.filter(other_node(id)),
        r.1 == first_node(v@, id),
{
    let ghost all = v@;
    let mut rest = v;
    let mut kept: Vec<PipewireNode> = Vec::new();
    let mut found: Option<PipewireNode> = None;
    assert(all.take(0).filter(other_node(id)) =~= Seq::<PipewireNode>::empty()) by {
        reveal(Seq::filter);
    }
    assert(all.skip(0) =~= all);
    while rest.len() > 0
        invariant
            rest@.len() <= all.len(),
            rest@ == all.skip(all.len() - rest@.len()),
            kept@ == all.take(all.len() - rest@.len()).filter(other_node(id)),
            found is None ==> first_node(all, id) == first_node(rest@, id),
            found is Some ==> first_node(all, id) == found,
        decreases rest@.len(),
    {
        let ghost k = all.len() - rest@.len();
        let ghost before = rest@;
        let n = rest.remove(0);
        proof {
            reveal(Seq::filter);
            assert(all.take(k + 1).drop_last() =~= all.take(k));
            assert(all.take(k + 1).last() == n);
            assert(rest@ =~= all.skip(k + 1));
            assert(before.drop_first() =~= rest@);
        }
        if n.node_id == id {
            if found.is_none() {
                found = Some(n);
            }
        } else {
            kept.push(n);
        }
    }
    assert(all.take(all.len() as int) =~= all);
    (kept, found)
}

impl DeviceGrace {
    pub fn new() -> (g: DeviceGrace)
        ensures
            g.pending@.len() == 0,
            g.physical@.len() == 0,
    {
        DeviceGrace { pending: Vec::new(), physical: Vec::new() }
    }

    /// Whether the device `id` is waiting out its grace period.
    pub fn is_waiting(&self, id: u32) -> (r: bool)
        ensures
            r == first_node(self.pending@, id) is Some,
    {
        has_node_id(&self.pending, id)
    }

    /// Handles one event. The end of a grace period is only handled for a
    /// device that is waiting: on any other the daemon stops ("Got a Timer
    /// Ready for non-existent Node"), so such an event is left out here;
    /// `is_waiting` tells a caller which it is.
    pub fn on_device_event(&mut self, e: DeviceEvent) -> (a: DeviceAction)
        requires
            e matches DeviceEvent::GraceOver(id) ==> first_node(old(self).pending@, id) is Some,
        ensures
            (final(self).pending@, final(self).physical@, a) == grace_step(old(self).pending@, old(self).physical@, e),
    {
        match e {
            DeviceEvent::Added(n) => {
                if has_node_id(&self.pending, n.node_id) {
                    DeviceAction::Nothing
                } else {
                    let id = n.node_id;
                    self.pending.push(n);
                    DeviceAction::StartGrace(id)
                }
            },
            DeviceEvent::Removed(id) => {
                if has_node_id(&self.pending, id) {
                    let mut pending: Vec<PipewireNode> = Vec::new();
                    std::mem::swap(&mut pending, &mut self.pending);
                    let (kept, _) = split_off_node(pending, id);
                    self.pending = kept;
                    DeviceAction::CancelGrace(id)
                } else if has_node_id(&self.physical, id) {
                    let mut physical: Vec<PipewireNode> = Vec::new();
                    std::mem::swap(&mut physical, &mut self.physical);
                    let (kept, found) = split_off_node(physical, id);
                    self.physical = kept;
                    let class = match found {
                        Some(n) => n.node_class,
                        None => MediaClass::Duplex,
                    };
                    DeviceAction::Withdraw(id, class)
                } else {
                    DeviceAction::Nothing
                }
            },
            DeviceEvent::GraceOver(id) => {
                let mut pending: Vec<PipewireNode> = Vec::new();
                std::mem::swap(&mut pending, &mut self.pending);
                let (kept, found) = split_off_node(pending, id);
                self.pending = kept;
                let n = found.unwrap();
                let settled = copy_node(&n);
                self.physical.push(n);
                DeviceAction::Settle(settled)
            },
        }
    }
}

/// A device that is found and goes away again within its grace period
/// leaves the daemon as it was, and nothing is offered or withdrawn.
pub proof fn law_grace_added_then_removed(pending: Seq<PipewireNode>, physical: Seq<PipewireNode>, n: PipewireNode)
    requires
        first_node(pending, n.node_id) is None,
    ensures
        ({
            let (p1, q1, a1) = grace_step(pending, physical, DeviceEvent::Added(n));
            let (p2, q2, a2) = grace_step(p1, q1, DeviceEvent::Removed(n.node_id));
            &&& a1 == DeviceAction::StartGrace(n.node_id)
            &&& a2 == DeviceAction::CancelGrace(n.node_id)
            &&& p2 == pending
            &&& q2 == physical
        }),
{
    lemma_first_node_push(pending, n, n.node_id);
    lemma_filter_other_absent(pending, n.node_id);
    reveal(Seq::filter);
    assert(pending.push(n).drop_last() =~= pending);
}

proof fn lemma_first_node_push(s: Seq<PipewireNode>, n: PipewireNode, id: u32)
    ensures
        first_node(s.push(n), id) == (if first_node(s, id) is Some { first_node(s, id) } else if n.node_id == id {
            Some(n)
        } else {
            None
        }),
    decreases s.len(),
{
    if s.len() > 0 {
        assert(s.push(n)[0] == s[0]);
        assert(s.push(n).drop_first() =~= s.drop_first().push(n));
        lemma_first_node_push(s.drop_first(), n, id);
    } else {
        assert(s.push(n)[0] == n);
        assert(s.push(n).drop_first() =~= Seq::<PipewireNode>::empty());
        assert(first_node(Seq::<PipewireNode>::empty(), id) is None);
    }
}

proof fn lemma_filter_other_absent(s: Seq<PipewireNode>, id: u32)
    requires
        first_node(s, id) is None,
    ensures
        s.filter(other_node(id)) == s,
    decreases s.len(),
{
    reveal(Seq::filter);
    if s.len() > 0 {
        lemma_first_node_last(s, id);
        lemma_filter_other_absent(s.drop_last(), id);
        assert(s.drop_last().push(s.last()) =~= s);
    } else {
        assert(s.filter(other_node(id)) =~= s);
    }
}

proof fn lemma_first_node_last(s: Seq<PipewireNode>, id: u32)
    requires
        s.len() > 0,
        first_node(s, id) is None,
    ensures
        first_node(s.drop_last(), id) is None,
        s.last().node_id != id,
{
    lemma_first_node_push(s.drop_last(), s.last(), id);
    assert(s.drop_last().push(s.last()) =~= s);
}

/// A device that outlasts its grace period is offered exactly once and is
/// in use afterwards; its id no longer waits.
pub proof fn law_grace_settles_once(pending: Seq<PipewireNode>, physical: Seq<PipewireNode>, id: u32)
    requires
        first_node(pending, id) is Some,
    ensures
        ({
            let (p1, q1, a1) = grace_step(pending, physical, DeviceEvent::GraceOver(id));
            &&& a1 == DeviceAction::Settle(first_node(pending, id)->0)
            &&& first_node(p1, id) is None
            &&& q1 == physical.push(first_node(pending, id)->0)
        }),
{
    lemma_filter_other_drops(pending, id);
}

proof fn lemma_filter_other_drops(s: Seq<PipewireNode>, id: u32)
    ensures
        first_node(s.filter(other_node(id)), id) is None,
    decreases s.len(),
{
    reveal(Seq::filter);
    if s.len() > 0 {
        lemma_filter_other_drops(s.drop_last(), id);
        let f = s.drop_last().filter(other_node(id));
        if s.last().node_id != id {
            lemma_first_node_push(f, s.last(), id);
        }
    }
}

/// A device in use that goes away (and is not waiting) is withdrawn with
/// the class of its own entry: the first entry with its id, wherever it
/// stands among the devices in use. Every entry with that id leaves the
/// list; the others stay in order.
pub proof fn law_grace_withdraws_own_class(pending: Seq<PipewireNode>, physical: Seq<PipewireNode>, id: u32, k: int)
    requires
        first_node(pending, id) is None,
        0 <= k < physical.len(),
        physical[k].node_id == id,
        forall|j: int| 0 <= j < k ==> (#[trigger] physical[j]).node_id != id,
    ensures
        ({
            let (p1, q1, a1) = grace_step(pending, physical, DeviceEvent::Removed(id));
            &&& a1 == DeviceAction::Withdraw(id, physical[k].node_class)
            &&& p1 == pending
            &&& first_node(q1, id) is None
            &&& q1 == physical.filter(other_node(id))
        }),
{
    lemma_first_node_at(physical, id, k);
    lemma_filter_other_drops(physical, id);
}

proof fn lemma_first_node_at(s: Seq<PipewireNode>, id: u32, k: int)
    requires
        0 <= k < s.len(),
        s[k].node_id == id,
        forall|j: int| 0 <= j < k ==> (#[trigger] s[j]).node_id != id,
    ensures
        first_node(s, id) == Some(s[k]),
    decreases k,
{
    if k > 0 {
        assert(s[0].node_id != id);
        assert forall|j: int| 0 <= j < k - 1 implies (#[trigger] s.drop_first()[j]).node_id != id by {
            assert(s.drop_first()[j] == s[j + 1]);
        }
        lemma_first_node_at(s.drop_first(), id, k - 1);
    }
}

} // verus!
