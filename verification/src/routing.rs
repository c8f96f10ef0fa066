//! The routing table of a profile: which targets every source is routed
//! to. Routes run from a source (physical or virtual) to a target
//! (physical or virtual); a virtual target is reached through its volume
//! node.

use vstd::prelude::*;
use crate::id_map::IdMap;
use crate::shared::NodeType;

verus! {

/// The ids of the profile's devices, by kind.
#[derive(Debug, Clone)]
pub struct ProfileDevices {
    pub physical_sources: Vec<u128>,
    pub virtual_sources: Vec<u128>,
    pub physical_targets: Vec<u128>,
    pub virtual_targets: Vec<u128>,
}

/// What kind of device the profile holds under an id (the kinds are
/// searched sources first).
pub open spec fn node_type_of(d: ProfileDevices, id: u128) -> Option<NodeType> {
    if d.physical_sources@.contains(id) {
        Some(NodeType::PhysicalSource)
    } else if d.virtual_sources@.contains(id) {
        Some(NodeType::VirtualSource)
    } else if d.physical_targets@.contains(id) {
        Some(NodeType::PhysicalTarget)
    } else if d.virtual_targets@.contains(id) {
        Some(NodeType::VirtualTarget)
    } else {
        None
    }
}

pub open spec fn is_source(t: NodeType) -> bool {
    t == NodeType::PhysicalSource || t == NodeType::VirtualSource
}

pub open spec fn is_target(t: NodeType) -> bool {
    t == NodeType::PhysicalTarget || t == NodeType::VirtualTarget
}

/// Why a routing request is refused.
#[derive(Debug, Clone, Copy, PartialEq, Eq, Structural)]
pub enum RouteError {
    SourceNotFound,
    TargetNotFound,
    SourceIsTarget,
    TargetIsSource,
    /// A virtual target without a volume node.
    NoTargetVolume,
    /// The route is already as asked.
    AlreadySet,
}

impl RouteError {
    pub fn message(&self) -> (r: &'static str)
        ensures
            r@ == (match *self {
                RouteError::SourceNotFound => "Source Not Found"@,
                RouteError::TargetNotFound => "Target Not Found"@,
                RouteError::SourceIsTarget => "Provided Source is a Target Node"@,
                RouteError::TargetIsSource => "Provided Target is a Source Node"@,
                RouteError::NoTargetVolume => "Unable to Locate Volume for Target"@,
                RouteError::AlreadySet => "Requested route change already set"@,
            }),
    {
        match self {
            RouteError::SourceNotFound => "Source Not Found",
            RouteError::TargetNotFound => "Target Not Found",
            RouteError::SourceIsTarget => "Provided Source is a Target Node",
            RouteError::TargetIsSource => "Provided Target is a Source Node",
            RouteError::NoTargetVolume => "Unable to Locate Volume for Target",
            RouteError::AlreadySet => "Requested route change already set",
        }
    }
}

/// The first check a routing request between `source` and `target` fails.
pub open spec fn route_check(d: ProfileDevices, source: u128, target: u128) -> Option<RouteError> {
    if node_type_of(d, source) is None {
        Some(RouteError::SourceNotFound)
    } else if node_type_of(d, target) is None {
        Some(RouteError::TargetNotFound)
    } else if !is_source(node_type_of(d, source)->0) {
        Some(RouteError::SourceIsTarget)
    } else if !is_target(node_type_of(d, target)->0) {
        Some(RouteError::TargetIsSource)
    } else {
        None
    }
}

/// The node a target is fed through: a physical target itself, a virtual
/// one its volume node.
pub open spec fn target_node_of(d: ProfileDevices, volumes: Map<u128, u128>, target: u128) -> Option<u128> {
    if node_type_of(d, target) == Some(NodeType::PhysicalTarget) {
        Some(target)
    } else if volumes.contains_key(target) {
        Some(volumes[target])
    } else {
        None
    }
}

/// The targets of a source.
pub open spec fn targets_view(v: Vec<u128>) -> Set<u128> {
    v@.to_set()
}

/// Which targets each source is routed to.
#[derive(Debug)]
pub struct RouteTable {
    routes: IdMap<u128, Vec<u128>>,
}

impl View for RouteTable {
    type V = Map<u128, Set<u128>>;

    closed spec fn view(&self) -> Map<u128, Set<u128>> {
        Map::new(|k: u128| self.routes@.contains_key(k), |k: u128| targets_view(self.routes@[k]))
    }
}

/// The table and the answer after a request to route `source` to
/// `target` (or to stop).
pub open spec fn set_route_outcome(m: Map<u128, Set<u128>>, d: ProfileDevices, volumes: Map<u128, u128>,
    source: u128, target: u128, enabled: bool) -> (Map<u128, Set<u128>>, Result<u128, RouteError>) {
    if route_check(d, source, target) is Some {
        (m, Err(route_check(d, source, target)->0))
    } else if target_node_of(d, volumes, target) is None {
        (m, Err(RouteError::NoTargetVolume))
    } else {
        let m1 = if m.contains_key(source) { m } else { m.insert(source, Set::empty()) };
        if enabled == m1[source].contains(target) {
            (m1, Err(RouteError::AlreadySet))
        } else if enabled {
            (m1.insert(source, m1[source].insert(target)), Ok(target_node_of(d, volumes, target)->0))
        } else {
            (m1.insert(source, m1[source].remove(target)), Ok(target_node_of(d, volumes, target)->0))
        }
    }
}

/// Whether `source` is routed to `target`.
pub open spec fn route_exists_outcome(m: Map<u128, Set<u128>>, d: ProfileDevices, source: u128, target: u128)
    -> Result<bool, RouteError> {
    if route_check(d, source, target) is Some {
        Err(route_check(d, source, target)->0)
    } else {
        Ok(m.contains_key(source) && m[source].contains(target))
    }
}

fn contains_id(v: &Vec<u128>, x: u128) -> (r: bool)
    ensures
        r == v@.contains(x),
{
    let mut i: usize = 0;
    while i < v.len()
        invariant
            i <= v@.len(),
            forall|k: int| 0 <= k < i ==> v@[k] != x,
        decreases v@.len() - i,
    {
        if v[i] == x {
            return true;
        }
        i = i + 1;
    }
    false
}

fn without_id(v: &Vec<u128>, x: u128) -> (r: Vec<u128>)
    ensures
        r@.to_set() == v@.to_set().remove(x),
{
    let mut out: Vec<u128> = Vec::new();
    let mut i: usize = 0;
    while i < v.len()
        invariant
            i <= v@.len(),
            forall|y: u128| #[trigger] out@.contains(y) <==> (v@.take(i as int).contains(y) && y != x),
        decreases v@.len() - i,
    {
        let y = v[i];
        let ghost t0 = v@.take(i as int);
        let ghost t1 = v@.take(i + 1);
        let ghost o0 = out@;
        proof {
            assert(t1 =~= t0.push(y));
            assert forall|z: u128| #[trigger] t1.contains(z) <==> (t0.contains(z) || z == y) by {
                if t1.contains(z) {
                    let k = choose|k: int| 0 <= k < t1.len() && t1[k] == z;
                    if k < i { assert(t0[k] == z); }
                }
                if t0.contains(z) {
                    let k = choose|k: int| 0 <= k < t0.len() && t0[k] == z;
                    assert(t1[k] == z);
                }
                if z == y { assert(t1[i as int] == z); }
            }
        }
        if y != x {
            out.push(y);
            proof {
                assert(out@ =~= o0.push(y));
                assert forall|z: u128| #[trigger] out@.contains(z) <==> (o0.contains(z) || z == y) by {
                    if out@.contains(z) {
                        let k = choose|k: int| 0 <= k < out@.len() && out@[k] == z;
                        if k < o0.len() { assert(o0[k] == z); }
                    }
                    if o0.contains(z) {
                        let k = choose|k: int| 0 <= k < o0.len() && o0[k] == z;
                        assert(out@[k] == z);
                    }
                    if z == y { assert(out@[o0.len() as int] == z); }
                }
            }
        }
        i = i + 1;
    }
    assert(v@.take(v@.len() as int) =~= v@);
    assert(out@.to_set() =~= v@.to_set().remove(x));
    out
}

impl ProfileDevices {
    /// The kind of device the profile holds under `id`.
    pub fn get_node_type(&self, id: u128) -> (r: Option<NodeType>)
        ensures
            r == node_type_of(*self, id),
    {
        if contains_id(&self.physical_sources, id) {
            Some(NodeType::PhysicalSource)
        } else if contains_id(&self.virtual_sources, id) {
            Some(NodeType::VirtualSource)
        } else if contains_id(&self.physical_targets, id) {
            Some(NodeType::PhysicalTarget)
        } else if contains_id(&self.virtual_targets, id) {
            Some(NodeType::VirtualTarget)
        } else {
            None
        }
    }

    fn check_route(&self, source: u128, target: u128) -> (r: Option<RouteError>)
        ensures
            r == route_check(*self, source, target),
    {
        let source_type = match self.get_node_type(source) {
            Some(t) => t,
            None => return Some(RouteError::SourceNotFound),
        };
        let target_type = match self.get_node_type(target) {
            Some(t) => t,
            None => return Some(RouteError::TargetNotFound),
        };
        match source_type {
            NodeType::PhysicalSource | NodeType::VirtualSource => {},
            _ => return Some(RouteError::SourceIsTarget),
        }
        match target_type {
            NodeType::PhysicalTarget | NodeType::VirtualTarget => {},
            _ => return Some(RouteError::TargetIsSource),
        }
        None
    }
}

impl RouteTable {
    pub fn new() -> (t: RouteTable)
        ensures
            t@ == Map::<u128, Set<u128>>::empty(),
    {
        let t = RouteTable { routes: IdMap::new() };
        assert(t@ =~= Map::<u128, Set<u128>>::empty());
        t
    }

    /// Routes `source` to `target` (or stops routing it, `enabled` false).
    /// Refused when either is unknown, the source is a target or the
    /// target a source, a virtual target has no volume node, or the route
    /// is already as asked; a source without a table gets an empty one
    /// first. On success the node the target is fed through is returned,
    /// for the links to follow.
    pub fn routing_set_route(&mut self, devices: &ProfileDevices, volumes: &IdMap<u128, u128>, source: u128,
        target: u128, enabled: bool) -> (r: Result<u128, RouteError>)
        ensures
            (final(self)@, r) == set_route_outcome(old(self)@, *devices, volumes@, source, target, enabled),
    {
        if let Some(e) = devices.check_route(source, target) {
            return Err(e);
        }
        let target_id = if devices.get_node_type(target) == Some(NodeType::PhysicalTarget) {
            target
        } else {
            match volumes.get(&target) {
                Some(v) => *v,
                None => return Err(RouteError::NoTargetVolume),
            }
        };
        if !self.routes.contains_key(&source) {
            let empty: Vec<u128> = Vec::new();
            proof { assert(targets_view(empty) =~= Set::<u128>::empty()); }
            self.routes.insert(source, empty);
            proof {
                assert(self@ =~= old(self)@.insert(source, Set::empty()));
            }
        }
        let ghost m1 = self@;
        let targets = self.routes.remove(&source).unwrap();
        if enabled == contains_id(&targets, target) {
            self.routes.insert(source, targets);
            assert(self@ =~= m1);
            return Err(RouteError::AlreadySet);
        }
        let updated = if enabled {
            let ghost tv = targets@;
            let mut t = targets;
            t.push(target);
            proof {
                assert(tv.to_set() == m1[source]);
                assert forall|z: u128| t@.to_set().contains(z) <==> m1[source].insert(target).contains(z) by {
                    if t@.contains(z) {
                        let k = choose|k: int| 0 <= k < t@.len() && t@[k] == z;
                        if k < tv.len() { assert(tv[k] == z); }
                    }
                    if tv.contains(z) {
                        let k = choose|k: int| 0 <= k < tv.len() && tv[k] == z;
                        assert(t@[k] == z);
                    }
                    if z == target { assert(t@[tv.len() as int] == z); }
                }
                assert(t@.to_set() =~= m1[source].insert(target));
            }
            t
        } else {
            without_id(&targets, target)
        };
        self.routes.insert(source, updated);
        proof {
            let s2 = if enabled { m1[source].insert(target) } else { m1[source].remove(target) };
            assert(self@ =~= m1.insert(source, s2));
        }
        Ok(target_id)
    }

    /// Whether `source` is routed to `target`; refused as `routing_set_route`
    /// refuses an unknown or misplaced node.
    pub fn routing_route_exists(&self, devices: &ProfileDevices, source: u128, target: u128) -> (r: Result<bool, RouteError>)
        ensures
            r == route_exists_outcome(self@, *devices, source, target),
    {
        if let Some(e) = devices.check_route(source, target) {
            return Err(e);
        }
        match self.routes.get(&source) {
            Some(t) => Ok(contains_id(t, target)),
            None => Ok(false),
        }
    }
}

/// A route that was set reads back as set, and one that was cleared as
/// cleared.
pub proof fn law_route_read_back(m: Map<u128, Set<u128>>, d: ProfileDevices, volumes: Map<u128, u128>,
    source: u128, target: u128, enabled: bool)
    requires
        set_route_outcome(m, d, volumes, source, target, enabled).1 is Ok,
    ensures
        route_exists_outcome(set_route_outcome(m, d, volumes, source, target, enabled).0, d, source, target) == Ok::<bool, RouteError>(enabled),
{
}

/// Asking for the same route change twice: the second request is refused
/// as already set, and changes nothing.
pub proof fn law_route_change_twice_refused(m: Map<u128, Set<u128>>, d: ProfileDevices, volumes: Map<u128, u128>,
    source: u128, target: u128, enabled: bool)
    requires
        set_route_outcome(m, d, volumes, source, target, enabled).1 is Ok,
    ensures
        ({
            let m2 = set_route_outcome(m, d, volumes, source, target, enabled).0;
            set_route_outcome(m2, d, volumes, source, target, enabled) == (m2, Err::<u128, RouteError>(RouteError::AlreadySet))
        }),
{
}

/// Routing a source to a target and then clearing that route gives back
/// the table as it was, once the source had a table.
pub proof fn law_route_set_then_clear(m: Map<u128, Set<u128>>, d: ProfileDevices, volumes: Map<u128, u128>,
    source: u128, target: u128)
    requires
        m.contains_key(source),
        set_route_outcome(m, d, volumes, source, target, true).1 is Ok,
    ensures
        set_route_outcome(set_route_outcome(m, d, volumes, source, target, true).0, d, volumes, source, target, false)
            == (m, Ok::<u128, RouteError>(target_node_of(d, volumes, target)->0)),
{
    let m2 = set_route_outcome(m, d, volumes, source, target, true).0;
    assert(m2[source].remove(target) =~= m[source]);
    assert(m2.insert(source, m2[source].remove(target)) =~= m);
}

/// Whether the id is one of the profile's sources (physical or virtual).
pub open spec fn listed_source(d: ProfileDevices, id: u128) -> bool {
    d.physical_sources@.contains(id) || d.virtual_sources@.contains(id)
}

/// Whether the id is one of the profile's targets (physical or virtual).
pub open spec fn listed_target(d: ProfileDevices, id: u128) -> bool {
    d.physical_targets@.contains(id) || d.virtual_targets@.contains(id)
}

/// A request from any source of the profile, physical or virtual, to a
/// target that is no source passes the checks; it is refused as coming
/// from a target only when the source id is a target and no source.
pub proof fn law_route_check_by_kind(d: ProfileDevices, source: u128, target: u128)
    ensures
        listed_source(d, source) && listed_target(d, target) && !listed_source(d, target) ==> route_check(d, source,
            target) is None,
        route_check(d, source, target) == Some(RouteError::SourceIsTarget) ==> !listed_source(d, source)
            && listed_target(d, source),
        listed_source(d, source) ==> route_check(d, source, target) != Some(RouteError::SourceIsTarget),
{
}

/// Routing any source of the profile to a target that can be fed (a
/// physical target, or a virtual one with a volume node) and is not routed
/// from it yet succeeds, answers the node that feeds the target, and
/// records the route; clearing it again succeeds and removes it.
pub proof fn law_route_from_any_source(m: Map<u128, Set<u128>>, d: ProfileDevices, volumes: Map<u128, u128>,
    source: u128, target: u128)
    requires
        listed_source(d, source),
        listed_target(d, target),
        !listed_source(d, target),
        d.physical_targets@.contains(target) || volumes.contains_key(target),
        !(m.contains_key(source) && m[source].contains(target)),
    ensures
        ({
            let (m2, r) = set_route_outcome(m, d, volumes, source, target, true);
            let node = if d.physical_targets@.contains(target) { target } else { volumes[target] };
            &&& r == Ok::<u128, RouteError>(node)
            &&& m2.contains_key(source) && m2[source].contains(target)
            &&& forall|k: u128| k != source ==> (#[trigger] m2.contains_key(k)) == m.contains_key(k)
                && (m.contains_key(k) ==> m2[k] == m[k])
            &&& ({
                let (m3, r3) = set_route_outcome(m2, d, volumes, source, target, false);
                &&& r3 == Ok::<u128, RouteError>(node)
                &&& !m3[source].contains(target)
            })
        }),
{
    let (m2, r) = set_route_outcome(m, d, volumes, source, target, true);
    assert(m2[source].contains(target));
}

} // verus!
