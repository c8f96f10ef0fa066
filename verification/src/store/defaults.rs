//! Which node is the configured and the current default sink and source,
//! what upstream is told when that changes, and the metadata write that
//! makes a node the configured default.

use vstd::prelude::*;
use super::{ManagedNode, Store, Touch, touch_none};
use super::managed::{default_event, push_opt};
use crate::default_device::{DefaultDefinition, DefaultDeviceModel, after_set_configured, after_set_default,
    after_set_configured_node_id, after_set_default_node_id};
use crate::events::NodeTarget;
use crate::media::MediaClass;
use crate::registry::{RegistryDeviceNode, opt_view};
use crate::text::{has_infix, str_contains, str_eq};
use vstd::string::StringExecFns;

verus! {

/// The first managed node (walk order) created with this name: its
/// PipeWire id, which may still be unknown.
pub open spec fn managed_named(s: Seq<(u128, ManagedNode)>, name: Seq<char>) -> Option<Option<u32>>
    decreases s.len(),
{
    if s.len() == 0 {
        None
    } else if s[0].1.node_name is Some && s[0].1.node_name->0@ == name {
        Some(s[0].1.pw_id)
    } else {
        managed_named(s.drop_first(), name)
    }
}

/// The first device node (walk order) with this name.
pub open spec fn device_named(s: Seq<(u32, RegistryDeviceNode)>, name: Seq<char>) -> Option<u32>
    decreases s.len(),
{
    if s.len() == 0 {
        None
    } else if s[0].1.name is Some && s[0].1.name->0@ == name {
        Some(s[0].0)
    } else {
        device_named(s.drop_first(), name)
    }
}

/// The PipeWire id of the node with this name: our nodes are searched
/// first (one of them carrying the name decides, bound or not), then the
/// device nodes.
pub open spec fn node_by_name(managed: Seq<(u128, ManagedNode)>, devices: Seq<(u32, RegistryDeviceNode)>,
    name: Seq<char>) -> Option<u32> {
    match managed_named(managed, name) {
        Some(pw_id) => pw_id,
        None => device_named(devices, name),
    }
}

/// Attaches node ids to the configured and the default name, where nodes
/// with those names are known; true when upstream must hear of it.
pub open spec fn after_populate(m: DefaultDeviceModel, managed: Seq<(u128, ManagedNode)>,
    devices: Seq<(u32, RegistryDeviceNode)>) -> (DefaultDeviceModel, bool) {
    let (m1, c1) = match m.configured {
        Some(c) => match node_by_name(managed, devices, c.name) {
            Some(id) => after_set_configured_node_id(m, id),
            None => (m, false),
        },
        None => (m, false),
    };
    let (m2, c2) = match m.default {
        Some(d) => match node_by_name(managed, devices, d.name) {
            Some(id) => after_set_default_node_id(m1, id),
            None => (m1, false),
        },
        None => (m1, false),
    };
    (m2, c1 || c2)
}

/// The name a metadata default carries.
pub open spec fn definition_name(d: DefaultDefinition) -> Seq<char> {
    match d {
        DefaultDefinition::Configured(n) => n@,
        DefaultDefinition::Default(n) => n@,
    }
}

/// Recording a configured (or else current) default name.
pub open spec fn after_set_name(m: DefaultDeviceModel, configured: bool, name: Seq<char>) -> (DefaultDeviceModel, bool) {
    if configured { after_set_configured(m, name) } else { after_set_default(m, name) }
}

/// A media class string names a node usable as `class`.
pub open spec fn class_serves(c: Seq<char>, class: MediaClass) -> bool {
    match class {
        MediaClass::Sink => has_infix(c, "Sink"@) || has_infix(c, "Duplex"@),
        MediaClass::Source => has_infix(c, "Source"@) || has_infix(c, "Duplex"@),
        MediaClass::Duplex => has_infix(c, "Duplex"@),
    }
}

/// Why a node cannot be made the configured default.
#[derive(Debug, Clone, Copy, PartialEq, Eq, Structural)]
pub enum DefaultTargetError {
    /// The node is not a sink (or source) at all.
    NotValidTarget,
    /// The node has no name to configure.
    NodeNotFound,
    /// The session metadata is not bound yet.
    NoSessionProxy,
}

impl DefaultTargetError {
    pub fn message(&self) -> (r: &'static str)
        ensures
            r@ == (match *self {
                DefaultTargetError::NotValidTarget => "Target is not a valid default for this direction"@,
                DefaultTargetError::NodeNotFound => "Node not found for target"@,
                DefaultTargetError::NoSessionProxy => "No session proxy available"@,
            }),
    {
        match self {
            DefaultTargetError::NotValidTarget => "Target is not a valid default for this direction",
            DefaultTargetError::NodeNotFound => "Node not found for target",
            DefaultTargetError::NoSessionProxy => "No session proxy available",
        }
    }
}

/// A property to write into a metadata object.
#[derive(Debug, Clone)]
pub struct MetadataWrite {
    pub subject: u32,
    pub key: String,
    pub value_type: String,
    pub value: String,
}

/// The JSON object naming a node, as the session metadata stores it.
pub open spec fn name_json(name: Seq<char>) -> Seq<char> {
    "{\"name\":\""@ + name + "\"}"@
}

/// Builds `{"name":"<name>"}`; the name is taken as it is.
pub fn name_json_value(name: &str) -> (r: String)
    ensures
        r@ == name_json(name@),
{
    let mut s = String::new();
    s.append("{\"name\":\"");
    s.append(name);
    s.append("\"}");
    s
}

fn same_name(a: &Option<String>, name: &str) -> (r: bool)
    ensures
        r == (a is Some && a->0@ == name@),
{
    match a {
        Some(n) => str_eq(n.as_str(), name),
        None => false,
    }
}

impl Store {
    /// The PipeWire id of the node with this name (see `node_by_name`).
    pub fn find_node_by_name(&self, name: &str) -> (r: Option<u32>)
        ensures
            r == node_by_name(self.managed_nodes.entries(), self.unmanaged_device_nodes.entries(), name@),
    {
        let n = self.managed_nodes.len();
        let mut i: usize = 0;
        assert(self.managed_nodes.entries().skip(0) =~= self.managed_nodes.entries());
        while i < n
            invariant
                n == self.managed_nodes.entries().len(),
                i <= n,
                managed_named(self.managed_nodes.entries(), name@)
                    == managed_named(self.managed_nodes.entries().skip(i as int), name@),
            decreases n - i,
        {
            let e = self.managed_nodes.entry(i);
            let ghost rest = self.managed_nodes.entries().skip(i as int);
            assert(rest[0] == *e);
            assert(rest.drop_first() =~= self.managed_nodes.entries().skip(i + 1));
            if same_name(&e.1.node_name, name) {
                return e.1.pw_id;
            }
            i = i + 1;
        }
        let m = self.unmanaged_device_nodes.len();
        let mut j: usize = 0;
        assert(self.unmanaged_device_nodes.entries().skip(0) =~= self.unmanaged_device_nodes.entries());
        while j < m
            invariant
                m == self.unmanaged_device_nodes.entries().len(),
                j <= m,
                managed_named(self.managed_nodes.entries(), name@) is None,
                device_named(self.unmanaged_device_nodes.entries(), name@)
                    == device_named(self.unmanaged_device_nodes.entries().skip(j as int), name@),
            decreases m - j,
        {
            let e = self.unmanaged_device_nodes.entry(j);
            let ghost rest = self.unmanaged_device_nodes.entries().skip(j as int);
            assert(rest[0] == *e);
            assert(rest.drop_first() =~= self.unmanaged_device_nodes.entries().skip(j + 1));
            if same_name(&e.1.name, name) {
                return Some(e.0);
            }
            j = j + 1;
        }
        None
    }

    /// Attaches node ids to the sink's (or source's) configured and default
    /// names; true when upstream must hear of it.
    fn populate_default_node_ids(&mut self, is_sink: bool) -> (r: bool)
        ensures
            is_sink ==> (final(self).default_sink@, r) == after_populate(old(self).default_sink@,
                old(self).managed_nodes.entries(), old(self).unmanaged_device_nodes.entries()),
            is_sink ==> final(self).default_source == old(self).default_source,
            !is_sink ==> (final(self).default_source@, r) == after_populate(old(self).default_source@,
                old(self).managed_nodes.entries(), old(self).unmanaged_device_nodes.entries()),
            !is_sink ==> final(self).default_sink == old(self).default_sink,
            final(self).keeps(old(self), Touch { defaults: true, ..touch_none() }),
            final(self).managed_nodes == old(self).managed_nodes,
    {
        let (configured, default) = if is_sink {
            (self.default_sink.get_configured().cloned(), self.default_sink.get_default().cloned())
        } else {
            (self.default_source.get_configured().cloned(), self.default_source.get_default().cloned())
        };
        let mut send_update = false;
        if let Some(name) = configured {
            if let Some(id) = self.find_node_by_name(name.as_str()) {
                let changed = if is_sink {
                    self.default_sink.set_configured_node_id(id)
                } else {
                    self.default_source.set_configured_node_id(id)
                };
                if changed {
                    send_update = true;
                }
            }
        }
        if let Some(name) = default {
            if let Some(id) = self.find_node_by_name(name.as_str()) {
                let changed = if is_sink {
                    self.default_sink.set_default_node_id(id)
                } else {
                    self.default_source.set_default_node_id(id)
                };
                if changed {
                    send_update = true;
                }
            }
        }
        send_update
    }

    pub fn find_default_sink_id(&mut self) -> (r: bool)
        ensures
            (final(self).default_sink@, r) == after_populate(old(self).default_sink@,
                old(self).managed_nodes.entries(), old(self).unmanaged_device_nodes.entries()),
            final(self).default_source == old(self).default_source,
            final(self).keeps(old(self), Touch { defaults: true, ..touch_none() }),
    {
        self.populate_default_node_ids(true)
    }

    pub fn find_default_source_id(&mut self) -> (r: bool)
        ensures
            (final(self).default_source@, r) == after_populate(old(self).default_source@,
                old(self).managed_nodes.entries(), old(self).unmanaged_device_nodes.entries()),
            final(self).default_sink == old(self).default_sink,
            final(self).keeps(old(self), Touch { defaults: true, ..touch_none() }),
    {
        self.populate_default_node_ids(false)
    }

    /// The session reported a default sink name. When it changes the record,
    /// the nodes are looked up, and if that found something new upstream is
    /// told the default sink.
    pub fn set_default_sink(&mut self, device: DefaultDefinition)
        ensures
            final(self).default_set(old(self), MediaClass::Sink, device is Configured, definition_name(device)),
    {
        let changed = self.default_sink.set(device);
        if changed && self.find_default_sink_id() {
            self.send_default_sink();
        }
    }

    /// The session reported a default source name (see `set_default_sink`).
    pub fn set_default_source(&mut self, device: DefaultDefinition)
        ensures
            final(self).default_set(old(self), MediaClass::Source, device is Configured, definition_name(device)),
    {
        let changed = self.default_source.set(device);
        if changed && self.find_default_source_id() {
            self.send_default_source();
        }
    }

    /// `self` is `o` after the session reported the configured (or the
    /// current) default name of the sink (or source, `class`): when that
    /// changes the record, the nodes are looked up, and if that found
    /// something new upstream is told the default.
    pub open spec fn default_set(&self, o: &Store, class: MediaClass, configured: bool, name: Seq<char>) -> bool {
        let m0 = if class == MediaClass::Sink { o.default_sink@ } else { o.default_source@ };
        let m = if class == MediaClass::Sink { self.default_sink@ } else { self.default_source@ };
        let (m1, changed) = after_set_name(m0, configured, name);
        let (m2, found) = after_populate(m1, o.managed_nodes.entries(), o.unmanaged_device_nodes.entries());
        &&& if changed {
            &&& m == m2
            &&& self.events@ == (if found {
                push_opt(o.events@, default_event(o.managed_nodes.entries(), m2, class))
            } else {
                o.events@
            })
        } else {
            &&& m == m1
            &&& self.events@ == o.events@
        }
        &&& (class == MediaClass::Sink ==> self.default_source == o.default_source)
        &&& (class != MediaClass::Sink ==> self.default_sink == o.default_sink)
        &&& self.keeps(o, Touch { defaults: true, events: true, ..touch_none() })
    }

    /// The media class the target node was created with or reports.
    pub open spec fn target_media_class(&self, target: NodeTarget) -> Option<Seq<char>> {
        match target {
            NodeTarget::Node(u) => if self.managed_nodes@.contains_key(u) {
                opt_view(self.managed_nodes@[u].media_class)
            } else {
                None
            },
            NodeTarget::UnmanagedNode(id) => if self.unmanaged_device_nodes@.contains_key(id) {
                opt_view(self.unmanaged_device_nodes@[id].media_class)
            } else {
                None
            },
        }
    }

    /// The name of the target node, if it has one.
    pub open spec fn target_name(&self, target: NodeTarget) -> Option<Seq<char>> {
        match target {
            NodeTarget::Node(u) => if self.managed_nodes@.contains_key(u) {
                opt_view(self.managed_nodes@[u].node_name)
            } else {
                None
            },
            NodeTarget::UnmanagedNode(id) => if self.unmanaged_device_nodes@.contains_key(id) {
                opt_view(self.unmanaged_device_nodes@[id].name)
            } else {
                None
            },
        }
    }

    /// The target is a node whose media class serves as `class`.
    pub fn is_valid_target(&self, target: NodeTarget, class: MediaClass) -> (r: bool)
        ensures
            r == (self.target_media_class(target) matches Some(c) && class_serves(c, class)),
    {
        let media_class = match target {
            NodeTarget::Node(u) => match self.managed_node_get(u) {
                Some(n) => &n.media_class,
                None => return false,
            },
            NodeTarget::UnmanagedNode(id) => match self.unmanaged_device_node_get(id) {
                Some(n) => &n.media_class,
                None => return false,
            },
        };
        let c = match media_class {
            Some(c) => c.as_str(),
            None => return false,
        };
        match class {
            MediaClass::Sink => str_contains(c, "Sink") || str_contains(c, "Duplex"),
            MediaClass::Source => str_contains(c, "Source") || str_contains(c, "Duplex"),
            MediaClass::Duplex => str_contains(c, "Duplex"),
        }
    }

    pub fn find_node_name_by_target(&self, target: NodeTarget) -> (r: Option<String>)
        ensures
            opt_view(r) == self.target_name(target),
    {
        match target {
            NodeTarget::Node(u) => match self.managed_node_get(u) {
                Some(n) => n.node_name.clone(),
                None => None,
            },
            NodeTarget::UnmanagedNode(id) => match self.unmanaged_device_node_get(id) {
                Some(n) => n.name.clone(),
                None => None,
            },
        }
    }

    /// The metadata write that makes the target the configured default of
    /// one direction, or why it cannot be made.
    fn configured_default_write(&self, target: NodeTarget, class: MediaClass, key: &str)
        -> (r: Result<MetadataWrite, DefaultTargetError>)
        ensures
            !(self.target_media_class(target) matches Some(c) && class_serves(c, class))
                ==> r == Err::<MetadataWrite, DefaultTargetError>(DefaultTargetError::NotValidTarget),
            (self.target_media_class(target) matches Some(c) && class_serves(c, class)) ==> {
                if self.target_name(target) is None {
                    r == Err::<MetadataWrite, DefaultTargetError>(DefaultTargetError::NodeNotFound)
                } else if !self.has_session_proxy {
                    r == Err::<MetadataWrite, DefaultTargetError>(DefaultTargetError::NoSessionProxy)
                } else {
                    r matches Ok(w) && w.subject == 0 && w.key@ == key@ && w.value_type@ == "Spa:String:JSON"@
                        && w.value@ == name_json(self.target_name(target)->0)
                }
            },
    {
        if !self.is_valid_target(target, class) {
            return Err(DefaultTargetError::NotValidTarget);
        }
        let name = match self.find_node_name_by_target(target) {
            Some(n) => n,
            None => return Err(DefaultTargetError::NodeNotFound),
        };
        if !self.has_session_proxy {
            return Err(DefaultTargetError::NoSessionProxy);
        }
        Ok(MetadataWrite {
            subject: 0,
            key: key.to_owned(),
            value_type: "Spa:String:JSON".to_owned(),
            value: name_json_value(name.as_str()),
        })
    }

    /// Makes the target the configured default sink: the write to the
    /// session metadata, or why it cannot be made (not a sink, no name, no
    /// session metadata, checked in that order).
    pub fn set_default_sink_node(&self, target: NodeTarget) -> (r: Result<MetadataWrite, DefaultTargetError>)
        ensures
            !(self.target_media_class(target) matches Some(c) && class_serves(c, MediaClass::Sink))
                ==> r == Err::<MetadataWrite, DefaultTargetError>(DefaultTargetError::NotValidTarget),
            (self.target_media_class(target) matches Some(c) && class_serves(c, MediaClass::Sink)) ==> {
                if self.target_name(target) is None {
                    r == Err::<MetadataWrite, DefaultTargetError>(DefaultTargetError::NodeNotFound)
                } else if !self.has_session_proxy {
                    r == Err::<MetadataWrite, DefaultTargetError>(DefaultTargetError::NoSessionProxy)
                } else {
                    r matches Ok(w) && w.subject == 0 && w.key@ == "default.configured.audio.sink"@
                        && w.value_type@ == "Spa:String:JSON"@ && w.value@ == name_json(self.target_name(target)->0)
                }
            },
    {
        self.configured_default_write(target, MediaClass::Sink, "default.configured.audio.sink")
    }

    /// Makes the target the configured default source (see
    /// `set_default_sink_node`).
    pub fn set_default_source_node(&self, target: NodeTarget) -> (r: Result<MetadataWrite, DefaultTargetError>)
        ensures
            !(self.target_media_class(target) matches Some(c) && class_serves(c, MediaClass::Source))
                ==> r == Err::<MetadataWrite, DefaultTargetError>(DefaultTargetError::NotValidTarget),
            (self.target_media_class(target) matches Some(c) && class_serves(c, MediaClass::Source)) ==> {
                if self.target_name(target) is None {
                    r == Err::<MetadataWrite, DefaultTargetError>(DefaultTargetError::NodeNotFound)
                } else if !self.has_session_proxy {
                    r == Err::<MetadataWrite, DefaultTargetError>(DefaultTargetError::NoSessionProxy)
                } else {
                    r matches Ok(w) && w.subject == 0 && w.key@ == "default.configured.audio.source"@
                        && w.value_type@ == "Spa:String:JSON"@ && w.value@ == name_json(self.target_name(target)->0)
                }
            },
    {
        self.configured_default_write(target, MediaClass::Source, "default.configured.audio.source")
    }
}

} // verus!
