//! The nodes and filters we create: the properties PipeWire is asked to
//! create them with, and the record the store keeps of them meanwhile.

use vstd::prelude::*;
use vstd::string::StringExecFns;
use super::{ManagedFilter, ManagedNode, NodeStoreState, Store, Touch, touch_none};
use crate::media::MediaClass;
use crate::registry::{PortLocation, Props, pair_view};
use crate::shared::PortDirection;
use crate::text::{decimal_of, decimal_string};

verus! {

/// What a node of ours is created from.
#[derive(Debug, Clone)]
pub struct NodeProperties {
    pub node_id: u128,
    pub node_name: String,
    pub node_nick: String,
    pub node_description: String,
    pub initial_volume: u8,
    pub app_id: String,
    pub app_name: String,
    pub linger: bool,
    pub class: MediaClass,
    /// Whether our own filters manage the volume.
    pub managed_volume: bool,
    /// The quantum to force, if any.
    pub buffer: Option<u32>,
    pub rate: u32,
    /// Whether a caller waits for the node to be ready.
    pub ready_sender: bool,
}

/// What a filter of ours is created from.
#[derive(Debug, Clone)]
pub struct FilterProperties {
    pub filter_id: u128,
    pub filter_name: String,
    pub filter_nick: String,
    pub filter_description: String,
    pub app_id: String,
    pub app_name: String,
    pub class: MediaClass,
    pub linger: bool,
    pub ready_sender: bool,
}

pub open spec fn bool_text(b: bool) -> Seq<char> {
    if b { "true"@ } else { "false"@ }
}

/// The media class a node of ours is created with.
pub open spec fn created_class(c: MediaClass) -> Seq<char> {
    match c {
        MediaClass::Source => "Audio/Source/Virtual"@,
        MediaClass::Duplex => "Audio/Duplex"@,
        MediaClass::Sink => "Audio/Sink"@,
    }
}

/// The properties a node of ours is created with, in order: a virtual
/// stereo null sink that always processes, is never a driver, is forced
/// to the graph's rate (and quantum, when given), and leaves the channel
/// volumes alone when our filters manage them.
pub open spec fn node_property_list(p: NodeProperties) -> Seq<(Seq<char>, Seq<char>)> {
    seq![
        ("factory.name"@, "support.null-audio-sink"@),
        ("node.name"@, p.node_name@),
        ("node.nick"@, p.node_nick@),
        ("node.description"@, p.node_description@),
        ("node.always-process"@, "true"@),
        ("node.virtual"@, "true"@),
        ("port.monitor"@, "false"@),
        ("application.icon-name"@, p.app_id@),
        ("media.icon-name"@, p.app_id@),
        ("device.icon-name"@, p.app_id@),
        ("node.group"@, "pipeweaver-nodes"@),
        ("object.linger"@, bool_text(p.linger)),
        ("media.class"@, created_class(p.class)),
        ("audio.channels"@, "2"@),
        ("node.force-rate"@, decimal_of(p.rate as nat)),
        ("node.driver"@, "false"@),
        ("audio.position"@, "FL,FR"@),
        ("monitor.channel-volumes"@, bool_text(!p.managed_volume)),
    ] + match p.buffer {
        Some(q) => seq![("node.force-quantum"@, decimal_of(q as nat))],
        None => Seq::empty(),
    }
}

/// The properties a filter of ours is created with, in order.
pub open spec fn filter_property_list(p: FilterProperties) -> Seq<(Seq<char>, Seq<char>)> {
    seq![
        ("application.id"@, p.app_id@),
        ("node.name"@, p.filter_name@),
        ("node.nick"@, p.filter_nick@),
        ("node.description"@, p.filter_description@),
        ("node.always-process"@, "true"@),
        ("node.group"@, "pipeweaver-nodes"@),
        ("media.type"@, "Audio"@),
        ("media.category"@, "Filter"@),
        ("media.role"@, "DSP"@),
        ("object.linger"@, "false"@),
    ]
}

/// Which ports a filter has: inputs when it is a source (or duplex),
/// outputs when it is a sink (or duplex).
pub open spec fn filter_has_inputs(c: MediaClass) -> bool {
    c == MediaClass::Source || c == MediaClass::Duplex
}

pub open spec fn filter_has_outputs(c: MediaClass) -> bool {
    c == MediaClass::Sink || c == MediaClass::Duplex
}

pub open spec fn channel_name(l: PortLocation) -> Seq<char> {
    match l {
        PortLocation::Left => "FL"@,
        PortLocation::Right => "FR"@,
    }
}

/// The properties of one port of a filter of ours: a mono float port
/// named after its side and channel.
pub open spec fn filter_port_property_list(dir: PortDirection, l: PortLocation) -> Seq<(Seq<char>, Seq<char>)> {
    seq![
        ("format.dsp"@, "32 bit float mono audio"@),
        ("port.name"@, (if dir == PortDirection::In { "input_"@ } else { "output_"@ }) + channel_name(l)),
        ("audio.channel"@, channel_name(l)),
    ]
}

fn push_prop(props: &mut Props, key: &str, value: String)
    ensures
        final(props)@ == old(props)@.push((key@, value@)),
{
    let ghost before = props.entries@;
    props.entries.push((key.to_owned(), value));
    proof {
        assert(props.entries@ =~= before.push((props.entries@.last().0, props.entries@.last().1)));
        assert(props@ =~= old(props)@.push((key@, value@)));
    }
}

fn bool_string(b: bool) -> (r: String)
    ensures
        r@ == bool_text(b),
{
    if b { "true".to_owned() } else { "false".to_owned() }
}

/// The properties to create a node of ours with.
pub fn node_properties(p: &NodeProperties) -> (r: Props)
    ensures
        r@ == node_property_list(*p),
{
    let mut props = Props { entries: Vec::new() };
    assert(props@ =~= Seq::<(Seq<char>, Seq<char>)>::empty());
    push_prop(&mut props, "factory.name", "support.null-audio-sink".to_owned());
    push_prop(&mut props, "node.name", p.node_name.clone());
    push_prop(&mut props, "node.nick", p.node_nick.clone());
    push_prop(&mut props, "node.description", p.node_description.clone());
    push_prop(&mut props, "node.always-process", "true".to_owned());
    push_prop(&mut props, "node.virtual", "true".to_owned());
    push_prop(&mut props, "port.monitor", "false".to_owned());
    push_prop(&mut props, "application.icon-name", p.app_id.clone());
    push_prop(&mut props, "media.icon-name", p.app_id.clone());
    push_prop(&mut props, "device.icon-name", p.app_id.clone());
    push_prop(&mut props, "node.group", "pipeweaver-nodes".to_owned());
    push_prop(&mut props, "object.linger", bool_string(p.linger));
    let class = match p.class {
        MediaClass::Source => "Audio/Source/Virtual",
        MediaClass::Duplex => "Audio/Duplex",
        MediaClass::Sink => "Audio/Sink",
    };
    push_prop(&mut props, "media.class", class.to_owned());
    push_prop(&mut props, "audio.channels", "2".to_owned());
    push_prop(&mut props, "node.force-rate", decimal_string(p.rate));
    push_prop(&mut props, "node.driver", "false".to_owned());
    push_prop(&mut props, "audio.position", "FL,FR".to_owned());
    push_prop(&mut props, "monitor.channel-volumes", bool_string(!p.managed_volume));
    if let Some(q) = p.buffer {
        push_prop(&mut props, "node.force-quantum", decimal_string(q));
    }
    assert(props@ =~= node_property_list(*p));
    props
}

/// The properties to create a filter of ours with.
pub fn filter_properties(p: &FilterProperties) -> (r: Props)
    ensures
        r@ == filter_property_list(*p),
{
    let mut props = Props { entries: Vec::new() };
    assert(props@ =~= Seq::<(Seq<char>, Seq<char>)>::empty());
    push_prop(&mut props, "application.id", p.app_id.clone());
    push_prop(&mut props, "node.name", p.filter_name.clone());
    push_prop(&mut props, "node.nick", p.filter_nick.clone());
    push_prop(&mut props, "node.description", p.filter_description.clone());
    push_prop(&mut props, "node.always-process", "true".to_owned());
    push_prop(&mut props, "node.group", "pipeweaver-nodes".to_owned());
    push_prop(&mut props, "media.type", "Audio".to_owned());
    push_prop(&mut props, "media.category", "Filter".to_owned());
    push_prop(&mut props, "media.role", "DSP".to_owned());
    push_prop(&mut props, "object.linger", "false".to_owned());
    assert(props@ =~= filter_property_list(*p));
    props
}

/// The properties of one port of a filter of ours.
pub fn filter_port_properties(dir: PortDirection, location: PortLocation) -> (r: Props)
    ensures
        r@ == filter_port_property_list(dir, location),
{
    let mut props = Props { entries: Vec::new() };
    assert(props@ =~= Seq::<(Seq<char>, Seq<char>)>::empty());
    push_prop(&mut props, "format.dsp", "32 bit float mono audio".to_owned());
    let mut name = match dir {
        PortDirection::In => "input_".to_owned(),
        PortDirection::Out => "output_".to_owned(),
    };
    name.append(location.name());
    push_prop(&mut props, "port.name", name);
    push_prop(&mut props, "audio.channel", location.name().to_owned());
    assert(props@ =~= filter_port_property_list(dir, location));
    props
}

/// Whether a filter of a class has input ports, and output ports.
pub fn filter_port_sides(class: MediaClass) -> (r: (bool, bool))
    ensures
        r == (filter_has_inputs(class), filter_has_outputs(class)),
{
    (class == MediaClass::Source || class == MediaClass::Duplex, class == MediaClass::Sink || class == MediaClass::Duplex)
}

impl Store {
    /// PipeWire was asked to create a node of ours and answered: when it
    /// created the node the store records it until PipeWire binds it;
    /// when it refused, the store stays as it was.
    pub fn node_created(&mut self, p: &NodeProperties, created: bool)
        ensures
            !created ==> final(self).keeps(old(self), touch_none()),
            created ==> final(self).managed_nodes@.contains_key(p.node_id),
            created ==> ({
                let n = final(self).managed_nodes@[p.node_id];
                &&& final(self).managed_nodes@ == old(self).managed_nodes@.insert(p.node_id, n)
                &&& n.id == p.node_id && n.pw_id is None && n.object_serial is None
                &&& n.node_name is Some && n.node_name->0@ == p.node_name@
                &&& n.media_class is Some && n.media_class->0@ == created_class(p.class)
                &&& n.port_left is None && n.port_right is None && !n.ports_ready
                &&& n.node_state is Creating
                &&& n.ready_sender == Some(p.ready_sender)
            }),
            final(self).keeps(old(self), Touch { managed_nodes: true, ..touch_none() }),
    {
        if !created {
            return;
        }
        let class = match p.class {
            MediaClass::Source => "Audio/Source/Virtual",
            MediaClass::Duplex => "Audio/Duplex",
            MediaClass::Sink => "Audio/Sink",
        };
        let node = ManagedNode {
            id: p.node_id,
            pw_id: None,
            object_serial: None,
            node_name: Some(p.node_name.clone()),
            media_class: Some(class.to_owned()),
            port_left: None,
            port_right: None,
            ports_ready: false,
            node_state: NodeStoreState::Creating,
            ready_sender: Some(p.ready_sender),
        };
        self.managed_node_add(node);
        assert(self.managed_nodes@ =~= old(self).managed_nodes@.insert(p.node_id, self.managed_nodes@[p.node_id]));
    }

    /// PipeWire was asked to create a filter of ours and answered: when it
    /// created the filter the store records it with its port indices (left
    /// first on each side it has, zero where it has none) until PipeWire
    /// binds it; when it refused, the store stays as it was.
    pub fn filter_created(&mut self, p: &FilterProperties, created: bool)
        ensures
            !created ==> final(self).keeps(old(self), touch_none()),
            created ==> final(self).managed_filters@ == old(self).managed_filters@.insert(p.filter_id, ManagedFilter {
                id: p.filter_id,
                pw_id: None,
                port_in_left: 0,
                port_in_right: if filter_has_inputs(p.class) { 1 } else { 0 },
                port_out_left: 0,
                port_out_right: if filter_has_outputs(p.class) { 1 } else { 0 },
                ready_sender: Some(p.ready_sender),
            }),
            final(self).keeps(old(self), Touch { managed_filters: true, ..touch_none() }),
    {
        if !created {
            return;
        }
        let (inputs, outputs) = filter_port_sides(p.class);
        let filter = ManagedFilter {
            id: p.filter_id,
            pw_id: None,
            port_in_left: 0,
            port_in_right: if inputs { 1 } else { 0 },
            port_out_left: 0,
            port_out_right: if outputs { 1 } else { 0 },
            ready_sender: Some(p.ready_sender),
        };
        self.managed_filter_add(filter);
    }

}

} // verus!
