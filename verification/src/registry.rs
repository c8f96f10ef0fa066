//! The objects PipeWire's registry announces, read from their property
//! dictionaries, and the small rules that decide whether each is kept.

use vstd::prelude::*;
use crate::id_map::IdMap;
use crate::media::{check_device_node_class, check_stream_class, is_device_node_class,
    is_stream_class, media_class_for, get_media_class, MediaClass, DeviceClassError};
use crate::shared::PortDirection;
use crate::text::{field_of, parse_u32, split_nth, str_eq, u32_of};
use crate::events::{DeviceNode, NodePort};

verus! {

/// A property dictionary: key/value pairs in the order PipeWire sent them.
#[derive(Debug, Clone)]
pub struct Props {
    pub entries: Vec<(String, String)>,
}

pub open spec fn pair_view(p: (String, String)) -> (Seq<char>, Seq<char>) {
    (p.0@, p.1@)
}

impl View for Props {
    type V = Seq<(Seq<char>, Seq<char>)>;

    open spec fn view(&self) -> Seq<(Seq<char>, Seq<char>)> {
        self.entries@.map_values(|p: (String, String)| pair_view(p))
    }
}

/// The value of the first entry with the given key.
pub open spec fn lookup(s: Seq<(Seq<char>, Seq<char>)>, key: Seq<char>) -> Option<Seq<char>>
    decreases s.len(),
{
    if s.len() == 0 {
        None
    } else if s[0].0 == key {
        Some(s[0].1)
    } else {
        lookup(s.drop_first(), key)
    }
}

/// The value of a key read as a `u32`; absent keys and bad numbers give none.
pub open spec fn lookup_u32(s: Seq<(Seq<char>, Seq<char>)>, key: Seq<char>) -> Option<u32> {
    match lookup(s, key) {
        Some(v) => u32_of(v),
        None => None,
    }
}

pub open spec fn opt_view(o: Option<String>) -> Option<Seq<char>> {
    match o {
        Some(s) => Some(s@),
        None => None,
    }
}

impl Props {
    /// The value of the first entry with this key.
    pub fn get(&self, key: &str) -> (r: Option<&String>)
        ensures
            r is Some == lookup(self@, key@) is Some,
            r matches Some(v) ==> lookup(self@, key@) == Some(v@),
    {
        let mut i: usize = 0;
        assert(self@.skip(0) =~= self@);
        while i < self.entries.len()
            invariant
                i <= self.entries@.len(),
                lookup(self@, key@) == lookup(self@.skip(i as int), key@),
            decreases self.entries@.len() - i,
        {
            let ghost rest = self@.skip(i as int);
            assert(rest[0] == pair_view(self.entries@[i as int]));
            assert(rest.drop_first() =~= self@.skip(i + 1));
            if str_eq(self.entries[i].0.as_str(), key) {
                return Some(&self.entries[i].1);
            }
            i = i + 1;
        }
        assert(self@.skip(i as int).len() == 0);
        None
    }

    /// The value of a key as a `u32`.
    pub fn get_u32(&self, key: &str) -> (r: Option<u32>)
        ensures
            r == lookup_u32(self@, key@),
    {
        match self.get(key) {
            Some(v) => parse_u32(v.as_str()),
            None => None,
        }
    }

    /// The value of a key, copied.
    pub fn get_string(&self, key: &str) -> (r: Option<String>)
        ensures
            opt_view(r) == lookup(self@, key@),
    {
        match self.get(key) {
            Some(v) => Some(v.clone()),
            None => None,
        }
    }
}

/// The properties a registry record can be refused for.
#[derive(Debug, Copy, Clone, PartialEq, Eq, Structural)]
pub enum RegistryError {
    ObjectSerial,
    ModuleId,
    FactoryName,
    FactoryTypeName,
    FactoryVersion,
    LinkInputNode,
    LinkInputPort,
    LinkOutputNode,
    LinkOutputPort,
    Protocol,
    SecPid,
    SecUid,
    SecGid,
    Access,
    AppName,
    ClientId,
    ApplicationName,
    NodeName,
    NotAStream,
    NotAudioDevice,
    InternalDevice,
    MissingMediaClass,
}

impl RegistryError {
    /// The text the error is reported with.
    pub fn message(&self) -> (r: &'static str)
        ensures
            r@ == (match *self {
                RegistryError::ObjectSerial => "OBJECT_SERIAL"@,
                RegistryError::ModuleId => "MODULE_ID"@,
                RegistryError::FactoryName => "FACTORY_NAME"@,
                RegistryError::FactoryTypeName => "FACTORY_TYPE_NAME"@,
                RegistryError::FactoryVersion => "FACTORY_VERSION"@,
                RegistryError::LinkInputNode => "LINK_INPUT_NODE"@,
                RegistryError::LinkInputPort => "LINK_INPUT_PORT"@,
                RegistryError::LinkOutputNode => "LINK_OUTPUT_NODE"@,
                RegistryError::LinkOutputPort => "LINK_OUTPUT_PORT"@,
                RegistryError::Protocol => "PROTOCOL"@,
                RegistryError::SecPid => "SEC_PID"@,
                RegistryError::SecUid => "SEC_UID"@,
                RegistryError::SecGid => "SEC_GID"@,
                RegistryError::Access => "ACCESS"@,
                RegistryError::AppName => "APP_NAME"@,
                RegistryError::ClientId => "CLIENT_ID"@,
                RegistryError::ApplicationName => "APPLICATION_NAME"@,
                RegistryError::NodeName => "NODE_NAME"@,
                RegistryError::NotAStream => "Not a stream node"@,
                RegistryError::NotAudioDevice => "Not an Audio Device Node"@,
                RegistryError::InternalDevice => "Internal Device Node"@,
                RegistryError::MissingMediaClass => "Missing Media Class"@,
            }),
    {
        match self {
            RegistryError::ObjectSerial => "OBJECT_SERIAL",
            RegistryError::ModuleId => "MODULE_ID",
            RegistryError::FactoryName => "FACTORY_NAME",
            RegistryError::FactoryTypeName => "FACTORY_TYPE_NAME",
            RegistryError::FactoryVersion => "FACTORY_VERSION",
            RegistryError::LinkInputNode => "LINK_INPUT_NODE",
            RegistryError::LinkInputPort => "LINK_INPUT_PORT",
            RegistryError::LinkOutputNode => "LINK_OUTPUT_NODE",
            RegistryError::LinkOutputPort => "LINK_OUTPUT_PORT",
            RegistryError::Protocol => "PROTOCOL",
            RegistryError::SecPid => "SEC_PID",
            RegistryError::SecUid => "SEC_UID",
            RegistryError::SecGid => "SEC_GID",
            RegistryError::Access => "ACCESS",
            RegistryError::AppName => "APP_NAME",
            RegistryError::ClientId => "CLIENT_ID",
            RegistryError::ApplicationName => "APPLICATION_NAME",
            RegistryError::NodeName => "NODE_NAME",
            RegistryError::NotAStream => "Not a stream node",
            RegistryError::NotAudioDevice => "Not an Audio Device Node",
            RegistryError::InternalDevice => "Internal Device Node",
            RegistryError::MissingMediaClass => "Missing Media Class",
        }
    }
}

/// A port of a node, as the registry describes it.
#[derive(Debug, Clone)]
pub struct RegistryPort {
    pub global_id: u32,
    pub name: String,
    pub channel: String,
    pub is_monitor: bool,
}

impl RegistryPort {
    pub fn new(id: u32, name: &str, channel: &str, is_monitor: bool) -> (r: Self)
        ensures
            r.global_id == id,
            r.name@ == name@,
            r.channel@ == channel@,
            r.is_monitor == is_monitor,
    {
        RegistryPort { global_id: id, name: name.to_owned(), channel: channel.to_owned(), is_monitor }
    }
}

/// A link between two ports that we did not create.
#[derive(Debug, Copy, Clone, PartialEq, Eq, Structural)]
pub struct RegistryLink {
    pub object_serial: u32,
    pub input_node: u32,
    pub input_port: u32,
    pub output_node: u32,
    pub output_port: u32,
}

pub open spec fn link_from_props(p: Seq<(Seq<char>, Seq<char>)>) -> Result<RegistryLink, RegistryError> {
    if lookup_u32(p, "object.serial"@) is None {
        Err(RegistryError::ObjectSerial)
    } else if lookup_u32(p, "link.input.node"@) is None {
        Err(RegistryError::LinkInputNode)
    } else if lookup_u32(p, "link.input.port"@) is None {
        Err(RegistryError::LinkInputPort)
    } else if lookup_u32(p, "link.output.node"@) is None {
        Err(RegistryError::LinkOutputNode)
    } else if lookup_u32(p, "link.output.port"@) is None {
        Err(RegistryError::LinkOutputPort)
    } else {
        Ok(RegistryLink {
            object_serial: lookup_u32(p, "object.serial"@)->0,
            input_node: lookup_u32(p, "link.input.node"@)->0,
            input_port: lookup_u32(p, "link.input.port"@)->0,
            output_node: lookup_u32(p, "link.output.node"@)->0,
            output_port: lookup_u32(p, "link.output.port"@)->0,
        })
    }
}

impl RegistryLink {
    /// Reads a link; every one of its five numbers must be present.
    pub fn try_from(props: &Props) -> (r: Result<RegistryLink, RegistryError>)
        ensures
            r == link_from_props(props@),
    {
        let object_serial = match props.get_u32("object.serial") {
            Some(v) => v,
            None => return Err(RegistryError::ObjectSerial),
        };
        let input_node = match props.get_u32("link.input.node") {
            Some(v) => v,
            None => return Err(RegistryError::LinkInputNode),
        };
        let input_port = match props.get_u32("link.input.port") {
            Some(v) => v,
            None => return Err(RegistryError::LinkInputPort),
        };
        let output_node = match props.get_u32("link.output.node") {
            Some(v) => v,
            None => return Err(RegistryError::LinkOutputNode),
        };
        let output_port = match props.get_u32("link.output.port") {
            Some(v) => v,
            None => return Err(RegistryError::LinkOutputPort),
        };
        Ok(RegistryLink { object_serial, input_node, input_port, output_node, output_port })
    }
}

/// The kinds of object PipeWire's interfaces name.
#[derive(Debug, Clone)]
pub enum ObjectType {
    Client,
    ClientEndpoint,
    ClientNode,
    ClientSession,
    Core,
    Device,
    Endpoint,
    EndpointLink,
    EndpointStream,
    Factory,
    Link,
    Metadata,
    Module,
    Node,
    Port,
    Profiler,
    Registry,
    Session,
    Other(String),
}

pub open spec fn known_interface(s: Seq<char>) -> Option<ObjectType> {
    if s == "PipeWire:Interface:Client"@ { Some(ObjectType::Client) }
    else if s == "PipeWire:Interface:ClientEndpoint"@ { Some(ObjectType::ClientEndpoint) }
    else if s == "PipeWire:Interface:ClientNode"@ { Some(ObjectType::ClientNode) }
    else if s == "PipeWire:Interface:ClientSession"@ { Some(ObjectType::ClientSession) }
    else if s == "PipeWire:Interface:Core"@ { Some(ObjectType::Core) }
    else if s == "PipeWire:Interface:Device"@ { Some(ObjectType::Device) }
    else if s == "PipeWire:Interface:Endpoint"@ { Some(ObjectType::Endpoint) }
    else if s == "PipeWire:Interface:EndpointLink"@ { Some(ObjectType::EndpointLink) }
    else if s == "PipeWire:Interface:EndpointStream"@ { Some(ObjectType::EndpointStream) }
    else if s == "PipeWire:Interface:Factory"@ { Some(ObjectType::Factory) }
    else if s == "PipeWire:Interface:Link"@ { Some(ObjectType::Link) }
    else if s == "PipeWire:Interface:Metadata"@ { Some(ObjectType::Metadata) }
    else if s == "PipeWire:Interface:Module"@ { Some(ObjectType::Module) }
    else if s == "PipeWire:Interface:Node"@ { Some(ObjectType::Node) }
    else if s == "PipeWire:Interface:Port"@ { Some(ObjectType::Port) }
    else if s == "PipeWire:Interface:Profiler"@ { Some(ObjectType::Profiler) }
    else if s == "PipeWire:Interface:Registry"@ { Some(ObjectType::Registry) }
    else if s == "PipeWire:Interface:Session"@ { Some(ObjectType::Session) }
    else { None }
}

/// `t` is the object type that the interface name `s` denotes.
pub open spec fn object_type_of(t: ObjectType, s: Seq<char>) -> bool {
    match known_interface(s) {
        Some(k) => t == k,
        None => t matches ObjectType::Other(o) && o@ == s,
    }
}

/// Maps a full interface name (`PipeWire:Interface:Node`, ...) to its
/// object type; unknown names are kept as they are.
pub fn to_object_type(input: &str) -> (r: ObjectType)
    ensures
        object_type_of(r, input@),
{
    if str_eq(input, "PipeWire:Interface:Client") { ObjectType::Client }
    else if str_eq(input, "PipeWire:Interface:ClientEndpoint") { ObjectType::ClientEndpoint }
    else if str_eq(input, "PipeWire:Interface:ClientNode") { ObjectType::ClientNode }
    else if str_eq(input, "PipeWire:Interface:ClientSession") { ObjectType::ClientSession }
    else if str_eq(input, "PipeWire:Interface:Core") { ObjectType::Core }
    else if str_eq(input, "PipeWire:Interface:Device") { ObjectType::Device }
    else if str_eq(input, "PipeWire:Interface:Endpoint") { ObjectType::Endpoint }
    else if str_eq(input, "PipeWire:Interface:EndpointLink") { ObjectType::EndpointLink }
    else if str_eq(input, "PipeWire:Interface:EndpointStream") { ObjectType::EndpointStream }
    else if str_eq(input, "PipeWire:Interface:Factory") { ObjectType::Factory }
    else if str_eq(input, "PipeWire:Interface:Link") { ObjectType::Link }
    else if str_eq(input, "PipeWire:Interface:Metadata") { ObjectType::Metadata }
    else if str_eq(input, "PipeWire:Interface:Module") { ObjectType::Module }
    else if str_eq(input, "PipeWire:Interface:Node") { ObjectType::Node }
    else if str_eq(input, "PipeWire:Interface:Port") { ObjectType::Port }
    else if str_eq(input, "PipeWire:Interface:Profiler") { ObjectType::Profiler }
    else if str_eq(input, "PipeWire:Interface:Registry") { ObjectType::Registry }
    else if str_eq(input, "PipeWire:Interface:Session") { ObjectType::Session }
    else { ObjectType::Other(input.to_owned()) }
}

/// A factory that PipeWire offers.
#[derive(Debug, Clone)]
pub struct RegistryFactory {
    pub object_serial: u32,
    pub module_id: u32,
    pub name: String,
    pub factory_type: ObjectType,
    pub version: u32,
}

/// Which property, if any, a factory is refused for; checked in this order.
pub open spec fn factory_error(p: Seq<(Seq<char>, Seq<char>)>) -> Option<RegistryError> {
    if lookup_u32(p, "object.serial"@) is None {
        Some(RegistryError::ObjectSerial)
    } else if lookup_u32(p, "module.id"@) is None {
        Some(RegistryError::ModuleId)
    } else if lookup(p, "factory.name"@) is None {
        Some(RegistryError::FactoryName)
    } else if lookup(p, "factory.type.name"@) is None {
        Some(RegistryError::FactoryTypeName)
    } else if lookup_u32(p, "factory.type.version"@) is None {
        Some(RegistryError::FactoryVersion)
    } else {
        None
    }
}

impl RegistryFactory {
    pub fn try_from(props: &Props) -> (r: Result<RegistryFactory, RegistryError>)
        ensures
            r is Err <==> factory_error(props@) is Some,
            r matches Err(e) ==> factory_error(props@) == Some(e),
            r matches Ok(f) ==> {
                &&& Some(f.object_serial) == lookup_u32(props@, "object.serial"@)
                &&& Some(f.module_id) == lookup_u32(props@, "module.id"@)
                &&& Some(f.name@) == lookup(props@, "factory.name"@)
                &&& object_type_of(f.factory_type, lookup(props@, "factory.type.name"@)->0)
                &&& Some(f.version) == lookup_u32(props@, "factory.type.version"@)
            },
    {
        let object_serial = match props.get_u32("object.serial") {
            Some(v) => v,
            None => return Err(RegistryError::ObjectSerial),
        };
        let module_id = match props.get_u32("module.id") {
            Some(v) => v,
            None => return Err(RegistryError::ModuleId),
        };
        let name = match props.get_string("factory.name") {
            Some(v) => v,
            None => return Err(RegistryError::FactoryName),
        };
        let factory_type = match props.get("factory.type.name") {
            Some(v) => to_object_type(v.as_str()),
            None => return Err(RegistryError::FactoryTypeName),
        };
        let version = match props.get_u32("factory.type.version") {
            Some(v) => v,
            None => return Err(RegistryError::FactoryVersion),
        };
        Ok(RegistryFactory { object_serial, module_id, name, factory_type, version })
    }
}

/// An application connected to PipeWire.
#[derive(Debug, Clone)]
pub struct RegistryClient {
    pub object_serial: u32,
    pub module_id: u32,
    pub protocol: String,
    pub process_id: u32,
    pub user_id: u32,
    pub group_id: u32,
    pub access: String,
    pub application_name: String,
    pub application_binary: Option<String>,
    pub nodes: Vec<u32>,
}

pub open spec fn client_error(p: Seq<(Seq<char>, Seq<char>)>) -> Option<RegistryError> {
    if lookup_u32(p, "object.serial"@) is None {
        Some(RegistryError::ObjectSerial)
    } else if lookup_u32(p, "module.id"@) is None {
        Some(RegistryError::ModuleId)
    } else if lookup(p, "pipewire.protocol"@) is None {
        Some(RegistryError::Protocol)
    } else if lookup_u32(p, "pipewire.sec.pid"@) is None {
        Some(RegistryError::SecPid)
    } else if lookup_u32(p, "pipewire.sec.uid"@) is None {
        Some(RegistryError::SecUid)
    } else if lookup_u32(p, "pipewire.sec.gid"@) is None {
        Some(RegistryError::SecGid)
    } else if lookup(p, "pipewire.access"@) is None {
        Some(RegistryError::Access)
    } else if lookup(p, "application.name"@) is None {
        Some(RegistryError::AppName)
    } else {
        None
    }
}

/// `c` is the client these properties describe, as it is first recorded.
pub open spec fn client_read(c: RegistryClient, props: Seq<(Seq<char>, Seq<char>)>) -> bool {
    &&& Some(c.object_serial) == lookup_u32(props, "object.serial"@)
    &&& Some(c.module_id) == lookup_u32(props, "module.id"@)
    &&& Some(c.protocol@) == lookup(props, "pipewire.protocol"@)
    &&& Some(c.process_id) == lookup_u32(props, "pipewire.sec.pid"@)
    &&& Some(c.user_id) == lookup_u32(props, "pipewire.sec.uid"@)
    &&& Some(c.group_id) == lookup_u32(props, "pipewire.sec.gid"@)
    &&& Some(c.access@) == lookup(props, "pipewire.access"@)
    &&& Some(c.application_name@) == lookup(props, "application.name"@)
    &&& c.application_binary is None
    &&& c.nodes@.len() == 0
}

impl RegistryClient {
    pub fn add_node(&mut self, id: u32)
        ensures
            final(self).nodes@ == old(self).nodes@.push(id),
            *final(self) == (RegistryClient { nodes: final(self).nodes, ..*old(self) }),
    {
        self.nodes.push(id);
    }

    /// Reads a client; every identifying property must be present. The
    /// binary is learnt later and starts unknown.
    pub fn try_from(props: &Props) -> (r: Result<RegistryClient, RegistryError>)
        ensures
            r is Err <==> client_error(props@) is Some,
            r matches Err(e) ==> client_error(props@) == Some(e),
            r matches Ok(c) ==> client_read(c, props@),
    {
        let object_serial = match props.get_u32("object.serial") {
            Some(v) => v,
            None => return Err(RegistryError::ObjectSerial),
        };
        let module_id = match props.get_u32("module.id") {
            Some(v) => v,
            None => return Err(RegistryError::ModuleId),
        };
        let protocol = match props.get_string("pipewire.protocol") {
            Some(v) => v,
            None => return Err(RegistryError::Protocol),
        };
        let process_id = match props.get_u32("pipewire.sec.pid") {
            Some(v) => v,
            None => return Err(RegistryError::SecPid),
        };
        let user_id = match props.get_u32("pipewire.sec.uid") {
            Some(v) => v,
            None => return Err(RegistryError::SecUid),
        };
        let group_id = match props.get_u32("pipewire.sec.gid") {
            Some(v) => v,
            None => return Err(RegistryError::SecGid),
        };
        let access = match props.get_string("pipewire.access") {
            Some(v) => v,
            None => return Err(RegistryError::Access),
        };
        let application_name = match props.get_string("application.name") {
            Some(v) => v,
            None => return Err(RegistryError::AppName),
        };
        Ok(RegistryClient {
            object_serial,
            module_id,
            protocol,
            process_id,
            user_id,
            group_id,
            access,
            application_name,
            application_binary: None,
            nodes: Vec::new(),
        })
    }
}

/// The route a device currently plays through, per route device.
#[derive(Debug, Copy, Clone, PartialEq, Eq, Structural)]
pub struct ActiveRoute {
    pub index: u32,
    pub n_channels: u32,
}

/// A hardware device (a sound card, a headset, ...).
#[derive(Debug)]
pub struct RegistryDevice {
    pub object_serial: u32,
    pub nickname: Option<String>,
    pub description: Option<String>,
    pub name: Option<String>,
    pub nodes: Vec<u32>,
    pub active_routes: IdMap<u32, ActiveRoute>,
}

/// `d` is the device these properties describe, as it is first recorded.
pub open spec fn device_read(d: RegistryDevice, props: Seq<(Seq<char>, Seq<char>)>) -> bool {
    &&& Some(d.object_serial) == lookup_u32(props, "object.serial"@)
    &&& opt_view(d.nickname) == lookup(props, "device.nick"@)
    &&& opt_view(d.description) == lookup(props, "device.description"@)
    &&& opt_view(d.name) == lookup(props, "device.name"@)
    &&& d.nodes@.len() == 0
    &&& d.active_routes@ == Map::<u32, ActiveRoute>::empty()
}

impl RegistryDevice {
    /// Reads a device. Its serial must be present: the daemon stops on a
    /// device without one.
    pub fn from(props: &Props) -> (r: RegistryDevice)
        requires
            lookup_u32(props@, "object.serial"@) is Some,
        ensures
            device_read(r, props@),
    {
        let object_serial = props.get_u32("object.serial").unwrap();
        RegistryDevice {
            object_serial,
            nickname: props.get_string("device.nick"),
            description: props.get_string("device.description"),
            name: props.get_string("device.name"),
            nodes: Vec::new(),
            active_routes: IdMap::new(),
        }
    }

    pub fn add_node(&mut self, id: u32)
        ensures
            final(self).nodes@ == old(self).nodes@.push(id),
            final(self).active_routes@ == old(self).active_routes@,
            final(self).object_serial == old(self).object_serial,
            final(self).nickname == old(self).nickname,
            final(self).description == old(self).description,
            final(self).name == old(self).name,
    {
        self.nodes.push(id);
    }
}

/// How many ports a node has that are not monitors.
pub open spec fn non_monitor_count(s: Seq<(u32, RegistryPort)>) -> nat
    decreases s.len(),
{
    if s.len() == 0 {
        0
    } else {
        non_monitor_count(s.drop_last()) + if s.last().1.is_monitor { 0nat } else { 1nat }
    }
}

/// Some non-monitor port carries one of the two channel names.
pub open spec fn has_channel(s: Seq<(u32, RegistryPort)>, a: Seq<char>, b: Seq<char>) -> bool {
    exists|i: int| 0 <= i < s.len() && !s[i].1.is_monitor && (s[i].1.channel@ == a || s[i].1.channel@ == b)
}

/// The channel count used for classification: more than two channels count
/// as stereo when a front-left and a front-right channel are among them.
pub open spec fn stereo_count(s: Seq<(u32, RegistryPort)>) -> nat {
    let n = non_monitor_count(s);
    if n > 2 && has_channel(s, "FL"@, "AUX0"@) && has_channel(s, "FR"@, "AUX1"@) {
        2
    } else {
        n
    }
}

fn count_non_monitor(ports: &IdMap<u32, RegistryPort>) -> (r: (usize, bool, bool))
    ensures
        r.0 == non_monitor_count(ports.entries()),
        r.1 == has_channel(ports.entries(), "FL"@, "AUX0"@),
        r.2 == has_channel(ports.entries(), "FR"@, "AUX1"@),
{
    let n = ports.len();
    let mut count: usize = 0;
    let mut left = false;
    let mut right = false;
    let mut i: usize = 0;
    while i < n
        invariant
            n == ports.entries().len(),
            i <= n,
            count <= i,
            count == non_monitor_count(ports.entries().take(i as int)),
            left == has_channel(ports.entries().take(i as int), "FL"@, "AUX0"@),
            right == has_channel(ports.entries().take(i as int), "FR"@, "AUX1"@),
        decreases n - i,
    {
        let e = ports.entry(i);
        let ghost before = ports.entries().take(i as int);
        let ghost after = ports.entries().take(i + 1);
        assert(after.drop_last() =~= before);
        if !e.1.is_monitor {
            count = count + 1;
            let c = e.1.channel.as_str();
            if str_eq(c, "FL") || str_eq(c, "AUX0") {
                left = true;
            }
            if str_eq(c, "FR") || str_eq(c, "AUX1") {
                right = true;
            }
        }
        proof {
            assert forall|a: Seq<char>, b: Seq<char>| #[trigger] has_channel(after, a, b) == (has_channel(before, a, b) || (!after[i as int].1.is_monitor && (after[i as int].1.channel@ == a || after[i as int].1.channel@ == b))) by {
                if has_channel(after, a, b) {
                    let j = choose|j: int| 0 <= j < after.len() && !after[j].1.is_monitor && (after[j].1.channel@ == a || after[j].1.channel@ == b);
                    if j < i { assert(before[j] == after[j]); }
                }
                if has_channel(before, a, b) {
                    let j = choose|j: int| 0 <= j < before.len() && !before[j].1.is_monitor && (before[j].1.channel@ == a || before[j].1.channel@ == b);
                    assert(after[j] == before[j]);
                }
            }
        }
        i = i + 1;
    }
    assert(ports.entries().take(n as int) =~= ports.entries());
    (count, left, right)
}

fn stereo_channel_count(ports: &IdMap<u32, RegistryPort>) -> (r: usize)
    ensures
        r == stereo_count(ports.entries()),
{
    let (n, left, right) = count_non_monitor(ports);
    if n > 2 && left && right { 2 } else { n }
}

/// A node of a hardware device.
#[derive(Debug)]
pub struct RegistryDeviceNode {
    pub object_serial: u32,
    pub parent_id: Option<u32>,
    pub object_path: Option<String>,
    pub media_class: Option<String>,
    pub is_usable: bool,
    pub clock_ready: bool,
    pub is_synced: bool,
    pub volume: u8,
    pub muted: bool,
    pub nickname: Option<String>,
    pub description: Option<String>,
    pub name: Option<String>,
    pub port_count_in: Option<u32>,
    pub port_count_out: Option<u32>,
    pub ports_in: IdMap<u32, RegistryPort>,
    pub ports_out: IdMap<u32, RegistryPort>,
    /// Whether the node has been announced upstream.
    pub sent_upstream: bool,
}

/// Why a device node is refused, checked in the order the reader checks.
pub open spec fn device_node_error(p: Seq<(Seq<char>, Seq<char>)>) -> Option<RegistryError> {
    if lookup_u32(p, "object.serial"@) is None {
        Some(RegistryError::ObjectSerial)
    } else if lookup(p, "media.class"@) is None {
        Some(RegistryError::MissingMediaClass)
    } else if !is_device_node_class(lookup(p, "media.class"@)->0) {
        if crate::text::has_prefix(lookup(p, "media.class"@)->0, "Audio/Source"@)
            || crate::text::has_prefix(lookup(p, "media.class"@)->0, "Audio/Sink"@) {
            Some(RegistryError::InternalDevice)
        } else {
            Some(RegistryError::NotAudioDevice)
        }
    } else {
        None
    }
}

/// `n` is the device node these properties describe, as it is first
/// recorded.
pub open spec fn device_node_read(n: RegistryDeviceNode, props: Seq<(Seq<char>, Seq<char>)>) -> bool {
    &&& Some(n.object_serial) == lookup_u32(props, "object.serial"@)
    &&& n.parent_id == lookup_u32(props, "device.id"@)
    &&& opt_view(n.object_path) == lookup(props, "object.path"@)
    &&& opt_view(n.nickname) == lookup(props, "node.nick"@)
    &&& opt_view(n.description) == lookup(props, "node.description"@)
    &&& opt_view(n.name) == lookup(props, "node.name"@)
    &&& opt_view(n.media_class) == lookup(props, "media.class"@)
    &&& !n.is_usable && !n.clock_ready && !n.is_synced
    &&& n.volume == 0 && !n.muted
    &&& n.port_count_in is None && n.port_count_out is None
    &&& n.ports_in@ == Map::<u32, RegistryPort>::empty()
    &&& n.ports_out@ == Map::<u32, RegistryPort>::empty()
    &&& !n.sent_upstream
}

impl RegistryDeviceNode {
    /// Reads a device node: audio sources and sinks only, internal ones
    /// refused. Everything learnt later (ports, volume, readiness) starts
    /// empty.
    pub fn try_from(props: &Props) -> (r: Result<RegistryDeviceNode, RegistryError>)
        ensures
            r is Err <==> device_node_error(props@) is Some,
            r matches Err(e) ==> device_node_error(props@) == Some(e),
            r matches Ok(n) ==> device_node_read(n, props@),
    {
        let object_serial = match props.get_u32("object.serial") {
            Some(v) => v,
            None => return Err(RegistryError::ObjectSerial),
        };
        let parent_id = props.get_u32("device.id");
        let object_path = props.get_string("object.path");
        let nickname = props.get_string("node.nick");
        let description = props.get_string("node.description");
        let name = props.get_string("node.name");
        let media_class = props.get_string("media.class");
        match &media_class {
            Some(class) => match check_device_node_class(class.as_str()) {
                Ok(()) => {},
                Err(DeviceClassError::NotAudioDevice) => return Err(RegistryError::NotAudioDevice),
                Err(DeviceClassError::Internal) => return Err(RegistryError::InternalDevice),
            },
            None => return Err(RegistryError::MissingMediaClass),
        }
        Ok(RegistryDeviceNode {
            object_serial,
            parent_id,
            object_path,
            media_class,
            is_usable: false,
            clock_ready: false,
            is_synced: false,
            volume: 0,
            muted: false,
            nickname,
            description,
            name,
            port_count_in: None,
            port_count_out: None,
            ports_in: IdMap::new(),
            ports_out: IdMap::new(),
            sent_upstream: false,
        })
    }

    /// Records a port under its global id.
    pub fn add_port(&mut self, direction: PortDirection, port: RegistryPort)
        ensures
            final(self).ports_in@ == (if direction == PortDirection::In {
                old(self).ports_in@.insert(port.global_id, port)
            } else {
                old(self).ports_in@
            }),
            final(self).ports_out@ == (if direction == PortDirection::Out {
                old(self).ports_out@.insert(port.global_id, port)
            } else {
                old(self).ports_out@
            }),
            final(self).same_except_ports(*old(self)),
    {
        let id = port.global_id;
        match direction {
            PortDirection::In => self.ports_in.insert(id, port),
            PortDirection::Out => self.ports_out.insert(id, port),
        }
    }

    /// Every field but the two port maps is unchanged.
    pub open spec fn same_except_ports(&self, o: RegistryDeviceNode) -> bool {
        &&& self.object_serial == o.object_serial
        &&& self.parent_id == o.parent_id
        &&& self.object_path == o.object_path
        &&& self.media_class == o.media_class
        &&& self.is_usable == o.is_usable
        &&& self.clock_ready == o.clock_ready
        &&& self.is_synced == o.is_synced
        &&& self.volume == o.volume
        &&& self.muted == o.muted
        &&& self.nickname == o.nickname
        &&& self.description == o.description
        &&& self.name == o.name
        &&& self.port_count_in == o.port_count_in
        &&& self.port_count_out == o.port_count_out
        &&& self.sent_upstream == o.sent_upstream
    }

    /// The ports seen differ from the port counts announced (or a count is
    /// not known yet).
    pub open spec fn spec_ports_desynced(&self) -> bool {
        ||| self.port_count_in is None
        ||| self.ports_in@.dom().len() != self.port_count_in->0
        ||| self.port_count_out is None
        ||| self.ports_out@.dom().len() != self.port_count_out->0
    }

    pub fn ports_desynced(&self) -> (r: bool)
        ensures
            r == self.spec_ports_desynced(),
    {
        let expected_in = match self.port_count_in {
            Some(v) => v,
            None => return true,
        };
        if self.ports_in.len() as u64 != expected_in as u64 {
            return true;
        }
        let expected_out = match self.port_count_out {
            Some(v) => v,
            None => return true,
        };
        if self.ports_out.len() as u64 != expected_out as u64 {
            return true;
        }
        false
    }

    /// The class this node can be used as: it needs a name or a description
    /// and a mono or stereo layout.
    pub open spec fn spec_usable_media_class(&self) -> Option<MediaClass> {
        if self.name is None && self.description is None {
            None
        } else {
            media_class_for(stereo_count(self.ports_in.entries()) as int,
                stereo_count(self.ports_out.entries()) as int)
        }
    }

    pub fn usable_media_class(&self) -> (r: Option<MediaClass>)
        ensures
            r == self.spec_usable_media_class(),
    {
        if self.name.is_none() && self.description.is_none() {
            return None;
        }
        let in_count = stereo_channel_count(&self.ports_in);
        let out_count = stereo_channel_count(&self.ports_out);
        get_media_class(in_count, out_count)
    }
}

/// Name and channel of each non-monitor port, in walk order.
pub open spec fn port_views(s: Seq<(u32, RegistryPort)>) -> Seq<(Seq<char>, Seq<char>)>
    decreases s.len(),
{
    if s.len() == 0 {
        Seq::empty()
    } else {
        let rest = port_views(s.drop_last());
        if s.last().1.is_monitor {
            rest
        } else {
            rest.push((s.last().1.name@, s.last().1.channel@))
        }
    }
}

pub open spec fn node_port_views(v: Seq<NodePort>) -> Seq<(Seq<char>, Seq<char>)> {
    v.map_values(|p: NodePort| (p.name@, p.channel@))
}

fn announced_ports(ports: &IdMap<u32, RegistryPort>) -> (r: Vec<NodePort>)
    ensures
        node_port_views(r@) == port_views(ports.entries()),
{
    let n = ports.len();
    let mut out: Vec<NodePort> = Vec::new();
    let mut i: usize = 0;
    assert(node_port_views(out@) =~= port_views(ports.entries().take(0)));
    while i < n
        invariant
            n == ports.entries().len(),
            i <= n,
            node_port_views(out@) == port_views(ports.entries().take(i as int)),
        decreases n - i,
    {
        let e = ports.entry(i);
        let ghost before = ports.entries().take(i as int);
        assert(ports.entries().take(i + 1).drop_last() =~= before);
        if !e.1.is_monitor {
            let ghost old_out = out@;
            out.push(NodePort { name: e.1.name.clone(), channel: e.1.channel.clone() });
            assert(node_port_views(out@) =~= node_port_views(old_out).push((e.1.name@, e.1.channel@)));
        }
        i = i + 1;
    }
    assert(ports.entries().take(n as int) =~= ports.entries());
    out
}

pub fn clone_opt_string(o: &Option<String>) -> (r: Option<String>)
    ensures
        r == *o,
{
    match o {
        Some(s) => Some(s.clone()),
        None => None,
    }
}

impl RegistryDeviceNode {
    /// The route device of the card profile this node belongs to: the
    /// fourth `:`-separated field of its object path, as a number.
    pub open spec fn spec_profile_port(&self) -> Option<u32> {
        match self.object_path {
            Some(p) => match field_of(p@, ':', 3) {
                Some(f) => u32_of(f),
                None => None,
            },
            None => None,
        }
    }

    pub fn profile_port(&self) -> (r: Option<u32>)
        ensures
            r == self.spec_profile_port(),
    {
        match &self.object_path {
            Some(path) => match split_nth(path.as_str(), ':', 3) {
                Some(f) => parse_u32(f),
                None => None,
            },
            None => None,
        }
    }

    /// `d` announces this node upstream under `id`.
    pub open spec fn is_announcement(&self, d: DeviceNode, id: u32, class: MediaClass, usable: bool) -> bool {
        &&& d.node_id == id
        &&& d.node_class == class
        &&& d.is_usable == usable
        &&& d.name == self.name
        &&& d.nickname == self.nickname
        &&& d.description == self.description
        &&& d.volume == self.volume
        &&& d.muted == self.muted
        &&& node_port_views(d.ports_in@) == port_views(self.ports_in.entries())
        &&& node_port_views(d.ports_out@) == port_views(self.ports_out.entries())
    }

    /// The announcement of this node upstream (monitor ports left out).
    pub fn to_device_node(&self, id: u32, node_class: MediaClass, is_usable: bool) -> (d: DeviceNode)
        ensures
            self.is_announcement(d, id, node_class, is_usable),
    {
        DeviceNode {
            node_id: id,
            node_class,
            is_usable,
            name: clone_opt_string(&self.name),
            nickname: clone_opt_string(&self.nickname),
            description: clone_opt_string(&self.description),
            volume: self.volume,
            muted: self.muted,
            ports_in: announced_ports(&self.ports_in),
            ports_out: announced_ports(&self.ports_out),
        }
    }
}

/// A node of an application (an audio stream).
#[derive(Debug)]
pub struct RegistryClientNode {
    pub object_serial: u32,
    pub parent_id: u32,
    pub application_name: String,
    pub node_name: String,
    pub volume: u8,
    pub media_title: Option<String>,
    pub n_input_ports: u8,
    pub n_output_ports: u8,
    pub is_running: Option<bool>,
    pub is_muted: bool,
    pub media_target: Option<Option<crate::events::NodeTarget>>,
    pub ports_in: IdMap<u32, RegistryPort>,
    pub ports_out: IdMap<u32, RegistryPort>,
}

/// The name shown for an application: `application.name`, else
/// `media.name`, else `node.name`.
pub open spec fn client_node_app_name(p: Seq<(Seq<char>, Seq<char>)>) -> Option<Seq<char>> {
    if lookup(p, "application.name"@) is Some {
        lookup(p, "application.name"@)
    } else if lookup(p, "media.name"@) is Some {
        lookup(p, "media.name"@)
    } else {
        lookup(p, "node.name"@)
    }
}

pub open spec fn client_node_error(p: Seq<(Seq<char>, Seq<char>)>) -> Option<RegistryError> {
    if lookup_u32(p, "object.serial"@) is None {
        Some(RegistryError::ObjectSerial)
    } else if lookup_u32(p, "client.id"@) is None {
        Some(RegistryError::ClientId)
    } else if client_node_app_name(p) is None {
        Some(RegistryError::ApplicationName)
    } else if lookup(p, "node.name"@) is None {
        Some(RegistryError::NodeName)
    } else if !(lookup(p, "media.class"@) is Some && is_stream_class(lookup(p, "media.class"@)->0)) {
        Some(RegistryError::NotAStream)
    } else {
        None
    }
}

/// `n` is the stream node these properties describe, as it is first
/// recorded.
pub open spec fn client_node_read(n: RegistryClientNode, props: Seq<(Seq<char>, Seq<char>)>) -> bool {
    &&& Some(n.object_serial) == lookup_u32(props, "object.serial"@)
    &&& Some(n.parent_id) == lookup_u32(props, "client.id"@)
    &&& Some(n.application_name@) == client_node_app_name(props)
    &&& Some(n.node_name@) == lookup(props, "node.name"@)
    &&& n.volume == 0 && n.media_title is None && n.media_target is None
    &&& n.n_input_ports == 0 && n.n_output_ports == 0
    &&& n.is_running is None && !n.is_muted
    &&& n.ports_in@ == Map::<u32, RegistryPort>::empty()
    &&& n.ports_out@ == Map::<u32, RegistryPort>::empty()
}

impl RegistryClientNode {
    /// Reads an application stream node.
    pub fn try_from(props: &Props) -> (r: Result<RegistryClientNode, RegistryError>)
        ensures
            r is Err <==> client_node_error(props@) is Some,
            r matches Err(e) ==> client_node_error(props@) == Some(e),
            r matches Ok(n) ==> client_node_read(n, props@),
    {
        let object_serial = match props.get_u32("object.serial") {
            Some(v) => v,
            None => return Err(RegistryError::ObjectSerial),
        };
        let parent_id = match props.get_u32("client.id") {
            Some(v) => v,
            None => return Err(RegistryError::ClientId),
        };
        let application_name = match props.get_string("application.name") {
            Some(v) => v,
            None => match props.get_string("media.name") {
                Some(v) => v,
                None => match props.get_string("node.name") {
                    Some(v) => v,
                    None => return Err(RegistryError::ApplicationName),
                },
            },
        };
        let node_name = match props.get_string("node.name") {
            Some(v) => v,
            None => return Err(RegistryError::NodeName),
        };
        let is_stream = match props.get("media.class") {
            Some(c) => check_stream_class(c.as_str()),
            None => false,
        };
        if !is_stream {
            return Err(RegistryError::NotAStream);
        }
        Ok(RegistryClientNode {
            object_serial,
            parent_id,
            application_name,
            node_name,
            volume: 0,
            media_title: None,
            n_input_ports: 0,
            n_output_ports: 0,
            is_running: None,
            is_muted: false,
            media_target: None,
            ports_in: IdMap::new(),
            ports_out: IdMap::new(),
        })
    }

    /// Records a port under the given port id.
    pub fn add_port(&mut self, id: u32, direction: PortDirection, port: RegistryPort)
        ensures
            final(self).ports_in@ == (if direction == PortDirection::In {
                old(self).ports_in@.insert(id, port)
            } else {
                old(self).ports_in@
            }),
            final(self).ports_out@ == (if direction == PortDirection::Out {
                old(self).ports_out@.insert(id, port)
            } else {
                old(self).ports_out@
            }),
            final(self).ports_in.entries() == (if direction == PortDirection::In {
                old(self).ports_in.entries_after_insert(id, port)
            } else {
                old(self).ports_in.entries()
            }),
            final(self).ports_out.entries() == (if direction == PortDirection::Out {
                old(self).ports_out.entries_after_insert(id, port)
            } else {
                old(self).ports_out.entries()
            }),
            final(self).object_serial == old(self).object_serial,
            final(self).parent_id == old(self).parent_id,
            final(self).application_name == old(self).application_name,
            final(self).node_name == old(self).node_name,
            final(self).volume == old(self).volume,
            final(self).media_title == old(self).media_title,
            final(self).is_running == old(self).is_running,
            final(self).is_muted == old(self).is_muted,
            final(self).media_target == old(self).media_target,
            final(self).n_input_ports == old(self).n_input_ports,
            final(self).n_output_ports == old(self).n_output_ports,
    {
        match direction {
            PortDirection::In => self.ports_in.insert(id, port),
            PortDirection::Out => self.ports_out.insert(id, port),
        }
    }

    /// The number of non-monitor ports in each direction.
    pub fn channel_counts(&self) -> (r: (usize, usize))
        ensures
            r.0 == non_monitor_count(self.ports_in.entries()),
            r.1 == non_monitor_count(self.ports_out.entries()),
    {
        let (i, _, _) = count_non_monitor(&self.ports_in);
        let (o, _, _) = count_non_monitor(&self.ports_out);
        (i, o)
    }
}

/// The two channels a managed link connects.
#[derive(Debug, Copy, Clone, PartialEq, Eq, Structural)]
pub enum PortLocation {
    Left,
    Right,
}

pub open spec fn port_location_of(s: Seq<char>) -> Option<PortLocation> {
    if s == "FL"@ || s == "AUX0"@ {
        Some(PortLocation::Left)
    } else if s == "FR"@ || s == "AUX1"@ {
        Some(PortLocation::Right)
    } else {
        None
    }
}

/// The channel name of a location as PipeWire spells it.
pub open spec fn port_location_name(l: PortLocation) -> Seq<char> {
    match l {
        PortLocation::Left => "FL"@,
        PortLocation::Right => "FR"@,
    }
}

/// A channel name that is neither a left nor a right channel.
#[derive(Debug, Clone, Copy, PartialEq, Eq, Structural)]
pub struct UnknownChannel;

impl UnknownChannel {
    /// The text the error is shown with.
    pub fn message(&self) -> (r: &'static str)
        ensures
            r@ == "Unknown Channel"@,
    {
        "Unknown Channel"
    }
}

impl PortLocation {
    /// The channel name of a location as PipeWire spells it.
    pub fn name(&self) -> (r: &'static str)
        ensures
            r@ == port_location_name(*self),
    {
        match self {
            PortLocation::Left => "FL",
            PortLocation::Right => "FR",
        }
    }

    /// Reads a channel name: `FL`/`AUX0` is left, `FR`/`AUX1` right, any
    /// other name is an unknown channel.
    pub fn from_str(s: &str) -> (r: Result<PortLocation, UnknownChannel>)
        ensures
            match port_location_of(s@) {
                Some(l) => r == Ok::<PortLocation, UnknownChannel>(l),
                None => r == Err::<PortLocation, UnknownChannel>(UnknownChannel),
            },
    {
        if str_eq(s, "FL") || str_eq(s, "AUX0") {
            Ok(PortLocation::Left)
        } else if str_eq(s, "FR") || str_eq(s, "AUX1") {
            Ok(PortLocation::Right)
        } else {
            Err(UnknownChannel)
        }
    }
}

/// A location's own channel name reads back as that location.
pub proof fn law_port_location_round_trip(l: PortLocation)
    ensures
        port_location_of(port_location_name(l)) == Some(l),
{
    reveal_strlit("FL");
    reveal_strlit("FR");
    reveal_strlit("AUX0");
    assert("FR"@[1] != "FL"@[1]);
    assert("FR"@.len() != "AUX0"@.len());
}

} // verus!
