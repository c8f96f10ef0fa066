//! The two metadata objects the store listens to: the session's default
//! metadata (stream targets and the default sink and source) and the
//! settings (the clock rate).

use vstd::prelude::*;
use super::{Store, touch_none};
use super::clients::TargetType;
use crate::default_device::DefaultDefinition;
use crate::json::{json_string_at, json_string_field};
use crate::media::MediaClass;
use crate::registry::{Props, lookup, opt_view};
use crate::text::{parse_u32, str_eq, u32_of};

verus! {

/// Which metadata object a registry global is.
#[derive(Debug, Clone, Copy, PartialEq, Eq, Structural)]
pub enum MetadataKind {
    /// The session's `default` metadata.
    Session,
    /// The `settings` metadata.
    Settings,
}

pub open spec fn metadata_kind_of(props: Seq<(Seq<char>, Seq<char>)>) -> Option<MetadataKind> {
    match lookup(props, "metadata.name"@) {
        Some(n) => if n == "default"@ {
            Some(MetadataKind::Session)
        } else if n == "settings"@ {
            Some(MetadataKind::Settings)
        } else {
            None
        },
        None => None,
    }
}

/// Tells the metadata objects the store listens to by their name.
pub fn metadata_kind(props: &Props) -> (r: Option<MetadataKind>)
    ensures
        r == metadata_kind_of(props@),
{
    match props.get("metadata.name") {
        Some(n) => if str_eq(n.as_str(), "default") {
            Some(MetadataKind::Session)
        } else if str_eq(n.as_str(), "settings") {
            Some(MetadataKind::Settings)
        } else {
            None
        },
        None => None,
    }
}

pub open spec fn opt_str(o: Option<&str>) -> Option<Seq<char>> {
    match o {
        Some(s) => Some(s@),
        None => None,
    }
}

/// The number a metadata value spells, if it is one.
pub open spec fn value_u32(value: Option<Seq<char>>) -> Option<u32> {
    match value {
        Some(v) => u32_of(v),
        None => None,
    }
}

/// Which default a metadata key sets: the direction, and whether it is the
/// configured one (else the current one).
pub open spec fn default_key(key: Seq<char>) -> Option<(MediaClass, bool)> {
    if key == "default.audio.sink"@ {
        Some((MediaClass::Sink, false))
    } else if key == "default.configured.audio.sink"@ {
        Some((MediaClass::Sink, true))
    } else if key == "default.audio.source"@ {
        Some((MediaClass::Source, false))
    } else if key == "default.configured.audio.source"@ {
        Some((MediaClass::Source, true))
    } else {
        None
    }
}

fn opt_u32(value: Option<&str>) -> (r: Option<u32>)
    ensures
        r == value_u32(opt_str(value)),
{
    match value {
        Some(v) => parse_u32(v),
        None => None,
    }
}

fn key_is(key: Option<&str>, k: &str) -> (r: bool)
    ensures
        r == (opt_str(key) == Some(k@)),
{
    match key {
        Some(s) => str_eq(s, k),
        None => false,
    }
}

impl Store {
    /// `self` is `o` after the session metadata set property `key` (of type
    /// `ty`, value `value`) on `subject`, `name` being what the value holds
    /// under `"name"` read as JSON. A stream's target (by serial or by node
    /// id) is recorded; a default name of type `Spa:String:JSON` is set;
    /// anything else is ignored.
    pub open spec fn default_property_applied(&self, o: &Store, subject: u32, key: Option<Seq<char>>,
        ty: Option<Seq<char>>, value: Option<Seq<char>>, name: Option<Seq<char>>) -> bool {
        if key == Some("target.object"@) {
            self.target_set(o, subject, TargetType::Serial(value_u32(value)))
        } else if key == Some("target.node"@) {
            self.target_set(o, subject, TargetType::Node(value_u32(value)))
        } else if key is Some && default_key(key->0) is Some && ty == Some("Spa:String:JSON"@)
            && value is Some && name is Some {
            let (class, configured) = default_key(key->0)->0;
            self.default_set(o, class, configured, name->0)
        } else {
            self.keeps(o, touch_none())
        }
    }

    /// A property of the session metadata changed; `name` is what its value
    /// holds under `"name"` read as JSON.
    pub fn apply_default_property(&mut self, subject: u32, key: Option<&str>, value_type: Option<&str>,
        value: Option<&str>, name: Option<String>)
        ensures
            final(self).default_property_applied(old(self), subject, opt_str(key), opt_str(value_type),
                opt_str(value), opt_view(name)),
    {
        if key_is(key, "target.object") {
            let target = opt_u32(value);
            self.unmanaged_client_node_set_target(subject, TargetType::Serial(target));
            return;
        }
        if key_is(key, "target.node") {
            let target = opt_u32(value);
            self.unmanaged_client_node_set_target(subject, TargetType::Node(target));
            return;
        }
        if !key_is(value_type, "Spa:String:JSON") || value.is_none() {
            return;
        }
        let name = match name {
            Some(n) => n,
            None => return,
        };
        if key_is(key, "default.audio.sink") {
            self.set_default_sink(DefaultDefinition::Default(name));
        } else if key_is(key, "default.configured.audio.sink") {
            self.set_default_sink(DefaultDefinition::Configured(name));
        } else if key_is(key, "default.audio.source") {
            self.set_default_source(DefaultDefinition::Default(name));
        } else if key_is(key, "default.configured.audio.source") {
            self.set_default_source(DefaultDefinition::Configured(name));
        }
    }

    /// A property of the session metadata changed: its value is read as
    /// JSON with serde_json, the string under `"name"` taken, and the
    /// property applied.
    pub fn on_default_property(&mut self, subject: u32, key: Option<&str>, value_type: Option<&str>,
        value: Option<&str>)
        ensures
            final(self).default_property_applied(old(self), subject, opt_str(key), opt_str(value_type),
                opt_str(value), match value {
                    Some(v) => json_string_at(v@, "name"@),
                    None => None,
                }),
    {
        let name = match value {
            Some(v) => json_string_field(v, "name"),
            None => None,
        };
        self.apply_default_property(subject, key, value_type, value, name);
    }

    /// A property of the settings metadata changed: the clock rate is
    /// announced (as a number, when it is one).
    pub fn on_settings_property(&mut self, key: Option<&str>, value: Option<&str>)
        ensures
            opt_str(key) == Some("clock.rate"@) ==> final(self).events@ == old(self).events@.push(
                crate::events::PipewireReceiver::AnnouncedClock(value_u32(opt_str(value)))),
            opt_str(key) == Some("clock.rate"@) ==> final(self).keeps(old(self),
                super::Touch { events: true, ..touch_none() }),
            opt_str(key) != Some("clock.rate"@) ==> final(self).keeps(old(self), touch_none()),
    {
        if key_is(key, "clock.rate") {
            let clock = opt_u32(value);
            self.announce_clock_rate(clock);
        }
    }
}

} // verus!
