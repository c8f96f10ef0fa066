//! The default sink or source as PipeWire's session metadata reports it.
//!
//! Two names can arrive: the one the user configured and the one the session
//! manager currently uses. Neither is guaranteed, and either may name a node
//! that does not exist (yet), so only the names are kept and the node ids are
//! filled in as nodes appear and cleared as they go.

use vstd::prelude::*;
use crate::text::str_eq;

verus! {

/// A remembered default: the node name and, once found, its PipeWire id.
#[derive(Debug, Clone)]
pub struct DeviceState {
    pub name: String,
    pub id: Option<u32>,
}

/// The model of a `DeviceState`.
pub struct DeviceStateModel {
    pub name: Seq<char>,
    pub id: Option<u32>,
}

impl View for DeviceState {
    type V = DeviceStateModel;

    open spec fn view(&self) -> DeviceStateModel {
        DeviceStateModel { name: self.name@, id: self.id }
    }
}

/// Which of the two metadata keys a name arrived under.
#[derive(Debug, Clone)]
pub enum DefaultDefinition {
    Configured(String),
    Default(String),
}

/// The configured and the current default of one direction.
#[derive(Debug, Clone)]
pub struct DefaultDevice {
    pub configured: Option<DeviceState>,
    pub default: Option<DeviceState>,
}

/// The model of a `DefaultDevice`.
pub struct DefaultDeviceModel {
    pub configured: Option<DeviceStateModel>,
    pub default: Option<DeviceStateModel>,
}

pub open spec fn state_view(s: Option<DeviceState>) -> Option<DeviceStateModel> {
    match s {
        Some(d) => Some(d@),
        None => None,
    }
}

impl View for DefaultDevice {
    type V = DefaultDeviceModel;

    open spec fn view(&self) -> DefaultDeviceModel {
        DefaultDeviceModel { configured: state_view(self.configured), default: state_view(self.default) }
    }
}

pub open spec fn empty_default_device() -> DefaultDeviceModel {
    DefaultDeviceModel { configured: None, default: None }
}

/// The node the default points at: the configured one when its node is
/// known, else the session's default when its node is known.
pub open spec fn active_id(m: DefaultDeviceModel) -> Option<u32> {
    if m.configured is Some && m.configured->0.id is Some {
        m.configured->0.id
    } else if m.default is Some && m.default->0.id is Some {
        m.default->0.id
    } else {
        None
    }
}

/// Whether a change to the session default matters upstream: it does unless
/// a configured default with a known node overrides it.
pub open spec fn default_change_visible(m: DefaultDeviceModel) -> bool {
    match m.configured {
        Some(c) => c.id is None,
        None => true,
    }
}

pub open spec fn after_set_configured(m: DefaultDeviceModel, name: Seq<char>) -> (DefaultDeviceModel, bool) {
    if m.configured is Some && m.configured->0.name == name {
        (m, false)
    } else {
        (DefaultDeviceModel { configured: Some(DeviceStateModel { name, id: None }), ..m }, true)
    }
}

pub open spec fn after_set_default(m: DefaultDeviceModel, name: Seq<char>) -> (DefaultDeviceModel, bool) {
    if m.configured is Some && m.configured->0.name == name {
        (m, false)
    } else {
        (DefaultDeviceModel { default: Some(DeviceStateModel { name, id: None }), ..m }, true)
    }
}

pub open spec fn after_set_configured_node_id(m: DefaultDeviceModel, id: u32) -> (DefaultDeviceModel, bool) {
    match m.configured {
        Some(c) => (DefaultDeviceModel { configured: Some(DeviceStateModel { id: Some(id), ..c }), ..m }, true),
        None => (m, false),
    }
}

pub open spec fn after_set_default_node_id(m: DefaultDeviceModel, id: u32) -> (DefaultDeviceModel, bool) {
    match m.default {
        Some(d) => (
            DefaultDeviceModel { default: Some(DeviceStateModel { id: Some(id), ..d }), ..m },
            default_change_visible(m),
        ),
        None => (m, false),
    }
}

pub open spec fn after_device_added(m: DefaultDeviceModel, id: u32, name: Seq<char>) -> (DefaultDeviceModel, bool) {
    if m.configured is Some && m.configured->0.name == name {
        (DefaultDeviceModel { configured: Some(DeviceStateModel { name, id: Some(id) }), ..m }, true)
    } else if m.default is Some && m.default->0.name == name {
        (
            DefaultDeviceModel { default: Some(DeviceStateModel { name, id: Some(id) }), ..m },
            default_change_visible(m),
        )
    } else {
        (m, false)
    }
}

/// Whether an entry carries the given node id.
pub open spec fn holds_id(s: Option<DeviceStateModel>, id: u32) -> bool {
    s is Some && s->0.id == Some(id)
}

/// The entry with its node id forgotten, when that id is the given one.
pub open spec fn forget_id(s: Option<DeviceStateModel>, id: u32) -> Option<DeviceStateModel> {
    if holds_id(s, id) {
        Some(DeviceStateModel { id: None, ..s->0 })
    } else {
        s
    }
}

/// A removed node is forgotten by every entry that carried it. A change to
/// the configured entry is always reported; one to the session entry alone
/// only when it is visible upstream.
pub open spec fn after_device_removed(m: DefaultDeviceModel, id: u32) -> (DefaultDeviceModel, bool) {
    (
        DefaultDeviceModel {
            configured: forget_id(m.configured, id),
            default: forget_id(m.default, id),
        },
        holds_id(m.configured, id) || (holds_id(m.default, id) && default_change_visible(m)),
    )
}

pub open spec fn after_set(m: DefaultDeviceModel, d: DefaultDefinition) -> (DefaultDeviceModel, bool) {
    match d {
        DefaultDefinition::Configured(n) => after_set_configured(m, n@),
        DefaultDefinition::Default(n) => after_set_default(m, n@),
    }
}


/// A configured name that was just recorded is the one read back.
pub proof fn law_configured_read_back(m: DefaultDeviceModel, name: Seq<char>)
    ensures
        after_set_configured(m, name).0.configured is Some,
        after_set_configured(m, name).0.configured->0.name == name,
{
}

/// Recording the same configured name twice changes nothing the second time.
pub proof fn law_set_configured_idempotent(m: DefaultDeviceModel, name: Seq<char>)
    ensures
        ({
            let first = after_set_configured(m, name).0;
            let second = after_set_configured(first, name);
            second.0 == first && !second.1
        }),
{
}

/// When the node carrying the configured name appears, it becomes the
/// active default, and the change is always reported.
pub proof fn law_configured_node_becomes_active(m: DefaultDeviceModel, id: u32, name: Seq<char>)
    requires
        m.configured is Some,
        m.configured->0.name == name,
    ensures
        active_id(after_device_added(m, id, name).0) == Some(id),
        after_device_added(m, id, name).1,
{
}

/// A configured node that appears and then goes away leaves the tracker as
/// it was before it appeared (unless the session entry already carried that
/// node's id, which the removal forgets too).
pub proof fn law_added_then_removed(m: DefaultDeviceModel, id: u32, name: Seq<char>)
    requires
        m.configured is Some,
        m.configured->0.name == name,
        m.configured->0.id is None,
        !holds_id(m.default, id),
    ensures
        after_device_removed(after_device_added(m, id, name).0, id).0 == m,
{
}

/// A removed node is no longer known to the tracker, so it is not the
/// active default; the removal is reported whenever it changed what was
/// active.
pub proof fn law_removed_not_active(m: DefaultDeviceModel, id: u32)
    ensures
        !holds_id(after_device_removed(m, id).0.configured, id),
        !holds_id(after_device_removed(m, id).0.default, id),
        active_id(after_device_removed(m, id).0) != Some(id),
        active_id(m) == Some(id) ==> after_device_removed(m, id).1,
{
}

/// When the session default's node appears (and the name is not the
/// configured one), its id is remembered. The change is reported exactly
/// when no configured default with a known node overrides it (so always
/// when no default is configured), and then that node is the active one;
/// otherwise the active node stays as it was.
pub proof fn law_default_node_appears(m: DefaultDeviceModel, id: u32, name: Seq<char>)
    requires
        !(m.configured is Some && m.configured->0.name == name),
        m.default is Some,
        m.default->0.name == name,
    ensures
        ({
            let (m2, r) = after_device_added(m, id, name);
            let overridden = m.configured is Some && m.configured->0.id is Some;
            &&& m2.default == Some(DeviceStateModel { name, id: Some(id) })
            &&& m2.configured == m.configured
            &&& r == !overridden
            &&& m.configured is None ==> r
            &&& r ==> active_id(m2) == Some(id)
            &&& !r ==> active_id(m2) == active_id(m)
        }),
{
}

/// A session default equal to the configured name is never recorded.
pub proof fn law_default_never_shadows_configured(m: DefaultDeviceModel, name: Seq<char>)
    requires
        m.configured is Some,
        m.configured->0.name == name,
    ensures
        after_set_default(m, name) == (m, false),
{
}

impl Default for DefaultDevice {
    fn default() -> (r: Self)
        ensures
            r@ == empty_default_device(),
    {
        DefaultDevice { configured: None, default: None }
    }
}

impl DefaultDevice {
    /// Records a name from the metadata; true when something changed.
    pub fn set(&mut self, definition: DefaultDefinition) -> (changed: bool)
        ensures
            (final(self)@, changed) == after_set(old(self)@, definition),
    {
        match definition {
            DefaultDefinition::Configured(name) => self.set_configured(name),
            DefaultDefinition::Default(name) => self.set_default(name),
        }
    }

    /// The PipeWire id of the node that is the default now, if known.
    pub fn get_active_node_id(&self) -> (r: Option<u32>)
        ensures
            r == active_id(self@),
    {
        match (&self.configured, &self.default) {
            (Some(node), _) if node.id.is_some() => node.id,
            (_, Some(node)) if node.id.is_some() => node.id,
            _ => None,
        }
    }

    /// The configured name, if any.
    pub fn get_configured(&self) -> (r: Option<&String>)
        ensures
            r is Some == self@.configured is Some,
            r matches Some(n) ==> n@ == self@.configured->0.name,
    {
        if let Some(configured) = &self.configured {
            return Some(&configured.name);
        }
        None
    }

    /// Records the configured name; false when it is the one already held.
    pub fn set_configured(&mut self, name: String) -> (changed: bool)
        ensures
            (final(self)@, changed) == after_set_configured(old(self)@, name@),
    {
        if let Some(node) = &self.configured {
            if node.name == name {
                return false;
            }
        }
        self.configured = Some(DeviceState { name, id: None });
        true
    }

    /// Attaches a node id to the configured name; false when none is held.
    pub fn set_configured_node_id(&mut self, id: u32) -> (changed: bool)
        ensures
            (final(self)@, changed) == after_set_configured_node_id(old(self)@, id),
    {
        match self.configured.take() {
            Some(node) => {
                self.configured = Some(DeviceState { name: node.name, id: Some(id) });
                true
            },
            None => false,
        }
    }

    /// The session manager's current default name, if any.
    pub fn get_default(&self) -> (r: Option<&String>)
        ensures
            r is Some == self@.default is Some,
            r matches Some(n) ==> n@ == self@.default->0.name,
    {
        if let Some(default) = &self.default {
            return Some(&default.name);
        }
        None
    }

    /// Records the session default; refused (false) when it equals the
    /// configured name.
    pub fn set_default(&mut self, name: String) -> (changed: bool)
        ensures
            (final(self)@, changed) == after_set_default(old(self)@, name@),
    {
        if let Some(node) = &self.configured {
            if node.name == name {
                return false;
            }
        }
        self.default = Some(DeviceState { name, id: None });
        true
    }

    fn change_visible(&self) -> (r: bool)
        ensures
            r == default_change_visible(self@),
    {
        match &self.configured {
            Some(configured) => configured.id.is_none(),
            None => true,
        }
    }

    /// Attaches a node id to the session default; true when that is a change
    /// upstream must hear of.
    pub fn set_default_node_id(&mut self, id: u32) -> (changed: bool)
        ensures
            (final(self)@, changed) == after_set_default_node_id(old(self)@, id),
    {
        let visible = self.change_visible();
        match self.default.take() {
            Some(node) => {
                self.default = Some(DeviceState { name: node.name, id: Some(id) });
                visible
            },
            None => false,
        }
    }

    /// A node appeared: if its name is the configured one (first) or the
    /// session default, remember its id.
    pub fn device_added(&mut self, id: u32, name: &str) -> (changed: bool)
        ensures
            (final(self)@, changed) == after_device_added(old(self)@, id, name@),
    {
        let configured_matches = match &self.configured {
            Some(node) => str_eq(node.name.as_str(), name),
            None => false,
        };
        if configured_matches {
            let node = self.configured.take().unwrap();
            self.configured = Some(DeviceState { name: node.name, id: Some(id) });
            return true;
        }
        let default_matches = match &self.default {
            Some(node) => str_eq(node.name.as_str(), name),
            None => false,
        };
        if default_matches {
            let visible = self.change_visible();
            let node = self.default.take().unwrap();
            self.default = Some(DeviceState { name: node.name, id: Some(id) });
            return visible;
        }
        false
    }

    /// A node went away: every entry that carried its id forgets it.
    pub fn device_removed(&mut self, id: u32) -> (changed: bool)
        ensures
            (final(self)@, changed) == after_device_removed(old(self)@, id),
    {
        let visible = self.change_visible();
        let configured_matches = match &self.configured {
            Some(node) => node.id == Some(id),
            None => false,
        };
        if configured_matches {
            let node = self.configured.take().unwrap();
            self.configured = Some(DeviceState { name: node.name, id: None });
        }
        let default_matches = match &self.default {
            Some(node) => node.id == Some(id),
            None => false,
        };
        if default_matches {
            let node = self.default.take().unwrap();
            self.default = Some(DeviceState { name: node.name, id: None });
        }
        configured_matches || (default_matches && visible)
    }
}

} // verus!
