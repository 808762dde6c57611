//! Small shared data types of the runtime's public surface.

use vstd::prelude::*;

verus! {

/// A user of the backend, as reported by the user endpoint.
#[derive(Debug, Clone, PartialEq, Eq)]
pub struct UserInfo {
    pub id: i32,
    pub name: String,
}

/// A plugin-level event: an opaque payload within an event namespace.
#[derive(Debug, Clone, PartialEq, Eq)]
pub struct Event {
    pub data: Vec<u8>,
    pub namespace: String,
}

/// A top-level navigation action of the presentation layer.
#[derive(Debug, Clone, Copy, PartialEq, Eq, Structural)]
pub enum Action {
    Home,
    Menu,
    Commands,
    Main,
}

/// Where a rendered view is mounted.
#[derive(Debug, Clone, Copy, PartialEq, Eq, Structural)]
pub enum ViewType {
    SideBar,
    Dashboard,
    FloatingMenu,
}

/// A rendered fragment handed back to the presentation layer.
#[derive(Debug, Clone, PartialEq, Eq)]
pub struct Rsx(pub String);

/// An emitted event payload, tagged with the payload type's name.
#[derive(Debug, Clone, PartialEq, Eq)]
pub struct Emit<Ev> {
    pub data: Ev,
    /// The full name of the payload's type.
    pub kind_name: String,
}

/// An event routed through the runtime, addressed to one plugin, to
/// every plugin, or to the emitting side alone.
#[derive(Debug, Clone, PartialEq, Eq)]
pub enum CompactEvent {
    Plugin { plugin: String, data: Emit<Vec<u8>> },
    Global(Emit<Vec<u8>>),
    Local(Emit<Vec<u8>>),
}

/// Wrap an already serialized event payload for one plugin.
pub fn emit(plugin: String, kind_name: String, data: Vec<u8>) -> (r: CompactEvent)
    ensures
        r == (CompactEvent::Plugin { plugin, data: Emit { data, kind_name } }),
{
    CompactEvent::Plugin { plugin, data: Emit { data, kind_name } }
}

/// Marker for the runtime handed to request handlers.
#[derive(Debug, Clone, PartialEq, Eq, Structural)]
pub struct KasukuContext;

/// The reply of the render endpoint: the rendered document text.
#[derive(Debug, Clone, PartialEq, Eq)]
pub struct RenderFileResponse {
    pub render_file: String,
}

/// Root of the event-stream subscriptions of the request layer.
#[derive(Debug, Clone, PartialEq, Eq, Structural)]
pub struct SubscriptionRoot;

} // verus!
