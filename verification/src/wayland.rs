use vstd::prelude::*;
use vstd::string::*;

use wayland_client::Connection;

verus! {

#[verifier::external_type_specification]
#[verifier::external_body]
pub struct ExWaylandConnectionHandle(Connection);

/// An open connection to the compositor.
pub struct WaylandConnectionInner {
    pub connection: Connection,
}

/// The display this program talks to, and the connection to it when one
/// could be opened; without one the platform runs headless.
pub struct WaylandConnection {
    pub display: String,
    pub socket_name: Option<String>,
    pub inner: Option<WaylandConnectionInner>,
}

/// The display name used when `WAYLAND_DISPLAY` is unset.
pub open spec fn default_display() -> Seq<char> {
    "wayland-0"@
}

impl WaylandConnection {
    /// The connection state for the display named by `WAYLAND_DISPLAY`
    /// (`display_var`, or `wayland-0` when it is unset), with `connection`
    /// when connecting succeeded and headless otherwise.
    pub fn from_environment(display_var: Option<String>, connection: Option<Connection>) -> (r: Self)
        ensures
            r.display@ == match display_var {
                Some(d) => d@,
                None => default_display(),
            },
            r.socket_name is None,
            r.inner is Some <==> connection is Some,
    {
        let display = match display_var {
            Some(d) => d,
            None => String::from_str("wayland-0"),
        };
        let inner = match connection {
            Some(c) => Some(WaylandConnectionInner { connection: c }),
            None => None,
        };
        WaylandConnection { display, socket_name: None, inner }
    }

    pub fn is_connected(&self) -> (r: bool)
        ensures
            r == self.inner is Some,
    {
        self.inner.is_some()
    }

    /// Whether the platform runs without a compositor.
    pub fn is_headless(&self) -> (r: bool)
        ensures
            r == self.inner is None,
    {
        self.inner.is_none()
    }
}

} // verus!
