use vstd::prelude::*;
use vstd::string::*;
use vstd::std_specs::iter::IteratorSpec;

use std::collections::HashMap;
use std::collections::hash_map::Values;

use wayland_client::protocol::wl_output::WlOutput;
use wayland_protocols::xdg::shell::client::xdg_surface::XdgSurface;
use wayland_protocols::xdg::shell::client::xdg_toplevel;
use wayland_protocols::xdg::shell::client::xdg_toplevel::XdgToplevel;

use crate::error::PlatformResult;
use crate::protocol::{surface_commit, surface_set_buffer_scale, SurfaceHandle, SurfaceRequest};

verus! {

broadcast use vstd::std_specs::hash::group_hash_axioms;

#[verifier::external_type_specification]
#[verifier::external_body]
pub struct ExXdgToplevelState(xdg_toplevel::State);

#[verifier::external_type_specification]
#[verifier::external_body]
pub struct ExXdgResizeEdge(xdg_toplevel::ResizeEdge);

/// A state of a toplevel window.
#[derive(Debug, Clone, Copy, PartialEq, Eq, Structural)]
pub enum WindowState {
    Activated,
    Maximized,
    Minimized,
    Fullscreen,
    Resizing,
    Focused,
}

/// The edge or corner a window is being resized by.
#[derive(Debug, Clone, Copy, PartialEq, Eq, Structural)]
pub enum WindowResizeEdge {
    /// No edge (protocol value `none`).
    NoEdge,
    Top,
    Bottom,
    Left,
    Right,
    TopLeft,
    TopRight,
    BottomLeft,
    BottomRight,
}

/// Value of `xdg_toplevel.state` that a window state is reported as. The
/// protocol has no minimized or focused state: a minimized window is reported
/// as maximized, and a focused one as activated.
pub open spec fn window_state_wire(s: WindowState) -> u32 {
    match s {
        WindowState::Activated => 4,
        WindowState::Maximized => 1,
        WindowState::Minimized => 1,
        WindowState::Fullscreen => 2,
        WindowState::Resizing => 3,
        WindowState::Focused => 4,
    }
}

/// Whether resizing by this edge moves the top edge.
pub open spec fn edge_top(e: WindowResizeEdge) -> bool {
    e is Top || e is TopLeft || e is TopRight
}

/// Whether resizing by this edge moves the bottom edge.
pub open spec fn edge_bottom(e: WindowResizeEdge) -> bool {
    e is Bottom || e is BottomLeft || e is BottomRight
}

/// Whether resizing by this edge moves the left edge.
pub open spec fn edge_left(e: WindowResizeEdge) -> bool {
    e is Left || e is TopLeft || e is BottomLeft
}

/// Whether resizing by this edge moves the right edge.
pub open spec fn edge_right(e: WindowResizeEdge) -> bool {
    e is Right || e is TopRight || e is BottomRight
}

/// Value of `xdg_toplevel.resize_edge` for an edge: the sum of the bits of
/// the sides it moves, top 1, bottom 2, left 4 and right 8 (0 for none).
pub open spec fn resize_edge_wire(e: WindowResizeEdge) -> u32 {
    ((if edge_top(e) { 1int } else { 0int }) + (if edge_bottom(e) { 2int } else { 0int }) + (
    if edge_left(e) { 4int } else { 0int }) + (if edge_right(e) { 8int } else { 0int })) as u32
}

/// The wire value of a resize edge has exactly the bits of the sides it
/// moves: 1 for the top, 2 for the bottom, 4 for the left and 8 for the
/// right; so two edges that move different sides never share a value.
pub proof fn lemma_resize_edge_wire_bits(e: WindowResizeEdge, f: WindowResizeEdge)
    ensures
        resize_edge_wire(e) < 16,
        (resize_edge_wire(e) % 2 == 1) == edge_top(e),
        ((resize_edge_wire(e) / 2) % 2 == 1) == edge_bottom(e),
        ((resize_edge_wire(e) / 4) % 2 == 1) == edge_left(e),
        ((resize_edge_wire(e) / 8) % 2 == 1) == edge_right(e),
        e != f ==> resize_edge_wire(e) != resize_edge_wire(f),
{
}

/// The `xdg_toplevel::State` variant whose wire value is `wire`.
pub uninterp spec fn xdg_state(wire: u32) -> xdg_toplevel::State;

/// The `xdg_toplevel::ResizeEdge` variant whose wire value is `wire`.
pub uninterp spec fn xdg_resize_edge(wire: u32) -> xdg_toplevel::ResizeEdge;

/// `xdg_toplevel::State::try_from`: the generated enum maps each value of
/// the protocol's `state` enum (1 to 9) to its variant.
#[verifier::external_body]
fn xdg_state_from_wire(wire: u32) -> (r: xdg_toplevel::State)
    requires
        1 <= wire <= 9,
    ensures
        r == xdg_state(wire),
{
    xdg_toplevel::State::try_from(wire).unwrap()
}

/// `xdg_toplevel::ResizeEdge::try_from`: the generated enum maps each value
/// of the protocol's `resize_edge` enum (0, 1, 2, 4, 5, 6, 8, 9, 10) to its
/// variant.
#[verifier::external_body]
fn xdg_resize_edge_from_wire(wire: u32) -> (r: xdg_toplevel::ResizeEdge)
    requires
        wire == 0 || wire == 1 || wire == 2 || wire == 4 || wire == 5 || wire == 6 || wire == 8
            || wire == 9 || wire == 10,
    ensures
        r == xdg_resize_edge(wire),
{
    xdg_toplevel::ResizeEdge::try_from(wire).unwrap()
}

impl WindowState {
    /// Wire value this state is reported as in the xdg-shell protocol.
    pub fn wire_value(self) -> (r: u32)
        ensures
            r == window_state_wire(self),
    {
        match self {
            WindowState::Activated => 4,
            WindowState::Maximized => 1,
            WindowState::Minimized => 1,
            WindowState::Fullscreen => 2,
            WindowState::Resizing => 3,
            WindowState::Focused => 4,
        }
    }

    /// The protocol state this window state is reported as.
    pub fn to_wl(self) -> (r: xdg_toplevel::State)
        ensures
            r == xdg_state(window_state_wire(self)),
    {
        xdg_state_from_wire(self.wire_value())
    }
}

impl WindowResizeEdge {
    /// Wire value of this edge in the xdg-shell protocol.
    pub fn wire_value(self) -> (r: u32)
        ensures
            r == resize_edge_wire(self),
            r < 16,
            (r % 2 == 1) == edge_top(self),
            ((r / 2) % 2 == 1) == edge_bottom(self),
            ((r / 4) % 2 == 1) == edge_left(self),
            ((r / 8) % 2 == 1) == edge_right(self),
    {
        match self {
            WindowResizeEdge::NoEdge => 0,
            WindowResizeEdge::Top => 1,
            WindowResizeEdge::Bottom => 2,
            WindowResizeEdge::Left => 4,
            WindowResizeEdge::Right => 8,
            WindowResizeEdge::TopLeft => 5,
            WindowResizeEdge::TopRight => 9,
            WindowResizeEdge::BottomLeft => 6,
            WindowResizeEdge::BottomRight => 10,
        }
    }
}

impl From<WindowResizeEdge> for xdg_toplevel::ResizeEdge {
    fn from(edge: WindowResizeEdge) -> (r: Self) {
        xdg_resize_edge_from_wire(edge.wire_value())
    }
}

impl vstd::std_specs::convert::FromSpecImpl<WindowResizeEdge> for xdg_toplevel::ResizeEdge {
    open spec fn obeys_from_spec() -> bool {
        true
    }

    open spec fn from_spec(v: WindowResizeEdge) -> Self {
        xdg_resize_edge(resize_edge_wire(v))
    }
}

/// Settings of a toplevel window.
pub struct XdgWindowConfig {
    pub title: String,
    pub app_id: Option<String>,
    pub width: u32,
    pub height: u32,
    pub min_width: u32,
    pub min_height: u32,
    pub max_width: u32,
    pub max_height: u32,
    pub decorations: bool,
    pub resizable: bool,
    pub fullscreen: bool,
    pub maximized: bool,
    pub minimized: bool,
    pub focus: bool,
}

/// Characters of an optional string.
pub open spec fn opt_string_view(s: Option<String>) -> Option<Seq<char>> {
    match s {
        Some(t) => Some(t@),
        None => None,
    }
}

/// The flags and size limits of the default window: decorated, resizable,
/// focused, neither fullscreen, maximized nor minimized, without size limits.
pub open spec fn has_default_flags_and_limits(c: XdgWindowConfig) -> bool {
    &&& c.min_width == 0
    &&& c.min_height == 0
    &&& c.max_width == 0
    &&& c.max_height == 0
    &&& c.decorations
    &&& c.resizable
    &&& !c.fullscreen
    &&& !c.maximized
    &&& !c.minimized
    &&& c.focus
}

impl Clone for XdgWindowConfig {
    fn clone(&self) -> (r: Self)
        ensures
            r == *self,
    {
        XdgWindowConfig {
            title: self.title.clone(),
            app_id: match &self.app_id {
                Some(a) => Some(a.clone()),
                None => None,
            },
            width: self.width,
            height: self.height,
            min_width: self.min_width,
            min_height: self.min_height,
            max_width: self.max_width,
            max_height: self.max_height,
            decorations: self.decorations,
            resizable: self.resizable,
            fullscreen: self.fullscreen,
            maximized: self.maximized,
            minimized: self.minimized,
            focus: self.focus,
        }
    }
}

impl Default for XdgWindowConfig {
    /// An 800 by 600 window titled `xfw` with application id `xfw`.
    fn default() -> (r: Self)
        ensures
            r.title@ == "xfw"@,
            opt_string_view(r.app_id) == Some("xfw"@),
            r.width == 800,
            r.height == 600,
            has_default_flags_and_limits(r),
    {
        XdgWindowConfig {
            title: String::from_str("xfw"),
            app_id: Some(String::from_str("xfw")),
            width: 800,
            height: 600,
            min_width: 0,
            min_height: 0,
            max_width: 0,
            max_height: 0,
            decorations: true,
            resizable: true,
            fullscreen: false,
            maximized: false,
            minimized: false,
            focus: true,
        }
    }
}

impl XdgWindowConfig {
    /// A window with the given title and size, application id `xfw`, and the
    /// other settings of the default window.
    pub fn new(title: &str, width: u32, height: u32) -> (r: Self)
        ensures
            r.title@ == title@,
            opt_string_view(r.app_id) == Some("xfw"@),
            r.width == width,
            r.height == height,
            has_default_flags_and_limits(r),
    {
        let d = Self::default();
        XdgWindowConfig {
            title: title.to_owned(),
            app_id: Some(String::from_str("xfw")),
            width,
            height,
            ..d
        }
    }

    /// The same settings with another application id.
    pub fn with_app_id(self, app_id: &str) -> (r: Self)
        ensures
            opt_string_view(r.app_id) == Some(app_id@),
            r == (XdgWindowConfig { app_id: r.app_id, ..self }),
    {
        let mut s = self;
        s.app_id = Some(app_id.to_owned());
        s
    }

    /// The same settings with another minimum size.
    pub fn with_min_size(self, width: u32, height: u32) -> (r: Self)
        ensures
            r == (XdgWindowConfig { min_width: width, min_height: height, ..self }),
    {
        let mut s = self;
        s.min_width = width;
        s.min_height = height;
        s
    }

    /// The same settings with another maximum size.
    pub fn with_max_size(self, width: u32, height: u32) -> (r: Self)
        ensures
            r == (XdgWindowConfig { max_width: width, max_height: height, ..self }),
    {
        let mut s = self;
        s.max_width = width;
        s.max_height = height;
        s
    }

    /// The same settings, with or without server-side decorations.
    pub fn with_decorations(self, decorations: bool) -> (r: Self)
        ensures
            r == (XdgWindowConfig { decorations, ..self }),
    {
        let mut s = self;
        s.decorations = decorations;
        s
    }

    /// The same settings, resizable or not.
    pub fn with_resizable(self, resizable: bool) -> (r: Self)
        ensures
            r == (XdgWindowConfig { resizable, ..self }),
    {
        let mut s = self;
        s.resizable = resizable;
        s
    }

    /// The same settings, fullscreen or not.
    pub fn fullscreen(self, fullscreen: bool) -> (r: Self)
        ensures
            r == (XdgWindowConfig { fullscreen, ..self }),
    {
        let mut s = self;
        s.fullscreen = fullscreen;
        s
    }

    /// The same settings, maximized or not.
    pub fn maximized(self, maximized: bool) -> (r: Self)
        ensures
            r == (XdgWindowConfig { maximized, ..self }),
    {
        let mut s = self;
        s.maximized = maximized;
        s
    }
}

#[verifier::external_type_specification]
#[verifier::external_body]
pub struct ExXdgSurface(XdgSurface);

#[verifier::external_type_specification]
#[verifier::external_body]
pub struct ExXdgToplevel(XdgToplevel);

#[verifier::external_type_specification]
#[verifier::external_body]
pub struct ExWlOutput(WlOutput);

/// A request sent on an `xdg_toplevel`.
#[derive(Debug, Clone, Copy, PartialEq, Eq, Structural)]
pub enum ToplevelRequest {
    /// `set_max_size`: width, height.
    SetMaxSize(i32, i32),
    /// `set_fullscreen`; the value is whether a particular output was named.
    SetFullscreen(bool),
    UnsetFullscreen,
    SetMaximized,
    UnsetMaximized,
}

/// An `xdg_toplevel` together with the requests sent on it through this
/// handle, in the order they were sent.
pub struct ToplevelHandle {
    proxy: XdgToplevel,
    sent: Ghost<Seq<ToplevelRequest>>,
}

impl ToplevelHandle {
    /// A handle on `proxy` through which nothing was sent yet.
    pub fn new(proxy: XdgToplevel) -> (r: Self)
        ensures
            r.spec_sent() == Seq::<ToplevelRequest>::empty(),
    {
        ToplevelHandle { proxy, sent: Ghost(Seq::empty()) }
    }

    /// The requests sent through this handle, in order.
    pub closed spec fn spec_sent(&self) -> Seq<ToplevelRequest> {
        self.sent@
    }
}

/// `XdgToplevel::set_max_size`: sends the request to the compositor, and the
/// handle records it.
#[verifier::external_body]
fn toplevel_set_max_size(toplevel: &mut ToplevelHandle, width: i32, height: i32)
    ensures
        final(toplevel).spec_sent() == old(toplevel).spec_sent().push(ToplevelRequest::SetMaxSize(width, height)),
{
    toplevel.proxy.set_max_size(width, height)
}

/// `XdgToplevel::set_fullscreen` on `output`, or on an output of the
/// compositor's choice when it is `None`: sends the request, and the handle
/// records it.
#[verifier::external_body]
fn toplevel_set_fullscreen(toplevel: &mut ToplevelHandle, output: Option<&WlOutput>)
    ensures
        final(toplevel).spec_sent() == old(toplevel).spec_sent().push(
            ToplevelRequest::SetFullscreen(output is Some),
        ),
{
    toplevel.proxy.set_fullscreen(output)
}

/// `XdgToplevel::unset_fullscreen`: sends the request, and the handle records
/// it.
#[verifier::external_body]
fn toplevel_unset_fullscreen(toplevel: &mut ToplevelHandle)
    ensures
        final(toplevel).spec_sent() == old(toplevel).spec_sent().push(ToplevelRequest::UnsetFullscreen),
{
    toplevel.proxy.unset_fullscreen()
}

/// `XdgToplevel::set_maximized`: sends the request, and the handle records
/// it.
#[verifier::external_body]
fn toplevel_set_maximized(toplevel: &mut ToplevelHandle)
    ensures
        final(toplevel).spec_sent() == old(toplevel).spec_sent().push(ToplevelRequest::SetMaximized),
{
    toplevel.proxy.set_maximized()
}

/// `XdgToplevel::unset_maximized`: sends the request, and the handle records
/// it.
#[verifier::external_body]
fn toplevel_unset_maximized(toplevel: &mut ToplevelHandle)
    ensures
        final(toplevel).spec_sent() == old(toplevel).spec_sent().push(ToplevelRequest::UnsetMaximized),
{
    toplevel.proxy.unset_maximized()
}

/// A toplevel window: its protocol objects and the size last set on it.
pub struct XdgWindow {
    pub id: u32,
    pub surface: SurfaceHandle,
    pub xdg_surface: XdgSurface,
    pub toplevel: ToplevelHandle,
    config: XdgWindowConfig,
    committed: bool,
    width: u32,
    height: u32,
    states: Vec<WindowState>,
}

impl XdgWindow {
    /// The window's id.
    pub closed spec fn spec_id(&self) -> u32 {
        self.id
    }

    /// Width and height last set on the window.
    pub closed spec fn spec_size(&self) -> (u32, u32) {
        (self.width, self.height)
    }

    /// Whether the window's surface was committed.
    pub closed spec fn spec_committed(&self) -> bool {
        self.committed
    }

    /// The requests sent on the window's `wl_surface`, in order.
    pub closed spec fn spec_surface_requests(&self) -> Seq<SurfaceRequest> {
        self.surface.spec_sent()
    }

    /// The requests sent on the window's `xdg_toplevel`, in order.
    pub closed spec fn spec_toplevel_requests(&self) -> Seq<ToplevelRequest> {
        self.toplevel.spec_sent()
    }

    /// Records the new size and asks the compositor to cap the window at it
    /// (a size above `i32::MAX` reaches the protocol wrapped to a negative
    /// value, as the protocol's integer type does).
    pub fn set_size(&mut self, width: u32, height: u32) -> (r: PlatformResult<()>)
        ensures
            r is Ok,
            final(self).spec_size() == (width, height),
            final(self).spec_committed() == old(self).spec_committed(),
            final(self).spec_id() == old(self).spec_id(),
            final(self).spec_surface_requests() == old(self).spec_surface_requests().push(
                SurfaceRequest::SetBufferScale(1),
            ),
            final(self).spec_toplevel_requests() == old(self).spec_toplevel_requests().push(
                ToplevelRequest::SetMaxSize(width as i32, height as i32),
            ),
    {
        self.width = width;
        self.height = height;
        surface_set_buffer_scale(&mut self.surface, 1);
        toplevel_set_max_size(&mut self.toplevel, width as i32, height as i32);
        Ok(())
    }

    /// Asks the compositor to make the window fullscreen, or to leave fullscreen.
    pub fn set_fullscreen(&mut self, fullscreen: bool) -> (r: PlatformResult<()>)
        ensures
            r is Ok,
            final(self).spec_toplevel_requests() == old(self).spec_toplevel_requests().push(
                if fullscreen {
                    ToplevelRequest::SetFullscreen(false)
                } else {
                    ToplevelRequest::UnsetFullscreen
                },
            ),
            final(self).spec_size() == old(self).spec_size(),
            final(self).spec_committed() == old(self).spec_committed(),
            final(self).spec_id() == old(self).spec_id(),
            final(self).spec_surface_requests() == old(self).spec_surface_requests(),
    {
        if fullscreen {
            toplevel_set_fullscreen(&mut self.toplevel, None);
        } else {
            toplevel_unset_fullscreen(&mut self.toplevel);
        }
        Ok(())
    }

    /// Asks the compositor to maximize the window, or to restore it.
    pub fn set_maximized(&mut self, maximized: bool) -> (r: PlatformResult<()>)
        ensures
            r is Ok,
            final(self).spec_toplevel_requests() == old(self).spec_toplevel_requests().push(
                if maximized {
                    ToplevelRequest::SetMaximized
                } else {
                    ToplevelRequest::UnsetMaximized
                },
            ),
            final(self).spec_size() == old(self).spec_size(),
            final(self).spec_committed() == old(self).spec_committed(),
            final(self).spec_id() == old(self).spec_id(),
            final(self).spec_surface_requests() == old(self).spec_surface_requests(),
    {
        if maximized {
            toplevel_set_maximized(&mut self.toplevel);
        } else {
            toplevel_unset_maximized(&mut self.toplevel);
        }
        Ok(())
    }

    /// Commits the window's surface.
    pub fn commit(&mut self) -> (r: PlatformResult<()>)
        ensures
            r is Ok,
            final(self).spec_committed(),
            final(self).spec_size() == old(self).spec_size(),
            final(self).spec_id() == old(self).spec_id(),
            final(self).spec_surface_requests() == old(self).spec_surface_requests().push(
                SurfaceRequest::Commit,
            ),
            final(self).spec_toplevel_requests() == old(self).spec_toplevel_requests(),
    {
        surface_commit(&mut self.surface);
        self.committed = true;
        Ok(())
    }

    pub fn get_size(&self) -> (r: (u32, u32))
        ensures
            r == self.spec_size(),
    {
        (self.width, self.height)
    }

    pub fn get_id(&self) -> (r: u32)
        ensures
            r == self.spec_id(),
    {
        self.id
    }
}

/// `HashMap::get_mut` on the window table: a mutable borrow of the window
/// stored under `id`, whose final value becomes the table's entry.
#[verifier::external_body]
fn window_entry_mut(windows: &mut HashMap<u32, XdgWindow>, id: u32) -> (r: Option<&mut XdgWindow>)
    ensures
        match r {
            Some(w) => {
                &&& old(windows)@.contains_key(id)
                &&& *w == old(windows)@[id]
                &&& final(windows)@ == old(windows)@.insert(id, *final(w))
            },
            None => {
                &&& !old(windows)@.contains_key(id)
                &&& final(windows)@ == old(windows)@
            },
        },
{
    windows.get_mut(&id)
}

/// The open toplevel windows, by id, and which of them has focus.
pub struct XdgWindowManager {
    windows: HashMap<u32, XdgWindow>,
    focused_window: Option<u32>,
}

/// The state of a window manager that its operations speak of.
pub struct XdgWindowManagerView {
    pub windows: Map<u32, XdgWindow>,
    pub focused: Option<u32>,
}

impl View for XdgWindowManager {
    type V = XdgWindowManagerView;

    closed spec fn view(&self) -> XdgWindowManagerView {
        XdgWindowManagerView { windows: self.windows@, focused: self.focused_window }
    }
}

/// The manager after window `id` is removed: the window is gone, and the focus
/// is cleared when it was on that window.
pub open spec fn without_window(m: XdgWindowManagerView, id: u32) -> XdgWindowManagerView {
    XdgWindowManagerView {
        windows: m.windows.remove(id),
        focused: if m.focused == Some(id) {
            None
        } else {
            m.focused
        },
    }
}

/// Removing a window never leaves the focus on it, leaves a focus on any
/// other window as it was, and leaves no window under its id.
pub proof fn lemma_remove_clears_focus(m: XdgWindowManagerView, id: u32)
    ensures
        without_window(m, id).focused != Some(id),
        m.focused != Some(id) ==> without_window(m, id).focused == m.focused,
        !without_window(m, id).windows.contains_key(id),
{
}

impl XdgWindowManager {
    /// A manager with no windows and no focus.
    pub fn new() -> (r: Self)
        ensures
            r@.windows == Map::<u32, XdgWindow>::empty(),
            r@.focused is None,
    {
        XdgWindowManager { windows: HashMap::new(), focused_window: None }
    }

    pub fn get_window(&self, id: u32) -> (r: Option<&XdgWindow>)
        ensures
            match r {
                Some(w) => self@.windows.contains_key(id) && self@.windows[id] == *w,
                None => !self@.windows.contains_key(id),
            },
    {
        self.windows.get(&id)
    }

    /// A mutable borrow of window `id`; what is written through it becomes the
    /// window filed under `id`.
    pub fn get_window_mut(&mut self, id: u32) -> (r: Option<&mut XdgWindow>)
        ensures
            match r {
                Some(w) => {
                    &&& old(self)@.windows.contains_key(id)
                    &&& *w == old(self)@.windows[id]
                    &&& final(self)@ == (XdgWindowManagerView {
                        windows: old(self)@.windows.insert(id, *final(w)),
                        ..old(self)@
                    })
                },
                None => {
                    &&& !old(self)@.windows.contains_key(id)
                    &&& final(self)@ == old(self)@
                },
            },
    {
        window_entry_mut(&mut self.windows, id)
    }

    /// Removes window `id` and returns it; when it had focus, no window has
    /// focus afterwards.
    pub fn remove_window(&mut self, id: u32) -> (r: Option<XdgWindow>)
        ensures
            final(self)@ == without_window(old(self)@, id),
            match r {
                Some(w) => old(self)@.windows.contains_key(id) && old(self)@.windows[id] == w,
                None => !old(self)@.windows.contains_key(id),
            },
    {
        if self.focused_window == Some(id) {
            self.focused_window = None;
        }
        self.windows.remove(&id)
    }

    /// Gives window `id` the focus (whether or not such a window is open).
    pub fn set_focused(&mut self, id: u32)
        ensures
            final(self)@ == (XdgWindowManagerView { focused: Some(id), ..old(self)@ }),
    {
        self.focused_window = Some(id);
    }

    pub fn get_focused(&self) -> (r: Option<u32>)
        ensures
            r == self@.focused,
    {
        self.focused_window
    }

    /// The open windows, in no particular order.
    pub fn windows(&self) -> (r: Values<'_, u32, XdgWindow>)
        ensures
            r.remaining().len() == self@.windows.dom().len(),
            r.remaining().unref().to_set() == self@.windows.values(),
    {
        self.windows.values()
    }
}

impl Default for XdgWindowManager {
    fn default() -> (r: Self)
        ensures
            r@.windows == Map::<u32, XdgWindow>::empty(),
            r@.focused is None,
    {
        Self::new()
    }
}

} // verus!
