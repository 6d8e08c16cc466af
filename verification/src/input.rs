use vstd::prelude::*;

use std::collections::HashMap;

verus! {

broadcast use vstd::std_specs::hash::group_hash_axioms;

/// Linux input event code of the left mouse button (`BTN_LEFT`).
pub const BTN_LEFT: u32 = 0x110;
/// Linux input event code of the right mouse button (`BTN_RIGHT`).
pub const BTN_RIGHT: u32 = 0x111;
/// Linux input event code of the middle mouse button (`BTN_MIDDLE`).
pub const BTN_MIDDLE: u32 = 0x112;
/// Button code this program reads as a wheel step up.
pub const BTN_WHEEL_UP: u32 = 0x113;
/// Button code this program reads as a wheel step down.
pub const BTN_WHEEL_DOWN: u32 = 0x114;

/// A pointer button, decoded from its wire code.
#[derive(Debug, Clone, Copy, PartialEq, Eq, Structural)]
pub enum PointerButton {
    Left,
    Right,
    Middle,
    WheelUp,
    WheelDown,
    Other(u32),
}

/// Decoding of a button code: the five known codes, and any other code kept as is.
pub open spec fn button_of_code(code: u32) -> PointerButton {
    if code == BTN_LEFT {
        PointerButton::Left
    } else if code == BTN_RIGHT {
        PointerButton::Right
    } else if code == BTN_MIDDLE {
        PointerButton::Middle
    } else if code == BTN_WHEEL_UP {
        PointerButton::WheelUp
    } else if code == BTN_WHEEL_DOWN {
        PointerButton::WheelDown
    } else {
        PointerButton::Other(code)
    }
}

/// Decoding loses nothing: different codes give different buttons, and a
/// code becomes `Other` exactly when it is none of the five known codes, in
/// which case the code is kept.
pub proof fn lemma_button_decoding_injective(a: u32, b: u32)
    ensures
        button_of_code(a) == button_of_code(b) ==> a == b,
        button_of_code(a) is Other <==> (a != BTN_LEFT && a != BTN_RIGHT && a != BTN_MIDDLE
            && a != BTN_WHEEL_UP && a != BTN_WHEEL_DOWN),
        button_of_code(a) is Other ==> button_of_code(a) == PointerButton::Other(a),
{
}

impl From<u32> for PointerButton {
    fn from(button: u32) -> (r: Self) {
        if button == BTN_LEFT {
            PointerButton::Left
        } else if button == BTN_RIGHT {
            PointerButton::Right
        } else if button == BTN_MIDDLE {
            PointerButton::Middle
        } else if button == BTN_WHEEL_UP {
            PointerButton::WheelUp
        } else if button == BTN_WHEEL_DOWN {
            PointerButton::WheelDown
        } else {
            PointerButton::Other(button)
        }
    }
}

impl vstd::std_specs::convert::FromSpecImpl<u32> for PointerButton {
    open spec fn obeys_from_spec() -> bool {
        true
    }

    open spec fn from_spec(v: u32) -> Self {
        button_of_code(v)
    }
}

/// Scroll axis of a pointer axis event.
#[derive(Debug, Clone, Copy, PartialEq, Eq, Structural)]
pub enum PointerAxis {
    Horizontal,
    Vertical,
}

/// Whether a key or button went down or up.
#[derive(Debug, Clone, Copy, PartialEq, Eq, Structural)]
pub enum KeyState {
    Pressed,
    Released,
}

/// A key press or release on a surface.
#[derive(Debug, Clone)]
pub struct KeyboardEvent {
    pub surface_id: u32,
    pub key: u32,
    pub state: KeyState,
    pub raw_key: u32,
}

/// Which program surface each Wayland surface belongs to, and which surface
/// the pointer is over.
pub struct SurfaceTracker {
    surface_map: HashMap<u32, u32>,
    hovered_surface: Option<u32>,
}

/// The state of a surface tracker: program surface ids by Wayland surface
/// id, and the hovered surface.
pub struct SurfaceTrackerView {
    pub surfaces: Map<u32, u32>,
    pub hovered: Option<u32>,
}

impl View for SurfaceTracker {
    type V = SurfaceTrackerView;

    closed spec fn view(&self) -> SurfaceTrackerView {
        SurfaceTrackerView { surfaces: self.surface_map@, hovered: self.hovered_surface }
    }
}

impl SurfaceTracker {
    /// No surface known and none hovered.
    pub fn new() -> (r: Self)
        ensures
            r@.surfaces == Map::<u32, u32>::empty(),
            r@.hovered is None,
    {
        SurfaceTracker { surface_map: HashMap::new(), hovered_surface: None }
    }

    /// Records that Wayland surface `wl_surface_id` shows program surface
    /// `surface_id`, replacing an earlier record for it.
    pub fn register_surface(&mut self, surface_id: u32, wl_surface_id: u32)
        ensures
            final(self)@.surfaces == old(self)@.surfaces.insert(wl_surface_id, surface_id),
            final(self)@.hovered == old(self)@.hovered,
    {
        self.surface_map.insert(wl_surface_id, surface_id);
    }

    /// The program surface shown on Wayland surface `wl_surface_id`, if any.
    pub fn get_surface_id(&self, wl_surface_id: u32) -> (r: Option<u32>)
        ensures
            r == (if self@.surfaces.contains_key(wl_surface_id) {
                Some(self@.surfaces[wl_surface_id])
            } else {
                None
            }),
    {
        match self.surface_map.get(&wl_surface_id) {
            Some(id) => Some(*id),
            None => None,
        }
    }

    /// The surface the pointer is over, if any.
    pub fn get_hovered_surface(&self) -> (r: Option<u32>)
        ensures
            r == self@.hovered,
    {
        self.hovered_surface
    }

    /// The pointer entered `surface_id`, which is now the hovered surface.
    pub fn pointer_enter(&mut self, surface_id: u32)
        ensures
            final(self)@.hovered == Some(surface_id),
            final(self)@.surfaces == old(self)@.surfaces,
    {
        self.hovered_surface = Some(surface_id);
    }

    /// The pointer left `surface_id`: no surface is hovered any more if it was
    /// that one; leaving another surface changes nothing.
    pub fn pointer_leave(&mut self, surface_id: u32)
        ensures
            final(self)@.hovered == hovered_after_leave(old(self)@.hovered, surface_id),
            final(self)@.surfaces == old(self)@.surfaces,
    {
        if self.hovered_surface == Some(surface_id) {
            self.hovered_surface = None;
        }
    }
}

/// The hovered surface after the pointer left `left`: none if it was that
/// surface, else unchanged.
pub open spec fn hovered_after_leave(hovered: Option<u32>, left: u32) -> Option<u32> {
    if hovered == Some(left) {
        None
    } else {
        hovered
    }
}

/// Entering a surface and leaving it again leaves nothing hovered, while
/// leaving another surface keeps the entered one hovered; and a registered
/// Wayland surface reads back the program surface it was registered with,
/// whatever else was registered before.
pub proof fn lemma_hover_and_lookup(surfaces: Map<u32, u32>, s: u32, other: u32, wl: u32)
    requires
        other != s,
    ensures
        hovered_after_leave(Some(s), s) is None,
        hovered_after_leave(Some(s), other) == Some(s),
        hovered_after_leave(None, other) is None,
        surfaces.insert(wl, s).contains_key(wl),
        surfaces.insert(wl, s)[wl] == s,
{
}

} // verus!
