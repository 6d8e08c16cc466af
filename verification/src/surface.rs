use vstd::prelude::*;
use vstd::string::*;
use vstd::std_specs::iter::IteratorSpec;

use std::collections::HashMap;
use std::collections::hash_map::Values;

use wayland_client::protocol::wl_surface::WlSurface;
use wayland_protocols_wlr::layer_shell::v1::client::zwlr_layer_surface_v1;
use wayland_protocols_wlr::layer_shell::v1::client::zwlr_layer_surface_v1::ZwlrLayerSurfaceV1;

use crate::error::PlatformResult;
use crate::protocol::{surface_commit, SurfaceHandle, SurfaceRequest};


verus! {

broadcast use vstd::std_specs::hash::group_hash_axioms;

/// Stacking layer of a layer-shell surface.
#[derive(Debug, Clone, Copy, PartialEq, Eq, Structural)]
pub enum Layer {
    Background,
    Bottom,
    Top,
    Overlay,
}

/// Where a layer-shell surface is attached on its output.
#[derive(Debug, Clone, Copy, PartialEq, Eq, Structural)]
pub enum Anchor {
    Top,
    Bottom,
    Left,
    Right,
    TopLeft,
    TopRight,
    BottomLeft,
    BottomRight,
    All,
}

/// Whether a layer-shell surface asks for keyboard focus.
#[derive(Debug, Clone, Copy, PartialEq, Eq, Structural)]
pub enum KeyboardInteractivity {
    /// The surface never takes keyboard focus (protocol value `none`).
    Disabled,
    Exclusive,
    OnDemand,
}

/// Value of a layer in `zwlr_layer_shell_v1.layer`.
pub open spec fn layer_wire(layer: Layer) -> u32 {
    match layer {
        Layer::Background => 0,
        Layer::Bottom => 1,
        Layer::Top => 2,
        Layer::Overlay => 3,
    }
}

/// Whether an anchor attaches to the top edge.
pub open spec fn touches_top(a: Anchor) -> bool {
    a is Top || a is TopLeft || a is TopRight || a is All
}

/// Whether an anchor attaches to the bottom edge.
pub open spec fn touches_bottom(a: Anchor) -> bool {
    a is Bottom || a is BottomLeft || a is BottomRight || a is All
}

/// Whether an anchor attaches to the left edge.
pub open spec fn touches_left(a: Anchor) -> bool {
    a is Left || a is TopLeft || a is BottomLeft || a is All
}

/// Whether an anchor attaches to the right edge.
pub open spec fn touches_right(a: Anchor) -> bool {
    a is Right || a is TopRight || a is BottomRight || a is All
}

/// The `zwlr_layer_surface_v1.anchor` bitfield of an anchor: the sum of the
/// bits of the edges it attaches to, top 1, bottom 2, left 4 and right 8.
pub open spec fn anchor_wire(a: Anchor) -> u32 {
    ((if touches_top(a) { 1int } else { 0int }) + (if touches_bottom(a) { 2int } else { 0int }) + (
    if touches_left(a) { 4int } else { 0int }) + (if touches_right(a) { 8int } else { 0int })) as u32
}

/// Value of an interactivity mode in `zwlr_layer_surface_v1.keyboard_interactivity`.
pub open spec fn interactivity_wire(k: KeyboardInteractivity) -> u32 {
    match k {
        KeyboardInteractivity::Disabled => 0,
        KeyboardInteractivity::Exclusive => 1,
        KeyboardInteractivity::OnDemand => 2,
    }
}

impl Layer {
    /// Wire value of this layer in the layer-shell protocol.
    pub fn wire_value(self) -> (r: u32)
        ensures
            r == layer_wire(self),
    {
        match self {
            Layer::Background => 0,
            Layer::Bottom => 1,
            Layer::Top => 2,
            Layer::Overlay => 3,
        }
    }
}

impl Anchor {
    /// The edges this anchor attaches to, as protocol bits.
    pub fn wire_bits(self) -> (r: u32)
        ensures
            r == anchor_wire(self),
            r < 16,
            (r % 2 == 1) == touches_top(self),
            ((r / 2) % 2 == 1) == touches_bottom(self),
            ((r / 4) % 2 == 1) == touches_left(self),
            ((r / 8) % 2 == 1) == touches_right(self),
    {
        match self {
            Anchor::Top => 1,
            Anchor::Bottom => 2,
            Anchor::Left => 4,
            Anchor::Right => 8,
            Anchor::TopLeft => 5,
            Anchor::TopRight => 9,
            Anchor::BottomLeft => 6,
            Anchor::BottomRight => 10,
            Anchor::All => 15,
        }
    }
}

impl KeyboardInteractivity {
    /// Wire value of this mode in the layer-shell protocol.
    pub fn wire_value(self) -> (r: u32)
        ensures
            r == interactivity_wire(self),
    {
        match self {
            KeyboardInteractivity::Disabled => 0,
            KeyboardInteractivity::Exclusive => 1,
            KeyboardInteractivity::OnDemand => 2,
        }
    }
}

/// Settings of a layer-shell surface.
pub struct LayerSurfaceConfig {
    pub anchor: Anchor,
    pub layer: Layer,
    pub keyboard_interactivity: KeyboardInteractivity,
    /// Margins: top, right, bottom, left.
    pub margin: (i32, i32, i32, i32),
    pub namespace: String,
    pub width: u32,
    pub height: u32,
}

impl Clone for LayerSurfaceConfig {
    fn clone(&self) -> (r: Self)
        ensures
            r == *self,
    {
        LayerSurfaceConfig {
            anchor: self.anchor,
            layer: self.layer,
            keyboard_interactivity: self.keyboard_interactivity,
            margin: self.margin,
            namespace: self.namespace.clone(),
            width: self.width,
            height: self.height,
        }
    }
}

impl Default for LayerSurfaceConfig {
    /// A bar at the top edge, in the top layer, without keyboard focus, with
    /// no margins, namespace `xfw` and a size left to the compositor.
    fn default() -> (r: Self)
        ensures
            r.anchor == Anchor::Top,
            r.layer == Layer::Top,
            r.keyboard_interactivity == KeyboardInteractivity::Disabled,
            r.margin == (0i32, 0i32, 0i32, 0i32),
            r.namespace@ == "xfw"@,
            r.width == 0,
            r.height == 0,
    {
        LayerSurfaceConfig {
            anchor: Anchor::Top,
            layer: Layer::Top,
            keyboard_interactivity: KeyboardInteractivity::Disabled,
            margin: (0, 0, 0, 0),
            namespace: String::from_str("xfw"),
            width: 0,
            height: 0,
        }
    }
}

impl LayerSurfaceConfig {
    /// The size to request from the compositor when a surface is created: the
    /// configured size when both sides are non-zero, else none, which leaves
    /// the size to the compositor.
    pub fn requested_size(&self) -> (r: Option<(u32, u32)>)
        ensures
            r == (if self.width > 0 && self.height > 0 {
                Some((self.width, self.height))
            } else {
                None
            }),
    {
        if self.width > 0 && self.height > 0 {
            Some((self.width, self.height))
        } else {
            None
        }
    }
}

#[verifier::external_type_specification]
#[verifier::external_body]
pub struct ExZwlrLayerSurfaceV1(ZwlrLayerSurfaceV1);

/// `<ZwlrLayerSurfaceV1 as Clone>::clone` (derived): another handle on the
/// same protocol object. Nothing is stated of the handle.
pub assume_specification[ <ZwlrLayerSurfaceV1 as Clone>::clone ](layer_surface: &ZwlrLayerSurfaceV1) -> ZwlrLayerSurfaceV1;

/// A request sent on a `zwlr_layer_surface_v1`, with its arguments as wire
/// values.
#[derive(Debug, Clone, Copy, PartialEq, Eq, Structural)]
pub enum LayerRequest {
    /// `set_anchor` with the anchor bitfield.
    Anchor(u32),
    /// `set_margin`: top, right, bottom, left.
    Margin(i32, i32, i32, i32),
    /// `set_keyboard_interactivity` with the mode's wire value.
    KeyboardInteractivity(u32),
    /// `set_size`: width, height.
    Size(u32, u32),
}

/// A `zwlr_layer_surface_v1` together with the requests sent on it through
/// this handle, in the order they were sent.
pub struct LayerHandle {
    proxy: ZwlrLayerSurfaceV1,
    sent: Ghost<Seq<LayerRequest>>,
}

impl LayerHandle {
    /// A handle on `proxy` through which nothing was sent yet.
    pub fn new(proxy: ZwlrLayerSurfaceV1) -> (r: Self)
        ensures
            r.spec_sent() == Seq::<LayerRequest>::empty(),
    {
        LayerHandle { proxy, sent: Ghost(Seq::empty()) }
    }

    /// The requests sent through this handle, in order.
    pub closed spec fn spec_sent(&self) -> Seq<LayerRequest> {
        self.sent@
    }
}

impl Clone for LayerHandle {
    fn clone(&self) -> (r: Self)
        ensures
            r.spec_sent() == self.spec_sent(),
    {
        LayerHandle { proxy: self.proxy.clone(), sent: Ghost(self.sent@) }
    }
}

/// `ZwlrLayerSurfaceV1::set_anchor` with the anchor bitfield `bits` (the
/// generated `Anchor` bitflags type accepts any combination of its four edge
/// bits): sends the request to the compositor, and the handle records it.
#[verifier::external_body]
fn layer_surface_set_anchor(layer_surface: &mut LayerHandle, bits: u32)
    requires
        bits < 16,
    ensures
        final(layer_surface).spec_sent() == old(layer_surface).spec_sent().push(LayerRequest::Anchor(bits)),
{
    layer_surface.proxy.set_anchor(zwlr_layer_surface_v1::Anchor::try_from(bits).unwrap())
}

/// `ZwlrLayerSurfaceV1::set_margin`: sends the request to the compositor,
/// and the handle records it.
#[verifier::external_body]
fn layer_surface_set_margin(layer_surface: &mut LayerHandle, top: i32, right: i32, bottom: i32, left: i32)
    ensures
        final(layer_surface).spec_sent() == old(layer_surface).spec_sent().push(
            LayerRequest::Margin(top, right, bottom, left),
        ),
{
    layer_surface.proxy.set_margin(top, right, bottom, left)
}

/// `ZwlrLayerSurfaceV1::set_keyboard_interactivity` with the mode whose wire
/// value is `wire` (the generated enum has the values 0 to 2): sends the
/// request to the compositor, and the handle records it.
#[verifier::external_body]
fn layer_surface_set_keyboard_interactivity(layer_surface: &mut LayerHandle, wire: u32)
    requires
        wire < 3,
    ensures
        final(layer_surface).spec_sent() == old(layer_surface).spec_sent().push(
            LayerRequest::KeyboardInteractivity(wire),
        ),
{
    layer_surface.proxy.set_keyboard_interactivity(
        zwlr_layer_surface_v1::KeyboardInteractivity::try_from(wire).unwrap(),
    )
}

/// `ZwlrLayerSurfaceV1::set_size`: sends the request to the compositor, and
/// the handle records it.
#[verifier::external_body]
fn layer_surface_set_size(layer_surface: &mut LayerHandle, width: u32, height: u32)
    ensures
        final(layer_surface).spec_sent() == old(layer_surface).spec_sent().push(
            LayerRequest::Size(width, height),
        ),
{
    layer_surface.proxy.set_size(width, height)
}

/// The requests that set up a new layer surface with `config`: its anchor,
/// its margins and its keyboard interactivity, then its size when both sides
/// of the configured size are non-zero.
pub open spec fn setup_requests(config: LayerSurfaceConfig) -> Seq<LayerRequest> {
    let m = config.margin;
    let base = seq![
        LayerRequest::Anchor(anchor_wire(config.anchor)),
        LayerRequest::Margin(m.0, m.1, m.2, m.3),
        LayerRequest::KeyboardInteractivity(interactivity_wire(config.keyboard_interactivity)),
    ];
    if config.width > 0 && config.height > 0 {
        base.push(LayerRequest::Size(config.width, config.height))
    } else {
        base
    }
}

/// The anchor bitfield has exactly the bits of the edges the anchor attaches
/// to: bit 1 for the top, 2 for the bottom, 4 for the left and 8 for the right.
pub proof fn lemma_anchor_wire_bits(a: Anchor)
    ensures
        anchor_wire(a) < 16,
        (anchor_wire(a) % 2 == 1) == touches_top(a),
        ((anchor_wire(a) / 2) % 2 == 1) == touches_bottom(a),
        ((anchor_wire(a) / 4) % 2 == 1) == touches_left(a),
        ((anchor_wire(a) / 8) % 2 == 1) == touches_right(a),
{
}

/// A new layer surface is set up from its configuration field for field: the
/// anchor's edge bits, the margins in the protocol's order (top, right,
/// bottom, left), the keyboard interactivity mode, and then the size exactly
/// when both sides are non-zero.
pub proof fn lemma_setup_requests_follow_config(config: LayerSurfaceConfig)
    ensures
        setup_requests(config).len() == (if config.width > 0 && config.height > 0 {
            4int
        } else {
            3int
        }),
        setup_requests(config)[0] == LayerRequest::Anchor(anchor_wire(config.anchor)),
        setup_requests(config)[1] == LayerRequest::Margin(
            config.margin.0,
            config.margin.1,
            config.margin.2,
            config.margin.3,
        ),
        setup_requests(config)[2] == LayerRequest::KeyboardInteractivity(
            interactivity_wire(config.keyboard_interactivity),
        ),
        config.width > 0 && config.height > 0 ==> setup_requests(config)[3] == LayerRequest::Size(
            config.width,
            config.height,
        ),
        forall|i: int|
            0 <= i < setup_requests(config).len() ==> (#[trigger] setup_requests(config)[i] is Size
                <==> i == 3),
{
}

/// The id handed out `k` turns after `start`: ids count up by one and start
/// over at 0 after `u32::MAX`.
pub open spec fn id_after(start: u32, k: nat) -> u32 {
    ((start + k) % 0x1_0000_0000) as u32
}

/// Hands out layer-surface ids: 0, 1, 2 and so on in turn, starting over at
/// 0 after `u32::MAX`.
pub struct SurfaceIds {
    next: u32,
}

impl SurfaceIds {
    /// The id handed out next.
    pub closed spec fn spec_next(&self) -> u32 {
        self.next
    }

    /// A counter whose first id is 0.
    pub fn new() -> (r: Self)
        ensures
            r.spec_next() == 0,
    {
        SurfaceIds { next: 0 }
    }

    /// Hands out the next id.
    pub fn next_id(&mut self) -> (r: u32)
        ensures
            r == old(self).spec_next(),
            final(self).spec_next() == id_after(old(self).spec_next(), 1),
    {
        let r = self.next;
        if self.next == u32::MAX {
            self.next = 0;
        } else {
            self.next = self.next + 1;
        }
        r
    }
}

/// Handing out one more id after `k` turns gives the id of turn `k + 1`.
pub proof fn lemma_id_after_step(start: u32, k: nat)
    ensures
        id_after(id_after(start, k), 1) == id_after(start, k + 1),
{
    let m: int = 0x1_0000_0000;
    let a: int = start + k;
    assert(((a % m) + 1) % m == (a + 1) % m) by {
        vstd::arithmetic::div_mod::lemma_add_mod_noop(a, 1, m);
        vstd::arithmetic::div_mod::lemma_small_mod(1, m as nat);
    }
}

/// Ids are unique among any `2^32` handed out in a row: turns `i` and `j`
/// after the same start give different ids.
pub proof fn lemma_ids_distinct(start: u32, i: nat, j: nat)
    requires
        i < j < 0x1_0000_0000,
    ensures
        id_after(start, i) != id_after(start, j),
{
    let m: int = 0x1_0000_0000;
    let a: int = start + i;
    let b: int = start + j;
    vstd::arithmetic::div_mod::lemma_fundamental_div_mod(a, m);
    vstd::arithmetic::div_mod::lemma_fundamental_div_mod(b, m);
    if a % m == b % m {
        assert((b - a) == m * (b / m - a / m)) by (nonlinear_arith)
            requires
                a == m * (a / m) + a % m,
                b == m * (b / m) + b % m,
                a % m == b % m,
        ;
        assert(false) by (nonlinear_arith)
            requires
                b - a == m * (b / m - a / m),
                0 < b - a < m,
                m > 0,
        ;
    }
}

/// A layer-shell surface: its protocol objects, its settings and its size.
pub struct LayerSurface {
    pub id: u32,
    pub surface: SurfaceHandle,
    pub layer_surface: LayerHandle,
    config: LayerSurfaceConfig,
    committed: bool,
    width: u32,
    height: u32,
}

impl Clone for LayerSurface {
    fn clone(&self) -> (r: Self)
        ensures
            r.spec_id() == self.spec_id(),
            r.spec_config() == self.spec_config(),
            r.spec_committed() == self.spec_committed(),
            r.spec_size() == self.spec_size(),
            r.spec_surface_requests() == self.spec_surface_requests(),
            r.spec_layer_requests() == self.spec_layer_requests(),
    {
        LayerSurface {
            id: self.id,
            surface: self.surface.clone(),
            layer_surface: self.layer_surface.clone(),
            config: self.config.clone(),
            committed: self.committed,
            width: self.width,
            height: self.height,
        }
    }
}

impl LayerSurface {
    pub closed spec fn spec_id(&self) -> u32 {
        self.id
    }

    pub closed spec fn spec_config(&self) -> LayerSurfaceConfig {
        self.config
    }

    pub closed spec fn spec_committed(&self) -> bool {
        self.committed
    }

    pub closed spec fn spec_size(&self) -> (u32, u32) {
        (self.width, self.height)
    }

    /// The requests sent on the surface's `wl_surface`, in order.
    pub closed spec fn spec_surface_requests(&self) -> Seq<SurfaceRequest> {
        self.surface.spec_sent()
    }

    /// The requests sent on the surface's layer-shell object, in order.
    pub closed spec fn spec_layer_requests(&self) -> Seq<LayerRequest> {
        self.layer_surface.spec_sent()
    }

    /// Sets up a freshly created layer surface with id `id`: sends its
    /// anchor, margins and keyboard interactivity, and its size when both
    /// sides of the configured size are non-zero. The surface starts
    /// uncommitted, with the configured size.
    pub fn new(id: u32, surface: WlSurface, layer_surface: ZwlrLayerSurfaceV1, config: LayerSurfaceConfig) -> (r:
        Self)
        ensures
            r.spec_id() == id,
            r.spec_config() == config,
            !r.spec_committed(),
            r.spec_size() == (config.width, config.height),
            r.spec_layer_requests() == setup_requests(config),
            r.spec_layer_requests().len() == (if config.width > 0 && config.height > 0 {
                4int
            } else {
                3int
            }),
            r.spec_layer_requests()[0] == LayerRequest::Anchor(anchor_wire(config.anchor)),
            r.spec_layer_requests()[1] == LayerRequest::Margin(
                config.margin.0,
                config.margin.1,
                config.margin.2,
                config.margin.3,
            ),
            r.spec_layer_requests()[2] == LayerRequest::KeyboardInteractivity(
                interactivity_wire(config.keyboard_interactivity),
            ),
            config.width > 0 && config.height > 0 ==> r.spec_layer_requests()[3]
                == LayerRequest::Size(config.width, config.height),
            r.spec_surface_requests() == Seq::<SurfaceRequest>::empty(),
    {
        let mut layer = LayerHandle::new(layer_surface);
        layer_surface_set_anchor(&mut layer, config.anchor.wire_bits());
        layer_surface_set_margin(
            &mut layer,
            config.margin.0,
            config.margin.1,
            config.margin.2,
            config.margin.3,
        );
        layer_surface_set_keyboard_interactivity(
            &mut layer,
            config.keyboard_interactivity.wire_value(),
        );
        match config.requested_size() {
            Some((w, h)) => layer_surface_set_size(&mut layer, w, h),
            None => {},
        }
        let width = config.width;
        let height = config.height;
        LayerSurface {
            id,
            surface: SurfaceHandle::new(surface),
            layer_surface: layer,
            config,
            committed: false,
            width,
            height,
        }
    }

    /// Records the new size and requests it from the compositor.
    pub fn set_size(&mut self, width: u32, height: u32) -> (r: PlatformResult<()>)
        ensures
            r is Ok,
            final(self).spec_size() == (width, height),
            final(self).spec_id() == old(self).spec_id(),
            final(self).spec_config() == old(self).spec_config(),
            final(self).spec_committed() == old(self).spec_committed(),
            final(self).spec_layer_requests() == old(self).spec_layer_requests().push(
                LayerRequest::Size(width, height),
            ),
            final(self).spec_surface_requests() == old(self).spec_surface_requests(),
    {
        self.width = width;
        self.height = height;
        layer_surface_set_size(&mut self.layer_surface, width, height);
        Ok(())
    }

    /// Commits the surface.
    pub fn commit(&mut self) -> (r: PlatformResult<()>)
        ensures
            r is Ok,
            final(self).spec_committed(),
            final(self).spec_size() == old(self).spec_size(),
            final(self).spec_id() == old(self).spec_id(),
            final(self).spec_config() == old(self).spec_config(),
            final(self).spec_surface_requests() == old(self).spec_surface_requests().push(
                SurfaceRequest::Commit,
            ),
            final(self).spec_layer_requests() == old(self).spec_layer_requests(),
    {
        surface_commit(&mut self.surface);
        self.committed = true;
        Ok(())
    }

    pub fn get_size(&self) -> (r: (u32, u32))
        ensures
            r == self.spec_size(),
    {
        (self.width, self.height)
    }

    pub fn get_surface_id(&self) -> (r: u32)
        ensures
            r == self.spec_id(),
    {
        self.id
    }
}

/// The layer surfaces of the program, by id.
pub struct SurfaceManager {
    surfaces: HashMap<u32, LayerSurface>,
}

impl View for SurfaceManager {
    type V = Map<u32, LayerSurface>;

    closed spec fn view(&self) -> Map<u32, LayerSurface> {
        self.surfaces@
    }
}

/// `HashMap::get_mut` on the surface table: a mutable borrow of the surface
/// stored under `id`, whose final value becomes the table's entry.
#[verifier::external_body]
fn surface_entry_mut(surfaces: &mut HashMap<u32, LayerSurface>, id: u32) -> (r: Option<&mut LayerSurface>)
    ensures
        match r {
            Some(s) => {
                &&& old(surfaces)@.contains_key(id)
                &&& *s == old(surfaces)@[id]
                &&& final(surfaces)@ == old(surfaces)@.insert(id, *final(s))
            },
            None => {
                &&& !old(surfaces)@.contains_key(id)
                &&& final(surfaces)@ == old(surfaces)@
            },
        },
{
    surfaces.get_mut(&id)
}

/// A surface added under its id reads back under that id until it is
/// removed, and adding or removing one surface leaves the others as they were.
pub proof fn lemma_surface_store(m: Map<u32, LayerSurface>, s: LayerSurface, other: u32)
    requires
        other != s.spec_id(),
    ensures
        m.insert(s.spec_id(), s).contains_key(s.spec_id()),
        m.insert(s.spec_id(), s)[s.spec_id()] == s,
        !m.insert(s.spec_id(), s).remove(s.spec_id()).contains_key(s.spec_id()),
        m.insert(s.spec_id(), s).contains_key(other) == m.contains_key(other),
        m.remove(s.spec_id()).contains_key(other) == m.contains_key(other),
        m.contains_key(other) ==> m.insert(s.spec_id(), s)[other] == m[other] && m.remove(
            s.spec_id(),
        )[other] == m[other],
{
}

impl SurfaceManager {
    pub fn new() -> (r: Self)
        ensures
            r@ == Map::<u32, LayerSurface>::empty(),
    {
        SurfaceManager { surfaces: HashMap::new() }
    }

    /// Files `surface` under its own id, replacing a surface of that id, and
    /// returns the id.
    pub fn add_surface(&mut self, surface: LayerSurface) -> (r: u32)
        ensures
            r == surface.spec_id(),
            final(self)@ == old(self)@.insert(r, surface),
    {
        let id = surface.get_surface_id();
        self.surfaces.insert(id, surface);
        id
    }

    pub fn get_surface(&self, id: u32) -> (r: Option<&LayerSurface>)
        ensures
            match r {
                Some(s) => self@.contains_key(id) && self@[id] == *s,
                None => !self@.contains_key(id),
            },
    {
        self.surfaces.get(&id)
    }

    /// A mutable borrow of surface `id`; what is written through it becomes the
    /// surface filed under `id`.
    pub fn get_surface_mut(&mut self, id: u32) -> (r: Option<&mut LayerSurface>)
        ensures
            match r {
                Some(s) => {
                    &&& old(self)@.contains_key(id)
                    &&& *s == old(self)@[id]
                    &&& final(self)@ == old(self)@.insert(id, *final(s))
                },
                None => {
                    &&& !old(self)@.contains_key(id)
                    &&& final(self)@ == old(self)@
                },
            },
    {
        surface_entry_mut(&mut self.surfaces, id)
    }

    /// Removes surface `id` and returns it.
    pub fn remove_surface(&mut self, id: u32) -> (r: Option<LayerSurface>)
        ensures
            final(self)@ == old(self)@.remove(id),
            match r {
                Some(s) => old(self)@.contains_key(id) && old(self)@[id] == s,
                None => !old(self)@.contains_key(id),
            },
    {
        self.surfaces.remove(&id)
    }

    /// The surfaces, in no particular order.
    pub fn surfaces(&self) -> (r: Values<'_, u32, LayerSurface>)
        ensures
            r.remaining().len() == self@.dom().len(),
            r.remaining().unref().to_set() == self@.values(),
    {
        self.surfaces.values()
    }
}

impl Default for SurfaceManager {
    fn default() -> (r: Self)
        ensures
            r@ == Map::<u32, LayerSurface>::empty(),
    {
        Self::new()
    }
}

} // verus!
