use vstd::prelude::*;

use wayland_client::protocol::wl_surface::WlSurface;

verus! {

#[verifier::external_type_specification]
#[verifier::external_body]
pub struct ExWlSurface(WlSurface);

/// `<WlSurface as Clone>::clone` (derived): another handle on the same
/// protocol object. Nothing is stated of the handle.
pub assume_specification[ <WlSurface as Clone>::clone ](surface: &WlSurface) -> WlSurface;

/// A request sent on a `wl_surface`.
#[derive(Debug, Clone, Copy, PartialEq, Eq, Structural)]
pub enum SurfaceRequest {
    SetBufferScale(i32),
    Commit,
}

/// A `wl_surface` together with the requests sent on it through this
/// handle, in the order they were sent.
pub struct SurfaceHandle {
    proxy: WlSurface,
    sent: Ghost<Seq<SurfaceRequest>>,
}

impl SurfaceHandle {
    /// A handle on `proxy` through which nothing was sent yet.
    pub fn new(proxy: WlSurface) -> (r: Self)
        ensures
            r.spec_sent() == Seq::<SurfaceRequest>::empty(),
    {
        SurfaceHandle { proxy, sent: Ghost(Seq::empty()) }
    }

    /// The requests sent through this handle, in order.
    pub closed spec fn spec_sent(&self) -> Seq<SurfaceRequest> {
        self.sent@
    }
}

impl Clone for SurfaceHandle {
    fn clone(&self) -> (r: Self)
        ensures
            r.spec_sent() == self.spec_sent(),
    {
        SurfaceHandle { proxy: self.proxy.clone(), sent: Ghost(self.sent@) }
    }
}

/// `WlSurface::set_buffer_scale`: sends the request to the compositor, and
/// the handle records it.
#[verifier::external_body]
pub(crate) fn surface_set_buffer_scale(surface: &mut SurfaceHandle, scale: i32)
    ensures
        final(surface).spec_sent() == old(surface).spec_sent().push(SurfaceRequest::SetBufferScale(scale)),
{
    surface.proxy.set_buffer_scale(scale)
}

/// `WlSurface::commit`: sends the request to the compositor, and the handle
/// records it.
#[verifier::external_body]
pub(crate) fn surface_commit(surface: &mut SurfaceHandle)
    ensures
        final(surface).spec_sent() == old(surface).spec_sent().push(SurfaceRequest::Commit),
{
    surface.proxy.commit()
}

} // verus!
