use vstd::prelude::*;

verus! {

#[verifier::external_type_specification]
#[verifier::external_body]
pub struct ExAnyhowError(anyhow::Error);

/// The CPU renderer: the size of the target it draws into.
pub struct Renderer {
    width: u32,
    height: u32,
}

impl View for Renderer {
    type V = (u32, u32);

    /// Width and height of the render target.
    closed spec fn view(&self) -> (u32, u32) {
        (self.width, self.height)
    }
}

impl Renderer {
    /// A renderer for a `width` by `height` target.
    pub fn new(width: u32, height: u32) -> (r: Self)
        ensures
            r@ == (width, height),
    {
        Renderer { width, height }
    }

    /// A renderer for a full-HD target, 1920 by 1080.
    pub fn with_default_size() -> (r: Self)
        ensures
            r@ == (1920u32, 1080u32),
    {
        Self::new(1920, 1080)
    }

    /// Makes the renderer ready to draw; there is nothing to set up, so it
    /// always succeeds and changes nothing.
    pub fn prepare(&mut self) -> (r: Result<(), anyhow::Error>)
        ensures
            r is Ok,
            final(self)@ == old(self)@,
    {
        Ok(())
    }
}

impl Default for Renderer {
    fn default() -> (r: Self)
        ensures
            r@ == (1920u32, 1080u32),
    {
        Self::new(1920, 1080)
    }
}

} // verus!
