use vstd::prelude::*;

use mio::Interest;

verus! {

#[verifier::external_type_specification]
#[verifier::external_body]
pub struct ExMioInterest(Interest);

/// What woke the event loop.
#[derive(Debug, Clone, Copy, PartialEq, Eq, Structural)]
pub enum PlatformEvent {
    /// The Wayland connection is ready.
    Wayland,
    /// A registered IPC descriptor is readable; the value is the descriptor.
    Ipc(usize),
    /// Anything else.
    Tick,
}

/// Receives the events of the loop; returning `false` stops the current
/// round of dispatching.
pub trait PlatformEventHandler: Send + Sync {
    fn handle_event(&self, event: PlatformEvent) -> bool;
}

/// A descriptor registered with the event loop, with its token and the
/// readiness it was registered for.
pub struct FdWatcher {
    fd: i32,
    token: usize,
    interest: Interest,
}

impl FdWatcher {
    pub fn new(fd: i32, token: usize, interest: Interest) -> (r: Self)
        ensures
            r.spec_fd() == fd,
            r.spec_token() == token,
            r.spec_interest() == interest,
    {
        FdWatcher { fd, token, interest }
    }

    pub closed spec fn spec_fd(&self) -> i32 {
        self.fd
    }

    pub closed spec fn spec_token(&self) -> usize {
        self.token
    }

    pub closed spec fn spec_interest(&self) -> Interest {
        self.interest
    }

    pub fn fd(&self) -> (r: i32)
        ensures
            r == self.spec_fd(),
    {
        self.fd
    }

    pub fn token(&self) -> (r: usize)
        ensures
            r == self.spec_token(),
    {
        self.token
    }

    pub fn interest(&self) -> (r: Interest)
        ensures
            r == self.spec_interest(),
    {
        self.interest
    }
}

} // verus!
