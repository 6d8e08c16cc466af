use vstd::prelude::*;

use std::collections::HashMap;
use std::time::Duration;
use std::time::Instant;

use mio::unix::SourceFd;
use mio::{Events, Interest, Poll, Registry, Token};

use crate::error::{PlatformError, PlatformResult};
use crate::event::{FdWatcher, PlatformEvent, PlatformEventHandler};

verus! {

broadcast use vstd::std_specs::hash::group_hash_axioms;

#[verifier::external_type_specification]
#[verifier::external_body]
pub struct ExMioPoll(Poll);

#[verifier::external_type_specification]
#[verifier::external_body]
pub struct ExMioRegistry(Registry);

#[verifier::external_type_specification]
#[verifier::external_body]
pub struct ExMioEvents(Events);

#[verifier::external_type_specification]
#[verifier::external_body]
pub struct ExIoError(std::io::Error);

/// What `Events` holds after a poll: for each event, its token and whether it
/// reports readable readiness, in the order `Events::iter` yields them.
pub uninterp spec fn mio_events_contents(events: Events) -> Seq<(usize, bool)>;

/// A request made of the system poller.
pub enum PollerCall {
    /// Register descriptor `.0` under token `.1` for readiness `.2`.
    Register(i32, usize, Interest),
    /// Deregister descriptor `.0`.
    Deregister(i32),
    /// Wait for readiness, at most for the given timeout; `.1` is whether the
    /// wait succeeded.
    Wait(Option<Duration>, bool),
}

/// `mio::Poll::new`: creates the system poller (epoll on Linux). It fails
/// when the system refuses to create one; nothing is promised of the result.
#[verifier::external_body]
fn poll_new() -> (r: Result<Poll, std::io::Error>) {
    Poll::new()
}

/// `mio::Registry::try_clone` on the registry of `poll`: a second handle on
/// the same poller. It fails when the system refuses to duplicate it.
#[verifier::external_body]
fn registry_of(poll: &Poll) -> (r: Result<Registry, std::io::Error>) {
    poll.registry().try_clone()
}

/// `mio::Events::with_capacity`: an empty event buffer.
#[verifier::external_body]
fn events_with_capacity(capacity: usize) -> (r: Events)
    ensures
        mio_events_contents(r) == Seq::<(usize, bool)>::empty(),
{
    Events::with_capacity(capacity)
}

/// Whether a readiness includes readable readiness (`Interest::is_readable`).
pub uninterp spec fn interest_readable(i: Interest) -> bool;

/// Whether a readiness includes writable readiness (`Interest::is_writable`).
pub uninterp spec fn interest_writable(i: Interest) -> bool;

/// `mio::Interest::READABLE`: readable readiness only.
#[verifier::external_body]
fn readable() -> (r: Interest)
    ensures
        interest_readable(r),
        !interest_writable(r),
{
    Interest::READABLE
}

/// `mio::Interest::WRITABLE`: writable readiness only.
#[verifier::external_body]
fn writable() -> (r: Interest)
    ensures
        !interest_readable(r),
        interest_writable(r),
{
    Interest::WRITABLE
}

/// `mio::Interest::add`: the readiness of `a` and of `b` together (a bitwise
/// or of their flags).
#[verifier::external_body]
fn interest_add(a: Interest, b: Interest) -> (r: Interest)
    ensures
        interest_readable(r) == (interest_readable(a) || interest_readable(b)),
        interest_writable(r) == (interest_writable(a) || interest_writable(b)),
{
    a.add(b)
}

/// `mio::Events::iter`, each event taken as its token's number and
/// `Event::is_readable`.
#[verifier::external_body]
fn event_list(events: &Events) -> (r: Vec<(usize, bool)>)
    ensures
        r@ == mio_events_contents(*events),
{
    events.iter().map(|e| (e.token().0, e.is_readable())).collect()
}

/// `ToString::to_string` of an I/O error: its system description.
#[verifier::external_body]
fn io_error_text(e: &std::io::Error) -> (r: String) {
    e.to_string()
}

/// The system poller with its event buffer, together with a record of what
/// was asked of it: every request made through it, in order, and the
/// descriptors it accepted, each with its token and readiness.
struct Poller {
    poll: Poll,
    registry: Registry,
    events: Events,
    registered: Ghost<Map<i32, (usize, Interest)>>,
    calls: Ghost<Seq<PollerCall>>,
}

impl Poller {
    /// `mio::Registry::register` of the raw descriptor `fd` under
    /// `Token(token)`. The request is recorded; the descriptor counts as
    /// registered when the system accepted it, which is not stated.
    #[verifier::external_body]
    fn register(&mut self, fd: i32, token: usize, interest: Interest) -> (r: Result<(), std::io::Error>)
        ensures
            final(self).calls@ == old(self).calls@.push(PollerCall::Register(fd, token, interest)),
            r is Ok ==> final(self).registered@ == old(self).registered@.insert(fd, (token, interest)),
            r is Err ==> final(self).registered@ == old(self).registered@,
    {
        self.registry.register(&mut SourceFd(&fd), Token(token), interest)
    }

    /// `mio::Registry::deregister` of the raw descriptor `fd`. The request is
    /// recorded; whether the system accepts it is not stated.
    #[verifier::external_body]
    fn deregister(&mut self, fd: i32) -> (r: Result<(), std::io::Error>)
        ensures
            final(self).calls@ == old(self).calls@.push(PollerCall::Deregister(fd)),
            r is Ok ==> final(self).registered@ == old(self).registered@.remove(fd),
            r is Err ==> final(self).registered@ == old(self).registered@,
    {
        self.registry.deregister(&mut SourceFd(&fd))
    }

    /// `mio::Poll::poll`: waits for readiness events, or for `timeout`, and
    /// puts them into the event buffer. The request is recorded with whether
    /// it succeeded; which events arrive depends on the system and is not
    /// stated.
    #[verifier::external_body]
    fn wait(&mut self, timeout: Option<Duration>) -> (r: Result<(), std::io::Error>)
        ensures
            final(self).calls@ == old(self).calls@.push(PollerCall::Wait(timeout, r is Ok)),
            final(self).registered@ == old(self).registered@,
    {
        self.poll.poll(&mut self.events, timeout)
    }
}

/// The event loop: a poller, the descriptors registered with it, and whether
/// it runs. Token 0 belongs to the Wayland connection; IPC descriptors get
/// the tokens 1, 2, 3 and so on, in the order they are registered.
pub struct EventLoop {
    poller: Poller,
    watchers: HashMap<usize, FdWatcher>,
    next_ipc_token: usize,
    wayland_fd: Option<i32>,
    running: bool,
    round: Ghost<Seq<(PlatformEvent, bool)>>,
}

/// The state of an event loop that its operations speak of.
pub struct EventLoopView {
    /// Registered IPC descriptors, by token.
    pub watchers: Map<usize, FdWatcher>,
    /// The token the next IPC registration receives.
    pub next_ipc_token: usize,
    /// The Wayland descriptor, once one was registered.
    pub wayland_fd: Option<i32>,
    pub running: bool,
    /// The descriptors the poller accepted, each with its token and readiness.
    pub registered: Map<i32, (usize, Interest)>,
}

impl View for EventLoop {
    type V = EventLoopView;

    closed spec fn view(&self) -> EventLoopView {
        EventLoopView {
            watchers: self.watchers@,
            next_ipc_token: self.next_ipc_token,
            wayland_fd: self.wayland_fd,
            running: self.running,
            registered: self.poller.registered@,
        }
    }
}

impl EventLoopView {
    /// Every registered descriptor sits under its own token, which is neither
    /// the Wayland token 0 nor a token not yet handed out.
    pub open spec fn wf(self) -> bool {
        &&& self.next_ipc_token >= 1
        &&& forall|t: usize| #[trigger]
            self.watchers.contains_key(t) ==> 1 <= t < self.next_ipc_token
                && self.watchers[t].spec_token() == t
    }

    /// The event a readiness notification for `token` is dispatched as.
    pub open spec fn event_for(self, token: usize, readable: bool) -> PlatformEvent {
        if token == 0 {
            PlatformEvent::Wayland
        } else if self.watchers.contains_key(token) && readable {
            PlatformEvent::Ipc(self.watchers[token].spec_fd() as usize)
        } else {
            PlatformEvent::Tick
        }
    }

    /// The events a list of (token, readable) notifications is dispatched as,
    /// in the same order.
    pub open spec fn events_for(self, ready: Seq<(usize, bool)>) -> Seq<PlatformEvent> {
        ready.map_values(|n: (usize, bool)| self.event_for(n.0, n.1))
    }
}

/// `round` is how a handler answered `events` handed to it in order: it was
/// given a prefix of them, at least the first when there is one, it answered
/// `true` to every one of them but the last, and the round ended early only
/// after an answer `false`.
pub open spec fn dispatched(round: Seq<(PlatformEvent, bool)>, events: Seq<PlatformEvent>) -> bool {
    &&& round.len() <= events.len()
    &&& forall|i: int| 0 <= i < round.len() ==> #[trigger] round[i].0 == events[i]
    &&& forall|i: int| 0 <= i < round.len() - 1 ==> #[trigger] round[i].1
    &&& round.len() < events.len() ==> round.len() > 0 && !round[round.len() - 1].1
}

/// What a handler sees in a round: when the round was dispatched from the
/// polled notifications and each recorded answer is the handler's answer to
/// the recorded event, the `i`-th call of the handler was on the event the
/// `i`-th notification maps to (IPC on the registered descriptor for a
/// readable registered token, Wayland for token 0, a tick otherwise), and
/// its answer was `true` unless it was the last call.
pub proof fn lemma_handler_sees_mapped_notifications<F: PlatformEventHandler>(
    v: EventLoopView,
    polled: Seq<(usize, bool)>,
    round: Seq<(PlatformEvent, bool)>,
    handler: &F,
)
    requires
        dispatched(round, v.events_for(polled)),
        forall|j: int|
            0 <= j < round.len() ==> call_ensures(F::handle_event, (handler, #[trigger] round[j].0), round[j].1),
    ensures
        round.len() <= polled.len(),
        polled.len() > 0 ==> round.len() > 0,
        forall|i: int|
            0 <= i < round.len() ==> {
                &&& call_ensures(F::handle_event, (handler, v.event_for(polled[i].0, polled[i].1)), round[i].1)
                &&& (polled[i].0 != 0 && v.watchers.contains_key(polled[i].0) && polled[i].1 ==> #[trigger] round[i].0
                    == PlatformEvent::Ipc(v.watchers[polled[i].0].spec_fd() as usize))
                &&& (polled[i].0 == 0 ==> round[i].0 == PlatformEvent::Wayland)
                &&& (i < round.len() - 1 ==> round[i].1)
            },
{
    assert forall|i: int| 0 <= i < round.len() implies {
        &&& call_ensures(F::handle_event, (handler, v.event_for(polled[i].0, polled[i].1)), round[i].1)
        &&& (polled[i].0 != 0 && v.watchers.contains_key(polled[i].0) && polled[i].1 ==> #[trigger] round[i].0
            == PlatformEvent::Ipc(v.watchers[polled[i].0].spec_fd() as usize))
        &&& (polled[i].0 == 0 ==> round[i].0 == PlatformEvent::Wayland)
        &&& (i < round.len() - 1 ==> round[i].1)
    } by {
        assert(round[i].0 == v.events_for(polled)[i]);
        assert(call_ensures(F::handle_event, (handler, round[i].0), round[i].1));
    }
}

/// `new` is `old` after descriptor `fd` was registered for `interest` under
/// token `t`: the next free token, which is then used up; every earlier
/// registration stays as it was, and the poller holds `fd` under `t`.
pub open spec fn registers(old: EventLoopView, new: EventLoopView, t: usize, fd: i32, interest: Interest) -> bool {
    &&& t == old.next_ipc_token
    &&& new.next_ipc_token == old.next_ipc_token + 1
    &&& new.watchers.dom() == old.watchers.dom().insert(t)
    &&& forall|k: usize| #[trigger]
        old.watchers.contains_key(k) ==> new.watchers[k] == old.watchers[k]
    &&& new.watchers[t].spec_fd() == fd
    &&& new.watchers[t].spec_token() == t
    &&& new.watchers[t].spec_interest() == interest
    &&& new.registered == old.registered.insert(fd, (t, interest))
    &&& new.wayland_fd == old.wayland_fd
    &&& new.running == old.running
}

/// A registration hands out a token that is not the Wayland token and was
/// not in use; readiness on it is dispatched as IPC on the registered
/// descriptor when readable and as a tick otherwise; unregistering it gives
/// back exactly the descriptors there were before.
pub proof fn lemma_register_fresh_and_undone(
    v0: EventLoopView,
    v1: EventLoopView,
    t: usize,
    fd: i32,
    interest: Interest,
)
    requires
        v0.wf(),
        registers(v0, v1, t, fd, interest),
    ensures
        t != 0,
        !v0.watchers.contains_key(t),
        v1.wf(),
        v1.event_for(t, true) == PlatformEvent::Ipc(fd as usize),
        v1.event_for(t, false) == PlatformEvent::Tick,
        v1.registered[fd] == (t, interest),
        v1.watchers.remove(t) == v0.watchers,
{
    assert(v1.watchers.remove(t) =~= v0.watchers);
}

/// Along a run of loop states in which the next token never goes down (no
/// operation of `EventLoop` lowers it), the next token of a later state is at
/// least that of an earlier one.
proof fn lemma_run_token_monotone(run: Seq<EventLoopView>, a: int, b: int)
    requires
        forall|k: int| 0 <= k < run.len() - 1 ==> #[trigger] run[k].next_ipc_token <= run[k + 1].next_ipc_token,
        0 <= a <= b < run.len(),
    ensures
        run[a].next_ipc_token <= run[b].next_ipc_token,
    decreases b - a,
{
    if a < b {
        lemma_run_token_monotone(run, a, b - 1);
        assert(run[b - 1].next_ipc_token <= run[b].next_ipc_token);
    }
}

/// Tokens are handed out in increasing order: along any run of loop states
/// in which the next token never goes down (registrations that fail use up
/// their token too, and no operation of `EventLoop` lowers it), a later
/// registration receives a larger token than an earlier one, so no token is
/// handed out twice, not even after its descriptor was unregistered.
pub proof fn lemma_tokens_strictly_increase(
    run: Seq<EventLoopView>,
    i: int,
    j: int,
    ti: usize,
    tj: usize,
    fdi: i32,
    fdj: i32,
    ii: Interest,
    ij: Interest,
)
    requires
        forall|k: int| 0 <= k < run.len() - 1 ==> #[trigger] run[k].next_ipc_token <= run[k + 1].next_ipc_token,
        0 <= i < j,
        j + 1 < run.len(),
        registers(run[i], run[i + 1], ti, fdi, ii),
        registers(run[j], run[j + 1], tj, fdj, ij),
    ensures
        ti < tj,
{
    lemma_run_token_monotone(run, i + 1, j);
}

/// Tokens are handed out in increasing order, so two registrations in a row
/// never share a token, and the second leaves the first in place.
pub proof fn lemma_successive_tokens_differ(
    v0: EventLoopView,
    v1: EventLoopView,
    v2: EventLoopView,
    t1: usize,
    t2: usize,
    fd1: i32,
    fd2: i32,
    i1: Interest,
    i2: Interest,
)
    requires
        v0.wf(),
        registers(v0, v1, t1, fd1, i1),
        registers(v1, v2, t2, fd2, i2),
    ensures
        t1 < t2,
        v2.watchers.contains_key(t1),
        v2.watchers[t1] == v1.watchers[t1],
{
}

/// The error an I/O failure of the poller is reported as.
pub open spec fn is_event_loop_error<T>(r: PlatformResult<T>) -> bool {
    r matches Err(PlatformError::EventLoop(_))
}

impl EventLoop {
    /// Every request made of the poller so far, in order.
    pub closed spec fn spec_calls(&self) -> Seq<PollerCall> {
        self.poller.calls@
    }

    /// The (token, readable) notifications of the last wait.
    pub closed spec fn spec_polled(&self) -> Seq<(usize, bool)> {
        mio_events_contents(self.poller.events)
    }

    /// The events handed to the handler in the last round, each with the
    /// handler's answer.
    pub closed spec fn spec_last_round(&self) -> Seq<(PlatformEvent, bool)> {
        self.round@
    }

    /// Creates the poller with room for 1024 events per round; no descriptor
    /// is registered and the loop does not run. Fails, as an event-loop
    /// error, when the system refuses a poller.
    pub fn new() -> (r: PlatformResult<Self>)
        ensures
            match r {
                Ok(l) => {
                    &&& l@.watchers == Map::<usize, FdWatcher>::empty()
                    &&& l@.next_ipc_token == 1
                    &&& l@.wayland_fd is None
                    &&& !l@.running
                    &&& l@.registered == Map::<i32, (usize, Interest)>::empty()
                    &&& l.spec_calls() == Seq::<PollerCall>::empty()
                    &&& l.spec_last_round() == Seq::<(PlatformEvent, bool)>::empty()
                    &&& l@.wf()
                },
                Err(e) => e is EventLoop,
            },
    {
        let poll = match poll_new() {
            Ok(p) => p,
            Err(e) => return Err(PlatformError::EventLoop(io_error_text(&e))),
        };
        let registry = match registry_of(&poll) {
            Ok(reg) => reg,
            Err(e) => return Err(PlatformError::EventLoop(io_error_text(&e))),
        };
        let poller = Poller {
            poll,
            registry,
            events: events_with_capacity(1024),
            registered: Ghost(Map::empty()),
            calls: Ghost(Seq::empty()),
        };
        let l = EventLoop {
            poller,
            watchers: HashMap::new(),
            next_ipc_token: 1,
            wayland_fd: None,
            running: false,
            round: Ghost(Seq::empty()),
        };
        Ok(l)
    }

    /// Records `fd` as the Wayland descriptor and asks the poller to watch it
    /// under token 0 for reading and writing. The descriptor is recorded even
    /// when the registration fails, which is reported as an event-loop error.
    pub fn register_wayland_fd(&mut self, fd: i32) -> (r: PlatformResult<()>)
        ensures
            final(self)@.wayland_fd == Some(fd),
            final(self)@.watchers == old(self)@.watchers,
            final(self)@.next_ipc_token == old(self)@.next_ipc_token,
            final(self)@.running == old(self)@.running,
            final(self).spec_last_round() == old(self).spec_last_round(),
            exists|i: Interest|
                {
                    &&& interest_readable(i)
                    &&& interest_writable(i)
                    &&& final(self).spec_calls() == old(self).spec_calls().push(
                        PollerCall::Register(fd, 0usize, i),
                    )
                    &&& r is Ok ==> final(self)@.registered == old(self)@.registered.insert(
                        fd,
                        (0usize, i),
                    )
                },
            r is Err ==> final(self)@.registered == old(self)@.registered,
            r is Ok || is_event_loop_error(r),
    {
        self.wayland_fd = Some(fd);
        let interest = interest_add(readable(), writable());
        let res = self.poller.register(fd, 0, interest);
        assert(self.spec_calls() == old(self).spec_calls().push(PollerCall::Register(fd, 0usize, interest)));
        match res {
            Ok(()) => Ok(()),
            Err(e) => Err(PlatformError::EventLoop(io_error_text(&e))),
        }
    }

    /// Registers an IPC descriptor under the next free token and returns the
    /// token. The token is used up even when the system refuses the
    /// descriptor; then nothing is recorded and an event-loop error returned.
    pub fn register_fd(&mut self, fd: i32, interest: Interest) -> (r: PlatformResult<usize>)
        requires
            old(self)@.wf(),
            old(self)@.next_ipc_token < usize::MAX,
        ensures
            final(self)@.wf(),
            final(self)@.next_ipc_token == old(self)@.next_ipc_token + 1,
            final(self)@.wayland_fd == old(self)@.wayland_fd,
            final(self)@.running == old(self)@.running,
            final(self).spec_calls() == old(self).spec_calls().push(
                PollerCall::Register(fd, old(self)@.next_ipc_token, interest),
            ),
            final(self).spec_last_round() == old(self).spec_last_round(),
            match r {
                Ok(t) => registers(old(self)@, final(self)@, t, fd, interest),
                Err(e) => {
                    &&& e is EventLoop
                    &&& final(self)@.watchers == old(self)@.watchers
                    &&& final(self)@.registered == old(self)@.registered
                },
            },
    {
        let token = self.next_ipc_token;
        self.next_ipc_token = self.next_ipc_token + 1;
        // The token is used up before the system is asked, so every registered
        // descriptor is still below the next token.
        assert(self@.watchers == old(self)@.watchers);
        assert(self@.wf());
        match self.poller.register(fd, token, interest) {
            Ok(()) => {},
            Err(e) => return Err(PlatformError::EventLoop(io_error_text(&e))),
        }
        let watcher = FdWatcher::new(fd, token, interest);
        self.watchers.insert(token, watcher);
        Ok(token)
    }

    /// Forgets the descriptor registered under `token` and asks the poller to
    /// deregister it. An unknown token is no error and changes nothing.
    pub fn unregister_fd(&mut self, token: usize) -> (r: PlatformResult<()>)
        requires
            old(self)@.wf(),
        ensures
            final(self)@.wf(),
            final(self)@.watchers == old(self)@.watchers.remove(token),
            final(self)@.next_ipc_token == old(self)@.next_ipc_token,
            final(self)@.wayland_fd == old(self)@.wayland_fd,
            final(self)@.running == old(self)@.running,
            final(self).spec_last_round() == old(self).spec_last_round(),
            old(self)@.watchers.contains_key(token) ==> {
                let fd = old(self)@.watchers[token].spec_fd();
                &&& final(self).spec_calls() == old(self).spec_calls().push(PollerCall::Deregister(fd))
                &&& r is Ok ==> final(self)@.registered == old(self)@.registered.remove(fd)
                &&& r is Err ==> final(self)@.registered == old(self)@.registered
            },
            !old(self)@.watchers.contains_key(token) ==> {
                &&& r is Ok
                &&& final(self).spec_calls() == old(self).spec_calls()
                &&& final(self)@.registered == old(self)@.registered
            },
            r is Ok || is_event_loop_error(r),
    {
        let removed = self.watchers.remove(&token);
        assert forall|t: usize| #[trigger] self@.watchers.contains_key(t) implies 1 <= t < self@.next_ipc_token
            && self@.watchers[t].spec_token() == t by {
            assert(old(self)@.watchers.contains_key(t));
        }
        assert(self@.wf());
        let ghost before = self@;
        let res = match removed {
            Some(watcher) => match self.poller.deregister(watcher.fd()) {
                Ok(()) => Ok(()),
                Err(e) => Err(PlatformError::EventLoop(io_error_text(&e))),
            },
            None => Ok(()),
        };
        assert(self@.watchers == before.watchers && self@.next_ipc_token == before.next_ipc_token);
        res
    }

    /// The event that a readiness notification for `token` is dispatched as:
    /// token 0 is the Wayland connection; a registered token that is readable
    /// is IPC on its descriptor; anything else is a tick.
    pub fn map_event(&self, token: usize, readable: bool) -> (r: PlatformEvent)
        ensures
            r == self@.event_for(token, readable),
    {
        if token == 0 {
            return PlatformEvent::Wayland;
        }
        match self.watchers.get(&token) {
            Some(watcher) => {
                if readable {
                    PlatformEvent::Ipc(watcher.fd() as usize)
                } else {
                    PlatformEvent::Tick
                }
            },
            None => PlatformEvent::Tick,
        }
    }

    /// The events a list of (token, readable) notifications is dispatched
    /// as, each mapped by `map_event`, in the same order.
    pub fn map_events(&self, ready: &Vec<(usize, bool)>) -> (r: Vec<PlatformEvent>)
        ensures
            r@ == self@.events_for(ready@),
    {
        let mut out: Vec<PlatformEvent> = Vec::new();
        let mut i: usize = 0;
        while i < ready.len()
            invariant
                i <= ready.len(),
                out@ == self@.events_for(ready@.subrange(0, i as int)),
            decreases ready.len() - i,
        {
            let (token, readable) = ready[i];
            let event = self.map_event(token, readable);
            out.push(event);
            proof {
                assert(ready@.subrange(0, i + 1) == ready@.subrange(0, i as int).push(ready@[i as int]));
            }
            i = i + 1;
        }
        assert(ready@.subrange(0, ready.len() as int) == ready@);
        out
    }

    /// Waits for readiness (at most `timeout`), then hands each event, mapped
    /// by `map_event`, to `handler` in order, stopping right after the
    /// handler returns `false`. A failed wait is an event-loop error and
    /// reaches no handler. The registered descriptors and the running flag
    /// are left as they were.
    pub fn poll_events<F: PlatformEventHandler>(&mut self, timeout: Option<Duration>, handler: &F) -> (r:
        PlatformResult<()>)
        ensures
            final(self)@ == old(self)@,
            final(self).spec_calls() == old(self).spec_calls().push(PollerCall::Wait(timeout, r is Ok)),
            r is Ok || is_event_loop_error(r),
            r is Err ==> final(self).spec_last_round() == Seq::<(PlatformEvent, bool)>::empty(),
            r is Ok ==> dispatched(
                final(self).spec_last_round(),
                old(self)@.events_for(final(self).spec_polled()),
            ),
            forall|j: int|
                0 <= j < final(self).spec_last_round().len() ==> call_ensures(
                    F::handle_event,
                    (handler, #[trigger] final(self).spec_last_round()[j].0),
                    final(self).spec_last_round()[j].1,
                ),
    {
        self.round = Ghost(Seq::empty());
        match self.poller.wait(timeout) {
            Ok(()) => {},
            Err(e) => return Err(PlatformError::EventLoop(io_error_text(&e))),
        }
        let ready = event_list(&self.poller.events);
        let events = self.map_events(&ready);
        let mut i: usize = 0;
        while i < events.len()
            invariant
                i <= events.len(),
                self@ == old(self)@,
                self.spec_calls() == old(self).spec_calls().push(PollerCall::Wait(timeout, true)),
                events@ == old(self)@.events_for(self.spec_polled()),
                self.round@.len() == i,
                forall|j: int| 0 <= j < i ==> #[trigger] self.round@[j].0 == events@[j],
                forall|j: int| 0 <= j < i ==> #[trigger] self.round@[j].1,
                forall|j: int|
                    0 <= j < i ==> call_ensures(
                        F::handle_event,
                        (handler, #[trigger] self.round@[j].0),
                        self.round@[j].1,
                    ),
            decreases events.len() - i,
        {
            let event = events[i];
            let more = handler.handle_event(event);
            self.round = Ghost(self.round@.push((event, more)));
            if !more {
                return Ok(());
            }
            i = i + 1;
        }
        Ok(())
    }

    /// Marks the loop as running; the driver keeps polling while it runs.
    pub fn start(&mut self)
        ensures
            final(self)@ == (EventLoopView { running: true, ..old(self)@ }),
            final(self).spec_calls() == old(self).spec_calls(),
            final(self).spec_last_round() == old(self).spec_last_round(),
    {
        self.running = true;
    }

    /// Asks the loop to stop after the current round.
    pub fn stop(&mut self)
        ensures
            final(self)@ == (EventLoopView { running: false, ..old(self)@ }),
            final(self).spec_calls() == old(self).spec_calls(),
            final(self).spec_last_round() == old(self).spec_last_round(),
    {
        self.running = false;
    }

    /// The token the next IPC registration receives.
    pub fn next_ipc_token(&self) -> (r: usize)
        ensures
            r == self@.next_ipc_token,
    {
        self.next_ipc_token
    }

    pub fn is_running(&self) -> (r: bool)
        ensures
            r == self@.running,
    {
        self.running
    }
}


#[verifier::external_type_specification]
#[verifier::external_body]
pub struct ExInstant(Instant);

/// The length of a duration in nanoseconds.
pub uninterp spec fn duration_nanos(d: Duration) -> u128;

/// `Duration::as_nanos`: the whole number of nanoseconds in `d`.
#[verifier::external_body]
fn duration_as_nanos(d: &Duration) -> (r: u128)
    ensures
        r == duration_nanos(*d),
{
    d.as_nanos()
}

/// `Instant::now`: the current time of the monotonic clock.
#[verifier::external_body]
fn instant_now() -> (r: Instant) {
    Instant::now()
}

/// `Instant::elapsed`: the time passed since `start` (zero when the clock
/// reads an earlier time). It depends on the clock, so nothing is promised
/// of it.
#[verifier::external_body]
fn instant_elapsed(start: &Instant) -> (r: Duration) {
    start.elapsed()
}

/// A countdown: ready once its duration has passed since it was started or
/// last reset. A repeating timer is meant to be reset each time it fires.
pub struct Timer {
    start: Instant,
    duration: Duration,
    nanos: u128,
    repeating: bool,
}

impl Timer {
    /// The duration the timer counts down.
    pub closed spec fn spec_duration(&self) -> Duration {
        self.duration
    }

    pub closed spec fn spec_repeating(&self) -> bool {
        self.repeating
    }

    #[verifier::type_invariant]
    closed spec fn inv(&self) -> bool {
        self.nanos == duration_nanos(self.duration)
    }

    /// A one-shot timer for `duration`, started now.
    pub fn new(duration: Duration) -> (r: Self)
        ensures
            r.spec_duration() == duration,
            !r.spec_repeating(),
    {
        let nanos = duration_as_nanos(&duration);
        Timer { start: instant_now(), duration, nanos, repeating: false }
    }

    /// A repeating timer for `duration`, started now.
    pub fn repeating(duration: Duration) -> (r: Self)
        ensures
            r.spec_duration() == duration,
            r.spec_repeating(),
    {
        let nanos = duration_as_nanos(&duration);
        Timer { start: instant_now(), duration, nanos, repeating: true }
    }

    /// Whether a timer started `elapsed` nanoseconds ago is ready: its
    /// duration has passed once that much time has.
    pub fn is_ready_after(&self, elapsed: u128) -> (r: bool)
        ensures
            r == (elapsed >= duration_nanos(self.spec_duration())),
    {
        proof {
            use_type_invariant(self);
        }
        elapsed >= self.nanos
    }

    /// Whether a timer started `elapsed` ago is ready: its duration has passed
    /// once at least that much time has.
    pub fn is_ready_at(&self, elapsed: Duration) -> (r: bool)
        ensures
            r == (duration_nanos(elapsed) >= duration_nanos(self.spec_duration())),
    {
        self.is_ready_after(duration_as_nanos(&elapsed))
    }

    /// Whether the duration has passed since the start: `is_ready_at` on the
    /// time read from the clock. A timer of zero duration is always ready.
    pub fn is_ready(&self) -> (r: bool)
        ensures
            duration_nanos(self.spec_duration()) == 0 ==> r,
    {
        self.is_ready_at(instant_elapsed(&self.start))
    }

    /// Starts the countdown again from now.
    pub fn reset(&mut self)
        ensures
            final(self).spec_duration() == old(self).spec_duration(),
            final(self).spec_repeating() == old(self).spec_repeating(),
    {
        proof {
            use_type_invariant(&*self);
        }
        self.start = instant_now();
    }
}

} // verus!
