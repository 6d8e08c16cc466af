use vstd::prelude::*;

use wayland_client::protocol::wl_shm;

verus! {

/// Geometry and pixel format of one shared-memory buffer.
#[derive(Clone)]
pub struct BufferConfig {
    pub width: u32,
    pub height: u32,
    pub stride: u32,
    pub format: u32,
}

/// Wire value of `wl_shm::Format::Xrgb8888`.
///
/// The protocol description (`wayland.xml`, enum `wl_shm.format`) gives the
/// entry `xrgb8888` the value 1; the generated enum is `repr(u32)` with that
/// discriminant.
#[verifier::external_body]
fn xrgb8888_format() -> (r: u32)
    ensures
        r == 1,
{
    wl_shm::Format::Xrgb8888 as u32
}

impl BufferConfig {
    /// A tightly packed 32-bit XRGB buffer: four bytes per pixel.
    pub fn new(width: u32, height: u32) -> (r: Self)
        requires
            width * 4 <= u32::MAX,
        ensures
            r.width == width,
            r.height == height,
            r.stride == width * 4,
            r.format == 1,
    {
        BufferConfig { width, height, stride: width * 4, format: xrgb8888_format() }
    }

    /// The same configuration with another row stride in bytes.
    pub fn with_stride(self, stride: u32) -> (r: Self)
        ensures
            r == (BufferConfig { stride, ..self }),
    {
        let mut s = self;
        s.stride = stride;
        s
    }

    /// The same configuration with another `wl_shm` pixel format.
    pub fn with_format(self, format: u32) -> (r: Self)
        ensures
            r == (BufferConfig { format, ..self }),
    {
        let mut s = self;
        s.format = format;
        s
    }

    /// Number of bytes the buffer occupies: stride times height.
    pub fn size(&self) -> (r: usize)
        requires
            self.stride * self.height <= u32::MAX,
        ensures
            r == self.stride * self.height,
    {
        (self.stride * self.height) as usize
    }
}

/// The buffer a pool hands out again: the first one, in pool order, that is
/// not in use; `None` when every buffer is in use and a new one is needed.
pub fn first_free_buffer(in_use: &Vec<bool>) -> (r: Option<usize>)
    ensures
        match r {
            Some(i) => {
                &&& i < in_use@.len()
                &&& !in_use@[i as int]
                &&& forall|j: int| 0 <= j < i ==> #[trigger] in_use@[j]
            },
            None => forall|j: int| 0 <= j < in_use@.len() ==> #[trigger] in_use@[j],
        },
{
    let mut i: usize = 0;
    while i < in_use.len()
        invariant
            i <= in_use@.len(),
            forall|j: int| 0 <= j < i ==> #[trigger] in_use@[j],
        decreases in_use.len() - i,
    {
        if !in_use[i] {
            return Some(i);
        }
        i = i + 1;
    }
    None
}

/// The buffer a pool releases for `id`: the first one, in pool order, with
/// that id; `None` when no buffer has it.
pub fn buffer_position(ids: &Vec<u32>, id: u32) -> (r: Option<usize>)
    ensures
        match r {
            Some(i) => {
                &&& i < ids@.len()
                &&& ids@[i as int] == id
                &&& forall|j: int| 0 <= j < i ==> #[trigger] ids@[j] != id
            },
            None => forall|j: int| 0 <= j < ids@.len() ==> #[trigger] ids@[j] != id,
        },
{
    let mut i: usize = 0;
    while i < ids.len()
        invariant
            i <= ids@.len(),
            forall|j: int| 0 <= j < i ==> #[trigger] ids@[j] != id,
        decreases ids.len() - i,
    {
        if ids[i] == id {
            return Some(i);
        }
        i = i + 1;
    }
    None
}

/// What a pool does to hand out a buffer: reuse the idle buffer at a
/// position, or allocate a new one.
#[derive(Debug, Clone, Copy, PartialEq, Eq, Structural)]
pub enum PoolChoice {
    Reuse(usize),
    Allocate,
}

/// `new` is the pool `old` after a buffer was handed out as `choice`: the
/// first idle buffer, in pool order, is reused and marked in use; when every
/// buffer is in use, nothing changes and a new one is to be allocated.
pub open spec fn acquired(old: Seq<(u32, bool)>, new: Seq<(u32, bool)>, choice: PoolChoice) -> bool {
    match choice {
        PoolChoice::Reuse(i) => {
            &&& i < old.len()
            &&& !old[i as int].1
            &&& forall|j: int| 0 <= j < i ==> #[trigger] old[j].1
            &&& new == old.update(i as int, (old[i as int].0, true))
        },
        PoolChoice::Allocate => {
            &&& forall|j: int| 0 <= j < old.len() ==> #[trigger] old[j].1
            &&& new == old
        },
    }
}

/// `new` is the pool `old` after buffer `id` was released: the first buffer,
/// in pool order, with that id is idle again; an unknown id changes nothing.
pub open spec fn released(old: Seq<(u32, bool)>, new: Seq<(u32, bool)>, id: u32) -> bool {
    ||| {
        &&& forall|j: int| 0 <= j < old.len() ==> #[trigger] old[j].0 != id
        &&& new == old
    }
    ||| exists|i: int|
        {
            &&& 0 <= i < old.len()
            &&& old[i].0 == id
            &&& forall|j: int| 0 <= j < i ==> #[trigger] old[j].0 != id
            &&& new == old.update(i, (id, false))
        }
}

/// The bookkeeping of a buffer pool: for each buffer, in pool order, its id
/// and whether it is in use.
pub struct PoolState {
    slots: Vec<(u32, bool)>,
}

impl View for PoolState {
    type V = Seq<(u32, bool)>;

    closed spec fn view(&self) -> Seq<(u32, bool)> {
        self.slots@
    }
}

impl PoolState {
    /// An empty pool.
    pub fn new() -> (r: Self)
        ensures
            r@ == Seq::<(u32, bool)>::empty(),
    {
        PoolState { slots: Vec::new() }
    }

    /// Number of buffers in the pool.
    pub fn len(&self) -> (r: usize)
        ensures
            r == self@.len(),
    {
        self.slots.len()
    }

    /// Hands out a buffer: the first idle one, which is now in use, or, when
    /// every buffer is in use, the answer that a new one must be allocated.
    pub fn acquire(&mut self) -> (r: PoolChoice)
        ensures
            acquired(old(self)@, final(self)@, r),
    {
        let mut i: usize = 0;
        while i < self.slots.len()
            invariant
                i <= self.slots@.len(),
                self.slots@ == old(self)@,
                forall|j: int| 0 <= j < i ==> #[trigger] self.slots@[j].1,
            decreases self.slots.len() - i,
        {
            let (id, in_use) = self.slots[i];
            if !in_use {
                self.slots.set(i, (id, true));
                return PoolChoice::Reuse(i);
            }
            i = i + 1;
        }
        PoolChoice::Allocate
    }

    /// Adds a newly allocated buffer `id` at the end of the pool, in use.
    pub fn add_in_use(&mut self, id: u32)
        ensures
            final(self)@ == old(self)@.push((id, true)),
    {
        self.slots.push((id, true));
    }

    /// Releases buffer `id`: the first buffer with that id is idle again. An
    /// unknown id changes nothing.
    pub fn release(&mut self, id: u32)
        ensures
            released(old(self)@, final(self)@, id),
    {
        let mut i: usize = 0;
        while i < self.slots.len()
            invariant
                i <= self.slots@.len(),
                self.slots@ == old(self)@,
                forall|j: int| 0 <= j < i ==> #[trigger] self.slots@[j].0 != id,
            decreases self.slots.len() - i,
        {
            let (found, _) = self.slots[i];
            if found == id {
                self.slots.set(i, (id, false));
                assert(old(self)@[i as int].0 == id);
                return;
            }
            i = i + 1;
        }
    }

    /// Drops every buffer from the pool.
    pub fn clear(&mut self)
        ensures
            final(self)@ == Seq::<(u32, bool)>::empty(),
    {
        self.slots.clear();
    }
}

/// A pool never hands out a buffer twice without a release: right after a
/// buffer was handed out, the next one handed out is another buffer or a new
/// one.
pub proof fn lemma_pool_no_double_handout(
    s0: Seq<(u32, bool)>,
    s1: Seq<(u32, bool)>,
    s2: Seq<(u32, bool)>,
    i: usize,
    c: PoolChoice,
)
    requires
        acquired(s0, s1, PoolChoice::Reuse(i)),
        acquired(s1, s2, c),
    ensures
        c != PoolChoice::Reuse(i),
{
    if c == PoolChoice::Reuse(i) {
        assert(s1[i as int].1);
    }
}

/// Idle buffers are reused: after a buffer of the pool was released, the
/// next buffer handed out is one of the pool's, not a new one.
pub proof fn lemma_released_buffer_is_reused(
    t0: Seq<(u32, bool)>,
    t1: Seq<(u32, bool)>,
    t2: Seq<(u32, bool)>,
    id: u32,
    k: int,
    c: PoolChoice,
)
    requires
        0 <= k < t0.len(),
        t0[k].0 == id,
        released(t0, t1, id),
        acquired(t1, t2, c),
    ensures
        c is Reuse,
{
    assert(t0[k].0 == id);
    let i = choose|i: int|
        {
            &&& 0 <= i < t0.len()
            &&& t0[i].0 == id
            &&& forall|j: int| 0 <= j < i ==> #[trigger] t0[j].0 != id
            &&& t1 == t0.update(i, (id, false))
        };
    if c is Allocate {
        assert(t1[i].1);
        assert(!t1[i].1);
    }
}

} // verus!
