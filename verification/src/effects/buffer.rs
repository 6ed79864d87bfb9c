//! A fixed-capacity delay line: a ring of samples that is read by looking
//! back a number of ticks from the newest one.

use vstd::prelude::*;

verus! {

/// The ring index that lies `back` ticks behind `pos` in a ring of `len` cells.
pub open spec fn ring_index(pos: int, back: int, len: int) -> int {
    if pos - back >= 0 {
        pos - back
    } else {
        pos - back + len
    }
}

/// The history `h` after `x` was pushed: `x` is now the newest entry, every
/// earlier entry lies one tick further back, and the oldest one is gone.
pub open spec fn pushed<T>(h: Seq<T>, x: T) -> Seq<T> {
    Seq::new(
        h.len(),
        |k: int|
            if k == 0 {
                x
            } else {
                h[k - 1]
            },
    )
}

/// The two entries of `h` that a read between `back` and `back + 1` ticks
/// blends: the one at `back` and its neighbour, which wraps to the newest
/// entry behind the oldest one.
pub open spec fn taps<T>(h: Seq<T>, back: int) -> (T, T) {
    (h[back], h[(back + 1) % (h.len() as int)])
}

/// The delay line. Its view is its history: entry `k` is the value pushed `k`
/// ticks ago, entry 0 the newest.
pub struct Buffer<T: Copy> {
    size: usize,
    pos: usize,
    data: Vec<T>,
}

impl<T: Copy> Buffer<T> {
    /// The history, newest entry first.
    pub closed spec fn view(&self) -> Seq<T> {
        Seq::new(
            self.data@.len(),
            |k: int| self.data@[ring_index(self.pos as int, k, self.data@.len() as int)],
        )
    }

    /// The cursor lies inside the storage, which has the recorded size.
    pub closed spec fn wf(&self) -> bool {
        &&& self.size == self.data@.len()
        &&& (self.size == 0 ==> self.pos == 0)
        &&& (self.size > 0 ==> self.pos < self.size)
    }

    /// A line without storage. It has to be sized by `init` before use.
    pub fn new() -> (b: Self)
        ensures
            b.wf(),
            b@.len() == 0,
    {
        Buffer { size: 0, pos: 0, data: Vec::new() }
    }

    /// Gives the line room for a look-back of up to `span` ticks and fills
    /// its whole history with `fill`.
    pub fn init(&mut self, span: usize, fill: T)
        requires
            span < usize::MAX,
        ensures
            final(self).wf(),
            final(self)@.len() == span + 1,
            forall|k: int| 0 <= k <= span ==> final(self)@[k] == fill,
    {
        let size: usize = span + 1;
        let mut data: Vec<T> = Vec::new();
        let mut i: usize = 0;
        while i < size
            invariant
                i <= size,
                data@.len() == i,
                forall|k: int| 0 <= k < i ==> data@[k] == fill,
            decreases size - i,
        {
            data.push(fill);
            i = i + 1;
        }
        self.size = size;
        self.pos = 0;
        self.data = data;
    }

    /// The number of entries the line holds.
    pub fn len(&self) -> (n: usize)
        requires
            self.wf(),
        ensures
            n == self@.len(),
    {
        self.size
    }

    /// Makes `value` the newest entry, in constant time. The oldest entry
    /// is overwritten.
    pub fn push(&mut self, value: T)
        requires
            old(self).wf(),
            old(self)@.len() > 0,
        ensures
            final(self).wf(),
            final(self)@ == pushed(old(self)@, value),
    {
        let p: usize = if self.pos + 1 < self.size {
            self.pos + 1
        } else {
            0
        };
        self.pos = p;
        self.data[p] = value;
        proof {
            let n = self.size as int;
            let h = old(self)@;
            assert forall|k: int| 0 <= k < n implies self@[k] == pushed(h, value)[k] by {
                if k > 0 {
                    assert(ring_index(p as int, k, n) == ring_index(
                        old(self).pos as int,
                        k - 1,
                        n,
                    ));
                }
            }
        }
    }

    /// The entry `back` ticks behind the newest one.
    pub fn get(&self, back: usize) -> (r: T)
        requires
            self.wf(),
            back < self@.len(),
        ensures
            r == self@[back as int],
    {
        let i: usize = if back <= self.pos {
            self.pos - back
        } else {
            self.pos + (self.size - back)
        };
        self.data[i]
    }

    /// The two entries that a read between `back` and `back + 1` ticks
    /// blends, the nearer one first.
    pub fn interp(&self, back: usize) -> (r: (T, T))
        requires
            self.wf(),
            back < self@.len(),
        ensures
            r == taps(self@, back as int),
    {
        let next: usize = if back + 1 < self.size {
            back + 1
        } else {
            0
        };
        proof {
            let n = self.size as int;
            if back + 1 < n {
                vstd::arithmetic::div_mod::lemma_small_mod((back + 1) as nat, n as nat);
            } else {
                vstd::arithmetic::div_mod::lemma_mod_self_0(n);
            }
        }
        (self.get(back), self.get(next))
    }
}

/// Right after a push, a read without delay returns the pushed value,
/// whatever the capacity.
pub proof fn lemma_push_then_get_newest<T>(h: Seq<T>, x: T)
    requires
        h.len() > 0,
    ensures
        pushed(h, x)[0] == x,
{
}

/// A push moves every entry one tick further back and changes nothing else.
pub proof fn lemma_push_delays<T>(h: Seq<T>, x: T, k: int)
    requires
        0 < k < h.len(),
    ensures
        pushed(h, x).len() == h.len(),
        pushed(h, x)[k] == h[k - 1],
{
}

/// At a whole number of ticks the nearer of the two blended entries is the
/// entry that an exact read returns.
pub proof fn lemma_interp_on_sample<T>(h: Seq<T>, back: int)
    requires
        0 <= back < h.len(),
    ensures
        taps(h, back).0 == h[back],
{
}

/// Right after a push, a blended read without delay has the pushed value as
/// its nearer entry.
pub proof fn lemma_push_then_interp_newest<T>(h: Seq<T>, x: T)
    requires
        h.len() > 0,
    ensures
        taps(pushed(h, x), 0).0 == x,
{
}

} // verus!
