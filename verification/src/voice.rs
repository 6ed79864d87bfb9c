//! A fixed pool of voices with note binding and age-based stealing.
//!
//! The pool never grows. A note that arrives is given the slot that already
//! carries it, else a silent slot, else the slot that has sounded longest, which
//! is retriggered abruptly.

use vstd::prelude::*;

verus! {

/// Number of slots in a pool.
pub const NUM_VOICES: usize = 8;

/// What the pool has to know of a voice: whether it still sounds.
pub trait Voice: Sized {
    /// The voice still produces sound.
    spec fn active(&self) -> bool;

    fn is_active(&self) -> (b: bool)
        ensures
            b == self.active(),
    ;

    /// A voice at rest, as every slot holds at startup.
    fn idle() -> (v: Self)
        ensures
            !v.active(),
    ;
}

/// One slot of the pool: a voice, the note it is bound to, and the number of
/// notes that arrived since it was last triggered.
pub struct Container<T: Voice> {
    pub voice: T,
    pub note: Option<u8>,
    pub age: u16,
}

/// Slot `i` of `s` is bound to `note`, sounding or not.
pub open spec fn bound<T: Voice>(s: Seq<Container<T>>, note: u8, i: int) -> bool {
    0 <= i < s.len() && s[i].note == Some(note)
}

/// Slot `i` of `s` is silent.
pub open spec fn silent<T: Voice>(s: Seq<Container<T>>, i: int) -> bool {
    0 <= i < s.len() && !s[i].voice.active()
}

/// No two slots are bound to the same note.
pub open spec fn distinct_notes<T: Voice>(s: Seq<Container<T>>) -> bool {
    forall|i: int, j: int|
        0 <= i < j < s.len() && s[i].note is Some ==> s[i].note != s[j].note
}

/// An age one step on; it stops at the top of its range.
pub open spec fn aged(age: u16) -> u16 {
    if age < u16::MAX {
        (age + 1) as u16
    } else {
        age
    }
}

/// `k` is the slot that a pool in state `s` gives to `note`:
/// the last slot bound to `note` if there is one;
/// else the last silent slot if there is one;
/// else the first among the slots of greatest age.
pub open spec fn selects<T: Voice>(s: Seq<Container<T>>, note: u8, k: int) -> bool {
    &&& 0 <= k < s.len()
    &&& if exists|i: int| bound(s, note, i) {
        bound(s, note, k) && forall|j: int| k < j < s.len() ==> !bound(s, note, j)
    } else if exists|i: int| silent(s, i) {
        silent(s, k) && forall|j: int| k < j < s.len() ==> !silent(s, j)
    } else {
        &&& forall|j: int| 0 <= j < s.len() ==> s[j].age <= s[k].age
        &&& forall|j: int| 0 <= j < k ==> s[j].age < s[k].age
    }
}

/// The slot that a pool in state `s` gives to `note`.
pub open spec fn pick<T: Voice>(s: Seq<Container<T>>, note: u8) -> int {
    choose|k: int| selects(s, note, k)
}

/// The pool `s` after `note` was given slot `k`, whose voice becomes `v`:
/// slot `k` is bound to `note` with age zero, every other slot keeps its voice
/// and its note and is one step older.
pub open spec fn rebound<T: Voice>(s: Seq<Container<T>>, note: u8, k: int, v: T) -> Seq<
    Container<T>,
> {
    Seq::new(
        s.len(),
        |i: int|
            if i == k {
                Container { voice: v, note: Some(note), age: 0 }
            } else {
                Container { voice: s[i].voice, note: s[i].note, age: aged(s[i].age) }
            },
    )
}

/// At most one slot meets `selects`.
pub proof fn lemma_selects_unique<T: Voice>(s: Seq<Container<T>>, note: u8, a: int, b: int)
    requires
        selects(s, note, a),
        selects(s, note, b),
    ensures
        a == b,
{
    if exists|i: int| bound(s, note, i) {
        if a < b {
            assert(!bound(s, note, b));
        } else if b < a {
            assert(!bound(s, note, a));
        }
    } else if exists|i: int| silent(s, i) {
        if a < b {
            assert(!silent(s, b));
        } else if b < a {
            assert(!silent(s, a));
        }
    } else {
        if a < b {
            assert(s[a].age < s[b].age);
            assert(s[b].age <= s[a].age);
        } else if b < a {
            assert(s[b].age < s[a].age);
            assert(s[a].age <= s[b].age);
        }
    }
}

/// The pool of voices.
pub struct Manager<T: Voice> {
    voices: Vec<Container<T>>,
}

impl<T: Voice> Manager<T> {
    /// The slots, in order.
    pub closed spec fn view(&self) -> Seq<Container<T>> {
        self.voices@
    }

    /// The pool has its eight slots and no note is bound twice.
    pub open spec fn wf(&self) -> bool {
        &&& self@.len() == NUM_VOICES
        &&& distinct_notes(self@)
    }

    /// A pool of eight silent, unbound slots.
    pub fn new() -> (m: Self)
        ensures
            m.wf(),
            forall|i: int|
                0 <= i < NUM_VOICES ==> !(#[trigger] m@[i]).voice.active() && m@[i].note is None
                    && m@[i].age == 0,
    {
        let mut voices: Vec<Container<T>> = Vec::new();
        let mut i: usize = 0;
        while i < NUM_VOICES
            invariant
                i <= NUM_VOICES,
                voices@.len() == i,
                forall|j: int|
                    0 <= j < i ==> !(#[trigger] voices@[j]).voice.active() && voices@[j].note is None
                        && voices@[j].age == 0,
            decreases NUM_VOICES - i,
        {
            voices.push(Container { voice: T::idle(), note: None, age: 0 });
            i = i + 1;
        }
        Manager { voices }
    }

    /// Gives `note` a slot and hands out that slot's voice for the caller to
    /// trigger. Every slot ages by one step, whichever is chosen; the chosen
    /// one starts again at age zero.
    pub fn note_on(&mut self, note: u8) -> (v: &mut T)
        requires
            old(self).wf(),
        ensures
            selects(old(self)@, note, pick(old(self)@, note)),
            *v == old(self)@[pick(old(self)@, note)].voice,
            final(self)@ == rebound(old(self)@, note, pick(old(self)@, note), *final(v)),
            final(self).wf(),
    {
        let ghost s = self@;
        let mut exact: Option<usize> = None;
        let mut quiet: Option<usize> = None;
        let mut oldest: usize = 0;
        let mut i: usize = 0;
        while i < NUM_VOICES
            invariant
                i <= NUM_VOICES,
                self@ == s,
                s.len() == NUM_VOICES,
                match exact {
                    Some(e) => e < i && bound(s, note, e as int) && forall|j: int|
                        e < j < i ==> !bound(s, note, j),
                    None => forall|j: int| 0 <= j < i ==> !bound(s, note, j),
                },
                match quiet {
                    Some(q) => q < i && silent(s, q as int) && forall|j: int|
                        q < j < i ==> !silent(s, j),
                    None => forall|j: int| 0 <= j < i ==> !silent(s, j),
                },
                oldest == 0 || oldest < i,
                forall|j: int| 0 <= j < i ==> s[j].age <= s[oldest as int].age,
                forall|j: int| 0 <= j < oldest ==> s[j].age < s[oldest as int].age,
            decreases NUM_VOICES - i,
        {
            let same = match self.voices[i].note {
                Some(n) => n == note,
                None => false,
            };
            if same {
                exact = Some(i);
            }
            if !self.voices[i].voice.is_active() {
                quiet = Some(i);
            }
            if self.voices[i].age > self.voices[oldest].age {
                oldest = i;
            }
            i = i + 1;
        }
        let k: usize = match exact {
            Some(e) => e,
            None => match quiet {
                Some(q) => q,
                None => oldest,
            },
        };
        proof {
            assert(selects(s, note, k as int));
            lemma_selects_unique(s, note, k as int, pick(s, note));
        }
        let mut i: usize = 0;
        while i < NUM_VOICES
            invariant
                i <= NUM_VOICES,
                s.len() == NUM_VOICES,
                self@.len() == NUM_VOICES,
                forall|j: int|
                    0 <= j < i ==> (#[trigger] self@[j]).voice == s[j].voice && self@[j].note
                        == s[j].note && self@[j].age == aged(s[j].age),
                forall|j: int| i <= j < NUM_VOICES ==> #[trigger] self@[j] == s[j],
            decreases NUM_VOICES - i,
        {
            let age = self.voices[i].age;
            if age < u16::MAX {
                self.voices[i].age = age + 1;
            }
            i = i + 1;
        }
        self.voices[k].note = Some(note);
        self.voices[k].age = 0;
        proof {
            assert forall|a: int, b: int|
                0 <= a < b < NUM_VOICES && self@[a].note is Some implies self@[a].note
                != self@[b].note by {
                assert(self@[a].note == if a == k { Some(note) } else { s[a].note });
                assert(self@[b].note == if b == k { Some(note) } else { s[b].note });
                if a != k && b != k {
                    assert(s[a].note != s[b].note);
                } else if a == k {
                    if bound(s, note, k as int) {
                        assert(s[a].note != s[b].note);
                    } else {
                        assert(!bound(s, note, b));
                    }
                } else {
                    if bound(s, note, k as int) {
                        assert(s[a].note != s[b].note);
                    } else {
                        assert(!bound(s, note, a));
                    }
                }
            }
        }
        &mut self.voices[k].voice
    }

    /// Finds the slot of the sounding voice bound to `note`, for the caller to
    /// release. The pool itself does not change: the voice fades by its own
    /// envelope.
    pub fn note_off(&self, note: u8) -> (r: Option<usize>)
        requires
            self.wf(),
        ensures
            match r {
                Some(k) => k as int == sounding(self@, note) && bound(self@, note, k as int)
                    && self@[k as int].voice.active(),
                None => forall|i: int| bound(self@, note, i) ==> !self@[i].voice.active(),
            },
    {
        let mut i: usize = 0;
        while i < NUM_VOICES
            invariant
                i <= NUM_VOICES,
                self.wf(),
                forall|j: int| 0 <= j < i && bound(self@, note, j) ==> !self@[j].voice.active(),
            decreases NUM_VOICES - i,
        {
            let same = match self.voices[i].note {
                Some(n) => n == note,
                None => false,
            };
            if same && self.voices[i].voice.is_active() {
                proof {
                    lemma_sounding(self@, note, i as int);
                }
                return Some(i);
            }
            i = i + 1;
        }
        None
    }

    /// The first sounding slot at or after `from`, if there is one. Stepping
    /// with it visits the sounding voices in slot order and no silent one.
    pub fn next_active(&self, from: usize) -> (r: Option<usize>)
        requires
            self.wf(),
        ensures
            match r {
                Some(k) => from <= k < NUM_VOICES && self@[k as int].voice.active() && forall|
                    j: int,
                | from <= j < k ==> !self@[j].voice.active(),
                None => forall|j: int| from <= j < NUM_VOICES ==> !self@[j].voice.active(),
            },
    {
        let mut i: usize = from;
        while i < NUM_VOICES
            invariant
                from <= i,
                self@.len() == NUM_VOICES,
                forall|j: int| from <= j < i && j < NUM_VOICES ==> !self@[j].voice.active(),
            decreases NUM_VOICES - i,
        {
            if self.voices[i].voice.is_active() {
                return Some(i);
            }
            i = i + 1;
        }
        None
    }

    /// The voice in `slot`.
    pub fn voice(&self, slot: usize) -> (v: &T)
        requires
            self.wf(),
            slot < NUM_VOICES,
        ensures
            *v == self@[slot as int].voice,
    {
        &self.voices[slot].voice
    }

    /// The voice in `slot`, to be changed in place. Note and age stay.
    pub fn voice_mut(&mut self, slot: usize) -> (v: &mut T)
        requires
            old(self).wf(),
            slot < NUM_VOICES,
        ensures
            *v == old(self)@[slot as int].voice,
            final(self)@ == old(self)@.update(
                slot as int,
                (Container {
                    voice: *final(v),
                    note: old(self)@[slot as int].note,
                    age: old(self)@[slot as int].age,
                }),
            ),
            final(self).wf(),
    {
        &mut self.voices[slot].voice
    }

    /// The note that `slot` is bound to, if it was ever given one.
    pub fn note_of(&self, slot: usize) -> (n: Option<u8>)
        requires
            self.wf(),
            slot < NUM_VOICES,
        ensures
            n == self@[slot as int].note,
    {
        self.voices[slot].note
    }

    /// The number of notes that arrived since `slot` was last triggered.
    pub fn age_of(&self, slot: usize) -> (a: u16)
        requires
            self.wf(),
            slot < NUM_VOICES,
        ensures
            a == self@[slot as int].age,
    {
        self.voices[slot].age
    }

    /// The slot bound to `note`, sounding or not.
    pub fn slot_of(&self, note: u8) -> (r: Option<usize>)
        requires
            self.wf(),
        ensures
            match r {
                Some(k) => bound(self@, note, k as int) && forall|j: int|
                    bound(self@, note, j) ==> j == k,
                None => forall|i: int| !bound(self@, note, i),
            },
    {
        let mut i: usize = 0;
        while i < NUM_VOICES
            invariant
                i <= NUM_VOICES,
                self.wf(),
                forall|j: int| 0 <= j < i ==> !bound(self@, note, j),
            decreases NUM_VOICES - i,
        {
            let same = match self.voices[i].note {
                Some(n) => n == note,
                None => false,
            };
            if same {
                assert forall|j: int| bound(self@, note, j) implies j == i by {
                    if j > i {
                        assert(self@[i as int].note != self@[j].note);
                    }
                }
                return Some(i);
            }
            i = i + 1;
        }
        None
    }
}

/// The slot of `s` that is bound to `note` and sounds.
pub open spec fn sounding<T: Voice>(s: Seq<Container<T>>, note: u8) -> int {
    choose|k: int| bound(s, note, k) && s[k].voice.active()
}

/// In a pool without double bindings, a sounding slot bound to `note` is the
/// only such slot.
pub proof fn lemma_sounding<T: Voice>(s: Seq<Container<T>>, note: u8, k: int)
    requires
        distinct_notes(s),
        bound(s, note, k),
        s[k].voice.active(),
    ensures
        sounding(s, note) == k,
{
    let c = sounding(s, note);
    if c < k {
        assert(s[c].note != s[k].note);
    } else if k < c {
        assert(s[k].note != s[c].note);
    }
}

/// The last slot below `n` that is bound to `note`, where one exists.
proof fn lemma_last_bound<T: Voice>(s: Seq<Container<T>>, note: u8, n: int) -> (k: int)
    requires
        0 <= n <= s.len(),
        exists|i: int| 0 <= i < n && bound(s, note, i),
    ensures
        0 <= k < n,
        bound(s, note, k),
        forall|j: int| k < j < n ==> !bound(s, note, j),
    decreases n,
{
    if bound(s, note, n - 1) {
        n - 1
    } else {
        let w = choose|i: int| 0 <= i < n && bound(s, note, i);
        assert(0 <= w < n - 1 && bound(s, note, w));
        lemma_last_bound(s, note, n - 1)
    }
}

/// The last silent slot below `n`, where one exists.
proof fn lemma_last_silent<T: Voice>(s: Seq<Container<T>>, n: int) -> (k: int)
    requires
        0 <= n <= s.len(),
        exists|i: int| 0 <= i < n && silent(s, i),
    ensures
        0 <= k < n,
        silent(s, k),
        forall|j: int| k < j < n ==> !silent(s, j),
    decreases n,
{
    if silent(s, n - 1) {
        n - 1
    } else {
        let w = choose|i: int| 0 <= i < n && silent(s, i);
        assert(0 <= w < n - 1 && silent(s, w));
        lemma_last_silent(s, n - 1)
    }
}

/// The first among the slots below `n` of greatest age.
proof fn lemma_first_oldest<T: Voice>(s: Seq<Container<T>>, n: int) -> (k: int)
    requires
        0 < n <= s.len(),
    ensures
        0 <= k < n,
        forall|j: int| 0 <= j < n ==> s[j].age <= s[k].age,
        forall|j: int| 0 <= j < k ==> s[j].age < s[k].age,
    decreases n,
{
    if n == 1 {
        0
    } else {
        let k = lemma_first_oldest(s, n - 1);
        if s[n - 1].age > s[k].age {
            n - 1
        } else {
            k
        }
    }
}

/// Every pool with at least one slot has a slot for every note: `pick` meets
/// `selects`.
pub proof fn lemma_pick_selects<T: Voice>(s: Seq<Container<T>>, note: u8)
    requires
        s.len() > 0,
    ensures
        selects(s, note, pick(s, note)),
{
    let n = s.len() as int;
    if exists|i: int| bound(s, note, i) {
        let w = choose|i: int| bound(s, note, i);
        assert(0 <= w < n && bound(s, note, w));
        let k = lemma_last_bound(s, note, n);
        assert(selects(s, note, k));
    } else if exists|i: int| silent(s, i) {
        let w = choose|i: int| silent(s, i);
        assert(0 <= w < n && silent(s, w));
        let k = lemma_last_silent(s, n);
        assert(selects(s, note, k));
    } else {
        let k = lemma_first_oldest(s, n);
        assert(selects(s, note, k));
    }
}

/// A note that arrives twice with nothing in between gets the same slot both
/// times, whatever the caller did to the voice: no second slot is taken.
pub proof fn lemma_note_on_twice_same_slot<T: Voice>(s: Seq<Container<T>>, note: u8, v: T)
    requires
        s.len() > 0,
    ensures
        pick(rebound(s, note, pick(s, note), v), note) == pick(s, note),
{
    lemma_pick_selects(s, note);
    let k = pick(s, note);
    let t = rebound(s, note, k, v);
    assert(bound(t, note, k));
    assert forall|j: int| k < j < t.len() implies !bound(t, note, j) by {
        assert(t[j].note == s[j].note);
        if bound(s, note, j) {
            assert(exists|i: int| bound(s, note, i));
        }
    }
    assert(selects(t, note, k));
    lemma_pick_selects(t, note);
    lemma_selects_unique(t, note, k, pick(t, note));
}

/// When every slot sounds and none is bound to the arriving note, exactly one
/// earlier note is dropped: that of the slot of greatest age. Every other slot
/// keeps its note and its voice.
pub proof fn lemma_full_pool_steals_oldest<T: Voice>(s: Seq<Container<T>>, note: u8, v: T)
    requires
        s.len() > 0,
        distinct_notes(s),
        forall|i: int| 0 <= i < s.len() ==> s[i].voice.active(),
        forall|i: int| !bound(s, note, i),
    ensures
        0 <= pick(s, note) < s.len(),
        forall|j: int| 0 <= j < s.len() ==> (#[trigger] s[j]).age <= s[pick(s, note)].age,
        forall|j: int|
            0 <= j < s.len() && j != pick(s, note) ==> (#[trigger] rebound(
                s,
                note,
                pick(s, note),
                v,
            )[j]).note == s[j].note && rebound(s, note, pick(s, note), v)[j].voice == s[j].voice,
        rebound(s, note, pick(s, note), v)[pick(s, note)].note == Some(note),
        forall|m: u8, i: int|
            s[pick(s, note)].note == Some(m) ==> !bound(rebound(s, note, pick(s, note), v), m, i),
{
    lemma_pick_selects(s, note);
    let k = pick(s, note);
    let t = rebound(s, note, k, v);
    assert(!(exists|i: int| bound(s, note, i)));
    assert(!(exists|i: int| silent(s, i))) by {
        if exists|i: int| silent(s, i) {
            let w = choose|i: int| silent(s, i);
            assert(s[w].voice.active());
        }
    }
    assert forall|m: u8, i: int| s[k].note == Some(m) implies !bound(t, m, i) by {
        if bound(t, m, i) {
            if i == k {
                assert(m == note);
                assert(bound(s, note, k));
            } else {
                assert(t[i].note == s[i].note);
                if i < k {
                    assert(s[i].note != s[k].note);
                } else {
                    assert(s[k].note != s[i].note);
                }
            }
        }
    }
}

} // verus!
