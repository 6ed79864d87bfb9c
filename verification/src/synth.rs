//! Plain data exchanged between a host and a synthesizer, and the order in
//! which queued note events fall due.

use vstd::prelude::*;

verus! {

/// What a synthesizer tells its host about itself.
pub struct Info {
    pub name: String,
    pub author: String,
    pub id: u32,
    pub params: usize,
}

/// A raw three-byte message stamped with the frame of the block at which it
/// is due.
#[derive(Clone, Copy, Debug)]
pub struct Event {
    pub sample: u32,
    pub data: [u8; 3],
}

/// What a raw message asks of the engine.
#[derive(Clone, Copy, PartialEq, Eq, Structural, Debug)]
pub enum Message {
    NoteOn { note: u8, velocity: u8 },
    NoteOff { note: u8 },
    Other,
}

/// Status byte of a note-on message.
pub const NOTE_ON: u8 = 0x90;

/// Status byte of a note-off message.
pub const NOTE_OFF: u8 = 0x80;

/// The meaning of the three bytes of a message: the first byte tells the
/// kind, the second the note, the third the velocity of a note-on.
pub open spec fn decode(data: Seq<u8>) -> Message {
    if data[0] == NOTE_ON {
        Message::NoteOn { note: data[1], velocity: data[2] }
    } else if data[0] == NOTE_OFF {
        Message::NoteOff { note: data[1] }
    } else {
        Message::Other
    }
}

impl Event {
    /// What this event asks of the engine.
    pub fn message(&self) -> (m: Message)
        ensures
            m == decode(self.data@),
    {
        let status: u8 = self.data[0];
        if status == NOTE_ON {
            Message::NoteOn { note: self.data[1], velocity: self.data[2] }
        } else if status == NOTE_OFF {
            Message::NoteOff { note: self.data[1] }
        } else {
            Message::Other
        }
    }
}

/// The events of one block, handed out in their order as the frames of the
/// block go by.
pub struct Schedule {
    events: Vec<Event>,
    next: usize,
}

impl Schedule {
    /// The events that were not handed out yet, in order.
    pub closed spec fn view(&self) -> Seq<Event> {
        self.events@.subrange(self.next as int, self.events@.len() as int)
    }

    /// The cursor lies inside the queue.
    pub closed spec fn wf(&self) -> bool {
        self.next <= self.events@.len()
    }

    /// A schedule of `events`, none handed out.
    pub fn new(events: Vec<Event>) -> (s: Self)
        ensures
            s.wf(),
            s@ == events@,
    {
        let s = Schedule { events, next: 0 };
        assert(s@ =~= events@);
        s
    }

    /// The number of events still waiting.
    pub fn pending(&self) -> (n: usize)
        requires
            self.wf(),
        ensures
            n == self@.len(),
    {
        self.events.len() - self.next
    }

    /// Hands out the first waiting event if it is due at `frame` or was due
    /// before, and nothing otherwise. At most one event leaves per frame:
    /// of two events due at the same frame the second waits for the next one.
    pub fn poll(&mut self, frame: usize) -> (r: Option<Event>)
        requires
            old(self).wf(),
        ensures
            final(self).wf(),
            match r {
                Some(e) => old(self)@.len() > 0 && e == old(self)@[0] && e.sample <= frame
                    && final(self)@ == old(self)@.drop_first(),
                None => final(self)@ == old(self)@ && (old(self)@.len() > 0 ==> old(self)@[0].sample
                    > frame),
            },
    {
        if self.next < self.events.len() {
            let e: Event = self.events[self.next];
            if e.sample as usize <= frame {
                self.next = self.next + 1;
                assert(self@ =~= old(self)@.drop_first());
                return Some(e);
            }
        }
        None
    }
}

/// Events leave a schedule in the order in which they were queued: after
/// one event was handed out, the next to leave is the one that followed it.
pub proof fn lemma_poll_keeps_order(q: Seq<Event>)
    requires
        q.len() >= 2,
    ensures
        q.drop_first()[0] == q[1],
        q.drop_first().len() == q.len() - 1,
{
}

} // verus!
