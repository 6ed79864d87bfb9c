use arnaudio::effects::waver::Noise;
use arnaudio::synth::{Event, Message, Schedule, NOTE_OFF, NOTE_ON};

fn ev(sample: u32, data: [u8; 3]) -> Event {
    Event { sample, data }
}

#[test]
fn noise_with_seed_holds_the_seed() {
    let mut a = Noise::with_seed(7);
    let mut b = Noise::with_seed(7);
    assert_eq!(a, b);
    assert_eq!(a.clock(), b.clock());
    assert_ne!(Noise::with_seed(7), Noise::with_seed(8));
}

#[test]
fn noise_sequence_from_zero() {
    let mut n = Noise::default();
    assert_eq!(n.clock(), 165);
    // 165 * 4005 + 165 = 660990 = 10 * 65536 + 5630
    assert_eq!(n.clock(), 5630);
    // 5630 * 4005 + 165 = 22548315 = 344 * 65536 + 3931
    assert_eq!(n.clock(), 3931);
}

#[test]
fn noise_step_matches_wrapping_arithmetic() {
    let mut n = Noise::with_seed(0xffff);
    let mut x: u16 = 0xffff;
    for _ in 0..1000 {
        x = x.wrapping_mul(4005).wrapping_add(165);
        assert_eq!(n.clock(), x);
    }
}

#[test]
fn noise_covers_the_whole_range_before_it_repeats() {
    let mut n = Noise::with_seed(0);
    let mut seen = vec![false; 65536];
    for _ in 0..65536 {
        let v = n.clock() as usize;
        assert!(!seen[v]);
        seen[v] = true;
    }
    assert_eq!(n.clock(), 165);
}

#[test]
fn message_decodes_note_on_and_off() {
    assert_eq!(
        ev(0, [NOTE_ON, 69, 100]).message(),
        Message::NoteOn { note: 69, velocity: 100 }
    );
    assert_eq!(ev(0, [NOTE_OFF, 69, 33]).message(), Message::NoteOff { note: 69 });
    assert_eq!(ev(0, [0xb0, 1, 2]).message(), Message::Other);
    assert_eq!(ev(0, [0x91, 69, 100]).message(), Message::Other);
}

#[test]
fn schedule_hands_out_in_order_when_due() {
    let mut s = Schedule::new(vec![
        ev(0, [NOTE_ON, 60, 100]),
        ev(3, [NOTE_ON, 64, 100]),
        ev(5, [NOTE_OFF, 60, 0]),
    ]);
    assert_eq!(s.pending(), 3);
    assert_eq!(s.poll(0).map(|e| e.data[1]), Some(60));
    assert!(s.poll(1).is_none());
    assert!(s.poll(2).is_none());
    assert_eq!(s.poll(3).map(|e| e.data), Some([NOTE_ON, 64, 100]));
    assert!(s.poll(4).is_none());
    assert_eq!(s.poll(5).map(|e| e.data[0]), Some(NOTE_OFF));
    assert_eq!(s.pending(), 0);
    assert!(s.poll(6).is_none());
}

#[test]
fn schedule_hands_out_one_event_per_frame() {
    let mut s = Schedule::new(vec![ev(2, [NOTE_ON, 60, 1]), ev(2, [NOTE_ON, 61, 1])]);
    assert!(s.poll(1).is_none());
    assert_eq!(s.poll(2).map(|e| e.data[1]), Some(60));
    assert_eq!(s.pending(), 1);
    // the second event of the same frame waits for the next frame
    assert_eq!(s.poll(3).map(|e| e.data[1]), Some(61));
}

#[test]
fn schedule_hands_out_late_events() {
    let mut s = Schedule::new(vec![ev(1, [NOTE_ON, 60, 1])]);
    assert_eq!(s.poll(10).map(|e| e.sample), Some(1));
}

#[test]
fn empty_schedule_gives_nothing() {
    let mut s = Schedule::new(Vec::new());
    assert_eq!(s.pending(), 0);
    assert!(s.poll(0).is_none());
}
