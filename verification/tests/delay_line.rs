use arnaudio::effects::buffer::Buffer;

fn span(seconds: f32, sample_rate: f32) -> usize {
    (seconds * sample_rate).ceil() as usize
}

#[test]
fn new_line_has_no_storage() {
    let line: Buffer<f32> = Buffer::new();
    assert_eq!(line.len(), 0);
}

#[test]
fn init_sizes_and_fills() {
    let mut line: Buffer<i32> = Buffer::new();
    line.init(4, 9);
    assert_eq!(line.len(), 5);
    for back in 0..5 {
        assert_eq!(line.get(back), 9);
    }
}

#[test]
fn push_then_get_newest_at_common_rates() {
    let rates = [22050.0f32, 32000.0, 44100.0, 48000.0, 88200.0, 96000.0, 176400.0, 192000.0];
    for rate in rates.iter() {
        let mut line: Buffer<f32> = Buffer::new();
        line.init(span(1.0 / 64.0, *rate), 0.0);
        for k in 0..1000 {
            let x = k as f32 * 0.25 - 3.0;
            line.push(x);
            assert_eq!(line.get(0), x);
        }
    }
}

#[test]
fn vibrato_line_has_expected_length() {
    let mut line: Buffer<f32> = Buffer::new();
    line.init(span(1.0 / 64.0, 44100.0), 0.0);
    // ceil(689.0625) + 1
    assert_eq!(line.len(), 691);
}

#[test]
fn entries_move_back_one_tick_per_push() {
    let mut line: Buffer<u32> = Buffer::new();
    line.init(3, 0);
    for x in 1..=10u32 {
        line.push(x);
    }
    assert_eq!(line.get(0), 10);
    assert_eq!(line.get(1), 9);
    assert_eq!(line.get(2), 8);
    assert_eq!(line.get(3), 7);
}

#[test]
fn oldest_entry_is_overwritten() {
    let mut line: Buffer<u32> = Buffer::new();
    line.init(1, 7);
    line.push(1);
    assert_eq!(line.get(1), 7);
    line.push(2);
    assert_eq!(line.get(1), 1);
    line.push(3);
    assert_eq!(line.get(0), 3);
    assert_eq!(line.get(1), 2);
}

#[test]
fn interp_first_tap_equals_get() {
    let mut line: Buffer<u32> = Buffer::new();
    line.init(7, 0);
    for x in 1..=20u32 {
        line.push(x * 3);
    }
    for back in 0..8 {
        assert_eq!(line.interp(back).0, line.get(back));
    }
}

#[test]
fn interp_second_tap_is_the_next_older() {
    let mut line: Buffer<u32> = Buffer::new();
    line.init(7, 0);
    for x in 1..=20u32 {
        line.push(x);
    }
    assert_eq!(line.interp(0), (20, 19));
    assert_eq!(line.interp(6), (14, 13));
}

#[test]
fn interp_wraps_behind_the_oldest() {
    let mut line: Buffer<u32> = Buffer::new();
    line.init(7, 0);
    for x in 1..=20u32 {
        line.push(x);
    }
    assert_eq!(line.interp(7), (13, 20));
}

#[test]
fn interp_at_zero_after_push_has_pushed_value() {
    let mut line: Buffer<f32> = Buffer::new();
    line.init(span(1.0 / 900.0, 48000.0), 0.0);
    line.push(0.5);
    line.push(-0.25);
    assert_eq!(line.interp(0), (-0.25, 0.5));
}

#[test]
fn init_again_resets_the_history() {
    let mut line: Buffer<u32> = Buffer::new();
    line.init(5, 0);
    for x in 1..=4u32 {
        line.push(x);
    }
    line.init(2, 8);
    assert_eq!(line.len(), 3);
    assert_eq!(line.get(0), 8);
    assert_eq!(line.get(2), 8);
    line.push(1);
    assert_eq!(line.get(0), 1);
    assert_eq!(line.get(1), 8);
}

#[test]
fn single_cell_line_holds_only_the_newest() {
    let mut line: Buffer<u32> = Buffer::new();
    line.init(0, 4);
    assert_eq!(line.len(), 1);
    line.push(5);
    assert_eq!(line.get(0), 5);
    assert_eq!(line.interp(0), (5, 5));
}
