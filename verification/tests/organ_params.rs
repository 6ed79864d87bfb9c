use arnaudio::organ::{
    decimal, get_info, param_default, param_name, param_target, Param, PipeParam, FIRST_PARAMS,
    PARAM_COUNT, PIPE_COUNT, PIPE_PARAMS, WHEEL_COUNT,
};

#[test]
fn table_has_sixty_slots() {
    assert_eq!(FIRST_PARAMS + WHEEL_COUNT + PIPE_COUNT * PIPE_PARAMS, 60);
    assert_eq!(PARAM_COUNT, 60);
}

#[test]
fn info_names_the_organ() {
    let info = get_info();
    assert_eq!(info.name, "Basic Plugin");
    assert_eq!(info.author, "Arnaud");
    assert_eq!(info.id, 42);
    assert_eq!(info.params, 60);
}

#[test]
fn fixed_names() {
    let expected = [
        "Warm",
        "Cold",
        "Attack",
        "Release",
        "Vibrato Depth",
        "Vibrato Freq",
        "Vibrato Mix",
        "Leslie Upper Freq",
        "Leslie Lower Freq",
        "Leslie Spread",
        "Leslie Tremolo Separation",
        "Leslie Vibrato Separation",
        "Waver Depth",
        "Waver Mix",
        "Room Size",
        "Room Diff 1",
        "Room Diff 2",
        "Room Feedback",
        "Room Delay",
        "Room Mix",
        "Click",
    ];
    for (i, name) in expected.iter().enumerate() {
        assert_eq!(param_name(i), *name);
    }
}

#[test]
fn wheel_names() {
    assert_eq!(param_name(21), "Wheel 1");
    assert_eq!(param_name(25), "Wheel 5");
    assert_eq!(param_name(29), "Wheel 9");
}

#[test]
fn pipe_names() {
    assert_eq!(param_name(30), "Pipe 1 Gain");
    assert_eq!(param_name(31), "Pipe 1 Harm");
    assert_eq!(param_name(32), "Pipe 1 Color");
    assert_eq!(param_name(33), "Pipe 1 _");
    assert_eq!(param_name(34), "Pipe 1 Attack");
    assert_eq!(param_name(35), "Pipe 1 Release");
    assert_eq!(param_name(36), "Pipe 2 Gain");
    assert_eq!(param_name(59), "Pipe 5 Release");
}

#[test]
fn names_match_a_formatter_over_the_whole_table() {
    let fields = ["Gain", "Harm", "Color", "_", "Attack", "Release"];
    for index in 21..60usize {
        let i = index - 21;
        let expected = if i < 9 {
            format!("Wheel {}", i + 1)
        } else {
            let i = i - 9;
            format!("Pipe {} {}", i / 6 + 1, fields[i % 6])
        };
        assert_eq!(param_name(index), expected);
    }
}

#[test]
fn names_go_on_beyond_the_table() {
    assert_eq!(param_name(60), "Pipe 6 Gain");
    assert_eq!(param_name(30 + 6 * 122 + 4), "Pipe 123 Attack");
}

#[test]
fn decimal_writes_numbers() {
    assert_eq!(decimal(0), "0");
    assert_eq!(decimal(7), "7");
    assert_eq!(decimal(10), "10");
    assert_eq!(decimal(409), "409");
    assert_eq!(decimal(65535), "65535");
    assert_eq!(decimal(usize::MAX), format!("{}", usize::MAX));
}

#[test]
fn fixed_targets() {
    assert_eq!(param_target(0), Param::Spare);
    assert_eq!(param_target(1), Param::Spare);
    assert_eq!(param_target(2), Param::Spare);
    assert_eq!(param_target(3), Param::Sustain);
    assert_eq!(param_target(4), Param::VibratoDepth);
    assert_eq!(param_target(5), Param::VibratoFreq);
    assert_eq!(param_target(6), Param::VibratoMix);
    assert_eq!(param_target(7), Param::LeslieUpperFreq);
    assert_eq!(param_target(8), Param::LeslieLowerFreq);
    assert_eq!(param_target(9), Param::LeslieSpread);
    assert_eq!(param_target(10), Param::Spare);
    assert_eq!(param_target(11), Param::Spare);
    assert_eq!(param_target(12), Param::WaverDepth);
    assert_eq!(param_target(13), Param::Spare);
    assert_eq!(param_target(14), Param::RoomSize);
    assert_eq!(param_target(15), Param::RoomDiffuse);
    assert_eq!(param_target(16), Param::Spare);
    assert_eq!(param_target(17), Param::Spare);
    assert_eq!(param_target(18), Param::RoomDelay);
    assert_eq!(param_target(19), Param::RoomMix);
    assert_eq!(param_target(20), Param::Click);
}

#[test]
fn wheel_targets() {
    for i in 0..9usize {
        assert_eq!(param_target(21 + i), Param::Wheel(i));
    }
}

#[test]
fn pipe_targets() {
    let fields = [
        PipeParam::Gain,
        PipeParam::Harm,
        PipeParam::Color,
        PipeParam::Spare,
        PipeParam::Attack,
        PipeParam::Release,
    ];
    for pipe in 0..5usize {
        for (k, field) in fields.iter().enumerate() {
            assert_eq!(param_target(30 + pipe * 6 + k), Param::Pipe(pipe, *field));
        }
    }
}

#[test]
fn defaults_in_tenths() {
    let set = [
        (0usize, 2u8),
        (12, 10),
        (14, 7),
        (15, 10),
        (18, 2),
        (19, 2),
        (20, 0),
        (21, 4),
        (22, 1),
        (30, 10),
        (32, 6),
        (38, 5),
        (45, 5),
        (50, 5),
        (56, 5),
    ];
    for index in 0..60usize {
        let expected = set.iter().find(|(i, _)| *i == index).map(|(_, v)| *v).unwrap_or(0);
        assert_eq!(param_default(index), expected);
    }
    assert_eq!(param_default(1000), 0);
}

#[test]
fn default_tenths_give_the_exact_fractions() {
    assert_eq!(param_default(0) as f32 / 10.0, 0.2f32);
    assert_eq!(param_default(14) as f32 / 10.0, 0.7f32);
    assert_eq!(param_default(32) as f32 / 10.0, 0.6f32);
    assert_eq!(param_default(21) as f32 / 10.0, 0.4f32);
    assert_eq!(param_default(22) as f32 / 10.0, 0.1f32);
    assert_eq!(param_default(12) as f32 / 10.0, 1.0f32);
}
