use bardic_chord::pcm::{LoopbackStats, S16Activity, S16Decoder, ACTIVE_AUDIO_BITS};
use bardic_chord::sink::{
    plan_read, read_frames, EmittedSink, Frame, AUDIO_BUFFER_FRAMES, AUDIO_PREFILL_FRAMES,
};

fn frame(left: f32, right: f32) -> Frame {
    Frame {
        left: left.to_bits(),
        right: right.to_bits(),
    }
}

fn bytes_of(frames: &[(f32, f32)]) -> Vec<u8> {
    let mut bytes = Vec::new();
    for (left, right) in frames {
        bytes.extend_from_slice(&left.to_le_bytes());
        bytes.extend_from_slice(&right.to_le_bytes());
    }
    bytes
}

#[test]
fn frames_come_out_as_little_endian_bytes() {
    let mut sink = EmittedSink::new();
    assert!(sink.push_frames(&[frame(0.5, -0.25), frame(1.0, 0.0)]));
    assert_eq!(sink.len(), 2);
    let mut buffer = [0xaa_u8; 19];
    assert_eq!(sink.fill(&mut buffer), 16);
    assert_eq!(buffer[..16], bytes_of(&[(0.5, -0.25), (1.0, 0.0)])[..]);
    assert_eq!(buffer[16..], [0xaa, 0xaa, 0xaa]);
    assert!(sink.is_empty());
}

#[test]
fn an_empty_sink_gives_silence() {
    let mut sink = EmittedSink::new();
    sink.push_frames(&[frame(0.5, 0.5)]);
    let mut buffer = [1_u8; 16];
    assert_eq!(sink.fill(&mut buffer), 16);
    assert_eq!(buffer[..8], bytes_of(&[(0.5, 0.5)])[..]);
    assert_eq!(buffer[8..], [0; 8]);
}

#[test]
fn the_oldest_frames_make_room() {
    let mut sink = EmittedSink::new();
    let many = (0..AUDIO_BUFFER_FRAMES as u32)
        .map(|i| Frame { left: i, right: i })
        .collect::<Vec<_>>();
    sink.push_frames(&many);
    sink.push_frames(&[Frame { left: 7, right: 8 }]);
    assert_eq!(sink.len(), AUDIO_BUFFER_FRAMES);
    let mut buffer = [0_u8; 8];
    sink.fill(&mut buffer);
    assert_eq!(read_frames(&buffer, 1), vec![Frame { left: 1, right: 1 }]);
}

#[test]
fn a_long_push_keeps_its_end() {
    let mut sink = EmittedSink::new();
    sink.push_frames(&[Frame { left: 9, right: 9 }]);
    let many = (0..AUDIO_BUFFER_FRAMES as u32 + 5)
        .map(|i| Frame { left: i, right: 0 })
        .collect::<Vec<_>>();
    sink.push_frames(&many);
    assert_eq!(sink.len(), AUDIO_BUFFER_FRAMES);
    let mut buffer = [0_u8; 8];
    sink.fill(&mut buffer);
    assert_eq!(read_frames(&buffer, 1), vec![Frame { left: 5, right: 0 }]);
}

#[test]
fn reads_are_sized_up() {
    assert_eq!(
        plan_read(7).err(),
        Some("EmittedSink read buffer is too small to hold one stereo sample.")
    );
    let plan = plan_read(23).unwrap();
    assert_eq!((plan.frames_requested, plan.prefill_target), (2, 2));
    let plan = plan_read(80_000).unwrap();
    assert_eq!((plan.frames_requested, plan.prefill_target), (10_000, AUDIO_PREFILL_FRAMES));
}

#[test]
fn written_frames_are_read_back() {
    let frames = vec![frame(0.1, -0.2), frame(f32::MIN_POSITIVE, f32::INFINITY)];
    let mut sink = EmittedSink::new();
    sink.push_frames(&frames);
    let mut buffer = [0_u8; 16];
    sink.fill(&mut buffer);
    assert_eq!(read_frames(&buffer, 2), frames);
}

#[test]
fn sixteen_bit_samples_may_be_cut_anywhere() {
    let bytes = [0x00, 0x80, 0xff, 0x7f, 0x01, 0x00, 0xff, 0xff, 0x05];
    let mut whole = S16Decoder::new();
    let expected = whole.decode(&bytes);
    assert_eq!(expected.len(), 2);
    assert_eq!((expected[0].left, expected[0].right), (i16::MIN, i16::MAX));
    assert_eq!((expected[1].left, expected[1].right), (1, -1));
    for cut in 0..bytes.len() {
        let mut decoder = S16Decoder::new();
        let mut samples = decoder.decode(&bytes[..cut]);
        samples.extend(decoder.decode(&bytes[cut..]));
        assert_eq!(samples, expected);
    }
}

#[test]
fn sixteen_bit_activity_agrees_with_floating_point() {
    for value in [0_i16, 1, 16, 17, -16, -17, i16::MAX, i16::MIN] {
        let mut decoder = S16Decoder::new();
        let low_high = value.to_le_bytes();
        let samples = decoder.decode(&[low_high[0], low_high[1], 0, 0]);
        let mut activity = S16Activity::new();
        activity.observe(&samples);
        let amplitude = (value as f32 / i16::MAX as f32).abs();
        assert_eq!(activity.samples_seen, 1);
        assert_eq!(activity.non_silent_samples == 1, amplitude > 0.0005, "{value}");
        assert_eq!(activity.peak as f32 / i16::MAX as f32, amplitude);
    }
}

#[test]
fn activity_is_reported_by_windows() {
    let mut activity = S16Activity::new();
    assert_eq!(activity.report(5_000), None);
    let samples = S16Decoder::new().decode(&[1, 0, 0, 0]);
    activity.observe(&samples);
    assert_eq!(activity.report(1_999), None);
    let report = activity.report(2_000).unwrap();
    assert_eq!((report.samples_seen, report.non_silent_samples, report.peak), (1, 0, 1));
    assert_eq!(activity, S16Activity::new());
}

#[test]
fn loopback_counts_agree_with_floating_point() {
    assert_eq!(f32::from_bits(ACTIVE_AUDIO_BITS), 0.0005);
    let values = [
        (0.0, -0.0),
        (0.0005, 0.0),
        (0.00051, -0.9),
        (f32::NAN, 0.25),
        (0.5, f32::NAN),
        (f32::NAN, f32::NAN),
        (-1.0, 1.0e-9),
    ];
    let mut stats = LoopbackStats::new();
    let frames = stats.absorb(&bytes_of(&values), values.len() as u32, false);
    let (mut loud, mut zero, mut peak) = (0, 0, 0.0_f32);
    for (left, right) in values {
        let amplitude = left.abs().max(right.abs());
        if amplitude > 0.0005 {
            loud += 1;
        }
        if amplitude == 0.0 {
            zero += 1;
        }
        peak = peak.max(amplitude);
    }
    assert_eq!(frames.len(), values.len());
    assert_eq!(frames[1], frame(0.0005, 0.0));
    assert_eq!(stats.samples_seen, 7);
    assert_eq!(stats.non_silent_samples, loud);
    assert_eq!(stats.zero_value_samples, zero);
    assert_eq!(f32::from_bits(stats.peak), peak);
    assert_eq!((stats.packets_read, stats.frames_read_total), (1, 7));
    assert_eq!((stats.silent_flag_packets, stats.silent_flag_frames), (0, 0));
}

#[test]
fn packets_flagged_silent_are_not_looked_into() {
    let mut stats = LoopbackStats::new();
    let frames = stats.absorb(&bytes_of(&[(1.0, 1.0), (1.0, 1.0)]), 2, true);
    assert_eq!(frames, vec![frame(0.0, 0.0), frame(0.0, 0.0)]);
    assert_eq!((stats.silent_flag_packets, stats.silent_flag_frames), (1, 2));
    assert_eq!((stats.samples_seen, stats.non_silent_samples, stats.peak), (2, 0, 0));
    assert!(stats.fits(1_000));
    stats.samples_seen = u64::MAX;
    assert!(!stats.fits(1));
}

#[test]
fn the_peak_tells_whether_a_sample_counted_as_sound() {
    let mut stats = LoopbackStats::new();
    for (values, silent, loud) in [
        ([(0.0005, 0.0), (0.0, -0.0005)], false, false),
        ([(1.0, 1.0), (1.0, 1.0)], true, false),
        ([(f32::NAN, f32::NAN), (0.0, -0.0)], false, false),
        ([(0.0, -0.00051), (0.0, 0.0)], false, true),
        ([(0.0, 0.0), (0.0, 0.0)], true, true),
    ] {
        stats.absorb(&bytes_of(&values), 2, silent);
        assert_eq!(stats.non_silent_samples > 0, loud);
        assert_eq!(f32::from_bits(stats.peak) > 0.0005, loud);
        assert!(stats.silent_flag_packets <= stats.packets_read);
    }
    assert_eq!((stats.silent_flag_packets, stats.packets_read), (2, 5));
}
