//! Raw audio: decoding the capture streams and measuring how loud they are.
use crate::sink;
use crate::sink::{read_frames, Frame};
use vstd::prelude::*;

verus! {

// ---------------------------------------------------------------------------
// Signed 16-bit capture
// ---------------------------------------------------------------------------

/// One stereo sample of signed 16-bit audio.
#[derive(Clone, Copy, Debug, PartialEq, Eq, Structural)]
pub struct StereoSample {
    pub left: i16,
    pub right: i16,
}

/// The signed number in two bytes, the lower byte first.
pub open spec fn s16(low: u8, high: u8) -> int {
    if high < 128 {
        low + 256 * high
    } else {
        low + 256 * high - 65536
    }
}

/// The whole stereo samples at the front of `bytes`.
pub open spec fn s16_samples(bytes: Seq<u8>) -> Seq<StereoSample> {
    Seq::new(
        bytes.len() / 4,
        |i: int|
            StereoSample {
                left: s16(bytes[4 * i], bytes[4 * i + 1]) as i16,
                right: s16(bytes[4 * i + 2], bytes[4 * i + 3]) as i16,
            },
    )
}

/// What is left of `bytes` after its whole stereo samples.
pub open spec fn s16_rest(bytes: Seq<u8>) -> Seq<u8> {
    bytes.skip((bytes.len() / 4 * 4) as int)
}

fn sample(low: u8, high: u8) -> (r: i16)
    ensures
        r as int == s16(low, high),
{
    let value: i32 = low as i32 + 256 * (high as i32);
    if high < 128 {
        value as i16
    } else {
        (value - 65536) as i16
    }
}

/// Decodes a stream of signed 16-bit stereo audio that arrives in pieces of any
/// length.
pub struct S16Decoder {
    carry: Vec<u8>,
}

impl View for S16Decoder {
    type V = Seq<u8>;

    /// The bytes of a sample that has not arrived whole.
    closed spec fn view(&self) -> Seq<u8> {
        self.carry@
    }
}

impl S16Decoder {
    pub open spec fn well_formed(&self) -> bool {
        self@.len() < 4
    }

    pub fn new() -> (r: S16Decoder)
        ensures
            r.well_formed(),
            r@ == Seq::<u8>::empty(),
    {
        S16Decoder { carry: Vec::new() }
    }

    /// Takes the next piece of the stream and gives the samples that are whole
    /// with it.
    pub fn decode(&mut self, bytes: &[u8]) -> (samples: Vec<StereoSample>)
        requires
            old(self).well_formed(),
        ensures
            final(self).well_formed(),
            samples@ == s16_samples(old(self)@ + bytes@),
            final(self)@ == s16_rest(old(self)@ + bytes@),
    {
        let ghost all = self.carry@ + bytes@;
        let mut quad: Vec<u8> = Vec::new();
        core::mem::swap(&mut quad, &mut self.carry);
        let mut samples: Vec<StereoSample> = Vec::new();
        let mut i: usize = 0;
        let ghost kept = quad@.len();
        let ghost seen = all.take(kept as int);
        assert(seen =~= quad@);
        assert(s16_rest(seen) =~= quad@);
        assert(s16_samples(seen) =~= samples@);
        while i < bytes.len()
            invariant
                i <= bytes@.len(),
                all.len() == kept + bytes@.len(),
                forall|k: int| 0 <= k < bytes@.len() ==> #[trigger] all[kept + k] == bytes@[k],
                quad@.len() < 4,
                quad@ == s16_rest(all.take(kept + i)),
                samples@ == s16_samples(all.take(kept + i)),
            decreases bytes@.len() - i,
        {
            let ghost before = all.take(kept + i);
            let ghost after = all.take(kept + i + 1);
            let ghost whole = (before.len() / 4 * 4) as int;
            assert(all[kept + i] == bytes@[i as int]);
            assert(forall|k: int| 0 <= k < quad@.len() ==> quad@[k] == after[whole + k]);
            quad.push(bytes[i]);
            assert(quad@.len() == after.len() - whole);
            assert(forall|k: int| 0 <= k < quad@.len() ==> quad@[k] == after[whole + k]);
            if quad.len() == 4 {
                assert(after.len() == whole + 4);
                assert(after.len() / 4 == before.len() / 4 + 1);
                let ghost old_samples = samples@;
                samples.push(
                    StereoSample {
                        left: sample(quad[0], quad[1]),
                        right: sample(quad[2], quad[3]),
                    },
                );
                assert(samples@ =~= s16_samples(after)) by {
                    assert forall|j: int| 0 <= j < samples@.len() implies samples@[j]
                        == s16_samples(after)[j] by {
                        if j < old_samples.len() {
                            assert(samples@[j] == s16_samples(before)[j]);
                            assert(4 * j + 3 < before.len());
                        } else {
                            assert(4 * j == whole);
                        }
                    }
                }
                quad.clear();
                assert(quad@ =~= s16_rest(after));
            } else {
                assert(after.len() / 4 == before.len() / 4);
                assert(quad@ =~= s16_rest(after));
                assert(samples@ =~= s16_samples(after)) by {
                    assert forall|j: int| 0 <= j < samples@.len() implies samples@[j]
                        == s16_samples(after)[j] by {
                        assert(samples@[j] == s16_samples(before)[j]);
                        assert(4 * j + 3 < before.len());
                    }
                }
            }
            i += 1;
        }
        assert(all.take((kept + bytes@.len()) as int) =~= all);
        self.carry = quad;
        samples
    }
}

/// How a stream is cut into pieces makes no difference to its samples.
pub proof fn decoding_in_pieces(a: Seq<u8>, b: Seq<u8>)
    ensures
        s16_samples(a) + s16_samples(s16_rest(a) + b) == s16_samples(a + b),
        s16_rest(s16_rest(a) + b) == s16_rest(a + b),
{
    let rest = s16_rest(a);
    let cut = (a.len() / 4 * 4) as int;
    let joined = rest + b;
    let whole = a + b;
    assert(joined.len() == whole.len() - cut);
    assert(joined.len() / 4 == whole.len() / 4 - a.len() / 4);
    assert forall|k: int| 0 <= k < joined.len() implies joined[k] == whole[cut + k] by {
    }
    let left = s16_samples(a) + s16_samples(joined);
    assert forall|i: int| 0 <= i < left.len() implies left[i] == s16_samples(whole)[i] by {
        if i < s16_samples(a).len() {
            assert(4 * i + 3 < a.len());
        } else {
            let j = i - s16_samples(a).len();
            assert(cut + 4 * j == 4 * i);
            assert(joined[4 * j] == whole[4 * i]);
            assert(joined[4 * j + 1] == whole[4 * i + 1]);
            assert(joined[4 * j + 2] == whole[4 * i + 2]);
            assert(joined[4 * j + 3] == whole[4 * i + 3]);
        }
    }
    assert(left =~= s16_samples(whole));
    assert(s16_rest(joined) =~= s16_rest(whole));
}

/// The larger distance from zero of the two channels.
pub open spec fn s16_amplitude(s: StereoSample) -> int {
    let left = if s.left < 0 {
        -(s.left as int)
    } else {
        s.left as int
    };
    let right = if s.right < 0 {
        -(s.right as int)
    } else {
        s.right as int
    };
    if left < right {
        right
    } else {
        left
    }
}

/// The least amplitude that counts as sound: more than 0.0005 of full scale.
pub const S16_ACTIVE_AMPLITUDE: u32 = 17;

/// How many of the samples count as sound.
pub open spec fn s16_loud_count(samples: Seq<StereoSample>) -> nat
    decreases samples.len(),
{
    if samples.len() == 0 {
        0
    } else {
        s16_loud_count(samples.drop_last()) + if s16_amplitude(samples.last())
            >= S16_ACTIVE_AMPLITUDE {
            1nat
        } else {
            0
        }
    }
}

/// The largest of `start` and the amplitudes of the samples.
pub open spec fn s16_peak(start: int, samples: Seq<StereoSample>) -> int
    decreases samples.len(),
{
    if samples.len() == 0 {
        start
    } else {
        let before = s16_peak(start, samples.drop_last());
        let last = s16_amplitude(samples.last());
        if before < last {
            last
        } else {
            before
        }
    }
}

/// What was heard since the last report.
#[derive(Clone, Copy, Debug, PartialEq, Eq, Structural)]
pub struct S16Activity {
    pub samples_seen: u64,
    pub non_silent_samples: u64,
    pub peak: u32,
}

/// How long a capture is measured before it is reported, in milliseconds.
pub const ACTIVITY_WINDOW_MILLIS: u64 = 2_000;

fn distance(value: i16) -> (r: u32)
    ensures
        r as int == if value < 0 {
            -(value as int)
        } else {
            value as int
        },
{
    if value < 0 {
        (-(value as i32)) as u32
    } else {
        value as u32
    }
}

impl S16Activity {
    pub fn new() -> (r: S16Activity)
        ensures
            r == (S16Activity { samples_seen: 0, non_silent_samples: 0, peak: 0 }),
    {
        S16Activity { samples_seen: 0, non_silent_samples: 0, peak: 0 }
    }

    /// Counts decoded samples.
    pub fn observe(&mut self, samples: &Vec<StereoSample>)
        requires
            old(self).samples_seen + samples@.len() <= u64::MAX,
            old(self).non_silent_samples + samples@.len() <= u64::MAX,
        ensures
            final(self).samples_seen == old(self).samples_seen + samples@.len(),
            final(self).non_silent_samples == old(self).non_silent_samples + s16_loud_count(
                samples@,
            ),
            final(self).peak == s16_peak(old(self).peak as int, samples@),
    {
        let ghost start = *self;
        let mut i: usize = 0;
        assert(samples@.take(0) =~= Seq::<StereoSample>::empty());
        while i < samples.len()
            invariant
                i <= samples@.len(),
                start.samples_seen + samples@.len() <= u64::MAX,
                start.non_silent_samples + samples@.len() <= u64::MAX,
                self.samples_seen == start.samples_seen + i,
                self.non_silent_samples == start.non_silent_samples + s16_loud_count(
                    samples@.take(i as int),
                ),
                s16_loud_count(samples@.take(i as int)) <= i,
                self.peak == s16_peak(start.peak as int, samples@.take(i as int)),
            decreases samples@.len() - i,
        {
            let s = samples[i];
            assert(samples@.take(i + 1).drop_last() =~= samples@.take(i as int));
            let left = distance(s.left);
            let right = distance(s.right);
            let amplitude: u32 = if left < right {
                right
            } else {
                left
            };
            self.samples_seen = self.samples_seen + 1;
            if amplitude >= S16_ACTIVE_AMPLITUDE {
                self.non_silent_samples = self.non_silent_samples + 1;
            }
            if self.peak < amplitude {
                self.peak = amplitude;
            }
            i += 1;
        }
        assert(samples@.take(samples@.len() as int) =~= samples@);
    }

    /// Ends the window where it is long enough and anything was heard in it:
    /// gives what was counted and starts anew.
    pub fn report(&mut self, elapsed_millis: u64) -> (r: Option<S16Activity>)
        ensures
            if elapsed_millis >= ACTIVITY_WINDOW_MILLIS && old(self).samples_seen > 0 {
                r == Some(*old(self)) && *final(self) == (S16Activity {
                    samples_seen: 0,
                    non_silent_samples: 0,
                    peak: 0,
                })
            } else {
                r is None && *final(self) == *old(self)
            },
    {
        if elapsed_millis >= ACTIVITY_WINDOW_MILLIS && self.samples_seen > 0 {
            let counted = *self;
            *self = S16Activity::new();
            Some(counted)
        } else {
            None
        }
    }
}

// ---------------------------------------------------------------------------
// Single-precision capture
// ---------------------------------------------------------------------------

/// The bit pattern of the absolute value.
pub open spec fn magnitude(bits: u32) -> u32 {
    bits % 0x8000_0000
}

/// Whether the bit pattern stands for no number.
pub open spec fn is_nan(bits: u32) -> bool {
    magnitude(bits) > 0x7f80_0000
}

/// The bit pattern of 0.0005, above which a sample counts as sound.
pub const ACTIVE_AUDIO_BITS: u32 = 0x3a03_126f;

/// Whether the value of the bit pattern is at least 0.0005.
pub open spec fn reaches_threshold(bits: u32) -> bool {
    ACTIVE_AUDIO_BITS <= bits <= 0x7f80_0000
}

/// Whether the value of the bit pattern is above 0.0005.
pub open spec fn exceeds_threshold(bits: u32) -> bool {
    ACTIVE_AUDIO_BITS < bits <= 0x7f80_0000
}

/// The place of a bit pattern in the total order of single-precision values: the
/// negative patterns come first and run backwards.
pub open spec fn total_order(bits: u32) -> int {
    if bits < 0x8000_0000 {
        bits as int
    } else {
        0x7fff_ffff - bits
    }
}

/// The place of a bit pattern in the total order of single-precision values.
pub fn order_key(bits: u32) -> (r: i64)
    ensures
        r as int == total_order(bits),
{
    if bits < 0x8000_0000 {
        bits as i64
    } else {
        0x7fff_ffff - bits as i64
    }
}

/// The bit pattern of the larger absolute value of the two channels. A channel
/// that is no number does not count; none is given where neither does.
///
/// The bit patterns of numbers that are not negative are ordered as the numbers
/// are.
pub open spec fn amplitude(frame: Frame) -> Option<u32> {
    if is_nan(frame.left) && is_nan(frame.right) {
        None
    } else if is_nan(frame.left) {
        Some(magnitude(frame.right))
    } else if is_nan(frame.right) || magnitude(frame.right) < magnitude(frame.left) {
        Some(magnitude(frame.left))
    } else {
        Some(magnitude(frame.right))
    }
}

pub open spec fn is_loud(frame: Frame) -> bool {
    amplitude(frame) is Some && amplitude(frame)->0 > ACTIVE_AUDIO_BITS
}

pub open spec fn is_zero(frame: Frame) -> bool {
    amplitude(frame) == Some(0u32)
}

/// How many of the frames count as sound.
pub open spec fn loud_count(frames: Seq<Frame>) -> nat
    decreases frames.len(),
{
    if frames.len() == 0 {
        0
    } else {
        loud_count(frames.drop_last()) + if is_loud(frames.last()) {
            1nat
        } else {
            0
        }
    }
}

/// How many of the frames are zero on both channels.
pub open spec fn zero_count(frames: Seq<Frame>) -> nat
    decreases frames.len(),
{
    if frames.len() == 0 {
        0
    } else {
        zero_count(frames.drop_last()) + if is_zero(frames.last()) {
            1nat
        } else {
            0
        }
    }
}

/// The largest of `start` and the amplitudes of the frames.
pub open spec fn peak_of(start: u32, frames: Seq<Frame>) -> u32
    decreases frames.len(),
{
    if frames.len() == 0 {
        start
    } else {
        let before = peak_of(start, frames.drop_last());
        match amplitude(frames.last()) {
            Some(a) => if a > before {
                a
            } else {
                before
            },
            None => before,
        }
    }
}

fn amplitude_of(frame: Frame) -> (r: Option<u32>)
    ensures
        r == amplitude(frame),
{
    let left: u32 = frame.left % 0x8000_0000;
    let right: u32 = frame.right % 0x8000_0000;
    if left > 0x7f80_0000 {
        if right > 0x7f80_0000 {
            None
        } else {
            Some(right)
        }
    } else if right > 0x7f80_0000 || right < left {
        Some(left)
    } else {
        Some(right)
    }
}

/// What was read from a loopback stream.
#[derive(Clone, Copy, Debug, PartialEq, Eq, Structural)]
pub struct LoopbackStats {
    pub samples_seen: u64,
    pub non_silent_samples: u64,
    pub zero_value_samples: u64,
    pub packets_read: u64,
    pub frames_read_total: u64,
    pub silent_flag_packets: u64,
    pub silent_flag_frames: u64,
    pub wait_timeouts: u64,
    pub empty_packet_polls: u64,
    /// The bit pattern of the largest amplitude.
    pub peak: u32,
}

/// Nothing read yet.
pub open spec fn no_stats() -> LoopbackStats {
    LoopbackStats {
        samples_seen: 0,
        non_silent_samples: 0,
        zero_value_samples: 0,
        packets_read: 0,
        frames_read_total: 0,
        silent_flag_packets: 0,
        silent_flag_frames: 0,
        wait_timeouts: 0,
        empty_packet_polls: 0,
        peak: 0,
    }
}

/// What was read with one more packet of `count` frames, which the device flags
/// as silent or which holds `packet`.
pub open spec fn stats_with_packet(
    stats: LoopbackStats,
    packet: Seq<u8>,
    count: u32,
    silent: bool,
) -> LoopbackStats {
    let frames = sink::frames_in(packet, count as int);
    let read = LoopbackStats {
        packets_read: (stats.packets_read + 1) as u64,
        frames_read_total: (stats.frames_read_total + count) as u64,
        samples_seen: (stats.samples_seen + count) as u64,
        ..stats
    };
    if silent {
        LoopbackStats {
            silent_flag_packets: (stats.silent_flag_packets + 1) as u64,
            silent_flag_frames: (stats.silent_flag_frames + count) as u64,
            ..read
        }
    } else {
        LoopbackStats {
            non_silent_samples: (stats.non_silent_samples + loud_count(frames)) as u64,
            zero_value_samples: (stats.zero_value_samples + zero_count(frames)) as u64,
            peak: peak_of(stats.peak, frames),
            ..read
        }
    }
}

/// The frames that a packet hands on.
pub open spec fn packet_frames(packet: Seq<u8>, count: u32, silent: bool) -> Seq<Frame> {
    if silent {
        Seq::new(count as nat, |i: int| sink::silence())
    } else {
        sink::frames_in(packet, count as int)
    }
}

impl LoopbackStats {
    /// Whether the counters have room for another packet of `count` frames.
    pub open spec fn has_room(self, count: u32) -> bool {
        &&& self.samples_seen + count <= u64::MAX
        &&& self.non_silent_samples + count <= u64::MAX
        &&& self.zero_value_samples + count <= u64::MAX
        &&& self.packets_read < u64::MAX
        &&& self.frames_read_total + count <= u64::MAX
        &&& self.silent_flag_packets < u64::MAX
        &&& self.silent_flag_frames + count <= u64::MAX
    }

    pub fn new() -> (r: LoopbackStats)
        ensures
            r == no_stats(),
    {
        LoopbackStats {
            samples_seen: 0,
            non_silent_samples: 0,
            zero_value_samples: 0,
            packets_read: 0,
            frames_read_total: 0,
            silent_flag_packets: 0,
            silent_flag_frames: 0,
            wait_timeouts: 0,
            empty_packet_polls: 0,
            peak: 0,
        }
    }

    /// Whether the counters have room for another packet of `count` frames.
    pub fn fits(&self, count: u32) -> (r: bool)
        ensures
            r == self.has_room(count),
    {
        let most: u64 = u64::MAX - count as u64;
        self.samples_seen <= most && self.non_silent_samples <= most && self.zero_value_samples
            <= most && self.packets_read < u64::MAX && self.frames_read_total <= most
            && self.silent_flag_packets < u64::MAX && self.silent_flag_frames <= most
    }

    /// Counts a packet of `count` frames and gives its frames.
    pub fn absorb(&mut self, packet: &[u8], count: u32, silent: bool) -> (frames: Vec<Frame>)
        requires
            count * 8 <= packet@.len(),
            old(self).has_room(count),
        ensures
            frames@ == packet_frames(packet@, count, silent),
            *final(self) == stats_with_packet(*old(self), packet@, count, silent),
    {
        let size: usize = packet.len();
        assert(count <= size);
        let n: usize = count as usize;
        let ghost start = *self;
        self.packets_read = self.packets_read + 1;
        self.frames_read_total = self.frames_read_total + count as u64;
        self.samples_seen = self.samples_seen + count as u64;
        if silent {
            self.silent_flag_packets = self.silent_flag_packets + 1;
            self.silent_flag_frames = self.silent_flag_frames + count as u64;
            let mut frames: Vec<Frame> = Vec::new();
            let mut i: usize = 0;
            while i < n
                invariant
                    i <= n,
                    frames@.len() == i,
                    forall|k: int| 0 <= k < i ==> frames@[k] == sink::silence(),
                decreases n - i,
            {
                frames.push(Frame { left: 0, right: 0 });
                i += 1;
            }
            assert(frames@ =~= packet_frames(packet@, count, silent));
            return frames;
        }
        let frames = read_frames(packet, n);
        let ghost all = sink::frames_in(packet@, count as int);
        let ghost counted = *self;
        let mut i: usize = 0;
        assert(all.take(0) =~= Seq::<Frame>::empty());
        while i < n
            invariant
                i <= n == frames@.len() == count,
                frames@ == all,
                start.has_room(count),
                counted.non_silent_samples == start.non_silent_samples,
                counted.zero_value_samples == start.zero_value_samples,
                loud_count(all.take(i as int)) <= i,
                zero_count(all.take(i as int)) <= i,
                *self == (LoopbackStats {
                    non_silent_samples: (start.non_silent_samples + loud_count(
                        all.take(i as int),
                    )) as u64,
                    zero_value_samples: (start.zero_value_samples + zero_count(
                        all.take(i as int),
                    )) as u64,
                    peak: peak_of(start.peak, all.take(i as int)),
                    ..counted
                }),
            decreases n - i,
        {
            assert(all.take(i + 1).drop_last() =~= all.take(i as int));
            assert(all.take(i + 1).last() == all[i as int]);
            if let Some(a) = amplitude_of(frames[i]) {
                if a == 0 {
                    self.zero_value_samples = self.zero_value_samples + 1;
                }
                if a > ACTIVE_AUDIO_BITS {
                    self.non_silent_samples = self.non_silent_samples + 1;
                }
                if a > self.peak {
                    self.peak = a;
                }
            }
            i += 1;
        }
        assert(all.take(n as int) =~= all);
        frames
    }
}

/// The peak is never below what it was, and never below the amplitude of a frame
/// that was counted.
pub proof fn peak_is_an_upper_bound(start: u32, frames: Seq<Frame>)
    ensures
        peak_of(start, frames) >= start,
        forall|i: int|
            0 <= i < frames.len() && amplitude(#[trigger] frames[i]) is Some ==> peak_of(
                start,
                frames,
            ) >= amplitude(frames[i])->0,
    decreases frames.len(),
{
    if frames.len() > 0 {
        let before = frames.drop_last();
        peak_is_an_upper_bound(start, before);
        assert forall|i: int|
            0 <= i < frames.len() && amplitude(#[trigger] frames[i]) is Some implies peak_of(
            start,
            frames,
        ) >= amplitude(frames[i])->0 by {
            if i < before.len() {
                assert(before[i] == frames[i]);
            }
        }
    }
}

/// A stream has a sample that counts as sound exactly where its peak is above
/// the threshold.
pub proof fn sound_shows_in_the_peak(frames: Seq<Frame>)
    ensures
        loud_count(frames) > 0 <==> peak_of(0, frames) > ACTIVE_AUDIO_BITS,
    decreases frames.len(),
{
    if frames.len() > 0 {
        sound_shows_in_the_peak(frames.drop_last());
    }
}

/// What holds of everything that was read from a loopback stream: every frame was
/// counted once, no more packets were flagged as silent than were read, no sample
/// counts twice as flagged, as sound or as zero, and the peak is above the threshold
/// exactly where a sample above it was counted.
pub open spec fn counts_agree(stats: LoopbackStats) -> bool {
    &&& stats.frames_read_total == stats.samples_seen
    &&& stats.silent_flag_packets <= stats.packets_read
    &&& stats.silent_flag_frames + stats.non_silent_samples + stats.zero_value_samples
        <= stats.samples_seen
    &&& stats.peak <= 0x7f80_0000
    &&& stats.non_silent_samples > 0 <==> exceeds_threshold(stats.peak)
}

proof fn lemma_counts_of_frames(start: u32, frames: Seq<Frame>)
    requires
        start <= 0x7f80_0000,
    ensures
        loud_count(frames) + zero_count(frames) <= frames.len(),
        start <= peak_of(start, frames) <= 0x7f80_0000,
        peak_of(start, frames) > ACTIVE_AUDIO_BITS <==> start > ACTIVE_AUDIO_BITS || loud_count(
            frames,
        ) > 0,
    decreases frames.len(),
{
    if frames.len() > 0 {
        lemma_counts_of_frames(start, frames.drop_last());
    }
}

/// A packet keeps the counts in agreement.
pub proof fn packets_keep_counts(
    stats: LoopbackStats,
    packet: Seq<u8>,
    count: u32,
    silent: bool,
)
    requires
        stats.has_room(count),
        counts_agree(stats),
    ensures
        counts_agree(no_stats()),
        counts_agree(stats_with_packet(stats, packet, count, silent)),
{
    let frames = sink::frames_in(packet, count as int);
    lemma_counts_of_frames(stats.peak, frames);
}

/// The two bytes of a sample, the lower one first.
pub open spec fn s16_bytes(value: i16) -> Seq<u8> {
    let pattern = if value < 0 {
        value + 65536
    } else {
        value as int
    };
    seq![(pattern % 256) as u8, (pattern / 256) as u8]
}

/// The bytes of the samples, the left channel of each first.
pub open spec fn s16_stream(samples: Seq<StereoSample>) -> Seq<u8>
    decreases samples.len(),
{
    if samples.len() == 0 {
        seq![]
    } else {
        s16_stream(samples.drop_last()) + (s16_bytes(samples.last().left) + s16_bytes(
            samples.last().right,
        ))
    }
}

/// Samples that were written are read back, and nothing is left over.
pub proof fn written_samples_are_read(samples: Seq<StereoSample>)
    ensures
        s16_stream(samples).len() == 4 * samples.len(),
        s16_samples(s16_stream(samples)) == samples,
        s16_rest(s16_stream(samples)).len() == 0,
    decreases samples.len(),
{
    if samples.len() == 0 {
        assert(s16_samples(s16_stream(samples)) =~= samples);
    } else {
        let before = samples.drop_last();
        let last = samples.last();
        let bytes = s16_bytes(last.left) + s16_bytes(last.right);
        let start = s16_stream(before);
        written_samples_are_read(before);
        decoding_in_pieces(start, bytes);
        assert(s16_rest(start) + bytes =~= bytes);
        assert(s16_samples(bytes) =~= seq![last]);
        assert(before + seq![last] =~= samples);
    }
}

/// Whether one channel of a sample is above 0.0005 of full scale.
pub open spec fn s16_is_sound(value: i16) -> bool {
    2000 * (value as int) > 32768 || 2000 * (value as int) < -32768
}

/// A sample counts as sound where either channel does, and samples are counted one by
/// one.
pub proof fn s16_sound_is_counted(a: Seq<StereoSample>, b: Seq<StereoSample>, s: StereoSample)
    ensures
        s16_loud_count(a + b) == s16_loud_count(a) + s16_loud_count(b),
        s16_loud_count(seq![s]) == if s16_is_sound(s.left) || s16_is_sound(s.right) {
            1nat
        } else {
            0
        },
    decreases b.len(),
{
    reveal_with_fuel(s16_loud_count, 2);
    assert(seq![s].drop_last() =~= Seq::<StereoSample>::empty());
    if b.len() == 0 {
        assert(a + b =~= a);
    } else {
        s16_sound_is_counted(a, b.drop_last(), s);
        assert((a + b).drop_last() =~= a + b.drop_last());
    }
}

/// The distance of a sample from zero.
pub open spec fn s16_distance(value: i16) -> int {
    if value < 0 {
        -(value as int)
    } else {
        value as int
    }
}

/// The peak is the largest distance from zero on any channel, or what it was before
/// where that is larger.
pub proof fn s16_peak_is_the_largest(start: int, samples: Seq<StereoSample>)
    ensures
        s16_peak(start, samples) >= start,
        forall|i: int|
            0 <= i < samples.len() ==> s16_peak(start, samples) >= s16_distance(
                (#[trigger] samples[i]).left,
            ) && s16_peak(start, samples) >= s16_distance(samples[i].right),
        s16_peak(start, samples) == start || exists|i: int|
            0 <= i < samples.len() && (s16_peak(start, samples) == s16_distance(
                (#[trigger] samples[i]).left,
            ) || s16_peak(start, samples) == s16_distance(samples[i].right)),
    decreases samples.len(),
{
    if samples.len() > 0 {
        let before = samples.drop_last();
        s16_peak_is_the_largest(start, before);
        assert forall|i: int| 0 <= i < samples.len() implies s16_peak(start, samples)
            >= s16_distance((#[trigger] samples[i]).left) && s16_peak(start, samples)
            >= s16_distance(samples[i].right) by {
            if i < before.len() {
                assert(before[i] == samples[i]);
            }
        }
        let peak = s16_peak(start, samples);
        if peak == s16_peak(start, before) {
            if peak != start {
                let i = choose|i: int|
                    0 <= i < before.len() && (peak == s16_distance((#[trigger] before[i]).left)
                        || peak == s16_distance(before[i].right));
                assert(samples[i] == before[i]);
            }
        } else {
            assert(samples[samples.len() - 1] == samples.last());
        }
    }
}

/// Whether the value of a channel is a number above the threshold, whatever its sign.
pub open spec fn is_sound(bits: u32) -> bool {
    if bits < 0x8000_0000 {
        0x3a03_126f < bits <= 0x7f80_0000
    } else {
        0xba03_126f < bits <= 0xff80_0000
    }
}

/// A frame counts as sound where either channel does, and as zero where every channel
/// that is a number is zero.
pub proof fn either_channel_makes_sound(frame: Frame)
    ensures
        is_loud(frame) <==> is_sound(frame.left) || is_sound(frame.right),
        is_zero(frame) <==> (magnitude(frame.left) == 0 || is_nan(frame.left)) && (magnitude(
            frame.right,
        ) == 0 || is_nan(frame.right)) && !(is_nan(frame.left) && is_nan(frame.right)),
        amplitude(frame) is None <==> is_nan(frame.left) && is_nan(frame.right),
        !is_nan(frame.left) ==> amplitude(frame)->0 >= magnitude(frame.left),
        !is_nan(frame.right) ==> amplitude(frame)->0 >= magnitude(frame.right),
        amplitude(frame) is Some ==> (amplitude(frame)->0 == magnitude(frame.left) && !is_nan(
            frame.left,
        )) || (amplitude(frame)->0 == magnitude(frame.right) && !is_nan(frame.right)),
{
}

/// Frames are counted one by one.
pub proof fn frames_are_counted_one_by_one(a: Seq<Frame>, b: Seq<Frame>, frame: Frame)
    ensures
        loud_count(a + b) == loud_count(a) + loud_count(b),
        zero_count(a + b) == zero_count(a) + zero_count(b),
        loud_count(seq![frame]) == if is_sound(frame.left) || is_sound(frame.right) {
            1nat
        } else {
            0
        },
        zero_count(seq![frame]) == if is_zero(frame) {
            1nat
        } else {
            0
        },
    decreases b.len(),
{
    reveal_with_fuel(loud_count, 2);
    reveal_with_fuel(zero_count, 2);
    either_channel_makes_sound(frame);
    assert(seq![frame].drop_last() =~= Seq::<Frame>::empty());
    if b.len() == 0 {
        assert(a + b =~= a);
    } else {
        frames_are_counted_one_by_one(a, b.drop_last(), frame);
        assert((a + b).drop_last() =~= a + b.drop_last());
    }
}

/// The peak is what it was before, or the amplitude of a frame.
pub proof fn peak_is_reached(start: u32, frames: Seq<Frame>)
    ensures
        peak_of(start, frames) == start || exists|i: int|
            0 <= i < frames.len() && amplitude(#[trigger] frames[i]) == Some(
                peak_of(start, frames),
            ),
    decreases frames.len(),
{
    if frames.len() > 0 {
        let before = frames.drop_last();
        let peak = peak_of(start, frames);
        peak_is_reached(start, before);
        if peak == peak_of(start, before) {
            if peak != start {
                let i = choose|i: int|
                    0 <= i < before.len() && amplitude(#[trigger] before[i]) == Some(peak);
                assert(frames[i] == before[i]);
            }
        } else {
            assert(frames[frames.len() - 1] == frames.last());
        }
    }
}

/// A packet hands on its frames as they stand in it, and as many zeros where the
/// device flags it as silent.
pub proof fn packets_hand_on_their_frames(frames: Seq<Frame>, packet: Seq<u8>, count: u32)
    ensures
        frames.len() <= u32::MAX ==> packet_frames(
            sink::pcm_bytes(frames),
            frames.len() as u32,
            false,
        ) == frames,
        packet_frames(packet, count, true).len() == count,
        forall|i: int|
            0 <= i < count ==> (#[trigger] packet_frames(packet, count, true)[i]).left == 0
                && packet_frames(packet, count, true)[i].right == 0,
{
    sink::reading_inverts_writing(frames);
}

/// A packet is counted once with all its frames; one that is flagged as silent adds
/// nothing to the sound that was measured, and another one nothing to the flagged ones.
pub proof fn packet_is_counted_once(stats: LoopbackStats, frames: Seq<Frame>, silent: bool)
    requires
        frames.len() <= u32::MAX,
        stats.has_room(frames.len() as u32),
    ensures
        ({
            let after = stats_with_packet(
                stats,
                sink::pcm_bytes(frames),
                frames.len() as u32,
                silent,
            );
            &&& after.packets_read == stats.packets_read + 1
            &&& after.frames_read_total == stats.frames_read_total + frames.len()
            &&& after.samples_seen == stats.samples_seen + frames.len()
            &&& after.wait_timeouts == stats.wait_timeouts
            &&& after.empty_packet_polls == stats.empty_packet_polls
            &&& silent ==> {
                &&& after.silent_flag_packets == stats.silent_flag_packets + 1
                &&& after.silent_flag_frames == stats.silent_flag_frames + frames.len()
                &&& after.non_silent_samples == stats.non_silent_samples
                &&& after.zero_value_samples == stats.zero_value_samples
                &&& after.peak == stats.peak
            }
            &&& !silent ==> {
                &&& after.silent_flag_packets == stats.silent_flag_packets
                &&& after.silent_flag_frames == stats.silent_flag_frames
                &&& after.non_silent_samples == stats.non_silent_samples + loud_count(frames)
                &&& after.zero_value_samples == stats.zero_value_samples + zero_count(frames)
                &&& after.peak == peak_of(stats.peak, frames)
            }
        }),
{
    sink::reading_inverts_writing(frames);
    lemma_counts_are_bounded(frames);
}

proof fn lemma_counts_are_bounded(frames: Seq<Frame>)
    ensures
        loud_count(frames) <= frames.len(),
        zero_count(frames) <= frames.len(),
    decreases frames.len(),
{
    if frames.len() > 0 {
        lemma_counts_are_bounded(frames.drop_last());
    }
}

/// The order of bit patterns is that of the values: the larger pattern is the larger
/// value without a sign and the smaller value with one, and every value with a sign
/// comes before those without.
pub proof fn order_goes_by_value(a: u32, b: u32)
    ensures
        a < 0x8000_0000 && b < 0x8000_0000 ==> (total_order(a) < total_order(b) <==> a < b),
        a >= 0x8000_0000 && b >= 0x8000_0000 ==> (total_order(a) < total_order(b) <==> a > b),
        a >= 0x8000_0000 && b < 0x8000_0000 ==> total_order(a) < total_order(b),
        total_order(a) == total_order(b) <==> a == b,
{
}

} // verus!
