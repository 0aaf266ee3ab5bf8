//! The buffer between the capture of desktop audio and the Discord voice track.
//!
//! A frame is one stereo sample. Each channel is held as the bit pattern of its
//! IEEE 754 single-precision value.
use byteorder::{ByteOrder, LittleEndian};
use std::collections::VecDeque;
use vstd::prelude::*;

verus! {

pub const AUDIO_SAMPLE_RATE: u32 = 48_000;

pub const AUDIO_CHANNELS: usize = 2;

/// The most frames that wait in the sink: two seconds.
pub const AUDIO_BUFFER_FRAMES: usize = 96_000;

/// The most frames for which a reader waits.
pub const AUDIO_PREFILL_FRAMES: usize = 1_920;

/// How long a reader waits for the first frames, in milliseconds.
pub const AUDIO_PREFILL_WAIT_MILLIS: u64 = 40;

/// The bytes of one frame: four for each channel.
pub const FRAME_BYTES: usize = 8;

/// One stereo sample, as the bit patterns of its two channels.
#[derive(Clone, Copy, Debug, PartialEq, Eq, Structural)]
pub struct Frame {
    pub left: u32,
    pub right: u32,
}

/// The frame of two zeros.
pub open spec fn silence() -> Frame {
    Frame { left: 0, right: 0 }
}

/// The four bytes of `v`, the lowest first.
pub open spec fn le_bytes(v: u32) -> Seq<u8> {
    seq![
        (v % 256) as u8,
        (v / 256 % 256) as u8,
        (v / 65536 % 256) as u8,
        (v / 16777216 % 256) as u8,
    ]
}

/// The number in the four bytes from `at` on, the lowest byte first.
pub open spec fn le_value(bytes: Seq<u8>, at: int) -> int {
    bytes[at] + 256 * bytes[at + 1] + 65536 * bytes[at + 2] + 16777216 * bytes[at + 3]
}

/// The bytes of one frame: the left channel, then the right one.
pub open spec fn frame_bytes(frame: Frame) -> Seq<u8> {
    le_bytes(frame.left) + le_bytes(frame.right)
}

/// The bytes of the frames, one after another.
pub open spec fn pcm_bytes(frames: Seq<Frame>) -> Seq<u8>
    decreases frames.len(),
{
    if frames.len() == 0 {
        seq![]
    } else {
        pcm_bytes(frames.drop_last()) + frame_bytes(frames.last())
    }
}

/// The last `n` elements of `s`, or all of `s` where it has fewer.
pub open spec fn last_frames(s: Seq<Frame>, n: int) -> Seq<Frame> {
    if s.len() <= n {
        s
    } else {
        s.skip(s.len() - n)
    }
}

/// The `n` frames that a reader is given: those that wait, and silence after them.
pub open spec fn served_frames(waiting: Seq<Frame>, n: int) -> Seq<Frame> {
    Seq::new(
        n as nat,
        |i: int| if i < waiting.len() {
            waiting[i]
        } else {
            silence()
        },
    )
}

/// What still waits after `n` frames were asked for.
pub open spec fn left_frames(waiting: Seq<Frame>, n: int) -> Seq<Frame> {
    if waiting.len() <= n {
        seq![]
    } else {
        waiting.skip(n)
    }
}

/// `byteorder::ByteOrder::write_u32_into` of `LittleEndian`, which is what
/// `write_f32_into` calls on the bit patterns of its values.
///
/// It writes the four bytes of each number, the lowest first, over the given
/// part of the buffer, and panics where that part has another length.
#[verifier::external_body]
fn write_frame(buffer: &mut [u8], at: usize, frame: Frame)
    requires
        at + 8 <= old(buffer)@.len(),
    ensures
        final(buffer)@ == old(buffer)@.take(at as int) + frame_bytes(frame) + old(buffer)@.skip(
            at + 8,
        ),
{
    LittleEndian::write_u32_into(&[frame.left, frame.right], &mut buffer[at..at + 8]);
}

/// `byteorder::ByteOrder::read_u32` of `LittleEndian`, which is what `read_f32`
/// calls for the bit pattern of its value.
///
/// It reads the number in the first four bytes of what it is given, the lowest
/// byte first, and panics where there are fewer.
#[verifier::external_body]
pub(crate) fn read_u32_at(bytes: &[u8], at: usize) -> (r: u32)
    requires
        at + 4 <= bytes@.len(),
    ensures
        r as int == le_value(bytes@, at as int),
{
    LittleEndian::read_u32(&bytes[at..at + 4])
}

/// What a read of a given size asks of the sink.
#[derive(Clone, Copy, Debug, PartialEq, Eq, Structural)]
pub struct ReadPlan {
    /// The frames that fit into the buffer.
    pub frames_requested: usize,
    /// The frames for which an empty sink is given time to fill.
    pub prefill_target: usize,
}

/// Sizes up a read into a buffer of `buffer_len` bytes. A buffer that does not
/// hold one frame is refused.
pub fn plan_read(buffer_len: usize) -> (r: Result<ReadPlan, &'static str>)
    ensures
        match r {
            Ok(plan) => {
                &&& buffer_len >= FRAME_BYTES
                &&& plan.frames_requested == buffer_len / FRAME_BYTES
                &&& plan.prefill_target == if plan.frames_requested > AUDIO_PREFILL_FRAMES {
                    AUDIO_PREFILL_FRAMES
                } else {
                    plan.frames_requested
                }
            },
            Err(message) => buffer_len < FRAME_BYTES && message@
                == "EmittedSink read buffer is too small to hold one stereo sample."@,
        },
{
    if buffer_len < FRAME_BYTES {
        return Err("EmittedSink read buffer is too small to hold one stereo sample.");
    }
    let frames_requested: usize = buffer_len / FRAME_BYTES;
    let prefill_target: usize = if frames_requested > AUDIO_PREFILL_FRAMES {
        AUDIO_PREFILL_FRAMES
    } else {
        frames_requested
    };
    Ok(ReadPlan { frames_requested, prefill_target })
}

/// The frames that were captured and not yet read, the oldest first.
pub struct EmittedSink {
    frames: VecDeque<Frame>,
}

impl View for EmittedSink {
    type V = Seq<Frame>;

    closed spec fn view(&self) -> Seq<Frame> {
        self.frames@
    }
}

impl EmittedSink {
    /// The sink never holds more than its buffer.
    pub open spec fn well_formed(&self) -> bool {
        self@.len() <= AUDIO_BUFFER_FRAMES
    }

    pub fn new() -> (r: EmittedSink)
        ensures
            r.well_formed(),
            r@ == Seq::<Frame>::empty(),
    {
        EmittedSink { frames: VecDeque::with_capacity(AUDIO_BUFFER_FRAMES) }
    }

    /// The number of frames that wait.
    pub fn len(&self) -> (r: usize)
        ensures
            r == self@.len(),
    {
        self.frames.len()
    }

    pub fn is_empty(&self) -> (r: bool)
        ensures
            r == (self@.len() == 0),
    {
        self.frames.len() == 0
    }

    /// Takes captured frames in. Where the buffer is full, the oldest frames
    /// make room.
    pub fn push_frames(&mut self, frames: &[Frame]) -> (r: bool)
        requires
            old(self).well_formed(),
        ensures
            r,
            final(self).well_formed(),
            final(self)@ == last_frames(old(self)@ + frames@, AUDIO_BUFFER_FRAMES as int),
    {
        let n: usize = frames.len();
        let ghost all = self.frames@ + frames@;
        let mut start: usize = 0;
        if n >= AUDIO_BUFFER_FRAMES {
            self.frames.clear();
            start = n - AUDIO_BUFFER_FRAMES;
            assert(self.frames@ =~= Seq::<Frame>::empty());
            assert(all.skip(all.len() - AUDIO_BUFFER_FRAMES) =~= frames@.skip(start as int));
            assert(self.frames@ + frames@.skip(start as int) =~= frames@.skip(start as int));
        } else {
            let waiting: usize = self.frames.len();
            let mut overflow: usize = if waiting + n > AUDIO_BUFFER_FRAMES {
                waiting + n - AUDIO_BUFFER_FRAMES
            } else {
                0
            };
            let ghost dropped_in_all = overflow as int;
            let ghost before = self.frames@;
            assert(before.skip(0) =~= before);
            while overflow > 0
                invariant
                    0 <= overflow <= dropped_in_all <= before.len(),
                    self.frames@ == before.skip(dropped_in_all - overflow),
                decreases overflow,
            {
                assert(self.frames@.len() > 0);
                let _ = self.frames.pop_front();
                assert(self.frames@ =~= before.skip(dropped_in_all - overflow + 1));
                overflow -= 1;
            }
            assert(frames@.skip(0) =~= frames@);
            assert(self.frames@ + frames@ =~= last_frames(all, AUDIO_BUFFER_FRAMES as int));
        }
        let mut i: usize = start;
        let ghost base = self.frames@;
        assert(frames@.subrange(start as int, start as int) =~= Seq::<Frame>::empty());
        assert(base + Seq::<Frame>::empty() =~= base);
        while i < n
            invariant
                start <= i <= n == frames@.len(),
                self.frames@ == base + frames@.subrange(start as int, i as int),
            decreases n - i,
        {
            self.frames.push_back(frames[i]);
            i += 1;
            assert(frames@.subrange(start as int, i as int) =~= frames@.subrange(
                start as int,
                i - 1,
            ).push(frames@[i - 1]));
            assert(self.frames@ =~= base + frames@.subrange(start as int, i as int));
        }
        assert(frames@.subrange(start as int, n as int) =~= frames@.skip(start as int));
        true
    }

    /// Fills `buffer` with frames: those that wait, the oldest first, and silence
    /// where none is left. What is left of the buffer after the last whole frame
    /// stays as it was.
    pub fn fill(&mut self, buffer: &mut [u8]) -> (written: usize)
        requires
            old(self).well_formed(),
        ensures
            final(self).well_formed(),
            written == old(buffer)@.len() / 8 * 8,
            final(self)@ == left_frames(old(self)@, (old(buffer)@.len() / 8) as int),
            final(buffer)@ == pcm_bytes(
                served_frames(old(self)@, (old(buffer)@.len() / 8) as int),
            ) + old(buffer)@.skip(written as int),
    {
        let size: usize = buffer.len();
        let count: usize = size / FRAME_BYTES;
        let ghost before = self.frames@;
        let ghost blank = buffer@;
        let ghost served = served_frames(before, count as int);
        let mut done: usize = 0;
        assert(served.take(0) =~= Seq::<Frame>::empty());
        assert(left_frames(before, 0) =~= before);
        assert(pcm_bytes(served.take(0)) + blank.skip(0) =~= blank);
        while done < count
            invariant
                count == size / 8,
                size == blank.len() == buffer@.len(),
                done <= count,
                before.len() <= AUDIO_BUFFER_FRAMES,
                served == served_frames(before, count as int),
                self.frames@ == left_frames(before, done as int),
                pcm_bytes(served.take(done as int)).len() == done * 8,
                buffer@ == pcm_bytes(served.take(done as int)) + blank.skip(done * 8),
            decreases count - done,
        {
            let frame = match self.frames.pop_front() {
                Some(frame) => frame,
                None => Frame { left: 0, right: 0 },
            };
            assert(frame == served[done as int]);
            assert(self.frames@ =~= left_frames(before, done + 1));
            assert(done * 8 + 8 <= size);
            let ghost held = buffer@;
            write_frame(buffer, done * 8, frame);
            proof {
                let next = served.take(done + 1);
                assert(next.drop_last() =~= served.take(done as int));
                assert(next.last() == frame);
                assert(held.take(done * 8) =~= pcm_bytes(served.take(done as int)));
                assert(held.skip(done * 8 + 8) =~= blank.skip(done * 8 + 8));
            }
            done += 1;
        }
        assert(served.take(count as int) =~= served);
        count * FRAME_BYTES
    }
}

/// The frames that stand in `bytes` one after another.
pub open spec fn frames_in(bytes: Seq<u8>, count: int) -> Seq<Frame> {
    Seq::new(
        count as nat,
        |i: int|
            Frame {
                left: le_value(bytes, i * 8) as u32,
                right: le_value(bytes, i * 8 + 4) as u32,
            },
    )
}

/// Reads the `count` frames that stand at the front of `bytes`.
pub fn read_frames(bytes: &[u8], count: usize) -> (frames: Vec<Frame>)
    requires
        count * 8 <= bytes@.len(),
    ensures
        frames@ == frames_in(bytes@, count as int),
{
    let size: usize = bytes.len();
    let mut frames: Vec<Frame> = Vec::new();
    let mut i: usize = 0;
    while i < count
        invariant
            i <= count,
            count * 8 <= bytes@.len() == size,
            frames@ == frames_in(bytes@, i as int),
        decreases count - i,
    {
        frames.push(
            Frame { left: read_u32_at(bytes, i * 8), right: read_u32_at(bytes, i * 8 + 4) },
        );
        i += 1;
        assert(frames@ =~= frames_in(bytes@, i as int));
    }
    frames
}

// ---------------------------------------------------------------------------
// Laws
// ---------------------------------------------------------------------------

/// Frames that are taken in piece by piece leave the sink as if they had been
/// taken in at once.
pub proof fn pushing_in_pieces(waiting: Seq<Frame>, a: Seq<Frame>, b: Seq<Frame>)
    ensures
        last_frames(
            last_frames(waiting + a, AUDIO_BUFFER_FRAMES as int) + b,
            AUDIO_BUFFER_FRAMES as int,
        ) == last_frames(waiting + (a + b), AUDIO_BUFFER_FRAMES as int),
{
    assert(last_frames(
        last_frames(waiting + a, AUDIO_BUFFER_FRAMES as int) + b,
        AUDIO_BUFFER_FRAMES as int,
    ) =~= last_frames(waiting + (a + b), AUDIO_BUFFER_FRAMES as int));
}

/// Two reads give what one read of both sizes gives, and leave the same frames.
pub proof fn reading_in_pieces(waiting: Seq<Frame>, n: int, m: int)
    requires
        0 <= n,
        0 <= m,
    ensures
        served_frames(waiting, n) + served_frames(left_frames(waiting, n), m) == served_frames(
            waiting,
            n + m,
        ),
        left_frames(left_frames(waiting, n), m) == left_frames(waiting, n + m),
{
    assert(served_frames(waiting, n) + served_frames(left_frames(waiting, n), m) =~= served_frames(
        waiting,
        n + m,
    ));
    assert(left_frames(left_frames(waiting, n), m) =~= left_frames(waiting, n + m));
}

/// Frames that fit into the buffer come out in the order in which they went in.
pub proof fn frames_come_out_in_order(frames: Seq<Frame>)
    requires
        frames.len() <= AUDIO_BUFFER_FRAMES,
    ensures
        served_frames(
            last_frames(Seq::<Frame>::empty() + frames, AUDIO_BUFFER_FRAMES as int),
            frames.len() as int,
        ) == frames,
{
    assert(Seq::<Frame>::empty() + frames =~= frames);
    assert(served_frames(frames, frames.len() as int) =~= frames);
}

proof fn lemma_le_round_trip(v: u32)
    ensures
        le_value(le_bytes(v), 0) == v,
{
    assert(v % 256 + 256 * (v / 256 % 256) + 65536 * (v / 65536 % 256) + 16777216 * (v / 16777216
        % 256) == v) by {
        assert(v == v / 256 * 256 + v % 256);
        assert(v / 256 == v / 65536 * 256 + v / 256 % 256);
        assert(v / 65536 == v / 16777216 * 256 + v / 65536 % 256);
        assert(v / 16777216 < 256);
    }
}

proof fn lemma_pcm_len(frames: Seq<Frame>)
    ensures
        pcm_bytes(frames).len() == frames.len() * 8,
    decreases frames.len(),
{
    if frames.len() > 0 {
        lemma_pcm_len(frames.drop_last());
    }
}

/// Reading the bytes of frames gives the frames back.
pub proof fn reading_inverts_writing(frames: Seq<Frame>)
    ensures
        pcm_bytes(frames).len() == frames.len() * 8,
        frames_in(pcm_bytes(frames), frames.len() as int) == frames,
    decreases frames.len(),
{
    lemma_pcm_len(frames);
    if frames.len() > 0 {
        let before = frames.drop_last();
        let last = frames.last();
        let start = pcm_bytes(before);
        let whole = pcm_bytes(frames);
        reading_inverts_writing(before);
        lemma_pcm_len(before);
        lemma_le_round_trip(last.left);
        lemma_le_round_trip(last.right);
        assert forall|i: int| 0 <= i < frames.len() implies frames_in(
            whole,
            frames.len() as int,
        )[i] == frames[i] by {
            if i < before.len() {
                assert(frames_in(start, before.len() as int)[i] == before[i]);
                assert(forall|k: int| 0 <= k < start.len() ==> whole[k] == start[k]);
            } else {
                assert(i * 8 == start.len());
                assert(forall|k: int|
                    0 <= k < 8 ==> whole[start.len() + k] == frame_bytes(last)[k]);
            }
        }
    }
    assert(frames_in(pcm_bytes(frames), frames.len() as int) =~= frames);
}

/// The sink keeps the newest frames: what is dropped is the oldest, and only where two
/// seconds of sound are there already.
pub proof fn newest_frames_stay(waiting: Seq<Frame>, frames: Seq<Frame>)
    ensures
        ({
            let all = waiting + frames;
            let kept = last_frames(all, AUDIO_BUFFER_FRAMES as int);
            &&& all == all.take(all.len() - kept.len()) + kept
            &&& kept.len() <= 2 * AUDIO_SAMPLE_RATE
            &&& kept.len() < all.len() ==> kept.len() == 2 * AUDIO_SAMPLE_RATE
        }),
{
    let all = waiting + frames;
    let kept = last_frames(all, AUDIO_BUFFER_FRAMES as int);
    assert(all =~= all.take(all.len() - kept.len()) + kept);
}

/// A reader is given as many frames as were asked for: the oldest ones that wait, in
/// order, and zeros after them. What was not given still waits.
pub proof fn oldest_frames_are_served(waiting: Seq<Frame>, n: int)
    requires
        0 <= n,
    ensures
        served_frames(waiting, n).len() == n,
        n <= waiting.len() ==> served_frames(waiting, n) + left_frames(waiting, n) == waiting,
        n > waiting.len() ==> left_frames(waiting, n).len() == 0 && served_frames(waiting, n).take(
            waiting.len() as int,
        ) == waiting,
        forall|i: int|
            waiting.len() <= i < n ==> (#[trigger] served_frames(waiting, n)[i]).left == 0
                && served_frames(waiting, n)[i].right == 0,
{
    if n <= waiting.len() {
        assert(served_frames(waiting, n) + left_frames(waiting, n) =~= waiting);
    } else {
        assert(served_frames(waiting, n).take(waiting.len() as int) =~= waiting);
    }
}

/// Each frame fills eight bytes: the left channel, then the right one, the lowest byte
/// of each first.
pub proof fn channels_stand_in_order(frames: Seq<Frame>, i: int)
    requires
        0 <= i < frames.len(),
    ensures
        pcm_bytes(frames).len() == 8 * frames.len(),
        pcm_bytes(frames)[8 * i] == frames[i].left % 256,
        pcm_bytes(frames)[8 * i + 1] == frames[i].left / 0x100 % 256,
        pcm_bytes(frames)[8 * i + 2] == frames[i].left / 0x1_0000 % 256,
        pcm_bytes(frames)[8 * i + 3] == frames[i].left / 0x100_0000,
        pcm_bytes(frames)[8 * i + 4] == frames[i].right % 256,
        pcm_bytes(frames)[8 * i + 5] == frames[i].right / 0x100 % 256,
        pcm_bytes(frames)[8 * i + 6] == frames[i].right / 0x1_0000 % 256,
        pcm_bytes(frames)[8 * i + 7] == frames[i].right / 0x100_0000,
    decreases frames.len(),
{
    lemma_pcm_len(frames);
    lemma_pcm_len(frames.drop_last());
    if i < frames.len() - 1 {
        channels_stand_in_order(frames.drop_last(), i);
    }
}

} // verus!
