//! Capturing the audio of one application on Windows: what the parts of the
//! capture share.
use crate::number;
use crate::number::to_decimal;
use crate::text;
use crate::text::{contains, to_ascii_lowercase};
use vstd::prelude::*;

verus! {

/// How long a stream is waited for at a time while an application is probed.
pub const WINDOWS_PROBE_WAIT_MILLIS: u32 = 150;

/// How long a stream is waited for at a time while an application is captured.
pub const WINDOWS_LOOPBACK_WAIT_MILLIS: u32 = 250;

/// The steps that open a loopback stream, in order.
#[derive(Clone, Copy, Debug, PartialEq, Eq, Structural)]
pub enum OpenStep {
    Apartment,
    Client,
    Initialize,
    Event,
    Capture,
    Start,
}

impl OpenStep {
    /// The step that follows, if any is left.
    pub open spec fn following(self) -> Option<OpenStep> {
        match self {
            OpenStep::Apartment => Some(OpenStep::Client),
            OpenStep::Client => Some(OpenStep::Initialize),
            OpenStep::Initialize => Some(OpenStep::Event),
            OpenStep::Event => Some(OpenStep::Capture),
            OpenStep::Capture => Some(OpenStep::Start),
            OpenStep::Start => None,
        }
    }

    /// The step that follows, if any is left.
    pub fn next(self) -> (r: Option<OpenStep>)
        ensures
            r == self.following(),
    {
        match self {
            OpenStep::Apartment => Some(OpenStep::Client),
            OpenStep::Client => Some(OpenStep::Initialize),
            OpenStep::Initialize => Some(OpenStep::Event),
            OpenStep::Event => Some(OpenStep::Capture),
            OpenStep::Capture => Some(OpenStep::Start),
            OpenStep::Start => None,
        }
    }
}

/// Whether a failed wait only ran out of time.
pub open spec fn is_timeout(message: Seq<char>) -> bool {
    text::occurs(text::lowered(message), "timeout"@)
}

/// Whether a failed wait only ran out of time.
pub fn wait_timed_out(message: &str) -> (r: bool)
    ensures
        r == is_timeout(message@),
{
    contains(to_ascii_lowercase(message).as_str(), "timeout")
}

/// The bytes that a packet of `frames` frames fills.
pub fn packet_bytes(frames: u32) -> (r: u64)
    ensures
        r == frames * 8,
{
    frames as u64 * 8
}

/// A target and one of its processes, as messages name them.
pub open spec fn target_with_pid(target: Seq<char>, pid: u32) -> Seq<char> {
    "`"@ + target + "` pid "@ + number::decimal(pid as nat)
}

/// A target and one of its processes, as messages name them.
pub fn name_target(target: &str, pid: u32) -> (r: String)
    ensures
        r@ == target_with_pid(target@, pid),
{
    "`".to_owned().concat(target).concat("` pid ").concat(to_decimal(pid as u64).as_str())
}

/// What the user sees of the capture. The peak is the bit pattern of a
/// single-precision value.
#[derive(Debug)]
pub struct WindowsCaptureStatus {
    pub message: String,
    pub target_pid: Option<u32>,
    pub candidate_count: usize,
    pub audible_count: usize,
    pub peak: u32,
    pub updated_at: String,
}

#[verifier::ext_equal]
pub struct StatusView {
    pub message: Seq<char>,
    pub target_pid: Option<u32>,
    pub candidate_count: nat,
    pub audible_count: nat,
    pub peak: u32,
    pub updated_at: Seq<char>,
}

impl View for WindowsCaptureStatus {
    type V = StatusView;

    open spec fn view(&self) -> StatusView {
        StatusView {
            message: self.message@,
            target_pid: self.target_pid,
            candidate_count: self.candidate_count as nat,
            audible_count: self.audible_count as nat,
            peak: self.peak,
            updated_at: self.updated_at@,
        }
    }
}

impl Clone for WindowsCaptureStatus {
    fn clone(&self) -> (r: WindowsCaptureStatus)
        ensures
            r@ == self@,
    {
        WindowsCaptureStatus {
            message: self.message.clone(),
            target_pid: self.target_pid,
            candidate_count: self.candidate_count,
            audible_count: self.audible_count,
            peak: self.peak,
            updated_at: self.updated_at.clone(),
        }
    }
}

/// The status of a capture that follows no process.
pub open spec fn idle_status(message: Seq<char>, candidates: nat, now: Seq<char>) -> StatusView {
    StatusView {
        message,
        target_pid: None,
        candidate_count: candidates,
        audible_count: 0,
        peak: 0,
        updated_at: now,
    }
}

/// The message of a capture that waits for the target to appear.
pub open spec fn watching_message(target: Seq<char>) -> Seq<char> {
    "Windows capture is watching for `"@ + target
        + "`. Open the app and start playback; Bardic Chord will attach automatically."@
}

impl WindowsCaptureStatus {
    /// The status of a capture that follows no process.
    pub fn idle(message: String, candidates: usize, now: &str) -> (r: WindowsCaptureStatus)
        ensures
            r@ == idle_status(message@, candidates as nat, now@),
    {
        WindowsCaptureStatus {
            message,
            target_pid: None,
            candidate_count: candidates,
            audible_count: 0,
            peak: 0,
            updated_at: now.to_owned(),
        }
    }

    /// The status of a capture that waits for the target to appear.
    pub fn watching(capture_target: &str, now: &str) -> (r: WindowsCaptureStatus)
        ensures
            r@ == idle_status(watching_message(capture_target@), 0, now@),
    {
        let message = "Windows capture is watching for `".to_owned().concat(capture_target).concat(
            "`. Open the app and start playback; Bardic Chord will attach automatically.",
        );
        WindowsCaptureStatus::idle(message, 0, now)
    }
}

// ---------------------------------------------------------------------------
// Laws
// ---------------------------------------------------------------------------

/// Opening takes the six steps in order, each once, and then is over.
pub proof fn opening_takes_six_steps()
    ensures
        OpenStep::Apartment.following() == Some(OpenStep::Client),
        OpenStep::Client.following() == Some(OpenStep::Initialize),
        OpenStep::Initialize.following() == Some(OpenStep::Event),
        OpenStep::Event.following() == Some(OpenStep::Capture),
        OpenStep::Capture.following() == Some(OpenStep::Start),
        OpenStep::Start.following() is None,
{
}

/// A message that holds the word anywhere, in whatever letter case, says that time ran
/// out, and one without it does not.
pub proof fn timeout_is_told_by_the_word(front: Seq<char>, word: Seq<char>, back: Seq<char>)
    requires
        text::lowered(word) == seq!['t', 'i', 'm', 'e', 'o', 'u', 't'],
    ensures
        is_timeout(front + word + back),
        is_timeout(front) ==> text::occurs(
            text::lowered(front),
            seq!['t', 'i', 'm', 'e', 'o', 'u', 't'],
        ),
{
    reveal_strlit("timeout");
    assert("timeout"@ =~= seq!['t', 'i', 'm', 'e', 'o', 'u', 't']);
    assert(text::lowered(front + word + back) =~= text::lowered(front) + text::lowered(word)
        + text::lowered(back));
    text::part_occurs(text::lowered(front), text::lowered(word), text::lowered(back));
}

/// A capture that follows no process shows no process, no sound and the number of
/// candidates that it was given.
pub proof fn idle_capture_follows_nobody(message: Seq<char>, candidates: nat, now: Seq<char>)
    ensures
        idle_status(message, candidates, now).message == message,
        idle_status(message, candidates, now).target_pid is None,
        idle_status(message, candidates, now).candidate_count == candidates,
        idle_status(message, candidates, now).audible_count == 0,
        idle_status(message, candidates, now).peak == 0,
        idle_status(message, candidates, now).updated_at == now,
{
}

/// Messages name the target and the number of its process.
pub proof fn messages_name_the_target(target: Seq<char>, pid: u32)
    ensures
        text::occurs(target_with_pid(target, pid), target),
        text::occurs(target_with_pid(target, pid), " pid "@ + number::decimal(pid as nat)),
        text::occurs(watching_message(target), target),
{
    reveal_strlit("` pid ");
    reveal_strlit(" pid ");
    let digits = number::decimal(pid as nat);
    let none = Seq::<char>::empty();
    let whole = target_with_pid(target, pid);
    assert(whole =~= "`"@ + target + ("` pid "@ + digits));
    text::part_occurs("`"@, target, "` pid "@ + digits);
    assert("` pid "@ =~= seq!['`'] + " pid "@);
    assert(whole =~= ("`"@ + target + seq!['`']) + (" pid "@ + digits) + none);
    text::part_occurs("`"@ + target + seq!['`'], " pid "@ + digits, none);
    text::part_occurs(
        "Windows capture is watching for `"@,
        target,
        "`. Open the app and start playback; Bardic Chord will attach automatically."@,
    );
}

} // verus!
