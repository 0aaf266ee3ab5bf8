//! Listening to a process for a moment, to see whether it plays anything.
//!
//! [`ProbeRun`] says what to do with the stream and takes what came of it.
use crate::capture;
use crate::capture::{OpenStep, name_target, wait_timed_out};
use crate::command;
use crate::pcm;
use crate::pcm::{ACTIVE_AUDIO_BITS, LoopbackStats};
use crate::tasklist::{CandidateView, WindowsProcessCandidate};
use crate::text;
use vstd::prelude::*;

verus! {

/// How long a probe listens.
pub const WINDOWS_PROBE_MILLIS: u64 = 1_200;

/// What a probe heard.
#[derive(Debug)]
pub struct WindowsProbeResult {
    pub candidate: WindowsProcessCandidate,
    pub stats: LoopbackStats,
    pub error: Option<String>,
}

#[verifier::ext_equal]
pub struct ProbeResultView {
    pub candidate: CandidateView,
    pub stats: LoopbackStats,
    pub error: Option<Seq<char>>,
}

impl View for WindowsProbeResult {
    type V = ProbeResultView;

    open spec fn view(&self) -> ProbeResultView {
        ProbeResultView {
            candidate: self.candidate@,
            stats: self.stats,
            error: text::opt(self.error),
        }
    }
}

impl ProbeResultView {
    /// Whether the process plays something that can be heard.
    pub open spec fn audible(self) -> bool {
        self.error is None && self.stats.non_silent_samples > 0 && pcm::exceeds_threshold(
            self.stats.peak,
        )
    }
}

impl WindowsProbeResult {
    pub fn new(candidate: WindowsProcessCandidate) -> (r: WindowsProbeResult)
        ensures
            r@ == (ProbeResultView {
                candidate: candidate@,
                stats: pcm::no_stats(),
                error: None,
            }),
    {
        WindowsProbeResult { candidate, stats: LoopbackStats::new(), error: None }
    }

    /// Whether the process plays something that can be heard.
    pub fn audible(&self) -> (r: bool)
        ensures
            r == self@.audible(),
    {
        self.error.is_none() && self.stats.non_silent_samples > 0 && self.stats.peak
            > ACTIVE_AUDIO_BITS && self.stats.peak <= 0x7f80_0000
    }
}

/// What a probe does next.
#[derive(Clone, Copy, Debug, PartialEq, Eq, Structural)]
pub enum ProbePhase {
    /// See whether the capture was stopped.
    Starting,
    /// Take a step to open the stream.
    Opening(OpenStep),
    /// Look at the clock.
    Checking,
    /// Wait for the stream.
    Waiting,
    /// Ask how long the next packet is.
    Asking,
    /// Read a packet of that many frames.
    Reading(u32),
    /// Nothing. The stream was started if the flag is set.
    Done(bool),
}

/// The message of a step that failed to open the stream.
pub open spec fn open_failure(
    step: OpenStep,
    target: Seq<char>,
    pid: u32,
    error: Seq<char>,
) -> Seq<char> {
    let name = capture::target_with_pid(target, pid);
    match step {
        OpenStep::Apartment => "failed to initialize Windows audio COM apartment: "@ + error,
        OpenStep::Client => "failed to create loopback probe for "@ + name + ": "@ + error,
        OpenStep::Initialize => "failed to initialize loopback probe for "@ + name + ": "@ + error,
        OpenStep::Event => "failed to create loopback probe event for "@ + name + ": "@ + error,
        OpenStep::Capture => "failed to open loopback probe client for "@ + name + ": "@ + error,
        OpenStep::Start => "failed to start loopback probe for "@ + name + ": "@ + error,
    }
}

/// A probe that is under way.
#[derive(Debug)]
pub struct ProbeRun {
    phase: ProbePhase,
    target: String,
    result: WindowsProbeResult,
}

#[verifier::ext_equal]
pub struct ProbeView {
    pub phase: ProbePhase,
    pub target: Seq<char>,
    pub result: ProbeResultView,
}

impl View for ProbeRun {
    type V = ProbeView;

    closed spec fn view(&self) -> ProbeView {
        ProbeView { phase: self.phase, target: self.target@, result: self.result@ }
    }
}

impl ProbeView {
    pub open spec fn at(self, phase: ProbePhase) -> ProbeView {
        ProbeView { phase, ..self }
    }

    /// The probe has failed.
    pub open spec fn failed(self, started: bool, error: Seq<char>) -> ProbeView {
        ProbeView {
            phase: ProbePhase::Done(started),
            result: ProbeResultView { error: Some(error), ..self.result },
            ..self
        }
    }

    /// The probe has counted something.
    pub open spec fn counting(self, phase: ProbePhase, stats: LoopbackStats) -> ProbeView {
        ProbeView { phase, result: ProbeResultView { stats, ..self.result }, ..self }
    }

    /// The message of something that failed while the probe listened.
    pub open spec fn listening_failure(self, what: Seq<char>, error: Seq<char>) -> Seq<char> {
        "loopback probe "@ + what + " failed for "@ + capture::target_with_pid(
            self.target,
            self.result.candidate.pid,
        ) + ": "@ + error
    }

    pub open spec fn after_start(self, stopped: bool) -> ProbeView {
        if stopped {
            self.at(ProbePhase::Done(false))
        } else {
            self.at(ProbePhase::Opening(OpenStep::Apartment))
        }
    }

    pub open spec fn after_opening(self, outcome: Result<(), Seq<char>>) -> ProbeView {
        let step = self.phase->Opening_0;
        match outcome {
            Ok(_) => match step.following() {
                Some(next) => self.at(ProbePhase::Opening(next)),
                None => self.at(ProbePhase::Checking),
            },
            Err(error) => self.failed(
                false,
                open_failure(step, self.target, self.result.candidate.pid, error),
            ),
        }
    }

    pub open spec fn after_check(self, elapsed_millis: u64, stopped: bool) -> ProbeView {
        if elapsed_millis < WINDOWS_PROBE_MILLIS && !stopped {
            self.at(ProbePhase::Waiting)
        } else {
            self.at(ProbePhase::Done(true))
        }
    }

    pub open spec fn after_wait(self, outcome: Result<(), Seq<char>>) -> ProbeView {
        match outcome {
            Ok(_) => self.at(ProbePhase::Asking),
            Err(error) => if capture::is_timeout(error) {
                self.counting(
                    ProbePhase::Asking,
                    LoopbackStats {
                        wait_timeouts: (self.result.stats.wait_timeouts + 1) as u64,
                        ..self.result.stats
                    },
                )
            } else {
                self.failed(true, self.listening_failure("wait"@, error))
            },
        }
    }

    pub open spec fn after_size(self, outcome: Result<Option<u32>, Seq<char>>) -> ProbeView {
        match outcome {
            Ok(Some(frames)) if frames > 0 => self.at(ProbePhase::Reading(frames)),
            Ok(_) => self.at(ProbePhase::Checking),
            Err(error) => self.failed(true, self.listening_failure("packet query"@, error)),
        }
    }

    pub open spec fn after_packet(
        self,
        packet: Seq<u8>,
        outcome: Result<(u32, bool), Seq<char>>,
    ) -> ProbeView {
        match outcome {
            Ok((frames, silent)) => if frames == 0 {
                self.at(ProbePhase::Checking)
            } else {
                self.counting(
                    ProbePhase::Asking,
                    pcm::stats_with_packet(self.result.stats, packet, frames, silent),
                )
            },
            Err(error) => self.failed(true, self.listening_failure("read"@, error)),
        }
    }
}

fn describe_open_failure(step: OpenStep, target: &str, pid: u32, error: &str) -> (r: String)
    ensures
        r@ == open_failure(step, target@, pid, error@),
{
    let name = name_target(target, pid);
    match step {
        OpenStep::Apartment => "failed to initialize Windows audio COM apartment: ".to_owned().concat(
            error,
        ),
        OpenStep::Client => "failed to create loopback probe for ".to_owned().concat(
            name.as_str(),
        ).concat(": ").concat(error),
        OpenStep::Initialize => "failed to initialize loopback probe for ".to_owned().concat(
            name.as_str(),
        ).concat(": ").concat(error),
        OpenStep::Event => "failed to create loopback probe event for ".to_owned().concat(
            name.as_str(),
        ).concat(": ").concat(error),
        OpenStep::Capture => "failed to open loopback probe client for ".to_owned().concat(
            name.as_str(),
        ).concat(": ").concat(error),
        OpenStep::Start => "failed to start loopback probe for ".to_owned().concat(
            name.as_str(),
        ).concat(": ").concat(error),
    }
}

impl ProbeRun {
    pub fn new(candidate: WindowsProcessCandidate, capture_target: &str) -> (r: ProbeRun)
        ensures
            r@ == (ProbeView {
                phase: ProbePhase::Starting,
                target: capture_target@,
                result: ProbeResultView {
                    candidate: candidate@,
                    stats: pcm::no_stats(),
                    error: None,
                },
            }),
    {
        ProbeRun {
            phase: ProbePhase::Starting,
            target: capture_target.to_owned(),
            result: WindowsProbeResult::new(candidate),
        }
    }

    /// What is done next.
    pub fn phase(&self) -> (r: ProbePhase)
        ensures
            r == self@.phase,
    {
        self.phase
    }

    /// The number of the process that is probed.
    pub fn pid(&self) -> (r: u32)
        ensures
            r == self@.result.candidate.pid,
    {
        self.result.candidate.pid
    }

    /// Whether the counters have room for a wait and for a packet of `frames` frames.
    pub fn has_room(&self, frames: u32) -> (r: bool)
        ensures
            r == (self@.result.stats.has_room(frames) && self@.result.stats.wait_timeouts
                < u64::MAX),
    {
        self.result.stats.fits(frames) && self.result.stats.wait_timeouts < u64::MAX
    }

    /// What the probe heard.
    pub fn into_result(self) -> (r: WindowsProbeResult)
        ensures
            r@ == self@.result,
    {
        self.result
    }

    fn fail(&mut self, started: bool, what: &str, error: &str)
        ensures
            final(self)@ == old(self)@.failed(started, old(self)@.listening_failure(what@, error@)),
    {
        let name = name_target(self.target.as_str(), self.result.candidate.pid);
        self.result.error = Some(
            "loopback probe ".to_owned().concat(what).concat(" failed for ").concat(
                name.as_str(),
            ).concat(": ").concat(error),
        );
        self.phase = ProbePhase::Done(started);
    }

    /// The probe begins, unless the capture was stopped.
    pub fn start(&mut self, stopped: bool)
        requires
            old(self)@.phase == ProbePhase::Starting,
        ensures
            final(self)@ == old(self)@.after_start(stopped),
    {
        self.phase = if stopped {
            ProbePhase::Done(false)
        } else {
            ProbePhase::Opening(OpenStep::Apartment)
        };
    }

    /// A step to open the stream was taken.
    pub fn opened(&mut self, outcome: Result<(), String>)
        requires
            old(self)@.phase is Opening,
        ensures
            final(self)@ == old(self)@.after_opening(command::outcome_view(outcome)),
    {
        if let ProbePhase::Opening(step) = self.phase {
            match outcome {
                Ok(_) => {
                    self.phase = match step.next() {
                        Some(next) => ProbePhase::Opening(next),
                        None => ProbePhase::Checking,
                    };
                },
                Err(error) => {
                    self.result.error = Some(
                        describe_open_failure(
                            step,
                            self.target.as_str(),
                            self.result.candidate.pid,
                            error.as_str(),
                        ),
                    );
                    self.phase = ProbePhase::Done(false);
                },
            }
        }
    }

    /// The clock was looked at.
    pub fn checked(&mut self, elapsed_millis: u64, stopped: bool)
        requires
            old(self)@.phase == ProbePhase::Checking,
        ensures
            final(self)@ == old(self)@.after_check(elapsed_millis, stopped),
    {
        self.phase = if elapsed_millis < WINDOWS_PROBE_MILLIS && !stopped {
            ProbePhase::Waiting
        } else {
            ProbePhase::Done(true)
        };
    }

    /// The stream was waited for.
    pub fn waited(&mut self, outcome: Result<(), String>)
        requires
            old(self)@.phase == ProbePhase::Waiting,
            old(self)@.result.stats.wait_timeouts < u64::MAX,
        ensures
            final(self)@ == old(self)@.after_wait(command::outcome_view(outcome)),
    {
        match outcome {
            Ok(_) => {
                self.phase = ProbePhase::Asking;
            },
            Err(error) => if wait_timed_out(error.as_str()) {
                self.result.stats.wait_timeouts = self.result.stats.wait_timeouts + 1;
                self.phase = ProbePhase::Asking;
            } else {
                self.fail(true, "wait", error.as_str());
            },
        }
    }

    /// The length of the next packet was asked for.
    pub fn sized(&mut self, outcome: Result<Option<u32>, String>)
        requires
            old(self)@.phase == ProbePhase::Asking,
        ensures
            final(self)@ == old(self)@.after_size(command::outcome_view(outcome)),
    {
        match outcome {
            Ok(Some(frames)) => {
                self.phase = if frames > 0 {
                    ProbePhase::Reading(frames)
                } else {
                    ProbePhase::Checking
                };
            },
            Ok(None) => {
                self.phase = ProbePhase::Checking;
            },
            Err(error) => self.fail(true, "packet query", error.as_str()),
        }
    }

    /// A packet was read: so many frames, which the device flags as silent or not.
    pub fn packet(&mut self, bytes: &[u8], outcome: Result<(u32, bool), String>)
        requires
            old(self)@.phase is Reading,
            outcome matches Ok((frames, _)) ==> frames * 8 <= bytes@.len()
                && old(self)@.result.stats.has_room(frames),
        ensures
            final(self)@ == old(self)@.after_packet(bytes@, command::outcome_view(outcome)),
    {
        match outcome {
            Ok((frames, silent)) => {
                if frames == 0 {
                    self.phase = ProbePhase::Checking;
                } else {
                    let _ = self.result.stats.absorb(bytes, frames, silent);
                    self.phase = ProbePhase::Asking;
                }
            },
            Err(error) => self.fail(true, "read", error.as_str()),
        }
    }
}

// ---------------------------------------------------------------------------
// Laws
// ---------------------------------------------------------------------------

/// A process is audible exactly where its probe heard a sample above the threshold
/// and did not fail.
pub proof fn heard_process_is_audible(result: ProbeResultView)
    requires
        pcm::counts_agree(result.stats),
    ensures
        result.audible() <==> result.error is None && result.stats.non_silent_samples > 0,
{
}

/// A probe ends once its time is over, or once the capture is stopped, whatever it
/// heard, and what it heard is kept.
pub proof fn probe_ends_in_time(run: ProbeView, elapsed_millis: u64, stopped: bool)
    requires
        run.phase == ProbePhase::Checking,
        elapsed_millis >= WINDOWS_PROBE_MILLIS || stopped,
    ensures
        run.after_check(elapsed_millis, stopped).phase == ProbePhase::Done(true),
        run.after_check(elapsed_millis, stopped).result == run.result,
{
}

/// A probe listens on as long as it has time and is not stopped.
pub proof fn probe_listens_its_time(run: ProbeView, elapsed_millis: u64)
    ensures
        elapsed_millis < 1_200 ==> run.after_check(elapsed_millis, false).phase
            == ProbePhase::Waiting,
        elapsed_millis >= 1_200 ==> run.after_check(elapsed_millis, false).phase
            == ProbePhase::Done(true),
        run.after_start(true).phase == ProbePhase::Done(false),
        run.after_start(false).phase == ProbePhase::Opening(OpenStep::Apartment),
        run.after_start(true).result == run.result,
        run.after_start(false).result == run.result,
{
}

/// A stream whose six steps all succeed is listened to; nothing is heard or noted
/// before.
pub proof fn opened_probe_listens(run: ProbeView)
    requires
        run.phase == ProbePhase::Opening(OpenStep::Apartment),
    ensures
        ({
            let ready = run.after_opening(Ok(())).after_opening(Ok(())).after_opening(
                Ok(()),
            ).after_opening(Ok(())).after_opening(Ok(()));
            &&& ready.phase == ProbePhase::Opening(OpenStep::Start)
            &&& ready.after_opening(Ok(())).phase == ProbePhase::Checking
            &&& ready.after_opening(Ok(())).result == run.result
        }),
{
}

/// Whether a probe has failed, with everything that it had heard and an error that ends
/// with the cause.
pub open spec fn failed_with(run: ProbeView, before: ProbeView, cause: Seq<char>) -> bool {
    &&& run.phase is Done
    &&& run.result.stats == before.result.stats
    &&& run.result.candidate == before.result.candidate
    &&& run.target == before.target
    &&& run.result.error is Some
    &&& run.result.error->Some_0.len() >= cause.len()
    &&& run.result.error->Some_0.skip(run.result.error->Some_0.len() - cause.len()) == cause
    &&& !run.result.audible()
}

/// A step that fails ends the probe, which keeps what it had heard, says why, and is
/// not audible.
pub proof fn failed_probe_says_why(run: ProbeView, packet: Seq<u8>, error: Seq<char>)
    ensures
        run.phase is Opening ==> failed_with(run.after_opening(Err(error)), run, error),
        !capture::is_timeout(error) ==> failed_with(run.after_wait(Err(error)), run, error),
        failed_with(run.after_size(Err(error)), run, error),
        failed_with(run.after_packet(packet, Err(error)), run, error),
{
    let name = capture::target_with_pid(run.target, run.result.candidate.pid);
    let opened = run.after_opening(Err(error)).result.error->Some_0;
    let waited = run.after_wait(Err(error)).result.error->Some_0;
    let sized = run.after_size(Err(error)).result.error->Some_0;
    let read = run.after_packet(packet, Err(error)).result.error->Some_0;
    assert(opened.skip(opened.len() - error.len()) =~= error);
    assert(sized.skip(sized.len() - error.len()) =~= error);
    assert(read.skip(read.len() - error.len()) =~= error);
    if !capture::is_timeout(error) {
        assert(waited.skip(waited.len() - error.len()) =~= error);
    }
}

/// A wait that ran out of time is counted and nothing else changes; one that was
/// answered is not counted.
pub proof fn timeouts_are_counted(run: ProbeView, error: Seq<char>)
    requires
        run.result.stats.wait_timeouts < u64::MAX,
        capture::is_timeout(error),
    ensures
        run.after_wait(Err(error)).phase == ProbePhase::Asking,
        run.after_wait(Err(error)).result.stats.wait_timeouts == run.result.stats.wait_timeouts + 1,
        run.after_wait(Err(error)).result.stats == (LoopbackStats {
            wait_timeouts: (run.result.stats.wait_timeouts + 1) as u64,
            ..run.result.stats
        }),
        run.after_wait(Err(error)).result.error == run.result.error,
        run.after_wait(Err(error)).result.candidate == run.result.candidate,
        run.after_wait(Ok(())).phase == ProbePhase::Asking,
        run.after_wait(Ok(())).result == run.result,
{
}

/// Packets are read one after another, each counted, until there is none; a packet
/// without frames counts for nothing.
pub proof fn packets_are_read_until_none_is_left(
    run: ProbeView,
    frames: u32,
    packet: Seq<u8>,
    silent: bool,
)
    requires
        frames > 0,
    ensures
        run.after_size(Ok(Some(frames))).phase == ProbePhase::Reading(frames),
        run.after_size(Ok(Some(frames))).result == run.result,
        run.after_size(Ok(Some(0))).phase == ProbePhase::Checking,
        run.after_size(Ok(None)).phase == ProbePhase::Checking,
        run.after_packet(packet, Ok((frames, silent))).phase == ProbePhase::Asking,
        run.after_packet(packet, Ok((frames, silent))).result.stats == pcm::stats_with_packet(
            run.result.stats,
            packet,
            frames,
            silent,
        ),
        run.after_packet(packet, Ok((frames, silent))).result.candidate == run.result.candidate,
        run.after_packet(packet, Ok((frames, silent))).result.error == run.result.error,
        run.after_packet(packet, Ok((0, silent))).phase == ProbePhase::Checking,
        run.after_packet(packet, Ok((0, silent))).result == run.result,
{
}

/// A probe that failed is not audible, and another one is where it heard a sample and a
/// peak above the threshold.
pub proof fn audible_means_heard(result: ProbeResultView)
    ensures
        result.audible() <==> result.error is None && result.stats.non_silent_samples > 0
            && 0x3a03_126f < result.stats.peak <= 0x7f80_0000,
{
}

} // verus!
