//! Capturing a process until it falls silent or the capture is stopped.
//!
//! [`LoopbackRun`] says what to do with the stream and takes what came of it.
use crate::capture;
use crate::capture::{OpenStep, StatusView, WindowsCaptureStatus, name_target, wait_timed_out};
use crate::command;
use crate::number;
use crate::number::to_decimal;
use crate::pcm;
use crate::pcm::{ACTIVITY_WINDOW_MILLIS, LoopbackStats};
use crate::sink::Frame;
use crate::text;
use vstd::prelude::*;

verus! {

/// After so many silent windows in a row the log carries a warning.
pub const WINDOWS_SILENCE_WARN_WINDOWS: u32 = 5;

/// After so many silent windows in a row the processes are scanned again.
pub const WINDOWS_CAPTURE_RESCAN_SILENT_WINDOWS: u32 = 8;

/// Why a capture ended.
#[derive(Clone, Copy, Debug, PartialEq, Eq, Structural)]
pub enum WindowsCaptureRunResult {
    Stopped,
    Rescan,
}

/// What a capture does next.
#[derive(Clone, Copy, Debug, PartialEq, Eq, Structural)]
pub enum LoopbackPhase {
    /// Take a step to open the stream.
    Opening(OpenStep),
    /// See whether the capture was stopped.
    Checking,
    /// Wait for the stream.
    Waiting,
    /// Ask how long the next packet is.
    Asking,
    /// Read a packet of that many frames.
    Reading(u32),
    /// Hand the frames of the packet on.
    Forwarding,
    /// Look at the clock.
    Timing,
    /// Nothing: the capture is over.
    Ended(WindowsCaptureRunResult),
    /// Nothing: the capture has failed.
    Failed,
}

/// The message of a step that failed to open the stream.
pub open spec fn open_failure(
    step: OpenStep,
    target: Seq<char>,
    pid: u32,
    error: Seq<char>,
) -> Seq<char> {
    match step {
        OpenStep::Apartment => "failed to initialize Windows audio COM apartment: "@ + error,
        OpenStep::Client => "failed to create a Windows loopback client for "@
            + capture::target_with_pid(target, pid) + ": "@ + error,
        OpenStep::Initialize => "failed to initialize the Windows loopback client: "@ + error,
        OpenStep::Event => "failed to create the Windows loopback event handle: "@ + error,
        OpenStep::Capture => "failed to open the Windows loopback capture client: "@ + error,
        OpenStep::Start => "failed to start the Windows loopback stream for `"@ + target + "`: "@
            + error,
    }
}

/// What a window of the capture has shown.
#[derive(Debug)]
pub struct WindowReport {
    pub status: WindowsCaptureStatus,
    pub stats: LoopbackStats,
    pub silent_windows: u32,
    pub warn: bool,
}

#[verifier::ext_equal]
pub struct WindowView {
    pub status: StatusView,
    pub stats: LoopbackStats,
    pub silent_windows: u32,
    pub warn: bool,
}

impl View for WindowReport {
    type V = WindowView;

    open spec fn view(&self) -> WindowView {
        WindowView {
            status: self.status@,
            stats: self.stats,
            silent_windows: self.silent_windows,
            warn: self.warn,
        }
    }
}

/// A capture that is under way.
#[derive(Debug)]
pub struct LoopbackRun {
    target_pid: u32,
    target: String,
    phase: LoopbackPhase,
    stats: LoopbackStats,
    read_packet: bool,
    silent_windows: u32,
}

#[verifier::ext_equal]
pub struct LoopbackView {
    pub target_pid: u32,
    pub target: Seq<char>,
    pub phase: LoopbackPhase,
    pub stats: LoopbackStats,
    /// Whether a packet was read since the last wait.
    pub read_packet: bool,
    /// How many windows in a row were silent.
    pub silent_windows: u32,
}

impl View for LoopbackRun {
    type V = LoopbackView;

    closed spec fn view(&self) -> LoopbackView {
        LoopbackView {
            target_pid: self.target_pid,
            target: self.target@,
            phase: self.phase,
            stats: self.stats,
            read_packet: self.read_packet,
            silent_windows: self.silent_windows,
        }
    }
}

/// Whether the window held samples and all of them were silent.
pub open spec fn is_silent(stats: LoopbackStats) -> bool {
    stats.samples_seen > 0 && stats.non_silent_samples == 0
}

/// Whether a window ends now: it is long enough, and something happened in it.
pub open spec fn window_is_due(stats: LoopbackStats, elapsed_millis: u64) -> bool {
    elapsed_millis >= ACTIVITY_WINDOW_MILLIS && (stats.samples_seen > 0 || stats.wait_timeouts > 0
        || stats.empty_packet_polls > 0)
}

/// Whether a warning is due after so many silent windows in a row.
pub open spec fn warns_after(windows: int) -> bool {
    windows == WINDOWS_SILENCE_WARN_WINDOWS || (windows > WINDOWS_SILENCE_WARN_WINDOWS && windows % (
    WINDOWS_SILENCE_WARN_WINDOWS * 3) == 0)
}

/// What the user sees after a window.
pub open spec fn window_status(
    target: Seq<char>,
    pid: u32,
    stats: LoopbackStats,
    peak_text: Seq<char>,
    now: Seq<char>,
) -> StatusView {
    StatusView {
        message: if is_silent(stats) {
            capture::target_with_pid(target, pid)
                + " is attached but currently silent. Bardic Chord will rescan if playback moved to another process."@
        } else {
            "Capturing `"@ + target + "` from pid "@ + number::decimal(pid as nat) + ". Peak "@
                + peak_text + "."@
        },
        target_pid: Some(pid),
        candidate_count: 1,
        audible_count: if is_silent(stats) {
            0
        } else {
            1
        },
        peak: stats.peak,
        updated_at: now,
    }
}

impl LoopbackView {
    pub open spec fn inv(self) -> bool {
        !(self.phase is Ended) && !(self.phase is Failed) ==> self.silent_windows
            < WINDOWS_CAPTURE_RESCAN_SILENT_WINDOWS
    }

    pub open spec fn at(self, phase: LoopbackPhase) -> LoopbackView {
        LoopbackView { phase, ..self }
    }

    pub open spec fn after_opening(self, outcome: Result<(), Seq<char>>) -> LoopbackView {
        match outcome {
            Ok(_) => match self.phase->Opening_0.following() {
                Some(next) => self.at(LoopbackPhase::Opening(next)),
                None => self.at(LoopbackPhase::Checking),
            },
            Err(_) => self.at(LoopbackPhase::Failed),
        }
    }

    pub open spec fn after_check(self, stopped: bool) -> LoopbackView {
        if stopped {
            self.at(LoopbackPhase::Ended(WindowsCaptureRunResult::Stopped))
        } else {
            self.at(LoopbackPhase::Waiting)
        }
    }

    pub open spec fn after_wait(self, outcome: Result<(), Seq<char>>) -> LoopbackView {
        LoopbackView {
            phase: LoopbackPhase::Asking,
            read_packet: false,
            stats: match outcome {
                Err(error) if capture::is_timeout(error) => LoopbackStats {
                    wait_timeouts: (self.stats.wait_timeouts + 1) as u64,
                    ..self.stats
                },
                _ => self.stats,
            },
            ..self
        }
    }

    pub open spec fn after_size(self, outcome: Result<Option<u32>, Seq<char>>) -> LoopbackView {
        match outcome {
            Ok(Some(frames)) if frames > 0 => self.at(LoopbackPhase::Reading(frames)),
            Ok(_) => self.at(LoopbackPhase::Timing),
            Err(_) => self.at(LoopbackPhase::Failed),
        }
    }

    pub open spec fn after_packet(
        self,
        packet: Seq<u8>,
        outcome: Result<(u32, bool), Seq<char>>,
    ) -> LoopbackView {
        match outcome {
            Ok((frames, silent)) => if frames == 0 {
                self.at(LoopbackPhase::Timing)
            } else {
                LoopbackView {
                    phase: LoopbackPhase::Forwarding,
                    read_packet: true,
                    stats: pcm::stats_with_packet(self.stats, packet, frames, silent),
                    ..self
                }
            },
            Err(_) => self.at(LoopbackPhase::Failed),
        }
    }

    pub open spec fn after_forwarding(self, accepted: bool) -> LoopbackView {
        if accepted {
            self.at(LoopbackPhase::Asking)
        } else {
            self.at(LoopbackPhase::Ended(WindowsCaptureRunResult::Stopped))
        }
    }

    /// What was counted, with this round.
    pub open spec fn round_stats(self) -> LoopbackStats {
        if self.read_packet {
            self.stats
        } else {
            LoopbackStats {
                empty_packet_polls: (self.stats.empty_packet_polls + 1) as u64,
                ..self.stats
            }
        }
    }

    /// How many windows in a row are silent once this window has ended.
    pub open spec fn windows_after(self) -> int {
        if is_silent(self.round_stats()) {
            self.silent_windows + 1
        } else {
            0
        }
    }

    pub open spec fn after_round(self, elapsed_millis: u64) -> LoopbackView {
        if !window_is_due(self.round_stats(), elapsed_millis) {
            LoopbackView {
                phase: LoopbackPhase::Checking,
                stats: self.round_stats(),
                ..self
            }
        } else if self.windows_after() >= WINDOWS_CAPTURE_RESCAN_SILENT_WINDOWS {
            LoopbackView {
                phase: LoopbackPhase::Ended(WindowsCaptureRunResult::Rescan),
                stats: self.round_stats(),
                silent_windows: self.windows_after() as u32,
                ..self
            }
        } else {
            LoopbackView {
                phase: LoopbackPhase::Checking,
                stats: pcm::no_stats(),
                silent_windows: self.windows_after() as u32,
                ..self
            }
        }
    }

    /// What the window has shown, if it ends with this round.
    pub open spec fn window(self, elapsed_millis: u64, peak_text: Seq<char>, now: Seq<char>) -> Option<
        WindowView,
    > {
        if window_is_due(self.round_stats(), elapsed_millis) {
            Some(
                WindowView {
                    status: window_status(
                        self.target,
                        self.target_pid,
                        self.round_stats(),
                        peak_text,
                        now,
                    ),
                    stats: self.round_stats(),
                    silent_windows: self.windows_after() as u32,
                    warn: warns_after(self.windows_after()),
                },
            )
        } else {
            None
        }
    }
}

impl LoopbackRun {
    pub fn new(target_pid: u32, capture_target: &str) -> (r: LoopbackRun)
        ensures
            r@ == (LoopbackView {
                target_pid,
                target: capture_target@,
                phase: LoopbackPhase::Opening(OpenStep::Apartment),
                stats: pcm::no_stats(),
                read_packet: false,
                silent_windows: 0,
            }),
            r@.inv(),
    {
        LoopbackRun {
            target_pid,
            target: capture_target.to_owned(),
            phase: LoopbackPhase::Opening(OpenStep::Apartment),
            stats: LoopbackStats::new(),
            read_packet: false,
            silent_windows: 0,
        }
    }

    /// What is done next.
    pub fn phase(&self) -> (r: LoopbackPhase)
        ensures
            r == self@.phase,
    {
        self.phase
    }

    /// The largest amplitude of the window, as a bit pattern.
    pub fn peak(&self) -> (r: u32)
        ensures
            r == self@.stats.peak,
    {
        self.stats.peak
    }

    /// Whether the counters have room for a round and for a packet of `frames` frames.
    pub fn has_room(&self, frames: u32) -> (r: bool)
        ensures
            r == (self@.stats.has_room(frames) && self@.stats.wait_timeouts < u64::MAX
                && self@.stats.empty_packet_polls < u64::MAX),
    {
        self.stats.fits(frames) && self.stats.wait_timeouts < u64::MAX
            && self.stats.empty_packet_polls < u64::MAX
    }

    /// A step to open the stream was taken. Gives the message of the step that
    /// failed.
    pub fn opened(&mut self, outcome: Result<(), String>) -> (r: Option<String>)
        requires
            old(self)@.phase is Opening,
            old(self)@.inv(),
        ensures
            final(self)@ == old(self)@.after_opening(command::outcome_view(outcome)),
            final(self)@.inv(),
            text::opt(r) == match outcome {
                Ok(_) => None,
                Err(error) => Some(
                    open_failure(
                        old(self)@.phase->Opening_0,
                        old(self)@.target,
                        old(self)@.target_pid,
                        error@,
                    ),
                ),
            },
    {
        let step = match self.phase {
            LoopbackPhase::Opening(step) => step,
            _ => {
                return None;
            },
        };
        match outcome {
            Ok(_) => {
                self.phase = match step.next() {
                    Some(next) => LoopbackPhase::Opening(next),
                    None => LoopbackPhase::Checking,
                };
                None
            },
            Err(error) => {
                self.phase = LoopbackPhase::Failed;
                let error = error.as_str();
                Some(
                    match step {
                        OpenStep::Apartment => "failed to initialize Windows audio COM apartment: ".to_owned().concat(
                            error,
                        ),
                        OpenStep::Client => "failed to create a Windows loopback client for ".to_owned().concat(
                            name_target(self.target.as_str(), self.target_pid).as_str(),
                        ).concat(": ").concat(error),
                        OpenStep::Initialize => "failed to initialize the Windows loopback client: ".to_owned().concat(
                            error,
                        ),
                        OpenStep::Event => "failed to create the Windows loopback event handle: ".to_owned().concat(
                            error,
                        ),
                        OpenStep::Capture => "failed to open the Windows loopback capture client: ".to_owned().concat(
                            error,
                        ),
                        OpenStep::Start => "failed to start the Windows loopback stream for `".to_owned().concat(
                            self.target.as_str(),
                        ).concat("`: ").concat(error),
                    },
                )
            },
        }
    }

    /// The stop signal was looked at.
    pub fn checked(&mut self, stopped: bool)
        requires
            old(self)@.phase == LoopbackPhase::Checking,
            old(self)@.inv(),
        ensures
            final(self)@ == old(self)@.after_check(stopped),
            final(self)@.inv(),
    {
        self.phase = if stopped {
            LoopbackPhase::Ended(WindowsCaptureRunResult::Stopped)
        } else {
            LoopbackPhase::Waiting
        };
    }

    /// The stream was waited for.
    pub fn waited(&mut self, outcome: Result<(), String>)
        requires
            old(self)@.phase == LoopbackPhase::Waiting,
            old(self)@.stats.wait_timeouts < u64::MAX,
            old(self)@.inv(),
        ensures
            final(self)@ == old(self)@.after_wait(command::outcome_view(outcome)),
            final(self)@.inv(),
    {
        if let Err(error) = outcome {
            if wait_timed_out(error.as_str()) {
                self.stats.wait_timeouts = self.stats.wait_timeouts + 1;
            }
        }
        self.read_packet = false;
        self.phase = LoopbackPhase::Asking;
    }

    /// The length of the next packet was asked for. Gives the message where that
    /// failed.
    pub fn sized(&mut self, outcome: Result<Option<u32>, String>) -> (r: Option<String>)
        requires
            old(self)@.phase == LoopbackPhase::Asking,
            old(self)@.inv(),
        ensures
            final(self)@ == old(self)@.after_size(command::outcome_view(outcome)),
            final(self)@.inv(),
            text::opt(r) == match outcome {
                Ok(_) => None,
                Err(error) => Some(
                    "failed to query the Windows loopback packet size: "@ + error@,
                ),
            },
    {
        match outcome {
            Ok(Some(frames)) => {
                self.phase = if frames > 0 {
                    LoopbackPhase::Reading(frames)
                } else {
                    LoopbackPhase::Timing
                };
                None
            },
            Ok(None) => {
                self.phase = LoopbackPhase::Timing;
                None
            },
            Err(error) => {
                self.phase = LoopbackPhase::Failed;
                Some(
                    "failed to query the Windows loopback packet size: ".to_owned().concat(
                        error.as_str(),
                    ),
                )
            },
        }
    }

    /// A packet was read: so many frames, which the device flags as silent or not.
    /// Gives the frames to hand on, or the message where the reading failed.
    pub fn packet(&mut self, bytes: &[u8], outcome: Result<(u32, bool), String>) -> (r: Result<
        Vec<Frame>,
        String,
    >)
        requires
            old(self)@.phase is Reading,
            old(self)@.inv(),
            outcome matches Ok((frames, _)) ==> frames * 8 <= bytes@.len()
                && old(self)@.stats.has_room(frames),
        ensures
            final(self)@ == old(self)@.after_packet(bytes@, command::outcome_view(outcome)),
            final(self)@.inv(),
            match outcome {
                Ok((frames, silent)) => r is Ok && r->Ok_0@ == pcm::packet_frames(
                    bytes@,
                    frames,
                    silent,
                ),
                Err(error) => r is Err && r->Err_0@ == "failed to read a Windows loopback packet: "@
                    + error@,
            },
    {
        match outcome {
            Ok((frames, silent)) => {
                if frames == 0 {
                    self.phase = LoopbackPhase::Timing;
                    let none: Vec<Frame> = Vec::new();
                    assert(none@ =~= pcm::packet_frames(bytes@, frames, silent));
                    Ok(none)
                } else {
                    let handed = self.stats.absorb(bytes, frames, silent);
                    self.read_packet = true;
                    self.phase = LoopbackPhase::Forwarding;
                    Ok(handed)
                }
            },
            Err(error) => {
                self.phase = LoopbackPhase::Failed;
                Err("failed to read a Windows loopback packet: ".to_owned().concat(error.as_str()))
            },
        }
    }

    /// The frames were handed on, and taken or not.
    pub fn forwarded(&mut self, accepted: bool)
        requires
            old(self)@.phase == LoopbackPhase::Forwarding,
            old(self)@.inv(),
        ensures
            final(self)@ == old(self)@.after_forwarding(accepted),
            final(self)@.inv(),
    {
        self.phase = if accepted {
            LoopbackPhase::Asking
        } else {
            LoopbackPhase::Ended(WindowsCaptureRunResult::Stopped)
        };
    }

    fn status(&self, peak_text: &str, now: &str) -> (r: WindowsCaptureStatus)
        ensures
            r@ == window_status(self@.target, self@.target_pid, self@.stats, peak_text@, now@),
    {
        let silent = self.stats.samples_seen > 0 && self.stats.non_silent_samples == 0;
        let message = if silent {
            name_target(self.target.as_str(), self.target_pid).concat(
                " is attached but currently silent. Bardic Chord will rescan if playback moved to another process.",
            )
        } else {
            "Capturing `".to_owned().concat(self.target.as_str()).concat("` from pid ").concat(
                to_decimal(self.target_pid as u64).as_str(),
            ).concat(". Peak ").concat(peak_text).concat(".")
        };
        WindowsCaptureStatus {
            message,
            target_pid: Some(self.target_pid),
            candidate_count: 1,
            audible_count: if silent {
                0
            } else {
                1
            },
            peak: self.stats.peak,
            updated_at: now.to_owned(),
        }
    }

    /// The packets of a round were read, `elapsed_millis` into the window. The text
    /// is how the peak is shown. Gives what the window has shown, if it ends.
    pub fn timed(&mut self, elapsed_millis: u64, peak_text: &str, now: &str) -> (r: Option<
        WindowReport,
    >)
        requires
            old(self)@.phase == LoopbackPhase::Timing,
            old(self)@.inv(),
            old(self)@.stats.empty_packet_polls < u64::MAX,
        ensures
            final(self)@ == old(self)@.after_round(elapsed_millis),
            final(self)@.inv(),
            match r {
                Some(report) => old(self)@.window(elapsed_millis, peak_text@, now@) == Some(
                    report@,
                ),
                None => old(self)@.window(elapsed_millis, peak_text@, now@) is None,
            },
    {
        if !self.read_packet {
            self.stats.empty_packet_polls = self.stats.empty_packet_polls + 1;
        }
        let stats = self.stats;
        if !(elapsed_millis >= ACTIVITY_WINDOW_MILLIS && (stats.samples_seen > 0
            || stats.wait_timeouts > 0 || stats.empty_packet_polls > 0)) {
            self.phase = LoopbackPhase::Checking;
            return None;
        }
        if stats.samples_seen > 0 && stats.non_silent_samples == 0 {
            self.silent_windows = self.silent_windows + 1;
        } else {
            self.silent_windows = 0;
        }
        let warn = self.silent_windows == WINDOWS_SILENCE_WARN_WINDOWS || (self.silent_windows
            > WINDOWS_SILENCE_WARN_WINDOWS && self.silent_windows % (WINDOWS_SILENCE_WARN_WINDOWS
            * 3) == 0);
        let status = self.status(peak_text, now);
        if self.silent_windows >= WINDOWS_CAPTURE_RESCAN_SILENT_WINDOWS {
            self.phase = LoopbackPhase::Ended(WindowsCaptureRunResult::Rescan);
        } else {
            self.phase = LoopbackPhase::Checking;
            self.stats = LoopbackStats::new();
        }
        Some(WindowReport { status, stats, silent_windows: self.silent_windows, warn })
    }
}

// ---------------------------------------------------------------------------
// Laws
// ---------------------------------------------------------------------------

/// The capture is given up exactly when the eighth silent window in a row ends, and
/// a window with sound starts the count again.
pub proof fn silence_ends_the_capture(run: LoopbackView, elapsed_millis: u64)
    requires
        run.inv(),
        run.phase == LoopbackPhase::Timing,
        window_is_due(run.round_stats(), elapsed_millis),
    ensures
        run.after_round(elapsed_millis).phase == LoopbackPhase::Ended(
            WindowsCaptureRunResult::Rescan,
        ) <==> is_silent(run.round_stats()) && run.silent_windows
            == WINDOWS_CAPTURE_RESCAN_SILENT_WINDOWS - 1,
        !is_silent(run.round_stats()) ==> run.after_round(elapsed_millis).silent_windows == 0,
{
}

/// A window starts with nothing counted.
pub proof fn window_starts_empty(run: LoopbackView, elapsed_millis: u64)
    requires
        run.phase == LoopbackPhase::Timing,
        window_is_due(run.round_stats(), elapsed_millis),
        run.after_round(elapsed_millis).phase == LoopbackPhase::Checking,
    ensures
        run.after_round(elapsed_millis).stats == pcm::no_stats(),
{
}

/// A round counts an empty poll exactly where no packet was read since the wait.
pub proof fn quiet_round_counts_a_poll(run: LoopbackView)
    requires
        run.stats.empty_packet_polls < u64::MAX,
    ensures
        run.round_stats().empty_packet_polls == run.stats.empty_packet_polls + if run.read_packet {
            0int
        } else {
            1
        },
{
}

/// A stream whose six steps all succeed is listened to, and a step that fails ends the
/// capture.
pub proof fn opened_stream_is_captured(run: LoopbackView, error: Seq<char>)
    ensures
        run.phase == LoopbackPhase::Opening(OpenStep::Apartment) ==> ({
            let ready = run.after_opening(Ok(())).after_opening(Ok(())).after_opening(
                Ok(()),
            ).after_opening(Ok(())).after_opening(Ok(()));
            &&& ready.phase == LoopbackPhase::Opening(OpenStep::Start)
            &&& ready.after_opening(Ok(())) == run.at(LoopbackPhase::Checking)
        }),
        run.phase is Opening ==> run.after_opening(Err(error)).phase == LoopbackPhase::Failed,
{
}

/// Whether two states belong to the capture of one process.
pub open spec fn same_capture(a: LoopbackView, b: LoopbackView) -> bool {
    a.target_pid == b.target_pid && a.target == b.target
}

/// Whatever happens, the capture stays with its process.
pub proof fn capture_stays_with_its_process(
    run: LoopbackView,
    outcome: Result<(), Seq<char>>,
    size: Result<Option<u32>, Seq<char>>,
    packet: Seq<u8>,
    read: Result<(u32, bool), Seq<char>>,
    flag: bool,
    elapsed_millis: u64,
)
    ensures
        same_capture(run, run.after_opening(outcome)),
        same_capture(run, run.after_check(flag)),
        same_capture(run, run.after_wait(outcome)),
        same_capture(run, run.after_size(size)),
        same_capture(run, run.after_packet(packet, read)),
        same_capture(run, run.after_forwarding(flag)),
        same_capture(run, run.after_round(elapsed_millis)),
{
}

/// A capture goes round until it is stopped: it waits, reads packet after packet, hands
/// each on, and looks at the clock where there is none; it ends where it is told to or
/// where nobody takes the frames any more.
pub proof fn capture_goes_round(
    run: LoopbackView,
    outcome: Result<(), Seq<char>>,
    frames: u32,
    packet: Seq<u8>,
    silent: bool,
    error: Seq<char>,
)
    requires
        frames > 0,
    ensures
        run.after_check(false).phase == LoopbackPhase::Waiting,
        run.after_check(true).phase == LoopbackPhase::Ended(WindowsCaptureRunResult::Stopped),
        run.after_wait(outcome).phase == LoopbackPhase::Asking,
        !run.after_wait(outcome).read_packet,
        run.after_size(Ok(Some(frames))).phase == LoopbackPhase::Reading(frames),
        run.after_size(Ok(Some(0))).phase == LoopbackPhase::Timing,
        run.after_size(Ok(None)).phase == LoopbackPhase::Timing,
        run.after_size(Err(error)).phase == LoopbackPhase::Failed,
        run.after_packet(packet, Ok((frames, silent))).phase == LoopbackPhase::Forwarding,
        run.after_packet(packet, Ok((frames, silent))).read_packet,
        run.after_packet(packet, Ok((frames, silent))).stats == pcm::stats_with_packet(
            run.stats,
            packet,
            frames,
            silent,
        ),
        run.after_packet(packet, Ok((frames, silent))).silent_windows == run.silent_windows,
        run.after_packet(packet, Ok((0, silent))).phase == LoopbackPhase::Timing,
        run.after_packet(packet, Ok((0, silent))).stats == run.stats,
        run.after_packet(packet, Err(error)).phase == LoopbackPhase::Failed,
        run.after_forwarding(true).phase == LoopbackPhase::Asking,
        run.after_forwarding(true).stats == run.stats,
        run.after_forwarding(true).read_packet == run.read_packet,
        run.after_forwarding(false).phase == LoopbackPhase::Ended(WindowsCaptureRunResult::Stopped),
{
}

/// A wait that ran out of time is counted, and one that ended otherwise is not.
pub proof fn timeouts_are_counted(run: LoopbackView, error: Seq<char>)
    requires
        run.stats.wait_timeouts < u64::MAX,
    ensures
        capture::is_timeout(error) ==> run.after_wait(Err(error)).stats.wait_timeouts
            == run.stats.wait_timeouts + 1,
        !capture::is_timeout(error) ==> run.after_wait(Err(error)).stats == run.stats,
        run.after_wait(Ok(())).stats == run.stats,
        run.after_wait(Err(error)).stats.samples_seen == run.stats.samples_seen,
        run.after_wait(Err(error)).stats.non_silent_samples == run.stats.non_silent_samples,
        run.after_wait(Err(error)).stats.peak == run.stats.peak,
{
}

/// Before a window is over its counts grow on and nothing is reported; once two seconds
/// are over, a round without a packet always ends it.
pub proof fn window_lasts_two_seconds(
    run: LoopbackView,
    elapsed_millis: u64,
    peak_text: Seq<char>,
    now: Seq<char>,
)
    requires
        run.stats.empty_packet_polls < u64::MAX,
    ensures
        elapsed_millis < 2_000 ==> run.window(elapsed_millis, peak_text, now) is None,
        elapsed_millis >= 2_000 && !run.read_packet ==> run.window(elapsed_millis, peak_text, now)
            is Some,
        elapsed_millis >= 2_000 && run.stats.samples_seen > 0 ==> run.window(
            elapsed_millis,
            peak_text,
            now,
        ) is Some,
        run.window(elapsed_millis, peak_text, now) is None ==> {
            let after = run.after_round(elapsed_millis);
            &&& after.phase == LoopbackPhase::Checking
            &&& after.stats == run.round_stats()
            &&& after.silent_windows == run.silent_windows
        },
{
}

/// A window is silent where samples were read and none was sound. It reports the
/// process as heard otherwise, with all that was counted, counts towards giving up where
/// it is silent, warns with the fifth in a row and gives up with the eighth.
pub proof fn window_reports_what_was_heard(
    run: LoopbackView,
    elapsed_millis: u64,
    peak_text: Seq<char>,
    now: Seq<char>,
)
    requires
        run.inv(),
        run.phase == LoopbackPhase::Timing,
        run.window(elapsed_millis, peak_text, now) is Some,
    ensures
        ({
            let report = run.window(elapsed_millis, peak_text, now)->Some_0;
            let silent = run.stats.samples_seen > 0 && run.stats.non_silent_samples == 0;
            let pid = number::decimal(run.target_pid as nat);
            &&& report.stats == run.round_stats()
            &&& report.status.target_pid == Some(run.target_pid)
            &&& report.status.peak == run.stats.peak
            &&& report.status.updated_at == now
            &&& report.status.candidate_count == 1
            &&& silent ==> report.status.audible_count == 0 && report.silent_windows
                == run.silent_windows + 1
            &&& !silent ==> report.status.audible_count == 1 && report.silent_windows == 0
            &&& report.warn <==> report.silent_windows == 5
            &&& run.after_round(elapsed_millis).silent_windows == report.silent_windows
            &&& run.after_round(elapsed_millis).phase == LoopbackPhase::Ended(
                WindowsCaptureRunResult::Rescan,
            ) <==> report.silent_windows == 8
            &&& text::occurs(report.status.message, run.target)
            &&& text::occurs(report.status.message, pid)
        }),
{
    let report = run.window(elapsed_millis, peak_text, now)->Some_0;
    let pid = number::decimal(run.target_pid as nat);
    warnings_are_spaced_out(run.windows_after());
    let message = report.status.message;
    if is_silent(run.round_stats()) {
        let rest =
            " is attached but currently silent. Bardic Chord will rescan if playback moved to another process."@;
        assert(message =~= "`"@ + run.target + ("` pid "@ + pid + rest));
        text::part_occurs("`"@, run.target, "` pid "@ + pid + rest);
        assert(message =~= ("`"@ + run.target + "` pid "@) + pid + rest);
        text::part_occurs("`"@ + run.target + "` pid "@, pid, rest);
    } else {
        let rest = ". Peak "@ + peak_text + "."@;
        assert(message =~= "Capturing `"@ + run.target + ("` from pid "@ + pid + rest));
        text::part_occurs("Capturing `"@, run.target, "` from pid "@ + pid + rest);
        assert(message =~= ("Capturing `"@ + run.target + "` from pid "@) + pid + rest);
        text::part_occurs("Capturing `"@ + run.target + "` from pid "@, pid, rest);
    }
}

/// A warning is due with the fifth silent window and with every fifteenth one.
pub proof fn warnings_are_spaced_out(windows: int)
    requires
        windows >= 0,
    ensures
        windows < 5 ==> !warns_after(windows),
        warns_after(5),
        5 < windows < 15 ==> !warns_after(windows),
        warns_after(15),
        windows >= 15 ==> (warns_after(windows) <==> warns_after(windows + 15)),
{
    let cycle = WINDOWS_SILENCE_WARN_WINDOWS * 3;
    assert(cycle == 15);
    if 5 < windows < 15 {
        assert(windows % 15 == windows);
    }
    assert((windows + 15) % 15 == windows % 15);
}

} // verus!
