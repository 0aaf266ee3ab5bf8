//! Preparing the desktop audio output.
//!
//! [`AudioPreparation`] says what to do and takes what came of it.
use crate::audio;
use crate::audio::{AudioOutputReport, AudioReportView, build_audio_output_report};
use crate::names;
use crate::names::{
    audio_output_name_or_default, capture_target_or_default, sanitize_audio_output_name,
};
use crate::platform::{Platform, platform_name};
use crate::routing;
use crate::routing::{AttemptView, TargetRouteAttempt};
use crate::sessions::{SessionView, WindowsAudioSessionOption};
use crate::settings::{Settings, SettingsView};
use crate::text;
use vstd::prelude::*;

verus! {

/// What is done next.
#[derive(Clone, Copy, Debug, PartialEq, Eq, Structural)]
pub enum PreparePhase {
    /// Stop the relay.
    StoppingRelay,
    /// Switch the output off.
    StoppingAudio,
    /// Add the output to the sound server and record from it.
    StartingOutput,
    /// Move the target into the output.
    Routing,
    /// Watch for the target.
    StartingWatcher,
    /// Report.
    Ready,
    /// Nothing: something failed.
    Failed,
}

/// The preparation of an output, under way.
#[derive(Debug)]
pub struct AudioPreparation {
    platform: Platform,
    output_name: String,
    sink_name: String,
    capture_target: String,
    preferred: Option<u32>,
    phase: PreparePhase,
    attempt: Option<TargetRouteAttempt>,
}

#[verifier::ext_equal]
pub struct PreparationView {
    pub platform: Platform,
    pub output_name: Seq<char>,
    /// The name under which the sound server knows the output.
    pub sink_name: Seq<char>,
    pub capture_target: Seq<char>,
    /// The process that the user picked.
    pub preferred: Option<u32>,
    pub phase: PreparePhase,
    /// What came of moving the target, where that did not fail.
    pub attempt: Option<AttemptView>,
}

impl View for AudioPreparation {
    type V = PreparationView;

    closed spec fn view(&self) -> PreparationView {
        PreparationView {
            platform: self.platform,
            output_name: self.output_name@,
            sink_name: self.sink_name@,
            capture_target: self.capture_target@,
            preferred: self.preferred,
            phase: self.phase,
            attempt: match self.attempt {
                Some(attempt) => Some(attempt@),
                None => None,
            },
        }
    }
}

/// What is said where the output cannot be prepared on the platform.
pub open spec fn unsupported_message(platform: Platform) -> Seq<char> {
    "Desktop audio output preparation is not implemented on "@ + platform.name()
        + " yet. The next backend should use the same guided flow but with a native loopback capture path."@
}

/// The preparation before its first step.
pub open spec fn first_preparation(s: SettingsView, platform: Platform) -> PreparationView {
    let output_name = names::output_name(s.audio_output_name);
    PreparationView {
        platform,
        output_name,
        sink_name: names::sink_name(output_name),
        capture_target: names::capture_target(s.capture_target),
        preferred: if s.capture_target_pid != 0 {
            Some(s.capture_target_pid)
        } else {
            None
        },
        phase: PreparePhase::StoppingRelay,
        attempt: None,
    }
}

impl PreparationView {
    pub open spec fn at(self, phase: PreparePhase) -> PreparationView {
        PreparationView { phase, ..self }
    }

    pub open spec fn after_relay(self, stopped: bool) -> PreparationView {
        if stopped {
            self.at(PreparePhase::StoppingAudio)
        } else {
            self.at(PreparePhase::Failed)
        }
    }

    pub open spec fn after_audio(self, stopped: bool) -> PreparationView {
        if !stopped {
            self.at(PreparePhase::Failed)
        } else {
            match self.platform {
                Platform::Linux => self.at(PreparePhase::StartingOutput),
                Platform::Windows => self.at(PreparePhase::StartingWatcher),
                _ => self.at(PreparePhase::Failed),
            }
        }
    }

    pub open spec fn after_start(self, started: bool) -> PreparationView {
        if !started {
            self.at(PreparePhase::Failed)
        } else if self.phase == PreparePhase::StartingOutput {
            self.at(PreparePhase::Routing)
        } else {
            self.at(PreparePhase::Ready)
        }
    }

    pub open spec fn after_routing(self, attempt: Option<AttemptView>) -> PreparationView {
        PreparationView { phase: PreparePhase::Ready, attempt, ..self }
    }

    /// What the user is told once the output is ready.
    pub open spec fn ready_message(self) -> Seq<char> {
        if self.platform == Platform::Windows {
            "Windows capture is watching for `"@ + self.capture_target
                + "`. Start playback whenever you are ready; Bardic Chord will probe matching app processes and attach to the one producing audio."@
        } else {
            match self.attempt {
                Some(attempt) => "Desktop audio output is ready on Linux. "@
                    + routing::attempt_summary(attempt, self.output_name, self.capture_target),
                None => "Desktop audio output is ready on Linux. If `"@ + self.capture_target
                    + "` does not jump over automatically, move it to `"@ + self.output_name
                    + "` from your sound settings and then start the party."@,
            }
        }
    }

    /// The report once the output is ready.
    pub open spec fn ready_report(self, now: Seq<char>, found: Option<Seq<SessionView>>) -> AudioReportView {
        audio::audio_report(
            true,
            Some(self.output_name),
            Some(self.capture_target),
            self.platform,
            Some(now),
            self.ready_message(),
            found,
        )
    }
}

/// The error of an outcome.
pub open spec fn failure_of(outcome: Result<(), String>) -> Option<Seq<char>> {
    match outcome {
        Ok(_) => None,
        Err(error) => Some(error@),
    }
}

impl AudioPreparation {
    pub fn new(settings: &Settings, platform: Platform) -> (r: AudioPreparation)
        ensures
            r@ == first_preparation(settings@, platform),
    {
        let output_name = audio_output_name_or_default(settings.audio_output_name.as_str());
        AudioPreparation {
            platform,
            sink_name: sanitize_audio_output_name(output_name.as_str()),
            output_name,
            capture_target: capture_target_or_default(settings.capture_target.as_str()),
            preferred: if settings.capture_target_pid != 0 {
                Some(settings.capture_target_pid)
            } else {
                None
            },
            phase: PreparePhase::StoppingRelay,
            attempt: None,
        }
    }

    /// What is done next.
    pub fn phase(&self) -> (r: PreparePhase)
        ensures
            r == self@.phase,
    {
        self.phase
    }

    pub fn output_name(&self) -> (r: &str)
        ensures
            r@ == self@.output_name,
    {
        self.output_name.as_str()
    }

    pub fn sink_name(&self) -> (r: &str)
        ensures
            r@ == self@.sink_name,
    {
        self.sink_name.as_str()
    }

    pub fn capture_target(&self) -> (r: &str)
        ensures
            r@ == self@.capture_target,
    {
        self.capture_target.as_str()
    }

    pub fn preferred_pid(&self) -> (r: Option<u32>)
        ensures
            r == self@.preferred,
    {
        self.preferred
    }

    /// The relay was stopped. Gives the failure that is handed in.
    pub fn relay_stopped(&mut self, outcome: Result<(), String>) -> (r: Option<String>)
        requires
            old(self)@.phase == PreparePhase::StoppingRelay,
        ensures
            final(self)@ == old(self)@.after_relay(outcome is Ok),
            text::opt(r) == failure_of(outcome),
    {
        match outcome {
            Ok(_) => {
                self.phase = PreparePhase::StoppingAudio;
                None
            },
            Err(error) => {
                self.phase = PreparePhase::Failed;
                Some(error)
            },
        }
    }

    /// The output was switched off. Gives the failure that is handed in, or the
    /// message where the platform has no output.
    pub fn audio_stopped(&mut self, outcome: Result<(), String>) -> (r: Option<String>)
        requires
            old(self)@.phase == PreparePhase::StoppingAudio,
        ensures
            final(self)@ == old(self)@.after_audio(outcome is Ok),
            text::opt(r) == match outcome {
                Ok(_) => if old(self)@.platform.captures() {
                    None
                } else {
                    Some(unsupported_message(old(self)@.platform))
                },
                Err(error) => Some(error@),
            },
    {
        match outcome {
            Ok(_) => match self.platform {
                Platform::Linux => {
                    self.phase = PreparePhase::StartingOutput;
                    None
                },
                Platform::Windows => {
                    self.phase = PreparePhase::StartingWatcher;
                    None
                },
                _ => {
                    self.phase = PreparePhase::Failed;
                    Some(
                        "Desktop audio output preparation is not implemented on ".to_owned().concat(
                            platform_name(self.platform),
                        ).concat(
                            " yet. The next backend should use the same guided flow but with a native loopback capture path.",
                        ),
                    )
                },
            },
            Err(error) => {
                self.phase = PreparePhase::Failed;
                Some(error)
            },
        }
    }

    /// The output or the watcher was started. Gives the failure that is handed in.
    pub fn started(&mut self, outcome: Result<(), String>) -> (r: Option<String>)
        requires
            old(self)@.phase == PreparePhase::StartingOutput || old(self)@.phase
                == PreparePhase::StartingWatcher,
        ensures
            final(self)@ == old(self)@.after_start(outcome is Ok),
            text::opt(r) == failure_of(outcome),
    {
        match outcome {
            Ok(_) => {
                self.phase = match self.phase {
                    PreparePhase::StartingOutput => PreparePhase::Routing,
                    _ => PreparePhase::Ready,
                };
                None
            },
            Err(error) => {
                self.phase = PreparePhase::Failed;
                Some(error)
            },
        }
    }

    /// The target was moved, as far as that did not fail.
    pub fn routed(&mut self, attempt: Option<TargetRouteAttempt>)
        requires
            old(self)@.phase == PreparePhase::Routing,
        ensures
            final(self)@ == old(self)@.after_routing(
                match attempt {
                    Some(attempt) => Some(attempt@),
                    None => None,
                },
            ),
    {
        self.attempt = attempt;
        self.phase = PreparePhase::Ready;
    }

    /// The report once the output is ready.
    pub fn report(self, now: &str, found: Option<Vec<WindowsAudioSessionOption>>) -> (r:
        AudioOutputReport)
        requires
            self@.phase == PreparePhase::Ready,
        ensures
            r@ == self@.ready_report(now@, audio::found_views(found)),
    {
        let message = if self.platform.is_windows() {
            "Windows capture is watching for `".to_owned().concat(
                self.capture_target.as_str(),
            ).concat(
                "`. Start playback whenever you are ready; Bardic Chord will probe matching app processes and attach to the one producing audio.",
            )
        } else {
            match &self.attempt {
                Some(attempt) => "Desktop audio output is ready on Linux. ".to_owned().concat(
                    attempt.summary(
                        self.output_name.as_str(),
                        self.capture_target.as_str(),
                    ).as_str(),
                ),
                None => "Desktop audio output is ready on Linux. If `".to_owned().concat(
                    self.capture_target.as_str(),
                ).concat("` does not jump over automatically, move it to `").concat(
                    self.output_name.as_str(),
                ).concat("` from your sound settings and then start the party."),
            }
        };
        build_audio_output_report(
            true,
            Some(self.output_name),
            Some(self.capture_target),
            self.platform,
            Some(now.to_owned()),
            message,
            found,
        )
    }
}

/// What is said where the recording of the output could not be started.
pub fn record_failure(error: &str) -> (r: String)
    ensures
        r@ == "failed to start Linux desktop audio capture with parec: "@ + error@,
{
    "failed to start Linux desktop audio capture with parec: ".to_owned().concat(error)
}

/// What is said where the recording gives nothing to read.
pub const NO_RECORDING_PIPE: &'static str =
    "parec did not expose a stdout pipe for desktop audio capture.";

// ---------------------------------------------------------------------------
// Laws
// ---------------------------------------------------------------------------

/// What happens at each step of a preparation.
pub ghost struct PrepareEvents {
    pub relay_stopped: bool,
    pub audio_stopped: bool,
    pub started: bool,
    pub attempt: Option<AttemptView>,
}

/// The next state of a preparation.
pub open spec fn next_preparation(p: PreparationView, events: PrepareEvents) -> PreparationView {
    match p.phase {
        PreparePhase::StoppingRelay => p.after_relay(events.relay_stopped),
        PreparePhase::StoppingAudio => p.after_audio(events.audio_stopped),
        PreparePhase::StartingOutput => p.after_start(events.started),
        PreparePhase::StartingWatcher => p.after_start(events.started),
        PreparePhase::Routing => p.after_routing(events.attempt),
        PreparePhase::Ready => p,
        PreparePhase::Failed => p,
    }
}

pub open spec fn preparation_after(p: PreparationView, events: PrepareEvents, steps: nat) -> PreparationView
    decreases steps,
{
    if steps == 0 {
        p
    } else {
        preparation_after(next_preparation(p, events), events, (steps - 1) as nat)
    }
}

/// After four steps a preparation is over. It is ready exactly where the relay and
/// the output were stopped, the platform has an output and that was started;
/// whether the target could be moved makes no difference.
pub proof fn preparation_ends(s: SettingsView, platform: Platform, events: PrepareEvents)
    ensures
        ({
            let end = preparation_after(first_preparation(s, platform), events, 4);
            &&& end.phase == PreparePhase::Ready || end.phase == PreparePhase::Failed
            &&& end.phase == PreparePhase::Ready <==> events.relay_stopped && events.audio_stopped
                && platform.captures() && events.started
            &&& end.phase == PreparePhase::Ready && platform == Platform::Linux ==> end.attempt
                == events.attempt
        }),
{
    reveal_with_fuel(preparation_after, 5);
}

/// A prepared output is active, has the name and the start that it was given, and
/// tells the user what to do next.
pub proof fn prepared_output_is_active(
    p: PreparationView,
    now: Seq<char>,
    found: Option<Seq<SessionView>>,
)
    ensures
        p.ready_report(now, found).active,
        p.ready_report(now, found).output_name == Some(p.output_name),
        p.ready_report(now, found).started_at == Some(now),
        p.ready_report(now, found).instruction_steps == audio::audio_steps(
            true,
            p.output_name,
            p.capture_target,
            p.platform,
        ),
{
}

/// A preparation takes its names and the picked process from the settings, and keeps
/// them up to its end.
pub proof fn preparation_takes_its_names(
    s: SettingsView,
    platform: Platform,
    events: PrepareEvents,
    steps: nat,
)
    ensures
        ({
            let p = preparation_after(first_preparation(s, platform), events, steps);
            &&& p.platform == platform
            &&& !text::blank(s.capture_target) ==> p.capture_target == text::trimmed(
                s.capture_target,
            )
            &&& s.audio_output_name.len() > 0 && text::CharClass::NotSpace.has_all(
                s.audio_output_name,
            ) ==> p.output_name == s.audio_output_name && p.sink_name == names::sink_name(
                s.audio_output_name,
            )
            &&& s.capture_target_pid != 0 ==> p.preferred == Some(s.capture_target_pid)
            &&& s.capture_target_pid == 0 ==> p.preferred is None
        }),
{
    let word = s.audio_output_name;
    if word.len() > 0 && text::CharClass::NotSpace.has_all(word) {
        let none = Seq::<char>::empty();
        names::output_name_joins_words(none, seq![word], ' ', none);
        assert(none + text::join(seq![word], seq![' ']) + none =~= word);
    }
    lemma_plan_stays(first_preparation(s, platform), events, steps);
}

proof fn lemma_plan_stays(p: PreparationView, events: PrepareEvents, steps: nat)
    ensures
        ({
            let later = preparation_after(p, events, steps);
            &&& later.platform == p.platform
            &&& later.output_name == p.output_name
            &&& later.sink_name == p.sink_name
            &&& later.capture_target == p.capture_target
            &&& later.preferred == p.preferred
        }),
    decreases steps,
{
    if steps > 0 {
        lemma_plan_stays(next_preparation(p, events), events, (steps - 1) as nat);
    }
}

/// Once relay and output are stopped, Linux adds an output and moves the target into
/// it, Windows watches for the target, and any other platform fails.
pub proof fn platform_decides_the_way(p: PreparationView)
    ensures
        p.platform == Platform::Linux ==> p.after_audio(true).phase == PreparePhase::StartingOutput
            && p.after_audio(true).after_start(true).phase == PreparePhase::Routing,
        p.platform == Platform::Windows ==> p.after_audio(true).phase
            == PreparePhase::StartingWatcher && p.after_audio(true).after_start(true).phase
            == PreparePhase::Ready,
        p.platform == Platform::MacOs || p.platform == Platform::Other ==> p.after_audio(true).phase
            == PreparePhase::Failed,
        p.after_relay(false).phase == PreparePhase::Failed,
        p.after_audio(false).phase == PreparePhase::Failed,
        p.after_start(false).phase == PreparePhase::Failed,
{
}

/// What the user is told names the target, and on Linux the output: as moved where
/// streams were moved, and as there already where they were.
pub proof fn ready_message_names_the_target(p: PreparationView)
    ensures
        text::occurs(p.ready_message(), p.capture_target),
        p.platform != Platform::Windows && p.attempt is Some && p.attempt->Some_0.moved > 0
            ==> text::occurs(
            p.ready_message(),
            p.capture_target + "` was detected and moved into `"@ + p.output_name,
        ),
        p.platform != Platform::Windows && p.attempt is Some && p.attempt->Some_0.moved == 0
            && p.attempt->Some_0.already > 0 ==> text::occurs(
            p.ready_message(),
            p.capture_target + "` is already routed into `"@ + p.output_name,
        ),
{
    let message = p.ready_message();
    if p.platform == Platform::Windows {
        text::part_occurs(
            "Windows capture is watching for `"@,
            p.capture_target,
            "`. Start playback whenever you are ready; Bardic Chord will probe matching app processes and attach to the one producing audio."@,
        );
    } else {
        match p.attempt {
            Some(attempt) => {
                let front = "Desktop audio output is ready on Linux. "@ + "`"@;
                if attempt.moved > 0 {
                    let part = p.capture_target + "` was detected and moved into `"@
                        + p.output_name;
                    let rest = "` automatically."@;
                    assert(message =~= front + part + rest);
                    text::part_occurs(front, part, rest);
                    let behind = "` was detected and moved into `"@ + p.output_name + rest;
                    assert(message =~= front + p.capture_target + behind);
                    text::part_occurs(front, p.capture_target, behind);
                } else if attempt.already > 0 {
                    let part = p.capture_target + "` is already routed into `"@ + p.output_name;
                    assert(message =~= front + part + "`."@);
                    text::part_occurs(front, part, "`."@);
                    let behind = "` is already routed into `"@ + p.output_name + "`."@;
                    assert(message =~= front + p.capture_target + behind);
                    text::part_occurs(front, p.capture_target, behind);
                } else {
                    let behind =
                        "` was not detected yet. Start playback in that app, then Bardic Chord will try again when the party starts."@;
                    assert(message =~= front + p.capture_target + behind);
                    text::part_occurs(front, p.capture_target, behind);
                }
            },
            None => {
                let front = "Desktop audio output is ready on Linux. If `"@;
                let behind = "` does not jump over automatically, move it to `"@ + p.output_name
                    + "` from your sound settings and then start the party."@;
                assert(message =~= front + p.capture_target + behind);
                text::part_occurs(front, p.capture_target, behind);
            },
        }
    }
}

} // verus!
