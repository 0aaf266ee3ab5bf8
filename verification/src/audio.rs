//! The desktop audio output: what the user sees of it, and how it is prepared.
use crate::capture::{StatusView, WindowsCaptureStatus};
use crate::names::{DEFAULT_AUDIO_OUTPUT_NAME, DEFAULT_CAPTURE_TARGET};
use crate::number;
use crate::number::{to_decimal, usize_to_decimal};
use crate::platform::{Platform, default_audio_idle_message, platform_name};
use crate::sessions;
use crate::sessions::{SessionView, WindowsAudioSessionOption, clone_sessions};
use crate::text;
use crate::text::{clone_opt, clone_texts, text_or};
use vstd::prelude::*;

verus! {

/// How long a task may take to end once it was told to.
pub const STOP_TIMEOUT_SECS: u64 = 5;

/// What the user sees of the desktop audio output.
#[derive(Debug)]
pub struct AudioOutputReport {
    pub active: bool,
    pub output_name: Option<String>,
    pub platform: String,
    pub started_at: Option<String>,
    pub message: String,
    pub instruction_steps: Vec<String>,
    pub capture_session_options: Vec<WindowsAudioSessionOption>,
}

#[verifier::ext_equal]
pub struct AudioReportView {
    pub active: bool,
    pub output_name: Option<Seq<char>>,
    pub platform: Seq<char>,
    pub started_at: Option<Seq<char>>,
    pub message: Seq<char>,
    pub instruction_steps: Seq<Seq<char>>,
    pub capture_session_options: Seq<SessionView>,
}

impl View for AudioOutputReport {
    type V = AudioReportView;

    open spec fn view(&self) -> AudioReportView {
        AudioReportView {
            active: self.active,
            output_name: text::opt(self.output_name),
            platform: self.platform@,
            started_at: text::opt(self.started_at),
            message: self.message@,
            instruction_steps: text::texts(self.instruction_steps@),
            capture_session_options: sessions::session_views(self.capture_session_options@),
        }
    }
}

impl Clone for AudioOutputReport {
    fn clone(&self) -> (r: AudioOutputReport)
        ensures
            r@ == self@,
    {
        AudioOutputReport {
            active: self.active,
            output_name: clone_opt(&self.output_name),
            platform: self.platform.clone(),
            started_at: clone_opt(&self.started_at),
            message: self.message.clone(),
            instruction_steps: clone_texts(&self.instruction_steps),
            capture_session_options: clone_sessions(&self.capture_session_options),
        }
    }
}

/// What the user should do next.
pub open spec fn audio_steps(
    active: bool,
    output: Seq<char>,
    target: Seq<char>,
    platform: Platform,
) -> Seq<Seq<char>> {
    if platform == Platform::Windows {
        if active {
            seq![
                "Keep `"@ + target
                    + "` open when you want music, but playback can start later."@,
                "Bardic Chord keeps probing matching Windows processes and attaches to the one producing audio."@,
                "Then start or restart the party to send `"@ + target + "` into Discord."@,
            ]
        } else {
            seq![
                "Open `"@ + target + "` before or after preparing audio."@,
                "Press Prepare Audio Output so Bardic Chord starts its Windows loopback watcher."@,
                "Then start the party to send `"@ + target + "` into Discord."@,
            ]
        }
    } else if active {
        seq![
            "Open your system sound settings and route `"@ + target + "` to `"@ + output + "`."@,
            "Keep `"@ + target + "` playing through `"@ + output + "` while the party is live."@,
            "If the output disappears, prepare it again from Bardic Chord."@,
        ]
    } else {
        seq![
            "Press Prepare Audio Output from Bardic Chord."@,
            "Route `"@ + target + "` to `"@ + output + "` in the system mixer."@,
            "Then start the party to send that local audio into Discord."@,
        ]
    }
}

/// What the user should do next.
pub fn audio_output_instructions(
    active: bool,
    output_name: &str,
    capture_target: &str,
    platform: Platform,
) -> (r: Vec<String>)
    ensures
        text::texts(r@) == audio_steps(active, output_name@, capture_target@, platform),
{
    let r = if platform.is_windows() {
        if active {
            vec![
                "Keep `".to_owned().concat(capture_target).concat(
                    "` open when you want music, but playback can start later.",
                ),
                "Bardic Chord keeps probing matching Windows processes and attaches to the one producing audio.".to_owned(),
                "Then start or restart the party to send `".to_owned().concat(
                    capture_target,
                ).concat("` into Discord."),
            ]
        } else {
            vec![
                "Open `".to_owned().concat(capture_target).concat(
                    "` before or after preparing audio.",
                ),
                "Press Prepare Audio Output so Bardic Chord starts its Windows loopback watcher.".to_owned(),
                "Then start the party to send `".to_owned().concat(capture_target).concat(
                    "` into Discord.",
                ),
            ]
        }
    } else if active {
        vec![
            "Open your system sound settings and route `".to_owned().concat(capture_target).concat(
                "` to `",
            ).concat(output_name).concat("`."),
            "Keep `".to_owned().concat(capture_target).concat("` playing through `").concat(
                output_name,
            ).concat("` while the party is live."),
            "If the output disappears, prepare it again from Bardic Chord.".to_owned(),
        ]
    } else {
        vec![
            "Press Prepare Audio Output from Bardic Chord.".to_owned(),
            "Route `".to_owned().concat(capture_target).concat("` to `").concat(
                output_name,
            ).concat("` in the system mixer."),
            "Then start the party to send that local audio into Discord.".to_owned(),
        ]
    };
    assert(text::texts(r@) =~= audio_steps(active, output_name@, capture_target@, platform));
    r
}

/// The sessions that a report offers: those that were found on Windows, and none
/// where they could not be read or on another platform.
pub open spec fn offered_sessions(platform: Platform, found: Option<Seq<SessionView>>) -> Seq<
    SessionView,
> {
    match found {
        Some(sessions) if platform == Platform::Windows => sessions,
        _ => Seq::empty(),
    }
}

/// The views of the sessions that were found.
pub open spec fn found_views(found: Option<Vec<WindowsAudioSessionOption>>) -> Option<
    Seq<SessionView>,
> {
    match found {
        Some(found) => Some(sessions::session_views(found@)),
        None => None,
    }
}

pub fn windows_audio_session_options_for_report(
    platform: Platform,
    found: Option<Vec<WindowsAudioSessionOption>>,
) -> (r: Vec<WindowsAudioSessionOption>)
    ensures
        sessions::session_views(r@) == offered_sessions(platform, found_views(found)),
{
    let none: Vec<WindowsAudioSessionOption> = Vec::new();
    assert(sessions::session_views(none@) =~= Seq::<SessionView>::empty());
    match found {
        Some(found) => if platform.is_windows() {
            found
        } else {
            none
        },
        None => none,
    }
}

/// The report on an output.
pub open spec fn audio_report(
    active: bool,
    output_name: Option<Seq<char>>,
    capture_target: Option<Seq<char>>,
    platform: Platform,
    started_at: Option<Seq<char>>,
    message: Seq<char>,
    found: Option<Seq<SessionView>>,
) -> AudioReportView {
    let output = text::opt_or(output_name, DEFAULT_AUDIO_OUTPUT_NAME@);
    AudioReportView {
        active,
        output_name: Some(output),
        platform: platform.name(),
        started_at,
        message,
        instruction_steps: audio_steps(
            active,
            output,
            text::opt_or(capture_target, DEFAULT_CAPTURE_TARGET@),
            platform,
        ),
        capture_session_options: offered_sessions(platform, found),
    }
}

/// The report on an output.
pub fn build_audio_output_report(
    active: bool,
    output_name: Option<String>,
    capture_target: Option<String>,
    platform: Platform,
    started_at: Option<String>,
    message: String,
    found: Option<Vec<WindowsAudioSessionOption>>,
) -> (r: AudioOutputReport)
    ensures
        r@ == audio_report(
            active,
            text::opt(output_name),
            text::opt(capture_target),
            platform,
            text::opt(started_at),
            message@,
            found_views(found),
        ),
{
    let output = text_or(&output_name, DEFAULT_AUDIO_OUTPUT_NAME);
    let target = text_or(&capture_target, DEFAULT_CAPTURE_TARGET);
    let instruction_steps = audio_output_instructions(
        active,
        output.as_str(),
        target.as_str(),
        platform,
    );
    AudioOutputReport {
        active,
        output_name: Some(output),
        platform: platform_name(platform).to_owned(),
        started_at,
        message,
        instruction_steps,
        capture_session_options: windows_audio_session_options_for_report(platform, found),
    }
}

// ---------------------------------------------------------------------------
// Status
// ---------------------------------------------------------------------------

/// What is known of a running output.
#[derive(Debug)]
pub enum AudioRuntimeFacts {
    Linux,
    Windows(WindowsRuntimeFacts),
}

/// What is known of a running capture on Windows. A part is missing where it could
/// not be read.
#[derive(Debug)]
pub struct WindowsRuntimeFacts {
    pub capture_target: String,
    pub status: Option<WindowsCaptureStatus>,
    /// How the peak of the status is shown.
    pub peak_text: String,
    pub last_error: Option<String>,
    pub target_pid: Option<u32>,
}

#[verifier::ext_equal]
pub struct WindowsFactsView {
    pub capture_target: Seq<char>,
    pub status: Option<StatusView>,
    pub peak_text: Seq<char>,
    pub last_error: Option<Seq<char>>,
    pub target_pid: Option<u32>,
}

impl View for WindowsRuntimeFacts {
    type V = WindowsFactsView;

    open spec fn view(&self) -> WindowsFactsView {
        WindowsFactsView {
            capture_target: self.capture_target@,
            status: match self.status {
                Some(status) => Some(status@),
                None => None,
            },
            peak_text: self.peak_text@,
            last_error: text::opt(self.last_error),
            target_pid: self.target_pid,
        }
    }
}

/// A process, or the words for none.
pub open spec fn pid_text(pid: Option<u32>, none: Seq<char>) -> Seq<char> {
    match pid {
        Some(pid) => "pid "@ + number::decimal(pid as nat),
        None => none,
    }
}

fn describe_pid(pid: Option<u32>, none: &str) -> (r: String)
    ensures
        r@ == pid_text(pid, none@),
{
    match pid {
        Some(pid) => "pid ".to_owned().concat(to_decimal(pid as u64).as_str()),
        None => none.to_owned(),
    }
}

/// The message of a running capture.
pub open spec fn probe_message(status: StatusView, peak_text: Seq<char>) -> Seq<char> {
    status.message + "\nProbe updated: "@ + status.updated_at + "\nActive PID: "@ + pid_text(
        status.target_pid,
        "none"@,
    ) + "\nCandidates: "@ + number::decimal(status.candidate_count) + "; audible: "@
        + number::decimal(status.audible_count) + "; peak: "@ + peak_text
}

fn describe_probe(status: &WindowsCaptureStatus, peak_text: &str) -> (r: String)
    ensures
        r@ == probe_message(status@, peak_text@),
{
    status.message.clone().concat("\nProbe updated: ").concat(status.updated_at.as_str()).concat(
        "\nActive PID: ",
    ).concat(describe_pid(status.target_pid, "none").as_str()).concat("\nCandidates: ").concat(
        usize_to_decimal(status.candidate_count).as_str(),
    ).concat("; audible: ").concat(usize_to_decimal(status.audible_count).as_str()).concat(
        "; peak: ",
    ).concat(peak_text)
}

/// The message of a capture on Windows that has ended by itself.
pub open spec fn windows_stop_message(facts: WindowsFactsView, log_path: Seq<char>) -> Seq<char> {
    let start = "Windows loopback capture for `"@ + facts.capture_target + "` ("@ + pid_text(
        facts.target_pid,
        "no active pid"@,
    );
    match facts.last_error {
        Some(detail) => start + ") stopped: "@ + detail + " Check `"@ + log_path
            + "` and prepare the output again."@,
        None => start + ") stopped unexpectedly. Check `"@ + log_path
            + "` and prepare the output again."@,
    }
}

fn describe_windows_stop(facts: &WindowsRuntimeFacts, log_path: &str) -> (r: String)
    ensures
        r@ == windows_stop_message(facts@, log_path@),
{
    let start = "Windows loopback capture for `".to_owned().concat(
        facts.capture_target.as_str(),
    ).concat("` (").concat(describe_pid(facts.target_pid, "no active pid").as_str());
    match &facts.last_error {
        Some(detail) => start.concat(") stopped: ").concat(detail.as_str()).concat(
            " Check `",
        ).concat(log_path).concat("` and prepare the output again."),
        None => start.concat(") stopped unexpectedly. Check `").concat(log_path).concat(
            "` and prepare the output again.",
        ),
    }
}

/// The message of a capture on Linux that has ended by itself.
pub open spec fn linux_stop_message(log_path: Seq<char>) -> Seq<char> {
    "The desktop audio output stopped unexpectedly. Check `"@ + log_path
        + "` and prepare the output again."@
}

pub ghost enum FactsView {
    Linux,
    Windows(WindowsFactsView),
}

impl View for AudioRuntimeFacts {
    type V = FactsView;

    open spec fn view(&self) -> FactsView {
        match *self {
            AudioRuntimeFacts::Linux => FactsView::Linux,
            AudioRuntimeFacts::Windows(facts) => FactsView::Windows(facts@),
        }
    }
}

/// The report on a running output with what is known now: on Windows with the
/// sessions and the status of the capture, and anywhere as stopped once the task
/// that captures has ended.
pub open spec fn current_report(
    report: AudioReportView,
    facts: FactsView,
    finished: bool,
    found: Option<Seq<SessionView>>,
    log_path: Seq<char>,
) -> AudioReportView {
    match facts {
        FactsView::Linux => if finished && report.active {
            audio_report(
                false,
                report.output_name,
                Some(DEFAULT_CAPTURE_TARGET@),
                Platform::Linux,
                report.started_at,
                linux_stop_message(log_path),
                found,
            )
        } else {
            report
        },
        FactsView::Windows(windows) => if !report.active {
            report
        } else if finished {
            audio_report(
                false,
                report.output_name,
                Some(windows.capture_target),
                Platform::Windows,
                report.started_at,
                windows_stop_message(windows, log_path),
                found,
            )
        } else {
            AudioReportView {
                capture_session_options: offered_sessions(Platform::Windows, found),
                message: match windows.status {
                    Some(status) => probe_message(status, windows.peak_text),
                    None => report.message,
                },
                ..report
            }
        },
    }
}

/// The report on a running output with what is known now.
pub fn refresh_audio_output_report(
    report: AudioOutputReport,
    facts: &AudioRuntimeFacts,
    finished: bool,
    found: Option<Vec<WindowsAudioSessionOption>>,
    log_path: &str,
) -> (r: AudioOutputReport)
    ensures
        r@ == current_report(report@, facts@, finished, found_views(found), log_path@),
{
    if !report.active {
        return report;
    }
    match facts {
        AudioRuntimeFacts::Linux => if finished {
            build_audio_output_report(
                false,
                report.output_name,
                Some(DEFAULT_CAPTURE_TARGET.to_owned()),
                Platform::Linux,
                report.started_at,
                "The desktop audio output stopped unexpectedly. Check `".to_owned().concat(
                    log_path,
                ).concat("` and prepare the output again."),
                found,
            )
        } else {
            report
        },
        AudioRuntimeFacts::Windows(windows) => if finished {
            build_audio_output_report(
                false,
                report.output_name,
                Some(windows.capture_target.clone()),
                Platform::Windows,
                report.started_at,
                describe_windows_stop(windows, log_path),
                found,
            )
        } else {
            let message = match &windows.status {
                Some(status) => describe_probe(status, windows.peak_text.as_str()),
                None => report.message,
            };
            AudioOutputReport {
                active: report.active,
                output_name: report.output_name,
                platform: report.platform,
                started_at: report.started_at,
                message,
                instruction_steps: report.instruction_steps,
                capture_session_options: windows_audio_session_options_for_report(
                    Platform::Windows,
                    found,
                ),
            }
        },
    }
}

/// The report while no output is prepared.
pub fn idle_audio_output_report(
    platform: Platform,
    found: Option<Vec<WindowsAudioSessionOption>>,
) -> (r: AudioOutputReport)
    ensures
        r@ == audio_report(
            false,
            Some(DEFAULT_AUDIO_OUTPUT_NAME@),
            Some(DEFAULT_CAPTURE_TARGET@),
            platform,
            None,
            platform.idle_message(),
            found_views(found),
        ),
{
    build_audio_output_report(
        false,
        Some(DEFAULT_AUDIO_OUTPUT_NAME.to_owned()),
        Some(DEFAULT_CAPTURE_TARGET.to_owned()),
        platform,
        None,
        default_audio_idle_message(platform).to_owned(),
        found,
    )
}

/// The report once the output was switched off.
pub fn stopped_audio_output_report(
    platform: Platform,
    found: Option<Vec<WindowsAudioSessionOption>>,
) -> (r: AudioOutputReport)
    ensures
        r@ == audio_report(
            false,
            Some(DEFAULT_AUDIO_OUTPUT_NAME@),
            Some(DEFAULT_CAPTURE_TARGET@),
            platform,
            None,
            "Desktop audio output is off. Prepare it again when you want Bardic Chord back in the sound routing list."@,
            found_views(found),
        ),
{
    build_audio_output_report(
        false,
        Some(DEFAULT_AUDIO_OUTPUT_NAME.to_owned()),
        Some(DEFAULT_CAPTURE_TARGET.to_owned()),
        platform,
        None,
        "Desktop audio output is off. Prepare it again when you want Bardic Chord back in the sound routing list.".to_owned(),
        found,
    )
}

/// What came of switching the output off: the failure to take it away comes first,
/// then the task that did not end in time.
pub fn audio_stop_outcome(unload_failure: Option<String>, ended_in_time: bool) -> (r: Result<
    (),
    String,
>)
    ensures
        match r {
            Ok(_) => unload_failure is None && ended_in_time,
            Err(message) => match unload_failure {
                Some(failure) => message == failure,
                None => !ended_in_time && message@
                    == "Timed out while shutting down the desktop audio capture task."@,
            },
        },
{
    match unload_failure {
        Some(failure) => Err(failure),
        None => if ended_in_time {
            Ok(())
        } else {
            Err("Timed out while shutting down the desktop audio capture task.".to_owned())
        },
    }
}

// ---------------------------------------------------------------------------
// Laws
// ---------------------------------------------------------------------------

/// A report says what it was made of; a missing name is the usual one, and sessions
/// are offered on Windows alone.
pub proof fn report_says_what_it_was_made_of(
    active: bool,
    output_name: Option<Seq<char>>,
    capture_target: Option<Seq<char>>,
    platform: Platform,
    started_at: Option<Seq<char>>,
    message: Seq<char>,
    found: Option<Seq<SessionView>>,
)
    ensures
        ({
            let r = audio_report(
                active,
                output_name,
                capture_target,
                platform,
                started_at,
                message,
                found,
            );
            &&& r.active == active
            &&& output_name is Some ==> r.output_name == output_name
            &&& output_name is None ==> r.output_name == Some("Bardic_Chord"@)
            &&& r.platform == platform.name()
            &&& r.started_at == started_at
            &&& r.message == message
            &&& r.instruction_steps.len() == 3
            &&& platform == Platform::Windows && found is Some ==> r.capture_session_options
                == found->Some_0
            &&& platform != Platform::Windows || found is None ==> r.capture_session_options.len()
                == 0
        }),
{
}

/// The steps name the target, and where an output is routed to they name that too, in
/// this order.
pub proof fn steps_name_target_and_output(
    active: bool,
    output: Seq<char>,
    target: Seq<char>,
    platform: Platform,
)
    ensures
        ({
            let steps = audio_steps(active, output, target, platform);
            &&& steps.len() == 3
            &&& platform == Platform::Windows ==> text::occurs(steps[0], target) && text::occurs(
                steps[2],
                target,
            )
            &&& platform != Platform::Windows && active ==> text::occurs(
                steps[0],
                target + "` to `"@ + output,
            ) && text::occurs(steps[1], target + "` playing through `"@ + output)
            &&& platform != Platform::Windows && !active ==> text::occurs(
                steps[1],
                target + "` to `"@ + output,
            )
        }),
{
    let steps = audio_steps(active, output, target, platform);
    if platform == Platform::Windows {
        if active {
            text::part_occurs(
                "Keep `"@,
                target,
                "` open when you want music, but playback can start later."@,
            );
            text::part_occurs(
                "Then start or restart the party to send `"@,
                target,
                "` into Discord."@,
            );
        } else {
            text::part_occurs("Open `"@, target, "` before or after preparing audio."@);
            text::part_occurs("Then start the party to send `"@, target, "` into Discord."@);
        }
    } else if active {
        let front = "Open your system sound settings and route `"@;
        let both = target + "` to `"@ + output;
        assert(steps[0] =~= front + both + "`."@);
        text::part_occurs(front, both, "`."@);
        let kept = target + "` playing through `"@ + output;
        assert(steps[1] =~= "Keep `"@ + kept + "` while the party is live."@);
        text::part_occurs("Keep `"@, kept, "` while the party is live."@);
    } else {
        let both = target + "` to `"@ + output;
        assert(steps[1] =~= "Route `"@ + both + "` in the system mixer."@);
        text::part_occurs("Route `"@, both, "` in the system mixer."@);
    }
}

/// An output that is off stays as it was reported, and one that runs on Linux too.
pub proof fn quiet_output_is_reported_as_before(
    report: AudioReportView,
    facts: FactsView,
    finished: bool,
    found: Option<Seq<SessionView>>,
    log_path: Seq<char>,
)
    ensures
        !report.active ==> current_report(report, facts, finished, found, log_path) == report,
        facts is Linux && !finished ==> current_report(report, facts, finished, found, log_path)
            == report,
{
}

/// Once the task that captures has ended, the output is off, under the name and with
/// the start that it had, and the message points to the log.
pub proof fn ended_capture_is_reported(
    report: AudioReportView,
    facts: FactsView,
    found: Option<Seq<SessionView>>,
    log_path: Seq<char>,
)
    requires
        report.active,
        report.output_name is Some,
    ensures
        ({
            let after = current_report(report, facts, true, found, log_path);
            &&& !after.active
            &&& after.output_name == report.output_name
            &&& after.started_at == report.started_at
            &&& text::occurs(after.message, log_path + "` and prepare the output again."@)
            &&& facts is Windows && found is Some ==> after.capture_session_options
                == found->Some_0
            &&& facts is Linux ==> after.capture_session_options.len() == 0
        }),
{
    let message = current_report(report, facts, true, found, log_path).message;
    let place = log_path + "` and prepare the output again."@;
    let none = Seq::<char>::empty();
    let front = match facts {
        FactsView::Linux => "The desktop audio output stopped unexpectedly. Check `"@,
        FactsView::Windows(windows) => match windows.last_error {
            Some(error) => "Windows loopback capture for `"@ + windows.capture_target + "` ("@
                + pid_text(windows.target_pid, "no active pid"@) + ") stopped: "@ + error
                + " Check `"@,
            None => "Windows loopback capture for `"@ + windows.capture_target + "` ("@ + pid_text(
                windows.target_pid,
                "no active pid"@,
            ) + ") stopped unexpectedly. Check `"@,
        },
    };
    assert(message =~= front + place + none);
    text::part_occurs(front, place, none);
}

/// The message of a capture that has ended on Windows names the target, its process
/// and the error.
pub proof fn ended_windows_capture_is_named(windows: WindowsFactsView, log_path: Seq<char>)
    ensures
        text::occurs(
            windows_stop_message(windows, log_path),
            "Windows loopback capture for `"@ + windows.capture_target + "` ("@,
        ),
        windows.target_pid is Some ==> text::occurs(
            windows_stop_message(windows, log_path),
            "` ("@ + ("pid "@ + number::decimal(windows.target_pid->Some_0 as nat)),
        ),
        windows.last_error is Some ==> text::occurs(
            windows_stop_message(windows, log_path),
            ") stopped: "@ + windows.last_error->Some_0,
        ),
{
    let message = windows_stop_message(windows, log_path);
    let start = "Windows loopback capture for `"@ + windows.capture_target;
    let who = start + "` ("@;
    let pid = pid_text(windows.target_pid, "no active pid"@);
    let none = Seq::<char>::empty();
    let end = match windows.last_error {
        Some(error) => ") stopped: "@ + error + " Check `"@ + log_path
            + "` and prepare the output again."@,
        None => ") stopped unexpectedly. Check `"@ + log_path + "` and prepare the output again."@,
    };
    assert(message =~= none + who + (pid + end));
    text::part_occurs(none, who, pid + end);
    assert(message =~= start + ("` ("@ + pid) + end);
    text::part_occurs(start, "` ("@ + pid, end);
    if windows.last_error is Some {
        let said = ") stopped: "@ + windows.last_error->Some_0;
        let rest = " Check `"@ + log_path + "` and prepare the output again."@;
        assert(message =~= (who + pid) + said + rest);
        text::part_occurs(who + pid, said, rest);
    }
}

/// A capture that runs on Windows stays on, as it was prepared, and shows the sessions
/// and the status of the moment: the process, the candidates and those heard.
pub proof fn running_capture_is_reported(
    report: AudioReportView,
    windows: WindowsFactsView,
    found: Option<Seq<SessionView>>,
    log_path: Seq<char>,
)
    requires
        report.active,
    ensures
        ({
            let after = current_report(
                report,
                FactsView::Windows(windows),
                false,
                found,
                log_path,
            );
            &&& after.active
            &&& after.output_name == report.output_name
            &&& after.platform == report.platform
            &&& after.started_at == report.started_at
            &&& after.instruction_steps == report.instruction_steps
            &&& found is Some ==> after.capture_session_options == found->Some_0
            &&& found is None ==> after.capture_session_options.len() == 0
            &&& windows.status is None ==> after.message == report.message
            &&& windows.status is Some ==> {
                let status = windows.status->Some_0;
                &&& after.message.take(status.message.len() as int) == status.message
                &&& status.target_pid is Some ==> text::occurs(
                    after.message,
                    "\nActive PID: "@ + ("pid "@ + number::decimal(
                        status.target_pid->Some_0 as nat,
                    )) + "\nCandidates: "@,
                )
                &&& text::occurs(
                    after.message,
                    "\nCandidates: "@ + number::decimal(status.candidate_count) + "; audible: "@
                        + number::decimal(status.audible_count) + "; peak: "@ + windows.peak_text,
                )
            }
        }),
{
    if windows.status is Some {
        let status = windows.status->Some_0;
        let message = probe_message(status, windows.peak_text);
        let front = status.message + "\nProbe updated: "@ + status.updated_at;
        let pid = pid_text(status.target_pid, "none"@);
        let counts = number::decimal(status.candidate_count) + "; audible: "@ + number::decimal(
            status.audible_count,
        ) + "; peak: "@ + windows.peak_text;
        let first = "\nActive PID: "@ + pid + "\nCandidates: "@;
        let second = "\nCandidates: "@ + number::decimal(status.candidate_count) + "; audible: "@
            + number::decimal(status.audible_count) + "; peak: "@ + windows.peak_text;
        let none = Seq::<char>::empty();
        assert(message.take(status.message.len() as int) =~= status.message);
        assert(message =~= front + first + counts);
        text::part_occurs(front, first, counts);
        assert(message =~= (front + ("\nActive PID: "@ + pid)) + second + none);
        text::part_occurs(front + ("\nActive PID: "@ + pid), second, none);
    }
}

} // verus!
