use bardic_chord::audio::{
    audio_output_instructions, audio_stop_outcome, build_audio_output_report,
    idle_audio_output_report, refresh_audio_output_report, stopped_audio_output_report,
    AudioRuntimeFacts, WindowsRuntimeFacts,
};
use bardic_chord::capture::WindowsCaptureStatus;
use bardic_chord::command::CommandOutcome;
use bardic_chord::platform::Platform;
use bardic_chord::preparation::{record_failure, AudioPreparation, PreparePhase};
use bardic_chord::pulse::{
    load_module_args, null_sink_module, pulse_property_value, record_args, unload_failure,
    PulseClient, PulseList, PulseSink, PulseSinkInput,
};
use bardic_chord::routing::{RoutePhase, RouteRun, TargetRouteAttempt};
use bardic_chord::sessions::WindowsAudioSessionOption;
use bardic_chord::settings::Settings;
use bardic_chord::textmap::TextMap;

fn session() -> WindowsAudioSessionOption {
    WindowsAudioSessionOption {
        pid: 3,
        ..Default::default()
    }
}

#[test]
fn instructions_depend_on_state_and_platform() {
    let steps = audio_output_instructions(true, "out", "app", Platform::Linux);
    assert_eq!(steps[0], "Open your system sound settings and route `app` to `out`.");
    assert_eq!(steps[1], "Keep `app` playing through `out` while the party is live.");
    let steps = audio_output_instructions(false, "out", "app", Platform::Linux);
    assert_eq!(steps[1], "Route `app` to `out` in the system mixer.");
    let steps = audio_output_instructions(true, "out", "app", Platform::Windows);
    assert_eq!(steps[2], "Then start or restart the party to send `app` into Discord.");
    let steps = audio_output_instructions(false, "out", "app", Platform::Windows);
    assert_eq!(steps[0], "Open `app` before or after preparing audio.");
}

#[test]
fn reports_fall_back_on_the_usual_names() {
    let report = build_audio_output_report(
        false,
        None,
        None,
        Platform::MacOs,
        None,
        "message".into(),
        Some(vec![session()]),
    );
    assert_eq!(report.output_name.as_deref(), Some("Bardic_Chord"));
    assert_eq!(report.platform, "macOS");
    assert_eq!(report.instruction_steps[1], "Route `spotify` to `Bardic_Chord` in the system mixer.");
    assert!(report.capture_session_options.is_empty());
}

#[test]
fn sessions_are_offered_on_windows_alone() {
    let offered = |platform, found| {
        idle_audio_output_report(platform, found).capture_session_options.len()
    };
    assert_eq!(offered(Platform::Windows, Some(vec![session()])), 1);
    assert_eq!(offered(Platform::Windows, None), 0);
    assert_eq!(offered(Platform::Linux, Some(vec![session()])), 0);
    let stopped = stopped_audio_output_report(Platform::Linux, None);
    assert!(stopped.message.starts_with("Desktop audio output is off."));
}

fn active(platform: Platform) -> bardic_chord::audio::AudioOutputReport {
    build_audio_output_report(
        true,
        Some("out".into()),
        Some("app".into()),
        platform,
        Some("then".into()),
        "running".into(),
        None,
    )
}

#[test]
fn a_linux_output_that_ends_is_reported() {
    let report = refresh_audio_output_report(
        active(Platform::Linux),
        &AudioRuntimeFacts::Linux,
        false,
        None,
        "log",
    );
    assert_eq!(report.message, "running");
    let report = refresh_audio_output_report(report, &AudioRuntimeFacts::Linux, true, None, "log");
    assert!(!report.active);
    assert_eq!(
        report.message,
        "The desktop audio output stopped unexpectedly. Check `log` and prepare the output again."
    );
    assert_eq!(report.output_name.as_deref(), Some("out"));
    assert_eq!(report.started_at.as_deref(), Some("then"));
    assert_eq!(report.instruction_steps[1], "Route `spotify` to `out` in the system mixer.");
    let again = refresh_audio_output_report(report.clone(), &AudioRuntimeFacts::Linux, true, None, "x");
    assert_eq!(format!("{again:?}"), format!("{report:?}"));
}

fn facts(last_error: Option<&str>, target_pid: Option<u32>) -> AudioRuntimeFacts {
    AudioRuntimeFacts::Windows(WindowsRuntimeFacts {
        capture_target: "app".into(),
        status: Some(WindowsCaptureStatus {
            message: "Capturing".into(),
            target_pid,
            candidate_count: 3,
            audible_count: 1,
            peak: 0,
            updated_at: "noon".into(),
        }),
        peak_text: "0.250".into(),
        last_error: last_error.map(String::from),
        target_pid,
    })
}

#[test]
fn a_windows_capture_shows_its_status() {
    let report = refresh_audio_output_report(
        active(Platform::Windows),
        &facts(None, Some(7)),
        false,
        Some(vec![session()]),
        "log",
    );
    assert_eq!(
        report.message,
        "Capturing\nProbe updated: noon\nActive PID: pid 7\nCandidates: 3; audible: 1; peak: 0.250"
    );
    assert_eq!(report.capture_session_options.len(), 1);
    let report =
        refresh_audio_output_report(active(Platform::Windows), &facts(None, None), false, None, "log");
    assert!(report.message.contains("Active PID: none\n"));
}

#[test]
fn a_windows_capture_that_ends_is_reported() {
    let end = |last_error, pid| {
        refresh_audio_output_report(active(Platform::Windows), &facts(last_error, pid), true, None, "log")
            .message
    };
    assert_eq!(
        end(Some("boom."), Some(7)),
        "Windows loopback capture for `app` (pid 7) stopped: boom. Check `log` and prepare the output again."
    );
    assert_eq!(
        end(None, None),
        "Windows loopback capture for `app` (no active pid) stopped unexpectedly. Check `log` and prepare the output again."
    );
}

#[test]
fn switching_off_may_fail() {
    assert_eq!(audio_stop_outcome(None, true), Ok(()));
    assert_eq!(audio_stop_outcome(Some("unload".into()), true), Err("unload".into()));
    assert_eq!(
        audio_stop_outcome(None, false),
        Err("Timed out while shutting down the desktop audio capture task.".into())
    );
}

fn settings() -> Settings {
    Settings {
        audio_output_name: " My Output ".into(),
        capture_target: " app ".into(),
        capture_target_pid: 12,
        ..Default::default()
    }
}

#[test]
fn an_output_is_prepared_on_linux() {
    let mut preparation = AudioPreparation::new(&settings(), Platform::Linux);
    assert_eq!(preparation.output_name(), "My_Output");
    assert_eq!(preparation.sink_name(), "my_output");
    assert_eq!(preparation.capture_target(), "app");
    assert_eq!(preparation.relay_stopped(Ok(())), None);
    assert_eq!(preparation.audio_stopped(Ok(())), None);
    assert_eq!(preparation.phase(), PreparePhase::StartingOutput);
    assert_eq!(preparation.started(Ok(())), None);
    assert_eq!(preparation.phase(), PreparePhase::Routing);
    preparation.routed(Some(TargetRouteAttempt {
        detected_inputs: 1,
        moved_inputs: 1,
        already_on_target: 0,
    }));
    let report = preparation.report("now", None);
    assert!(report.active);
    assert_eq!(report.started_at.as_deref(), Some("now"));
    assert_eq!(
        report.message,
        "Desktop audio output is ready on Linux. `app` was detected and moved into `My_Output` automatically."
    );
}

#[test]
fn an_output_is_prepared_though_the_target_stays_away() {
    let mut preparation = AudioPreparation::new(&settings(), Platform::Linux);
    preparation.relay_stopped(Ok(()));
    preparation.audio_stopped(Ok(()));
    preparation.started(Ok(()));
    preparation.routed(None);
    assert_eq!(
        preparation.report("now", None).message,
        "Desktop audio output is ready on Linux. If `app` does not jump over automatically, move it to `My_Output` from your sound settings and then start the party."
    );
}

#[test]
fn a_watcher_is_started_on_windows() {
    let mut preparation = AudioPreparation::new(&settings(), Platform::Windows);
    assert_eq!(preparation.preferred_pid(), Some(12));
    preparation.relay_stopped(Ok(()));
    preparation.audio_stopped(Ok(()));
    assert_eq!(preparation.phase(), PreparePhase::StartingWatcher);
    preparation.started(Ok(()));
    assert_eq!(preparation.phase(), PreparePhase::Ready);
    let report = preparation.report("now", Some(vec![session()]));
    assert!(report.message.starts_with("Windows capture is watching for `app`. Start playback"));
    assert_eq!(report.capture_session_options.len(), 1);
}

#[test]
fn every_step_of_a_preparation_may_fail() {
    let begin = |platform| AudioPreparation::new(&settings(), platform);
    let mut first = begin(Platform::Linux);
    assert_eq!(first.relay_stopped(Err("a".into())).as_deref(), Some("a"));
    assert_eq!(first.phase(), PreparePhase::Failed);
    let mut second = begin(Platform::Linux);
    second.relay_stopped(Ok(()));
    assert_eq!(second.audio_stopped(Err("b".into())).as_deref(), Some("b"));
    let mut third = begin(Platform::Windows);
    third.relay_stopped(Ok(()));
    third.audio_stopped(Ok(()));
    assert_eq!(third.started(Err("c".into())).as_deref(), Some("c"));
    let mut fourth = begin(Platform::MacOs);
    fourth.relay_stopped(Ok(()));
    assert_eq!(
        fourth.audio_stopped(Ok(())).as_deref(),
        Some("Desktop audio output preparation is not implemented on macOS yet. The next backend should use the same guided flow but with a native loopback capture path.")
    );
    assert_eq!(
        record_failure("gone"),
        "failed to start Linux desktop audio capture with parec: gone"
    );
}

#[test]
fn commands_have_their_arguments() {
    assert_eq!(
        load_module_args("my_sink", "Bard's Output"),
        [
            "load-module",
            "module-null-sink",
            "sink_name=my_sink",
            "format=s16le",
            "channels=2",
            "rate=48000",
            "sink_properties=device.description='Bard\\'s Output' node.nick='Bard\\'s Output'"
        ]
    );
    assert_eq!(
        record_args("my_sink"),
        ["--device=my_sink.monitor", "--format=s16le", "--channels=2", "--rate=48000", "--raw"]
    );
}

#[test]
fn modules_are_loaded_and_unloaded() {
    assert_eq!(null_sink_module(CommandOutcome::Done(" 536 \n".into())), Ok("536".into()));
    assert_eq!(
        null_sink_module(CommandOutcome::Done("\n".into())),
        Err("Bardic Chord created the Linux desktop output, but `pactl` did not return a module id.".into())
    );
    assert_eq!(
        null_sink_module(CommandOutcome::Failed(" no ".into())),
        Err("Bardic Chord could not create the Linux desktop output. `pactl load-module` failed: no".into())
    );
    assert_eq!(
        null_sink_module(CommandOutcome::NotRun("missing".into())),
        Err("failed to run pactl load-module: missing".into())
    );
    assert_eq!(unload_failure(CommandOutcome::Done(String::new()), "5"), None);
    assert_eq!(
        unload_failure(CommandOutcome::Failed(" busy\n".into()), "5").as_deref(),
        Some("Bardic Chord could not unload the Linux desktop output module `5`: busy")
    );
    assert_eq!(
        unload_failure(CommandOutcome::NotRun("missing".into()), "5").as_deref(),
        Some("failed to run pactl unload-module: missing")
    );
}

#[test]
fn lists_fail_with_their_arguments() {
    let shown = format!("{:?}", ["--format=json", "list", "sink-inputs"]);
    let list = PulseList::SinkInputs;
    assert_eq!(list.name(), "sink-inputs");
    assert_eq!(list.failure(&CommandOutcome::Done(String::new())), None);
    assert_eq!(
        list.failure(&CommandOutcome::NotRun("missing".into())),
        Some(format!("failed to run pactl {shown}: missing"))
    );
    assert_eq!(
        list.failure(&CommandOutcome::Failed(" no ".into())),
        Some(format!("pactl {shown} failed: no"))
    );
    assert_eq!(
        list.parse_failure("eof"),
        format!("failed to parse pactl {shown} JSON output: eof")
    );
    assert_eq!(PulseList::Sinks.name(), "sinks");
    assert_eq!(PulseList::Clients.name(), "clients");
}

fn properties(pairs: &[(&str, &str)]) -> TextMap<String> {
    let mut map = TextMap::new();
    for (key, value) in pairs {
        map.insert(key.to_string(), value.to_string());
    }
    map
}

fn input(index: u32, name: &str, sink: Option<u32>, client: Option<&str>) -> PulseSinkInput {
    PulseSinkInput {
        index,
        client: client.map(String::from),
        sink,
        properties: properties(&[("application.name", name)]),
    }
}

#[test]
fn blank_properties_say_nothing() {
    let map = properties(&[("a", "  x "), ("b", "  ")]);
    assert_eq!(pulse_property_value(&map, "a"), Some("x"));
    assert_eq!(pulse_property_value(&map, "b"), None);
    assert_eq!(pulse_property_value(&map, "c"), None);
}

fn listed() -> RouteRun {
    let mut run = RouteRun::new("my_sink", "Out", "spotify");
    assert_eq!(run.phase(), RoutePhase::Listing(PulseList::Sinks));
    let sinks = vec![
        PulseSink { index: 1, name: "other".into() },
        PulseSink { index: 4, name: "my_sink".into() },
    ];
    assert_eq!(run.sinks(Ok(sinks)), None);
    assert_eq!(run.phase(), RoutePhase::Listing(PulseList::Clients));
    let clients = vec![PulseClient {
        index: 9,
        properties: properties(&[("application.process.binary", "spotify")]),
    }];
    assert_eq!(run.clients(Ok(clients)), None);
    run
}

#[test]
fn streams_elsewhere_are_moved() {
    let mut run = listed();
    let inputs = vec![
        input(11, "Firefox", Some(1), None),
        input(12, "Spotify", Some(4), None),
        input(13, "Spotify", Some(1), None),
        input(14, " ", None, Some("9")),
        input(15, "Firefox", None, Some("8")),
    ];
    assert_eq!(run.inputs(Ok(inputs)), None);
    assert_eq!(run.phase(), RoutePhase::Moving(13));
    assert_eq!(run.moved(CommandOutcome::Done(String::new())), None);
    assert_eq!(run.phase(), RoutePhase::Moving(14));
    assert_eq!(run.moved(CommandOutcome::Done(String::new())), None);
    assert_eq!(run.phase(), RoutePhase::Done);
    let attempt = run.attempt();
    assert_eq!(
        (attempt.detected_inputs, attempt.moved_inputs, attempt.already_on_target),
        (3, 2, 1)
    );
    assert_eq!(
        attempt.summary("Out", "spotify"),
        "`spotify` was detected and moved into `Out` automatically."
    );
}

#[test]
fn attempts_are_summed_up() {
    let mut run = listed();
    run.inputs(Ok(vec![input(12, "Spotify", Some(4), None)]));
    assert_eq!(run.phase(), RoutePhase::Done);
    assert_eq!(
        run.attempt().summary("Out", "spotify"),
        "`spotify` is already routed into `Out`."
    );
    assert_eq!(
        TargetRouteAttempt::default().summary("Out", "spotify"),
        "`spotify` was not detected yet. Start playback in that app, then Bardic Chord will try again when the party starts."
    );
}

#[test]
fn every_step_of_the_routing_may_fail() {
    let mut run = RouteRun::new("my_sink", "Out", "spotify");
    assert_eq!(
        run.sinks(Ok(vec![])).as_deref(),
        Some("Target app routing could not find the `Out` sink after it was created.")
    );
    assert_eq!(run.phase(), RoutePhase::Failed);
    let mut run = RouteRun::new("my_sink", "Out", "spotify");
    assert_eq!(run.sinks(Err("a".into())).as_deref(), Some("a"));
    let mut run = RouteRun::new("my_sink", "Out", "spotify");
    run.sinks(Ok(vec![PulseSink { index: 4, name: "my_sink".into() }]));
    assert_eq!(run.clients(Err("b".into())).as_deref(), Some("b"));
    let mut run = listed();
    assert_eq!(run.inputs(Err("c".into())).as_deref(), Some("c"));
    let moving = || {
        let mut run = listed();
        run.inputs(Ok(vec![input(13, "Spotify", None, None)]));
        run
    };
    assert_eq!(
        moving().moved(CommandOutcome::NotRun("missing".into())).as_deref(),
        Some("failed to move `spotify` stream `13` into `Out`: missing")
    );
    assert_eq!(
        moving().moved(CommandOutcome::Failed(" no such entity ".into())).as_deref(),
        Some("pactl could not move `spotify` stream `13` into `Out`: no such entity")
    );
}
