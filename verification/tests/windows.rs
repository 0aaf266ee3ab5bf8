use bardic_chord::capture::{packet_bytes, wait_timed_out, OpenStep, WindowsCaptureStatus};
use bardic_chord::command::CommandOutcome;
use bardic_chord::loopback::{LoopbackPhase, LoopbackRun, WindowsCaptureRunResult};
use bardic_chord::monitor::{
    find_best_probe, plural_suffix, CaptureMonitor, MonitorPhase,
};
use bardic_chord::pcm::LoopbackStats;
use bardic_chord::probe::{ProbePhase, ProbeRun, WindowsProbeResult};
use bardic_chord::sessions::{
    list_sessions, windows_render_audio_sessions, RenderSession, SessionState,
    WindowsAudioSessionOption,
};
use bardic_chord::tasklist::{
    find_windows_process_candidate_by_pid, find_windows_target_process_candidates,
    parse_windows_process_map, parse_windows_tasklist_process_line, windows_process_map,
    WindowsProcessCandidate,
};
use std::collections::HashMap;

fn candidate(image_name: &str, pid: u32) -> WindowsProcessCandidate {
    WindowsProcessCandidate {
        image_name: image_name.into(),
        pid,
    }
}

fn packet(value: f32) -> Vec<u8> {
    let mut bytes = value.to_le_bytes().to_vec();
    bytes.extend_from_slice(&0.0_f32.to_le_bytes());
    bytes
}

#[test]
fn lines_of_the_process_list() {
    assert_eq!(
        parse_windows_tasklist_process_line("\"a b.exe\",\"12\",\"Console\""),
        Some(candidate("a b.exe", 12))
    );
    assert_eq!(
        parse_windows_tasklist_process_line("\"a.exe\",\"12\""),
        Some(candidate("a.exe", 12))
    );
    for line in ["", "   ", "a,12", "\"a.exe\",\"x\"", "\"a.exe\",\"4294967296\"", "INFO: none"] {
        assert_eq!(parse_windows_tasklist_process_line(line), None, "{line}");
    }
}

#[test]
fn the_process_map_keeps_the_last_image() {
    let stdout = "\"a.exe\",\"1\",\"x\"\r\n\r\n\"b.exe\",\"2\",\"x\"\r\n\"c.exe\",\"1\",\"x\"\r\n";
    let map = parse_windows_process_map(stdout);
    assert_eq!(map, HashMap::from([(1, "c.exe".to_string()), (2, "b.exe".to_string())]));
}

#[test]
fn a_process_list_that_cannot_be_had() {
    assert_eq!(
        find_windows_target_process_candidates(CommandOutcome::NotRun("x".into()), "app"),
        Err("failed to run tasklist while looking for `app`: x".into())
    );
    assert_eq!(
        find_windows_target_process_candidates(CommandOutcome::Failed(" x ".into()), "app"),
        Err("tasklist failed while looking for `app`: x".into())
    );
    assert_eq!(
        find_windows_process_candidate_by_pid(CommandOutcome::NotRun("x".into()), 7),
        Err("failed to run tasklist while looking for pid 7: x".into())
    );
    assert_eq!(
        find_windows_process_candidate_by_pid(CommandOutcome::Failed("x".into()), 7),
        Err("tasklist failed while looking for pid 7: x".into())
    );
    assert_eq!(
        windows_process_map(CommandOutcome::Failed("x".into())),
        Err("tasklist failed while mapping audio sessions: x".into())
    );
    let stdout = || CommandOutcome::Done("\"App.exe\",\"7\"\n\"b.exe\",\"8\"".into());
    assert_eq!(
        find_windows_target_process_candidates(stdout(), " APP "),
        Ok(vec![candidate("App.exe", 7)])
    );
    assert_eq!(
        find_windows_process_candidate_by_pid(stdout(), 8),
        Ok(Some(candidate("b.exe", 8)))
    );
    assert_eq!(windows_process_map(stdout()).unwrap().len(), 2);
}

fn option(name: &str, pid: u32, audible: bool, peak: f32) -> WindowsAudioSessionOption {
    WindowsAudioSessionOption {
        pid,
        process_name: name.into(),
        audible,
        peak: peak.to_bits(),
        ..Default::default()
    }
}

#[test]
fn sessions_are_listed_as_the_standard_sort_lists_them() {
    let found = || {
        vec![
            option("b", 1, false, 0.5),
            option("a", 2, true, 0.1),
            option("x", 0, true, 1.0),
            option("a", 3, true, 0.1),
            option("A", 4, true, 0.1),
            option("c", 5, true, f32::NAN),
            option("d", 6, false, -0.0),
            option("d", 7, false, 0.0),
            option("d", 8, false, -1.0),
            option("", 9, true, 0.1),
            option("ab", 10, true, 0.1),
        ]
    };
    let mut expected = found().into_iter().filter(|s| s.pid != 0).collect::<Vec<_>>();
    expected.sort_by(|left, right| {
        right
            .audible
            .cmp(&left.audible)
            .then_with(|| f32::from_bits(right.peak).total_cmp(&f32::from_bits(left.peak)))
            .then_with(|| left.process_name.cmp(&right.process_name))
    });
    let pids = |sessions: Vec<WindowsAudioSessionOption>| {
        sessions.iter().map(|s| s.pid).collect::<Vec<_>>()
    };
    assert_eq!(pids(list_sessions(found())), pids(expected));
}

fn render(pid: u32, state: SessionState, peak: f32, muted: bool, display: &str) -> RenderSession {
    RenderSession {
        pid,
        state,
        display_name: display.into(),
        peak: peak.to_bits(),
        volume: 0.5_f32.to_bits(),
        muted,
        peak_text: format!("{peak:.3}"),
        volume_text: "50".into(),
    }
}

#[test]
fn sessions_are_described() {
    let processes = HashMap::from([(7, "App.exe".to_string())]);
    let found = vec![
        render(7, SessionState::Active, 0.0005, false, ""),
        render(8, SessionState::Active, 0.9, true, " Radio "),
        render(9, SessionState::Inactive, 0.9, false, " "),
        render(0, SessionState::Active, 0.9, false, "System"),
    ];
    let listed = windows_render_audio_sessions(found, &processes);
    let labels = listed.iter().map(|s| s.label.as_str()).collect::<Vec<_>>();
    assert_eq!(
        labels,
        [
            "App.exe pid 7 | active | peak 0.001 | vol 50%",
            "Radio pid 8 | active | peak 0.900 | vol 50% | muted",
            "Unknown session pid 9 | inactive | peak 0.900 | vol 50%",
        ]
    );
    assert!(listed[0].audible);
    assert!(!listed[1].audible);
    assert!(!listed[2].audible);
    assert_eq!(listed[0].process_name, "App.exe");
    assert_eq!(listed[1].state, "active");
    assert_eq!(SessionState::Expired.name(), "expired");
    assert_eq!(SessionState::Unknown.name(), "unknown");
}

#[test]
fn timeouts_are_told_from_failures() {
    assert!(wait_timed_out("Event TIMEOUT reached"));
    assert!(!wait_timed_out("time out"));
    assert_eq!(packet_bytes(u32::MAX), u32::MAX as u64 * 8);
    assert_eq!(plural_suffix(1), "");
    assert_eq!(plural_suffix(0), "es");
    assert_eq!(plural_suffix(2), "es");
}

fn listening_probe() -> ProbeRun {
    let mut run = ProbeRun::new(candidate("App.exe", 7), "app");
    assert_eq!(run.phase(), ProbePhase::Starting);
    run.start(false);
    for step in [
        OpenStep::Apartment,
        OpenStep::Client,
        OpenStep::Initialize,
        OpenStep::Event,
        OpenStep::Capture,
        OpenStep::Start,
    ] {
        assert_eq!(run.phase(), ProbePhase::Opening(step));
        run.opened(Ok(()));
    }
    assert_eq!(run.phase(), ProbePhase::Checking);
    run
}

#[test]
fn a_probe_hears_a_process() {
    let mut run = listening_probe();
    assert_eq!(run.pid(), 7);
    assert!(run.has_room(1));
    run.checked(0, false);
    run.waited(Err("timeout".into()));
    run.sized(Ok(Some(1)));
    assert_eq!(run.phase(), ProbePhase::Reading(1));
    run.packet(&packet(0.25), Ok((1, false)));
    run.sized(Ok(Some(1)));
    run.packet(&packet(0.9), Ok((1, true)));
    run.sized(Ok(None));
    assert_eq!(run.phase(), ProbePhase::Checking);
    run.checked(1_199, false);
    run.waited(Ok(()));
    run.sized(Ok(Some(3)));
    run.packet(&[], Ok((0, false)));
    run.checked(1_200, false);
    assert_eq!(run.phase(), ProbePhase::Done(true));
    let result = run.into_result();
    assert!(result.audible());
    assert_eq!(result.error, None);
    assert_eq!(result.stats.samples_seen, 2);
    assert_eq!(result.stats.wait_timeouts, 1);
    assert_eq!(f32::from_bits(result.stats.peak), 0.25);
}

#[test]
fn a_probe_ends_early() {
    let mut run = ProbeRun::new(candidate("App.exe", 7), "app");
    run.start(true);
    assert_eq!(run.phase(), ProbePhase::Done(false));
    assert!(!run.into_result().audible());
    let mut run = listening_probe();
    run.checked(0, true);
    assert_eq!(run.phase(), ProbePhase::Done(true));
}

#[test]
fn every_step_of_a_probe_may_fail() {
    let messages = [
        "failed to initialize Windows audio COM apartment: x",
        "failed to create loopback probe for `app` pid 7: x",
        "failed to initialize loopback probe for `app` pid 7: x",
        "failed to create loopback probe event for `app` pid 7: x",
        "failed to open loopback probe client for `app` pid 7: x",
        "failed to start loopback probe for `app` pid 7: x",
    ];
    for (steps, message) in messages.into_iter().enumerate() {
        let mut run = ProbeRun::new(candidate("App.exe", 7), "app");
        run.start(false);
        for _ in 0..steps {
            run.opened(Ok(()));
        }
        run.opened(Err("x".into()));
        assert_eq!(run.phase(), ProbePhase::Done(false));
        assert_eq!(run.into_result().error.as_deref(), Some(message));
    }
    let failed = |act: fn(&mut ProbeRun)| {
        let mut run = listening_probe();
        run.checked(0, false);
        act(&mut run);
        assert_eq!(run.phase(), ProbePhase::Done(true));
        run.into_result().error.unwrap()
    };
    assert_eq!(
        failed(|run| run.waited(Err("x".into()))),
        "loopback probe wait failed for `app` pid 7: x"
    );
    assert_eq!(
        failed(|run| {
            run.waited(Ok(()));
            run.sized(Err("x".into()));
        }),
        "loopback probe packet query failed for `app` pid 7: x"
    );
    assert_eq!(
        failed(|run| {
            run.waited(Ok(()));
            run.sized(Ok(Some(1)));
            run.packet(&[], Err("x".into()));
        }),
        "loopback probe read failed for `app` pid 7: x"
    );
}

fn capturing() -> LoopbackRun {
    let mut run = LoopbackRun::new(7, "app");
    for _ in 0..6 {
        assert_eq!(run.opened(Ok(())), None);
    }
    assert_eq!(run.phase(), LoopbackPhase::Checking);
    run
}

fn round(run: &mut LoopbackRun, value: f32) {
    run.checked(false);
    run.waited(Ok(()));
    run.sized(Ok(Some(1)));
    let frames = run.packet(&packet(value), Ok((1, false))).unwrap();
    assert_eq!(frames.len(), 1);
    run.forwarded(true);
    run.sized(Ok(Some(0)));
    assert_eq!(run.phase(), LoopbackPhase::Timing);
}

#[test]
fn a_capture_tells_what_it_hears() {
    let mut run = capturing();
    round(&mut run, 0.5);
    assert_eq!(f32::from_bits(run.peak()), 0.5);
    assert!(run.timed(1_999, "0.500", "noon").is_none());
    round(&mut run, 0.1);
    let report = run.timed(2_000, "0.500", "noon").unwrap();
    assert_eq!(report.status.message, "Capturing `app` from pid 7. Peak 0.500.");
    assert_eq!(report.status.target_pid, Some(7));
    assert_eq!((report.status.candidate_count, report.status.audible_count), (1, 1));
    assert_eq!(report.status.updated_at, "noon");
    assert_eq!(report.stats.samples_seen, 2);
    assert_eq!(run.peak(), 0);
}

#[test]
fn silence_leads_to_a_rescan() {
    let mut run = capturing();
    round(&mut run, 0.0);
    run.timed(2_000, "0.000", "noon").unwrap();
    round(&mut run, 0.5);
    assert_eq!(run.timed(2_000, "0.500", "noon").unwrap().silent_windows, 0);
    for window in 1..=8 {
        round(&mut run, 0.0);
        let report = run.timed(2_000, "0.000", "noon").unwrap();
        assert_eq!(report.silent_windows, window);
        assert_eq!(report.warn, window == 5);
        assert_eq!(
            report.status.message,
            "`app` pid 7 is attached but currently silent. Bardic Chord will rescan if playback moved to another process."
        );
        assert_eq!(report.status.audible_count, 0);
    }
    assert_eq!(run.phase(), LoopbackPhase::Ended(WindowsCaptureRunResult::Rescan));
}

#[test]
fn a_window_without_samples_is_not_silent() {
    let mut run = capturing();
    run.checked(false);
    run.waited(Err("Timeout".into()));
    run.sized(Ok(None));
    let report = run.timed(2_000, "0.000", "noon").unwrap();
    assert_eq!(report.stats.wait_timeouts, 1);
    assert_eq!(report.stats.empty_packet_polls, 1);
    assert_eq!(report.silent_windows, 0);
    assert_eq!(report.status.audible_count, 1);
    assert!(run.has_room(10));
}

#[test]
fn a_capture_is_stopped() {
    let mut run = capturing();
    run.checked(true);
    assert_eq!(run.phase(), LoopbackPhase::Ended(WindowsCaptureRunResult::Stopped));
    let mut run = capturing();
    run.checked(false);
    run.waited(Err("broken".into()));
    run.sized(Ok(Some(2)));
    assert_eq!(run.packet(&[], Ok((0, false))).unwrap().len(), 0);
    assert_eq!(run.phase(), LoopbackPhase::Timing);
    run.timed(0, "", "");
    run.checked(false);
    run.waited(Ok(()));
    run.sized(Ok(Some(1)));
    run.packet(&packet(0.1), Ok((1, false))).unwrap();
    run.forwarded(false);
    assert_eq!(run.phase(), LoopbackPhase::Ended(WindowsCaptureRunResult::Stopped));
}

#[test]
fn every_step_of_a_capture_may_fail() {
    let messages = [
        "failed to initialize Windows audio COM apartment: x",
        "failed to create a Windows loopback client for `app` pid 7: x",
        "failed to initialize the Windows loopback client: x",
        "failed to create the Windows loopback event handle: x",
        "failed to open the Windows loopback capture client: x",
        "failed to start the Windows loopback stream for `app`: x",
    ];
    for (steps, message) in messages.into_iter().enumerate() {
        let mut run = LoopbackRun::new(7, "app");
        for _ in 0..steps {
            run.opened(Ok(()));
        }
        assert_eq!(run.opened(Err("x".into())).as_deref(), Some(message));
        assert_eq!(run.phase(), LoopbackPhase::Failed);
    }
    let asking = || {
        let mut run = capturing();
        run.checked(false);
        run.waited(Ok(()));
        run
    };
    assert_eq!(
        asking().sized(Err("x".into())).as_deref(),
        Some("failed to query the Windows loopback packet size: x")
    );
    let mut run = asking();
    run.sized(Ok(Some(1)));
    assert_eq!(
        run.packet(&[], Err("x".into())),
        Err("failed to read a Windows loopback packet: x".into())
    );
}

fn heard(name: &str, pid: u32, samples: u64, loud: u64, peak: f32, error: Option<&str>) -> WindowsProbeResult {
    WindowsProbeResult {
        candidate: candidate(name, pid),
        stats: LoopbackStats {
            samples_seen: samples,
            non_silent_samples: loud,
            peak: peak.to_bits(),
            ..LoopbackStats::new()
        },
        error: error.map(String::from),
    }
}

#[test]
fn the_last_of_the_loudest_probes_is_best() {
    let results = vec![
        heard("a", 1, 9, 9, 0.5, None),
        heard("b", 2, 9, 9, 0.5, None),
        heard("c", 3, 9, 9, 0.9, Some("x")),
        heard("d", 4, 9, 9, 0.4, None),
        heard("e", 5, 9, 0, 0.0, None),
    ];
    assert_eq!(find_best_probe(&results), Some(1));
    assert_eq!(find_best_probe(&vec![]), None);
    assert_eq!(find_best_probe(&vec![heard("c", 3, 9, 9, 0.0005, None)]), None);
}

fn monitor(preferred: Option<u32>) -> CaptureMonitor {
    let monitor = CaptureMonitor::new("app", preferred, "log", "start");
    assert_eq!(monitor.phase(), MonitorPhase::Checking);
    monitor
}

fn probing(preferred: Option<u32>, found: Vec<WindowsProcessCandidate>) -> CaptureMonitor {
    let mut monitor = monitor(preferred);
    monitor.checked(false, "now");
    monitor.listed(Ok(found), "now");
    monitor
}

#[test]
fn a_monitor_starts_watching() {
    let status = monitor(None).status();
    assert_eq!(
        status.message,
        "Windows capture is watching for `app`. Open the app and start playback; Bardic Chord will attach automatically."
    );
    assert_eq!(status.updated_at, "start");
    assert_eq!(status.target_pid, None);
}

#[test]
fn a_monitor_is_switched_off() {
    let mut monitor = monitor(None);
    monitor.checked(true, "now");
    assert_eq!(monitor.phase(), MonitorPhase::Off);
    assert_eq!(monitor.status().message, "Windows capture for `app` is off.");
    assert_eq!(monitor.target_pid(), None);
}

#[test]
fn a_monitor_rests_where_nothing_is_found() {
    let mut monitor = probing(None, vec![]);
    assert_eq!(monitor.phase(), MonitorPhase::Resting);
    assert!(monitor.status().message.starts_with("Windows capture is watching for `app`."));
    monitor.rested();
    monitor.checked(false, "now");
    monitor.listed(Err(()), "later");
    assert_eq!(
        monitor.status().message,
        "Windows capture is still watching for `app`, but process discovery failed. Check `log` for details."
    );
    assert_eq!(monitor.phase(), MonitorPhase::Resting);
}

#[test]
fn the_picked_process_is_looked_for() {
    let mut monitor = probing(Some(9), vec![candidate("a", 1)]);
    assert_eq!(monitor.phase(), MonitorPhase::Finding(9));
    monitor.found(Some(candidate("b", 9)), "now");
    assert_eq!(monitor.phase(), MonitorPhase::Probing);
    assert_eq!(monitor.probed(), vec![candidate("b", 9)]);

    let mut monitor = probing(Some(9), vec![candidate("a", 1), candidate("c", 2)]);
    monitor.found(None, "now");
    assert_eq!(monitor.probed(), vec![candidate("a", 1), candidate("c", 2)]);

    let mut monitor = probing(Some(9), vec![]);
    monitor.found(None, "now");
    assert_eq!(monitor.phase(), MonitorPhase::Resting);

    let monitor = probing(Some(2), vec![candidate("a", 1), candidate("c", 2)]);
    assert_eq!(monitor.probed(), vec![candidate("c", 2)]);
}

#[test]
fn silent_probes_are_explained() {
    let silent = |results: Vec<WindowsProbeResult>| {
        let mut monitor = probing(None, vec![candidate("a", 1), candidate("b", 2)]);
        monitor.heard(&results, "", "now");
        assert_eq!(monitor.phase(), MonitorPhase::Resting);
        assert_eq!(monitor.status().candidate_count, 2);
        monitor.status().message
    };
    assert_eq!(
        silent(vec![heard("a", 1, 40, 0, 0.0, None), heard("b", 2, 2, 0, 0.0, None)]),
        "`app` is open, but every loopback probe is silent. Read 42 samples from 2 selected/matching processes with peak 0.000. Check Windows Volume Mixer for muted app audio or an unexpected output device; Bardic Chord will keep watching."
    );
    assert_eq!(
        silent(vec![heard("a", 1, 0, 0, 0.0, Some("x")), heard("b", 2, 0, 0, 0.0, None)]),
        "`app` is open, but 1 of 2 loopback probe failed. Check `log` for details; Bardic Chord will keep watching."
    );
    assert_eq!(
        silent(vec![]),
        "`app` is open, but Bardic Chord does not hear app audio yet. Watching 2 selected/matching processes."
    );
}

fn captured_monitor() -> CaptureMonitor {
    let mut monitor = probing(None, vec![candidate("a", 1), candidate("b", 2)]);
    let results = vec![heard("a", 1, 9, 3, 0.25, None), heard("b", 2, 9, 0, 0.0, None)];
    monitor.heard(&results, "0.250", "now");
    monitor
}

#[test]
fn the_audible_process_is_captured() {
    let mut monitor = captured_monitor();
    assert_eq!(monitor.phase(), MonitorPhase::Capturing(1));
    assert_eq!(monitor.target_pid(), Some(1));
    let status = monitor.status();
    assert_eq!(
        status.message,
        "Capturing `app` from a pid 1. Audible matches: 1 of 2; peak 0.250."
    );
    assert_eq!((status.candidate_count, status.audible_count), (2, 1));
    assert_eq!(f32::from_bits(status.peak), 0.25);
    monitor.told(WindowsCaptureStatus::watching("other", "later"));
    assert_eq!(monitor.status().updated_at, "later");
    assert_eq!(monitor.target_pid(), Some(1));
}

#[test]
fn a_capture_ends_in_three_ways() {
    let mut monitor = captured_monitor();
    monitor.captured(Ok(WindowsCaptureRunResult::Stopped), "end");
    assert_eq!(monitor.phase(), MonitorPhase::Off);
    assert_eq!(monitor.target_pid(), None);

    let mut monitor = captured_monitor();
    monitor.captured(Ok(WindowsCaptureRunResult::Rescan), "end");
    assert_eq!(monitor.phase(), MonitorPhase::Checking);
    assert_eq!(monitor.target_pid(), None);
    let status = monitor.status();
    assert_eq!(
        status.message,
        "`app` went quiet. Bardic Chord is scanning matching processes again."
    );
    assert_eq!((status.candidate_count, status.audible_count, status.peak), (2, 0, 0));

    let mut monitor = captured_monitor();
    monitor.captured(Err(()), "end");
    assert_eq!(monitor.phase(), MonitorPhase::Resting);
    assert_eq!(monitor.target_pid(), Some(1));
    let status = monitor.status();
    assert_eq!(
        status.message,
        "Capture from `app` pid 1 stopped. Bardic Chord is scanning again."
    );
    assert_eq!((status.candidate_count, status.audible_count), (2, 1));
    assert_eq!(status.target_pid, None);
}
