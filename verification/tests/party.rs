use bardic_chord::discord::{DiscordValidationReport, DiscordVoiceChannelOption};
use bardic_chord::launch::{CacheOutcome, LaunchPhase, RelayLaunch, StreamOutcome};
use bardic_chord::platform::Platform;
use bardic_chord::relay::{
    build_relay_report, can_stop_party, clone_discord_relay_report, dormant_relay_report,
    follow_action, note_client_end, note_driver_event, note_track_event, relay_instructions,
    relay_stop_outcome, silenced_relay_report, tracked_user_channel, update_discord_relay_report,
    DiscordRelayReport, FollowAction, RelayDriverEvent, RelayTrackEvent, VoiceMove,
};
use bardic_chord::settings::Settings;
use std::collections::HashMap;

fn live() -> DiscordRelayReport {
    build_relay_report(
        true,
        Some("guild".into()),
        Some("1".into()),
        Some("channel".into()),
        Some("2".into()),
        Some("bard".into()),
        Some("then".into()),
        "live".into(),
        Platform::Linux,
    )
}

#[test]
fn steps_depend_on_state_and_platform() {
    assert_eq!(
        relay_instructions(true, Platform::Windows)[0],
        "Keep the selected capture app open while Bardic Chord is running."
    );
    assert_eq!(
        relay_instructions(true, Platform::Linux)[0],
        "Keep the selected capture app routed to the prepared desktop output."
    );
    assert_eq!(relay_instructions(false, Platform::Windows)[0], "Finish Discord setup first.");
}

#[test]
fn reports_of_a_relay_that_does_not_run() {
    let dormant = dormant_relay_report(Platform::Linux);
    assert!(!dormant.active);
    assert!(dormant.message.starts_with("Party dormant."));
    let silenced = silenced_relay_report(Platform::Linux);
    assert!(silenced.message.starts_with("Party silenced."));
    assert_eq!(silenced.guild_name, None);
    assert_eq!(silenced.instruction_steps, relay_instructions(false, Platform::Linux));
}

#[test]
fn track_events_change_the_report() {
    let mut report = live();
    note_track_event(&mut report, RelayTrackEvent::End, "log", Platform::Linux);
    assert!(!report.active);
    assert_eq!(
        report.message,
        "The audio stream stopped unexpectedly. Discord is still connected, but you should start the party again or inspect `log`."
    );
    assert_eq!(report.instruction_steps, relay_instructions(false, Platform::Linux));
    note_track_event(&mut report, RelayTrackEvent::Playable, "log", Platform::Linux);
    assert!(report.active);
    assert_eq!(report.instruction_steps, relay_instructions(true, Platform::Linux));
    note_track_event(&mut report, RelayTrackEvent::Error, "log", Platform::Linux);
    assert_eq!(
        report.message,
        "The party hit an audio error after joining Discord. Start the party again or inspect `log`."
    );
    let before = format!("{report:?}");
    note_track_event(&mut report, RelayTrackEvent::Other, "log", Platform::Linux);
    assert_eq!(format!("{report:?}"), before);
    assert_eq!(report.guild_name.as_deref(), Some("guild"));
    assert_eq!(report.started_at.as_deref(), Some("then"));
}

#[test]
fn driver_events_change_the_report() {
    let mut report = live();
    note_driver_event(&mut report, RelayDriverEvent::Disconnect, "log", Platform::Windows);
    assert!(!report.active);
    assert_eq!(
        report.message,
        "Discord voice disconnected. Relaunch the party or inspect `log`."
    );
    note_driver_event(&mut report, RelayDriverEvent::Reconnect, "log", Platform::Windows);
    assert!(report.active);
    assert_eq!(report.instruction_steps, relay_instructions(true, Platform::Windows));
    note_driver_event(&mut report, RelayDriverEvent::Connect, "log", Platform::Windows);
    assert_eq!(
        report.message,
        "Bardic Chord is connected to Discord and waiting for desktop audio."
    );
    let before = format!("{report:?}");
    note_driver_event(&mut report, RelayDriverEvent::Other, "log", Platform::Windows);
    assert_eq!(format!("{report:?}"), before);
}

#[test]
fn the_end_of_the_client_is_told_once() {
    let mut report = live();
    note_client_end(&mut report, "log", Platform::Linux);
    assert!(!report.active);
    assert_eq!(
        report.message,
        "Discord relay stopped unexpectedly. Check `log` and launch the party again."
    );
    let before = format!("{:?}", clone_discord_relay_report(&report));
    note_client_end(&mut report, "other", Platform::Linux);
    assert_eq!(format!("{report:?}"), before);
}

#[test]
fn stopping_may_time_out() {
    assert_eq!(relay_stop_outcome(true), Ok(()));
    assert_eq!(
        relay_stop_outcome(false),
        Err("Timed out while shutting down the Discord relay.".into())
    );
    assert!(can_stop_party(true, false));
    assert!(can_stop_party(false, true));
    assert!(!can_stop_party(false, false));
}

#[test]
fn only_the_followed_user_is_followed() {
    let change = |user_id, guild_id, channel_id| VoiceMove {
        user_id,
        guild_id,
        channel_id,
    };
    assert_eq!(follow_action(Some(1), 9, change(1, Some(9), Some(5))), FollowAction::Join(5));
    assert_eq!(follow_action(Some(1), 9, change(1, Some(9), None)), FollowAction::Stay);
    assert_eq!(follow_action(Some(1), 9, change(2, Some(9), Some(5))), FollowAction::Ignore);
    assert_eq!(follow_action(Some(1), 9, change(1, Some(8), Some(5))), FollowAction::Ignore);
    assert_eq!(follow_action(Some(1), 9, change(1, None, Some(5))), FollowAction::Ignore);
    assert_eq!(follow_action(None, 9, change(1, Some(9), Some(5))), FollowAction::Ignore);
}

#[test]
fn the_channel_of_the_followed_user_is_looked_up() {
    let states = HashMap::from([(1, Some(5)), (2, None)]);
    assert_eq!(tracked_user_channel(Some(1), Some(&states)), Some(5));
    assert_eq!(tracked_user_channel(Some(2), Some(&states)), None);
    assert_eq!(tracked_user_channel(Some(3), Some(&states)), None);
    assert_eq!(tracked_user_channel(None, Some(&states)), None);
    assert_eq!(tracked_user_channel(Some(1), None), None);
}

fn settings() -> Settings {
    Settings {
        discord_bot_token: " token ".into(),
        guild_id: " 10 ".into(),
        voice_channel_id: "20".into(),
        tracked_user_id: "30".into(),
        audio_output_name: "My Output".into(),
        capture_target: " app ".into(),
        ..Default::default()
    }
}

fn route() -> DiscordValidationReport {
    DiscordValidationReport {
        bot_username: "bard".into(),
        bot_id: "1".into(),
        application_name: None,
        application_id: None,
        invite_url: None,
        guild_name: Some("guild".into()),
        guild_id: Some("10".into()),
        voice_channel_name: Some("chosen".into()),
        voice_channel_id: Some("20".into()),
        voice_channel_kind: None,
        guild_options: vec![],
        voice_channel_options: vec![DiscordVoiceChannelOption {
            id: "40".into(),
            name: "hall".into(),
            kind: "Voice".into(),
        }],
        message: String::new(),
    }
}

fn launch(settings: &Settings, platform: Platform) -> RelayLaunch {
    RelayLaunch::new(settings, platform, "log").unwrap()
}

#[test]
fn a_launch_needs_proper_settings() {
    let refuse = |change: fn(&mut Settings)| {
        let mut settings = settings();
        change(&mut settings);
        RelayLaunch::new(&settings, Platform::Linux, "log").err().unwrap()
    };
    assert_eq!(
        refuse(|s| s.discord_bot_token = " ".into()),
        "Discord bot token is required before the relay can awaken."
    );
    assert_eq!(
        refuse(|s| s.guild_id = "x".into()),
        "Invalid guild ID: invalid digit found in string"
    );
    assert_eq!(
        refuse(|s| s.voice_channel_id = "".into()),
        "Invalid voice channel ID: cannot parse integer from empty string"
    );
    assert_eq!(
        refuse(|s| s.tracked_user_id = "me".into()),
        "Invalid tracked user ID: invalid digit found in string"
    );
    let mut settings = settings();
    settings.tracked_user_id = "  ".into();
    assert_eq!(launch(&settings, Platform::Linux).followed(), None);
}

#[test]
fn a_launch_that_goes_well_on_linux() {
    let mut launch = launch(&settings(), Platform::Linux);
    assert_eq!(launch.token(), "token");
    assert_eq!((launch.guild_id(), launch.channel_id()), (10, 20));
    assert_eq!(launch.followed(), Some(30));
    assert_eq!(launch.output_name(), "My_Output");
    assert_eq!(launch.sink_name(), "my_output");
    assert_eq!(launch.capture_target(), "app");
    assert_eq!(launch.phase(), LaunchPhase::CheckingAudio);
    assert_eq!(launch.audio_checked(true), None);
    assert_eq!(launch.relay_stopped(Ok(())), None);
    launch.validated(Some(route()));
    assert_eq!(launch.phase(), LaunchPhase::Routing);
    launch.routed();
    assert_eq!(launch.client_created(Ok(())), None);
    assert_eq!(launch.cache_awaited(CacheOutcome::Ready(Some(40))), None);
    assert_eq!(launch.phase(), LaunchPhase::Joining(40));
    assert_eq!(launch.joined(Ok(())), None);
    assert_eq!(launch.call_fetched(true), None);
    assert_eq!(launch.promoted(StreamOutcome::Ready), None);
    assert_eq!(launch.phase(), LaunchPhase::Ready);
    let report = launch.report("now");
    assert!(report.active);
    assert_eq!(report.guild_name.as_deref(), Some("guild"));
    assert_eq!(report.guild_id.as_deref(), Some("10"));
    assert_eq!(report.voice_channel_name.as_deref(), Some("hall"));
    assert_eq!(report.voice_channel_id.as_deref(), Some("40"));
    assert_eq!(report.bot_username.as_deref(), Some("bard"));
    assert_eq!(report.started_at.as_deref(), Some("now"));
    assert_eq!(
        report.message,
        "The party is live. Bardic Chord joined the tracked user's channel on startup and will keep following them."
    );
}

fn ready(settings: &Settings, found: Option<DiscordValidationReport>) -> RelayLaunch {
    let mut launch = launch(settings, Platform::Windows);
    launch.audio_checked(true);
    launch.relay_stopped(Ok(()));
    launch.validated(found);
    assert_eq!(launch.phase(), LaunchPhase::CreatingClient);
    launch.client_created(Ok(()));
    launch.cache_awaited(CacheOutcome::Ready(None));
    assert_eq!(launch.phase(), LaunchPhase::Joining(20));
    launch.joined(Ok(()));
    launch.call_fetched(true);
    launch.promoted(StreamOutcome::Ready);
    launch
}

#[test]
fn the_chosen_channel_is_joined_otherwise() {
    let report = ready(&settings(), Some(route())).report("now");
    assert_eq!(report.voice_channel_name.as_deref(), Some("chosen"));
    assert_eq!(report.voice_channel_id.as_deref(), Some("20"));
    assert_eq!(
        report.message,
        "The party is live. Bardic Chord joined the selected channel and will follow the tracked user when they move."
    );
    let mut alone = settings();
    alone.tracked_user_id = String::new();
    let report = ready(&alone, None).report("now");
    assert_eq!(report.guild_name, None);
    assert_eq!(report.voice_channel_name, None);
    assert_eq!(
        report.message,
        "The party is live. Bardic Chord joined the voice channel and is ready to send music."
    );
}

#[test]
fn every_step_of_a_launch_may_fail() {
    let mut first = launch(&settings(), Platform::Windows);
    assert_eq!(
        first.audio_checked(false).as_deref(),
        Some("Prepare the desktop audio output before starting the Discord relay.")
    );
    assert_eq!(first.phase(), LaunchPhase::Failed);

    let mut second = launch(&settings(), Platform::Windows);
    second.audio_checked(true);
    assert_eq!(second.relay_stopped(Err("late".into())).as_deref(), Some("late"));

    let client = || {
        let mut launch = launch(&settings(), Platform::Windows);
        launch.audio_checked(true);
        launch.relay_stopped(Ok(()));
        launch.validated(None);
        launch
    };
    assert_eq!(
        client().client_created(Err("tls".into())).as_deref(),
        Some("failed to create Discord client: tls")
    );
    let cache = || {
        let mut launch = client();
        launch.client_created(Ok(()));
        launch
    };
    assert_eq!(
        cache().cache_awaited(CacheOutcome::TimedOut).as_deref(),
        Some("Timed out while waiting for the Discord guild cache to become ready.")
    );
    assert_eq!(
        cache().cache_awaited(CacheOutcome::Closed).as_deref(),
        Some("Discord gateway closed before the relay finished loading the startup voice state.")
    );
    let join = || {
        let mut launch = cache();
        launch.cache_awaited(CacheOutcome::Ready(None));
        launch
    };
    assert_eq!(
        join().joined(Err("full".into())).as_deref(),
        Some("failed to join the Discord voice channel: full")
    );
    let call = || {
        let mut launch = join();
        launch.joined(Ok(()));
        launch
    };
    assert_eq!(
        call().call_fetched(false).as_deref(),
        Some("Discord voice call did not become available after joining.")
    );
    let stream = || {
        let mut launch = call();
        launch.call_fetched(true);
        launch
    };
    assert_eq!(
        stream().promoted(StreamOutcome::Refused).as_deref(),
        Some("Bardic Chord could not prepare the music stream for Discord. Check `log` for details.")
    );
    assert_eq!(
        stream().promoted(StreamOutcome::Lazy).as_deref(),
        Some("Bardic Chord created a lazy audio input unexpectedly and could not arm the relay.")
    );
}

#[test]
fn any_change_of_a_report_brings_its_steps_along() {
    let mut report = live();
    let mut calls = 0;
    update_discord_relay_report(
        &mut report,
        |changed| {
            calls += 1;
            changed.active = false;
            changed.guild_name = None;
            changed.bot_username = Some("other".into());
            changed.instruction_steps = vec!["forged".into()];
        },
        Platform::Linux,
    );
    assert_eq!(calls, 1);
    assert!(!report.active);
    assert_eq!(report.guild_name, None);
    assert_eq!(report.bot_username.as_deref(), Some("other"));
    assert_eq!((report.guild_id.as_deref(), report.message.as_str()), (Some("1"), "live"));
    assert_eq!(report.instruction_steps, relay_instructions(false, Platform::Linux));

    update_discord_relay_report(&mut report, |changed| changed.active = true, Platform::Windows);
    assert_eq!(report.instruction_steps, relay_instructions(true, Platform::Windows));
}
