use bardic_chord::audio::{build_audio_output_report, AudioOutputReport};
use bardic_chord::discord::{
    DiscordGuildOption, DiscordValidationReport, DiscordVoiceChannelOption,
};
use bardic_chord::handlers::{
    connect_opened, connect_requested, disconnect_finished, disconnect_requested, draft_changed,
    draft_saved, hydrate_ui, invite_polled, launch_finished, launch_requested, prepare_finished,
    prepare_requested, relay_is_started, save_finished, save_requested, status_polled,
    stop_audio_finished, stop_audio_requested, stop_party_finished, stop_party_requested,
    validation_finished, validation_requested, window_opened, InvitePoll, ValidationClock,
};
use bardic_chord::platform::Platform;
use bardic_chord::relay::{build_relay_report, dormant_relay_report, DiscordRelayReport};
use bardic_chord::settings::Settings;
use bardic_chord::snapshot::AppSnapshot;
use bardic_chord::ui::{
    apply_discord_validation, apply_snapshot, clear_busy, clear_discord_connection_state,
    normalize_ui_inputs, refresh_editor_derived, refresh_runtime_summary, route_ready_from_ui,
    set_busy, settings_from_ui, sync_discord_picker_ids, UiState,
};

fn snapshot(saved: Option<&str>) -> AppSnapshot {
    let settings = Settings {
        discord_bot_token: "MTIz.x".into(),
        tracked_user_id: "30".into(),
        guild_id: "g2".into(),
        voice_channel_id: "c1".into(),
        ..Default::default()
    };
    AppSnapshot::from_settings(settings, saved.map(String::from), Platform::Linux)
}

fn audio(active: bool) -> AudioOutputReport {
    build_audio_output_report(
        active,
        Some("Out".into()),
        Some("app".into()),
        Platform::Linux,
        active.then(|| "then".to_string()),
        "audio message".into(),
        None,
    )
}

fn relay(active: bool) -> DiscordRelayReport {
    build_relay_report(
        active,
        Some("guild".into()),
        None,
        None,
        None,
        None,
        None,
        "relay message".into(),
        Platform::Linux,
    )
}

fn report() -> DiscordValidationReport {
    let guild = |id: &str| DiscordGuildOption {
        id: id.into(),
        name: format!("guild {id}"),
    };
    let channel = |id: &str, kind: &str| DiscordVoiceChannelOption {
        id: id.into(),
        name: format!("channel {id}"),
        kind: kind.into(),
    };
    DiscordValidationReport {
        bot_username: "bard".into(),
        bot_id: "77".into(),
        application_name: None,
        application_id: Some("78".into()),
        invite_url: Some("https://invite".into()),
        guild_name: Some("guild g2".into()),
        guild_id: Some("g2".into()),
        voice_channel_name: Some("channel c2".into()),
        voice_channel_id: Some("c2".into()),
        voice_channel_kind: Some("Voice".into()),
        guild_options: vec![guild("g1"), guild("g2")],
        voice_channel_options: vec![channel("c1", "Stage Voice"), channel("c2", "Voice")],
        message: "bard is connected.".into(),
    }
}

#[test]
fn a_new_window_is_blank() {
    let ui = UiState::new();
    assert_eq!(ui.discord_permissions, "3146752");
    assert_eq!(ui.guild_id, "");
    assert!(!ui.discord_connected);
    assert!(ui.discord_guild_model.is_empty());
    assert_eq!(ui.current_page, 0);
}

#[test]
fn an_opened_window_knows_nothing_of_discord() {
    let mut ui = UiState::new();
    apply_discord_validation(&mut ui, &report());
    ui.discord_permissions = String::new();
    ui.follow_user_enabled = true;
    ui.audio_prepared = true;
    ui.party_can_stop = true;
    ui.save_message = "kept".into();
    let title = ui.discord_status_title.clone();
    window_opened(&mut ui);
    assert_eq!(ui.discord_permissions, "3146752");
    assert!(ui.discord_guild_model.is_empty() && ui.discord_guild_id_model.is_empty());
    assert!(ui.discord_voice_channel_model.is_empty());
    assert!(ui.discord_voice_channel_id_model.is_empty());
    assert_eq!((ui.discord_guild_index, ui.discord_voice_channel_index), (0, 0));
    assert!(!ui.follow_user_enabled && !ui.discord_connected && !ui.discord_route_ready);
    assert!(!ui.party_can_stop && !ui.audio_prepared);
    assert_eq!(ui.save_message, "kept");
    assert_eq!(ui.discord_status_title, title);
}

#[test]
fn a_snapshot_is_entered_and_shown() {
    let mut ui = UiState::new();
    apply_snapshot(&mut ui, &snapshot(Some("noon")));
    assert_eq!(ui.save_message, "Saved locally noon.");
    assert_eq!(ui.discord_bot_token, "MTIz.x");
    assert!(ui.follow_user_enabled);
    assert_eq!(ui.tracked_user_id, "30");
    assert!(ui.discord_route_ready);
    assert!(ui.overview_health_text.starts_with("Discord - Ready.\n"));
    assert!(ui.ritual_steps_text.starts_with("1. Paste the Discord bot token"));
    assert!(ui.activity_text.starts_with("Now - Guided desktop relay\n"));
    assert_eq!(
        ui.completion_summary,
        "5 of 6 setup items are ready. Bardic Chord saves your changes automatically."
    );
    assert_eq!(
        ui.preview_line,
        "The Amber Minstrel will send `spotify` through `Bardic_Chord` into c1, following 30 when they are already in voice or move later."
    );
    apply_snapshot(&mut ui, &snapshot(None));
    assert_eq!(ui.save_message, "Local settings are ready to be scribed.");
}

#[test]
fn an_empty_window_has_a_preview_too() {
    let mut ui = UiState::new();
    refresh_editor_derived(&mut ui);
    assert_eq!(
        ui.preview_line,
        "the bardic relay will send `spotify` through `Bardic_Chord` into the chosen voice channel."
    );
    assert_eq!(
        ui.completion_summary,
        "0 of 6 setup items are ready. Bardic Chord saves your changes automatically."
    );
    ui.follow_user_enabled = true;
    refresh_editor_derived(&mut ui);
    assert!(ui.preview_line.contains(", following the selected user when"));
}

#[test]
fn the_summary_tells_what_runs() {
    let mut ui = UiState::new();
    refresh_runtime_summary(&mut ui);
    assert_eq!(ui.runtime_summary, "Discord waiting, audio output off, party off.");
    ui.discord_connected = true;
    ui.audio_prepared = true;
    ui.relay_active = true;
    refresh_runtime_summary(&mut ui);
    assert_eq!(ui.runtime_summary, "Discord ready, audio output ready, party live.");
}

#[test]
fn entries_become_settings() {
    let mut ui = UiState::new();
    apply_snapshot(&mut ui, &snapshot(None));
    ui.tracked_user_id = " <@149427266794605> ".into();
    let settings = settings_from_ui(&ui);
    assert_eq!(settings.tracked_user_id, "149427266794605");
    assert_eq!(settings.guild_id, "g2");
    assert_eq!(settings.capture_target_pid, 0);
    normalize_ui_inputs(&mut ui);
    assert_eq!(ui.tracked_user_id, "149427266794605");
    ui.follow_user_enabled = false;
    assert_eq!(settings_from_ui(&ui).tracked_user_id, "");
    normalize_ui_inputs(&mut ui);
    assert_eq!(ui.tracked_user_id, "");
    ui.tracked_user_id = "  ".into();
    normalize_ui_inputs(&mut ui);
    assert_eq!(ui.tracked_user_id, "  ");
}

#[test]
fn picked_entries_set_the_ids() {
    let mut ui = UiState::new();
    ui.guild_id = "old".into();
    ui.discord_guild_id_model = vec!["a".into(), "b".into()];
    ui.discord_guild_index = 1;
    ui.discord_voice_channel_index = -1;
    ui.voice_channel_id = "kept".into();
    sync_discord_picker_ids(&mut ui);
    assert_eq!(ui.guild_id, "b");
    assert_eq!(ui.voice_channel_id, "kept");
    ui.discord_guild_index = 2;
    ui.guild_id = "old".into();
    sync_discord_picker_ids(&mut ui);
    assert_eq!(ui.guild_id, "old");
}

#[test]
fn a_checked_setup_is_shown() {
    let mut ui = UiState::new();
    apply_discord_validation(&mut ui, &report());
    assert_eq!(ui.discord_guild_model, ["guild g1 (g1)", "guild g2 (g2)"]);
    assert_eq!(ui.discord_guild_id_model, ["g1", "g2"]);
    assert_eq!((ui.discord_guild_index, ui.discord_voice_channel_index), (1, 1));
    assert_eq!(
        ui.discord_voice_channel_model,
        ["channel c1 (Stage Voice)", "channel c2 (Voice)"]
    );
    assert_eq!((ui.guild_id.as_str(), ui.voice_channel_id.as_str()), ("g2", "c2"));
    assert!(ui.discord_connected && ui.discord_route_ready && route_ready_from_ui(&ui));
    assert_eq!(ui.discord_status_title, "Discord is ready");
    assert_eq!(
        ui.discord_status_body,
        "bard is connected.\n\nBot name: bard\nBot ID: 77\nApp: Discord application"
    );
    assert_eq!(
        ui.discord_route_text,
        "Selected server: guild g2\nSelected channel: channel c2\nChannel type: Voice\nServers found: 2\nVoice channels found: 2"
    );
    assert_eq!(ui.discord_invite_url, "https://invite");
    clear_discord_connection_state(&mut ui);
    assert_eq!((ui.guild_id.as_str(), ui.voice_channel_id.as_str()), ("", ""));
    assert!(!ui.discord_connected && !ui.discord_route_ready && !route_ready_from_ui(&ui));
    assert!(ui.discord_guild_model.is_empty() && ui.discord_voice_channel_id_model.is_empty());
    assert_eq!(ui.discord_invite_url, "");
}

#[test]
fn an_unlisted_selection_falls_back_on_the_first() {
    let mut ui = UiState::new();
    let mut report = report();
    report.guild_id = Some("elsewhere".into());
    report.voice_channel_id = None;
    report.guild_name = None;
    report.invite_url = None;
    apply_discord_validation(&mut ui, &report);
    assert_eq!(ui.discord_guild_index, 0);
    assert_eq!(ui.guild_id, "g1");
    assert!(ui.discord_route_text.starts_with("Selected server: No guild verified yet\n"));
    assert_eq!(ui.discord_invite_url, "");
}

#[test]
fn the_busy_label_comes_and_goes() {
    let mut ui = UiState::new();
    set_busy(&mut ui, Some("working"));
    assert!(ui.busy_visible);
    assert_eq!(ui.busy_label, "working");
    clear_busy(&mut ui);
    assert!(!ui.busy_visible);
    set_busy(&mut ui, None);
    assert!(!ui.busy_visible);
    assert_eq!(ui.busy_label, "");
}

#[test]
fn a_window_is_filled_at_the_start() {
    let mut ui = UiState::new();
    hydrate_ui(&mut ui, &snapshot(None), &audio(false), &dormant_relay_report(Platform::Linux), false);
    assert_eq!(ui.discord_status_title, "Connect Discord to continue");
    assert_eq!(ui.audio_status_title, "Desktop audio is waiting");
    assert_eq!(
        ui.audio_status_body,
        "audio message\n\nOutput: Out\nPlatform: Linux\nStarted: Not running"
    );
    assert_eq!(ui.relay_status_title, "Party is off");
    assert!(ui.relay_status_body.ends_with(
        "\n\nGuild: No guild active\nVoice channel: No voice channel active\nBot: No bot identity confirmed\nStarted: Not running"
    ));
    assert_eq!(ui.runtime_summary, "Discord waiting, audio output off, party off.");
    status_polled(&mut ui, &audio(true), &relay(true), true);
    assert_eq!(ui.runtime_summary, "Discord waiting, audio output ready, party live.");
    assert_eq!(ui.audio_status_title, "Desktop audio is ready");
    assert!(ui.audio_status_body.ends_with("Started: then"));
    assert_eq!(ui.relay_status_title, "Party is live");
    assert!(ui.relay_instructions_text.starts_with("1. Keep the selected capture app"));
    assert!(ui.party_can_stop);
}

#[test]
fn a_changed_entry_is_saved() {
    let mut ui = UiState::new();
    ui.discord_bot_token = "MTIz.x".into();
    ui.follow_user_enabled = true;
    ui.tracked_user_id = "<@149427266794605>".into();
    let settings = draft_changed(&mut ui);
    assert_eq!(settings.tracked_user_id, "149427266794605");
    assert!(draft_saved(&mut ui, Ok(snapshot(Some("noon")))));
    assert_eq!(ui.save_message, "Saved locally noon.");
    ui.discord_connected = true;
    ui.discord_bot_token = " ".into();
    assert!(!draft_saved(&mut ui, Err("disk full".into())));
    assert_eq!(ui.save_message, "disk full");
    assert!(!ui.discord_connected);
}

#[test]
fn saving_shows_its_outcome() {
    let mut ui = UiState::new();
    ui.tracked_user_id = "x".into();
    assert_eq!(save_requested(&mut ui).tracked_user_id, "");
    assert_eq!(ui.tracked_user_id, "");
    save_finished(&mut ui, Ok(snapshot(Some("noon"))));
    assert_eq!(ui.save_message, "Saved locally noon.");
    assert_eq!(ui.runtime_summary, "Discord waiting, audio output off, party off.");
    save_finished(&mut ui, Err("disk full".into()));
    assert_eq!(ui.save_message, "disk full");
}

#[test]
fn only_the_latest_check_runs() {
    let token = Settings {
        discord_bot_token: "t".into(),
        ..Default::default()
    };
    let mut clock = ValidationClock::new();
    let first = clock.schedule(&token).unwrap();
    assert!(clock.is_current(first));
    let second = clock.schedule(&token).unwrap();
    assert!(!clock.is_current(first) && clock.is_current(second));
    assert_eq!(clock.schedule(&Settings::default()), None);
    assert!(clock.is_current(second));
    clock.cancel();
    assert!(!clock.is_current(second));
}

#[test]
fn a_check_shows_its_outcome() {
    let mut ui = UiState::new();
    ui.discord_bot_token = "MTIz.x".into();
    let settings = validation_requested(&mut ui);
    assert_eq!(settings.discord_bot_token, "MTIz.x");
    assert_eq!(ui.busy_label, "Consulting Discord and checking the chosen route...");
    validation_finished(&mut ui, true, Err("no network".into()));
    assert!(!ui.busy_visible);
    assert_eq!(ui.discord_status_title, "Discord needs attention");
    assert_eq!(ui.discord_status_body, "no network");
    assert!(ui.discord_invite_url.contains("client_id=123&"));
    ui.discord_bot_token = "broken!".into();
    validation_finished(&mut ui, false, Err("no network".into()));
    assert_eq!(ui.discord_invite_url, "");
    validation_finished(&mut ui, false, Ok(report()));
    assert_eq!(ui.discord_status_title, "Discord is ready");
    assert_eq!(ui.runtime_summary, "Discord ready, audio output off, party off.");
}

#[test]
fn the_invite_page_is_opened() {
    let mut ui = UiState::new();
    assert_eq!(connect_requested(&mut ui), Some("https://discord.com/api/oauth2/authorize?client_id=&permissions=3146752&scope=bot%20applications.commands".into()));
    ui.discord_bot_token = "broken!".into();
    assert_eq!(connect_requested(&mut ui), None);
    assert_eq!(ui.discord_status_title, "Discord invite link missing");
    ui.discord_invite_url = "https://invite".into();
    let page = connect_requested(&mut ui).unwrap();
    assert_eq!(page, "https://invite");
    assert!(!connect_opened(&mut ui, page.clone(), Some("no browser".into())));
    assert_eq!(ui.discord_status_title, "Could not open Discord");
    assert_eq!(ui.discord_status_body, "no browser");
    assert!(connect_opened(&mut ui, "https://other".into(), None));
    assert_eq!(ui.discord_invite_url, "https://other");
    assert_eq!(ui.discord_status_title, "Finish the Discord invite");
}

#[test]
fn polling_for_the_invite_ends() {
    let mut ui = UiState::new();
    let empty = || {
        let mut report = report();
        report.guild_options.clear();
        report.voice_channel_options.clear();
        report
    };
    assert_eq!(invite_polled(&mut ui, 3, Ok(empty())), InvitePoll::Again);
    assert_eq!(ui.discord_status_title, "Waiting for Discord");
    assert_eq!(
        ui.discord_status_body,
        "Bardic Chord is checking Discord every 5 seconds.\n\nAttempt 3/18. Finish inviting the bot, then return here."
    );
    assert_eq!(invite_polled(&mut ui, 4, Err("no network".into())), InvitePoll::Again);
    assert_eq!(
        ui.discord_status_body,
        "Bardic Chord is still checking Discord.\n\nAttempt 4/18. Latest check: no network"
    );
    assert_eq!(invite_polled(&mut ui, 18, Ok(empty())), InvitePoll::GiveUp);
    assert_eq!(ui.discord_status_title, "Still waiting for Discord");
    assert_eq!(invite_polled(&mut ui, 18, Ok(report())), InvitePoll::Found);
    assert_eq!(ui.discord_status_title, "Discord is ready");
    assert_eq!(
        ui.discord_status_body,
        "bard is connected.\n\nDiscord invite confirmed automatically. Bardic Chord loaded the latest server and route choices for you."
    );
}

#[test]
fn disconnecting_forgets_everything_of_discord() {
    let mut ui = UiState::new();
    apply_snapshot(&mut ui, &snapshot(None));
    apply_discord_validation(&mut ui, &report());
    let settings = disconnect_requested(&mut ui);
    assert!(ui.busy_visible);
    assert_eq!(settings.discord_bot_token, "");
    assert_eq!(settings.guild_id, "");
    assert_eq!(settings.capture_target, "spotify");
    let saved = AppSnapshot::from_settings(settings.normalized(), None, Platform::Linux);
    disconnect_finished(
        &mut ui,
        Ok(saved),
        Some("late".into()),
        &audio(false),
        &relay(false),
        false,
    );
    assert!(!ui.busy_visible && !ui.discord_connected && !ui.discord_route_ready);
    assert_eq!(ui.discord_bot_token, "");
    assert_eq!(ui.guild_id, "");
    assert!(!ui.follow_user_enabled);
    assert_eq!(ui.discord_status_title, "Discord has been disconnected");
    assert_eq!(ui.relay_status_title, "Party is off");
    disconnect_finished(&mut ui, Err("disk full".into()), None, &audio(false), &relay(false), false);
    assert_eq!(ui.save_message, "disk full");
}

#[test]
fn preparing_the_audio_shows_its_outcome() {
    let mut ui = UiState::new();
    ui.capture_target = " app ".into();
    prepare_requested(&mut ui);
    assert_eq!(ui.busy_label, "Preparing the local Bardic Chord audio output...");
    prepare_finished(&mut ui, Ok(audio(true)), Ok(snapshot(None)), &relay(false), true);
    assert_eq!(ui.current_page, 3);
    assert_eq!(
        ui.save_message,
        "Audio is ready. Route or attach ` app ` to `Out` if needed, then press Start Party."
    );
    assert_eq!(ui.relay_status_title, "Prepare your app next");
    assert!(ui.relay_status_body.starts_with("Bardic Chord prepared `Out` successfully.\n\nIf ` app ` is"));
    assert!(ui.party_can_stop && ui.audio_prepared && !ui.busy_visible);

    let mut ui = UiState::new();
    prepare_finished(&mut ui, Ok(audio(true)), Err("unreadable".into()), &relay(true), true);
    assert_eq!(ui.relay_status_title, "Party is live");
    assert!(ui.save_message.contains("`spotify` to `Out`"));

    let mut ui = UiState::new();
    prepare_finished(&mut ui, Err("no pactl".into()), Ok(snapshot(None)), &relay(false), false);
    assert_eq!(ui.audio_status_title, "Desktop audio needs attention");
    assert_eq!(ui.audio_status_body, "no pactl");
    assert_eq!(ui.current_page, 0);
}

#[test]
fn stopping_the_audio_shows_its_outcome() {
    let mut ui = UiState::new();
    stop_audio_requested(&mut ui);
    assert_eq!(ui.busy_label, "Turning off the local Bardic Chord audio output...");
    stop_audio_finished(&mut ui, Ok(audio(false)), &relay(false), false);
    assert_eq!(ui.audio_status_title, "Desktop audio is waiting");
    stop_audio_finished(&mut ui, Err("late".into()), &relay(false), true);
    assert_eq!(ui.audio_status_title, "Desktop audio needs attention");
    assert!(ui.party_can_stop);
}

#[test]
fn stopping_the_party_shows_its_outcome() {
    let mut ui = UiState::new();
    stop_party_requested(&mut ui);
    assert!(ui.busy_label.starts_with("Stopping the live party"));
    stop_party_finished(&mut ui, Some("late".into()), &audio(false), &relay(false), true);
    assert_eq!(ui.relay_status_title, "Party stop needs attention");
    assert_eq!(ui.relay_status_body, "late");
    stop_party_finished(&mut ui, None, &audio(false), &relay(false), false);
    assert_eq!(ui.relay_status_title, "Party is off");
}

#[test]
fn starting_the_party_shows_its_outcome() {
    let mut ui = UiState::new();
    let (prepare, _) = launch_requested(&mut ui);
    assert!(prepare);
    assert!(ui.busy_label.starts_with("Launching the party"));
    assert!(relay_is_started(&None));
    assert!(!relay_is_started(&Some("no pactl".into())));
    launch_finished(
        &mut ui,
        Err("unreadable".into()),
        &audio(false),
        &relay(false),
        Some("no pactl".into()),
        None,
        false,
    );
    assert_eq!(ui.save_message, "unreadable");
    assert_eq!(ui.audio_status_title, "Desktop audio needs attention");
    assert_eq!(ui.relay_status_title, "Party is off");
    launch_finished(
        &mut ui,
        Ok(snapshot(Some("noon"))),
        &audio(true),
        &relay(false),
        None,
        Some("no voice".into()),
        true,
    );
    assert_eq!(ui.save_message, "Saved locally noon.");
    assert_eq!(ui.relay_status_title, "Party start needs attention");
    assert_eq!(ui.relay_status_body, "no voice");
    let (prepare, _) = launch_requested(&mut ui);
    assert!(!prepare);
}
