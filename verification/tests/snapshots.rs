use bardic_chord::platform::{default_audio_idle_message, platform_name, Platform};
use bardic_chord::settings::Settings;
use bardic_chord::snapshot::AppSnapshot;

fn complete() -> Settings {
    Settings {
        discord_bot_token: "token".into(),
        guild_id: "1".into(),
        voice_channel_id: "2".into(),
        ..Default::default()
    }
}

fn states(snapshot: &AppSnapshot) -> Vec<&str> {
    snapshot.health_tiles.iter().map(|tile| tile.state.as_str()).collect()
}

#[test]
fn default_settings_are_normal() {
    let settings = Settings::default();
    assert_eq!(settings.audio_output_name, "Bardic_Chord");
    assert_eq!(settings.capture_target, "spotify");
    assert_eq!(settings.bot_display_name, "The Amber Minstrel");
    assert_eq!(settings.capture_target_pid, 0);
    assert_eq!(settings.discord_bot_token, "");
    let normal = Settings::default().normalized();
    assert_eq!(format!("{normal:?}"), format!("{settings:?}"));
}

#[test]
fn normalizing_twice_changes_nothing() {
    let settings = Settings {
        discord_bot_token: " t ".into(),
        tracked_user_id: " u ".into(),
        guild_id: " g ".into(),
        voice_channel_id: " c ".into(),
        audio_output_name: " my  output ".into(),
        capture_target: " app ".into(),
        capture_target_pid: 7,
        bot_display_name: " bard ".into(),
    };
    let once = settings.normalized();
    assert_eq!(once.discord_bot_token, "t");
    assert_eq!(once.tracked_user_id, "u");
    assert_eq!(once.guild_id, "g");
    assert_eq!(once.voice_channel_id, "c");
    assert_eq!(once.audio_output_name, "my_output");
    assert_eq!(once.capture_target, "app");
    assert_eq!(once.capture_target_pid, 7);
    assert_eq!(once.bot_display_name, "bard");
    let twice = once.clone().normalized();
    assert_eq!(format!("{once:?}"), format!("{twice:?}"));
}

#[test]
fn disconnected_settings_keep_the_rest() {
    let settings = Settings {
        tracked_user_id: "3".into(),
        audio_output_name: "out".into(),
        capture_target: "app".into(),
        capture_target_pid: 9,
        bot_display_name: "bard".into(),
        ..complete()
    }
    .without_discord();
    assert_eq!(settings.discord_bot_token, "");
    assert_eq!(settings.guild_id, "");
    assert_eq!(settings.voice_channel_id, "");
    assert_eq!(settings.tracked_user_id, "");
    assert_eq!(settings.audio_output_name, "out");
    assert_eq!(settings.capture_target, "app");
    assert_eq!(settings.capture_target_pid, 9);
    assert_eq!(settings.bot_display_name, "bard");
}

#[test]
fn an_empty_setup_needs_everything() {
    let snapshot = AppSnapshot::initial(Platform::Linux);
    assert_eq!(states(&snapshot), ["Needed", "Ready", "Needed", "Waiting"]);
    assert_eq!(snapshot.last_saved_at, None);
    assert_eq!(snapshot.activity.len(), 3);
    assert_eq!(snapshot.activity[2].title, "Discord token needed");
}

#[test]
fn a_complete_setup_is_ready_to_start() {
    let snapshot = AppSnapshot::from_settings(complete(), Some("now".into()), Platform::Linux);
    assert_eq!(states(&snapshot), ["Ready", "Ready", "Ready", "Ready"]);
    assert_eq!(
        snapshot.health_tiles[3].detail,
        "Setup is complete. Prepare the audio path for `spotify` and start the party."
    );
    assert_eq!(snapshot.last_saved_at.as_deref(), Some("now"));
    assert_eq!(
        snapshot.ritual_steps[1],
        "Prepare the `Bardic_Chord` desktop output from Bardic Chord."
    );
    assert_eq!(
        snapshot.ritual_steps[3],
        "Start the party so `The Amber Minstrel` joins the chosen Discord voice channel."
    );
}

#[test]
fn any_missing_part_holds_the_launch_back() {
    for part in 0..5 {
        let mut settings = complete();
        match part {
            0 => settings.discord_bot_token = " ".into(),
            1 => settings.audio_output_name = " ".into(),
            2 => settings.guild_id = " ".into(),
            3 => settings.voice_channel_id = " ".into(),
            _ => settings.bot_display_name = " ".into(),
        }
        let snapshot = AppSnapshot::from_settings(settings, None, Platform::Windows);
        assert_eq!(snapshot.health_tiles[3].state, "Waiting");
    }
}

#[test]
fn the_platform_shows_in_the_snapshot() {
    let windows = AppSnapshot::from_settings(complete(), None, Platform::Windows);
    assert_eq!(
        windows.health_tiles[1].detail,
        "`spotify` can be captured directly through Windows process loopback on this machine."
    );
    assert_eq!(
        windows.ritual_steps[1],
        "Prepare loopback capture for `spotify` from Bardic Chord."
    );
    let mac = AppSnapshot::from_settings(complete(), None, Platform::MacOs);
    assert_eq!(mac.health_tiles[1].state, "Later");
    assert_eq!(mac.health_tiles[1].tone, "waiting");
    assert_eq!(mac.activity[1].title, "Platform backend pending");
}

#[test]
fn following_shows_in_the_snapshot() {
    let settings = Settings {
        tracked_user_id: "3".into(),
        ..complete()
    };
    let snapshot = AppSnapshot::from_settings(settings, None, Platform::Linux);
    assert_eq!(
        snapshot.health_tiles[2].detail,
        "The server and voice channel are chosen, and follow mode is on."
    );
    assert_eq!(
        snapshot.ritual_steps[4],
        "Follow mode is on, so Bardic Chord will move with that user."
    );
}

#[test]
fn a_saved_snapshot_is_loaded_as_it_was() {
    let settings = Settings {
        audio_output_name: "my output".into(),
        ..complete()
    }
    .normalized();
    let saved = AppSnapshot::from_settings(settings.clone(), Some("then".into()), Platform::Linux);
    let loaded = AppSnapshot::loaded(settings, Some("then".into()), Platform::Linux);
    assert_eq!(format!("{saved:?}"), format!("{loaded:?}"));
}

#[test]
fn platforms_are_named() {
    assert_eq!(platform_name(Platform::Linux), "Linux");
    assert_eq!(platform_name(Platform::Windows), "Windows");
    assert_eq!(platform_name(Platform::MacOs), "macOS");
    assert_eq!(platform_name(Platform::Other), "this platform");
    assert!(default_audio_idle_message(Platform::Other).starts_with("This platform still needs"));
}
