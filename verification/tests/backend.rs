use base64::{engine::general_purpose::URL_SAFE_NO_PAD, Engine as _};
use bardic_chord::names::{
    capture_target_or_default, property_matches_capture_target, pulse_property_escape,
    sanitize_audio_output_name,
};
use bardic_chord::platform::Platform;
use bardic_chord::pulse::{sink_input_matches_target, PulseSinkInput};
use bardic_chord::settings::Settings;
use bardic_chord::snapshot::AppSnapshot;
use bardic_chord::tasklist::{
    parse_windows_tasklist_for_pid, parse_windows_tasklist_for_target_candidates,
    parse_windows_tasklist_for_target_pid, WindowsProcessCandidate, WINDOWS_TASKLIST_ARGS,
};
use bardic_chord::textmap::TextMap;
use bardic_chord::token::{discord_application_id_from_token, normalize_discord_bot_token};

fn fake_discord_token(application_id: &str) -> String {
    let encoded = URL_SAFE_NO_PAD.encode(application_id.as_bytes());
    format!("{encoded}.payload.signature")
}

#[test]
fn normalize_discord_bot_token_trims_prefix_and_whitespace() {
    assert_eq!(
        normalize_discord_bot_token("  Bot abc.def.ghi  "),
        "abc.def.ghi"
    );
}

#[test]
fn discord_application_id_is_extracted_from_bot_token() {
    let token = fake_discord_token("1494272667946057819");
    assert_eq!(
        discord_application_id_from_token(&token).as_deref(),
        Some("1494272667946057819")
    );
}

#[test]
fn discord_application_id_rejects_invalid_token_payloads() {
    assert_eq!(discord_application_id_from_token("not-a-token"), None);
    assert_eq!(
        discord_application_id_from_token(&fake_discord_token("not-numeric")),
        None
    );
}

#[test]
fn sanitize_audio_output_name_normalizes_non_ascii_delimiters() {
    assert_eq!(
        sanitize_audio_output_name("Bardic Chord Output"),
        "bardic_chord_output"
    );
    assert_eq!(sanitize_audio_output_name("42"), "bardic_42");
    assert_eq!(sanitize_audio_output_name(""), "bardic_chord");
}

#[test]
fn settings_normalized_restores_default_audio_output_name() {
    let settings = Settings {
        audio_output_name: "   ".into(),
        capture_target: "   ".into(),
        bot_display_name: "   ".into(),
        ..Default::default()
    }
    .normalized();

    assert_eq!(settings.audio_output_name, "Bardic_Chord");
    assert_eq!(settings.capture_target, "spotify");
    assert_eq!(settings.bot_display_name, "The Amber Minstrel");
}

#[test]
fn settings_normalized_upgrades_legacy_audio_output_name() {
    let settings = Settings {
        audio_output_name: "Bardic Chord".into(),
        ..Default::default()
    }
    .normalized();

    assert_eq!(settings.audio_output_name, "Bardic_Chord");
}

#[test]
fn pulse_property_escape_keeps_full_display_name() {
    assert_eq!(pulse_property_escape("Bardic Chord"), "Bardic Chord");
    assert_eq!(pulse_property_escape("Bardic's Chord"), "Bardic\\'s Chord");
}

#[test]
fn app_snapshot_marks_desktop_audio_as_ready_on_linux() {
    let snapshot = AppSnapshot::from_settings(
        Settings {
            discord_bot_token: "token".into(),
            guild_id: "guild".into(),
            voice_channel_id: "channel".into(),
            audio_output_name: "Bardic_Chord".into(),
            bot_display_name: "The Amber Minstrel".into(),
            ..Default::default()
        },
        None,
        Platform::Linux,
    );

    assert_eq!(snapshot.health_tiles[1].label, "Desktop Audio");
    assert!(!snapshot.ritual_steps.is_empty());
}

#[test]
fn capture_target_matcher_detects_product_name_variants() {
    assert!(property_matches_capture_target("spotify", "spotify"));
    assert!(property_matches_capture_target("Spotify", "spotify"));
    assert!(property_matches_capture_target(
        "/opt/spotify/spotify",
        "spotify"
    ));
    assert!(property_matches_capture_target("firefox.exe", "firefox"));
    assert!(!property_matches_capture_target("firefox", "spotify"));
}

#[test]
fn windows_tasklist_args_are_well_formed() {
    assert_eq!(WINDOWS_TASKLIST_ARGS, ["/fo", "csv", "/nh"]);
}

#[test]
fn windows_tasklist_parser_detects_spotify_process() {
    let stdout = "\"Spotify.exe\",\"1337\",\"Console\",\"1\",\"123,456 K\"\n\
\"Discord.exe\",\"7331\",\"Console\",\"1\",\"654,321 K\"";

    assert_eq!(
        parse_windows_tasklist_for_target_pid(stdout, "spotify"),
        Some(1337)
    );
}

#[test]
fn windows_tasklist_parser_keeps_all_spotify_candidates() {
    let stdout = "\"Spotify.exe\",\"1337\",\"Console\",\"1\",\"123,456 K\"\n\
\"Spotify.exe\",\"1338\",\"Console\",\"1\",\"116,000 K\"\n\
\"SpotifyWidgetProvider.exe\",\"1339\",\"Console\",\"1\",\"28,000 K\"\n\
\"crashpad_handler.exe\",\"1340\",\"Console\",\"1\",\"1,000 K\"\n\
\"RuntimeBroker.exe\",\"1341\",\"Console\",\"1\",\"1,000 K\"";

    let candidates = parse_windows_tasklist_for_target_candidates(stdout, "spotify");

    assert_eq!(
        candidates,
        vec![
            WindowsProcessCandidate {
                image_name: "Spotify.exe".into(),
                pid: 1337,
            },
            WindowsProcessCandidate {
                image_name: "Spotify.exe".into(),
                pid: 1338,
            },
            WindowsProcessCandidate {
                image_name: "SpotifyWidgetProvider.exe".into(),
                pid: 1339,
            },
        ]
    );
}

#[test]
fn windows_tasklist_parser_finds_candidate_by_pid() {
    let stdout = "\"SpotifyLauncher.exe\",\"9908\",\"Console\",\"1\",\"682,420 K\"\n\
\"Spotify.exe\",\"26740\",\"Console\",\"1\",\"179,000 K\"";

    assert_eq!(
        parse_windows_tasklist_for_pid(stdout, 26740),
        Some(WindowsProcessCandidate {
            image_name: "Spotify.exe".into(),
            pid: 26740,
        })
    );
    assert_eq!(parse_windows_tasklist_for_pid(stdout, 123), None);
}

#[test]
fn sink_input_matcher_can_use_client_properties() {
    let input = PulseSinkInput {
        index: 42,
        client: Some("99".into()),
        sink: Some(7),
        properties: TextMap::new(),
    };
    let mut properties = TextMap::new();
    properties.insert("application.process.binary".into(), "spotify".into());
    let mut client_properties = TextMap::new();
    client_properties.insert("99".into(), properties);

    assert!(sink_input_matches_target(
        &input,
        &client_properties,
        "spotify"
    ));
}

#[test]
fn capture_target_normalization_restores_default() {
    assert_eq!(capture_target_or_default(""), "spotify");
    assert_eq!(capture_target_or_default("   firefox  "), "firefox");
}
