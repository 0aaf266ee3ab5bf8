use bardic_chord::names::{
    audio_output_name_or_default, capture_target_or_default, non_empty,
    process_name_matches_target, property_matches_capture_target, pulse_property_escape,
    sanitize_audio_output_name,
};

fn expected_sink_name(value: &str) -> String {
    let mut output = value
        .trim()
        .chars()
        .map(|c| {
            if c.is_ascii_alphanumeric() {
                c.to_ascii_lowercase()
            } else {
                '_'
            }
        })
        .collect::<String>();
    while output.contains("__") {
        output = output.replace("__", "_");
    }
    output = output.trim_matches('_').to_string();
    if output.is_empty() {
        "bardic_chord".into()
    } else if output.starts_with(|c: char| c.is_ascii_digit()) {
        format!("bardic_{output}")
    } else {
        output
    }
}

#[test]
fn sink_names_on_many_inputs() {
    for value in [
        "",
        "   ",
        "___",
        "a__b",
        "-A--b-",
        "4 Non Blondes",
        "é",
        "Été 9",
        "Bardic_Chord",
        "\u{3000}Ä b\u{3000}",
        "a!?b!!!c",
    ] {
        let name = sanitize_audio_output_name(value);
        assert_eq!(name, expected_sink_name(value), "{value}");
        assert_eq!(sanitize_audio_output_name(&name), name);
    }
}

#[test]
fn output_names_have_no_white_space() {
    assert_eq!(audio_output_name_or_default("  My  new\toutput "), "My_new_output");
    assert_eq!(audio_output_name_or_default(" \n "), "Bardic_Chord");
    assert_eq!(audio_output_name_or_default("My_new_output"), "My_new_output");
}

#[test]
fn targets_keep_their_inner_white_space() {
    assert_eq!(capture_target_or_default("  Google  Chrome "), "Google  Chrome");
    assert_eq!(capture_target_or_default("\t"), "spotify");
}

#[test]
fn only_text_counts_as_non_empty() {
    assert_eq!(non_empty("  a  "), Some("a"));
    assert_eq!(non_empty("   "), None);
}

#[test]
fn escaping_of_properties() {
    assert_eq!(pulse_property_escape("  a\\b'c\"d  "), "a\\\\b\\'cd");
    assert_eq!(pulse_property_escape(""), "");
}

fn expected_match(value: &str, target: &str) -> bool {
    let target = target.trim().to_ascii_lowercase();
    if target.is_empty() {
        return false;
    }
    let value = value.trim().to_ascii_lowercase();
    value.contains(&target)
        || value.contains(&format!("{target}.exe"))
        || value
            .trim_end_matches(".exe")
            .contains(target.trim_end_matches(".exe"))
}

#[test]
fn matching_on_many_inputs() {
    let values = ["", "Spotify", "spotify.exe", "SPOTIFY.EXE.exe", "firefox", " x ", ".exe"];
    let targets = ["", "  ", "spotify", "Spotify.exe", "spotify.exe.exe", ".exe", "FIRE", "x"];
    for value in values {
        for target in targets {
            let expected = expected_match(value, target);
            assert_eq!(property_matches_capture_target(value, target), expected);
            assert_eq!(process_name_matches_target(value, target), expected);
        }
    }
}

#[test]
fn blank_targets_match_nothing() {
    assert!(!property_matches_capture_target("anything", "  "));
    assert!(!property_matches_capture_target("", ""));
}
