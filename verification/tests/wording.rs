use bardic_chord::snapshot::{ActivityEntry, HealthTile};
use bardic_chord::wording::{
    format_activity, format_health_tiles, format_steps, normalize_discord_user_reference,
};

#[test]
fn normalize_discord_user_reference_extracts_digits_from_mentions() {
    assert_eq!(
        normalize_discord_user_reference("<@1494272667946057819>"),
        "1494272667946057819"
    );
    assert_eq!(
        normalize_discord_user_reference("https://discord.com/users/1494272667946057819"),
        "1494272667946057819"
    );
}

#[test]
fn normalize_discord_user_reference_preserves_non_snowflakes() {
    assert_eq!(
        normalize_discord_user_reference("amber minstrel"),
        "amber minstrel"
    );
}

#[test]
fn format_steps_numbers_each_step() {
    let steps = vec!["Prepare the output".into(), "Start the party".into()];
    assert_eq!(
        format_steps(&steps).as_str(),
        "1. Prepare the output\n2. Start the party"
    );
}

#[test]
fn format_health_tiles_keeps_label_state_and_detail() {
    let tiles = vec![HealthTile {
        id: "discord".into(),
        label: "Discord".into(),
        state: "Ready".into(),
        detail: "The bot token is saved.".into(),
        tone: "ready".into(),
    }];

    assert_eq!(
        format_health_tiles(&tiles).as_str(),
        "Discord - Ready.\nThe bot token is saved."
    );
}

#[test]
fn format_activity_joins_entries_in_order() {
    let entries = vec![
        ActivityEntry {
            id: "one".into(),
            title: "Setup".into(),
            detail: "Desktop audio prepared".into(),
            timestamp: "Now".into(),
            tone: "ready".into(),
        },
        ActivityEntry {
            id: "two".into(),
            title: "Launch".into(),
            detail: "Party armed".into(),
            timestamp: "Later".into(),
            tone: "ready".into(),
        },
    ];

    assert_eq!(
        format_activity(&entries).as_str(),
        "Now - Setup\nDesktop audio prepared\n\nLater - Launch\nParty armed"
    );
}

#[test]
fn empty_lists_are_shown_as_nothing() {
    assert_eq!(format_steps(&[]), "");
    assert_eq!(format_health_tiles(&[]), "");
    assert_eq!(format_activity(&[]), "");
}

#[test]
fn user_reference_edges() {
    assert_eq!(normalize_discord_user_reference(""), "");
    assert_eq!(normalize_discord_user_reference("  42  "), "42");
    assert_eq!(normalize_discord_user_reference("   "), "");
    // Fourteen digits are too few, twenty-two too many.
    assert_eq!(
        normalize_discord_user_reference("<@12345678901234>"),
        "<@12345678901234>"
    );
    assert_eq!(
        normalize_discord_user_reference("<@123456789012345>"),
        "123456789012345"
    );
    assert_eq!(
        normalize_discord_user_reference("<@123456789012345678901>"),
        "123456789012345678901"
    );
    assert_eq!(
        normalize_discord_user_reference("<@1234567890123456789012>"),
        "<@1234567890123456789012>"
    );
}

#[test]
fn user_reference_is_stable() {
    for value in ["<@1494272667946057819>", " 12 ab ", "amber", "1", ""] {
        let once = normalize_discord_user_reference(value);
        assert_eq!(normalize_discord_user_reference(&once), once);
    }
}
