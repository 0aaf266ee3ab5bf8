use bardic_chord::discord::{
    discord_authorization, discord_error_message, discord_reply_failure, discord_request_url,
    parse_snowflake, voice_channel_kind_name, DiscordApplication, DiscordChannel,
    DiscordCurrentUser, DiscordGuild, DiscordGuildSummary, DiscordValidationReport,
};
use bardic_chord::settings::Settings;
use bardic_chord::validation::{DiscordReply, DiscordValidation, ValidationStage, ValidationStep};
use reqwest::StatusCode;

#[test]
fn requests_are_addressed_and_signed() {
    assert_eq!(
        discord_request_url("users/@me"),
        "https://discord.com/api/v10/users/@me"
    );
    assert_eq!(discord_authorization("abc"), "Bot abc");
}

#[test]
fn failures_name_their_status() {
    assert_eq!(
        discord_error_message(401, "anything"),
        "Discord rejected that bot token with 401 Unauthorized. Paste the full current bot token from the Discord Developer Portal."
    );
    assert_eq!(
        discord_error_message(404, "no such guild"),
        "Discord returned 404 Not Found: no such guild"
    );
    assert_eq!(
        discord_error_message(599, ""),
        "Discord returned 599 <unknown status code>: "
    );
    for code in 100..=999 {
        if code != 401 {
            let status = StatusCode::from_u16(code).unwrap();
            assert_eq!(
                discord_error_message(code, "body"),
                format!("Discord returned {status}: body")
            );
        }
    }
}

#[test]
fn replies_fail_outside_the_success_range() {
    for code in 100..=999 {
        let status = StatusCode::from_u16(code).unwrap();
        let failure = discord_reply_failure(code, Some("b".into()));
        assert_eq!(failure.is_none(), status.is_success());
    }
    assert_eq!(
        discord_reply_failure(500, None).as_deref(),
        Some("Discord returned 500 Internal Server Error: Discord did not return a readable error body.")
    );
}

#[test]
fn snowflakes_are_numbers() {
    assert_eq!(parse_snowflake(" 1494272667946057819 ", "guild ID"), Ok(1494272667946057819));
    assert_eq!(
        parse_snowflake("", "guild ID"),
        Err("Invalid guild ID: cannot parse integer from empty string".into())
    );
    assert_eq!(
        parse_snowflake("12x", "voice channel ID"),
        Err("Invalid voice channel ID: invalid digit found in string".into())
    );
    assert_eq!(
        parse_snowflake("99999999999999999999", "tracked user ID"),
        Err("Invalid tracked user ID: number too large to fit in target type".into())
    );
}

#[test]
fn channel_kinds_are_named() {
    let names = [
        (0, "Text"),
        (2, "Voice"),
        (4, "Category"),
        (5, "Announcement"),
        (13, "Stage Voice"),
        (15, "Forum"),
        (1, "Other"),
        (255, "Other"),
    ];
    for (kind, name) in names {
        assert_eq!(voice_channel_kind_name(kind), name);
    }
}

fn settings(guild: &str, channel: &str) -> Settings {
    Settings {
        discord_bot_token: " Bot MTIz.x.y ".into(),
        guild_id: guild.into(),
        voice_channel_id: channel.into(),
        ..Default::default()
    }
}

fn user(global_name: Option<&str>) -> DiscordReply {
    DiscordReply::User(Ok(DiscordCurrentUser {
        id: "77".into(),
        username: "bard".into(),
        global_name: global_name.map(String::from),
    }))
}

fn application() -> DiscordReply {
    DiscordReply::Application(Ok(DiscordApplication {
        id: "78".into(),
        name: "Bardic App".into(),
    }))
}

fn guilds(ids: &[&str]) -> DiscordReply {
    DiscordReply::Guilds(Ok(ids
        .iter()
        .map(|id| DiscordGuildSummary {
            id: id.to_string(),
            name: format!("guild {id}"),
        })
        .collect()))
}

fn guild(id: &str) -> DiscordReply {
    DiscordReply::Guild(Ok(DiscordGuild {
        id: id.into(),
        name: format!("guild {id}"),
    }))
}

fn channel(id: &str, kind: u8) -> DiscordChannel {
    DiscordChannel {
        id: id.into(),
        name: format!("channel {id}"),
        channel_type: kind,
    }
}

/// Asks for each resource in turn, and gives the paths and the end.
fn run(settings: &Settings, replies: Vec<DiscordReply>) -> (Vec<String>, ValidationStep) {
    let mut paths = Vec::new();
    let mut step = ValidationStep::Ask(DiscordValidation::new(settings).unwrap());
    for reply in replies {
        match step {
            ValidationStep::Ask(validation) => {
                paths.push(validation.path());
                step = validation.reply(reply);
            }
            end => panic!("ended early: {end:?}"),
        }
    }
    (paths, step)
}

fn report(step: ValidationStep) -> DiscordValidationReport {
    match step {
        ValidationStep::Report(report) => report,
        other => panic!("{other:?}"),
    }
}

fn failure(step: ValidationStep) -> String {
    match step {
        ValidationStep::Failed(error) => error,
        other => panic!("{other:?}"),
    }
}

#[test]
fn a_check_needs_a_token() {
    let blank = Settings {
        discord_bot_token: " Bot  ".into(),
        ..Default::default()
    };
    // The word alone is no token prefix once its space is trimmed away.
    assert!(DiscordValidation::new(&blank).is_ok());
    for token in ["", "   "] {
        let settings = Settings {
            discord_bot_token: token.into(),
            ..Default::default()
        };
        assert_eq!(
            DiscordValidation::new(&settings).err().as_deref(),
            Some("Discord bot token is required before Bardic Chord can connect.")
        );
    }
}

#[test]
fn a_check_starts_with_the_bot_itself() {
    let validation = DiscordValidation::new(&settings("", "")).unwrap();
    assert_eq!(validation.asks_for(), ValidationStage::User);
    assert_eq!(validation.bot_token(), "MTIz.x.y");
    assert_eq!(validation.path(), "users/@me");
}

#[test]
fn the_first_server_and_voice_channel_are_taken() {
    let channels = vec![channel("1", 0), channel("2", 13), channel("3", 2)];
    let (paths, end) = run(
        &settings("", " "),
        vec![
            user(Some("Bard")),
            application(),
            guilds(&["g1", "g2"]),
            guild("g1"),
            DiscordReply::Channels(Ok(channels)),
        ],
    );
    assert_eq!(
        paths,
        [
            "users/@me",
            "oauth2/applications/@me",
            "users/@me/guilds",
            "guilds/g1",
            "guilds/g1/channels"
        ]
    );
    let report = report(end);
    assert_eq!(report.bot_username, "bard");
    assert_eq!(report.bot_id, "77");
    assert_eq!(report.application_name.as_deref(), Some("Bardic App"));
    assert_eq!(report.application_id.as_deref(), Some("78"));
    assert!(report.invite_url.unwrap().contains("client_id=123&"));
    assert_eq!(report.guild_name.as_deref(), Some("guild g1"));
    assert_eq!(report.guild_id.as_deref(), Some("g1"));
    assert_eq!(report.voice_channel_id.as_deref(), Some("2"));
    assert_eq!(report.voice_channel_name.as_deref(), Some("channel 2"));
    assert_eq!(report.voice_channel_kind.as_deref(), Some("Stage Voice"));
    assert_eq!(report.guild_options.len(), 2);
    let offered = report
        .voice_channel_options
        .iter()
        .map(|c| (c.id.as_str(), c.kind.as_str()))
        .collect::<Vec<_>>();
    assert_eq!(offered, [("2", "Stage Voice"), ("3", "Voice")]);
    assert_eq!(
        report.message,
        "Bard is connected. Bardic Chord found the server `guild g1` and the voice channel `channel 2`."
    );
}

#[test]
fn a_channel_that_is_not_listed_is_asked_for() {
    let (paths, end) = run(
        &settings(" g9 ", " c9 "),
        vec![
            user(None),
            DiscordReply::Application(Err("no".into())),
            DiscordReply::Guilds(Err("no".into())),
            guild("g9"),
            DiscordReply::Channels(Ok(vec![channel("3", 2)])),
            DiscordReply::Channel(Ok(channel("c9", 5))),
        ],
    );
    assert_eq!(paths[3..], ["guilds/g9", "guilds/g9/channels", "channels/c9"]);
    let report = report(end);
    assert_eq!(report.application_name, None);
    assert_eq!(report.application_id.as_deref(), Some("77"));
    assert_eq!(report.voice_channel_kind.as_deref(), Some("Announcement"));
    assert!(report.guild_options.is_empty());
    assert!(report.message.starts_with("bard is connected. Bardic Chord found the server `guild g9`"));
}

#[test]
fn a_listed_channel_is_not_asked_for() {
    let (_, end) = run(
        &settings("g", "3"),
        vec![
            user(None),
            application(),
            guilds(&[]),
            guild("g"),
            DiscordReply::Channels(Ok(vec![channel("2", 13), channel("3", 2)])),
        ],
    );
    let report = report(end);
    assert_eq!(report.voice_channel_name.as_deref(), Some("channel 3"));
    assert_eq!(report.voice_channel_kind.as_deref(), Some("Voice"));
}

#[test]
fn a_server_without_voice_channels_leaves_the_channel_open() {
    let (_, end) = run(
        &settings("g", ""),
        vec![
            user(None),
            application(),
            guilds(&[]),
            guild("g"),
            DiscordReply::Channels(Ok(vec![channel("1", 0)])),
        ],
    );
    let report = report(end);
    assert_eq!(report.voice_channel_id, None);
    assert_eq!(
        report.message,
        "bard is connected. Bardic Chord found the server `guild g`. Choose a voice channel next."
    );
}

#[test]
fn a_bot_without_servers_is_reported() {
    let (paths, end) = run(&settings("", ""), vec![user(None), application(), guilds(&[])]);
    assert_eq!(paths.len(), 3);
    let report = report(end);
    assert_eq!(report.guild_id, None);
    assert_eq!(
        report.message,
        "bard is connected. If the bot is not in your server yet, open the invite page and Bardic Chord will check again."
    );
}

#[test]
fn a_channel_is_checked_even_without_a_server() {
    let (paths, end) = run(
        &settings("", "c"),
        vec![
            user(None),
            application(),
            guilds(&[]),
            DiscordReply::Channel(Ok(channel("c", 2))),
        ],
    );
    assert_eq!(paths[3], "channels/c");
    let report = report(end);
    assert_eq!(report.guild_name, None);
    assert_eq!(report.voice_channel_name.as_deref(), Some("channel c"));
}

#[test]
fn the_invite_page_falls_back_on_the_application() {
    let settings = Settings {
        discord_bot_token: "no-token!".into(),
        ..Default::default()
    };
    let (_, end) = run(&settings, vec![user(None), application(), guilds(&[])]);
    assert!(report(end).invite_url.unwrap().contains("client_id=78&"));
}

#[test]
fn failures_that_count_end_the_check() {
    let refused = || Err("refused".to_string());
    let (_, end) = run(&settings("g", "c"), vec![DiscordReply::User(Err("refused".into()))]);
    assert_eq!(failure(end), "refused");
    let (_, end) = run(
        &settings("g", "c"),
        vec![user(None), application(), guilds(&[]), DiscordReply::Guild(refused().map(|()| unreachable!()))],
    );
    assert_eq!(failure(end), "refused");
    let (_, end) = run(
        &settings("g", "c"),
        vec![user(None), application(), guilds(&[]), guild("g"), DiscordReply::Channels(Err("refused".into()))],
    );
    assert_eq!(failure(end), "refused");
    let (_, end) = run(
        &settings("g", "c"),
        vec![
            user(None),
            application(),
            guilds(&[]),
            guild("g"),
            DiscordReply::Channels(Ok(vec![])),
            DiscordReply::Channel(Err("refused".into())),
        ],
    );
    assert_eq!(failure(end), "refused");
}
