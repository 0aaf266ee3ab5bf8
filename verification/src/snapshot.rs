//! What the app shows of its setup.
use crate::names;
use crate::names::{audio_output_name_or_default, capture_target_or_default};
use crate::platform::Platform;
use crate::settings::{Settings, SettingsView};
use crate::text;
use crate::text::is_blank;
use vstd::prelude::*;

verus! {

#[derive(Debug)]
pub struct HealthTile {
    pub id: String,
    pub label: String,
    pub state: String,
    pub detail: String,
    pub tone: String,
}

#[verifier::ext_equal]
pub struct HealthTileView {
    pub id: Seq<char>,
    pub label: Seq<char>,
    pub state: Seq<char>,
    pub detail: Seq<char>,
    pub tone: Seq<char>,
}

impl View for HealthTile {
    type V = HealthTileView;

    open spec fn view(&self) -> HealthTileView {
        HealthTileView {
            id: self.id@,
            label: self.label@,
            state: self.state@,
            detail: self.detail@,
            tone: self.tone@,
        }
    }
}

#[derive(Debug)]
pub struct ActivityEntry {
    pub id: String,
    pub title: String,
    pub detail: String,
    pub timestamp: String,
    pub tone: String,
}

#[verifier::ext_equal]
pub struct ActivityEntryView {
    pub id: Seq<char>,
    pub title: Seq<char>,
    pub detail: Seq<char>,
    pub timestamp: Seq<char>,
    pub tone: Seq<char>,
}

impl View for ActivityEntry {
    type V = ActivityEntryView;

    open spec fn view(&self) -> ActivityEntryView {
        ActivityEntryView {
            id: self.id@,
            title: self.title@,
            detail: self.detail@,
            timestamp: self.timestamp@,
            tone: self.tone@,
        }
    }
}

#[derive(Debug)]
pub struct AppSnapshot {
    pub settings: Settings,
    pub health_tiles: Vec<HealthTile>,
    pub ritual_steps: Vec<String>,
    pub activity: Vec<ActivityEntry>,
    pub last_saved_at: Option<String>,
}

#[verifier::ext_equal]
pub struct AppSnapshotView {
    pub settings: SettingsView,
    pub health_tiles: Seq<HealthTileView>,
    pub ritual_steps: Seq<Seq<char>>,
    pub activity: Seq<ActivityEntryView>,
    pub last_saved_at: Option<Seq<char>>,
}

impl View for AppSnapshot {
    type V = AppSnapshotView;

    open spec fn view(&self) -> AppSnapshotView {
        AppSnapshotView {
            settings: self.settings@,
            health_tiles: self.health_tiles@.map_values(|t: HealthTile| t@),
            ritual_steps: text::texts(self.ritual_steps@),
            activity: self.activity@.map_values(|e: ActivityEntry| e@),
            last_saved_at: text::opt(self.last_saved_at),
        }
    }
}

/// Which parts of the setup are done.
pub struct Readiness {
    pub discord: bool,
    pub audio_name: bool,
    pub routing: bool,
    pub identity: bool,
    pub following: bool,
}

impl Readiness {
    /// Whether the party can start.
    pub open spec fn complete(self) -> bool {
        self.discord && self.audio_name && self.routing && self.identity
    }
}

/// Which parts of the setup the settings show as done.
pub open spec fn readiness(s: SettingsView) -> Readiness {
    Readiness {
        discord: !text::blank(s.discord_bot_token),
        audio_name: !text::blank(s.audio_output_name),
        routing: !text::blank(s.guild_id) && !text::blank(s.voice_channel_id),
        identity: !text::blank(s.bot_display_name),
        following: !text::blank(s.tracked_user_id),
    }
}

pub open spec fn discord_tile(ready: bool) -> HealthTileView {
    HealthTileView {
        id: "discord"@,
        label: "Discord"@,
        state: if ready {
            "Ready"@
        } else {
            "Needed"@
        },
        detail: if ready {
            "The bot token is saved and Bardic Chord can connect to Discord."@
        } else {
            "Add the Discord bot token to continue setup."@
        },
        tone: if ready {
            "ready"@
        } else {
            "waiting"@
        },
    }
}

pub open spec fn audio_tile(
    named: bool,
    capture_target: Seq<char>,
    platform: Platform,
) -> HealthTileView {
    HealthTileView {
        id: "audio"@,
        label: "Desktop Audio"@,
        state: if !platform.captures() {
            "Later"@
        } else if named {
            "Ready"@
        } else {
            "Needed"@
        },
        detail: if !platform.captures() {
            "This build needs a future native loopback backend for the current platform."@
        } else if named && platform == Platform::Windows {
            "`"@ + capture_target
                + "` can be captured directly through Windows process loopback on this machine."@
        } else if named {
            "A local desktop output can be prepared for routing `"@ + capture_target
                + "` on this machine."@
        } else if platform == Platform::Windows {
            "Prepare app loopback capture before starting the relay."@
        } else {
            "Name the local desktop output before preparing audio capture."@
        },
        tone: if !platform.captures() {
            "waiting"@
        } else if named {
            "ready"@
        } else {
            "caution"@
        },
    }
}

pub open spec fn routing_tile(ready: bool, following: bool) -> HealthTileView {
    HealthTileView {
        id: "routing"@,
        label: "Discord Channel"@,
        state: if ready {
            "Ready"@
        } else {
            "Needed"@
        },
        detail: if !ready {
            "Choose the server and voice channel where the music should play."@
        } else if following {
            "The server and voice channel are chosen, and follow mode is on."@
        } else {
            "The server and voice channel are chosen."@
        },
        tone: if ready {
            "ready"@
        } else {
            "caution"@
        },
    }
}

pub open spec fn launch_tile(complete: bool, capture_target: Seq<char>) -> HealthTileView {
    HealthTileView {
        id: "launch"@,
        label: "Ready to Start"@,
        state: if complete {
            "Ready"@
        } else {
            "Waiting"@
        },
        detail: if complete {
            "Setup is complete. Prepare the audio path for `"@ + capture_target
                + "` and start the party."@
        } else {
            "Finish Discord, audio naming, and channel selection before starting the party."@
        },
        tone: if complete {
            "ready"@
        } else {
            "waiting"@
        },
    }
}

/// The four tiles that say how far the setup is.
pub open spec fn health_tiles(s: SettingsView, platform: Platform) -> Seq<HealthTileView> {
    let ready = readiness(s);
    let target = names::capture_target(s.capture_target);
    seq![
        discord_tile(ready.discord),
        audio_tile(ready.audio_name, target, platform),
        routing_tile(ready.routing, ready.following),
        launch_tile(ready.complete(), target),
    ]
}

/// The steps to a running party.
pub open spec fn ritual_steps(s: SettingsView, platform: Platform) -> Seq<Seq<char>> {
    let target = names::capture_target(s.capture_target);
    seq![
        "Paste the Discord bot token and invite the bot if needed."@,
        if platform == Platform::Windows {
            "Prepare loopback capture for `"@ + target + "` from Bardic Chord."@
        } else {
            "Prepare the `"@ + names::output_name(s.audio_output_name)
                + "` desktop output from Bardic Chord."@
        },
        if platform == Platform::Windows {
            "Start playback in `"@ + target
                + "` whenever you are ready; Bardic Chord will attach when it hears audio."@
        } else {
            "In your system sound settings, make sure `"@ + target + "` is routed to that output."@
        },
        "Start the party so `"@ + s.bot_display_name + "` joins the chosen Discord voice channel."@,
        if text::blank(s.tracked_user_id) {
            "Follow mode is optional. Leave it off if you want the bot to stay in one channel."@
        } else {
            "Follow mode is on, so Bardic Chord will move with that user."@
        },
    ]
}

/// The notes on what the app does at this point of the setup.
pub open spec fn activity(s: SettingsView, platform: Platform) -> Seq<ActivityEntryView> {
    let target = names::capture_target(s.capture_target);
    let discord = readiness(s).discord;
    let captures = platform.captures();
    seq![
        ActivityEntryView {
            id: "phase"@,
            title: "Guided desktop relay"@,
            detail:
                "Bardic Chord now walks the user through Discord, desktop audio setup, and party launch in order."@,
            timestamp: "Now"@,
            tone: "accent"@,
        },
        ActivityEntryView {
            id: "audio"@,
            title: if captures {
                "Local audio capture"@
            } else {
                "Platform backend pending"@
            },
            detail: if captures {
                "`"@ + target
                    + "` should be captured locally instead of relying on a Spotify Connect receiver."@
            } else {
                "The current release documents the shared UX, but this platform still needs a native capture backend."@
            },
            timestamp: "Setup"@,
            tone: if captures {
                "success"@
            } else {
                "muted"@
            },
        },
        ActivityEntryView {
            id: "discord"@,
            title: if discord {
                "Discord is ready"@
            } else {
                "Discord token needed"@
            },
            detail: if discord {
                "Next, choose the channel and let Bardic Chord join when the party starts."@
            } else {
                "Add the bot token so Bardic Chord can find your server and voice channel."@
            },
            timestamp: "Setup"@,
            tone: if discord {
                "success"@
            } else {
                "muted"@
            },
        },
    ]
}

/// What the app shows of its setup.
pub open spec fn snapshot_of(
    s: SettingsView,
    last_saved_at: Option<Seq<char>>,
    platform: Platform,
) -> AppSnapshotView {
    AppSnapshotView {
        settings: s,
        health_tiles: health_tiles(s, platform),
        ritual_steps: ritual_steps(s, platform),
        activity: activity(s, platform),
        last_saved_at,
    }
}

fn pick(condition: bool, yes: &'static str, no: &'static str) -> (r: &'static str)
    ensures
        r@ == if condition {
            yes@
        } else {
            no@
        },
{
    if condition {
        yes
    } else {
        no
    }
}

fn tile(id: &str, label: &str, state: &str, detail: String, tone: &str) -> (r: HealthTile)
    ensures
        r@ == (HealthTileView {
            id: id@,
            label: label@,
            state: state@,
            detail: detail@,
            tone: tone@,
        }),
{
    HealthTile {
        id: id.to_owned(),
        label: label.to_owned(),
        state: state.to_owned(),
        detail,
        tone: tone.to_owned(),
    }
}

fn entry(id: &str, title: &str, detail: String, timestamp: &str, tone: &str) -> (r: ActivityEntry)
    ensures
        r@ == (ActivityEntryView {
            id: id@,
            title: title@,
            detail: detail@,
            timestamp: timestamp@,
            tone: tone@,
        }),
{
    ActivityEntry {
        id: id.to_owned(),
        title: title.to_owned(),
        detail,
        timestamp: timestamp.to_owned(),
        tone: tone.to_owned(),
    }
}

fn build_discord_tile(ready: bool) -> (r: HealthTile)
    ensures
        r@ == discord_tile(ready),
{
    tile(
        "discord",
        "Discord",
        pick(ready, "Ready", "Needed"),
        pick(
            ready,
            "The bot token is saved and Bardic Chord can connect to Discord.",
            "Add the Discord bot token to continue setup.",
        ).to_owned(),
        pick(ready, "ready", "waiting"),
    )
}

fn build_audio_tile(named: bool, capture_target: &str, platform: Platform) -> (r: HealthTile)
    ensures
        r@ == audio_tile(named, capture_target@, platform),
{
    let windows = platform.is_windows();
    if !platform.captures_audio() {
        tile(
            "audio",
            "Desktop Audio",
            "Later",
            "This build needs a future native loopback backend for the current platform.".to_owned(),
            "waiting",
        )
    } else if named {
        let detail = if windows {
            "`".to_owned().concat(capture_target).concat(
                "` can be captured directly through Windows process loopback on this machine.",
            )
        } else {
            "A local desktop output can be prepared for routing `".to_owned().concat(
                capture_target,
            ).concat("` on this machine.")
        };
        tile("audio", "Desktop Audio", "Ready", detail, "ready")
    } else {
        tile(
            "audio",
            "Desktop Audio",
            "Needed",
            pick(
                windows,
                "Prepare app loopback capture before starting the relay.",
                "Name the local desktop output before preparing audio capture.",
            ).to_owned(),
            "caution",
        )
    }
}

fn build_routing_tile(ready: bool, following: bool) -> (r: HealthTile)
    ensures
        r@ == routing_tile(ready, following),
{
    let detail = if !ready {
        "Choose the server and voice channel where the music should play."
    } else {
        pick(
            following,
            "The server and voice channel are chosen, and follow mode is on.",
            "The server and voice channel are chosen.",
        )
    };
    tile(
        "routing",
        "Discord Channel",
        pick(ready, "Ready", "Needed"),
        detail.to_owned(),
        pick(ready, "ready", "caution"),
    )
}

fn build_launch_tile(complete: bool, capture_target: &str) -> (r: HealthTile)
    ensures
        r@ == launch_tile(complete, capture_target@),
{
    let detail = if complete {
        "Setup is complete. Prepare the audio path for `".to_owned().concat(capture_target).concat(
            "` and start the party.",
        )
    } else {
        "Finish Discord, audio naming, and channel selection before starting the party.".to_owned()
    };
    tile(
        "launch",
        "Ready to Start",
        pick(complete, "Ready", "Waiting"),
        detail,
        pick(complete, "ready", "waiting"),
    )
}

fn build_ritual_steps(settings: &Settings, capture_target: &str, platform: Platform) -> (r: Vec<
    String,
>)
    requires
        capture_target@ == names::capture_target(settings.capture_target@),
    ensures
        text::texts(r@) == ritual_steps(settings@, platform),
{
    let windows = platform.is_windows();
    let prepare = if windows {
        "Prepare loopback capture for `".to_owned().concat(capture_target).concat(
            "` from Bardic Chord.",
        )
    } else {
        let name = audio_output_name_or_default(settings.audio_output_name.as_str());
        "Prepare the `".to_owned().concat(name.as_str()).concat(
            "` desktop output from Bardic Chord.",
        )
    };
    let play = if windows {
        "Start playback in `".to_owned().concat(capture_target).concat(
            "` whenever you are ready; Bardic Chord will attach when it hears audio.",
        )
    } else {
        "In your system sound settings, make sure `".to_owned().concat(capture_target).concat(
            "` is routed to that output.",
        )
    };
    let start = "Start the party so `".to_owned().concat(settings.bot_display_name.as_str()).concat(
        "` joins the chosen Discord voice channel.",
    );
    let follow = pick(
        is_blank(settings.tracked_user_id.as_str()),
        "Follow mode is optional. Leave it off if you want the bot to stay in one channel.",
        "Follow mode is on, so Bardic Chord will move with that user.",
    );
    let r = vec![
        "Paste the Discord bot token and invite the bot if needed.".to_owned(),
        prepare,
        play,
        start,
        follow.to_owned(),
    ];
    assert(text::texts(r@) =~= ritual_steps(settings@, platform));
    r
}

fn build_activity(settings: &Settings, capture_target: &str, platform: Platform) -> (r: Vec<
    ActivityEntry,
>)
    requires
        capture_target@ == names::capture_target(settings.capture_target@),
    ensures
        r@.map_values(|e: ActivityEntry| e@) == activity(settings@, platform),
{
    let discord = !is_blank(settings.discord_bot_token.as_str());
    let captures = platform.captures_audio();
    let audio_detail = if captures {
        "`".to_owned().concat(capture_target).concat(
            "` should be captured locally instead of relying on a Spotify Connect receiver.",
        )
    } else {
        "The current release documents the shared UX, but this platform still needs a native capture backend.".to_owned()
    };
    let r = vec![
        entry(
            "phase",
            "Guided desktop relay",
            "Bardic Chord now walks the user through Discord, desktop audio setup, and party launch in order.".to_owned(),
            "Now",
            "accent",
        ),
        entry(
            "audio",
            pick(captures, "Local audio capture", "Platform backend pending"),
            audio_detail,
            "Setup",
            pick(captures, "success", "muted"),
        ),
        entry(
            "discord",
            pick(discord, "Discord is ready", "Discord token needed"),
            pick(
                discord,
                "Next, choose the channel and let Bardic Chord join when the party starts.",
                "Add the bot token so Bardic Chord can find your server and voice channel.",
            ).to_owned(),
            "Setup",
            pick(discord, "success", "muted"),
        ),
    ];
    assert(r@.map_values(|e: ActivityEntry| e@) =~= activity(settings@, platform));
    r
}

impl AppSnapshot {
    /// What the app shows of its setup with the given settings.
    pub fn from_settings(
        settings: Settings,
        last_saved_at: Option<String>,
        platform: Platform,
    ) -> (r: AppSnapshot)
        ensures
            r@ == snapshot_of(settings@, text::opt(last_saved_at), platform),
    {
        let discord_ready = !is_blank(settings.discord_bot_token.as_str());
        let audio_name_ready = !is_blank(settings.audio_output_name.as_str());
        let capture_target = capture_target_or_default(settings.capture_target.as_str());
        let routing_ready = !is_blank(settings.guild_id.as_str()) && !is_blank(
            settings.voice_channel_id.as_str(),
        );
        let identity_ready = !is_blank(settings.bot_display_name.as_str());
        let following = !is_blank(settings.tracked_user_id.as_str());
        let ready_to_start = discord_ready && audio_name_ready && routing_ready && identity_ready;
        let health_tiles = vec![
            build_discord_tile(discord_ready),
            build_audio_tile(audio_name_ready, capture_target.as_str(), platform),
            build_routing_tile(routing_ready, following),
            build_launch_tile(ready_to_start, capture_target.as_str()),
        ];
        assert(health_tiles@.map_values(|t: HealthTile| t@) =~= self::health_tiles(
            settings@,
            platform,
        ));
        let ritual_steps = build_ritual_steps(&settings, capture_target.as_str(), platform);
        let activity = build_activity(&settings, capture_target.as_str(), platform);
        AppSnapshot { settings, health_tiles, ritual_steps, activity, last_saved_at }
    }

    /// The snapshot of settings that were just loaded: they come into normal form
    /// first.
    pub fn loaded(settings: Settings, last_saved_at: Option<String>, platform: Platform) -> (r:
        AppSnapshot)
        ensures
            r@ == snapshot_of(
                crate::settings::normalized_settings(settings@),
                text::opt(last_saved_at),
                platform,
            ),
    {
        AppSnapshot::from_settings(settings.normalized(), last_saved_at, platform)
    }

    /// The snapshot before anything was saved.
    pub fn initial(platform: Platform) -> (r: AppSnapshot)
        ensures
            r@ == snapshot_of(crate::settings::default_settings(), None, platform),
    {
        AppSnapshot::from_settings(Settings::default(), None, platform)
    }
}

// ---------------------------------------------------------------------------
// Laws
// ---------------------------------------------------------------------------

/// The launch tile says that the party can start exactly when the tiles for
/// Discord and for the channel say `Ready`, and the output and the bot have names.
pub proof fn launch_needs_every_part(s: SettingsView, platform: Platform)
    ensures
        health_tiles(s, platform)[3].state == "Ready"@ <==> (health_tiles(s, platform)[0].state
            == "Ready"@ && health_tiles(s, platform)[2].state == "Ready"@ && !text::blank(
            s.audio_output_name,
        ) && !text::blank(s.bot_display_name)),
{
    reveal_strlit("Ready");
    reveal_strlit("Needed");
    reveal_strlit("Waiting");
    assert("Ready"@.len() == 5);
    assert("Needed"@.len() == 6);
    assert("Waiting"@.len() == 7);
}

/// What is loaded after saving is the snapshot that was saved.
pub proof fn saving_keeps_the_snapshot(
    s: SettingsView,
    saved_at: Option<Seq<char>>,
    platform: Platform,
)
    ensures
        snapshot_of(
            crate::settings::normalized_settings(
                snapshot_of(
                    crate::settings::normalized_settings(s),
                    saved_at,
                    platform,
                ).settings,
            ),
            saved_at,
            platform,
        ) == snapshot_of(crate::settings::normalized_settings(s), saved_at, platform),
{
    crate::settings::normalized_is_idempotent(s);
}

/// Each tile is ready exactly where its own entries are there: the token, the name of
/// the output where sound can be captured, server and channel together, and the last
/// one where all of these and the name of the bot are there.
pub proof fn tiles_go_by_their_entries(s: SettingsView, platform: Platform)
    ensures
        ({
            let tiles = health_tiles(s, platform);
            let captures = platform == Platform::Linux || platform == Platform::Windows;
            let token = !text::blank(s.discord_bot_token);
            let output = !text::blank(s.audio_output_name);
            let route = !text::blank(s.guild_id) && !text::blank(s.voice_channel_id);
            let bot = !text::blank(s.bot_display_name);
            &&& tiles.len() == 4
            &&& tiles[0].state == "Ready"@ <==> token
            &&& tiles[0].tone == "ready"@ <==> token
            &&& tiles[1].state == "Ready"@ <==> captures && output
            &&& tiles[1].tone == "ready"@ <==> captures && output
            &&& tiles[1].state == "Needed"@ <==> captures && !output
            &&& tiles[2].state == "Ready"@ <==> route
            &&& tiles[2].tone == "ready"@ <==> route
            &&& tiles[3].state == "Ready"@ <==> token && output && route && bot
            &&& tiles[3].tone == "ready"@ <==> token && output && route && bot
            &&& tiles[2].detail == "The server and voice channel are chosen."@ <==> route
                && text::blank(s.tracked_user_id)
        }),
{
    reveal_strlit("Ready");
    reveal_strlit("Needed");
    reveal_strlit("Later");
    reveal_strlit("Waiting");
    reveal_strlit("ready");
    reveal_strlit("waiting");
    reveal_strlit("caution");
    assert("Ready"@.len() == 5 && "Needed"@.len() == 6 && "Later"@.len() == 5);
    assert("Ready"@[0] == 'R' && "Later"@[0] == 'L');
    assert("Waiting"@.len() == 7 && "ready"@.len() == 5 && "waiting"@.len() == 7);
    assert("caution"@.len() == 7);
    reveal_strlit("The server and voice channel are chosen.");
    reveal_strlit("The server and voice channel are chosen, and follow mode is on.");
    reveal_strlit("Choose the server and voice channel where the music should play.");
    assert("The server and voice channel are chosen."@.len() == 40);
    assert("The server and voice channel are chosen, and follow mode is on."@.len() == 63);
    assert("Choose the server and voice channel where the music should play."@.len() == 64);
}

/// The text between two backquotes.
pub open spec fn quoted(s: Seq<char>) -> Seq<char> {
    seq!['`'] + s + seq!['`']
}

/// The steps name the target, the output and the bot as the settings name them, each
/// in its own step, and the last step says whether somebody is followed.
pub proof fn steps_name_the_entries(s: SettingsView, platform: Platform)
    requires
        !text::blank(s.capture_target),
        s.audio_output_name.len() > 0,
        text::CharClass::NotSpace.has_all(s.audio_output_name),
    ensures
        ({
            let steps = ritual_steps(s, platform);
            &&& steps.len() == 5
            &&& platform == Platform::Windows ==> text::occurs(
                steps[1],
                quoted(text::trimmed(s.capture_target)),
            )
            &&& platform != Platform::Windows ==> text::occurs(
                steps[1],
                quoted(s.audio_output_name),
            )
            &&& text::occurs(steps[2], quoted(text::trimmed(s.capture_target)))
            &&& text::occurs(steps[3], quoted(s.bot_display_name))
            &&& steps[4] == "Follow mode is on, so Bardic Chord will move with that user."@
                <==> !text::blank(s.tracked_user_id)
        }),
{
    let steps = ritual_steps(s, platform);
    let target = text::trimmed(s.capture_target);
    let output = s.audio_output_name;
    let none = Seq::<char>::empty();
    names::output_name_joins_words(none, seq![output], ' ', none);
    assert(none + text::join(seq![output], seq![' ']) + none =~= output);
    reveal_strlit("Follow mode is on, so Bardic Chord will move with that user.");
    reveal_strlit("Follow mode is optional. Leave it off if you want the bot to stay in one channel.");
    assert("Follow mode is on, so Bardic Chord will move with that user."@[16] == 'n');
    assert("Follow mode is optional. Leave it off if you want the bot to stay in one channel."@[16]
        == 'p');
    reveal_strlit("Start the party so `");
    reveal_strlit("` joins the chosen Discord voice channel.");
    lemma_quoted_occurs(
        "Start the party so `"@,
        s.bot_display_name,
        "` joins the chosen Discord voice channel."@,
    );
    if platform == Platform::Windows {
        reveal_strlit("Prepare loopback capture for `");
        reveal_strlit("` from Bardic Chord.");
        reveal_strlit("Start playback in `");
        reveal_strlit("` whenever you are ready; Bardic Chord will attach when it hears audio.");
        lemma_quoted_occurs("Prepare loopback capture for `"@, target, "` from Bardic Chord."@);
        lemma_quoted_occurs(
            "Start playback in `"@,
            target,
            "` whenever you are ready; Bardic Chord will attach when it hears audio."@,
        );
    } else {
        reveal_strlit("Prepare the `");
        reveal_strlit("` desktop output from Bardic Chord.");
        reveal_strlit("In your system sound settings, make sure `");
        reveal_strlit("` is routed to that output.");
        lemma_quoted_occurs("Prepare the `"@, output, "` desktop output from Bardic Chord."@);
        lemma_quoted_occurs(
            "In your system sound settings, make sure `"@,
            target,
            "` is routed to that output."@,
        );
    }
}

proof fn lemma_quoted_occurs(front: Seq<char>, name: Seq<char>, back: Seq<char>)
    requires
        front.len() > 0,
        front.last() == '`',
        back.len() > 0,
        back[0] == '`',
    ensures
        text::occurs(front + name + back, quoted(name)),
{
    assert(front + name + back =~= front.drop_last() + quoted(name) + back.drop_first());
    text::part_occurs(front.drop_last(), quoted(name), back.drop_first());
}

/// A snapshot holds the settings and the time that it was made of.
pub proof fn snapshot_holds_its_settings(
    s: SettingsView,
    last_saved_at: Option<Seq<char>>,
    platform: Platform,
)
    ensures
        snapshot_of(s, last_saved_at, platform).settings == s,
        snapshot_of(s, last_saved_at, platform).last_saved_at == last_saved_at,
        snapshot_of(s, last_saved_at, platform).health_tiles == health_tiles(s, platform),
        snapshot_of(s, last_saved_at, platform).ritual_steps == ritual_steps(s, platform),
        snapshot_of(s, last_saved_at, platform).activity == activity(s, platform),
{
}

/// The notes say whether the token is there, and name the target where its sound can be
/// captured.
pub proof fn notes_go_by_the_entries(s: SettingsView, platform: Platform)
    ensures
        ({
            let notes = activity(s, platform);
            let captures = platform == Platform::Linux || platform == Platform::Windows;
            &&& notes.len() == 3
            &&& notes[2].tone == "success"@ <==> !text::blank(s.discord_bot_token)
            &&& notes[1].tone == "success"@ <==> captures
            &&& captures && !text::blank(s.capture_target) ==> text::occurs(
                notes[1].detail,
                text::trimmed(s.capture_target),
            )
        }),
{
    reveal_strlit("success");
    reveal_strlit("muted");
    assert("success"@.len() != "muted"@.len());
    text::part_occurs(
        "`"@,
        text::trimmed(s.capture_target),
        "` should be captured locally instead of relying on a Spotify Connect receiver."@,
    );
}

/// The tiles name the target whose sound is captured and sent.
pub proof fn tiles_name_the_target(s: SettingsView, platform: Platform)
    requires
        !text::blank(s.capture_target),
    ensures
        ({
            let tiles = health_tiles(s, platform);
            &&& tiles[1].state == "Ready"@ ==> text::occurs(
                tiles[1].detail,
                text::trimmed(s.capture_target),
            )
            &&& tiles[3].state == "Ready"@ ==> text::occurs(
                tiles[3].detail,
                text::trimmed(s.capture_target),
            )
        }),
{
    let target = text::trimmed(s.capture_target);
    tiles_go_by_their_entries(s, platform);
    text::part_occurs(
        "`"@,
        target,
        "` can be captured directly through Windows process loopback on this machine."@,
    );
    text::part_occurs(
        "A local desktop output can be prepared for routing `"@,
        target,
        "` on this machine."@,
    );
    text::part_occurs(
        "Setup is complete. Prepare the audio path for `"@,
        target,
        "` and start the party."@,
    );
}

} // verus!
