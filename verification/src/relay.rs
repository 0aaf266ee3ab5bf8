//! The relay into a Discord voice channel: what the user sees of it, and what the
//! events of the voice connection change.
use crate::platform::Platform;
use crate::text;
use crate::text::{clone_opt, clone_texts};
use std::collections::HashMap;
use vstd::prelude::*;

verus! {

/// What the user sees of the relay.
#[derive(Debug)]
pub struct DiscordRelayReport {
    pub active: bool,
    pub guild_name: Option<String>,
    pub guild_id: Option<String>,
    pub voice_channel_name: Option<String>,
    pub voice_channel_id: Option<String>,
    pub bot_username: Option<String>,
    pub started_at: Option<String>,
    pub message: String,
    pub instruction_steps: Vec<String>,
}

#[verifier::ext_equal]
pub struct RelayReportView {
    pub active: bool,
    pub guild_name: Option<Seq<char>>,
    pub guild_id: Option<Seq<char>>,
    pub voice_channel_name: Option<Seq<char>>,
    pub voice_channel_id: Option<Seq<char>>,
    pub bot_username: Option<Seq<char>>,
    pub started_at: Option<Seq<char>>,
    pub message: Seq<char>,
    pub instruction_steps: Seq<Seq<char>>,
}

impl View for DiscordRelayReport {
    type V = RelayReportView;

    open spec fn view(&self) -> RelayReportView {
        RelayReportView {
            active: self.active,
            guild_name: text::opt(self.guild_name),
            guild_id: text::opt(self.guild_id),
            voice_channel_name: text::opt(self.voice_channel_name),
            voice_channel_id: text::opt(self.voice_channel_id),
            bot_username: text::opt(self.bot_username),
            started_at: text::opt(self.started_at),
            message: self.message@,
            instruction_steps: text::texts(self.instruction_steps@),
        }
    }
}

/// A copy of the report.
pub fn clone_discord_relay_report(report: &DiscordRelayReport) -> (r: DiscordRelayReport)
    ensures
        r@ == report@,
{
    DiscordRelayReport {
        active: report.active,
        guild_name: clone_opt(&report.guild_name),
        guild_id: clone_opt(&report.guild_id),
        voice_channel_name: clone_opt(&report.voice_channel_name),
        voice_channel_id: clone_opt(&report.voice_channel_id),
        bot_username: clone_opt(&report.bot_username),
        started_at: clone_opt(&report.started_at),
        message: report.message.clone(),
        instruction_steps: clone_texts(&report.instruction_steps),
    }
}

impl Clone for DiscordRelayReport {
    fn clone(&self) -> (r: DiscordRelayReport)
        ensures
            r@ == self@,
    {
        clone_discord_relay_report(self)
    }
}

/// What the user should do next.
pub open spec fn relay_steps(active: bool, platform: Platform) -> Seq<Seq<char>> {
    if active {
        seq![
            if platform == Platform::Windows {
                "Keep the selected capture app open while Bardic Chord is running."@
            } else {
                "Keep the selected capture app routed to the prepared desktop output."@
            },
            "The bot should stay in the chosen Discord voice channel while the party is running."@,
            "If the output is recreated, start the party again."@,
        ]
    } else {
        seq![
            "Finish Discord setup first."@,
            "Prepare the desktop audio path for the selected capture app."@,
            "Then start the party to send the music into Discord."@,
        ]
    }
}

/// What the user should do next.
pub fn relay_instructions(active: bool, platform: Platform) -> (r: Vec<String>)
    ensures
        text::texts(r@) == relay_steps(active, platform),
{
    let r = if active {
        vec![
            if platform.is_windows() {
                "Keep the selected capture app open while Bardic Chord is running.".to_owned()
            } else {
                "Keep the selected capture app routed to the prepared desktop output.".to_owned()
            },
            "The bot should stay in the chosen Discord voice channel while the party is running.".to_owned(),
            "If the output is recreated, start the party again.".to_owned(),
        ]
    } else {
        vec![
            "Finish Discord setup first.".to_owned(),
            "Prepare the desktop audio path for the selected capture app.".to_owned(),
            "Then start the party to send the music into Discord.".to_owned(),
        ]
    };
    assert(text::texts(r@) =~= relay_steps(active, platform));
    r
}

/// The steps of a report follow from whether the relay is active.
pub open spec fn steps_fit(report: RelayReportView, platform: Platform) -> bool {
    report.instruction_steps == relay_steps(report.active, platform)
}

/// A report on the relay.
pub fn build_relay_report(
    active: bool,
    guild_name: Option<String>,
    guild_id: Option<String>,
    voice_channel_name: Option<String>,
    voice_channel_id: Option<String>,
    bot_username: Option<String>,
    started_at: Option<String>,
    message: String,
    platform: Platform,
) -> (r: DiscordRelayReport)
    ensures
        r@ == (RelayReportView {
            active,
            guild_name: text::opt(guild_name),
            guild_id: text::opt(guild_id),
            voice_channel_name: text::opt(voice_channel_name),
            voice_channel_id: text::opt(voice_channel_id),
            bot_username: text::opt(bot_username),
            started_at: text::opt(started_at),
            message: message@,
            instruction_steps: relay_steps(active, platform),
        }),
{
    DiscordRelayReport {
        active,
        guild_name,
        guild_id,
        voice_channel_name,
        voice_channel_id,
        bot_username,
        started_at,
        message,
        instruction_steps: relay_instructions(active, platform),
    }
}

/// The report on a relay that does not run.
pub open spec fn quiet_report(message: Seq<char>, platform: Platform) -> RelayReportView {
    RelayReportView {
        active: false,
        guild_name: None,
        guild_id: None,
        voice_channel_name: None,
        voice_channel_id: None,
        bot_username: None,
        started_at: None,
        message,
        instruction_steps: relay_steps(false, platform),
    }
}

/// The report while no relay was started.
pub fn dormant_relay_report(platform: Platform) -> (r: DiscordRelayReport)
    ensures
        r@ == quiet_report(
            "Party dormant. Prepare the desktop audio output first, then arm the Discord voice bridge."@,
            platform,
        ),
{
    build_relay_report(
        false,
        None,
        None,
        None,
        None,
        None,
        None,
        "Party dormant. Prepare the desktop audio output first, then arm the Discord voice bridge.".to_owned(),
        platform,
    )
}

/// The report once the relay was stopped.
pub fn silenced_relay_report(platform: Platform) -> (r: DiscordRelayReport)
    ensures
        r@ == quiet_report(
            "Party silenced. Start it again when you want Bardic Chord back in voice."@,
            platform,
        ),
{
    build_relay_report(
        false,
        None,
        None,
        None,
        None,
        None,
        None,
        "Party silenced. Start it again when you want Bardic Chord back in voice.".to_owned(),
        platform,
    )
}

/// What came of stopping the relay.
pub fn relay_stop_outcome(ended_in_time: bool) -> (r: Result<(), String>)
    ensures
        match r {
            Ok(_) => ended_in_time,
            Err(message) => !ended_in_time && message@
                == "Timed out while shutting down the Discord relay."@,
        },
{
    if ended_in_time {
        Ok(())
    } else {
        Err("Timed out while shutting down the Discord relay.".to_owned())
    }
}

/// Whether there is anything to stop.
pub fn can_stop_party(relay_runs: bool, output_runs: bool) -> (r: bool)
    ensures
        r == (relay_runs || output_runs),
{
    relay_runs || output_runs
}

// ---------------------------------------------------------------------------
// Events
// ---------------------------------------------------------------------------

/// What happened to the track that plays in the call.
#[derive(Clone, Copy, Debug, PartialEq, Eq, Structural)]
pub enum RelayTrackEvent {
    Playable,
    End,
    Error,
    Other,
}

/// What happened to the voice connection.
#[derive(Clone, Copy, Debug, PartialEq, Eq, Structural)]
pub enum RelayDriverEvent {
    Connect,
    Reconnect,
    Disconnect,
    Other,
}

/// The report with another state and message, and the steps as they were.
pub open spec fn restated(report: RelayReportView, active: bool, message: Seq<char>) -> RelayReportView {
    RelayReportView { active, message, ..report }
}

/// The report with the steps that follow from its state.
pub open spec fn with_steps(report: RelayReportView, platform: Platform) -> RelayReportView {
    RelayReportView { instruction_steps: relay_steps(report.active, platform), ..report }
}

/// The report with another state and message. The steps follow the state.
pub open spec fn changed_report(
    report: RelayReportView,
    active: bool,
    message: Seq<char>,
    platform: Platform,
) -> RelayReportView {
    with_steps(restated(report, active, message), platform)
}

pub open spec fn after_track_event(
    report: RelayReportView,
    event: RelayTrackEvent,
    log_path: Seq<char>,
    platform: Platform,
) -> RelayReportView {
    match event {
        RelayTrackEvent::Playable => changed_report(
            report,
            true,
            "The party is live. Discord accepted the audio stream and Bardic Chord is forwarding desktop audio."@,
            platform,
        ),
        RelayTrackEvent::End => changed_report(
            report,
            false,
            "The audio stream stopped unexpectedly. Discord is still connected, but you should start the party again or inspect `"@
                + log_path + "`."@,
            platform,
        ),
        RelayTrackEvent::Error => changed_report(
            report,
            false,
            "The party hit an audio error after joining Discord. Start the party again or inspect `"@
                + log_path + "`."@,
            platform,
        ),
        RelayTrackEvent::Other => report,
    }
}

pub open spec fn after_driver_event(
    report: RelayReportView,
    event: RelayDriverEvent,
    log_path: Seq<char>,
    platform: Platform,
) -> RelayReportView {
    match event {
        RelayDriverEvent::Connect => changed_report(
            report,
            true,
            "Bardic Chord is connected to Discord and waiting for desktop audio."@,
            platform,
        ),
        RelayDriverEvent::Reconnect => changed_report(
            report,
            true,
            "Bardic Chord reconnected to Discord and is ready for music again."@,
            platform,
        ),
        RelayDriverEvent::Disconnect => changed_report(
            report,
            false,
            "Discord voice disconnected. Relaunch the party or inspect `"@ + log_path + "`."@,
            platform,
        ),
        RelayDriverEvent::Other => report,
    }
}

/// What is said where the client has ended by itself.
pub open spec fn client_end_message(log_path: Seq<char>) -> Seq<char> {
    "Discord relay stopped unexpectedly. Check `"@ + log_path + "` and launch the party again."@
}

/// The report once the client has ended by itself.
pub open spec fn after_client_end(
    report: RelayReportView,
    log_path: Seq<char>,
    platform: Platform,
) -> RelayReportView {
    if report.active {
        changed_report(report, false, client_end_message(log_path), platform)
    } else {
        with_steps(report, platform)
    }
}

/// Lets `mutate` change the report, in any way. The steps follow the state that it
/// leaves, and everything else stays as it leaves it.
pub fn update_discord_relay_report<F: FnOnce(&mut DiscordRelayReport)>(
    report: &mut DiscordRelayReport,
    mutate: F,
    platform: Platform,
)
    requires
        forall|r: &mut DiscordRelayReport|
            *r == *old(report) ==> #[trigger] call_requires(mutate, (r,)),
    ensures
        steps_fit(final(report)@, platform),
        exists|r: &mut DiscordRelayReport| #[trigger]
            call_ensures(mutate, (r,), ()) && *r == *old(report) && final(report)@ == with_steps(
                final(r)@,
                platform,
            ),
{
    mutate(report);
    report.instruction_steps = relay_instructions(report.active, platform);
}

/// Gives the report another state and message. The steps follow the state.
fn change_report(report: &mut DiscordRelayReport, active: bool, message: String, platform: Platform)
    ensures
        final(report)@ == changed_report(old(report)@, active, message@, platform),
{
    let change = |r: &mut DiscordRelayReport|
        ensures
            final(r)@ == restated(old(r)@, active, message@),
        {
            r.active = active;
            r.message = message;
        };
    update_discord_relay_report(report, change, platform);
}

/// Takes an event of the track.
pub fn note_track_event(
    report: &mut DiscordRelayReport,
    event: RelayTrackEvent,
    log_path: &str,
    platform: Platform,
)
    ensures
        final(report)@ == after_track_event(old(report)@, event, log_path@, platform),
{
    match event {
        RelayTrackEvent::Playable => change_report(
            report,
            true,
            "The party is live. Discord accepted the audio stream and Bardic Chord is forwarding desktop audio.".to_owned(),
            platform,
        ),
        RelayTrackEvent::End => change_report(
            report,
            false,
            "The audio stream stopped unexpectedly. Discord is still connected, but you should start the party again or inspect `".to_owned().concat(
                log_path,
            ).concat("`."),
            platform,
        ),
        RelayTrackEvent::Error => change_report(
            report,
            false,
            "The party hit an audio error after joining Discord. Start the party again or inspect `".to_owned().concat(
                log_path,
            ).concat("`."),
            platform,
        ),
        RelayTrackEvent::Other => {},
    }
}

/// Takes an event of the voice connection.
pub fn note_driver_event(
    report: &mut DiscordRelayReport,
    event: RelayDriverEvent,
    log_path: &str,
    platform: Platform,
)
    ensures
        final(report)@ == after_driver_event(old(report)@, event, log_path@, platform),
{
    match event {
        RelayDriverEvent::Connect => change_report(
            report,
            true,
            "Bardic Chord is connected to Discord and waiting for desktop audio.".to_owned(),
            platform,
        ),
        RelayDriverEvent::Reconnect => change_report(
            report,
            true,
            "Bardic Chord reconnected to Discord and is ready for music again.".to_owned(),
            platform,
        ),
        RelayDriverEvent::Disconnect => change_report(
            report,
            false,
            "Discord voice disconnected. Relaunch the party or inspect `".to_owned().concat(
                log_path,
            ).concat("`."),
            platform,
        ),
        RelayDriverEvent::Other => {},
    }
}

/// Takes the end of the client, which nobody asked for.
pub fn note_client_end(report: &mut DiscordRelayReport, log_path: &str, platform: Platform)
    ensures
        final(report)@ == after_client_end(old(report)@, log_path@, platform),
{
    let end = |r: &mut DiscordRelayReport|
        ensures
            final(r)@ == if old(r)@.active {
                restated(old(r)@, false, client_end_message(log_path@))
            } else {
                old(r)@
            },
        {
            if r.active {
                r.active = false;
                r.message = "Discord relay stopped unexpectedly. Check `".to_owned().concat(
                    log_path,
                ).concat("` and launch the party again.");
            }
        };
    update_discord_relay_report(report, end, platform);
}

// ---------------------------------------------------------------------------
// Following a user
// ---------------------------------------------------------------------------

/// What is done when somebody moves in voice.
#[derive(Clone, Copy, Debug, PartialEq, Eq, Structural)]
pub enum FollowAction {
    /// Nothing: it does not concern the relay.
    Ignore,
    /// Nothing: the user has left voice, and the bot stays.
    Stay,
    /// Join the channel.
    Join(u64),
}

/// A move in voice.
#[derive(Clone, Copy, Debug, PartialEq, Eq, Structural)]
pub struct VoiceMove {
    pub user_id: u64,
    pub guild_id: Option<u64>,
    pub channel_id: Option<u64>,
}

/// What is done when somebody moves in voice.
pub open spec fn follow_choice(
    followed: Option<u64>,
    guild_id: u64,
    change: VoiceMove,
) -> FollowAction {
    if followed == Some(change.user_id) && change.guild_id == Some(guild_id) {
        match change.channel_id {
            Some(channel) => FollowAction::Join(channel),
            None => FollowAction::Stay,
        }
    } else {
        FollowAction::Ignore
    }
}

/// What is done when somebody moves in voice.
pub fn follow_action(followed: Option<u64>, guild_id: u64, change: VoiceMove) -> (r: FollowAction)
    ensures
        r == follow_choice(followed, guild_id, change),
{
    let followed = match followed {
        Some(user) => user,
        None => {
            return FollowAction::Ignore;
        },
    };
    let here = match change.guild_id {
        Some(guild) => guild == guild_id,
        None => false,
    };
    if change.user_id != followed || !here {
        return FollowAction::Ignore;
    }
    match change.channel_id {
        Some(channel) => FollowAction::Join(channel),
        None => FollowAction::Stay,
    }
}

/// The channel in which the followed user is. The map holds the voice states of the
/// server, if that is known.
pub open spec fn channel_of_followed(
    followed: Option<u64>,
    voice_states: Option<Map<u64, Option<u64>>>,
) -> Option<u64> {
    match (followed, voice_states) {
        (Some(user), Some(states)) => if states.contains_key(user) {
            states[user]
        } else {
            None
        },
        _ => None,
    }
}

/// The channel in which the followed user is when the relay starts. The map holds
/// the voice states of the server, if that is known.
pub fn tracked_user_channel(
    followed: Option<u64>,
    voice_states: Option<&HashMap<u64, Option<u64>>>,
) -> (r: Option<u64>)
    ensures
        r == channel_of_followed(
            followed,
            match voice_states {
                Some(states) => Some(states@),
                None => None,
            },
        ),
{
    match (followed, voice_states) {
        (Some(user), Some(states)) => match states.get(&user) {
            Some(channel) => *channel,
            None => None,
        },
        _ => None,
    }
}

// ---------------------------------------------------------------------------
// Laws
// ---------------------------------------------------------------------------

/// Whatever happens, the steps that the user sees fit the state that the user sees.
pub proof fn steps_follow_the_state(
    report: RelayReportView,
    track: RelayTrackEvent,
    driver: RelayDriverEvent,
    log_path: Seq<char>,
    platform: Platform,
)
    requires
        steps_fit(report, platform),
    ensures
        steps_fit(after_track_event(report, track, log_path, platform), platform),
        steps_fit(after_driver_event(report, driver, log_path, platform), platform),
        steps_fit(after_client_end(report, log_path, platform), platform),
{
}

/// No event changes where the relay plays, nor when it was started.
pub proof fn events_keep_the_route(
    report: RelayReportView,
    track: RelayTrackEvent,
    driver: RelayDriverEvent,
    log_path: Seq<char>,
    platform: Platform,
)
    ensures
        same_route(report, after_track_event(report, track, log_path, platform)),
        same_route(report, after_driver_event(report, driver, log_path, platform)),
        same_route(report, after_client_end(report, log_path, platform)),
{
}

/// Whether two reports speak of one relay.
pub open spec fn same_route(a: RelayReportView, b: RelayReportView) -> bool {
    &&& a.guild_name == b.guild_name
    &&& a.guild_id == b.guild_id
    &&& a.voice_channel_name == b.voice_channel_name
    &&& a.voice_channel_id == b.voice_channel_id
    &&& a.bot_username == b.bot_username
    &&& a.started_at == b.started_at
}

/// Once the client has ended, the relay is not active, and a second look changes
/// nothing.
pub proof fn ended_client_stays_ended(
    report: RelayReportView,
    log_path: Seq<char>,
    platform: Platform,
)
    ensures
        !after_client_end(report, log_path, platform).active,
        after_client_end(after_client_end(report, log_path, platform), log_path, platform)
            == after_client_end(report, log_path, platform),
{
}

/// The bot joins a channel exactly where the followed user enters it on the relay's own
/// server; it stays where that user leaves voice there, and whatever anybody else does
/// or happens elsewhere is ignored.
pub proof fn only_the_followed_user_moves_the_bot(
    followed: Option<u64>,
    guild_id: u64,
    change: VoiceMove,
    channel: u64,
)
    ensures
        follow_choice(followed, guild_id, change) == FollowAction::Join(channel) <==> followed
            is Some && change.user_id == followed->Some_0 && change.guild_id is Some
            && change.guild_id->Some_0 == guild_id && change.channel_id is Some
            && change.channel_id->Some_0 == channel,
        follow_choice(followed, guild_id, change) == FollowAction::Stay <==> followed is Some
            && change.user_id == followed->Some_0 && change.guild_id is Some
            && change.guild_id->Some_0 == guild_id && change.channel_id is None,
        followed is None ==> follow_choice(followed, guild_id, change) == FollowAction::Ignore,
        change.guild_id is None ==> follow_choice(followed, guild_id, change)
            == FollowAction::Ignore,
{
}

/// Only the followed user's own voice state decides where the relay starts.
pub proof fn followed_user_is_looked_up(
    user: u64,
    states: Map<u64, Option<u64>>,
    other: u64,
    elsewhere: Option<u64>,
)
    requires
        other != user,
    ensures
        states.contains_key(user) ==> channel_of_followed(Some(user), Some(states))
            == states[user],
        !states.contains_key(user) ==> channel_of_followed(Some(user), Some(states)) is None,
        channel_of_followed(Some(user), Some(states.insert(other, elsewhere)))
            == channel_of_followed(Some(user), Some(states)),
        channel_of_followed(None, Some(states)) is None,
        channel_of_followed(Some(user), None) is None,
{
}

/// The party is live once the track plays or the connection stands, is off once either
/// ends, and is as it was on any other event; where it goes off, the message points to
/// the log.
pub proof fn events_decide_whether_the_party_is_live(
    report: RelayReportView,
    log_path: Seq<char>,
    platform: Platform,
)
    ensures
        after_track_event(report, RelayTrackEvent::Playable, log_path, platform).active,
        !after_track_event(report, RelayTrackEvent::End, log_path, platform).active,
        !after_track_event(report, RelayTrackEvent::Error, log_path, platform).active,
        after_track_event(report, RelayTrackEvent::Other, log_path, platform) == report,
        after_driver_event(report, RelayDriverEvent::Connect, log_path, platform).active,
        after_driver_event(report, RelayDriverEvent::Reconnect, log_path, platform).active,
        !after_driver_event(report, RelayDriverEvent::Disconnect, log_path, platform).active,
        after_driver_event(report, RelayDriverEvent::Other, log_path, platform) == report,
        text::occurs(
            after_track_event(report, RelayTrackEvent::End, log_path, platform).message,
            log_path,
        ),
        text::occurs(
            after_track_event(report, RelayTrackEvent::Error, log_path, platform).message,
            log_path,
        ),
        text::occurs(
            after_driver_event(report, RelayDriverEvent::Disconnect, log_path, platform).message,
            log_path,
        ),
        report.active ==> text::occurs(
            after_client_end(report, log_path, platform).message,
            log_path,
        ),
        !report.active ==> after_client_end(report, log_path, platform).message == report.message,
{
    text::part_occurs(
        "The audio stream stopped unexpectedly. Discord is still connected, but you should start the party again or inspect `"@,
        log_path,
        "`."@,
    );
    text::part_occurs(
        "The party hit an audio error after joining Discord. Start the party again or inspect `"@,
        log_path,
        "`."@,
    );
    text::part_occurs(
        "Discord voice disconnected. Relaunch the party or inspect `"@,
        log_path,
        "`."@,
    );
    text::part_occurs(
        "Discord relay stopped unexpectedly. Check `"@,
        log_path,
        "` and launch the party again."@,
    );
}

/// A relay that does not run is nowhere and has no start.
pub proof fn quiet_relay_is_nowhere(message: Seq<char>, platform: Platform)
    ensures
        ({
            let report = quiet_report(message, platform);
            &&& !report.active
            &&& report.guild_name is None
            &&& report.guild_id is None
            &&& report.voice_channel_name is None
            &&& report.voice_channel_id is None
            &&& report.bot_username is None
            &&& report.started_at is None
            &&& report.message == message
            &&& steps_fit(report, platform)
        }),
{
}

/// The steps of a live party and those of one that is off differ.
pub proof fn steps_tell_the_state(platform: Platform, other: Platform)
    ensures
        relay_steps(true, platform)[0] != relay_steps(false, other)[0],
        relay_steps(true, platform)[0]
            == "Keep the selected capture app open while Bardic Chord is running."@ <==> platform
            == Platform::Windows,
{
    reveal_strlit("Finish Discord setup first.");
    reveal_strlit("Keep the selected capture app open while Bardic Chord is running.");
    reveal_strlit("Keep the selected capture app routed to the prepared desktop output.");
    assert("Finish Discord setup first."@.len() == 27);
    assert("Keep the selected capture app open while Bardic Chord is running."@.len() == 65);
    assert("Keep the selected capture app routed to the prepared desktop output."@.len() == 68);
}

} // verus!
