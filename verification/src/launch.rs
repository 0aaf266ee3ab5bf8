//! Starting the relay.
//!
//! [`RelayLaunch`] says what to do and takes what came of it.
use crate::discord;
use crate::discord::{
    DiscordValidationReport, ValidationView, VoiceChannelView, ids_of_voice_channels,
    parse_snowflake,
};
use crate::names;
use crate::names::{
    audio_output_name_or_default, capture_target_or_default, sanitize_audio_output_name,
};
use crate::number;
use crate::number::to_decimal;
use crate::platform::Platform;
use crate::preparation;
use crate::relay;
use crate::relay::{DiscordRelayReport, RelayReportView, build_relay_report};
use crate::settings::{Settings, SettingsView};
use crate::text;
use crate::text::{clone_opt, find_text, is_blank, trim};
use vstd::prelude::*;

verus! {

/// How long the launch waits for Discord to tell who is in voice.
pub const CACHE_TIMEOUT_SECS: u64 = 15;

/// What is done next.
#[derive(Clone, Copy, Debug, PartialEq, Eq, Structural)]
pub enum LaunchPhase {
    /// See whether an output is prepared.
    CheckingAudio,
    /// Stop the relay that runs.
    StoppingRelay,
    /// Check the Discord setup.
    Validating,
    /// Move the target into the output.
    Routing,
    /// Create the client and start it.
    CreatingClient,
    /// Wait for Discord to tell who is in voice.
    AwaitingCache,
    /// Join the voice channel with the number.
    Joining(u64),
    /// Get hold of the call.
    FetchingCall,
    /// Prepare the stream.
    Promoting,
    /// Play, and report.
    Ready,
    /// Nothing: something failed.
    Failed,
}

/// What came of waiting for Discord to tell who is in voice.
#[derive(Clone, Copy, Debug, PartialEq, Eq, Structural)]
pub enum CacheOutcome {
    /// The channel of the followed user, if that user is in voice.
    Ready(Option<u64>),
    TimedOut,
    Closed,
}

/// What came of preparing the stream.
#[derive(Clone, Copy, Debug, PartialEq, Eq, Structural)]
pub enum StreamOutcome {
    Ready,
    Refused,
    Lazy,
}

/// What the settings ask of the relay.
#[verifier::ext_equal]
pub struct LaunchPlan {
    pub guild_id: nat,
    pub channel_id: nat,
    pub followed: Option<nat>,
}

/// What the settings ask of the relay, or what is wrong with them.
pub open spec fn launch_plan(s: SettingsView) -> Result<LaunchPlan, Seq<char>> {
    if text::blank(s.discord_bot_token) {
        Err("Discord bot token is required before the relay can awaken."@)
    } else {
        match (
            discord::snowflake(s.guild_id, "guild ID"@),
            discord::snowflake(s.voice_channel_id, "voice channel ID"@),
            discord::snowflake(s.tracked_user_id, "tracked user ID"@),
        ) {
            (Err(message), _, _) => Err(message),
            (Ok(_), Err(message), _) => Err(message),
            (Ok(guild_id), Ok(channel_id), user) => if text::blank(s.tracked_user_id) {
                Ok(LaunchPlan { guild_id, channel_id, followed: None })
            } else {
                match user {
                    Ok(id) => Ok(LaunchPlan { guild_id, channel_id, followed: Some(id) }),
                    Err(message) => Err(message),
                }
            },
        }
    }
}

/// A launch that is under way.
#[derive(Debug)]
pub struct RelayLaunch {
    platform: Platform,
    log_path: String,
    token: String,
    guild_id: u64,
    channel_id: u64,
    followed: Option<u64>,
    output_name: String,
    sink_name: String,
    capture_target: String,
    phase: LaunchPhase,
    route: Option<DiscordValidationReport>,
    start_channel: Option<u64>,
}

#[verifier::ext_equal]
pub struct LaunchView {
    pub platform: Platform,
    pub log_path: Seq<char>,
    pub token: Seq<char>,
    pub guild_id: u64,
    /// The channel that the user chose.
    pub channel_id: u64,
    pub followed: Option<u64>,
    pub output_name: Seq<char>,
    pub sink_name: Seq<char>,
    pub capture_target: Seq<char>,
    pub phase: LaunchPhase,
    /// What is known of the Discord setup.
    pub route: Option<ValidationView>,
    /// The channel of the followed user.
    pub start_channel: Option<u64>,
}

impl View for RelayLaunch {
    type V = LaunchView;

    closed spec fn view(&self) -> LaunchView {
        LaunchView {
            platform: self.platform,
            log_path: self.log_path@,
            token: self.token@,
            guild_id: self.guild_id,
            channel_id: self.channel_id,
            followed: self.followed,
            output_name: self.output_name@,
            sink_name: self.sink_name@,
            capture_target: self.capture_target@,
            phase: self.phase,
            route: match self.route {
                Some(route) => Some(route@),
                None => None,
            },
            start_channel: self.start_channel,
        }
    }
}

/// The launch before its first step.
pub open spec fn first_launch(
    s: SettingsView,
    plan: LaunchPlan,
    platform: Platform,
    log_path: Seq<char>,
) -> LaunchView {
    let output_name = names::output_name(s.audio_output_name);
    LaunchView {
        platform,
        log_path,
        token: text::trimmed(s.discord_bot_token),
        guild_id: plan.guild_id as u64,
        channel_id: plan.channel_id as u64,
        followed: match plan.followed {
            Some(id) => Some(id as u64),
            None => None,
        },
        output_name,
        sink_name: names::sink_name(output_name),
        capture_target: names::capture_target(s.capture_target),
        phase: LaunchPhase::CheckingAudio,
        route: None,
        start_channel: None,
    }
}

/// What the user is told once the relay runs.
pub open spec fn live_message(following: bool, snapped: bool) -> Seq<char> {
    if following && snapped {
        "The party is live. Bardic Chord joined the tracked user's channel on startup and will keep following them."@
    } else if following {
        "The party is live. Bardic Chord joined the selected channel and will follow the tracked user when they move."@
    } else {
        "The party is live. Bardic Chord joined the voice channel and is ready to send music."@
    }
}

impl LaunchView {
    pub open spec fn at(self, phase: LaunchPhase) -> LaunchView {
        LaunchView { phase, ..self }
    }

    /// The launch goes on where the step succeeded.
    pub open spec fn step(self, succeeded: bool, phase: LaunchPhase) -> LaunchView {
        if succeeded {
            self.at(phase)
        } else {
            self.at(LaunchPhase::Failed)
        }
    }

    /// The channel that is joined: that of the followed user, or else the chosen one.
    pub open spec fn initial_channel(self) -> u64 {
        match self.start_channel {
            Some(channel) => channel,
            None => self.channel_id,
        }
    }

    pub open spec fn after_validation(self, route: Option<ValidationView>) -> LaunchView {
        LaunchView {
            phase: if self.platform == Platform::Linux {
                LaunchPhase::Routing
            } else {
                LaunchPhase::CreatingClient
            },
            route,
            ..self
        }
    }

    pub open spec fn after_cache(self, outcome: CacheOutcome) -> LaunchView {
        match outcome {
            CacheOutcome::Ready(start_channel) => {
                let known = LaunchView { start_channel, ..self };
                known.at(LaunchPhase::Joining(known.initial_channel()))
            },
            _ => self.at(LaunchPhase::Failed),
        }
    }

    /// The name of the channel that was joined, as far as it is known.
    pub open spec fn channel_name(self) -> Option<Seq<char>> {
        match self.route {
            Some(route) => {
                let id = number::decimal(self.initial_channel() as nat);
                match text::first_place(discord::voice_ids(route.voice_channel_options), id) {
                    Some(i) => Some(route.voice_channel_options[i].name),
                    None => route.voice_channel_name,
                }
            },
            None => None,
        }
    }

    /// The report once the relay runs.
    pub open spec fn live_report(self, now: Seq<char>) -> RelayReportView {
        RelayReportView {
            active: true,
            guild_name: match self.route {
                Some(route) => route.guild_name,
                None => None,
            },
            guild_id: match self.route {
                Some(route) => route.guild_id,
                None => None,
            },
            voice_channel_name: self.channel_name(),
            voice_channel_id: Some(number::decimal(self.initial_channel() as nat)),
            bot_username: match self.route {
                Some(route) => Some(route.bot_username),
                None => None,
            },
            started_at: Some(now),
            message: live_message(self.followed is Some, self.start_channel is Some),
            instruction_steps: relay::relay_steps(true, self.platform),
        }
    }

    /// What is said where the stream could not be prepared.
    pub open spec fn stream_failure(self, outcome: StreamOutcome) -> Option<Seq<char>> {
        match outcome {
            StreamOutcome::Ready => None,
            StreamOutcome::Refused => Some(
                "Bardic Chord could not prepare the music stream for Discord. Check `"@
                    + self.log_path + "` for details."@,
            ),
            StreamOutcome::Lazy => Some(
                "Bardic Chord created a lazy audio input unexpectedly and could not arm the relay."@,
            ),
        }
    }
}

/// What is said where Discord does not tell who is in voice.
pub open spec fn cache_failure(outcome: CacheOutcome) -> Option<Seq<char>> {
    match outcome {
        CacheOutcome::Ready(_) => None,
        CacheOutcome::TimedOut => Some(
            "Timed out while waiting for the Discord guild cache to become ready."@,
        ),
        CacheOutcome::Closed => Some(
            "Discord gateway closed before the relay finished loading the startup voice state."@,
        ),
    }
}

impl RelayLaunch {
    /// Begins a launch with the settings.
    pub fn new(settings: &Settings, platform: Platform, log_path: &str) -> (r: Result<
        RelayLaunch,
        String,
    >)
        ensures
            match r {
                Ok(launch) => launch_plan(settings@) is Ok && launch@ == first_launch(
                    settings@,
                    launch_plan(settings@)->Ok_0,
                    platform,
                    log_path@,
                ),
                Err(message) => launch_plan(settings@) == Err::<LaunchPlan, Seq<char>>(message@),
            },
    {
        let token = trim(settings.discord_bot_token.as_str());
        if token.is_empty() {
            return Err("Discord bot token is required before the relay can awaken.".to_owned());
        }
        let guild_id = match parse_snowflake(settings.guild_id.as_str(), "guild ID") {
            Ok(id) => id,
            Err(message) => {
                return Err(message);
            },
        };
        let channel_id = match parse_snowflake(
            settings.voice_channel_id.as_str(),
            "voice channel ID",
        ) {
            Ok(id) => id,
            Err(message) => {
                return Err(message);
            },
        };
        let followed = if is_blank(settings.tracked_user_id.as_str()) {
            None
        } else {
            match parse_snowflake(settings.tracked_user_id.as_str(), "tracked user ID") {
                Ok(id) => Some(id),
                Err(message) => {
                    return Err(message);
                },
            }
        };
        let output_name = audio_output_name_or_default(settings.audio_output_name.as_str());
        Ok(
            RelayLaunch {
                platform,
                log_path: log_path.to_owned(),
                token: token.to_owned(),
                guild_id,
                channel_id,
                followed,
                sink_name: sanitize_audio_output_name(output_name.as_str()),
                output_name,
                capture_target: capture_target_or_default(settings.capture_target.as_str()),
                phase: LaunchPhase::CheckingAudio,
                route: None,
                start_channel: None,
            },
        )
    }

    /// What is done next.
    pub fn phase(&self) -> (r: LaunchPhase)
        ensures
            r == self@.phase,
    {
        self.phase
    }

    pub fn token(&self) -> (r: &str)
        ensures
            r@ == self@.token,
    {
        self.token.as_str()
    }

    pub fn guild_id(&self) -> (r: u64)
        ensures
            r == self@.guild_id,
    {
        self.guild_id
    }

    pub fn channel_id(&self) -> (r: u64)
        ensures
            r == self@.channel_id,
    {
        self.channel_id
    }

    pub fn followed(&self) -> (r: Option<u64>)
        ensures
            r == self@.followed,
    {
        self.followed
    }

    pub fn sink_name(&self) -> (r: &str)
        ensures
            r@ == self@.sink_name,
    {
        self.sink_name.as_str()
    }

    pub fn output_name(&self) -> (r: &str)
        ensures
            r@ == self@.output_name,
    {
        self.output_name.as_str()
    }

    pub fn capture_target(&self) -> (r: &str)
        ensures
            r@ == self@.capture_target,
    {
        self.capture_target.as_str()
    }

    /// It was seen whether an output is prepared. Gives the message where none is.
    pub fn audio_checked(&mut self, prepared: bool) -> (r: Option<String>)
        requires
            old(self)@.phase == LaunchPhase::CheckingAudio,
        ensures
            final(self)@ == old(self)@.step(prepared, LaunchPhase::StoppingRelay),
            text::opt(r) == if prepared {
                None
            } else {
                Some("Prepare the desktop audio output before starting the Discord relay."@)
            },
    {
        if prepared {
            self.phase = LaunchPhase::StoppingRelay;
            None
        } else {
            self.phase = LaunchPhase::Failed;
            Some("Prepare the desktop audio output before starting the Discord relay.".to_owned())
        }
    }

    /// The relay that ran was stopped. Gives the failure that is handed in.
    pub fn relay_stopped(&mut self, outcome: Result<(), String>) -> (r: Option<String>)
        requires
            old(self)@.phase == LaunchPhase::StoppingRelay,
        ensures
            final(self)@ == old(self)@.step(outcome is Ok, LaunchPhase::Validating),
            text::opt(r) == preparation::failure_of(outcome),
    {
        match outcome {
            Ok(_) => {
                self.phase = LaunchPhase::Validating;
                None
            },
            Err(error) => {
                self.phase = LaunchPhase::Failed;
                Some(error)
            },
        }
    }

    /// The Discord setup was checked, as far as that did not fail.
    pub fn validated(&mut self, route: Option<DiscordValidationReport>)
        requires
            old(self)@.phase == LaunchPhase::Validating,
        ensures
            final(self)@ == old(self)@.after_validation(
                match route {
                    Some(route) => Some(route@),
                    None => None,
                },
            ),
    {
        self.route = route;
        self.phase = match self.platform {
            Platform::Linux => LaunchPhase::Routing,
            _ => LaunchPhase::CreatingClient,
        };
    }

    /// The target was moved, or was not.
    pub fn routed(&mut self)
        requires
            old(self)@.phase == LaunchPhase::Routing,
        ensures
            final(self)@ == old(self)@.at(LaunchPhase::CreatingClient),
    {
        self.phase = LaunchPhase::CreatingClient;
    }

    /// The client was created. Gives the message where it was not.
    pub fn client_created(&mut self, outcome: Result<(), String>) -> (r: Option<String>)
        requires
            old(self)@.phase == LaunchPhase::CreatingClient,
        ensures
            final(self)@ == old(self)@.step(outcome is Ok, LaunchPhase::AwaitingCache),
            text::opt(r) == match outcome {
                Ok(_) => None,
                Err(error) => Some("failed to create Discord client: "@ + error@),
            },
    {
        match outcome {
            Ok(_) => {
                self.phase = LaunchPhase::AwaitingCache;
                None
            },
            Err(error) => {
                self.phase = LaunchPhase::Failed;
                Some("failed to create Discord client: ".to_owned().concat(error.as_str()))
            },
        }
    }

    /// Discord told who is in voice. Gives the message where it did not.
    pub fn cache_awaited(&mut self, outcome: CacheOutcome) -> (r: Option<String>)
        requires
            old(self)@.phase == LaunchPhase::AwaitingCache,
        ensures
            final(self)@ == old(self)@.after_cache(outcome),
            text::opt(r) == cache_failure(outcome),
    {
        match outcome {
            CacheOutcome::Ready(start_channel) => {
                self.start_channel = start_channel;
                self.phase = LaunchPhase::Joining(
                    match start_channel {
                        Some(channel) => channel,
                        None => self.channel_id,
                    },
                );
                None
            },
            CacheOutcome::TimedOut => {
                self.phase = LaunchPhase::Failed;
                Some(
                    "Timed out while waiting for the Discord guild cache to become ready.".to_owned(),
                )
            },
            CacheOutcome::Closed => {
                self.phase = LaunchPhase::Failed;
                Some(
                    "Discord gateway closed before the relay finished loading the startup voice state.".to_owned(),
                )
            },
        }
    }

    /// The channel was joined. Gives the message where it was not.
    pub fn joined(&mut self, outcome: Result<(), String>) -> (r: Option<String>)
        requires
            old(self)@.phase is Joining,
        ensures
            final(self)@ == old(self)@.step(outcome is Ok, LaunchPhase::FetchingCall),
            text::opt(r) == match outcome {
                Ok(_) => None,
                Err(error) => Some("failed to join the Discord voice channel: "@ + error@),
            },
    {
        match outcome {
            Ok(_) => {
                self.phase = LaunchPhase::FetchingCall;
                None
            },
            Err(error) => {
                self.phase = LaunchPhase::Failed;
                Some(
                    "failed to join the Discord voice channel: ".to_owned().concat(error.as_str()),
                )
            },
        }
    }

    /// The call was looked for. Gives the message where there is none.
    pub fn call_fetched(&mut self, found: bool) -> (r: Option<String>)
        requires
            old(self)@.phase == LaunchPhase::FetchingCall,
        ensures
            final(self)@ == old(self)@.step(found, LaunchPhase::Promoting),
            text::opt(r) == if found {
                None
            } else {
                Some("Discord voice call did not become available after joining."@)
            },
    {
        if found {
            self.phase = LaunchPhase::Promoting;
            None
        } else {
            self.phase = LaunchPhase::Failed;
            Some("Discord voice call did not become available after joining.".to_owned())
        }
    }

    /// The stream was prepared. Gives the message where it was not.
    pub fn promoted(&mut self, outcome: StreamOutcome) -> (r: Option<String>)
        requires
            old(self)@.phase == LaunchPhase::Promoting,
        ensures
            final(self)@ == old(self)@.step(outcome is Ready, LaunchPhase::Ready),
            text::opt(r) == old(self)@.stream_failure(outcome),
    {
        match outcome {
            StreamOutcome::Ready => {
                self.phase = LaunchPhase::Ready;
                None
            },
            StreamOutcome::Refused => {
                self.phase = LaunchPhase::Failed;
                Some(
                    "Bardic Chord could not prepare the music stream for Discord. Check `".to_owned().concat(
                        self.log_path.as_str(),
                    ).concat("` for details."),
                )
            },
            StreamOutcome::Lazy => {
                self.phase = LaunchPhase::Failed;
                Some(
                    "Bardic Chord created a lazy audio input unexpectedly and could not arm the relay.".to_owned(),
                )
            },
        }
    }

    fn joined_channel_name(&self, id: &str) -> (r: Option<String>)
        requires
            id@ == number::decimal(self@.initial_channel() as nat),
        ensures
            text::opt(r) == self@.channel_name(),
    {
        match &self.route {
            Some(route) => {
                let ids = ids_of_voice_channels(&route.voice_channel_options);
                match find_text(&ids, id) {
                    Some(i) => {
                        assert(text::texts(ids@).len() == route.voice_channel_options@.len());
                        assert(route@.voice_channel_options[i as int]
                            == route.voice_channel_options@[i as int]@);
                        Some(route.voice_channel_options[i].name.clone())
                    },
                    None => clone_opt(&route.voice_channel_name),
                }
            },
            None => None,
        }
    }

    /// The report once the relay runs.
    pub fn report(&self, now: &str) -> (r: DiscordRelayReport)
        requires
            self@.phase == LaunchPhase::Ready,
        ensures
            r@ == self@.live_report(now@),
    {
        let channel = match self.start_channel {
            Some(channel) => channel,
            None => self.channel_id,
        };
        let voice_channel_id = to_decimal(channel);
        let voice_channel_name = self.joined_channel_name(voice_channel_id.as_str());
        let (guild_name, guild_id, bot_username) = match &self.route {
            Some(route) => (
                clone_opt(&route.guild_name),
                clone_opt(&route.guild_id),
                Some(route.bot_username.clone()),
            ),
            None => (None, None, None),
        };
        let following = self.followed.is_some();
        let snapped = self.start_channel.is_some();
        let message = if following && snapped {
            "The party is live. Bardic Chord joined the tracked user's channel on startup and will keep following them."
        } else if following {
            "The party is live. Bardic Chord joined the selected channel and will follow the tracked user when they move."
        } else {
            "The party is live. Bardic Chord joined the voice channel and is ready to send music."
        };
        build_relay_report(
            true,
            guild_name,
            guild_id,
            voice_channel_name,
            Some(voice_channel_id),
            bot_username,
            Some(now.to_owned()),
            message.to_owned(),
            self.platform,
        )
    }
}

// ---------------------------------------------------------------------------
// Laws
// ---------------------------------------------------------------------------

/// What happens at each step of a launch.
pub ghost struct LaunchEvents {
    pub prepared: bool,
    pub stopped: bool,
    pub route: Option<ValidationView>,
    pub created: bool,
    pub cache: CacheOutcome,
    pub joined: bool,
    pub call_found: bool,
    pub stream: StreamOutcome,
}

/// The next state of a launch.
pub open spec fn next_launch(l: LaunchView, events: LaunchEvents) -> LaunchView {
    match l.phase {
        LaunchPhase::CheckingAudio => l.step(events.prepared, LaunchPhase::StoppingRelay),
        LaunchPhase::StoppingRelay => l.step(events.stopped, LaunchPhase::Validating),
        LaunchPhase::Validating => l.after_validation(events.route),
        LaunchPhase::Routing => l.at(LaunchPhase::CreatingClient),
        LaunchPhase::CreatingClient => l.step(events.created, LaunchPhase::AwaitingCache),
        LaunchPhase::AwaitingCache => l.after_cache(events.cache),
        LaunchPhase::Joining(_) => l.step(events.joined, LaunchPhase::FetchingCall),
        LaunchPhase::FetchingCall => l.step(events.call_found, LaunchPhase::Promoting),
        LaunchPhase::Promoting => l.step(events.stream is Ready, LaunchPhase::Ready),
        LaunchPhase::Ready => l,
        LaunchPhase::Failed => l,
    }
}

pub open spec fn launch_after(l: LaunchView, events: LaunchEvents, steps: nat) -> LaunchView
    decreases steps,
{
    if steps == 0 {
        l
    } else {
        launch_after(next_launch(l, events), events, (steps - 1) as nat)
    }
}

/// After nine steps a launch is over. It is ready exactly where every step
/// succeeded, but for the check of the setup and the moving of the target, which may
/// fail.
pub proof fn launch_ends(l: LaunchView, events: LaunchEvents)
    requires
        l.phase == LaunchPhase::CheckingAudio,
    ensures
        ({
            let end = launch_after(l, events, 9);
            &&& end.phase == LaunchPhase::Ready || end.phase == LaunchPhase::Failed
            &&& end.phase == LaunchPhase::Ready <==> events.prepared && events.stopped
                && events.created && events.cache is Ready && events.joined && events.call_found
                && events.stream is Ready
            &&& end.phase == LaunchPhase::Ready ==> end.route == events.route
                && end.start_channel == events.cache->Ready_0
        }),
{
    reveal_with_fuel(launch_after, 10);
}

/// The channel that is joined is the one that is reported: that of the followed user
/// where that user is in voice, and the chosen one otherwise.
pub proof fn joined_channel_is_reported(l: LaunchView, channel: Option<u64>, now: Seq<char>)
    ensures
        ({
            let joining = l.after_cache(CacheOutcome::Ready(channel));
            let joined = match channel {
                Some(id) => id,
                None => l.channel_id,
            };
            &&& joining.phase == LaunchPhase::Joining(joined)
            &&& joining.live_report(now).voice_channel_id == Some(number::decimal(joined as nat))
        }),
{
}

/// A relay starts with steps that fit its state.
pub proof fn live_relay_has_fitting_steps(l: LaunchView, now: Seq<char>)
    ensures
        l.live_report(now).active,
        relay::steps_fit(l.live_report(now), l.platform),
{
}

/// A launch goes by the IDs that the settings write, each the whole number that its
/// digits say: the server, the channel and the followed user. Without a followed user
/// in voice the channel that is joined and reported is the one in the settings.
pub proof fn launch_goes_by_written_ids(
    s: SettingsView,
    platform: Platform,
    log_path: Seq<char>,
    guild: u64,
    channel: u64,
    followed: Option<u64>,
    now: Seq<char>,
)
    requires
        !text::blank(s.discord_bot_token),
        text::trimmed(s.guild_id) == number::decimal(guild as nat),
        text::trimmed(s.voice_channel_id) == number::decimal(channel as nat),
        match followed {
            Some(user) => text::trimmed(s.tracked_user_id) == number::decimal(user as nat),
            None => text::blank(s.tracked_user_id),
        },
    ensures
        launch_plan(s) is Ok,
        ({
            let l = first_launch(s, launch_plan(s)->Ok_0, platform, log_path);
            let joining = l.after_cache(CacheOutcome::Ready(None));
            &&& l.guild_id == guild
            &&& l.channel_id == channel
            &&& l.followed == followed
            &&& number::decimal(l.guild_id as nat) == text::trimmed(s.guild_id)
            &&& number::decimal(l.channel_id as nat) == text::trimmed(s.voice_channel_id)
            &&& joining.phase == LaunchPhase::Joining(channel)
            &&& joining.live_report(now).voice_channel_id == Some(text::trimmed(s.voice_channel_id))
        }),
{
    lemma_trimmed_id(s.guild_id, guild, "guild ID"@);
    lemma_trimmed_id(s.voice_channel_id, channel, "voice channel ID"@);
    match followed {
        Some(user) => {
            lemma_trimmed_id(s.tracked_user_id, user, "tracked user ID"@);
            number::decimal_is_digits(user as nat);
        },
        None => {},
    }
}

proof fn lemma_trimmed_id(input: Seq<char>, id: u64, label: Seq<char>)
    requires
        text::trimmed(input) == number::decimal(id as nat),
    ensures
        discord::snowflake(input, label) == Ok::<nat, Seq<char>>(id as nat),
{
    let (front, back) = text::stripped_edges(input, text::CharClass::Space);
    discord::written_id_is_read(front, id, back, label);
}

/// A launch that begins has a token and reads each ID off the settings; without a
/// token, or with an ID that is no such number, none begins.
pub proof fn launch_needs_written_ids(s: SettingsView, platform: Platform, log_path: Seq<char>)
    requires
        launch_plan(s) is Ok,
    ensures
        ({
            let l = first_launch(s, launch_plan(s)->Ok_0, platform, log_path);
            &&& !text::blank(s.discord_bot_token)
            &&& l.token == text::trimmed(s.discord_bot_token)
            &&& discord::writes(s.guild_id, l.guild_id as nat)
            &&& discord::writes(s.voice_channel_id, l.channel_id as nat)
            &&& l.followed is Some <==> !text::blank(s.tracked_user_id)
            &&& l.followed is Some ==> discord::writes(
                s.tracked_user_id,
                l.followed->Some_0 as nat,
            )
        }),
{
    discord::read_id_is_written(s.guild_id, "guild ID"@);
    discord::read_id_is_written(s.voice_channel_id, "voice channel ID"@);
    discord::read_id_is_written(s.tracked_user_id, "tracked user ID"@);
}

/// A launch takes its names from the settings: an output name that is one word and a
/// target are used as they stand there.
pub proof fn launch_takes_its_names(
    s: SettingsView,
    plan: LaunchPlan,
    platform: Platform,
    log_path: Seq<char>,
)
    ensures
        ({
            let l = first_launch(s, plan, platform, log_path);
            &&& !text::blank(s.capture_target) ==> l.capture_target == text::trimmed(
                s.capture_target,
            )
            &&& s.audio_output_name.len() > 0 && text::CharClass::NotSpace.has_all(
                s.audio_output_name,
            ) ==> l.output_name == s.audio_output_name && l.sink_name == names::sink_name(
                s.audio_output_name,
            )
            &&& l.platform == platform
            &&& l.log_path == log_path
        }),
{
    let word = s.audio_output_name;
    if word.len() > 0 && text::CharClass::NotSpace.has_all(word) {
        let words = seq![word];
        let none = Seq::<char>::empty();
        names::output_name_joins_words(none, words, ' ', none);
        assert(none + text::join(words, seq![' ']) + none =~= word);
    }
}

/// What a launch was begun with stays as it is up to the end.
pub proof fn launch_keeps_its_plan(l: LaunchView, events: LaunchEvents, steps: nat)
    ensures
        ({
            let later = launch_after(l, events, steps);
            &&& later.platform == l.platform
            &&& later.log_path == l.log_path
            &&& later.token == l.token
            &&& later.guild_id == l.guild_id
            &&& later.channel_id == l.channel_id
            &&& later.followed == l.followed
            &&& later.output_name == l.output_name
            &&& later.sink_name == l.sink_name
            &&& later.capture_target == l.capture_target
        }),
    decreases steps,
{
    if steps > 0 {
        launch_keeps_its_plan(next_launch(l, events), events, (steps - 1) as nat);
    }
}

/// The target is moved into the output on Linux and nowhere else.
pub proof fn only_linux_moves_the_target(l: LaunchView, route: Option<ValidationView>)
    ensures
        l.after_validation(route).phase == LaunchPhase::Routing <==> l.platform == Platform::Linux,
        l.after_validation(route).phase == LaunchPhase::CreatingClient <==> l.platform
            != Platform::Linux,
        l.after_validation(route).route == route,
{
}

/// The report names the joined channel as the server lists it, and the server and the
/// bot as the check of the setup found them.
pub proof fn joined_channel_is_named(
    l: LaunchView,
    before: Seq<VoiceChannelView>,
    channel: VoiceChannelView,
    behind: Seq<VoiceChannelView>,
    joined: u64,
    now: Seq<char>,
)
    requires
        l.route is Some,
        l.start_channel == Some(joined) || (l.start_channel is None && l.channel_id == joined),
        forall|i: int|
            0 <= i < before.len() ==> (#[trigger] before[i]).id != number::decimal(joined as nat),
    ensures
        ({
            let route = l.route->Some_0;
            let report = l.live_report(now);
            &&& route.voice_channel_options == before + seq![channel] + behind && channel.id
                == number::decimal(joined as nat) ==> report.voice_channel_name == Some(
                channel.name,
            )
            &&& route.voice_channel_options == before ==> report.voice_channel_name
                == route.voice_channel_name
            &&& report.guild_name == route.guild_name
            &&& report.guild_id == route.guild_id
            &&& report.bot_username == Some(route.bot_username)
            &&& report.started_at == Some(now)
        }),
{
    let id = number::decimal(joined as nat);
    let offered = l.route->Some_0.voice_channel_options;
    let ids = discord::voice_ids(offered);
    text::first_place_is_first(ids, id);
    if offered == before + seq![channel] + behind && channel.id == id {
        let p = before.len() as int;
        assert(ids[p] == id);
        assert forall|k: int| 0 <= k < p implies #[trigger] ids[k] != id by {
            assert(before[k].id != id);
        }
        assert(ids.contains(ids[p]));
    } else if offered == before {
        if ids.contains(id) {
            let k = choose|k: int| 0 <= k < ids.len() && ids[k] == id;
            assert(before[k].id == id);
        }
    }
}

/// The message of a relay that starts tells the three ways apart: it follows a user who
/// is in voice, it will follow one, or it follows nobody.
pub proof fn message_tells_how_it_started(snapped: bool)
    ensures
        live_message(true, true) != live_message(true, false),
        live_message(true, snapped) != live_message(false, snapped),
        live_message(false, true) == live_message(false, false),
        text::occurs(live_message(true, true), "the tracked user's channel on startup"@),
        text::occurs(live_message(true, false), "will follow the tracked user"@),
{
    reveal_strlit(
        "The party is live. Bardic Chord joined the tracked user's channel on startup and will keep following them.",
    );
    reveal_strlit("the tracked user's channel on startup");
    reveal_strlit(
        "The party is live. Bardic Chord joined the selected channel and will follow the tracked user when they move.",
    );
    reveal_strlit("will follow the tracked user");
    reveal_strlit(
        "The party is live. Bardic Chord joined the voice channel and is ready to send music.",
    );
    let first = live_message(true, true);
    let second = live_message(true, false);
    let third = live_message(false, false);
    assert(first.len() == 106 && second.len() == 108 && third.len() == 84);
    assert(first.subrange(39, 76) =~= "the tracked user's channel on startup"@);
    assert(text::occurs_at(first, "the tracked user's channel on startup"@, 39));
    assert(second.subrange(64, 92) =~= "will follow the tracked user"@);
    assert(text::occurs_at(second, "will follow the tracked user"@, 64));
}

/// Something is said exactly where Discord does not tell who is in voice, or where the
/// stream is not ready; a stream that was refused points to the log.
pub proof fn failures_are_told(l: LaunchView, cache: CacheOutcome, stream: StreamOutcome)
    ensures
        cache_failure(cache) is None <==> cache is Ready,
        l.stream_failure(stream) is None <==> stream is Ready,
        text::occurs(l.stream_failure(StreamOutcome::Refused)->Some_0, l.log_path),
{
    text::part_occurs(
        "Bardic Chord could not prepare the music stream for Discord. Check `"@,
        l.log_path,
        "` for details."@,
    );
}

/// Whether the message begins so.
pub open spec fn begins_with(message: Seq<char>, start: Seq<char>) -> bool {
    message.len() >= start.len() && message.take(start.len() as int) == start
}

/// A launch that does not begin says what is missing or unreadable: the token, the
/// server, the channel or the followed user, the first of them in this order.
pub proof fn first_fault_is_told(s: SettingsView, label: Seq<char>)
    ensures
        text::blank(s.discord_bot_token) ==> launch_plan(s) == Err::<LaunchPlan, Seq<char>>(
            "Discord bot token is required before the relay can awaken."@,
        ),
        !text::blank(s.discord_bot_token) && discord::snowflake(s.guild_id, label) is Err
            ==> launch_plan(s) is Err && begins_with(
            launch_plan(s)->Err_0,
            "Invalid "@ + "guild ID"@ + ": "@,
        ),
        !text::blank(s.discord_bot_token) && discord::snowflake(s.guild_id, label) is Ok
            && discord::snowflake(s.voice_channel_id, label) is Err ==> launch_plan(s) is Err
            && begins_with(launch_plan(s)->Err_0, "Invalid "@ + "voice channel ID"@ + ": "@),
        !text::blank(s.discord_bot_token) && discord::snowflake(s.guild_id, label) is Ok
            && discord::snowflake(s.voice_channel_id, label) is Ok && !text::blank(
            s.tracked_user_id,
        ) && discord::snowflake(s.tracked_user_id, label) is Err ==> launch_plan(s) is Err
            && begins_with(launch_plan(s)->Err_0, "Invalid "@ + "tracked user ID"@ + ": "@),
        !text::blank(s.discord_bot_token) && discord::snowflake(s.guild_id, label) is Ok
            && discord::snowflake(s.voice_channel_id, label) is Ok && text::blank(
            s.tracked_user_id,
        ) ==> launch_plan(s) is Ok,
{
    discord::read_id_is_written(s.guild_id, "guild ID"@);
    discord::read_id_is_written(s.voice_channel_id, "voice channel ID"@);
    discord::read_id_is_written(s.tracked_user_id, "tracked user ID"@);
}

} // verus!
