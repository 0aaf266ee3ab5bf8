//! Checking the Discord side of the setup, one request at a time.
//!
//! [`DiscordValidation`] names the resource to ask for and takes the reply. It ends
//! with a report, or with what went wrong.
use crate::discord;
use crate::discord::{
    DiscordApplication, DiscordChannel, DiscordCurrentUser, DiscordGuild, DiscordGuildOption,
    DiscordGuildSummary, DiscordValidationReport, DiscordVoiceChannelOption, ids_of_voice_channels,
    guild_options, voice_channel_kind_name, voice_channel_options,
};
use crate::discord::{ChannelView, NamedView, UserView, ValidationView, VoiceChannelView};
use crate::settings::{Settings, SettingsView};
use crate::text;
use crate::text::{find_text, text_or, trim};
use crate::token;
use crate::token::{discord_invite_url, discord_invite_url_from_token, normalize_discord_bot_token};
use vstd::prelude::*;

verus! {

/// What is asked of Discord next.
#[derive(Clone, Copy, Debug, PartialEq, Eq, Structural)]
pub enum ValidationStage {
    User,
    Application,
    Guilds,
    Guild,
    Channels,
    Channel,
}

/// A reply of Discord, or the failure to get one.
#[derive(Debug)]
pub enum DiscordReply {
    User(Result<DiscordCurrentUser, String>),
    Application(Result<DiscordApplication, String>),
    Guilds(Result<Vec<DiscordGuildSummary>, String>),
    Guild(Result<DiscordGuild, String>),
    Channels(Result<Vec<DiscordChannel>, String>),
    Channel(Result<DiscordChannel, String>),
}

pub ghost enum ReplyView {
    User(Result<UserView, Seq<char>>),
    Application(Result<NamedView, Seq<char>>),
    Guilds(Result<Seq<NamedView>, Seq<char>>),
    Guild(Result<NamedView, Seq<char>>),
    Channels(Result<Seq<ChannelView>, Seq<char>>),
    Channel(Result<ChannelView, Seq<char>>),
}

impl View for DiscordReply {
    type V = ReplyView;

    open spec fn view(&self) -> ReplyView {
        match *self {
            DiscordReply::User(Ok(v)) => ReplyView::User(Ok(v@)),
            DiscordReply::User(Err(e)) => ReplyView::User(Err(e@)),
            DiscordReply::Application(Ok(v)) => ReplyView::Application(Ok(v@)),
            DiscordReply::Application(Err(e)) => ReplyView::Application(Err(e@)),
            DiscordReply::Guilds(Ok(v)) => ReplyView::Guilds(Ok(discord::summary_views(v@))),
            DiscordReply::Guilds(Err(e)) => ReplyView::Guilds(Err(e@)),
            DiscordReply::Guild(Ok(v)) => ReplyView::Guild(Ok(v@)),
            DiscordReply::Guild(Err(e)) => ReplyView::Guild(Err(e@)),
            DiscordReply::Channels(Ok(v)) => ReplyView::Channels(Ok(discord::channel_views(v@))),
            DiscordReply::Channels(Err(e)) => ReplyView::Channels(Err(e@)),
            DiscordReply::Channel(Ok(v)) => ReplyView::Channel(Ok(v@)),
            DiscordReply::Channel(Err(e)) => ReplyView::Channel(Err(e@)),
        }
    }
}

/// Whether the reply answers what is asked at the stage.
pub open spec fn answers(stage: ValidationStage, reply: ReplyView) -> bool {
    match reply {
        ReplyView::User(_) => stage == ValidationStage::User,
        ReplyView::Application(_) => stage == ValidationStage::Application,
        ReplyView::Guilds(_) => stage == ValidationStage::Guilds,
        ReplyView::Guild(_) => stage == ValidationStage::Guild,
        ReplyView::Channels(_) => stage == ValidationStage::Channels,
        ReplyView::Channel(_) => stage == ValidationStage::Channel,
    }
}

// ---------------------------------------------------------------------------
// The report
// ---------------------------------------------------------------------------

/// What the replies have shown.
#[verifier::ext_equal]
pub struct FindingsView {
    pub token: Seq<char>,
    pub wanted_guild: Seq<char>,
    pub wanted_channel: Seq<char>,
    pub user: UserView,
    pub application: Option<NamedView>,
    pub guilds: Seq<NamedView>,
    pub guild: Option<NamedView>,
    pub channels: Seq<VoiceChannelView>,
}

/// The server of which the user spoke, or else the first one.
pub open spec fn resolved_guild(f: FindingsView) -> Option<Seq<char>> {
    if f.wanted_guild.len() > 0 {
        Some(f.wanted_guild)
    } else if f.guilds.len() > 0 {
        Some(f.guilds[0].id)
    } else {
        None
    }
}

/// The channel of which the user spoke, or else the first one.
pub open spec fn resolved_channel(f: FindingsView) -> Option<Seq<char>> {
    if f.wanted_channel.len() > 0 {
        Some(f.wanted_channel)
    } else if f.channels.len() > 0 {
        Some(f.channels[0].id)
    } else {
        None
    }
}

/// The channel among those listed.
pub open spec fn listed_channel(channels: Seq<VoiceChannelView>, id: Seq<char>) -> Option<
    ChannelView,
> {
    match text::first_place(discord::voice_ids(channels), id) {
        Some(i) => Some(
            ChannelView {
                id: channels[i].id,
                name: channels[i].name,
                channel_type: if channels[i].kind == "Stage Voice"@ {
                    13
                } else {
                    2
                },
            },
        ),
        None => None,
    }
}

pub open spec fn display_name(user: UserView) -> Seq<char> {
    text::opt_or(user.global_name, user.username)
}

pub open spec fn validation_message(
    user: UserView,
    guild: Option<NamedView>,
    channel: Option<ChannelView>,
) -> Seq<char> {
    match (guild, channel) {
        (Some(g), Some(c)) => display_name(user)
            + " is connected. Bardic Chord found the server `"@ + g.name
            + "` and the voice channel `"@ + c.name + "`."@,
        (Some(g), None) => display_name(user) + " is connected. Bardic Chord found the server `"@
            + g.name + "`. Choose a voice channel next."@,
        _ => display_name(user)
            + " is connected. If the bot is not in your server yet, open the invite page and Bardic Chord will check again."@,
    }
}

/// The report on the findings and on the channel that was chosen.
pub open spec fn validation_report(f: FindingsView, channel: Option<ChannelView>) -> ValidationView {
    let application_id = match f.application {
        Some(app) => app.id,
        None => f.user.id,
    };
    ValidationView {
        bot_username: f.user.username,
        bot_id: f.user.id,
        application_name: match f.application {
            Some(app) => Some(app.name),
            None => None,
        },
        application_id: Some(application_id),
        invite_url: Some(
            match token::application_id(f.token) {
                Some(id) => token::invite_url(id),
                None => token::invite_url(application_id),
            },
        ),
        guild_name: match f.guild {
            Some(g) => Some(g.name),
            None => None,
        },
        guild_id: match f.guild {
            Some(g) => Some(g.id),
            None => resolved_guild(f),
        },
        voice_channel_name: match channel {
            Some(c) => Some(c.name),
            None => None,
        },
        voice_channel_id: match channel {
            Some(c) => Some(c.id),
            None => resolved_channel(f),
        },
        voice_channel_kind: match channel {
            Some(c) => Some(discord::kind_name(c.channel_type)),
            None => None,
        },
        guild_options: f.guilds,
        voice_channel_options: f.channels,
        message: validation_message(f.user, f.guild, channel),
    }
}

// ---------------------------------------------------------------------------
// The steps
// ---------------------------------------------------------------------------

pub ghost enum StepView {
    Ask(ValidationStage, FindingsView),
    Report(ValidationView),
    Failed(Seq<char>),
}

/// What follows once the voice channels are known.
pub open spec fn after_channels(f: FindingsView) -> StepView {
    match resolved_channel(f) {
        Some(id) => match listed_channel(f.channels, id) {
            Some(channel) => StepView::Report(validation_report(f, Some(channel))),
            None => StepView::Ask(ValidationStage::Channel, f),
        },
        None => StepView::Report(validation_report(f, None)),
    }
}

/// What follows the reply at the stage.
pub open spec fn after_reply(stage: ValidationStage, f: FindingsView, reply: ReplyView) -> StepView {
    match reply {
        ReplyView::User(Ok(user)) => StepView::Ask(
            ValidationStage::Application,
            FindingsView { user, ..f },
        ),
        ReplyView::User(Err(error)) => StepView::Failed(error),
        ReplyView::Application(result) => StepView::Ask(
            ValidationStage::Guilds,
            FindingsView {
                application: match result {
                    Ok(application) => Some(application),
                    Err(_) => None,
                },
                ..f
            },
        ),
        ReplyView::Guilds(result) => {
            let found = FindingsView {
                guilds: match result {
                    Ok(guilds) => guilds,
                    Err(_) => Seq::empty(),
                },
                ..f
            };
            if resolved_guild(found) is Some {
                StepView::Ask(ValidationStage::Guild, found)
            } else {
                after_channels(found)
            }
        },
        ReplyView::Guild(Ok(guild)) => StepView::Ask(
            ValidationStage::Channels,
            FindingsView { guild: Some(guild), ..f },
        ),
        ReplyView::Guild(Err(error)) => StepView::Failed(error),
        ReplyView::Channels(Ok(channels)) => after_channels(
            FindingsView { channels: discord::voice_options(channels), ..f },
        ),
        ReplyView::Channels(Err(error)) => StepView::Failed(error),
        ReplyView::Channel(Ok(channel)) => StepView::Report(validation_report(f, Some(channel))),
        ReplyView::Channel(Err(error)) => StepView::Failed(error),
    }
}

/// The resource that is asked for at the stage.
pub open spec fn asked_path(stage: ValidationStage, f: FindingsView) -> Seq<char> {
    match stage {
        ValidationStage::User => "users/@me"@,
        ValidationStage::Application => "oauth2/applications/@me"@,
        ValidationStage::Guilds => "users/@me/guilds"@,
        ValidationStage::Guild => "guilds/"@ + text::opt_or(resolved_guild(f), ""@),
        ValidationStage::Channels => "guilds/"@ + text::opt_or(resolved_guild(f), ""@)
            + "/channels"@,
        ValidationStage::Channel => "channels/"@ + text::opt_or(resolved_channel(f), ""@),
    }
}

/// What is known before the first reply.
pub open spec fn first_findings(s: SettingsView) -> FindingsView {
    FindingsView {
        token: token::bare_token(s.discord_bot_token),
        wanted_guild: text::trimmed(s.guild_id),
        wanted_channel: text::trimmed(s.voice_channel_id),
        user: UserView { id: Seq::empty(), username: Seq::empty(), global_name: None },
        application: None,
        guilds: Seq::empty(),
        guild: None,
        channels: Seq::empty(),
    }
}

/// A check of the Discord setup that is under way.
#[derive(Debug)]
pub struct DiscordValidation {
    stage: ValidationStage,
    token: String,
    wanted_guild: String,
    wanted_channel: String,
    user: DiscordCurrentUser,
    application: Option<DiscordApplication>,
    guilds: Vec<DiscordGuildOption>,
    guild: Option<DiscordGuild>,
    channels: Vec<DiscordVoiceChannelOption>,
}

/// What comes after a reply.
#[derive(Debug)]
pub enum ValidationStep {
    Ask(DiscordValidation),
    Report(DiscordValidationReport),
    Failed(String),
}

impl View for ValidationStep {
    type V = StepView;

    open spec fn view(&self) -> StepView {
        match *self {
            ValidationStep::Ask(v) => StepView::Ask(v.stage(), v@),
            ValidationStep::Report(report) => StepView::Report(report@),
            ValidationStep::Failed(error) => StepView::Failed(error@),
        }
    }
}

impl View for DiscordValidation {
    type V = FindingsView;

    closed spec fn view(&self) -> FindingsView {
        FindingsView {
            token: self.token@,
            wanted_guild: self.wanted_guild@,
            wanted_channel: self.wanted_channel@,
            user: self.user@,
            application: match self.application {
                Some(app) => Some(app@),
                None => None,
            },
            guilds: discord::guild_views(self.guilds@),
            guild: match self.guild {
                Some(g) => Some(g@),
                None => None,
            },
            channels: discord::voice_views(self.channels@),
        }
    }
}

impl DiscordValidation {
    /// What is asked next.
    pub closed spec fn stage(&self) -> ValidationStage {
        self.stage
    }

    /// Begins a check with the settings. It needs a token.
    pub fn new(settings: &Settings) -> (r: Result<DiscordValidation, String>)
        ensures
            match r {
                Ok(v) => {
                    &&& token::bare_token(settings@.discord_bot_token).len() > 0
                    &&& v.stage() == ValidationStage::User
                    &&& v@ == first_findings(settings@)
                },
                Err(message) => {
                    &&& token::bare_token(settings@.discord_bot_token).len() == 0
                    &&& message@
                        == "Discord bot token is required before Bardic Chord can connect."@
                },
            },
    {
        let bot_token = normalize_discord_bot_token(settings.discord_bot_token.as_str());
        if bot_token.is_empty() {
            return Err(
                "Discord bot token is required before Bardic Chord can connect.".to_owned(),
            );
        }
        let v = DiscordValidation {
            stage: ValidationStage::User,
            token: bot_token.to_owned(),
            wanted_guild: trim(settings.guild_id.as_str()).to_owned(),
            wanted_channel: trim(settings.voice_channel_id.as_str()).to_owned(),
            user: DiscordCurrentUser {
                id: String::new(),
                username: String::new(),
                global_name: None,
            },
            application: None,
            guilds: Vec::new(),
            guild: None,
            channels: Vec::new(),
        };
        assert(v@ =~= first_findings(settings@));
        Ok(v)
    }

    /// The token with which Discord is asked.
    pub fn bot_token(&self) -> (r: &str)
        ensures
            r@ == self@.token,
    {
        self.token.as_str()
    }

    /// What is asked next.
    pub fn asks_for(&self) -> (r: ValidationStage)
        ensures
            r == self.stage(),
    {
        self.stage
    }

    fn guild_id(&self) -> (r: Option<String>)
        ensures
            text::opt(r) == resolved_guild(self@),
    {
        if !self.wanted_guild.as_str().is_empty() {
            Some(self.wanted_guild.clone())
        } else if self.guilds.len() > 0 {
            assert(discord::guild_views(self.guilds@)[0] == self.guilds@[0]@);
            Some(self.guilds[0].id.clone())
        } else {
            None
        }
    }

    fn channel_id(&self) -> (r: Option<String>)
        ensures
            text::opt(r) == resolved_channel(self@),
    {
        if !self.wanted_channel.as_str().is_empty() {
            Some(self.wanted_channel.clone())
        } else if self.channels.len() > 0 {
            assert(discord::voice_views(self.channels@)[0] == self.channels@[0]@);
            Some(self.channels[0].id.clone())
        } else {
            None
        }
    }

    /// The resource that is asked for next.
    pub fn path(&self) -> (r: String)
        ensures
            r@ == asked_path(self.stage(), self@),
    {
        match self.stage {
            ValidationStage::User => "users/@me".to_owned(),
            ValidationStage::Application => "oauth2/applications/@me".to_owned(),
            ValidationStage::Guilds => "users/@me/guilds".to_owned(),
            ValidationStage::Guild => "guilds/".to_owned().concat(
                text_or(&self.guild_id(), "").as_str(),
            ),
            ValidationStage::Channels => "guilds/".to_owned().concat(
                text_or(&self.guild_id(), "").as_str(),
            ).concat("/channels"),
            ValidationStage::Channel => "channels/".to_owned().concat(
                text_or(&self.channel_id(), "").as_str(),
            ),
        }
    }

    fn message(&self, channel: &Option<DiscordChannel>) -> (r: String)
        ensures
            r@ == validation_message(
                self@.user,
                self@.guild,
                match *channel {
                    Some(c) => Some(c@),
                    None => None,
                },
            ),
    {
        let name = text_or(&self.user.global_name, self.user.username.as_str());
        match (&self.guild, channel) {
            (Some(g), Some(c)) => name.concat(
                " is connected. Bardic Chord found the server `",
            ).concat(g.name.as_str()).concat("` and the voice channel `").concat(
                c.name.as_str(),
            ).concat("`."),
            (Some(g), None) => name.concat(
                " is connected. Bardic Chord found the server `",
            ).concat(g.name.as_str()).concat("`. Choose a voice channel next."),
            _ => name.concat(
                " is connected. If the bot is not in your server yet, open the invite page and Bardic Chord will check again.",
            ),
        }
    }

    fn report(self, channel: Option<DiscordChannel>) -> (r: DiscordValidationReport)
        ensures
            r@ == validation_report(
                self@,
                match channel {
                    Some(c) => Some(c@),
                    None => None,
                },
            ),
    {
        let application_id = match &self.application {
            Some(app) => app.id.clone(),
            None => self.user.id.clone(),
        };
        let application_name = match &self.application {
            Some(app) => Some(app.name.clone()),
            None => None,
        };
        let invite_url = match discord_invite_url_from_token(self.token.as_str()) {
            Some(url) => url,
            None => discord_invite_url(application_id.as_str()),
        };
        let message = self.message(&channel);
        let guild_name = match &self.guild {
            Some(g) => Some(g.name.clone()),
            None => None,
        };
        let guild_id = match &self.guild {
            Some(g) => Some(g.id.clone()),
            None => self.guild_id(),
        };
        let voice_channel_name = match &channel {
            Some(c) => Some(c.name.clone()),
            None => None,
        };
        let voice_channel_id = match &channel {
            Some(c) => Some(c.id.clone()),
            None => self.channel_id(),
        };
        let voice_channel_kind = match &channel {
            Some(c) => Some(voice_channel_kind_name(c.channel_type).to_owned()),
            None => None,
        };
        DiscordValidationReport {
            bot_username: self.user.username,
            bot_id: self.user.id,
            application_name,
            application_id: Some(application_id),
            invite_url: Some(invite_url),
            guild_name,
            guild_id,
            voice_channel_name,
            voice_channel_id,
            voice_channel_kind,
            guild_options: self.guilds,
            voice_channel_options: self.channels,
            message,
        }
    }

    fn listed(&self, id: &str) -> (r: Option<DiscordChannel>)
        ensures
            match r {
                Some(c) => listed_channel(self@.channels, id@) == Some(c@),
                None => listed_channel(self@.channels, id@) is None,
            },
    {
        let ids = ids_of_voice_channels(&self.channels);
        match find_text(&ids, id) {
            Some(i) => {
                assert(text::texts(ids@).len() == self.channels@.len());
                let channel = &self.channels[i];
                assert(self@.channels[i as int] == channel@);
                Some(
                    DiscordChannel {
                        id: channel.id.clone(),
                        name: channel.name.clone(),
                        channel_type: if text::same(channel.kind.as_str(), "Stage Voice") {
                            13
                        } else {
                            2
                        },
                    },
                )
            },
            None => None,
        }
    }

    fn choose_channel(self) -> (r: ValidationStep)
        ensures
            r@ == after_channels(self@),
    {
        match self.channel_id() {
            Some(id) => match self.listed(id.as_str()) {
                Some(channel) => ValidationStep::Report(self.report(Some(channel))),
                None => {
                    let next = DiscordValidation { stage: ValidationStage::Channel, ..self };
                    assert(next@ =~= self@);
                    ValidationStep::Ask(next)
                },
            },
            None => ValidationStep::Report(self.report(None)),
        }
    }

    /// Takes the reply to what was asked.
    pub fn reply(self, reply: DiscordReply) -> (r: ValidationStep)
        requires
            answers(self.stage(), reply@),
        ensures
            r@ == after_reply(self.stage(), self@, reply@),
    {
        match reply {
            DiscordReply::User(Ok(user)) => ValidationStep::Ask(
                DiscordValidation { stage: ValidationStage::Application, user, ..self },
            ),
            DiscordReply::User(Err(error)) => ValidationStep::Failed(error),
            DiscordReply::Application(Ok(application)) => ValidationStep::Ask(
                DiscordValidation {
                    stage: ValidationStage::Guilds,
                    application: Some(application),
                    ..self
                },
            ),
            DiscordReply::Application(Err(_)) => ValidationStep::Ask(
                DiscordValidation { stage: ValidationStage::Guilds, application: None, ..self },
            ),
            DiscordReply::Guilds(result) => {
                let guilds = match result {
                    Ok(guilds) => guild_options(guilds),
                    Err(_) => Vec::new(),
                };
                let found = DiscordValidation { stage: ValidationStage::Guild, guilds, ..self };
                proof {
                    if reply@->Guilds_0 is Err {
                        assert(discord::guild_views(guilds@) =~= Seq::<NamedView>::empty());
                    }
                }
                if found.guild_id().is_some() {
                    ValidationStep::Ask(found)
                } else {
                    found.choose_channel()
                }
            },
            DiscordReply::Guild(Ok(guild)) => ValidationStep::Ask(
                DiscordValidation { stage: ValidationStage::Channels, guild: Some(guild), ..self },
            ),
            DiscordReply::Guild(Err(error)) => ValidationStep::Failed(error),
            DiscordReply::Channels(Ok(channels)) => {
                let found = DiscordValidation {
                    stage: ValidationStage::Channel,
                    channels: voice_channel_options(channels),
                    ..self
                };
                found.choose_channel()
            },
            DiscordReply::Channels(Err(error)) => ValidationStep::Failed(error),
            DiscordReply::Channel(Ok(channel)) => ValidationStep::Report(
                self.report(Some(channel)),
            ),
            DiscordReply::Channel(Err(error)) => ValidationStep::Failed(error),
        }
    }
}

// ---------------------------------------------------------------------------
// Laws
// ---------------------------------------------------------------------------

/// What Discord replies to each request.
pub ghost struct Replies {
    pub user: Result<UserView, Seq<char>>,
    pub application: Result<NamedView, Seq<char>>,
    pub guilds: Result<Seq<NamedView>, Seq<char>>,
    pub guild: Result<NamedView, Seq<char>>,
    pub channels: Result<Seq<ChannelView>, Seq<char>>,
    pub channel: Result<ChannelView, Seq<char>>,
}

pub open spec fn reply_at(stage: ValidationStage, replies: Replies) -> ReplyView {
    match stage {
        ValidationStage::User => ReplyView::User(replies.user),
        ValidationStage::Application => ReplyView::Application(replies.application),
        ValidationStage::Guilds => ReplyView::Guilds(replies.guilds),
        ValidationStage::Guild => ReplyView::Guild(replies.guild),
        ValidationStage::Channels => ReplyView::Channels(replies.channels),
        ValidationStage::Channel => ReplyView::Channel(replies.channel),
    }
}

/// Where a check stands after at most `count` replies.
pub open spec fn after_replies(step: StepView, replies: Replies, count: nat) -> StepView
    decreases count,
{
    match step {
        StepView::Ask(stage, f) if count > 0 => after_replies(
            after_reply(stage, f, reply_at(stage, replies)),
            replies,
            (count - 1) as nat,
        ),
        _ => step,
    }
}

/// What is known once the servers are listed.
pub open spec fn listed_findings(s: SettingsView, user: UserView, replies: Replies) -> FindingsView {
    FindingsView {
        user,
        application: match replies.application {
            Ok(application) => Some(application),
            Err(_) => None,
        },
        guilds: match replies.guilds {
            Ok(guilds) => guilds,
            Err(_) => Seq::empty(),
        },
        ..first_findings(s)
    }
}

/// The end of a check whose findings are complete but for the channel.
pub open spec fn channel_outcome(f: FindingsView, replies: Replies) -> StepView {
    match resolved_channel(f) {
        None => StepView::Report(validation_report(f, None)),
        Some(id) => match (listed_channel(f.channels, id), replies.channel) {
            (Some(channel), _) => StepView::Report(validation_report(f, Some(channel))),
            (None, Ok(channel)) => StepView::Report(validation_report(f, Some(channel))),
            (None, Err(error)) => StepView::Failed(error),
        },
    }
}

/// The end of a check: a report, or the first failure that counts.
pub open spec fn validation_outcome(s: SettingsView, replies: Replies) -> StepView {
    match replies.user {
        Err(error) => StepView::Failed(error),
        Ok(user) => {
            let f = listed_findings(s, user, replies);
            match (resolved_guild(f), replies.guild, replies.channels) {
                (None, _, _) => channel_outcome(f, replies),
                (Some(_), Err(error), _) => StepView::Failed(error),
                (Some(_), Ok(_), Err(error)) => StepView::Failed(error),
                (Some(_), Ok(guild), Ok(channels)) => channel_outcome(
                    FindingsView {
                        guild: Some(guild),
                        channels: discord::voice_options(channels),
                        ..f
                    },
                    replies,
                ),
            }
        },
    }
}

/// A check ends after at most six replies, and they decide its end: a failure to
/// read the application or the list of servers is passed over, every other one ends
/// the check.
pub proof fn check_ends_as_replied(s: SettingsView, replies: Replies)
    ensures
        after_replies(StepView::Ask(ValidationStage::User, first_findings(s)), replies, 6)
            == validation_outcome(s, replies),
        !(validation_outcome(s, replies) is Ask),
{
    reveal_with_fuel(after_replies, 7);
    if let Ok(user) = replies.user {
        let f = listed_findings(s, user, replies);
        assert(f == FindingsView {
            guilds: f.guilds,
            ..FindingsView {
                application: f.application,
                ..FindingsView { user, ..first_findings(s) }
            }
        });
    }
}

/// Every step answers the question that was asked.
pub proof fn replies_fit(stage: ValidationStage, replies: Replies)
    ensures
        answers(stage, reply_at(stage, replies)),
{
}

/// Only voice channels are offered, and none is left out.
pub proof fn offered_channels_carry_voice(channels: Seq<ChannelView>)
    ensures
        forall|i: int|
            0 <= i < discord::voice_options(channels).len() ==> {
                let offered = #[trigger] discord::voice_options(channels)[i];
                offered.kind == "Voice"@ || offered.kind == "Stage Voice"@
            },
        forall|i: int|
            0 <= i < channels.len() && discord::is_voice(#[trigger] channels[i])
                ==> discord::voice_options(channels).contains(discord::voice_option(channels[i])),
{
    let voiced = |c: ChannelView| discord::is_voice(c);
    let kept = channels.filter(voiced);
    assert forall|i: int| 0 <= i < discord::voice_options(channels).len() implies {
        let offered = #[trigger] discord::voice_options(channels)[i];
        offered.kind == "Voice"@ || offered.kind == "Stage Voice"@
    } by {
        channels.lemma_filter_pred(voiced, i);
    }
    assert forall|i: int|
        0 <= i < channels.len() && discord::is_voice(#[trigger] channels[i]) implies discord::voice_options(
        channels,
    ).contains(discord::voice_option(channels[i])) by {
        channels.lemma_filter_contains(voiced, i);
        let j = choose|j: int| 0 <= j < kept.len() && kept[j] == channels[i];
        assert(discord::voice_options(channels)[j] == discord::voice_option(channels[i]));
    }
}

/// A check that begins with these settings, after so many replies.
pub open spec fn check_after(s: SettingsView, replies: Replies, count: nat) -> StepView {
    after_replies(StepView::Ask(ValidationStage::User, first_findings(s)), replies, count)
}

/// The stage at which a check stands and the path that it asks for there.
pub open spec fn asks(step: StepView, stage: ValidationStage, path: Seq<char>) -> bool {
    match step {
        StepView::Ask(at, f) => at == stage && asked_path(at, f) == path,
        _ => false,
    }
}

/// The server in the settings is asked for wherever there is one, whatever servers
/// Discord lists; only without one the first server of the list is; without either
/// none is.
pub proof fn chosen_server_is_asked_for(s: SettingsView, replies: Replies)
    requires
        replies.user is Ok,
    ensures
        asks(check_after(s, replies, 0), ValidationStage::User, "users/@me"@),
        asks(check_after(s, replies, 1), ValidationStage::Application, "oauth2/applications/@me"@),
        asks(check_after(s, replies, 2), ValidationStage::Guilds, "users/@me/guilds"@),
        !text::blank(s.guild_id) ==> asks(
            check_after(s, replies, 3),
            ValidationStage::Guild,
            "guilds/"@ + text::trimmed(s.guild_id),
        ),
        !text::blank(s.guild_id) && replies.guild is Ok ==> asks(
            check_after(s, replies, 4),
            ValidationStage::Channels,
            "guilds/"@ + text::trimmed(s.guild_id) + "/channels"@,
        ),
        text::blank(s.guild_id) && replies.guilds is Ok && replies.guilds->Ok_0.len() > 0 ==> asks(
            check_after(s, replies, 3),
            ValidationStage::Guild,
            "guilds/"@ + replies.guilds->Ok_0[0].id,
        ),
        text::blank(s.guild_id) && replies.guilds is Ok && replies.guilds->Ok_0.len() > 0
            && replies.guild is Ok ==> asks(
            check_after(s, replies, 4),
            ValidationStage::Channels,
            "guilds/"@ + replies.guilds->Ok_0[0].id + "/channels"@,
        ),
        text::blank(s.guild_id) && (replies.guilds is Err || replies.guilds->Ok_0.len() == 0)
            ==> match check_after(s, replies, 3) {
            StepView::Ask(stage, _) => stage is Channel,
            StepView::Report(report) => report.guild_id is None && report.guild_name is None,
            StepView::Failed(_) => false,
        },
{
    reveal_with_fuel(after_replies, 5);
}

/// Where the server is known, the channel in the settings is the one that the report
/// speaks of: as the server lists it, or, where it is not among the voice channels, as
/// Discord describes it when asked for that ID.
pub proof fn chosen_channel_is_reported(
    s: SettingsView,
    replies: Replies,
    before: Seq<ChannelView>,
    channel: ChannelView,
    behind: Seq<ChannelView>,
)
    requires
        replies.user is Ok,
        replies.guild is Ok,
        !text::blank(s.guild_id) || (replies.guilds is Ok && replies.guilds->Ok_0.len() > 0),
        !text::blank(s.voice_channel_id),
        forall|i: int|
            0 <= i < before.len() ==> !discord::is_sound_channel(
                #[trigger] before[i],
                text::trimmed(s.voice_channel_id),
            ),
    ensures
        replies.channels == Ok::<Seq<ChannelView>, Seq<char>>(before + seq![channel] + behind)
            && discord::is_sound_channel(channel, text::trimmed(s.voice_channel_id)) ==> ({
            let end = check_after(s, replies, 5);
            &&& end is Report
            &&& end->Report_0.voice_channel_id == Some(text::trimmed(s.voice_channel_id))
            &&& end->Report_0.voice_channel_name == Some(channel.name)
            &&& end->Report_0.voice_channel_kind == Some(
                if channel.channel_type == 2 {
                    "Voice"@
                } else {
                    "Stage Voice"@
                },
            )
        }),
        replies.channels == Ok::<Seq<ChannelView>, Seq<char>>(before) ==> asks(
            check_after(s, replies, 5),
            ValidationStage::Channel,
            "channels/"@ + text::trimmed(s.voice_channel_id),
        ),
{
    reveal_with_fuel(after_replies, 7);
    reveal_strlit("Voice");
    reveal_strlit("Stage Voice");
    assert("Voice"@.len() != "Stage Voice"@.len());
    discord::place_of_offered_channel(before, channel, behind, text::trimmed(s.voice_channel_id));
}

/// Without a channel in the settings the report speaks of the first voice channel of
/// the server, and of none where the server has none.
pub proof fn first_channel_is_reported(
    s: SettingsView,
    replies: Replies,
    before: Seq<ChannelView>,
    channel: ChannelView,
    behind: Seq<ChannelView>,
)
    requires
        replies.user is Ok,
        replies.guild is Ok,
        !text::blank(s.guild_id) || (replies.guilds is Ok && replies.guilds->Ok_0.len() > 0),
        text::blank(s.voice_channel_id),
        forall|i: int|
            0 <= i < before.len() ==> (#[trigger] before[i]).channel_type != 2
                && before[i].channel_type != 13,
    ensures
        replies.channels == Ok::<Seq<ChannelView>, Seq<char>>(before + seq![channel] + behind)
            && discord::is_sound_channel(channel, channel.id) ==> ({
            let end = check_after(s, replies, 5);
            &&& end is Report
            &&& end->Report_0.voice_channel_id == Some(channel.id)
            &&& end->Report_0.voice_channel_name == Some(channel.name)
        }),
        replies.channels == Ok::<Seq<ChannelView>, Seq<char>>(before) ==> ({
            let end = check_after(s, replies, 5);
            &&& end is Report
            &&& end->Report_0.voice_channel_id is None
            &&& end->Report_0.voice_channel_name is None
            &&& end->Report_0.voice_channel_options.len() == 0
        }),
{
    reveal_with_fuel(after_replies, 7);
    assert forall|i: int| 0 <= i < before.len() implies !discord::is_sound_channel(
        #[trigger] before[i],
        channel.id,
    ) by {
    }
    assert(discord::voice_options(before).len() == 0) by {
        let offered = discord::voice_options(before);
        if offered.len() > 0 {
            let id = offered[0].id;
            assert forall|i: int| 0 <= i < before.len() implies !discord::is_sound_channel(
                #[trigger] before[i],
                id,
            ) by {
            }
            discord::place_of_offered_channel(before, channel, behind, id);
            text::first_place_is_first(discord::voice_ids(offered), id);
            assert(discord::voice_ids(offered)[0] == id);
            assert(discord::voice_ids(offered).contains(id));
        }
    }
    discord::place_of_offered_channel(before, channel, behind, channel.id);
}

/// A report says what Discord replied: who the bot is, its application, the servers
/// that were listed, the server and the voice channels.
pub proof fn report_says_what_was_replied(s: SettingsView, replies: Replies)
    requires
        check_after(s, replies, 6) is Report,
    ensures
        replies.user is Ok,
        ({
            let report = check_after(s, replies, 6)->Report_0;
            let user = replies.user->Ok_0;
            let shown = match user.global_name {
                Some(name) => name,
                None => user.username,
            };
            &&& report.bot_username == user.username
            &&& report.bot_id == user.id
            &&& report.application_name is Some <==> replies.application is Ok
            &&& report.application_name is Some ==> report.application_name->Some_0
                == replies.application->Ok_0.name
            &&& report.application_id == Some(
                match replies.application {
                    Ok(application) => application.id,
                    Err(_) => user.id,
                },
            )
            &&& replies.guilds is Ok ==> report.guild_options == replies.guilds->Ok_0
            &&& replies.guilds is Err ==> report.guild_options.len() == 0
            &&& report.guild_name is Some ==> {
                &&& replies.guild is Ok
                &&& replies.channels is Ok
                &&& report.guild_name->Some_0 == replies.guild->Ok_0.name
                &&& report.guild_id == Some(replies.guild->Ok_0.id)
                &&& report.voice_channel_options == discord::voice_options(replies.channels->Ok_0)
            }
            &&& report.guild_name is Some <==> !text::blank(s.guild_id) || (replies.guilds is Ok
                && replies.guilds->Ok_0.len() > 0)
            &&& report.message.take(shown.len() as int) == shown
        }),
{
    reveal_with_fuel(after_replies, 7);
    check_ends_as_replied(s, replies);
    let report = check_after(s, replies, 6)->Report_0;
    let user = replies.user->Ok_0;
    let shown = display_name(user);
    assert(report.message.take(shown.len() as int) =~= shown);
}

/// A failure to learn who the bot is, or to read the server or its channels, ends the
/// check with what Discord said.
pub proof fn failures_end_the_check(s: SettingsView, replies: Replies, error: Seq<char>)
    ensures
        replies.user == Err::<UserView, Seq<char>>(error) ==> check_after(s, replies, 1)
            == StepView::Failed(error),
        replies.user is Ok && !text::blank(s.guild_id) && replies.guild == Err::<
            NamedView,
            Seq<char>,
        >(error) ==> check_after(s, replies, 4) == StepView::Failed(error),
        replies.user is Ok && !text::blank(s.guild_id) && replies.guild is Ok && replies.channels
            == Err::<Seq<ChannelView>, Seq<char>>(error) ==> check_after(s, replies, 5)
            == StepView::Failed(error),
{
    reveal_with_fuel(after_replies, 6);
}

/// A channel that the server does not list is reported as Discord describes it, and
/// where Discord does not, that ends the check.
pub proof fn unlisted_channel_is_reported_as_described(
    s: SettingsView,
    replies: Replies,
    listed: Seq<ChannelView>,
)
    requires
        replies.user is Ok,
        replies.guild is Ok,
        !text::blank(s.guild_id) || (replies.guilds is Ok && replies.guilds->Ok_0.len() > 0),
        !text::blank(s.voice_channel_id),
        replies.channels == Ok::<Seq<ChannelView>, Seq<char>>(listed),
        forall|i: int|
            0 <= i < listed.len() ==> !discord::is_sound_channel(
                #[trigger] listed[i],
                text::trimmed(s.voice_channel_id),
            ),
    ensures
        match replies.channel {
            Ok(channel) => ({
                let end = check_after(s, replies, 6);
                &&& end is Report
                &&& end->Report_0.voice_channel_id == Some(channel.id)
                &&& end->Report_0.voice_channel_name == Some(channel.name)
                &&& channel.channel_type == 2 ==> end->Report_0.voice_channel_kind == Some(
                    "Voice"@,
                )
            }),
            Err(error) => check_after(s, replies, 6) == StepView::Failed(error),
        },
{
    reveal_with_fuel(after_replies, 8);
    let any = ChannelView { id: Seq::empty(), name: Seq::empty(), channel_type: 0 };
    chosen_channel_is_reported(s, replies, listed, any, Seq::empty());
}

/// The bot that a report invites is the one that the token tells, or else the
/// application that Discord named, or else the user that it named.
pub proof fn reported_bot_is_invited(s: SettingsView, replies: Replies)
    requires
        check_after(s, replies, 6) is Report,
    ensures
        ({
            let bare = token::bare_token(s.discord_bot_token);
            let url = check_after(s, replies, 6)->Report_0.invite_url;
            &&& token::application_id(bare) is Some ==> url == Some(
                token::invite_url(token::application_id(bare)->Some_0),
            )
            &&& token::application_id(bare) is None && replies.application is Ok ==> url == Some(
                token::invite_url(replies.application->Ok_0.id),
            )
            &&& token::application_id(bare) is None && replies.application is Err ==> url == Some(
                token::invite_url(replies.user->Ok_0.id),
            )
        }),
{
    reveal_with_fuel(after_replies, 7);
    check_ends_as_replied(s, replies);
}

/// The message of a report names the server and the channel that were found.
pub proof fn message_names_the_route(user: UserView, guild: NamedView, channel: ChannelView)
    ensures
        text::occurs(
            validation_message(user, Some(guild), Some(channel)),
            "the server `"@ + guild.name + "` and the voice channel `"@ + channel.name + "`."@,
        ),
        text::occurs(
            validation_message(user, Some(guild), None),
            "the server `"@ + guild.name + "`. Choose a voice channel next."@,
        ),
{
    reveal_strlit(" is connected. Bardic Chord found the server `");
    reveal_strlit(" is connected. Bardic Chord found ");
    reveal_strlit("the server `");
    let front = display_name(user) + " is connected. Bardic Chord found "@;
    let none = Seq::<char>::empty();
    assert(" is connected. Bardic Chord found the server `"@
        =~= " is connected. Bardic Chord found "@ + "the server `"@);
    let both = "the server `"@ + guild.name + "` and the voice channel `"@ + channel.name + "`."@;
    let one = "the server `"@ + guild.name + "`. Choose a voice channel next."@;
    assert(validation_message(user, Some(guild), Some(channel)) =~= front + both + none);
    text::part_occurs(front, both, none);
    assert(validation_message(user, Some(guild), None) =~= front + one + none);
    text::part_occurs(front, one, none);
}

} // verus!
