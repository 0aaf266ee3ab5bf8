//! What Bardic Chord asks Discord, and what it makes of the replies.
use crate::number;
use crate::number::parse_u64;
use crate::text;
use crate::text::{text_or, trim};
use reqwest::StatusCode;
use vstd::prelude::*;

verus! {

pub const DISCORD_API_BASE: &'static str = "https://discord.com/api/v10";

pub const DISCORD_USER_AGENT: &'static str =
    "BardicChord/0.1.0 (+https://github.com/ICEFIR/bardic-chord)";

// ---------------------------------------------------------------------------
// Requests and their failures
// ---------------------------------------------------------------------------

/// The address of a resource of the Discord API.
pub fn discord_request_url(path: &str) -> (r: String)
    ensures
        r@ == DISCORD_API_BASE@ + "/"@ + path@,
{
    DISCORD_API_BASE.to_owned().concat("/").concat(path)
}

/// The value of the authorization header.
pub fn discord_authorization(bot_token: &str) -> (r: String)
    ensures
        r@ == "Bot "@ + bot_token@,
{
    "Bot ".to_owned().concat(bot_token)
}

/// The words that stand behind a status code where it is shown.
pub uninterp spec fn status_reason(code: u16) -> Seq<char>;

/// `Display` of `reqwest::StatusCode` for the code `code`.
///
/// The text is the code in decimal, a space, and words that the code alone
/// decides.
#[verifier::external_body]
fn status_text(code: u16) -> (r: String)
    requires
        100 <= code <= 999,
    ensures
        r@ == number::decimal(code as nat) + " "@ + status_reason(code),
{
    format!("{}", StatusCode::from_u16(code).expect("a status code"))
}

/// What the user is told of a reply with the status `code`.
pub open spec fn error_message(code: u16, body: Seq<char>) -> Seq<char> {
    if code == 401 {
        "Discord rejected that bot token with 401 Unauthorized. Paste the full current bot token from the Discord Developer Portal."@
    } else {
        "Discord returned "@ + (number::decimal(code as nat) + " "@ + status_reason(code)) + ": "@
            + body
    }
}

/// What the user is told of a reply with the status `code`.
pub fn discord_error_message(code: u16, body: &str) -> (r: String)
    requires
        100 <= code <= 999,
    ensures
        r@ == error_message(code, body@),
{
    if code == 401 {
        "Discord rejected that bot token with 401 Unauthorized. Paste the full current bot token from the Discord Developer Portal.".to_owned()
    } else {
        "Discord returned ".to_owned().concat(status_text(code).as_str()).concat(": ").concat(body)
    }
}

/// The failure of a reply with the status `code`, if it is one. The body is
/// missing where it could not be read.
pub fn discord_reply_failure(code: u16, body: Option<String>) -> (r: Option<String>)
    requires
        100 <= code <= 999,
    ensures
        text::opt(r) == if 200 <= code <= 299 {
            None
        } else {
            Some(
                error_message(
                    code,
                    text::opt_or(
                        text::opt(body),
                        "Discord did not return a readable error body."@,
                    ),
                ),
            )
        },
{
    if 200 <= code && code <= 299 {
        None
    } else {
        let shown = text_or(&body, "Discord did not return a readable error body.");
        Some(discord_error_message(code, shown.as_str()))
    }
}

/// The number that an ID stands for.
pub open spec fn snowflake(input: Seq<char>, label: Seq<char>) -> Result<nat, Seq<char>> {
    match number::parse_unsigned(text::trimmed(input), u64::MAX as nat) {
        Ok(id) => Ok(id),
        Err(fault) => Err("Invalid "@ + label + ": "@ + fault.text()),
    }
}

/// The number that an ID stands for.
pub fn parse_snowflake(input: &str, label: &str) -> (r: Result<u64, String>)
    ensures
        match r {
            Ok(id) => snowflake(input@, label@) == Ok::<nat, Seq<char>>(id as nat),
            Err(message) => snowflake(input@, label@) == Err::<nat, Seq<char>>(message@),
        },
{
    match parse_u64(trim(input)) {
        Ok(id) => Ok(id),
        Err(fault) => Err("Invalid ".to_owned().concat(label).concat(": ").concat(fault.message())),
    }
}

/// The name of a kind of channel.
pub open spec fn kind_name(kind: u8) -> Seq<char> {
    if kind == 0 {
        "Text"@
    } else if kind == 2 {
        "Voice"@
    } else if kind == 4 {
        "Category"@
    } else if kind == 5 {
        "Announcement"@
    } else if kind == 13 {
        "Stage Voice"@
    } else if kind == 15 {
        "Forum"@
    } else {
        "Other"@
    }
}

/// The name of a kind of channel.
pub fn voice_channel_kind_name(kind: u8) -> (r: &'static str)
    ensures
        r@ == kind_name(kind),
{
    match kind {
        0 => "Text",
        2 => "Voice",
        4 => "Category",
        5 => "Announcement",
        13 => "Stage Voice",
        15 => "Forum",
        _ => "Other",
    }
}

// ---------------------------------------------------------------------------
// What Discord holds
// ---------------------------------------------------------------------------

/// Something with an ID and a name.
#[verifier::ext_equal]
pub struct NamedView {
    pub id: Seq<char>,
    pub name: Seq<char>,
}

#[derive(Debug)]
pub struct DiscordCurrentUser {
    pub id: String,
    pub username: String,
    pub global_name: Option<String>,
}

#[verifier::ext_equal]
pub struct UserView {
    pub id: Seq<char>,
    pub username: Seq<char>,
    pub global_name: Option<Seq<char>>,
}

impl View for DiscordCurrentUser {
    type V = UserView;

    open spec fn view(&self) -> UserView {
        UserView {
            id: self.id@,
            username: self.username@,
            global_name: text::opt(self.global_name),
        }
    }
}

#[derive(Debug)]
pub struct DiscordApplication {
    pub id: String,
    pub name: String,
}

impl View for DiscordApplication {
    type V = NamedView;

    open spec fn view(&self) -> NamedView {
        NamedView { id: self.id@, name: self.name@ }
    }
}

#[derive(Debug)]
pub struct DiscordGuild {
    pub id: String,
    pub name: String,
}

impl View for DiscordGuild {
    type V = NamedView;

    open spec fn view(&self) -> NamedView {
        NamedView { id: self.id@, name: self.name@ }
    }
}

#[derive(Debug)]
pub struct DiscordGuildSummary {
    pub id: String,
    pub name: String,
}

impl View for DiscordGuildSummary {
    type V = NamedView;

    open spec fn view(&self) -> NamedView {
        NamedView { id: self.id@, name: self.name@ }
    }
}

#[derive(Debug)]
pub struct DiscordChannel {
    pub id: String,
    pub name: String,
    pub channel_type: u8,
}

#[verifier::ext_equal]
pub struct ChannelView {
    pub id: Seq<char>,
    pub name: Seq<char>,
    pub channel_type: u8,
}

impl View for DiscordChannel {
    type V = ChannelView;

    open spec fn view(&self) -> ChannelView {
        ChannelView { id: self.id@, name: self.name@, channel_type: self.channel_type }
    }
}

/// A server that the user can choose.
#[derive(Debug)]
pub struct DiscordGuildOption {
    pub id: String,
    pub name: String,
}

impl View for DiscordGuildOption {
    type V = NamedView;

    open spec fn view(&self) -> NamedView {
        NamedView { id: self.id@, name: self.name@ }
    }
}

impl Clone for DiscordGuildOption {
    fn clone(&self) -> (r: DiscordGuildOption)
        ensures
            r@ == self@,
    {
        DiscordGuildOption { id: self.id.clone(), name: self.name.clone() }
    }
}

/// A voice channel that the user can choose.
#[derive(Debug)]
pub struct DiscordVoiceChannelOption {
    pub id: String,
    pub name: String,
    pub kind: String,
}

#[verifier::ext_equal]
pub struct VoiceChannelView {
    pub id: Seq<char>,
    pub name: Seq<char>,
    pub kind: Seq<char>,
}

impl View for DiscordVoiceChannelOption {
    type V = VoiceChannelView;

    open spec fn view(&self) -> VoiceChannelView {
        VoiceChannelView { id: self.id@, name: self.name@, kind: self.kind@ }
    }
}

impl Clone for DiscordVoiceChannelOption {
    fn clone(&self) -> (r: DiscordVoiceChannelOption)
        ensures
            r@ == self@,
    {
        DiscordVoiceChannelOption {
            id: self.id.clone(),
            name: self.name.clone(),
            kind: self.kind.clone(),
        }
    }
}

pub open spec fn summary_views(guilds: Seq<DiscordGuildSummary>) -> Seq<NamedView> {
    guilds.map_values(|g: DiscordGuildSummary| g@)
}

pub open spec fn guild_views(guilds: Seq<DiscordGuildOption>) -> Seq<NamedView> {
    guilds.map_values(|g: DiscordGuildOption| g@)
}

pub open spec fn channel_views(channels: Seq<DiscordChannel>) -> Seq<ChannelView> {
    channels.map_values(|c: DiscordChannel| c@)
}

pub open spec fn voice_views(channels: Seq<DiscordVoiceChannelOption>) -> Seq<VoiceChannelView> {
    channels.map_values(|c: DiscordVoiceChannelOption| c@)
}

/// The IDs of the servers, in order.
pub open spec fn guild_ids(guilds: Seq<NamedView>) -> Seq<Seq<char>> {
    guilds.map_values(|g: NamedView| g.id)
}

/// The IDs of the voice channels, in order.
pub open spec fn voice_ids(channels: Seq<VoiceChannelView>) -> Seq<Seq<char>> {
    channels.map_values(|c: VoiceChannelView| c.id)
}

pub fn ids_of_guilds(guilds: &Vec<DiscordGuildOption>) -> (r: Vec<String>)
    ensures
        text::texts(r@) == guild_ids(guild_views(guilds@)),
{
    let mut r: Vec<String> = Vec::new();
    let mut i: usize = 0;
    while i < guilds.len()
        invariant
            i <= guilds@.len(),
            r@.len() == i,
            forall|k: int| 0 <= k < i ==> (#[trigger] r@[k])@ == guilds@[k]@.id,
        decreases guilds@.len() - i,
    {
        r.push(guilds[i].id.clone());
        i += 1;
    }
    assert(text::texts(r@) =~= guild_ids(guild_views(guilds@)));
    r
}

pub fn ids_of_voice_channels(channels: &Vec<DiscordVoiceChannelOption>) -> (r: Vec<String>)
    ensures
        text::texts(r@) == voice_ids(voice_views(channels@)),
{
    let mut r: Vec<String> = Vec::new();
    let mut i: usize = 0;
    while i < channels.len()
        invariant
            i <= channels@.len(),
            r@.len() == i,
            forall|k: int| 0 <= k < i ==> (#[trigger] r@[k])@ == channels@[k]@.id,
        decreases channels@.len() - i,
    {
        r.push(channels[i].id.clone());
        i += 1;
    }
    assert(text::texts(r@) =~= voice_ids(voice_views(channels@)));
    r
}

/// The servers from which the user can choose.
pub(crate) fn guild_options(guilds: Vec<DiscordGuildSummary>) -> (r: Vec<DiscordGuildOption>)
    ensures
        guild_views(r@) == summary_views(guilds@),
{
    let mut r: Vec<DiscordGuildOption> = Vec::new();
    let mut i: usize = 0;
    while i < guilds.len()
        invariant
            i <= guilds@.len(),
            r@.len() == i,
            forall|k: int| 0 <= k < i ==> (#[trigger] r@[k])@ == guilds@[k]@,
        decreases guilds@.len() - i,
    {
        r.push(DiscordGuildOption { id: guilds[i].id.clone(), name: guilds[i].name.clone() });
        i += 1;
    }
    assert(guild_views(r@) =~= summary_views(guilds@));
    r
}

/// Whether a channel carries voice.
pub open spec fn is_voice(channel: ChannelView) -> bool {
    channel.channel_type == 2 || channel.channel_type == 13
}

pub open spec fn voice_option(channel: ChannelView) -> VoiceChannelView {
    VoiceChannelView {
        id: channel.id,
        name: channel.name,
        kind: kind_name(channel.channel_type),
    }
}

/// The voice channels from which the user can choose, in the order of the server.
pub open spec fn voice_options(channels: Seq<ChannelView>) -> Seq<VoiceChannelView> {
    channels.filter(|c: ChannelView| is_voice(c)).map_values(|c: ChannelView| voice_option(c))
}

pub(crate) fn voice_channel_options(channels: Vec<DiscordChannel>) -> (r: Vec<DiscordVoiceChannelOption>)
    ensures
        voice_views(r@) == voice_options(channel_views(channels@)),
{
    let ghost all = channel_views(channels@);
    let ghost voiced = |c: ChannelView| is_voice(c);
    let mut r: Vec<DiscordVoiceChannelOption> = Vec::new();
    let mut i: usize = 0;
    proof {
        reveal(Seq::filter);
        assert(voice_views(r@) =~= voice_options(all.take(0)));
    }
    while i < channels.len()
        invariant
            i <= channels@.len(),
            all == channel_views(channels@),
            voiced == (|c: ChannelView| is_voice(c)),
            voice_views(r@) == voice_options(all.take(i as int)),
        decreases channels@.len() - i,
    {
        let channel = &channels[i];
        let ghost before = r@;
        proof {
            reveal(Seq::filter);
            assert(all.take(i + 1).drop_last() =~= all.take(i as int));
            assert(all.take(i + 1).last() == channel@);
        }
        if channel.channel_type == 2 || channel.channel_type == 13 {
            r.push(
                DiscordVoiceChannelOption {
                    id: channel.id.clone(),
                    name: channel.name.clone(),
                    kind: voice_channel_kind_name(channel.channel_type).to_owned(),
                },
            );
            assert(all.take(i + 1).filter(voiced) == all.take(i as int).filter(voiced).push(
                channel@,
            ));
            assert(voice_views(r@) =~= voice_views(before).push(voice_option(channel@)));
            assert(voice_options(all.take(i + 1)) =~= voice_options(all.take(i as int)).push(
                voice_option(channel@),
            ));
        }
        i += 1;
    }
    assert(all.take(i as int) =~= all);
    r
}

/// What is known of the Discord side of the setup.
#[derive(Debug)]
pub struct DiscordValidationReport {
    pub bot_username: String,
    pub bot_id: String,
    pub application_name: Option<String>,
    pub application_id: Option<String>,
    pub invite_url: Option<String>,
    pub guild_name: Option<String>,
    pub guild_id: Option<String>,
    pub voice_channel_name: Option<String>,
    pub voice_channel_id: Option<String>,
    pub voice_channel_kind: Option<String>,
    pub guild_options: Vec<DiscordGuildOption>,
    pub voice_channel_options: Vec<DiscordVoiceChannelOption>,
    pub message: String,
}

#[verifier::ext_equal]
pub struct ValidationView {
    pub bot_username: Seq<char>,
    pub bot_id: Seq<char>,
    pub application_name: Option<Seq<char>>,
    pub application_id: Option<Seq<char>>,
    pub invite_url: Option<Seq<char>>,
    pub guild_name: Option<Seq<char>>,
    pub guild_id: Option<Seq<char>>,
    pub voice_channel_name: Option<Seq<char>>,
    pub voice_channel_id: Option<Seq<char>>,
    pub voice_channel_kind: Option<Seq<char>>,
    pub guild_options: Seq<NamedView>,
    pub voice_channel_options: Seq<VoiceChannelView>,
    pub message: Seq<char>,
}

impl View for DiscordValidationReport {
    type V = ValidationView;

    open spec fn view(&self) -> ValidationView {
        ValidationView {
            bot_username: self.bot_username@,
            bot_id: self.bot_id@,
            application_name: text::opt(self.application_name),
            application_id: text::opt(self.application_id),
            invite_url: text::opt(self.invite_url),
            guild_name: text::opt(self.guild_name),
            guild_id: text::opt(self.guild_id),
            voice_channel_name: text::opt(self.voice_channel_name),
            voice_channel_id: text::opt(self.voice_channel_id),
            voice_channel_kind: text::opt(self.voice_channel_kind),
            guild_options: guild_views(self.guild_options@),
            voice_channel_options: voice_views(self.voice_channel_options@),
            message: self.message@,
        }
    }
}

// ---------------------------------------------------------------------------
// Laws
// ---------------------------------------------------------------------------

/// An ID that is written in decimal, with white space around it, is read as itself.
pub proof fn written_id_is_read(front: Seq<char>, id: u64, back: Seq<char>, label: Seq<char>)
    requires
        text::CharClass::Space.has_all(front),
        text::CharClass::Space.has_all(back),
    ensures
        snowflake(front + number::decimal(id as nat) + back, label) == Ok::<nat, Seq<char>>(
            id as nat,
        ),
{
    let digits = number::decimal(id as nat);
    number::decimal_is_digits(id as nat);
    number::parse_inverts_decimal(id as nat, u64::MAX as nat);
    assert(text::is_digit(digits[0]) && text::is_digit(digits[digits.len() - 1]));
    text::strip_of_padded(front, digits, back, text::CharClass::Space);
}

/// The text, but for white space around it and for zeros and one `+` before it, is
/// the number in decimal.
pub open spec fn writes(input: Seq<char>, id: nat) -> bool {
    exists|k: nat|
        text::trimmed(input) == #[trigger] number::zeros(k) + number::decimal(id) || text::trimmed(
            input,
        ) == seq!['+'] + number::zeros(k) + number::decimal(id)
}

/// What is read as an ID is written there in decimal, but for zeros and one `+` before
/// it, and anything else is refused under the label.
pub proof fn read_id_is_written(input: Seq<char>, label: Seq<char>)
    ensures
        match snowflake(input, label) {
            Ok(id) => id <= u64::MAX && writes(input, id),
            Err(message) => message.take(("Invalid "@ + label + ": "@).len() as int) == "Invalid "@
                + label + ": "@,
        },
{
    let kept = text::trimmed(input);
    if snowflake(input, label) is Ok {
        number::read_number_is_written(kept, u64::MAX as nat);
    } else {
        let start = "Invalid "@ + label + ": "@;
        assert(snowflake(input, label)->Err_0.take(start.len() as int) =~= start);
    }
}

/// The choice is made channel by channel.
pub proof fn voice_options_go_channel_by_channel(a: Seq<ChannelView>, b: Seq<ChannelView>)
    ensures
        voice_options(a + b) == voice_options(a) + voice_options(b),
{
    Seq::filter_distributes_over_add(a, b, |c: ChannelView| is_voice(c));
    assert(voice_options(a + b) =~= voice_options(a) + voice_options(b));
}

/// A voice channel and a stage are offered, with their ID and name, and no other
/// channel is.
pub proof fn voice_and_stage_are_offered(channel: ChannelView)
    ensures
        channel.channel_type == 2 ==> voice_options(seq![channel]) == seq![
            (VoiceChannelView { id: channel.id, name: channel.name, kind: "Voice"@ }),
        ],
        channel.channel_type == 13 ==> voice_options(seq![channel]) == seq![
            (VoiceChannelView { id: channel.id, name: channel.name, kind: "Stage Voice"@ }),
        ],
        channel.channel_type != 2 && channel.channel_type != 13 ==> voice_options(
            seq![channel],
        ).len() == 0,
{
    reveal_with_fuel(Seq::filter, 2);
    let one = seq![channel];
    assert(one.drop_last() =~= Seq::<ChannelView>::empty());
    if channel.channel_type == 2 || channel.channel_type == 13 {
        assert(one.filter(|c: ChannelView| is_voice(c)) =~= one);
        assert(voice_options(one) =~= seq![voice_option(channel)]);
    }
}

/// Whether a channel can be joined for its sound and has the ID.
pub open spec fn is_sound_channel(channel: ChannelView, id: Seq<char>) -> bool {
    (channel.channel_type == 2 || channel.channel_type == 13) && channel.id == id
}

proof fn lemma_offered_ids(channels: Seq<ChannelView>, id: Seq<char>)
    ensures
        voice_ids(voice_options(channels)).contains(id) <==> exists|i: int|
            0 <= i < channels.len() && is_sound_channel(#[trigger] channels[i], id),
{
    let voiced = |c: ChannelView| is_voice(c);
    let kept = channels.filter(voiced);
    let ids = voice_ids(voice_options(channels));
    assert(ids.len() == kept.len());
    assert forall|j: int| 0 <= j < kept.len() implies ids[j] == kept[j].id by {
    }
    if ids.contains(id) {
        let j = choose|j: int| 0 <= j < ids.len() && ids[j] == id;
        channels.lemma_filter_pred(voiced, j);
        assert(kept.contains(kept[j]));
        channels.lemma_filter_contains_rev(voiced, kept[j]);
        let i = choose|i: int| 0 <= i < channels.len() && channels[i] == kept[j];
        assert(is_sound_channel(channels[i], id));
    }
    assert forall|i: int|
        0 <= i < channels.len() && is_sound_channel(#[trigger] channels[i], id) implies ids.contains(
        id,
    ) by {
        channels.lemma_filter_contains(voiced, i);
        let j = choose|j: int| 0 <= j < kept.len() && kept[j] == channels[i];
        assert(ids[j] == id);
    }
}

/// A voice channel stands among those offered where no other channel with its ID comes
/// before it, and an ID that no voice channel has stands nowhere.
pub proof fn place_of_offered_channel(
    before: Seq<ChannelView>,
    channel: ChannelView,
    behind: Seq<ChannelView>,
    id: Seq<char>,
)
    requires
        forall|i: int| 0 <= i < before.len() ==> !is_sound_channel(#[trigger] before[i], id),
    ensures
        is_sound_channel(channel, id) ==> ({
            let offered = voice_options(before + seq![channel] + behind);
            let place = text::first_place(voice_ids(offered), id);
            &&& place == Some(voice_options(before).len() as int)
            &&& offered[place->Some_0].id == channel.id
            &&& offered[place->Some_0].name == channel.name
            &&& offered[place->Some_0].kind == if channel.channel_type == 2 {
                "Voice"@
            } else {
                "Stage Voice"@
            }
        }),
        text::first_place(voice_ids(voice_options(before)), id) is None,
{
    let first = voice_options(before);
    lemma_offered_ids(before, id);
    text::first_place_is_first(voice_ids(first), id);
    if is_sound_channel(channel, id) {
        let offered = voice_options(before + seq![channel] + behind);
        let ids = voice_ids(offered);
        voice_options_go_channel_by_channel(before + seq![channel], behind);
        voice_options_go_channel_by_channel(before, seq![channel]);
        voice_and_stage_are_offered(channel);
        text::first_place_is_first(ids, id);
        let p = first.len() as int;
        assert(ids[p] == id);
        assert forall|k: int| 0 <= k < p implies #[trigger] ids[k] != id by {
            assert(voice_ids(first)[k] == ids[k]);
            assert(voice_ids(first).contains(voice_ids(first)[k]));
        }
        assert(ids.contains(ids[p]));
    }
}

/// A refused token is told apart from every other failure, which is shown with its code
/// and with what Discord said.
pub proof fn failures_are_told_apart(code: u16, body: Seq<char>, other: Seq<char>)
    ensures
        error_message(401, body) == error_message(401, other),
        code != 401 ==> {
            let start = "Discord returned "@ + number::decimal(code as nat) + " "@;
            let message = error_message(code, body);
            &&& message.take(start.len() as int) == start
            &&& message.skip(message.len() - body.len()) == body
        },
{
    if code != 401 {
        let start = "Discord returned "@ + number::decimal(code as nat) + " "@;
        let message = error_message(code, body);
        assert(message.take(start.len() as int) =~= start);
        assert(message.skip(message.len() - body.len()) =~= body);
    }
}

/// Every kind of channel that is known has a name of its own.
pub proof fn kinds_have_their_own_names(a: u8, b: u8)
    requires
        a == 0 || a == 2 || a == 4 || a == 5 || a == 13 || a == 15,
        a != b,
    ensures
        kind_name(a) != kind_name(b),
        kind_name(2) == "Voice"@,
        kind_name(13) == "Stage Voice"@,
{
    reveal_strlit("Text");
    reveal_strlit("Voice");
    reveal_strlit("Category");
    reveal_strlit("Announcement");
    reveal_strlit("Stage Voice");
    reveal_strlit("Forum");
    reveal_strlit("Other");
    assert("Text"@.len() == 4 && "Category"@.len() == 8 && "Announcement"@.len() == 12);
    assert("Stage Voice"@.len() == 11 && "Voice"@.len() == 5);
    assert("Voice"@[0] == 'V' && "Forum"@[0] == 'F' && "Other"@[0] == 'O');
    assert("Forum"@.len() == 5 && "Other"@.len() == 5);
}

} // verus!
