//! The settings that the user edits.
use crate::names;
use crate::names::{
    audio_output_name_or_default, capture_target_or_default, DEFAULT_AUDIO_OUTPUT_NAME,
    DEFAULT_CAPTURE_TARGET,
};
use crate::text;
use crate::text::{is_blank, trim};
use vstd::prelude::*;

verus! {

pub const DEFAULT_BOT_DISPLAY_NAME: &'static str = "The Amber Minstrel";

#[derive(Debug)]
pub struct Settings {
    pub discord_bot_token: String,
    pub tracked_user_id: String,
    pub guild_id: String,
    pub voice_channel_id: String,
    pub audio_output_name: String,
    pub capture_target: String,
    pub capture_target_pid: u32,
    pub bot_display_name: String,
}

#[verifier::ext_equal]
pub struct SettingsView {
    pub discord_bot_token: Seq<char>,
    pub tracked_user_id: Seq<char>,
    pub guild_id: Seq<char>,
    pub voice_channel_id: Seq<char>,
    pub audio_output_name: Seq<char>,
    pub capture_target: Seq<char>,
    pub capture_target_pid: u32,
    pub bot_display_name: Seq<char>,
}

impl View for Settings {
    type V = SettingsView;

    open spec fn view(&self) -> SettingsView {
        SettingsView {
            discord_bot_token: self.discord_bot_token@,
            tracked_user_id: self.tracked_user_id@,
            guild_id: self.guild_id@,
            voice_channel_id: self.voice_channel_id@,
            audio_output_name: self.audio_output_name@,
            capture_target: self.capture_target@,
            capture_target_pid: self.capture_target_pid,
            bot_display_name: self.bot_display_name@,
        }
    }
}

impl Clone for Settings {
    fn clone(&self) -> (r: Settings)
        ensures
            r@ == self@,
    {
        Settings {
            discord_bot_token: self.discord_bot_token.clone(),
            tracked_user_id: self.tracked_user_id.clone(),
            guild_id: self.guild_id.clone(),
            voice_channel_id: self.voice_channel_id.clone(),
            audio_output_name: self.audio_output_name.clone(),
            capture_target: self.capture_target.clone(),
            capture_target_pid: self.capture_target_pid,
            bot_display_name: self.bot_display_name.clone(),
        }
    }
}

/// The settings before the user has edited any.
pub open spec fn default_settings() -> SettingsView {
    SettingsView {
        discord_bot_token: seq![],
        tracked_user_id: seq![],
        guild_id: seq![],
        voice_channel_id: seq![],
        audio_output_name: DEFAULT_AUDIO_OUTPUT_NAME@,
        capture_target: DEFAULT_CAPTURE_TARGET@,
        capture_target_pid: 0,
        bot_display_name: DEFAULT_BOT_DISPLAY_NAME@,
    }
}

impl Default for Settings {
    fn default() -> (r: Settings)
        ensures
            r@ == default_settings(),
    {
        Settings {
            discord_bot_token: String::new(),
            tracked_user_id: String::new(),
            guild_id: String::new(),
            voice_channel_id: String::new(),
            audio_output_name: DEFAULT_AUDIO_OUTPUT_NAME.to_owned(),
            capture_target: DEFAULT_CAPTURE_TARGET.to_owned(),
            capture_target_pid: 0,
            bot_display_name: DEFAULT_BOT_DISPLAY_NAME.to_owned(),
        }
    }
}

/// The settings in the form in which they are saved and used.
pub open spec fn normalized_settings(s: SettingsView) -> SettingsView {
    SettingsView {
        discord_bot_token: text::trimmed(s.discord_bot_token),
        tracked_user_id: text::trimmed(s.tracked_user_id),
        guild_id: text::trimmed(s.guild_id),
        voice_channel_id: text::trimmed(s.voice_channel_id),
        audio_output_name: names::output_name(s.audio_output_name),
        capture_target: names::capture_target(s.capture_target),
        capture_target_pid: s.capture_target_pid,
        bot_display_name: if text::blank(s.bot_display_name) {
            DEFAULT_BOT_DISPLAY_NAME@
        } else {
            text::trimmed(s.bot_display_name)
        },
    }
}

impl Settings {
    /// The settings in the form in which they are saved and used.
    pub fn normalized(self) -> (r: Settings)
        ensures
            r@ == normalized_settings(self@),
    {
        Settings {
            audio_output_name: audio_output_name_or_default(self.audio_output_name.as_str()),
            capture_target: capture_target_or_default(self.capture_target.as_str()),
            bot_display_name: if is_blank(self.bot_display_name.as_str()) {
                DEFAULT_BOT_DISPLAY_NAME.to_owned()
            } else {
                trim(self.bot_display_name.as_str()).to_owned()
            },
            discord_bot_token: trim(self.discord_bot_token.as_str()).to_owned(),
            tracked_user_id: trim(self.tracked_user_id.as_str()).to_owned(),
            guild_id: trim(self.guild_id.as_str()).to_owned(),
            voice_channel_id: trim(self.voice_channel_id.as_str()).to_owned(),
            capture_target_pid: self.capture_target_pid,
        }
    }

    /// The settings after the user has disconnected Discord: nothing is left
    /// that came from Discord, and the rest is as it was.
    pub fn without_discord(self) -> (r: Settings)
        ensures
            r@ == (SettingsView {
                discord_bot_token: seq![],
                guild_id: seq![],
                voice_channel_id: seq![],
                tracked_user_id: seq![],
                ..self@
            }),
    {
        Settings {
            discord_bot_token: String::new(),
            guild_id: String::new(),
            voice_channel_id: String::new(),
            tracked_user_id: String::new(),
            audio_output_name: self.audio_output_name,
            capture_target: self.capture_target,
            capture_target_pid: self.capture_target_pid,
            bot_display_name: self.bot_display_name,
        }
    }
}

/// Settings that were saved and loaded again do not change any more.
pub proof fn normalized_is_idempotent(s: SettingsView)
    ensures
        normalized_settings(normalized_settings(s)) == normalized_settings(s),
{
    let class = text::CharClass::Space;
    text::strip_is_idempotent(s.discord_bot_token, class);
    text::strip_is_idempotent(s.tracked_user_id, class);
    text::strip_is_idempotent(s.guild_id, class);
    text::strip_is_idempotent(s.voice_channel_id, class);
    names::output_name_is_idempotent(s.audio_output_name);
    names::capture_target_is_clean(s.capture_target);
    if text::blank(s.bot_display_name) {
        reveal_strlit("The Amber Minstrel");
        text::strip_keeps_clean_text(DEFAULT_BOT_DISPLAY_NAME@, class);
    } else {
        text::strip_is_idempotent(s.bot_display_name, class);
    }
}

/// Normalized settings always name an output, a capture target and a bot.
pub proof fn normalized_names_are_present(s: SettingsView)
    ensures
        !text::blank(normalized_settings(s).audio_output_name),
        !text::blank(normalized_settings(s).capture_target),
        !text::blank(normalized_settings(s).bot_display_name),
{
    normalized_is_idempotent(s);
    let name = names::output_name(s.audio_output_name);
    names::output_name_is_a_word(s.audio_output_name);
    text::blank_is_all_space(name);
    assert(text::CharClass::NotSpace.has(name[0]));
    names::capture_target_is_clean(s.capture_target);
    reveal_strlit("The Amber Minstrel");
    text::strip_keeps_clean_text(DEFAULT_BOT_DISPLAY_NAME@, text::CharClass::Space);
    text::strip_is_idempotent(s.bot_display_name, text::CharClass::Space);
}

/// The default settings are in normal form.
pub proof fn defaults_are_normal()
    ensures
        normalized_settings(default_settings()) == default_settings(),
{
    let d = default_settings();
    normalized_is_idempotent(d);
    reveal_strlit("The Amber Minstrel");
    reveal_strlit("Bardic_Chord");
    reveal_strlit("spotify");
    let class = text::CharClass::Space;
    text::strip_keeps_clean_text(DEFAULT_BOT_DISPLAY_NAME@, class);
    text::strip_keeps_clean_text(DEFAULT_CAPTURE_TARGET@, class);
    text::strip_keeps_clean_text(DEFAULT_AUDIO_OUTPUT_NAME@, class);
    text::runs_of_members(DEFAULT_AUDIO_OUTPUT_NAME@, text::CharClass::NotSpace);
}

/// Settings that are clean already stay as they are, each field by itself.
pub proof fn clean_fields_stay(s: SettingsView)
    ensures
        text::trimmed(s.discord_bot_token) == s.discord_bot_token ==> normalized_settings(
            s,
        ).discord_bot_token == s.discord_bot_token,
        text::trimmed(s.tracked_user_id) == s.tracked_user_id ==> normalized_settings(
            s,
        ).tracked_user_id == s.tracked_user_id,
        text::trimmed(s.guild_id) == s.guild_id ==> normalized_settings(s).guild_id == s.guild_id,
        text::trimmed(s.voice_channel_id) == s.voice_channel_id ==> normalized_settings(
            s,
        ).voice_channel_id == s.voice_channel_id,
        s.audio_output_name.len() > 0 && text::CharClass::NotSpace.has_all(s.audio_output_name)
            ==> normalized_settings(s).audio_output_name == s.audio_output_name,
        s.capture_target.len() > 0 && text::trimmed(s.capture_target) == s.capture_target
            ==> normalized_settings(s).capture_target == s.capture_target,
        s.bot_display_name.len() > 0 && text::trimmed(s.bot_display_name) == s.bot_display_name
            ==> normalized_settings(s).bot_display_name == s.bot_display_name,
        normalized_settings(s).capture_target_pid == s.capture_target_pid,
{
    let word = s.audio_output_name;
    if word.len() > 0 && text::CharClass::NotSpace.has_all(word) {
        let none = Seq::<char>::empty();
        names::output_name_joins_words(none, seq![word], ' ', none);
        assert(none + text::join(seq![word], seq![' ']) + none =~= word);
    }
}

/// White space around a field is all that is taken from it.
pub proof fn padding_is_taken_off(s: SettingsView, front: Seq<char>, core: Seq<char>, back: Seq<char>)
    requires
        text::CharClass::Space.has_all(front),
        text::CharClass::Space.has_all(back),
        core.len() > 0,
        !text::CharClass::Space.has(core[0]),
        !text::CharClass::Space.has(core.last()),
    ensures
        s.discord_bot_token == front + core + back ==> normalized_settings(s).discord_bot_token
            == core,
        s.tracked_user_id == front + core + back ==> normalized_settings(s).tracked_user_id == core,
        s.guild_id == front + core + back ==> normalized_settings(s).guild_id == core,
        s.voice_channel_id == front + core + back ==> normalized_settings(s).voice_channel_id
            == core,
        s.capture_target == front + core + back ==> normalized_settings(s).capture_target == core,
        s.bot_display_name == front + core + back ==> normalized_settings(s).bot_display_name
            == core,
{
    text::strip_of_padded(front, core, back, text::CharClass::Space);
}

/// A name that is missing is replaced by the usual one, and an ID that is missing by
/// nothing.
pub proof fn missing_fields_get_defaults(s: SettingsView)
    ensures
        text::blank(s.audio_output_name) ==> normalized_settings(s).audio_output_name
            == "Bardic_Chord"@,
        text::blank(s.capture_target) ==> normalized_settings(s).capture_target == "spotify"@,
        text::blank(s.bot_display_name) ==> normalized_settings(s).bot_display_name
            == "The Amber Minstrel"@,
        text::blank(s.discord_bot_token) ==> normalized_settings(s).discord_bot_token.len() == 0,
        text::blank(s.tracked_user_id) ==> normalized_settings(s).tracked_user_id.len() == 0,
        text::blank(s.guild_id) ==> normalized_settings(s).guild_id.len() == 0,
        text::blank(s.voice_channel_id) ==> normalized_settings(s).voice_channel_id.len() == 0,
{
}

} // verus!
