//! The state of the window, and what is written into it.
use crate::audio::{AudioOutputReport, AudioReportView};
use crate::discord;
use crate::discord::{
    DiscordGuildOption, DiscordValidationReport, DiscordVoiceChannelOption, NamedView,
    ValidationView, VoiceChannelView, ids_of_guilds, ids_of_voice_channels,
};
use crate::wording;
use crate::wording::{
    format_activity, format_health_tiles, format_steps, normalize_discord_user_reference,
};
use crate::names::{DEFAULT_AUDIO_OUTPUT_NAME, DEFAULT_CAPTURE_TARGET, non_empty};
use crate::number;
use crate::number::usize_to_decimal;
use crate::relay::{DiscordRelayReport, RelayReportView};
use crate::settings::{Settings, SettingsView};
use crate::snapshot::{AppSnapshot, AppSnapshotView};
use crate::text;
use crate::text::{find_text, is_blank, text_or};
use crate::token::DISCORD_INVITE_PERMISSIONS;
use vstd::prelude::*;

verus! {

/// What the window shows and what the user has entered.
#[derive(Debug)]
pub struct UiState {
    pub discord_permissions: String,
    pub discord_bot_token: String,
    pub follow_user_enabled: bool,
    pub tracked_user_id: String,
    pub guild_id: String,
    pub voice_channel_id: String,
    pub audio_output_name: String,
    pub capture_target: String,
    pub bot_display_name: String,
    pub discord_guild_model: Vec<String>,
    pub discord_guild_id_model: Vec<String>,
    pub discord_guild_index: i32,
    pub discord_voice_channel_model: Vec<String>,
    pub discord_voice_channel_id_model: Vec<String>,
    pub discord_voice_channel_index: i32,
    pub discord_connected: bool,
    pub discord_route_ready: bool,
    pub discord_status_title: String,
    pub discord_status_body: String,
    pub discord_route_text: String,
    pub discord_invite_url: String,
    pub audio_prepared: bool,
    pub audio_status_title: String,
    pub audio_status_body: String,
    pub audio_instructions_text: String,
    pub relay_active: bool,
    pub relay_status_title: String,
    pub relay_status_body: String,
    pub relay_instructions_text: String,
    pub party_can_stop: bool,
    pub save_message: String,
    pub overview_health_text: String,
    pub ritual_steps_text: String,
    pub activity_text: String,
    pub completion_summary: String,
    pub preview_line: String,
    pub runtime_summary: String,
    pub busy_label: String,
    pub busy_visible: bool,
    pub current_page: i32,
}

#[verifier::ext_equal]
pub struct UiView {
    pub discord_permissions: Seq<char>,
    pub discord_bot_token: Seq<char>,
    pub follow_user_enabled: bool,
    pub tracked_user_id: Seq<char>,
    pub guild_id: Seq<char>,
    pub voice_channel_id: Seq<char>,
    pub audio_output_name: Seq<char>,
    pub capture_target: Seq<char>,
    pub bot_display_name: Seq<char>,
    pub discord_guild_model: Seq<Seq<char>>,
    pub discord_guild_id_model: Seq<Seq<char>>,
    pub discord_guild_index: i32,
    pub discord_voice_channel_model: Seq<Seq<char>>,
    pub discord_voice_channel_id_model: Seq<Seq<char>>,
    pub discord_voice_channel_index: i32,
    pub discord_connected: bool,
    pub discord_route_ready: bool,
    pub discord_status_title: Seq<char>,
    pub discord_status_body: Seq<char>,
    pub discord_route_text: Seq<char>,
    pub discord_invite_url: Seq<char>,
    pub audio_prepared: bool,
    pub audio_status_title: Seq<char>,
    pub audio_status_body: Seq<char>,
    pub audio_instructions_text: Seq<char>,
    pub relay_active: bool,
    pub relay_status_title: Seq<char>,
    pub relay_status_body: Seq<char>,
    pub relay_instructions_text: Seq<char>,
    pub party_can_stop: bool,
    pub save_message: Seq<char>,
    pub overview_health_text: Seq<char>,
    pub ritual_steps_text: Seq<char>,
    pub activity_text: Seq<char>,
    pub completion_summary: Seq<char>,
    pub preview_line: Seq<char>,
    pub runtime_summary: Seq<char>,
    pub busy_label: Seq<char>,
    pub busy_visible: bool,
    pub current_page: i32,
}

impl View for UiState {
    type V = UiView;

    open spec fn view(&self) -> UiView {
        UiView {
            discord_permissions: self.discord_permissions@,
            discord_bot_token: self.discord_bot_token@,
            follow_user_enabled: self.follow_user_enabled,
            tracked_user_id: self.tracked_user_id@,
            guild_id: self.guild_id@,
            voice_channel_id: self.voice_channel_id@,
            audio_output_name: self.audio_output_name@,
            capture_target: self.capture_target@,
            bot_display_name: self.bot_display_name@,
            discord_guild_model: text::texts(self.discord_guild_model@),
            discord_guild_id_model: text::texts(self.discord_guild_id_model@),
            discord_guild_index: self.discord_guild_index,
            discord_voice_channel_model: text::texts(self.discord_voice_channel_model@),
            discord_voice_channel_id_model: text::texts(self.discord_voice_channel_id_model@),
            discord_voice_channel_index: self.discord_voice_channel_index,
            discord_connected: self.discord_connected,
            discord_route_ready: self.discord_route_ready,
            discord_status_title: self.discord_status_title@,
            discord_status_body: self.discord_status_body@,
            discord_route_text: self.discord_route_text@,
            discord_invite_url: self.discord_invite_url@,
            audio_prepared: self.audio_prepared,
            audio_status_title: self.audio_status_title@,
            audio_status_body: self.audio_status_body@,
            audio_instructions_text: self.audio_instructions_text@,
            relay_active: self.relay_active,
            relay_status_title: self.relay_status_title@,
            relay_status_body: self.relay_status_body@,
            relay_instructions_text: self.relay_instructions_text@,
            party_can_stop: self.party_can_stop,
            save_message: self.save_message@,
            overview_health_text: self.overview_health_text@,
            ritual_steps_text: self.ritual_steps_text@,
            activity_text: self.activity_text@,
            completion_summary: self.completion_summary@,
            preview_line: self.preview_line@,
            runtime_summary: self.runtime_summary@,
            busy_label: self.busy_label@,
            busy_visible: self.busy_visible,
            current_page: self.current_page,
        }
    }
}

/// The window before anything was read.
pub open spec fn blank_window() -> UiView {
    UiView {
        discord_permissions: DISCORD_INVITE_PERMISSIONS@,
        discord_bot_token: Seq::empty(),
        follow_user_enabled: false,
        tracked_user_id: Seq::empty(),
        guild_id: Seq::empty(),
        voice_channel_id: Seq::empty(),
        audio_output_name: Seq::empty(),
        capture_target: Seq::empty(),
        bot_display_name: Seq::empty(),
        discord_guild_model: Seq::empty(),
        discord_guild_id_model: Seq::empty(),
        discord_guild_index: 0,
        discord_voice_channel_model: Seq::empty(),
        discord_voice_channel_id_model: Seq::empty(),
        discord_voice_channel_index: 0,
        discord_connected: false,
        discord_route_ready: false,
        discord_status_title: Seq::empty(),
        discord_status_body: Seq::empty(),
        discord_route_text: Seq::empty(),
        discord_invite_url: Seq::empty(),
        audio_prepared: false,
        audio_status_title: Seq::empty(),
        audio_status_body: Seq::empty(),
        audio_instructions_text: Seq::empty(),
        relay_active: false,
        relay_status_title: Seq::empty(),
        relay_status_body: Seq::empty(),
        relay_instructions_text: Seq::empty(),
        party_can_stop: false,
        save_message: Seq::empty(),
        overview_health_text: Seq::empty(),
        ritual_steps_text: Seq::empty(),
        activity_text: Seq::empty(),
        completion_summary: Seq::empty(),
        preview_line: Seq::empty(),
        runtime_summary: Seq::empty(),
        busy_label: Seq::empty(),
        busy_visible: false,
        current_page: 0,
    }
}

impl UiState {
    /// The window before anything was read.
    pub fn new() -> (r: UiState)
        ensures
            r@ == blank_window(),
    {
        let r = UiState {
            discord_permissions: DISCORD_INVITE_PERMISSIONS.to_owned(),
            discord_bot_token: String::new(),
            follow_user_enabled: false,
            tracked_user_id: String::new(),
            guild_id: String::new(),
            voice_channel_id: String::new(),
            audio_output_name: String::new(),
            capture_target: String::new(),
            bot_display_name: String::new(),
            discord_guild_model: Vec::new(),
            discord_guild_id_model: Vec::new(),
            discord_guild_index: 0,
            discord_voice_channel_model: Vec::new(),
            discord_voice_channel_id_model: Vec::new(),
            discord_voice_channel_index: 0,
            discord_connected: false,
            discord_route_ready: false,
            discord_status_title: String::new(),
            discord_status_body: String::new(),
            discord_route_text: String::new(),
            discord_invite_url: String::new(),
            audio_prepared: false,
            audio_status_title: String::new(),
            audio_status_body: String::new(),
            audio_instructions_text: String::new(),
            relay_active: false,
            relay_status_title: String::new(),
            relay_status_body: String::new(),
            relay_instructions_text: String::new(),
            party_can_stop: false,
            save_message: String::new(),
            overview_health_text: String::new(),
            ritual_steps_text: String::new(),
            activity_text: String::new(),
            completion_summary: String::new(),
            preview_line: String::new(),
            runtime_summary: String::new(),
            busy_label: String::new(),
            busy_visible: false,
            current_page: 0,
        };
        assert(r@ =~= blank_window());
        r
    }
}

// ---------------------------------------------------------------------------
// What the user has entered
// ---------------------------------------------------------------------------

impl UiView {
    /// Whether a server and a voice channel are chosen.
    pub open spec fn route_ready(self) -> bool {
        !text::blank(self.guild_id) && !text::blank(self.voice_channel_id)
    }

    /// The settings that the user has entered.
    pub open spec fn entered_settings(self) -> SettingsView {
        SettingsView {
            discord_bot_token: self.discord_bot_token,
            tracked_user_id: if self.follow_user_enabled {
                wording::user_reference(self.tracked_user_id)
            } else {
                Seq::empty()
            },
            guild_id: self.guild_id,
            voice_channel_id: self.voice_channel_id,
            audio_output_name: self.audio_output_name,
            capture_target: self.capture_target,
            capture_target_pid: 0,
            bot_display_name: self.bot_display_name,
        }
    }

    /// The followed user is written in one form, and is forgotten where nobody is
    /// followed.
    pub open spec fn with_normal_inputs(self) -> UiView {
        UiView {
            tracked_user_id: if self.follow_user_enabled {
                wording::user_reference(self.tracked_user_id)
            } else if text::blank(self.tracked_user_id) {
                self.tracked_user_id
            } else {
                Seq::empty()
            },
            ..self
        }
    }

    /// The IDs follow what is picked in the lists.
    pub open spec fn with_picked_ids(self) -> UiView {
        UiView {
            guild_id: picked(
                self.discord_guild_id_model,
                self.discord_guild_index,
                self.guild_id,
            ),
            voice_channel_id: picked(
                self.discord_voice_channel_id_model,
                self.discord_voice_channel_index,
                self.voice_channel_id,
            ),
            ..self
        }
    }

    /// How many of the six setup items are ready.
    pub open spec fn completion(self) -> nat {
        counted(!text::blank(self.discord_bot_token)) + counted(self.route_ready()) + counted(
            !text::blank(self.audio_output_name),
        ) + counted(!text::blank(self.capture_target)) + counted(
            !text::blank(self.bot_display_name),
        ) + counted(self.audio_prepared)
    }

    /// One sentence on what the party will do.
    pub open spec fn preview(self) -> Seq<char> {
        trimmed_or(self.bot_display_name, "the bardic relay"@) + " will send `"@ + trimmed_or(
            self.capture_target,
            DEFAULT_CAPTURE_TARGET@,
        ) + "` through `"@ + trimmed_or(self.audio_output_name, DEFAULT_AUDIO_OUTPUT_NAME@)
            + "` into "@ + trimmed_or(self.voice_channel_id, "the chosen voice channel"@) + (
        if self.follow_user_enabled {
            ", following "@ + trimmed_or(self.tracked_user_id, "the selected user"@)
                + " when they are already in voice or move later"@
        } else {
            ""@
        }) + "."@
    }

    /// What follows from the entries is up to date.
    pub open spec fn with_derived(self) -> UiView {
        UiView {
            completion_summary: number::decimal(self.completion()) + " of "@ + number::decimal(6)
                + " setup items are ready. Bardic Chord saves your changes automatically."@,
            preview_line: self.preview(),
            discord_route_ready: self.route_ready(),
            ..self
        }
    }

    /// The summary of what runs is up to date.
    pub open spec fn with_summary(self) -> UiView {
        UiView {
            runtime_summary: (if self.discord_connected {
                "Discord ready"@
            } else {
                "Discord waiting"@
            }) + ", "@ + (if self.audio_prepared {
                "audio output ready"@
            } else {
                "audio output off"@
            }) + ", "@ + (if self.relay_active {
                "party live"@
            } else {
                "party off"@
            }) + "."@,
            ..self
        }
    }
}

pub open spec fn counted(ready: bool) -> nat {
    if ready {
        1
    } else {
        0
    }
}

/// The text without white space at its ends, or `default` where nothing is left.
pub open spec fn trimmed_or(value: Seq<char>, default: Seq<char>) -> Seq<char> {
    if text::blank(value) {
        default
    } else {
        text::trimmed(value)
    }
}

/// The ID that is picked, or the one before where nothing is.
pub open spec fn picked(ids: Seq<Seq<char>>, index: i32, before: Seq<char>) -> Seq<char> {
    if 0 <= index < ids.len() {
        ids[index as int]
    } else {
        before
    }
}

/// Whether a server and a voice channel are chosen.
pub fn route_ready_from_ui(ui: &UiState) -> (r: bool)
    ensures
        r == ui@.route_ready(),
{
    !is_blank(ui.guild_id.as_str()) && !is_blank(ui.voice_channel_id.as_str())
}

/// The settings that the user has entered.
pub fn settings_from_ui(ui: &UiState) -> (r: Settings)
    ensures
        r@ == ui@.entered_settings(),
{
    let r = Settings {
        discord_bot_token: ui.discord_bot_token.clone(),
        tracked_user_id: if ui.follow_user_enabled {
            normalize_discord_user_reference(ui.tracked_user_id.as_str())
        } else {
            String::new()
        },
        guild_id: ui.guild_id.clone(),
        voice_channel_id: ui.voice_channel_id.clone(),
        audio_output_name: ui.audio_output_name.clone(),
        capture_target: ui.capture_target.clone(),
        capture_target_pid: 0,
        bot_display_name: ui.bot_display_name.clone(),
    };
    assert(r@ =~= ui@.entered_settings());
    r
}

/// Writes the followed user in one form.
pub fn normalize_ui_inputs(ui: &mut UiState)
    ensures
        final(ui)@ == old(ui)@.with_normal_inputs(),
{
    if ui.follow_user_enabled {
        ui.tracked_user_id = normalize_discord_user_reference(ui.tracked_user_id.as_str());
    } else if !is_blank(ui.tracked_user_id.as_str()) {
        ui.tracked_user_id = String::new();
    }
    assert(ui@ =~= old(ui)@.with_normal_inputs());
}

fn pick(ids: &Vec<String>, index: i32, before: &String) -> (r: String)
    ensures
        r@ == picked(text::texts(ids@), index, before@),
{
    if index >= 0 && (index as usize) < ids.len() {
        assert(text::texts(ids@)[index as int] == ids@[index as int]@);
        ids[index as usize].clone()
    } else {
        before.clone()
    }
}

/// Lets the IDs follow what is picked in the lists.
pub fn sync_discord_picker_ids(ui: &mut UiState)
    ensures
        final(ui)@ == old(ui)@.with_picked_ids(),
{
    ui.guild_id = pick(&ui.discord_guild_id_model, ui.discord_guild_index, &ui.guild_id);
    ui.voice_channel_id = pick(
        &ui.discord_voice_channel_id_model,
        ui.discord_voice_channel_index,
        &ui.voice_channel_id,
    );
}

fn entered_or(value: &str, default: &str) -> (r: String)
    ensures
        r@ == trimmed_or(value@, default@),
{
    match non_empty(value) {
        Some(kept) => kept.to_owned(),
        None => default.to_owned(),
    }
}

fn count(ready: bool) -> (r: usize)
    ensures
        r == counted(ready),
{
    if ready {
        1
    } else {
        0
    }
}

fn count_completion(ui: &UiState) -> (r: usize)
    ensures
        r == ui@.completion(),
{
    count(!is_blank(ui.discord_bot_token.as_str())) + count(route_ready_from_ui(ui)) + count(
        !is_blank(ui.audio_output_name.as_str()),
    ) + count(!is_blank(ui.capture_target.as_str())) + count(
        !is_blank(ui.bot_display_name.as_str()),
    ) + count(ui.audio_prepared)
}

fn describe_party(ui: &UiState) -> (r: String)
    ensures
        r@ == ui@.preview(),
{
    let following = if ui.follow_user_enabled {
        ", following ".to_owned().concat(
            entered_or(ui.tracked_user_id.as_str(), "the selected user").as_str(),
        ).concat(" when they are already in voice or move later")
    } else {
        "".to_owned()
    };
    entered_or(ui.bot_display_name.as_str(), "the bardic relay").concat(" will send `").concat(
        entered_or(ui.capture_target.as_str(), DEFAULT_CAPTURE_TARGET).as_str(),
    ).concat("` through `").concat(
        entered_or(ui.audio_output_name.as_str(), DEFAULT_AUDIO_OUTPUT_NAME).as_str(),
    ).concat("` into ").concat(
        entered_or(ui.voice_channel_id.as_str(), "the chosen voice channel").as_str(),
    ).concat(following.as_str()).concat(".")
}

/// Brings what follows from the entries up to date.
pub fn refresh_editor_derived(ui: &mut UiState)
    ensures
        final(ui)@ == old(ui)@.with_derived(),
{
    let completion: usize = count_completion(ui);
    let preview_line = describe_party(ui);
    let ready = route_ready_from_ui(ui);
    ui.completion_summary =
    usize_to_decimal(completion).concat(" of ").concat(usize_to_decimal(6).as_str()).concat(
        " setup items are ready. Bardic Chord saves your changes automatically.",
    );
    ui.preview_line = preview_line;
    ui.discord_route_ready = ready;
}

/// Brings the summary of what runs up to date.
pub fn refresh_runtime_summary(ui: &mut UiState)
    ensures
        final(ui)@ == old(ui)@.with_summary(),
{
    let discord = if ui.discord_connected {
        "Discord ready"
    } else {
        "Discord waiting"
    };
    let audio = if ui.audio_prepared {
        "audio output ready"
    } else {
        "audio output off"
    };
    let relay = if ui.relay_active {
        "party live"
    } else {
        "party off"
    };
    ui.runtime_summary =
    discord.to_owned().concat(", ").concat(audio).concat(", ").concat(relay).concat(".");
}

// ---------------------------------------------------------------------------
// What the window is told
// ---------------------------------------------------------------------------

/// The labels of the servers.
pub open spec fn guild_labels(guilds: Seq<NamedView>) -> Seq<Seq<char>> {
    guilds.map_values(|g: NamedView| g.name + " ("@ + g.id + ")"@)
}

/// The labels of the voice channels.
pub open spec fn channel_labels(channels: Seq<VoiceChannelView>) -> Seq<Seq<char>> {
    channels.map_values(|c: VoiceChannelView| c.name + " ("@ + c.kind + ")"@)
}

/// The place of the ID in the list, or the first one.
pub open spec fn selected_index(ids: Seq<Seq<char>>, selected: Option<Seq<char>>) -> i32 {
    match selected {
        Some(id) => match text::first_place(ids, id) {
            Some(i) => i as i32,
            None => 0,
        },
        None => 0,
    }
}

impl UiView {
    pub open spec fn with_guilds(self, guilds: Seq<NamedView>, selected: Option<Seq<char>>) -> UiView {
        UiView {
            discord_guild_model: guild_labels(guilds),
            discord_guild_id_model: discord::guild_ids(guilds),
            discord_guild_index: selected_index(discord::guild_ids(guilds), selected),
            ..self
        }
    }

    pub open spec fn with_channels(
        self,
        channels: Seq<VoiceChannelView>,
        selected: Option<Seq<char>>,
    ) -> UiView {
        UiView {
            discord_voice_channel_model: channel_labels(channels),
            discord_voice_channel_id_model: discord::voice_ids(channels),
            discord_voice_channel_index: selected_index(discord::voice_ids(channels), selected),
            ..self
        }
    }

    /// The texts of the snapshot are shown.
    pub open spec fn with_snapshot_metadata(self, snapshot: AppSnapshotView) -> UiView {
        UiView {
            save_message: match snapshot.last_saved_at {
                Some(saved) => "Saved locally "@ + saved + "."@,
                None => "Local settings are ready to be scribed."@,
            },
            overview_health_text: wording::tiles_text(snapshot.health_tiles),
            ritual_steps_text: wording::steps_text(snapshot.ritual_steps),
            activity_text: wording::activity_text(snapshot.activity),
            ..self
        }
    }

    /// The settings of the snapshot are entered.
    pub open spec fn with_settings(self, s: SettingsView) -> UiView {
        UiView {
            discord_bot_token: s.discord_bot_token,
            follow_user_enabled: !text::blank(s.tracked_user_id),
            tracked_user_id: s.tracked_user_id,
            guild_id: s.guild_id,
            voice_channel_id: s.voice_channel_id,
            audio_output_name: s.audio_output_name,
            capture_target: s.capture_target,
            bot_display_name: s.bot_display_name,
            ..self
        }
    }

    /// The snapshot is shown and entered.
    pub open spec fn with_snapshot(self, snapshot: AppSnapshotView) -> UiView {
        self.with_settings(snapshot.settings).with_snapshot_metadata(
            snapshot,
        ).with_picked_ids().with_derived()
    }

    /// The texts of the report are shown.
    pub open spec fn with_validation_texts(self, report: ValidationView) -> UiView {
        UiView {
            guild_id: text::opt_or(report.guild_id, self.guild_id),
            voice_channel_id: text::opt_or(report.voice_channel_id, self.voice_channel_id),
            discord_connected: true,
            discord_status_title: "Discord is ready"@,
            discord_status_body: report.message + "\n\nBot name: "@ + report.bot_username
                + "\nBot ID: "@ + report.bot_id + "\nApp: "@ + text::opt_or(
                report.application_name,
                "Discord application"@,
            ),
            discord_route_text: "Selected server: "@ + text::opt_or(
                report.guild_name,
                "No guild verified yet"@,
            ) + "\nSelected channel: "@ + text::opt_or(
                report.voice_channel_name,
                "No voice channel verified yet"@,
            ) + "\nChannel type: "@ + text::opt_or(report.voice_channel_kind, "Unknown"@)
                + "\nServers found: "@ + number::decimal(report.guild_options.len())
                + "\nVoice channels found: "@ + number::decimal(
                report.voice_channel_options.len(),
            ),
            discord_invite_url: text::opt_or(report.invite_url, ""@),
            ..self
        }
    }

    /// The report on the Discord setup is shown.
    pub open spec fn with_validation(self, report: ValidationView) -> UiView {
        self.with_guilds(report.guild_options, report.guild_id).with_channels(
            report.voice_channel_options,
            report.voice_channel_id,
        ).with_validation_texts(report).with_picked_ids().with_derived()
    }

    /// The report on the output is shown.
    pub open spec fn with_audio(self, report: AudioReportView) -> UiView {
        UiView {
            audio_prepared: report.active,
            audio_status_title: if report.active {
                "Desktop audio is ready"@
            } else {
                "Desktop audio is waiting"@
            },
            audio_status_body: report.message + "\n\nOutput: "@ + text::opt_or(
                report.output_name,
                DEFAULT_AUDIO_OUTPUT_NAME@,
            ) + "\nPlatform: "@ + report.platform + "\nStarted: "@ + text::opt_or(
                report.started_at,
                "Not running"@,
            ),
            audio_instructions_text: wording::steps_text(report.instruction_steps),
            ..self
        }
    }

    /// The report on the relay is shown.
    pub open spec fn with_relay(self, report: RelayReportView) -> UiView {
        UiView {
            relay_active: report.active,
            relay_status_title: if report.active {
                "Party is live"@
            } else {
                "Party is off"@
            },
            relay_status_body: report.message + "\n\nGuild: "@ + text::opt_or(
                report.guild_name,
                "No guild active"@,
            ) + "\nVoice channel: "@ + text::opt_or(
                report.voice_channel_name,
                "No voice channel active"@,
            ) + "\nBot: "@ + text::opt_or(report.bot_username, "No bot identity confirmed"@)
                + "\nStarted: "@ + text::opt_or(report.started_at, "Not running"@),
            relay_instructions_text: wording::steps_text(report.instruction_steps),
            ..self
        }
    }

    /// Nothing is known of Discord.
    pub open spec fn without_connection(self) -> UiView {
        UiView {
            discord_connected: false,
            discord_route_ready: false,
            discord_invite_url: Seq::empty(),
            discord_guild_model: Seq::empty(),
            discord_guild_id_model: Seq::empty(),
            discord_voice_channel_model: Seq::empty(),
            discord_voice_channel_id_model: Seq::empty(),
            discord_guild_index: 0,
            discord_voice_channel_index: 0,
            guild_id: Seq::empty(),
            voice_channel_id: Seq::empty(),
            ..self
        }
    }

    pub open spec fn busy(self, label: Seq<char>) -> UiView {
        UiView { busy_label: label, busy_visible: label.len() > 0, ..self }
    }

    pub open spec fn with_save_message(self, message: Seq<char>) -> UiView {
        UiView { save_message: message, ..self }
    }

    pub open spec fn with_discord_status(self, title: Seq<char>, body: Seq<char>) -> UiView {
        UiView { discord_status_title: title, discord_status_body: body, ..self }
    }

    pub open spec fn with_audio_status(self, title: Seq<char>, body: Seq<char>) -> UiView {
        UiView { audio_status_title: title, audio_status_body: body, ..self }
    }

    pub open spec fn with_relay_status(self, title: Seq<char>, body: Seq<char>) -> UiView {
        UiView { relay_status_title: title, relay_status_body: body, ..self }
    }

    pub open spec fn stoppable(self, party_can_stop: bool) -> UiView {
        UiView { party_can_stop, ..self }
    }
}

fn select(ids: &Vec<String>, selected: &Option<String>) -> (r: i32)
    ensures
        r == selected_index(text::texts(ids@), text::opt(*selected)),
{
    match selected {
        Some(id) => match find_text(ids, id.as_str()) {
            Some(i) => i as i32,
            None => 0,
        },
        None => 0,
    }
}

/// Fills the list of servers.
pub fn set_discord_guild_models(
    ui: &mut UiState,
    guilds: &Vec<DiscordGuildOption>,
    selected_id: &Option<String>,
)
    ensures
        final(ui)@ == old(ui)@.with_guilds(
            discord::guild_views(guilds@),
            text::opt(*selected_id),
        ),
{
    let mut labels: Vec<String> = Vec::new();
    let mut i: usize = 0;
    while i < guilds.len()
        invariant
            i <= guilds@.len(),
            labels@.len() == i,
            forall|k: int|
                0 <= k < i ==> (#[trigger] labels@[k])@ == guilds@[k]@.name + " ("@ + guilds@[k]@.id
                    + ")"@,
        decreases guilds@.len() - i,
    {
        labels.push(
            guilds[i].name.clone().concat(" (").concat(guilds[i].id.as_str()).concat(")"),
        );
        i += 1;
    }
    assert(text::texts(labels@) =~= guild_labels(discord::guild_views(guilds@)));
    let ids = ids_of_guilds(guilds);
    ui.discord_guild_index = select(&ids, selected_id);
    ui.discord_guild_model = labels;
    ui.discord_guild_id_model = ids;
}

/// Fills the list of voice channels.
pub fn set_discord_voice_channel_models(
    ui: &mut UiState,
    channels: &Vec<DiscordVoiceChannelOption>,
    selected_id: &Option<String>,
)
    ensures
        final(ui)@ == old(ui)@.with_channels(
            discord::voice_views(channels@),
            text::opt(*selected_id),
        ),
{
    let mut labels: Vec<String> = Vec::new();
    let mut i: usize = 0;
    while i < channels.len()
        invariant
            i <= channels@.len(),
            labels@.len() == i,
            forall|k: int|
                0 <= k < i ==> (#[trigger] labels@[k])@ == channels@[k]@.name + " ("@
                    + channels@[k]@.kind + ")"@,
        decreases channels@.len() - i,
    {
        labels.push(
            channels[i].name.clone().concat(" (").concat(channels[i].kind.as_str()).concat(")"),
        );
        i += 1;
    }
    assert(text::texts(labels@) =~= channel_labels(discord::voice_views(channels@)));
    let ids = ids_of_voice_channels(channels);
    ui.discord_voice_channel_index = select(&ids, selected_id);
    ui.discord_voice_channel_model = labels;
    ui.discord_voice_channel_id_model = ids;
}

/// Shows the texts of the snapshot.
pub fn apply_snapshot_metadata(ui: &mut UiState, snapshot: &AppSnapshot)
    ensures
        final(ui)@ == old(ui)@.with_snapshot_metadata(snapshot@),
{
    ui.save_message = match &snapshot.last_saved_at {
        Some(saved) => "Saved locally ".to_owned().concat(saved.as_str()).concat("."),
        None => "Local settings are ready to be scribed.".to_owned(),
    };
    ui.overview_health_text = format_health_tiles(snapshot.health_tiles.as_slice());
    ui.ritual_steps_text = format_steps(snapshot.ritual_steps.as_slice());
    ui.activity_text = format_activity(snapshot.activity.as_slice());
}

/// Shows and enters the snapshot.
pub fn apply_snapshot(ui: &mut UiState, snapshot: &AppSnapshot)
    ensures
        final(ui)@ == old(ui)@.with_snapshot(snapshot@),
{
    let s = &snapshot.settings;
    ui.discord_bot_token = s.discord_bot_token.clone();
    ui.follow_user_enabled = !is_blank(s.tracked_user_id.as_str());
    ui.tracked_user_id = s.tracked_user_id.clone();
    ui.guild_id = s.guild_id.clone();
    ui.voice_channel_id = s.voice_channel_id.clone();
    ui.audio_output_name = s.audio_output_name.clone();
    ui.capture_target = s.capture_target.clone();
    ui.bot_display_name = s.bot_display_name.clone();
    assert(ui@ =~= old(ui)@.with_settings(snapshot@.settings));
    apply_snapshot_metadata(ui, snapshot);
    sync_discord_picker_ids(ui);
    refresh_editor_derived(ui);
}

fn apply_validation_texts(ui: &mut UiState, report: &DiscordValidationReport)
    ensures
        final(ui)@ == old(ui)@.with_validation_texts(report@),
{
    ui.guild_id = text_or(&report.guild_id, ui.guild_id.as_str());
    ui.voice_channel_id = text_or(&report.voice_channel_id, ui.voice_channel_id.as_str());
    ui.discord_connected = true;
    ui.discord_status_title = "Discord is ready".to_owned();
    ui.discord_status_body =
    report.message.clone().concat("\n\nBot name: ").concat(report.bot_username.as_str()).concat(
        "\nBot ID: ",
    ).concat(report.bot_id.as_str()).concat("\nApp: ").concat(
        text_or(&report.application_name, "Discord application").as_str(),
    );
    assert(report@.guild_options.len() == report.guild_options@.len());
    assert(report@.voice_channel_options.len() == report.voice_channel_options@.len());
    ui.discord_route_text =
    "Selected server: ".to_owned().concat(
        text_or(&report.guild_name, "No guild verified yet").as_str(),
    ).concat("\nSelected channel: ").concat(
        text_or(&report.voice_channel_name, "No voice channel verified yet").as_str(),
    ).concat("\nChannel type: ").concat(
        text_or(&report.voice_channel_kind, "Unknown").as_str(),
    ).concat("\nServers found: ").concat(
        usize_to_decimal(report.guild_options.len()).as_str(),
    ).concat("\nVoice channels found: ").concat(
        usize_to_decimal(report.voice_channel_options.len()).as_str(),
    );
    ui.discord_invite_url = text_or(&report.invite_url, "");
}

/// Shows the report on the Discord setup.
pub fn apply_discord_validation(ui: &mut UiState, report: &DiscordValidationReport)
    ensures
        final(ui)@ == old(ui)@.with_validation(report@),
{
    set_discord_guild_models(ui, &report.guild_options, &report.guild_id);
    set_discord_voice_channel_models(
        ui,
        &report.voice_channel_options,
        &report.voice_channel_id,
    );
    apply_validation_texts(ui, report);
    sync_discord_picker_ids(ui);
    refresh_editor_derived(ui);
}

/// Shows the report on the output.
pub fn apply_audio_output_report(ui: &mut UiState, report: &AudioOutputReport)
    ensures
        final(ui)@ == old(ui)@.with_audio(report@),
{
    ui.audio_prepared = report.active;
    ui.audio_status_title =
    if report.active {
        "Desktop audio is ready".to_owned()
    } else {
        "Desktop audio is waiting".to_owned()
    };
    ui.audio_status_body =
    report.message.clone().concat("\n\nOutput: ").concat(
        text_or(&report.output_name, DEFAULT_AUDIO_OUTPUT_NAME).as_str(),
    ).concat("\nPlatform: ").concat(report.platform.as_str()).concat("\nStarted: ").concat(
        text_or(&report.started_at, "Not running").as_str(),
    );
    ui.audio_instructions_text = format_steps(report.instruction_steps.as_slice());
}

/// Shows the report on the relay.
pub fn apply_relay_report(ui: &mut UiState, report: &DiscordRelayReport)
    ensures
        final(ui)@ == old(ui)@.with_relay(report@),
{
    ui.relay_active = report.active;
    ui.relay_status_title =
    if report.active {
        "Party is live".to_owned()
    } else {
        "Party is off".to_owned()
    };
    ui.relay_status_body =
    report.message.clone().concat("\n\nGuild: ").concat(
        text_or(&report.guild_name, "No guild active").as_str(),
    ).concat("\nVoice channel: ").concat(
        text_or(&report.voice_channel_name, "No voice channel active").as_str(),
    ).concat("\nBot: ").concat(
        text_or(&report.bot_username, "No bot identity confirmed").as_str(),
    ).concat("\nStarted: ").concat(text_or(&report.started_at, "Not running").as_str());
    ui.relay_instructions_text = format_steps(report.instruction_steps.as_slice());
}

/// Forgets what is known of Discord.
pub fn clear_discord_connection_state(ui: &mut UiState)
    ensures
        final(ui)@ == old(ui)@.without_connection(),
{
    ui.discord_connected = false;
    ui.discord_route_ready = false;
    ui.discord_invite_url = String::new();
    ui.discord_guild_model = Vec::new();
    ui.discord_guild_id_model = Vec::new();
    ui.discord_voice_channel_model = Vec::new();
    ui.discord_voice_channel_id_model = Vec::new();
    ui.discord_guild_index = 0;
    ui.discord_voice_channel_index = 0;
    ui.guild_id = String::new();
    ui.voice_channel_id = String::new();
    assert(ui@ =~= old(ui)@.without_connection());
}

/// Says what is going on, or nothing.
pub fn set_busy(ui: &mut UiState, label: Option<&str>)
    ensures
        final(ui)@ == old(ui)@.busy(
            match label {
                Some(label) => label@,
                None => ""@,
            },
        ),
{
    let label = match label {
        Some(label) => label,
        None => "",
    };
    ui.busy_visible = !label.is_empty();
    ui.busy_label = label.to_owned();
}

/// Says that nothing is going on.
pub fn clear_busy(ui: &mut UiState)
    ensures
        final(ui)@ == old(ui)@.busy(Seq::empty()),
{
    ui.busy_label = String::new();
    ui.busy_visible = false;
    assert(ui@ =~= old(ui)@.busy(Seq::empty()));
}

// ---------------------------------------------------------------------------
// Laws
// ---------------------------------------------------------------------------

/// What the user has entered is saved the same, however often it is put in form.
pub proof fn normal_inputs_keep_the_settings(ui: UiView)
    ensures
        ui.with_normal_inputs().entered_settings() == ui.entered_settings(),
        ui.with_normal_inputs().with_normal_inputs() == ui.with_normal_inputs(),
{
    wording::user_reference_is_idempotent(ui.tracked_user_id);
    assert(ui.with_normal_inputs().with_normal_inputs() =~= ui.with_normal_inputs()) by {
        text::blank_is_all_space(Seq::<char>::empty());
    }
}

/// At most six setup items are ready, and all six exactly where every entry is there
/// and the output is prepared.
pub proof fn completion_counts_the_parts(ui: UiView)
    ensures
        ui.completion() <= 6,
        ui.completion() == 6 <==> !text::blank(ui.discord_bot_token) && ui.route_ready()
            && !text::blank(ui.audio_output_name) && !text::blank(ui.capture_target)
            && !text::blank(ui.bot_display_name) && ui.audio_prepared,
{
}

/// The flag that the route is ready says so exactly where it is.
pub proof fn derived_route_is_right(ui: UiView)
    ensures
        ui.with_derived().discord_route_ready == ui.with_derived().route_ready(),
{
}

/// After a check that found the chosen server and channel in the lists, these are
/// what is entered.
pub proof fn validated_route_is_entered(ui: UiView, report: ValidationView, guild: Seq<char>, channel: Seq<char>)
    requires
        report.guild_id == Some(guild),
        report.voice_channel_id == Some(channel),
        discord::guild_ids(report.guild_options).contains(guild),
        discord::voice_ids(report.voice_channel_options).contains(channel),
        report.guild_options.len() <= i32::MAX,
        report.voice_channel_options.len() <= i32::MAX,
    ensures
        ui.with_validation(report).guild_id == guild,
        ui.with_validation(report).voice_channel_id == channel,
        ui.with_validation(report).discord_connected,
{
    text::first_place_is_first(discord::guild_ids(report.guild_options), guild);
    text::first_place_is_first(discord::voice_ids(report.voice_channel_options), channel);
}

/// Once Discord is forgotten, no route is left to start with.
pub proof fn forgotten_route_is_not_ready(ui: UiView)
    ensures
        !ui.without_connection().route_ready(),
        !ui.without_connection().discord_connected,
        ui.without_connection().with_picked_ids() == ui.without_connection(),
{
    text::blank_is_all_space(Seq::<char>::empty());
}

/// Settings that are entered stand in the fields that are named after them, and are
/// read back unchanged; a followed user is read back in its one form.
pub proof fn entered_settings_are_read_back(ui: UiView, s: SettingsView)
    ensures
        ({
            let entered = ui.with_settings(s);
            let back = entered.entered_settings();
            &&& entered.discord_bot_token == s.discord_bot_token
            &&& entered.guild_id == s.guild_id
            &&& entered.voice_channel_id == s.voice_channel_id
            &&& entered.audio_output_name == s.audio_output_name
            &&& entered.capture_target == s.capture_target
            &&& entered.bot_display_name == s.bot_display_name
            &&& entered.tracked_user_id == s.tracked_user_id
            &&& entered.follow_user_enabled <==> !text::blank(s.tracked_user_id)
            &&& back.discord_bot_token == s.discord_bot_token
            &&& back.guild_id == s.guild_id
            &&& back.voice_channel_id == s.voice_channel_id
            &&& back.audio_output_name == s.audio_output_name
            &&& back.capture_target == s.capture_target
            &&& back.bot_display_name == s.bot_display_name
            &&& text::blank(s.tracked_user_id) ==> back.tracked_user_id.len() == 0
            &&& wording::user_reference(s.tracked_user_id) == s.tracked_user_id
                && !text::blank(s.tracked_user_id) ==> back.tracked_user_id == s.tracked_user_id
            &&& back.capture_target_pid == 0
        }),
{
}

/// A snapshot that is shown in a window without lists to pick from is read back as
/// its settings.
pub proof fn shown_snapshot_is_read_back(ui: UiView, snapshot: AppSnapshotView)
    requires
        ui.discord_guild_id_model.len() == 0,
        ui.discord_voice_channel_id_model.len() == 0,
    ensures
        ({
            let s = snapshot.settings;
            let back = ui.with_snapshot(snapshot).entered_settings();
            &&& back.discord_bot_token == s.discord_bot_token
            &&& back.guild_id == s.guild_id
            &&& back.voice_channel_id == s.voice_channel_id
            &&& back.audio_output_name == s.audio_output_name
            &&& back.capture_target == s.capture_target
            &&& back.bot_display_name == s.bot_display_name
            &&& wording::user_reference(s.tracked_user_id) == s.tracked_user_id
                && !text::blank(s.tracked_user_id) ==> back.tracked_user_id == s.tracked_user_id
        }),
{
    entered_settings_are_read_back(ui, snapshot.settings);
}

/// What the user types is what is saved, field by field; the followed user only where
/// following is on.
pub proof fn typed_fields_are_saved(ui: UiView)
    ensures
        ui.entered_settings().discord_bot_token == ui.discord_bot_token,
        ui.entered_settings().guild_id == ui.guild_id,
        ui.entered_settings().voice_channel_id == ui.voice_channel_id,
        ui.entered_settings().audio_output_name == ui.audio_output_name,
        ui.entered_settings().capture_target == ui.capture_target,
        ui.entered_settings().bot_display_name == ui.bot_display_name,
        !ui.follow_user_enabled ==> ui.entered_settings().tracked_user_id.len() == 0,
        ui.follow_user_enabled && wording::user_reference(ui.tracked_user_id) == ui.tracked_user_id
            ==> ui.entered_settings().tracked_user_id == ui.tracked_user_id,
{
}

/// A row that is picked enters its ID, each list its own, and nothing else changes;
/// without a row the ID stays.
pub proof fn picked_row_is_entered(ui: UiView)
    ensures
        ({
            let after = ui.with_picked_ids();
            &&& 0 <= ui.discord_guild_index < ui.discord_guild_id_model.len() ==> after.guild_id
                == ui.discord_guild_id_model[ui.discord_guild_index as int]
            &&& !(0 <= ui.discord_guild_index < ui.discord_guild_id_model.len()) ==> after.guild_id
                == ui.guild_id
            &&& 0 <= ui.discord_voice_channel_index < ui.discord_voice_channel_id_model.len()
                ==> after.voice_channel_id
                == ui.discord_voice_channel_id_model[ui.discord_voice_channel_index as int]
            &&& !(0 <= ui.discord_voice_channel_index < ui.discord_voice_channel_id_model.len())
                ==> after.voice_channel_id == ui.voice_channel_id
            &&& (UiView {
                guild_id: ui.guild_id,
                voice_channel_id: ui.voice_channel_id,
                ..after
            }) == ui
        }),
{
}

/// A chosen server is the selected row of its list, and its label and ID stand in
/// that row.
pub proof fn chosen_server_is_selected(
    ui: UiView,
    before: Seq<NamedView>,
    guild: NamedView,
    behind: Seq<NamedView>,
)
    requires
        forall|i: int| 0 <= i < before.len() ==> (#[trigger] before[i]).id != guild.id,
        before.len() <= i32::MAX,
    ensures
        ({
            let after = ui.with_guilds(before + seq![guild] + behind, Some(guild.id));
            let row = after.discord_guild_index as int;
            &&& row == before.len()
            &&& after.discord_guild_id_model[row] == guild.id
            &&& after.discord_guild_model[row] == guild.name + seq![' ', '('] + guild.id + seq![')']
            &&& after.discord_guild_id_model.len() == before.len() + 1 + behind.len()
            &&& after.discord_guild_model.len() == before.len() + 1 + behind.len()
            &&& after.with_picked_ids().guild_id == guild.id
        }),
{
    reveal_strlit(" (");
    reveal_strlit(")");
    assert(" ("@ =~= seq![' ', '(']);
    assert(")"@ =~= seq![')']);
    let all = before + seq![guild] + behind;
    let ids = discord::guild_ids(all);
    let p = before.len() as int;
    text::first_place_is_first(ids, guild.id);
    assert(all[p] == guild);
    assert(ids[p] == guild.id);
    assert forall|k: int| 0 <= k < p implies #[trigger] ids[k] != guild.id by {
        assert(before[k].id != guild.id);
    }
    assert(ids.contains(ids[p]));
}

/// A chosen voice channel is the selected row of its list, and its label and ID stand
/// in that row.
pub proof fn chosen_channel_is_selected(
    ui: UiView,
    before: Seq<VoiceChannelView>,
    channel: VoiceChannelView,
    behind: Seq<VoiceChannelView>,
)
    requires
        forall|i: int| 0 <= i < before.len() ==> (#[trigger] before[i]).id != channel.id,
        before.len() <= i32::MAX,
    ensures
        ({
            let after = ui.with_channels(before + seq![channel] + behind, Some(channel.id));
            let row = after.discord_voice_channel_index as int;
            &&& row == before.len()
            &&& after.discord_voice_channel_id_model[row] == channel.id
            &&& after.discord_voice_channel_model[row] == channel.name + seq![' ', '(']
                + channel.kind + seq![')']
            &&& after.discord_voice_channel_id_model.len() == before.len() + 1 + behind.len()
            &&& after.discord_voice_channel_model.len() == before.len() + 1 + behind.len()
            &&& after.with_picked_ids().voice_channel_id == channel.id
        }),
{
    reveal_strlit(" (");
    reveal_strlit(")");
    assert(" ("@ =~= seq![' ', '(']);
    assert(")"@ =~= seq![')']);
    let all = before + seq![channel] + behind;
    let ids = discord::voice_ids(all);
    let p = before.len() as int;
    text::first_place_is_first(ids, channel.id);
    assert(all[p] == channel);
    assert(ids[p] == channel.id);
    assert forall|k: int| 0 <= k < p implies #[trigger] ids[k] != channel.id by {
        assert(before[k].id != channel.id);
    }
    assert(ids.contains(ids[p]));
}

/// What is unknown to a list selects its first row.
pub proof fn unknown_choice_selects_the_first(
    ui: UiView,
    guilds: Seq<NamedView>,
    channels: Seq<VoiceChannelView>,
    id: Seq<char>,
)
    requires
        forall|i: int| 0 <= i < guilds.len() ==> (#[trigger] guilds[i]).id != id,
        forall|i: int| 0 <= i < channels.len() ==> (#[trigger] channels[i]).id != id,
    ensures
        ui.with_guilds(guilds, Some(id)).discord_guild_index == 0,
        ui.with_guilds(guilds, None).discord_guild_index == 0,
        ui.with_channels(channels, Some(id)).discord_voice_channel_index == 0,
        ui.with_channels(channels, None).discord_voice_channel_index == 0,
        guilds.len() > 0 ==> ui.with_guilds(guilds, None).with_picked_ids().guild_id
            == guilds[0].id,
        channels.len() > 0 ==> ui.with_channels(channels, None).with_picked_ids().voice_channel_id
            == channels[0].id,
{
    text::first_place_is_first(discord::guild_ids(guilds), id);
    text::first_place_is_first(discord::voice_ids(channels), id);
    if discord::guild_ids(guilds).contains(id) {
        let k = choose|k: int|
            0 <= k < discord::guild_ids(guilds).len() && discord::guild_ids(guilds)[k] == id;
        assert(guilds[k].id == id);
    }
    if discord::voice_ids(channels).contains(id) {
        let k = choose|k: int|
            0 <= k < discord::voice_ids(channels).len() && discord::voice_ids(channels)[k] == id;
        assert(channels[k].id == id);
    }
}

/// Showing a report on the output or on the relay, a message or what follows from the
/// entries changes nothing that the user has entered.
pub proof fn shown_reports_keep_the_entries(
    ui: UiView,
    audio: AudioReportView,
    relay: RelayReportView,
    snapshot: AppSnapshotView,
    a: Seq<char>,
    b: Seq<char>,
    flag: bool,
)
    ensures
        ui.with_audio(audio).entered_settings() == ui.entered_settings(),
        ui.with_relay(relay).entered_settings() == ui.entered_settings(),
        ui.with_snapshot_metadata(snapshot).entered_settings() == ui.entered_settings(),
        ui.with_derived().entered_settings() == ui.entered_settings(),
        ui.with_summary().entered_settings() == ui.entered_settings(),
        ui.busy(a).entered_settings() == ui.entered_settings(),
        ui.with_save_message(a).entered_settings() == ui.entered_settings(),
        ui.with_discord_status(a, b).entered_settings() == ui.entered_settings(),
        ui.with_audio_status(a, b).entered_settings() == ui.entered_settings(),
        ui.with_relay_status(a, b).entered_settings() == ui.entered_settings(),
        ui.stoppable(flag).entered_settings() == ui.entered_settings(),
{
}

/// The report on the output decides whether it counts as prepared, and its message,
/// output, platform and time are shown.
pub proof fn audio_report_is_shown(ui: UiView, report: AudioReportView)
    ensures
        ({
            let after = ui.with_audio(report);
            let body = after.audio_status_body;
            &&& after.audio_prepared == report.active
            &&& after.relay_active == ui.relay_active
            &&& after.discord_connected == ui.discord_connected
            &&& after.audio_status_title == "Desktop audio is ready"@ <==> report.active
            &&& body.take(report.message.len() as int) == report.message
            &&& report.output_name is Some ==> text::occurs(
                body,
                "\n\nOutput: "@ + report.output_name->Some_0 + "\nPlatform: "@ + report.platform
                    + "\nStarted: "@,
            )
            &&& report.started_at is Some ==> body == body.take(
                body.len() - report.started_at->Some_0.len(),
            ) + report.started_at->Some_0
            &&& after.audio_instructions_text == wording::steps_text(report.instruction_steps)
        }),
{
    let body = ui.with_audio(report).audio_status_body;
    let started = text::opt_or(report.started_at, "Not running"@);
    let middle = "\n\nOutput: "@ + text::opt_or(report.output_name, DEFAULT_AUDIO_OUTPUT_NAME@)
        + "\nPlatform: "@ + report.platform + "\nStarted: "@;
    reveal_strlit("Desktop audio is ready");
    reveal_strlit("Desktop audio is waiting");
    assert("Desktop audio is ready"@.len() != "Desktop audio is waiting"@.len());
    assert(body =~= report.message + middle + started);
    text::part_occurs(report.message, middle, started);
    assert(body.take(report.message.len() as int) =~= report.message);
    assert(body =~= body.take(body.len() - started.len()) + started);
}

/// The report on the relay decides whether the party counts as live, and its message,
/// server, channel, bot and time are shown.
pub proof fn relay_report_is_shown(ui: UiView, report: RelayReportView)
    ensures
        ({
            let after = ui.with_relay(report);
            let body = after.relay_status_body;
            &&& after.relay_active == report.active
            &&& after.audio_prepared == ui.audio_prepared
            &&& after.discord_connected == ui.discord_connected
            &&& after.relay_status_title == "Party is live"@ <==> report.active
            &&& body.take(report.message.len() as int) == report.message
            &&& report.guild_name is Some && report.voice_channel_name is Some
                && report.bot_username is Some ==> text::occurs(
                body,
                "\n\nGuild: "@ + report.guild_name->Some_0 + "\nVoice channel: "@
                    + report.voice_channel_name->Some_0 + "\nBot: "@ + report.bot_username->Some_0
                    + "\nStarted: "@,
            )
            &&& report.started_at is Some ==> body == body.take(
                body.len() - report.started_at->Some_0.len(),
            ) + report.started_at->Some_0
            &&& after.relay_instructions_text == wording::steps_text(report.instruction_steps)
        }),
{
    let body = ui.with_relay(report).relay_status_body;
    let started = text::opt_or(report.started_at, "Not running"@);
    let middle = "\n\nGuild: "@ + text::opt_or(report.guild_name, "No guild active"@)
        + "\nVoice channel: "@ + text::opt_or(report.voice_channel_name, "No voice channel active"@)
        + "\nBot: "@ + text::opt_or(report.bot_username, "No bot identity confirmed"@)
        + "\nStarted: "@;
    reveal_strlit("Party is live");
    reveal_strlit("Party is off");
    assert("Party is live"@.len() != "Party is off"@.len());
    assert(body =~= report.message + middle + started);
    text::part_occurs(report.message, middle, started);
    assert(body.take(report.message.len() as int) =~= report.message);
    assert(body =~= body.take(body.len() - started.len()) + started);
}

/// The report on the Discord setup is shown and its lists are offered. It changes no
/// entry but the server and the channel, and these only where it names one or lists
/// some.
pub proof fn validation_is_shown(ui: UiView, report: ValidationView)
    ensures
        ({
            let after = ui.with_validation(report);
            let s = after.entered_settings();
            let before = ui.entered_settings();
            &&& after.discord_connected
            &&& after.audio_prepared == ui.audio_prepared
            &&& after.relay_active == ui.relay_active
            &&& after.discord_guild_id_model == discord::guild_ids(report.guild_options)
            &&& after.discord_voice_channel_id_model == discord::voice_ids(
                report.voice_channel_options,
            )
            &&& after.discord_status_body.take(report.message.len() as int) == report.message
            &&& report.invite_url is Some ==> after.discord_invite_url == report.invite_url->Some_0
            &&& report.invite_url is None ==> after.discord_invite_url.len() == 0
            &&& after.discord_route_ready == (!text::blank(after.guild_id) && !text::blank(
                after.voice_channel_id,
            ))
            &&& s.discord_bot_token == before.discord_bot_token
            &&& s.tracked_user_id == before.tracked_user_id
            &&& s.audio_output_name == before.audio_output_name
            &&& s.capture_target == before.capture_target
            &&& s.bot_display_name == before.bot_display_name
            &&& report.guild_options.len() == 0 && report.guild_id is None ==> s.guild_id
                == before.guild_id
            &&& report.guild_options.len() == 0 && report.guild_id is Some ==> s.guild_id
                == report.guild_id->Some_0
            &&& report.voice_channel_options.len() == 0 && report.voice_channel_id is None
                ==> s.voice_channel_id == before.voice_channel_id
            &&& report.voice_channel_options.len() == 0 && report.voice_channel_id is Some
                ==> s.voice_channel_id == report.voice_channel_id->Some_0
            &&& report.guild_name is Some && report.voice_channel_name is Some ==> {
                let start = "Selected server: "@ + report.guild_name->Some_0
                    + "\nSelected channel: "@ + report.voice_channel_name->Some_0;
                after.discord_route_text.take(start.len() as int) == start
            }
        }),
{
    reveal_strlit("");
    let after = ui.with_validation(report);
    assert(after.discord_status_body.take(report.message.len() as int) =~= report.message);
    if report.guild_name is Some && report.voice_channel_name is Some {
        let start = "Selected server: "@ + report.guild_name->Some_0 + "\nSelected channel: "@
            + report.voice_channel_name->Some_0;
        assert(after.discord_route_text.take(start.len() as int) =~= start);
    }
}

/// Forgetting Discord keeps what is entered for everything else.
pub proof fn forgetting_keeps_other_entries(ui: UiView)
    ensures
        ({
            let s = ui.without_connection().entered_settings();
            let before = ui.entered_settings();
            &&& s.discord_bot_token == before.discord_bot_token
            &&& s.tracked_user_id == before.tracked_user_id
            &&& s.audio_output_name == before.audio_output_name
            &&& s.capture_target == before.capture_target
            &&& s.bot_display_name == before.bot_display_name
            &&& s.guild_id.len() == 0
            &&& s.voice_channel_id.len() == 0
            &&& ui.without_connection().audio_prepared == ui.audio_prepared
            &&& ui.without_connection().relay_active == ui.relay_active
            &&& ui.without_connection().discord_invite_url.len() == 0
            &&& ui.without_connection().discord_guild_model.len() == 0
            &&& ui.without_connection().discord_voice_channel_model.len() == 0
        }),
{
}

/// Each item that becomes ready counts for one, whichever it is.
pub proof fn each_item_counts_for_one(ui: UiView, value: Seq<char>)
    requires
        !text::blank(value),
    ensures
        text::blank(ui.discord_bot_token) ==> (UiView {
            discord_bot_token: value,
            ..ui
        }).completion() == ui.completion() + 1,
        text::blank(ui.audio_output_name) ==> (UiView {
            audio_output_name: value,
            ..ui
        }).completion() == ui.completion() + 1,
        text::blank(ui.capture_target) ==> (UiView { capture_target: value, ..ui }).completion()
            == ui.completion() + 1,
        text::blank(ui.bot_display_name) ==> (UiView { bot_display_name: value, ..ui }).completion()
            == ui.completion() + 1,
        text::blank(ui.guild_id) && !text::blank(ui.voice_channel_id) ==> (UiView {
            guild_id: value,
            ..ui
        }).completion() == ui.completion() + 1,
        text::blank(ui.voice_channel_id) && !text::blank(ui.guild_id) ==> (UiView {
            voice_channel_id: value,
            ..ui
        }).completion() == ui.completion() + 1,
        !ui.audio_prepared ==> (UiView { audio_prepared: true, ..ui }).completion()
            == ui.completion() + 1,
        ui.with_derived().completion_summary.take(1) == number::decimal(ui.completion()),
{
    completion_counts_the_parts(ui);
    assert(number::decimal(ui.completion()).len() == 1);
    assert(ui.with_derived().completion_summary.take(1) =~= number::decimal(ui.completion()));
}

/// The preview names who sends what through which output into which channel, as
/// entered.
pub proof fn preview_names_the_entries(ui: UiView)
    requires
        !text::blank(ui.bot_display_name),
        !text::blank(ui.capture_target),
        !text::blank(ui.audio_output_name),
        !text::blank(ui.voice_channel_id),
    ensures
        ({
            let start = text::trimmed(ui.bot_display_name) + " will send `"@ + text::trimmed(
                ui.capture_target,
            ) + "` through `"@ + text::trimmed(ui.audio_output_name) + "` into "@ + text::trimmed(
                ui.voice_channel_id,
            );
            &&& ui.preview().take(start.len() as int) == start
            &&& !ui.follow_user_enabled ==> ui.preview() == start.push('.')
            &&& ui.follow_user_enabled && !text::blank(ui.tracked_user_id) ==> text::occurs(
                ui.preview(),
                ", following "@ + text::trimmed(ui.tracked_user_id),
            )
            &&& ui.with_derived().preview_line == ui.preview()
        }),
{
    reveal_strlit(".");
    reveal_strlit("");
    let start = text::trimmed(ui.bot_display_name) + " will send `"@ + text::trimmed(
        ui.capture_target,
    ) + "` through `"@ + text::trimmed(ui.audio_output_name) + "` into "@ + text::trimmed(
        ui.voice_channel_id,
    );
    assert(ui.preview().take(start.len() as int) =~= start);
    if ui.follow_user_enabled && !text::blank(ui.tracked_user_id) {
        let part = ", following "@ + text::trimmed(ui.tracked_user_id);
        let rest = " when they are already in voice or move later"@ + "."@;
        assert(ui.preview() =~= start + part + rest);
        text::part_occurs(start, part, rest);
    } else if !ui.follow_user_enabled {
        assert(ui.preview() =~= start.push('.'));
    }
}

/// The summary says of Discord, the output and the party, each by itself, whether it
/// is ready, and changes nothing else.
pub proof fn summary_says_what_runs(ui: UiView)
    ensures
        ({
            let line = ui.with_summary().runtime_summary;
            &&& ui.discord_connected ==> line.take(13) == "Discord ready"@
            &&& !ui.discord_connected ==> line.take(15) == "Discord waiting"@
            &&& ui.audio_prepared ==> text::occurs(line, "audio output ready"@)
            &&& !ui.audio_prepared ==> text::occurs(line, "audio output off"@)
            &&& ui.relay_active ==> line.skip(line.len() - 11) == "party live."@
            &&& !ui.relay_active ==> line.skip(line.len() - 10) == "party off."@
            &&& (UiView { runtime_summary: ui.runtime_summary, ..ui.with_summary() }) == ui
        }),
{
    reveal_strlit("Discord ready");
    reveal_strlit("Discord waiting");
    reveal_strlit(", ");
    reveal_strlit("party live");
    reveal_strlit("party off");
    reveal_strlit("party live.");
    reveal_strlit("party off.");
    reveal_strlit(".");
    let line = ui.with_summary().runtime_summary;
    let first = (if ui.discord_connected {
        "Discord ready"@
    } else {
        "Discord waiting"@
    }) + ", "@;
    let second = if ui.audio_prepared {
        "audio output ready"@
    } else {
        "audio output off"@
    };
    let third = ", "@ + (if ui.relay_active {
        "party live"@
    } else {
        "party off"@
    }) + "."@;
    assert(line =~= first + second + third);
    text::part_occurs(first, second, third);
    if ui.discord_connected {
        assert(line.take(13) =~= "Discord ready"@);
    } else {
        assert(line.take(15) =~= "Discord waiting"@);
    }
    if ui.relay_active {
        assert(line.skip(line.len() - 11) =~= "party live."@);
    } else {
        assert(line.skip(line.len() - 10) =~= "party off."@);
    }
}

/// A label is shown while something goes on, and an empty one ends that.
pub proof fn busy_label_is_shown(ui: UiView, label: Seq<char>)
    ensures
        ui.busy(label).busy_label == label,
        ui.busy(label).busy_visible <==> label.len() > 0,
{
}

/// The texts of a snapshot are shown, each in its place, and when it was saved.
pub proof fn snapshot_texts_are_shown(ui: UiView, snapshot: AppSnapshotView)
    ensures
        ({
            let after = ui.with_snapshot_metadata(snapshot);
            &&& after.overview_health_text == wording::tiles_text(snapshot.health_tiles)
            &&& after.ritual_steps_text == wording::steps_text(snapshot.ritual_steps)
            &&& after.activity_text == wording::activity_text(snapshot.activity)
            &&& snapshot.last_saved_at is Some ==> text::occurs(
                after.save_message,
                snapshot.last_saved_at->Some_0,
            )
        }),
{
    if snapshot.last_saved_at is Some {
        text::part_occurs("Saved locally "@, snapshot.last_saved_at->Some_0, "."@);
    }
}

/// The report on the Discord setup tells who the bot is and how many servers and voice
/// channels were found.
pub proof fn validation_tells_the_bot_and_the_counts(ui: UiView, report: ValidationView)
    ensures
        ({
            let after = ui.with_validation(report);
            &&& text::occurs(
                after.discord_status_body,
                "\n\nBot name: "@ + report.bot_username + "\nBot ID: "@ + report.bot_id
                    + "\nApp: "@,
            )
            &&& text::occurs(
                after.discord_route_text,
                "\nServers found: "@ + number::decimal(report.guild_options.len())
                    + "\nVoice channels found: "@ + number::decimal(
                    report.voice_channel_options.len(),
                ),
            )
        }),
{
    let after = ui.with_validation(report);
    let none = Seq::<char>::empty();
    let bot = "\n\nBot name: "@ + report.bot_username + "\nBot ID: "@ + report.bot_id
        + "\nApp: "@;
    let app = text::opt_or(report.application_name, "Discord application"@);
    assert(after.discord_status_body =~= report.message + bot + app);
    text::part_occurs(report.message, bot, app);
    let front = "Selected server: "@ + text::opt_or(report.guild_name, "No guild verified yet"@)
        + "\nSelected channel: "@ + text::opt_or(
        report.voice_channel_name,
        "No voice channel verified yet"@,
    ) + "\nChannel type: "@ + text::opt_or(report.voice_channel_kind, "Unknown"@);
    let counts = "\nServers found: "@ + number::decimal(report.guild_options.len())
        + "\nVoice channels found: "@ + number::decimal(report.voice_channel_options.len());
    assert(after.discord_route_text =~= front + counts + none);
    text::part_occurs(front, counts, none);
}

/// Putting the entries in form touches the followed user alone: read in its one form
/// where somebody is followed, and gone where nobody is.
pub proof fn normal_inputs_touch_the_followed_user_alone(ui: UiView)
    ensures
        ({
            let after = ui.with_normal_inputs();
            &&& ui.follow_user_enabled ==> after.tracked_user_id == wording::user_reference(
                ui.tracked_user_id,
            )
            &&& !ui.follow_user_enabled ==> text::blank(after.tracked_user_id)
            &&& (UiView { tracked_user_id: ui.tracked_user_id, ..after }) == ui
        }),
{
    text::blank_is_all_space(Seq::<char>::empty());
}

/// Entering settings changes nothing that is shown of what runs, and nothing in the
/// lists.
pub proof fn entering_keeps_what_runs(ui: UiView, s: SettingsView)
    ensures
        ({
            let after = ui.with_settings(s);
            &&& after.audio_prepared == ui.audio_prepared
            &&& after.relay_active == ui.relay_active
            &&& after.party_can_stop == ui.party_can_stop
            &&& after.discord_connected == ui.discord_connected
            &&& after.discord_invite_url == ui.discord_invite_url
            &&& after.discord_guild_id_model == ui.discord_guild_id_model
            &&& after.discord_voice_channel_id_model == ui.discord_voice_channel_id_model
            &&& after.discord_guild_index == ui.discord_guild_index
            &&& after.discord_voice_channel_index == ui.discord_voice_channel_index
            &&& after.current_page == ui.current_page
        }),
{
}

} // verus!
