//! What the buttons of the window do, and what happens when the work that they
//! start has ended.
use crate::audio::{AudioOutputReport, AudioReportView};
use crate::discord::{DiscordValidationReport, ValidationView};
use crate::names::{DEFAULT_AUDIO_OUTPUT_NAME, DEFAULT_CAPTURE_TARGET};
use crate::number;
use crate::number::to_decimal;
use crate::relay::{DiscordRelayReport, RelayReportView};
use crate::platform::Platform;
use crate::settings;
use crate::settings::{Settings, SettingsView};
use crate::snapshot;
use crate::snapshot::{AppSnapshot, AppSnapshotView};
use crate::text;
use crate::text::{is_blank, text_or};
use crate::token;
use crate::token::{DISCORD_INVITE_PERMISSIONS, discord_invite_url_from_token};
use crate::ui;
use crate::ui::{
    UiState, UiView, apply_audio_output_report, apply_discord_validation, apply_relay_report,
    apply_snapshot, apply_snapshot_metadata, clear_busy, clear_discord_connection_state,
    normalize_ui_inputs, refresh_editor_derived, refresh_runtime_summary, set_busy,
    settings_from_ui, sync_discord_picker_ids,
};
use vstd::prelude::*;

verus! {

/// How often Discord is asked whether the bot was invited.
pub const DISCORD_INVITE_POLL_ATTEMPTS: u32 = 18;

/// How long is waited between two such questions.
pub const DISCORD_INVITE_POLL_SECS: u64 = 5;

/// How long is waited between two looks at what runs.
pub const STATUS_POLL_SECS: u64 = 5;

/// How long a check of the Discord setup waits for the user to go on typing.
pub const DRAFT_VALIDATION_MILLIS: u64 = 800;

/// How long a check of the Discord setup waits otherwise.
pub const PROMPT_VALIDATION_MILLIS: u64 = 50;

// ---------------------------------------------------------------------------
// Outcomes
// ---------------------------------------------------------------------------

pub open spec fn snapshot_view(outcome: Result<AppSnapshot, String>) -> Result<
    AppSnapshotView,
    Seq<char>,
> {
    match outcome {
        Ok(snapshot) => Ok(snapshot@),
        Err(error) => Err(error@),
    }
}

pub open spec fn validation_view(outcome: Result<DiscordValidationReport, String>) -> Result<
    ValidationView,
    Seq<char>,
> {
    match outcome {
        Ok(report) => Ok(report@),
        Err(error) => Err(error@),
    }
}

pub open spec fn audio_view(outcome: Result<AudioOutputReport, String>) -> Result<
    AudioReportView,
    Seq<char>,
> {
    match outcome {
        Ok(report) => Ok(report@),
        Err(error) => Err(error@),
    }
}

/// The page on which the bot with the token is invited, or nothing.
pub open spec fn invite_page(bot_token: Seq<char>) -> Seq<char> {
    match token::application_id(bot_token) {
        Some(id) => token::invite_url(id),
        None => ""@,
    }
}

fn invite_page_of(bot_token: &str) -> (r: String)
    ensures
        r@ == invite_page(bot_token@),
{
    text_or(&discord_invite_url_from_token(bot_token), "")
}

impl UiView {
    /// The texts of the snapshot, or why it could not be had.
    pub open spec fn with_metadata_outcome(self, outcome: Result<AppSnapshotView, Seq<char>>) -> UiView {
        match outcome {
            Ok(snapshot) => self.with_snapshot_metadata(snapshot),
            Err(error) => self.with_save_message(error),
        }
    }

    /// The snapshot, or why it could not be had.
    pub open spec fn with_snapshot_outcome(self, outcome: Result<AppSnapshotView, Seq<char>>) -> UiView {
        match outcome {
            Ok(snapshot) => self.with_snapshot(snapshot),
            Err(error) => self.with_save_message(error),
        }
    }

    /// The report on the Discord setup, or why there is none.
    pub open spec fn with_validation_outcome(self, outcome: Result<ValidationView, Seq<char>>) -> UiView {
        match outcome {
            Ok(report) => self.with_validation(report),
            Err(error) => UiView {
                discord_connected: false,
                discord_status_title: "Discord needs attention"@,
                discord_status_body: error,
                discord_route_text:
                    "Check the bot token and try again. If the bot was just invited, give Discord a moment and press Refresh Server List."@,
                discord_invite_url: invite_page(self.discord_bot_token),
                ..self
            },
        }
    }

    /// The audio needs the user, where something went wrong with it.
    pub open spec fn with_audio_failure(self, failure: Option<Seq<char>>) -> UiView {
        match failure {
            Some(error) => self.with_audio_status("Desktop audio needs attention"@, error),
            None => self,
        }
    }

    /// The relay needs the user, where something went wrong with it.
    pub open spec fn with_relay_failure(self, title: Seq<char>, failure: Option<Seq<char>>) -> UiView {
        match failure {
            Some(error) => self.with_relay_status(title, error),
            None => self,
        }
    }
}

fn apply_metadata_outcome(ui: &mut UiState, outcome: Result<AppSnapshot, String>)
    ensures
        final(ui)@ == old(ui)@.with_metadata_outcome(snapshot_view(outcome)),
{
    match outcome {
        Ok(snapshot) => apply_snapshot_metadata(ui, &snapshot),
        Err(error) => {
            ui.save_message = error;
        },
    }
}

fn apply_snapshot_outcome(ui: &mut UiState, outcome: Result<AppSnapshot, String>)
    ensures
        final(ui)@ == old(ui)@.with_snapshot_outcome(snapshot_view(outcome)),
{
    match outcome {
        Ok(snapshot) => apply_snapshot(ui, &snapshot),
        Err(error) => {
            ui.save_message = error;
        },
    }
}

fn apply_validation_outcome(ui: &mut UiState, outcome: Result<DiscordValidationReport, String>)
    ensures
        final(ui)@ == old(ui)@.with_validation_outcome(validation_view(outcome)),
{
    match outcome {
        Ok(report) => apply_discord_validation(ui, &report),
        Err(error) => {
            let page = invite_page_of(ui.discord_bot_token.as_str());
            ui.discord_connected = false;
            ui.discord_status_title = "Discord needs attention".to_owned();
            ui.discord_status_body = error;
            ui.discord_route_text =
            "Check the bot token and try again. If the bot was just invited, give Discord a moment and press Refresh Server List.".to_owned();
            ui.discord_invite_url = page;
        },
    }
}

fn apply_audio_failure(ui: &mut UiState, failure: Option<String>)
    ensures
        final(ui)@ == old(ui)@.with_audio_failure(text::opt(failure)),
{
    if let Some(error) = failure {
        ui.audio_status_title = "Desktop audio needs attention".to_owned();
        ui.audio_status_body = error;
    }
}

fn apply_relay_failure(ui: &mut UiState, title: &str, failure: Option<String>)
    ensures
        final(ui)@ == old(ui)@.with_relay_failure(title@, text::opt(failure)),
{
    if let Some(error) = failure {
        ui.relay_status_title = title.to_owned();
        ui.relay_status_body = error;
    }
}

// ---------------------------------------------------------------------------
// Start
// ---------------------------------------------------------------------------

impl UiView {
    /// What runs is shown.
    pub open spec fn with_runtime(
        self,
        audio: AudioReportView,
        relay: RelayReportView,
        party_can_stop: bool,
    ) -> UiView {
        self.with_audio(audio).with_relay(relay).stoppable(party_can_stop)
    }

    /// The window once what was saved and what runs were read.
    pub open spec fn hydrated(
        self,
        snapshot: AppSnapshotView,
        audio: AudioReportView,
        relay: RelayReportView,
        party_can_stop: bool,
    ) -> UiView {
        UiView {
            discord_route_text: "No server or voice channel has been chosen yet."@,
            ..self.with_snapshot(snapshot).with_runtime(
                audio,
                relay,
                party_can_stop,
            ).with_discord_status(
                "Connect Discord to continue"@,
                "Paste the bot token, press Connect Discord, and Bardic Chord will guide the rest."@,
            )
        }.with_derived().with_summary()
    }
}

fn apply_runtime(
    ui: &mut UiState,
    audio: &AudioOutputReport,
    relay: &DiscordRelayReport,
    party_can_stop: bool,
)
    ensures
        final(ui)@ == old(ui)@.with_runtime(audio@, relay@, party_can_stop),
{
    apply_audio_output_report(ui, audio);
    apply_relay_report(ui, relay);
    ui.party_can_stop = party_can_stop;
}

impl UiView {
    /// The window once it was opened: nothing is known of Discord and nothing runs.
    pub open spec fn opened(self) -> UiView {
        UiView {
            discord_permissions: DISCORD_INVITE_PERMISSIONS@,
            discord_guild_model: Seq::empty(),
            discord_guild_id_model: Seq::empty(),
            discord_guild_index: 0,
            discord_voice_channel_model: Seq::empty(),
            discord_voice_channel_id_model: Seq::empty(),
            discord_voice_channel_index: 0,
            follow_user_enabled: false,
            discord_connected: false,
            discord_route_ready: false,
            party_can_stop: false,
            audio_prepared: false,
            ..self
        }
    }
}

/// The window was opened.
pub fn window_opened(ui: &mut UiState)
    ensures
        final(ui)@ == old(ui)@.opened(),
{
    ui.discord_permissions = DISCORD_INVITE_PERMISSIONS.to_owned();
    ui.discord_guild_model = Vec::new();
    ui.discord_guild_id_model = Vec::new();
    ui.discord_voice_channel_model = Vec::new();
    ui.discord_voice_channel_id_model = Vec::new();
    ui.discord_guild_index = 0;
    ui.discord_voice_channel_index = 0;
    ui.follow_user_enabled = false;
    ui.discord_connected = false;
    ui.discord_route_ready = false;
    ui.party_can_stop = false;
    ui.audio_prepared = false;
    assert(ui@ =~= old(ui)@.opened());
}

/// Fills the window with what was saved and with what runs.
pub fn hydrate_ui(
    ui: &mut UiState,
    snapshot: &AppSnapshot,
    audio: &AudioOutputReport,
    relay: &DiscordRelayReport,
    party_can_stop: bool,
)
    ensures
        final(ui)@ == old(ui)@.hydrated(snapshot@, audio@, relay@, party_can_stop),
{
    apply_snapshot(ui, snapshot);
    apply_runtime(ui, audio, relay, party_can_stop);
    ui.discord_status_title = "Connect Discord to continue".to_owned();
    ui.discord_status_body =
    "Paste the bot token, press Connect Discord, and Bardic Chord will guide the rest.".to_owned();
    ui.discord_route_text = "No server or voice channel has been chosen yet.".to_owned();
    refresh_editor_derived(ui);
    refresh_runtime_summary(ui);
}

/// Shows what runs now.
pub fn status_polled(
    ui: &mut UiState,
    audio: &AudioOutputReport,
    relay: &DiscordRelayReport,
    party_can_stop: bool,
)
    ensures
        final(ui)@ == old(ui)@.with_runtime(audio@, relay@, party_can_stop).with_summary(),
{
    apply_runtime(ui, audio, relay, party_can_stop);
    refresh_runtime_summary(ui);
}

// ---------------------------------------------------------------------------
// Typing and saving
// ---------------------------------------------------------------------------

/// The user has changed an entry. Gives the settings to save.
pub fn draft_changed(ui: &mut UiState) -> (r: Settings)
    ensures
        final(ui)@ == old(ui)@.with_picked_ids().with_normal_inputs(),
        r@ == final(ui)@.entered_settings(),
{
    sync_discord_picker_ids(ui);
    normalize_ui_inputs(ui);
    settings_from_ui(ui)
}

impl UiView {
    /// The window once a changed entry was saved.
    pub open spec fn after_draft(self, outcome: Result<AppSnapshotView, Seq<char>>) -> UiView {
        let shown = self.with_metadata_outcome(outcome).with_derived();
        if text::blank(self.discord_bot_token) {
            shown.without_connection()
        } else {
            shown
        }
    }
}

/// The changed entry was saved. Gives whether the Discord setup is checked next;
/// where the token is gone, what is known of Discord is forgotten instead.
pub fn draft_saved(ui: &mut UiState, outcome: Result<AppSnapshot, String>) -> (r: bool)
    ensures
        final(ui)@ == old(ui)@.after_draft(snapshot_view(outcome)),
        r == !text::blank(old(ui)@.discord_bot_token),
{
    let no_token = is_blank(ui.discord_bot_token.as_str());
    apply_metadata_outcome(ui, outcome);
    refresh_editor_derived(ui);
    if no_token {
        clear_discord_connection_state(ui);
    }
    !no_token
}

/// The user wants to save. Gives the settings to save.
pub fn save_requested(ui: &mut UiState) -> (r: Settings)
    ensures
        final(ui)@ == old(ui)@.with_normal_inputs(),
        r@ == final(ui)@.entered_settings(),
{
    normalize_ui_inputs(ui);
    settings_from_ui(ui)
}

/// The settings were saved, or were not.
pub fn save_finished(ui: &mut UiState, outcome: Result<AppSnapshot, String>)
    ensures
        final(ui)@ == match snapshot_view(outcome) {
            Ok(snapshot) => old(ui)@.with_snapshot_metadata(snapshot).with_derived().with_summary(),
            Err(error) => old(ui)@.with_save_message(error),
        },
{
    match outcome {
        Ok(snapshot) => {
            apply_snapshot_metadata(ui, &snapshot);
            refresh_editor_derived(ui);
            refresh_runtime_summary(ui);
        },
        Err(error) => {
            ui.save_message = error;
        },
    }
}

// ---------------------------------------------------------------------------
// Checking the Discord setup
// ---------------------------------------------------------------------------

/// Which of the checks that wait for their time is the last one asked for.
#[derive(Debug)]
pub struct ValidationClock {
    generation: u64,
}

impl View for ValidationClock {
    type V = u64;

    closed spec fn view(&self) -> u64 {
        self.generation
    }
}

/// The number that follows, after the largest one the smallest.
pub open spec fn following(generation: u64) -> u64 {
    if generation == u64::MAX {
        0
    } else {
        (generation + 1) as u64
    }
}

impl ValidationClock {
    pub fn new() -> (r: ValidationClock)
        ensures
            r@ == 0,
    {
        ValidationClock { generation: 0 }
    }

    /// Takes back every check that waits.
    pub fn cancel(&mut self)
        ensures
            final(self)@ == following(old(self)@),
    {
        self.generation = if self.generation == u64::MAX {
            0
        } else {
            self.generation + 1
        };
    }

    /// Asks for a check with the settings, and takes back those that wait. Gives its
    /// number, or nothing where there is no token to check.
    pub fn schedule(&mut self, settings: &Settings) -> (r: Option<u64>)
        ensures
            if text::blank(settings@.discord_bot_token) {
                r is None && final(self)@ == old(self)@
            } else {
                r == Some(final(self)@) && final(self)@ == following(old(self)@)
            },
    {
        if is_blank(settings.discord_bot_token.as_str()) {
            return None;
        }
        self.cancel();
        Some(self.generation)
    }

    /// Whether the check with the number was not taken back.
    pub fn is_current(&self, number: u64) -> (r: bool)
        ensures
            r == (number == self@),
    {
        number == self.generation
    }
}

/// The user wants the Discord setup checked. Gives the settings to check.
pub fn validation_requested(ui: &mut UiState) -> (r: Settings)
    ensures
        final(ui)@ == old(ui)@.busy(
            "Consulting Discord and checking the chosen route..."@,
        ).with_normal_inputs(),
        r@ == final(ui)@.entered_settings(),
{
    set_busy(ui, Some("Consulting Discord and checking the chosen route..."));
    normalize_ui_inputs(ui);
    settings_from_ui(ui)
}

impl UiView {
    /// The window once the Discord setup was checked.
    pub open spec fn after_validation(
        self,
        was_busy: bool,
        outcome: Result<ValidationView, Seq<char>>,
    ) -> UiView {
        (if was_busy {
            self.busy(Seq::empty())
        } else {
            self
        }).with_validation_outcome(outcome).with_summary()
    }
}

/// The Discord setup was checked. The user was told to wait if the flag is set.
pub fn validation_finished(
    ui: &mut UiState,
    was_busy: bool,
    outcome: Result<DiscordValidationReport, String>,
)
    ensures
        final(ui)@ == old(ui)@.after_validation(was_busy, validation_view(outcome)),
{
    if was_busy {
        clear_busy(ui);
    }
    apply_validation_outcome(ui, outcome);
    refresh_runtime_summary(ui);
}

// ---------------------------------------------------------------------------
// Inviting the bot
// ---------------------------------------------------------------------------

impl UiView {
    /// The page on which the bot is invited.
    pub open spec fn page_to_open(self) -> Seq<char> {
        if text::blank(self.discord_invite_url) {
            invite_page(self.discord_bot_token)
        } else {
            self.discord_invite_url
        }
    }
}

/// The user wants to invite the bot. Gives the page to open, or says why there is
/// none.
pub fn connect_requested(ui: &mut UiState) -> (r: Option<String>)
    ensures
        if text::blank(old(ui)@.page_to_open()) {
            r is None && final(ui)@ == old(ui)@.with_discord_status(
                "Discord invite link missing"@,
                "Bardic Chord could not build an authorize link from that token. Paste the full bot token from the Discord Developer Portal."@,
            )
        } else {
            text::opt(r) == Some(old(ui)@.page_to_open()) && final(ui)@ == old(ui)@
        },
{
    let page = if is_blank(ui.discord_invite_url.as_str()) {
        invite_page_of(ui.discord_bot_token.as_str())
    } else {
        ui.discord_invite_url.clone()
    };
    if is_blank(page.as_str()) {
        ui.discord_status_title = "Discord invite link missing".to_owned();
        ui.discord_status_body =
        "Bardic Chord could not build an authorize link from that token. Paste the full bot token from the Discord Developer Portal.".to_owned();
        return None;
    }
    Some(page)
}

/// The page was opened, or was not. Gives whether Discord is asked for the bot from
/// now on.
pub fn connect_opened(ui: &mut UiState, page: String, failure: Option<String>) -> (r: bool)
    ensures
        r == (failure is None),
        final(ui)@ == match text::opt(failure) {
            Some(error) => old(ui)@.with_discord_status("Could not open Discord"@, error),
            None => UiView { discord_invite_url: page@, ..old(ui)@ }.with_discord_status(
                "Finish the Discord invite"@,
                "The browser is open. Invite the bot to your server and come back here. Bardic Chord will keep checking for the server and channel list automatically."@,
            ),
        },
{
    match failure {
        Some(error) => {
            ui.discord_status_title = "Could not open Discord".to_owned();
            ui.discord_status_body = error;
            false
        },
        None => {
            ui.discord_invite_url = page;
            ui.discord_status_title = "Finish the Discord invite".to_owned();
            ui.discord_status_body =
            "The browser is open. Invite the bot to your server and come back here. Bardic Chord will keep checking for the server and channel list automatically.".to_owned();
            true
        },
    }
}

/// What follows a question whether the bot was invited.
#[derive(Clone, Copy, Debug, PartialEq, Eq, Structural)]
pub enum InvitePoll {
    /// The bot was found: nothing more is asked.
    Found,
    /// It is asked again.
    Again,
    /// It was asked often enough.
    GiveUp,
}

/// Whether a report lists a server or a voice channel.
pub open spec fn lists_routes(report: ValidationView) -> bool {
    report.guild_options.len() > 0 || report.voice_channel_options.len() > 0
}

/// How many questions were asked, of how many.
pub open spec fn attempt_text(attempt: u32) -> Seq<char> {
    "Attempt "@ + number::decimal(attempt as nat) + "/"@ + number::decimal(
        DISCORD_INVITE_POLL_ATTEMPTS as nat,
    ) + ". "@
}

fn describe_attempt(attempt: u32) -> (r: String)
    ensures
        r@ == attempt_text(attempt),
{
    "Attempt ".to_owned().concat(to_decimal(attempt as u64).as_str()).concat("/").concat(
        to_decimal(DISCORD_INVITE_POLL_ATTEMPTS as u64).as_str(),
    ).concat(". ")
}

pub open spec fn poll_result(attempt: u32, outcome: Result<ValidationView, Seq<char>>) -> InvitePoll {
    match outcome {
        Ok(report) if lists_routes(report) => InvitePoll::Found,
        _ => if attempt == DISCORD_INVITE_POLL_ATTEMPTS {
            InvitePoll::GiveUp
        } else {
            InvitePoll::Again
        },
    }
}

impl UiView {
    /// The window after a question whether the bot was invited.
    pub open spec fn after_invite_poll(
        self,
        attempt: u32,
        outcome: Result<ValidationView, Seq<char>>,
    ) -> UiView {
        let shown = match outcome {
            Ok(report) => if lists_routes(report) {
                UiView {
                    discord_status_body: report.message
                        + "\n\nDiscord invite confirmed automatically. Bardic Chord loaded the latest server and route choices for you."@,
                    ..self.with_validation(report)
                }
            } else {
                self.with_discord_status(
                    "Waiting for Discord"@,
                    "Bardic Chord is checking Discord every 5 seconds.\n\n"@ + attempt_text(attempt)
                        + "Finish inviting the bot, then return here."@,
                )
            },
            Err(error) => self.with_discord_status(
                "Waiting for Discord"@,
                "Bardic Chord is still checking Discord.\n\n"@ + attempt_text(attempt)
                    + "Latest check: "@ + error,
            ),
        };
        if poll_result(attempt, outcome) == InvitePoll::GiveUp {
            shown.with_summary().with_discord_status(
                "Still waiting for Discord"@,
                "Bardic Chord still does not see the bot in your servers. Finish the invite in the browser, then press Refresh Server List."@,
            ).with_summary()
        } else {
            shown.with_summary()
        }
    }
}

/// Discord was asked for the `attempt`-th time whether the bot was invited.
pub fn invite_polled(
    ui: &mut UiState,
    attempt: u32,
    outcome: Result<DiscordValidationReport, String>,
) -> (r: InvitePoll)
    ensures
        final(ui)@ == old(ui)@.after_invite_poll(attempt, validation_view(outcome)),
        r == poll_result(attempt, validation_view(outcome)),
{
    let mut found = false;
    match outcome {
        Ok(report) => {
            assert(report@.guild_options.len() == report.guild_options@.len());
            assert(report@.voice_channel_options.len() == report.voice_channel_options@.len());
            if report.guild_options.len() > 0 || report.voice_channel_options.len() > 0 {
                apply_discord_validation(ui, &report);
                ui.discord_status_body =
                report.message.clone().concat(
                    "\n\nDiscord invite confirmed automatically. Bardic Chord loaded the latest server and route choices for you.",
                );
                found = true;
            } else {
                ui.discord_status_title = "Waiting for Discord".to_owned();
                ui.discord_status_body =
                "Bardic Chord is checking Discord every 5 seconds.\n\n".to_owned().concat(
                    describe_attempt(attempt).as_str(),
                ).concat("Finish inviting the bot, then return here.");
            }
        },
        Err(error) => {
            ui.discord_status_title = "Waiting for Discord".to_owned();
            ui.discord_status_body =
            "Bardic Chord is still checking Discord.\n\n".to_owned().concat(
                describe_attempt(attempt).as_str(),
            ).concat("Latest check: ").concat(error.as_str());
        },
    }
    refresh_runtime_summary(ui);
    if found {
        return InvitePoll::Found;
    }
    if attempt != DISCORD_INVITE_POLL_ATTEMPTS {
        return InvitePoll::Again;
    }
    ui.discord_status_title = "Still waiting for Discord".to_owned();
    ui.discord_status_body =
    "Bardic Chord still does not see the bot in your servers. Finish the invite in the browser, then press Refresh Server List.".to_owned();
    refresh_runtime_summary(ui);
    InvitePoll::GiveUp
}

// ---------------------------------------------------------------------------
// Disconnecting
// ---------------------------------------------------------------------------

/// The settings without anything that came from Discord.
pub open spec fn disconnected(s: SettingsView) -> SettingsView {
    SettingsView {
        discord_bot_token: Seq::empty(),
        guild_id: Seq::empty(),
        voice_channel_id: Seq::empty(),
        tracked_user_id: Seq::empty(),
        ..s
    }
}

/// The user wants to disconnect Discord. Gives the settings to save.
pub fn disconnect_requested(ui: &mut UiState) -> (r: Settings)
    ensures
        final(ui)@ == old(ui)@.busy(
            "Disconnecting the bot token and clearing Discord setup..."@,
        ),
        r@ == disconnected(old(ui)@.entered_settings()),
{
    set_busy(ui, Some("Disconnecting the bot token and clearing Discord setup..."));
    settings_from_ui(ui).without_discord()
}

impl UiView {
    /// The window once Discord was disconnected.
    pub open spec fn after_disconnect(
        self,
        snapshot: Result<AppSnapshotView, Seq<char>>,
        relay_failure: Option<Seq<char>>,
        audio: AudioReportView,
        relay: RelayReportView,
        party_can_stop: bool,
    ) -> UiView {
        UiView {
            discord_route_text: "No server or voice channel has been chosen yet."@,
            ..self.busy(Seq::empty()).without_connection().with_snapshot_outcome(
                snapshot,
            ).with_relay_failure("Party stop needs attention"@, relay_failure).with_runtime(
                audio,
                relay,
                party_can_stop,
            ).with_discord_status(
                "Discord has been disconnected"@,
                "The saved bot token was removed from this computer. Paste a new token whenever you want to reconnect."@,
            )
        }.with_derived().with_summary()
    }
}

/// Discord was disconnected.
pub fn disconnect_finished(
    ui: &mut UiState,
    snapshot: Result<AppSnapshot, String>,
    relay_failure: Option<String>,
    audio: &AudioOutputReport,
    relay: &DiscordRelayReport,
    party_can_stop: bool,
)
    ensures
        final(ui)@ == old(ui)@.after_disconnect(
            snapshot_view(snapshot),
            text::opt(relay_failure),
            audio@,
            relay@,
            party_can_stop,
        ),
{
    clear_busy(ui);
    clear_discord_connection_state(ui);
    apply_snapshot_outcome(ui, snapshot);
    apply_relay_failure(ui, "Party stop needs attention", relay_failure);
    apply_runtime(ui, audio, relay, party_can_stop);
    ui.discord_status_title = "Discord has been disconnected".to_owned();
    ui.discord_status_body =
    "The saved bot token was removed from this computer. Paste a new token whenever you want to reconnect.".to_owned();
    ui.discord_route_text = "No server or voice channel has been chosen yet.".to_owned();
    refresh_editor_derived(ui);
    refresh_runtime_summary(ui);
}

// ---------------------------------------------------------------------------
// Preparing and stopping the audio
// ---------------------------------------------------------------------------

/// The user wants the output prepared. Gives the settings to prepare it with.
pub fn prepare_requested(ui: &mut UiState) -> (r: Settings)
    ensures
        final(ui)@ == old(ui)@.busy(
            "Preparing the local Bardic Chord audio output..."@,
        ).with_normal_inputs(),
        r@ == final(ui)@.entered_settings(),
{
    set_busy(ui, Some("Preparing the local Bardic Chord audio output..."));
    normalize_ui_inputs(ui);
    settings_from_ui(ui)
}

/// The target as the user has entered it, or the usual one.
pub open spec fn shown_target(value: Seq<char>) -> Seq<char> {
    if text::blank(value) {
        DEFAULT_CAPTURE_TARGET@
    } else {
        value
    }
}

impl UiView {
    /// The window tells what to do with the prepared output.
    pub open spec fn with_prepared_texts(self, target: Seq<char>, output: Seq<char>) -> UiView {
        let shown = UiView {
            current_page: 3,
            save_message: "Audio is ready. Route or attach `"@ + target + "` to `"@ + output
                + "` if needed, then press Start Party."@,
            ..self
        };
        if self.relay_active {
            shown
        } else {
            shown.with_relay_status(
                "Prepare your app next"@,
                "Bardic Chord prepared `"@ + output + "` successfully.\n\nIf `"@ + target
                    + "` is already playing, Bardic Chord will try to move or attach to it automatically when possible. If not, open your system sound settings or volume mixer and route `"@
                    + target + "` to that output."@,
            )
        }
    }

    /// The window once the output was prepared, or was not.
    pub open spec fn after_prepare(
        self,
        outcome: Result<AudioReportView, Seq<char>>,
        snapshot: Result<AppSnapshotView, Seq<char>>,
        relay: RelayReportView,
        party_can_stop: bool,
    ) -> UiView {
        (match outcome {
            Ok(report) => self.busy(Seq::empty()).with_snapshot_outcome(snapshot).with_audio(
                report,
            ).with_relay(relay).with_prepared_texts(
                shown_target(self.capture_target),
                text::opt_or(report.output_name, DEFAULT_AUDIO_OUTPUT_NAME@),
            ),
            Err(error) => self.busy(Seq::empty()).with_audio_failure(Some(error)),
        }).stoppable(party_can_stop).with_derived().with_summary()
    }
}

fn apply_prepared_texts(ui: &mut UiState, target: &str, output: &str)
    ensures
        final(ui)@ == old(ui)@.with_prepared_texts(target@, output@),
{
    ui.current_page = 3;
    ui.save_message =
    "Audio is ready. Route or attach `".to_owned().concat(target).concat("` to `").concat(
        output,
    ).concat("` if needed, then press Start Party.");
    if !ui.relay_active {
        ui.relay_status_title = "Prepare your app next".to_owned();
        ui.relay_status_body =
        "Bardic Chord prepared `".to_owned().concat(output).concat(
            "` successfully.\n\nIf `",
        ).concat(target).concat(
            "` is already playing, Bardic Chord will try to move or attach to it automatically when possible. If not, open your system sound settings or volume mixer and route `",
        ).concat(target).concat("` to that output.");
    }
}

/// The output was prepared, or was not.
pub fn prepare_finished(
    ui: &mut UiState,
    outcome: Result<AudioOutputReport, String>,
    snapshot: Result<AppSnapshot, String>,
    relay: &DiscordRelayReport,
    party_can_stop: bool,
)
    ensures
        final(ui)@ == old(ui)@.after_prepare(
            audio_view(outcome),
            snapshot_view(snapshot),
            relay@,
            party_can_stop,
        ),
{
    let target = if is_blank(ui.capture_target.as_str()) {
        DEFAULT_CAPTURE_TARGET.to_owned()
    } else {
        ui.capture_target.clone()
    };
    clear_busy(ui);
    match outcome {
        Ok(report) => {
            let output = text_or(&report.output_name, DEFAULT_AUDIO_OUTPUT_NAME);
            apply_snapshot_outcome(ui, snapshot);
            apply_audio_output_report(ui, &report);
            apply_relay_report(ui, relay);
            apply_prepared_texts(ui, target.as_str(), output.as_str());
        },
        Err(error) => apply_audio_failure(ui, Some(error)),
    }
    ui.party_can_stop = party_can_stop;
    refresh_editor_derived(ui);
    refresh_runtime_summary(ui);
}

/// The user wants the output off.
pub fn stop_audio_requested(ui: &mut UiState)
    ensures
        final(ui)@ == old(ui)@.busy("Turning off the local Bardic Chord audio output..."@),
{
    set_busy(ui, Some("Turning off the local Bardic Chord audio output..."));
}

impl UiView {
    /// The window once the output was switched off, or was not.
    pub open spec fn after_stop_audio(
        self,
        outcome: Result<AudioReportView, Seq<char>>,
        relay: RelayReportView,
        party_can_stop: bool,
    ) -> UiView {
        (match outcome {
            Ok(report) => self.busy(Seq::empty()).with_audio(report),
            Err(error) => self.busy(Seq::empty()).with_audio_failure(Some(error)),
        }).with_relay(relay).stoppable(party_can_stop).with_summary()
    }
}

/// The output was switched off, or was not.
pub fn stop_audio_finished(
    ui: &mut UiState,
    outcome: Result<AudioOutputReport, String>,
    relay: &DiscordRelayReport,
    party_can_stop: bool,
)
    ensures
        final(ui)@ == old(ui)@.after_stop_audio(audio_view(outcome), relay@, party_can_stop),
{
    clear_busy(ui);
    match outcome {
        Ok(report) => apply_audio_output_report(ui, &report),
        Err(error) => apply_audio_failure(ui, Some(error)),
    }
    apply_relay_report(ui, relay);
    ui.party_can_stop = party_can_stop;
    refresh_runtime_summary(ui);
}

// ---------------------------------------------------------------------------
// Starting and stopping the party
// ---------------------------------------------------------------------------

/// The user wants the party to stop.
pub fn stop_party_requested(ui: &mut UiState)
    ensures
        final(ui)@ == old(ui)@.busy(
            "Stopping the live party and silencing desktop audio plus relay..."@,
        ),
{
    set_busy(ui, Some("Stopping the live party and silencing desktop audio plus relay..."));
}

impl UiView {
    /// The window once the party was stopped, or was not.
    pub open spec fn after_stop_party(
        self,
        failure: Option<Seq<char>>,
        audio: AudioReportView,
        relay: RelayReportView,
        party_can_stop: bool,
    ) -> UiView {
        self.busy(Seq::empty()).with_audio(audio).with_relay(relay).with_relay_failure(
            "Party stop needs attention"@,
            failure,
        ).stoppable(party_can_stop).with_summary()
    }
}

/// The party was stopped, or was not.
pub fn stop_party_finished(
    ui: &mut UiState,
    failure: Option<String>,
    audio: &AudioOutputReport,
    relay: &DiscordRelayReport,
    party_can_stop: bool,
)
    ensures
        final(ui)@ == old(ui)@.after_stop_party(
            text::opt(failure),
            audio@,
            relay@,
            party_can_stop,
        ),
{
    clear_busy(ui);
    apply_audio_output_report(ui, audio);
    apply_relay_report(ui, relay);
    apply_relay_failure(ui, "Party stop needs attention", failure);
    ui.party_can_stop = party_can_stop;
    refresh_runtime_summary(ui);
}

/// The user wants the party to start. Gives whether the output has to be prepared
/// first, and the settings.
pub fn launch_requested(ui: &mut UiState) -> (r: (bool, Settings))
    ensures
        final(ui)@ == old(ui)@.busy(
            "Launching the party by preparing desktop audio, then arming the relay..."@,
        ).with_normal_inputs(),
        r.0 == !old(ui)@.audio_prepared,
        r.1@ == final(ui)@.entered_settings(),
{
    let prepare = !ui.audio_prepared;
    set_busy(
        ui,
        Some("Launching the party by preparing desktop audio, then arming the relay..."),
    );
    normalize_ui_inputs(ui);
    (prepare, settings_from_ui(ui))
}

/// Whether the relay is started, once the output was prepared where it had to be.
pub fn relay_is_started(audio_failure: &Option<String>) -> (r: bool)
    ensures
        r == (audio_failure is None),
{
    audio_failure.is_none()
}

impl UiView {
    /// The window once the party was started, or was not.
    pub open spec fn after_launch(
        self,
        snapshot: Result<AppSnapshotView, Seq<char>>,
        audio: AudioReportView,
        relay: RelayReportView,
        audio_failure: Option<Seq<char>>,
        relay_failure: Option<Seq<char>>,
        party_can_stop: bool,
    ) -> UiView {
        self.busy(Seq::empty()).with_metadata_outcome(snapshot).with_audio(audio).with_relay(
            relay,
        ).with_audio_failure(audio_failure).with_relay_failure(
            "Party start needs attention"@,
            relay_failure,
        ).stoppable(party_can_stop).with_derived().with_summary()
    }
}

/// The party was started, or was not.
pub fn launch_finished(
    ui: &mut UiState,
    snapshot: Result<AppSnapshot, String>,
    audio: &AudioOutputReport,
    relay: &DiscordRelayReport,
    audio_failure: Option<String>,
    relay_failure: Option<String>,
    party_can_stop: bool,
)
    ensures
        final(ui)@ == old(ui)@.after_launch(
            snapshot_view(snapshot),
            audio@,
            relay@,
            text::opt(audio_failure),
            text::opt(relay_failure),
            party_can_stop,
        ),
{
    clear_busy(ui);
    apply_metadata_outcome(ui, snapshot);
    apply_audio_output_report(ui, audio);
    apply_relay_report(ui, relay);
    apply_audio_failure(ui, audio_failure);
    apply_relay_failure(ui, "Party start needs attention", relay_failure);
    ui.party_can_stop = party_can_stop;
    refresh_editor_derived(ui);
    refresh_runtime_summary(ui);
}

// ---------------------------------------------------------------------------
// Laws
// ---------------------------------------------------------------------------

/// A check that was asked for is taken back by the next one, and by a cancellation.
pub proof fn newer_checks_win(generation: u64)
    ensures
        following(generation) != generation,
{
}

/// The polling ends: it goes on exactly before the last attempt, where nothing was
/// found.
pub proof fn polling_ends(attempt: u32, outcome: Result<ValidationView, Seq<char>>)
    requires
        1 <= attempt <= DISCORD_INVITE_POLL_ATTEMPTS,
    ensures
        poll_result(attempt, outcome) == InvitePoll::Again <==> attempt
            < DISCORD_INVITE_POLL_ATTEMPTS && !(outcome is Ok && lists_routes(outcome->Ok_0)),
{
}

/// Once Discord was disconnected and that was saved, nothing of Discord is left among
/// the entries, and nothing of it among the settings.
pub proof fn disconnecting_forgets_discord(
    ui: UiView,
    s: SettingsView,
    saved_at: Option<Seq<char>>,
    platform: Platform,
    relay_failure: Option<Seq<char>>,
    audio: AudioReportView,
    relay: RelayReportView,
    party_can_stop: bool,
)
    ensures
        ({
            let saved = snapshot::snapshot_of(
                settings::normalized_settings(disconnected(s)),
                saved_at,
                platform,
            );
            let end = ui.after_disconnect(
                Ok(saved),
                relay_failure,
                audio,
                relay,
                party_can_stop,
            );
            &&& saved.settings == disconnected(settings::normalized_settings(s))
            &&& end.discord_bot_token.len() == 0
            &&& end.guild_id.len() == 0
            &&& end.voice_channel_id.len() == 0
            &&& end.tracked_user_id.len() == 0
            &&& !end.follow_user_enabled
            &&& !end.discord_connected
            &&& !end.discord_route_ready
        }),
{
    text::blank_is_all_space(Seq::<char>::empty());
    text::strip_keeps_clean_text(Seq::<char>::empty(), text::CharClass::Space);
}

/// However the work ends that a button started, the user is not told to wait any
/// longer.
pub proof fn finished_work_is_not_busy(
    ui: UiView,
    snapshot: Result<AppSnapshotView, Seq<char>>,
    checked: Result<ValidationView, Seq<char>>,
    output: Result<AudioReportView, Seq<char>>,
    audio: AudioReportView,
    relay: RelayReportView,
    audio_failure: Option<Seq<char>>,
    relay_failure: Option<Seq<char>>,
    party_can_stop: bool,
)
    ensures
        !ui.after_validation(true, checked).busy_visible,
        !ui.after_stop_audio(output, relay, party_can_stop).busy_visible,
        !ui.after_stop_party(relay_failure, audio, relay, party_can_stop).busy_visible,
        !ui.after_disconnect(snapshot, relay_failure, audio, relay, party_can_stop).busy_visible,
        !ui.after_prepare(output, snapshot, relay, party_can_stop).busy_visible,
        !ui.after_launch(
            snapshot,
            audio,
            relay,
            audio_failure,
            relay_failure,
            party_can_stop,
        ).busy_visible,
{
}

/// Different numbers are followed by different numbers.
pub proof fn numbers_of_checks_differ(a: u64, b: u64)
    requires
        a != b,
    ensures
        following(a) != following(b),
{
}

/// A button hands out what the user has entered, and an entry that changed is handed
/// out with what is picked in the lists.
pub proof fn entries_are_handed_out(ui: UiView, label: Seq<char>)
    ensures
        ui.busy(label).with_normal_inputs().entered_settings() == ui.entered_settings(),
        ui.with_normal_inputs().entered_settings() == ui.entered_settings(),
        ({
            let s = ui.with_picked_ids().with_normal_inputs().entered_settings();
            let typed = ui.entered_settings();
            &&& s.discord_bot_token == typed.discord_bot_token
            &&& s.tracked_user_id == typed.tracked_user_id
            &&& s.audio_output_name == typed.audio_output_name
            &&& s.capture_target == typed.capture_target
            &&& s.bot_display_name == typed.bot_display_name
            &&& 0 <= ui.discord_guild_index < ui.discord_guild_id_model.len() ==> s.guild_id
                == ui.discord_guild_id_model[ui.discord_guild_index as int]
            &&& ui.discord_guild_id_model.len() == 0 ==> s.guild_id == typed.guild_id
            &&& 0 <= ui.discord_voice_channel_index < ui.discord_voice_channel_id_model.len()
                ==> s.voice_channel_id
                == ui.discord_voice_channel_id_model[ui.discord_voice_channel_index as int]
            &&& ui.discord_voice_channel_id_model.len() == 0 ==> s.voice_channel_id
                == typed.voice_channel_id
        }),
{
    ui::normal_inputs_keep_the_settings(ui);
    ui::normal_inputs_keep_the_settings(ui.busy(label));
    ui::normal_inputs_keep_the_settings(ui.with_picked_ids());
    ui::picked_row_is_entered(ui);
}

/// Disconnecting takes the token, the server, the channel and the followed user out of
/// the settings, and nothing else.
pub proof fn disconnecting_keeps_the_rest(s: SettingsView)
    ensures
        disconnected(s).discord_bot_token.len() == 0,
        disconnected(s).guild_id.len() == 0,
        disconnected(s).voice_channel_id.len() == 0,
        disconnected(s).tracked_user_id.len() == 0,
        disconnected(s).audio_output_name == s.audio_output_name,
        disconnected(s).capture_target == s.capture_target,
        disconnected(s).capture_target_pid == s.capture_target_pid,
        disconnected(s).bot_display_name == s.bot_display_name,
{
}

/// Whether the output is prepared, the party is live and can be stopped is shown as
/// the last reports say.
pub open spec fn shows_what_runs(
    ui: UiView,
    audio: AudioReportView,
    relay: RelayReportView,
    party_can_stop: bool,
) -> bool {
    &&& ui.audio_prepared == audio.active
    &&& ui.relay_active == relay.active
    &&& ui.party_can_stop == party_can_stop
}

/// However a button's work ends, the window shows what runs, and each failure where it
/// belongs.
pub proof fn finished_work_is_shown(
    ui: UiView,
    snapshot: Result<AppSnapshotView, Seq<char>>,
    audio: AudioReportView,
    relay: RelayReportView,
    error: Seq<char>,
    other: Option<Seq<char>>,
    party_can_stop: bool,
)
    ensures
        shows_what_runs(
            ui.with_runtime(audio, relay, party_can_stop).with_summary(),
            audio,
            relay,
            party_can_stop,
        ),
        shows_what_runs(
            ui.after_prepare(Ok(audio), snapshot, relay, party_can_stop),
            audio,
            relay,
            party_can_stop,
        ),
        ui.after_prepare(Ok(audio), snapshot, relay, party_can_stop).current_page == 3,
        ui.after_prepare(Err(error), snapshot, relay, party_can_stop).audio_status_body == error,
        ui.after_prepare(Err(error), snapshot, relay, party_can_stop).audio_prepared
            == ui.audio_prepared,
        ui.after_prepare(Err(error), snapshot, relay, party_can_stop).current_page
            == ui.current_page,
        ui.after_prepare(Err(error), snapshot, relay, party_can_stop).entered_settings()
            == ui.entered_settings(),
        shows_what_runs(
            ui.after_stop_audio(Ok(audio), relay, party_can_stop),
            audio,
            relay,
            party_can_stop,
        ),
        ui.after_stop_audio(Err(error), relay, party_can_stop).audio_status_body == error,
        ui.after_stop_audio(Err(error), relay, party_can_stop).audio_prepared == ui.audio_prepared,
        ui.after_stop_audio(Err(error), relay, party_can_stop).relay_active == relay.active,
        shows_what_runs(
            ui.after_stop_party(other, audio, relay, party_can_stop),
            audio,
            relay,
            party_can_stop,
        ),
        ui.after_stop_party(Some(error), audio, relay, party_can_stop).relay_status_body == error,
        ui.after_stop_party(None, audio, relay, party_can_stop).relay_status_body.take(
            relay.message.len() as int,
        ) == relay.message,
        shows_what_runs(
            ui.after_disconnect(snapshot, other, audio, relay, party_can_stop),
            audio,
            relay,
            party_can_stop,
        ),
        shows_what_runs(
            ui.after_launch(snapshot, audio, relay, other, Some(error), party_can_stop),
            audio,
            relay,
            party_can_stop,
        ),
        ui.after_launch(
            snapshot,
            audio,
            relay,
            other,
            Some(error),
            party_can_stop,
        ).relay_status_body == error,
        ui.after_launch(
            snapshot,
            audio,
            relay,
            Some(error),
            other,
            party_can_stop,
        ).audio_status_body == error,
        ui.after_launch(
            snapshot,
            audio,
            relay,
            None,
            None,
            party_can_stop,
        ).audio_status_body.take(audio.message.len() as int) == audio.message,
        ui.after_launch(
            snapshot,
            audio,
            relay,
            None,
            None,
            party_can_stop,
        ).relay_status_body.take(relay.message.len() as int) == relay.message,
        ui.after_launch(
            snapshot,
            audio,
            relay,
            other,
            other,
            party_can_stop,
        ).entered_settings() == ui.entered_settings(),
{
    ui::audio_report_is_shown(ui, audio);
    ui::relay_report_is_shown(ui, relay);
}

/// A check that succeeds connects and is shown; one that fails disconnects, says why,
/// offers to invite the bot of the token, and keeps what the user has entered.
pub proof fn finished_check_is_shown(
    ui: UiView,
    was_busy: bool,
    report: ValidationView,
    error: Seq<char>,
)
    ensures
        ui.after_validation(was_busy, Ok(report)).discord_connected,
        ui.after_validation(was_busy, Ok(report)).discord_status_body.take(
            report.message.len() as int,
        ) == report.message,
        !ui.after_validation(was_busy, Err(error)).discord_connected,
        ui.after_validation(was_busy, Err(error)).discord_status_body == error,
        ui.after_validation(was_busy, Err(error)).entered_settings() == ui.entered_settings(),
        token::application_id(ui.discord_bot_token) is Some ==> ui.after_validation(
            was_busy,
            Err(error),
        ).discord_invite_url == token::invite_url(
            token::application_id(ui.discord_bot_token)->Some_0,
        ),
        token::application_id(ui.discord_bot_token) is None ==> ui.after_validation(
            was_busy,
            Err(error),
        ).discord_invite_url.len() == 0,
        !was_busy ==> ui.after_validation(was_busy, Ok(report)).busy_visible == ui.busy_visible,
{
    reveal_strlit("");
    ui::validation_is_shown(ui, report);
    ui::validation_is_shown(ui.busy(Seq::empty()), report);
}

/// The page that is opened is the one that is known, or else that of the token's bot.
pub proof fn known_invite_page_is_opened(ui: UiView)
    ensures
        !text::blank(ui.discord_invite_url) ==> ui.page_to_open() == ui.discord_invite_url,
        text::blank(ui.discord_invite_url) && token::application_id(ui.discord_bot_token) is Some
            ==> ui.page_to_open() == token::invite_url(
            token::application_id(ui.discord_bot_token)->Some_0,
        ),
        text::blank(ui.discord_invite_url) && token::application_id(ui.discord_bot_token) is None
            ==> ui.page_to_open().len() == 0,
{
    reveal_strlit("");
}

/// The bot is found exactly where Discord lists a server or a voice channel, on
/// whatever attempt; without that the last attempt is the end, and the entries stay.
pub proof fn bot_is_found_where_routes_are_listed(
    ui: UiView,
    attempt: u32,
    outcome: Result<ValidationView, Seq<char>>,
)
    ensures
        poll_result(attempt, outcome) == InvitePoll::Found <==> outcome is Ok && (
        outcome->Ok_0.guild_options.len() > 0 || outcome->Ok_0.voice_channel_options.len() > 0),
        poll_result(attempt, outcome) == InvitePoll::GiveUp <==> attempt
            == DISCORD_INVITE_POLL_ATTEMPTS && !(outcome is Ok && (
        outcome->Ok_0.guild_options.len() > 0 || outcome->Ok_0.voice_channel_options.len() > 0)),
        poll_result(attempt, outcome) == InvitePoll::Found ==> {
            let after = ui.after_invite_poll(attempt, outcome);
            &&& after.discord_connected
            &&& after.guild_id == ui.with_validation(outcome->Ok_0).guild_id
            &&& after.voice_channel_id == ui.with_validation(outcome->Ok_0).voice_channel_id
            &&& after.discord_guild_id_model == ui.with_validation(
                outcome->Ok_0,
            ).discord_guild_id_model
            &&& after.discord_status_body.take(outcome->Ok_0.message.len() as int)
                == outcome->Ok_0.message
        },
        poll_result(attempt, outcome) != InvitePoll::Found ==> {
            let after = ui.after_invite_poll(attempt, outcome);
            &&& after.discord_connected == ui.discord_connected
            &&& after.entered_settings() == ui.entered_settings()
            &&& after.discord_guild_id_model == ui.discord_guild_id_model
            &&& after.discord_voice_channel_id_model == ui.discord_voice_channel_id_model
        },
        poll_result(attempt, outcome) == InvitePoll::Again ==> text::occurs(
            ui.after_invite_poll(attempt, outcome).discord_status_body,
            "Attempt "@ + number::decimal(attempt as nat) + "/"@,
        ),
{
    let after = ui.after_invite_poll(attempt, outcome);
    let said = "Attempt "@ + number::decimal(attempt as nat) + "/"@;
    let total = number::decimal(DISCORD_INVITE_POLL_ATTEMPTS as nat) + ". "@;
    match outcome {
        Ok(report) => if report.guild_options.len() > 0 || report.voice_channel_options.len() > 0 {
            assert(after.discord_status_body.take(report.message.len() as int) =~= report.message);
        } else if attempt != DISCORD_INVITE_POLL_ATTEMPTS {
            let front = "Bardic Chord is checking Discord every 5 seconds.\n\n"@;
            let back = total + "Finish inviting the bot, then return here."@;
            assert(after.discord_status_body =~= front + said + back);
            text::part_occurs(front, said, back);
        },
        Err(error) => if attempt != DISCORD_INVITE_POLL_ATTEMPTS {
            let front = "Bardic Chord is still checking Discord.\n\n"@;
            let back = total + "Latest check: "@ + error;
            assert(after.discord_status_body =~= front + said + back);
            text::part_occurs(front, said, back);
        },
    }
}

/// Where the token is gone, what was known of Discord goes too; otherwise saving
/// changes nothing that the user has entered.
pub proof fn saving_keeps_the_entries(ui: UiView, outcome: Result<AppSnapshotView, Seq<char>>)
    ensures
        !text::blank(ui.discord_bot_token) ==> {
            let after = ui.after_draft(outcome);
            &&& after.entered_settings() == ui.entered_settings()
            &&& after.discord_connected == ui.discord_connected
            &&& after.discord_guild_id_model == ui.discord_guild_id_model
            &&& after.discord_voice_channel_id_model == ui.discord_voice_channel_id_model
        },
        text::blank(ui.discord_bot_token) ==> {
            let after = ui.after_draft(outcome);
            &&& !after.discord_connected
            &&& !after.discord_route_ready
            &&& after.guild_id.len() == 0
            &&& after.voice_channel_id.len() == 0
            &&& after.discord_guild_id_model.len() == 0
            &&& after.discord_voice_channel_id_model.len() == 0
            &&& after.audio_output_name == ui.audio_output_name
            &&& after.capture_target == ui.capture_target
        },
        outcome is Err ==> ui.after_draft(outcome).save_message == outcome->Err_0,
        outcome is Ok && outcome->Ok_0.last_saved_at is Some ==> text::occurs(
            ui.after_draft(outcome).save_message,
            outcome->Ok_0.last_saved_at->Some_0,
        ),
{
    if outcome is Ok && outcome->Ok_0.last_saved_at is Some {
        text::part_occurs("Saved locally "@, outcome->Ok_0.last_saved_at->Some_0, "."@);
    }
}

/// A window that is opened shows what was saved and what runs: reading it gives the
/// saved settings back.
pub proof fn opened_window_shows_what_was_saved(
    ui: UiView,
    snapshot: AppSnapshotView,
    audio: AudioReportView,
    relay: RelayReportView,
    party_can_stop: bool,
)
    ensures
        ({
            let end = ui.opened().hydrated(snapshot, audio, relay, party_can_stop);
            let s = end.entered_settings();
            &&& s.discord_bot_token == snapshot.settings.discord_bot_token
            &&& s.guild_id == snapshot.settings.guild_id
            &&& s.voice_channel_id == snapshot.settings.voice_channel_id
            &&& s.audio_output_name == snapshot.settings.audio_output_name
            &&& s.capture_target == snapshot.settings.capture_target
            &&& s.bot_display_name == snapshot.settings.bot_display_name
            &&& end.follow_user_enabled <==> !text::blank(snapshot.settings.tracked_user_id)
            &&& end.tracked_user_id == snapshot.settings.tracked_user_id
            &&& !end.discord_connected
            &&& shows_what_runs(end, audio, relay, party_can_stop)
            &&& end.discord_route_ready == (!text::blank(snapshot.settings.guild_id)
                && !text::blank(snapshot.settings.voice_channel_id))
        }),
{
    ui::shown_snapshot_is_read_back(ui.opened(), snapshot);
}

/// Once the output is prepared, the user is told to bring the target that is entered to
/// the output that is reported.
pub proof fn prepared_output_is_announced(
    ui: UiView,
    report: AudioReportView,
    snapshot: Result<AppSnapshotView, Seq<char>>,
    relay: RelayReportView,
    party_can_stop: bool,
)
    requires
        !text::blank(ui.capture_target),
        report.output_name is Some,
    ensures
        ({
            let after = ui.after_prepare(Ok(report), snapshot, relay, party_can_stop);
            let output = report.output_name->Some_0;
            &&& text::occurs(after.save_message, ui.capture_target + "` to `"@ + output)
            &&& !relay.active ==> text::occurs(
                after.relay_status_body,
                "Bardic Chord prepared `"@ + output + "` successfully.\n\nIf `"@
                    + ui.capture_target,
            )
            &&& relay.active ==> after.relay_status_body.take(relay.message.len() as int)
                == relay.message
        }),
{
    let after = ui.after_prepare(Ok(report), snapshot, relay, party_can_stop);
    let output = report.output_name->Some_0;
    let target = ui.capture_target;
    let part = target + "` to `"@ + output;
    let rest = "` if needed, then press Start Party."@;
    let front = "Audio is ready. Route or attach `"@;
    assert(after.save_message =~= front + part + rest);
    text::part_occurs(front, part, rest);
    let none = Seq::<char>::empty();
    if relay.active {
        ui::relay_report_is_shown(ui, relay);
    } else {
        let start = "Bardic Chord prepared `"@ + output + "` successfully.\n\nIf `"@ + target;
        let end = after.relay_status_body.skip(start.len() as int);
        assert(after.relay_status_body =~= none + start + end);
        text::part_occurs(none, start, end);
    }
}

/// A window that is opened lists nothing, is not connected, and asks for the
/// permissions that the bot needs.
pub proof fn opened_window_is_empty(ui: UiView)
    ensures
        ui.opened().discord_guild_model.len() == 0,
        ui.opened().discord_guild_id_model.len() == 0,
        ui.opened().discord_voice_channel_model.len() == 0,
        ui.opened().discord_voice_channel_id_model.len() == 0,
        !ui.opened().discord_connected,
        !ui.opened().discord_route_ready,
        !ui.opened().audio_prepared,
        !ui.opened().party_can_stop,
        !ui.opened().follow_user_enabled,
        ui.opened().discord_permissions == "3146752"@,
{
}

} // verus!
