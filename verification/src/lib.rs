//! Bardic Chord: desktop audio of one application, relayed into a Discord voice
//! channel.
//!
//! The library holds everything that Bardic Chord decides and computes. What it
//! shows and asks for are plain values; where a program has to talk to Discord, to
//! the sound system or to the user in between, a state machine says what to do next
//! and takes what came of it.
//!
//! * Text and numbers: [`text`], [`number`], [`textmap`].
//! * Settings and what is shown of them: [`names`], [`settings`], [`snapshot`],
//!   [`wording`], [`platform`], [`logfile`], [`desktop_entry`].
//! * Discord: [`token`], [`discord`], [`validation`], [`relay`], [`launch`].
//! * Audio: [`sink`], [`pcm`], [`audio`], [`preparation`], [`command`].
//! * Linux: [`pulse`], [`routing`].
//! * Windows: [`tasklist`], [`sessions`], [`capture`], [`probe`], [`loopback`],
//!   [`monitor`].
//! * The window: [`ui`], [`handlers`].
//! * Releases: [`release`].
pub mod audio;
pub mod capture;
pub mod command;
pub mod desktop_entry;
pub mod discord;
pub mod handlers;
pub mod launch;
pub mod logfile;
pub mod loopback;
pub mod monitor;
pub mod names;
pub mod number;
pub mod pcm;
pub mod platform;
pub mod preparation;
pub mod probe;
pub mod pulse;
pub mod relay;
pub mod release;
pub mod routing;
pub mod sessions;
pub mod settings;
pub mod sink;
pub mod snapshot;
pub mod tasklist;
pub mod text;
pub mod textmap;
pub mod token;
pub mod ui;
pub mod validation;
pub mod wording;
