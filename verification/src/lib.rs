//! Verified decision logic of an ambient-light controller that mirrors the
//! screen, music or a chosen colour onto an LED strip.
//!
//! - `config`: the settings, their defaults and where the settings file lives.
//! - `layout`: how the strip's LEDs are shared out over the screen edges.
//! - `pixel`: colour clean-up and the packets sent to the strip.
//! - `capture`: frame pacing, capture errors and black-screen detection.
//! - `sender`: the device loop's decisions, from mode set-up to failures.
//! - `locale`: the interface text and the choice of language.
//! - `settings`: the settings window's tab and LED switch, and when the
//!   tray looks for a changed settings file.
//! - `audio`: which audio mix formats the loopback analysis reads.
//! - `autostart`: the logon entry and how its state is read.
pub mod audio;
pub mod autostart;
pub mod capture;
pub mod config;
pub mod layout;
pub mod locale;
pub mod pixel;
pub mod sender;
pub mod settings;
