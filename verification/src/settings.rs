//! State of the settings window that maps onto the LED mode: the selected
//! tab and the LED on/off switch.

use vstd::prelude::*;
use crate::config::LedMode;

verus! {

/// Tab of the settings window, one per mode that lights the LEDs.
#[derive(Debug, Clone, Copy, PartialEq, Eq, Structural)]
pub enum Tab {
    Sync,
    Dynamic,
    Sound,
    Static,
}

pub open spec fn tab_mode(tab: Tab) -> LedMode {
    match tab {
        Tab::Sync => LedMode::Sync,
        Tab::Dynamic => LedMode::Dynamic,
        Tab::Sound => LedMode::Sound,
        Tab::Static => LedMode::Static,
    }
}

/// The tab that shows a mode; the switched-off mode shows the sync tab.
pub open spec fn mode_tab(mode: LedMode) -> Tab {
    match mode {
        LedMode::Sync => Tab::Sync,
        LedMode::Dynamic => Tab::Dynamic,
        LedMode::Sound => Tab::Sound,
        LedMode::Static => Tab::Static,
        LedMode::Off => Tab::Sync,
    }
}

impl Tab {
    /// The mode that the tab selects.
    pub fn to_mode(self) -> (r: LedMode)
        ensures
            r == tab_mode(self),
    {
        match self {
            Tab::Sync => LedMode::Sync,
            Tab::Dynamic => LedMode::Dynamic,
            Tab::Sound => LedMode::Sound,
            Tab::Static => LedMode::Static,
        }
    }

    /// The tab that shows a mode.
    pub fn from_mode(mode: &LedMode) -> (r: Tab)
        ensures
            r == mode_tab(*mode),
    {
        match mode {
            LedMode::Sync => Tab::Sync,
            LedMode::Dynamic => Tab::Dynamic,
            LedMode::Sound => Tab::Sound,
            LedMode::Static => Tab::Static,
            LedMode::Off => Tab::Sync,
        }
    }
}

/// The mode that the window saves: the selected tab's while the LEDs are
/// on, off otherwise.
pub open spec fn saved_mode(tab: Tab, led_on: bool) -> LedMode {
    if led_on {
        tab_mode(tab)
    } else {
        LedMode::Off
    }
}

/// The mode to save for the window's state.
pub fn effective_mode(tab: Tab, led_on: bool) -> (r: LedMode)
    ensures
        r == saved_mode(tab, led_on),
{
    if led_on {
        tab.to_mode()
    } else {
        LedMode::Off
    }
}

/// The window's state when it opens on a mode: the tab that shows the mode,
/// and the LEDs on unless the mode is off.
pub fn initial_view(mode: LedMode) -> (r: (Tab, bool))
    ensures
        r == (mode_tab(mode), mode != LedMode::Off),
{
    (Tab::from_mode(&mode), mode != LedMode::Off)
}

/// Each tab selects the mode of the same name and shows it; the switched-off
/// mode opens on the sync tab with the LEDs off, and saving with the LEDs
/// off saves the switched-off mode whatever the tab.
pub proof fn law_tabs_name_their_modes(tab: Tab)
    ensures
        tab_mode(Tab::Sync) == LedMode::Sync,
        tab_mode(Tab::Dynamic) == LedMode::Dynamic,
        tab_mode(Tab::Sound) == LedMode::Sound,
        tab_mode(Tab::Static) == LedMode::Static,
        mode_tab(LedMode::Sync) == Tab::Sync,
        mode_tab(LedMode::Dynamic) == Tab::Dynamic,
        mode_tab(LedMode::Sound) == Tab::Sound,
        mode_tab(LedMode::Static) == Tab::Static,
        mode_tab(LedMode::Off) == Tab::Sync,
        saved_mode(tab, false) == LedMode::Off,
        saved_mode(tab, true) != LedMode::Off,
{
}

/// A tab selects a mode that brings the window back to that tab, and a
/// window opened on a mode and saved without changes saves the same mode.
pub proof fn law_window_round_trip(tab: Tab, mode: LedMode)
    ensures
        mode_tab(tab_mode(tab)) == tab,
        saved_mode(mode_tab(mode), mode != LedMode::Off) == mode,
{
}

/// Channel orders that a strip can be wired in, as offered by the settings
/// window.
pub fn wire_maps() -> (r: &'static [&'static str])
    ensures
        r@.len() == 6,
        r@[0]@ == "RGB"@,
        r@[1]@ == "RBG"@,
        r@[2]@ == "GRB"@,
        r@[3]@ == "GBR"@,
        r@[4]@ == "BRG"@,
        r@[5]@ == "BGR"@,
{
    &["RGB", "RBG", "GRB", "GBR", "BRG", "BGR"]
}

/// Channel sum above which the colour preview is labelled in dark text.
pub const LIGHT_PREVIEW_SUM: u16 = 384;

/// Whether the colour preview is light enough to need dark text: its three
/// channels sum to more than 384.
pub fn preview_text_is_dark(r: u8, g: u8, b: u8) -> (dark: bool)
    ensures
        dark == (r + g + b > LIGHT_PREVIEW_SUM),
{
    r as u16 + g as u16 + b as u16 > LIGHT_PREVIEW_SUM
}

/// Tray ticks between two looks at the settings file.
pub const SETTINGS_POLL_EVERY: u32 = 100;

/// Advances the tray's tick counter; the flag says whether this tick looks
/// at the settings file (every hundredth).
pub fn poll_tick(counter: u32) -> (r: (u32, bool))
    requires
        counter < u32::MAX,
    ensures
        r.0 == counter + 1,
        r.1 == ((counter + 1) % (SETTINGS_POLL_EVERY as int) == 0),
{
    let next = counter + 1;
    (next, next % SETTINGS_POLL_EVERY == 0)
}

/// Whether the settings file counts as changed: no modification time was
/// seen before, or the one seen differs from the current one. Times are
/// (seconds, nanoseconds).
pub fn settings_file_changed(previous: Option<(u64, u32)>, current: (u64, u32)) -> (r: bool)
    ensures
        r == (previous != Some(current)),
{
    match previous {
        Some(p) => p.0 != current.0 || p.1 != current.1,
        None => true,
    }
}

} // verus!
