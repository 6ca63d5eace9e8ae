use syncrgb::autostart::{approval_enabled_record, autostart_enabled, REG_RUN_KEY, REG_VALUE_NAME};
use syncrgb::config::{Config, Language, LedMode};
use syncrgb::locale::{detect_locale, locale_id, resolve_locale, Locale, LocaleId};
use syncrgb::settings::{effective_mode, initial_view, preview_text_is_dark, wire_maps, Tab};

#[test]
fn explicit_language() {
    assert_eq!(locale_id(Language::Ko, 0x0409), LocaleId::Korean);
    assert_eq!(locale_id(Language::En, 0x0412), LocaleId::English);
    assert_eq!(resolve_locale(Language::Ko, 0).tray_quit, "종료");
    assert_eq!(resolve_locale(Language::En, 0x0412).tray_quit, "Quit");
}

#[test]
fn automatic_language_follows_primary_language() {
    assert_eq!(locale_id(Language::Auto, 0x0412), LocaleId::Korean);
    assert_eq!(locale_id(Language::Auto, 0x0812), LocaleId::Korean);
    assert_eq!(locale_id(Language::Auto, 0x0409), LocaleId::English);
    assert_eq!(locale_id(Language::Auto, 0x0411), LocaleId::English);
}

#[test]
fn detect_uses_the_settings_language() {
    let mut c = Config::default();
    c.app.language = Language::En;
    assert_eq!(detect_locale(&c, 0x0412).tab_sync, "Screen Sync");
    c.app.language = Language::Auto;
    assert_eq!(detect_locale(&c, 0x0412).tab_sync, "화면 동기화");
}

#[test]
fn locale_tables() {
    for l in [Locale::korean(), Locale::english(), Locale::of(LocaleId::Korean)] {
        assert_eq!(l.dynamic_effects.len(), 7);
        assert_eq!(l.sound_effects.len(), 7);
        assert_eq!(l.color_presets.len(), 10);
        assert_eq!(l.color_presets[9].1, [255, 180, 100]);
    }
    let en = Locale::of(LocaleId::English);
    assert_eq!(en.color_presets[6], ("Purple", [150, 0, 255]));
    assert_eq!(en.sound_effects[6], "Rhythm Rainbow");
    assert_eq!(Locale::korean().dynamic_effects[0], "무지개 흐름");
}

#[test]
fn tabs_and_modes() {
    for t in [Tab::Sync, Tab::Dynamic, Tab::Sound, Tab::Static] {
        assert!(Tab::from_mode(&t.to_mode()) == t);
    }
    assert!(Tab::from_mode(&LedMode::Off) == Tab::Sync);
    assert_eq!(effective_mode(Tab::Sound, true), LedMode::Sound);
    assert_eq!(effective_mode(Tab::Sound, false), LedMode::Off);
    for m in [LedMode::Sync, LedMode::Dynamic, LedMode::Sound, LedMode::Static, LedMode::Off] {
        let (tab, on) = initial_view(m);
        assert_eq!(effective_mode(tab, on), m);
    }
}

#[test]
fn autostart_state() {
    assert!(!autostart_enabled(false, None));
    assert!(autostart_enabled(true, None));
    let enabled = approval_enabled_record();
    assert_eq!(enabled, vec![2, 0, 0, 0, 0, 0, 0, 0, 0, 0, 0, 0]);
    assert!(autostart_enabled(true, Some(&enabled)));
    assert!(autostart_enabled(true, Some(&vec![3, 0, 0])));
    assert!(autostart_enabled(true, Some(&vec![1 | 2])));
    assert!(!autostart_enabled(true, Some(&vec![1])));
    assert!(autostart_enabled(true, Some(&vec![])));
    assert_eq!(REG_RUN_KEY, r"Software\Microsoft\Windows\CurrentVersion\Run");
    assert_eq!(REG_VALUE_NAME, "SyncRGB");
}

#[test]
fn wire_orders_and_preview_text() {
    assert_eq!(wire_maps(), &["RGB", "RBG", "GRB", "GBR", "BRG", "BGR"]);
    assert!(preview_text_is_dark(255, 255, 255));
    assert!(preview_text_is_dark(200, 100, 85));
    assert!(!preview_text_is_dark(200, 100, 84));
    assert!(!preview_text_is_dark(0, 0, 255));
}
