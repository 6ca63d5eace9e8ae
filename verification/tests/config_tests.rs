use syncrgb::config::{
    config_file_text, config_location, default_255, default_50, default_edge_number,
    default_gamma, default_saturation, default_true, load_candidates, AppConfig, Config,
    ConfigLocation, EffectConfig, Language, LedMode, RhythmSource, SoftEffect, SyncConfig,
    CONFIG_HEADER, ONE_BITS,
};

fn sync_with_saturation(bits: u32) -> SyncConfig {
    SyncConfig {
        speed: 0,
        brightness: 255,
        gamma_bits: ONE_BITS,
        saturation_bits: bits,
        light_compression: true,
        smoothing: true,
        reverse: false,
        edge_number: 3,
    }
}

#[test]
fn default_config_matches_shipped_values() {
    let c = Config::default();
    assert_eq!(c.device.com_port, "auto");
    assert_eq!(c.device.wire_map, "RGB");
    assert_eq!(c.device.display_size, 27);
    assert_eq!(c.device.lamps_amount, 65);
    assert_eq!(c.capture.fps, 30);
    assert_eq!(c.capture.monitor, 0);
    assert_eq!(c.capture.sample_width, 50);
    assert_eq!(c.sync.speed, 0);
    assert_eq!(c.sync.brightness, 255);
    assert_eq!(f32::from_bits(c.sync.gamma_bits), 1.0f32);
    assert_eq!(f32::from_bits(c.sync.saturation_bits), 1.0f32);
    assert!(c.sync.light_compression);
    assert!(c.sync.smoothing);
    assert!(!c.sync.reverse);
    assert_eq!(c.sync.edge_number, 3);
    assert_eq!(c.effect.mode, LedMode::Sync);
    assert_eq!(c.effect.color_b, 255);
    assert_eq!(c.effect.effect_speed, 50);
    assert_eq!(c.app.language, Language::Auto);
    assert!(!c.app.turn_off_on_black);
}

#[test]
fn enum_defaults() {
    assert_eq!(LedMode::default(), LedMode::Sync);
    assert_eq!(RhythmSource::default(), RhythmSource::Controller);
    assert_eq!(Language::default(), Language::Auto);
    assert_eq!(SoftEffect::default(), SoftEffect::Still);
}

#[test]
fn section_defaults() {
    let e = EffectConfig::default();
    assert_eq!(
        e,
        EffectConfig {
            mode: LedMode::Sync,
            dynamic_index: 0,
            sound_index: 0,
            color_r: 0,
            color_g: 0,
            color_b: 255,
            effect_speed: 50,
            rhythm_source: RhythmSource::Controller,
            soft_effect: SoftEffect::Still,
        }
    );
    let a = AppConfig::default();
    assert!(!a.autostart && !a.show_console && !a.turn_off_on_sleep && !a.turn_off_on_black);
    assert_eq!(a.language, Language::Auto);
}

#[test]
fn serde_default_helpers() {
    assert!(default_true());
    assert_eq!(default_edge_number(), 3);
    assert_eq!(default_255(), 255);
    assert_eq!(default_50(), 50);
    assert_eq!(default_gamma(), 1.0f32.to_bits());
    assert_eq!(default_saturation(), 1.0f32.to_bits());
}

#[test]
fn interval_adds_twenty_milliseconds() {
    let mut s = sync_with_saturation(ONE_BITS);
    assert_eq!(s.interval_ms(), 20);
    s.speed = 100;
    assert_eq!(s.interval_ms(), 120);
    s.speed = u32::MAX;
    assert_eq!(s.interval_ms(), u32::MAX as u64 + 20);
}

#[test]
fn saturation_enabled_only_for_positive_factors() {
    for (v, expected) in [
        (1.0f32, true),
        (3.0, true),
        (0.001, true),
        (f32::MIN_POSITIVE, true),
        (1e-45, true),
        (f32::INFINITY, true),
        (0.0, false),
        (-0.0, false),
        (-1.0, false),
        (f32::NEG_INFINITY, false),
        (f32::NAN, false),
    ] {
        let s = sync_with_saturation(v.to_bits());
        assert_eq!(s.saturation_enabled(), v > 0.0, "value {v}");
        assert_eq!(s.saturation_enabled(), expected, "value {v}");
    }
}

#[test]
fn clone_keeps_every_field() {
    let mut c = Config::default();
    c.device.com_port = "COM7".to_string();
    c.capture.fps = 60;
    let d = c.clone();
    assert_eq!(d.device.com_port, "COM7");
    assert_eq!(d.device.wire_map, "RGB");
    assert_eq!(d.capture, c.capture);
    assert_eq!(d.sync, c.sync);
    assert_eq!(d.effect, c.effect);
    assert_eq!(d.app, c.app);
}

#[test]
fn saved_file_starts_with_header() {
    let text = config_file_text("[device]\ncom_port = \"auto\"\n");
    assert_eq!(text, "# SyncRGB 설정 파일\n\n[device]\ncom_port = \"auto\"\n");
    assert_eq!(config_file_text(""), CONFIG_HEADER);
}

#[test]
fn settings_search_order() {
    assert_eq!(load_candidates(true), vec![ConfigLocation::ExeDir, ConfigLocation::WorkingDir]);
    assert_eq!(load_candidates(false), vec![ConfigLocation::WorkingDir]);
}

#[test]
fn save_location_prefers_existing_files() {
    assert_eq!(config_location(true, true, true), ConfigLocation::ExeDir);
    assert_eq!(config_location(true, false, true), ConfigLocation::WorkingDir);
    assert_eq!(config_location(true, false, false), ConfigLocation::ExeDir);
    assert_eq!(config_location(false, true, false), ConfigLocation::WorkingDir);
    assert_eq!(config_location(false, false, false), ConfigLocation::WorkingDir);
}
