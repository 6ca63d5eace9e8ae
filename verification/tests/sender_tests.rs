use syncrgb::config::{Config, EffectConfig, LedMode, RhythmSource, SoftEffect};
use syncrgb::sender::{
    after_send_failure, blank_step, effect_cfg_changed, hold_hardware_volume, mode_applied, mode_commands,
    reload_plan, tick_kind, BlankAction, DeviceCommand, ReloadPlan, Tick,
};

fn effect(mode: LedMode) -> EffectConfig {
    EffectConfig { mode, ..EffectConfig::default() }
}

#[test]
fn effect_changes_ignore_the_mode() {
    let a = EffectConfig::default();
    assert!(!effect_cfg_changed(&a, &a));
    assert!(!effect_cfg_changed(&a, &effect(LedMode::Off)));
    let b = EffectConfig { color_g: 1, ..a };
    assert!(effect_cfg_changed(&a, &b));
    assert!(effect_cfg_changed(&b, &a));
    let c = EffectConfig { soft_effect: SoftEffect::Rotate, ..a };
    assert!(effect_cfg_changed(&a, &c));
    let d = EffectConfig { rhythm_source: RhythmSource::Computer, ..a };
    assert!(effect_cfg_changed(&a, &d));
}

#[test]
fn sync_and_off_plans() {
    assert!(mode_commands(&effect(LedMode::Sync), 65).is_empty());
    assert_eq!(mode_commands(&effect(LedMode::Off), 65), vec![DeviceCommand::TurnOff]);
}

#[test]
fn dynamic_plan() {
    let e = EffectConfig { dynamic_index: 4, effect_speed: 70, ..effect(LedMode::Dynamic) };
    assert_eq!(
        mode_commands(&e, 65),
        vec![
            DeviceCommand::SectionLed { r: 0, g: 0, b: 0, lamps: 65 },
            DeviceCommand::Pause { ms: 20 },
            DeviceCommand::LedEffect { group: 2, index: 4 },
            DeviceCommand::Pause { ms: 80 },
            DeviceCommand::DynamicSpeed { speed: 70 },
        ]
    );
}

#[test]
fn sound_plans() {
    let hw = EffectConfig { sound_index: 9, ..effect(LedMode::Sound) };
    assert_eq!(
        mode_commands(&hw, 30),
        vec![
            DeviceCommand::SectionLed { r: 0, g: 0, b: 0, lamps: 30 },
            DeviceCommand::Pause { ms: 20 },
            DeviceCommand::LedEffect { group: 3, index: 6 },
        ]
    );
    let sw = EffectConfig { rhythm_source: RhythmSource::Computer, ..hw };
    assert_eq!(
        mode_commands(&sw, 30),
        vec![
            DeviceCommand::SectionLed { r: 0, g: 0, b: 0, lamps: 30 },
            DeviceCommand::Pause { ms: 20 },
        ]
    );
    let computer_hw = EffectConfig { sound_index: 2, ..sw };
    assert_eq!(
        mode_commands(&computer_hw, 30)[2],
        DeviceCommand::LedEffect { group: 3, index: 2 }
    );
}

#[test]
fn static_plan() {
    let e = EffectConfig { color_r: 1, color_g: 2, color_b: 3, ..effect(LedMode::Static) };
    assert_eq!(
        mode_commands(&e, 12),
        vec![DeviceCommand::SectionLed { r: 1, g: 2, b: 3, lamps: 12 }]
    );
}

#[test]
fn reload_decisions() {
    let config = Config::default();
    assert_eq!(
        reload_plan(&config.effect, config.sync.brightness, &config),
        ReloadPlan { set_brightness: false, reapply_mode: false }
    );
    assert_eq!(
        reload_plan(&config.effect, 10, &config),
        ReloadPlan { set_brightness: true, reapply_mode: false }
    );
    let old = effect(LedMode::Static);
    assert!(reload_plan(&old, 255, &config).reapply_mode);
    let old = EffectConfig { effect_speed: 1, ..config.effect };
    assert!(reload_plan(&old, 255, &config).reapply_mode);
}

#[test]
fn ticks() {
    assert_eq!(tick_kind(&effect(LedMode::Sync)), Tick::ScreenSync);
    assert_eq!(tick_kind(&effect(LedMode::Dynamic)), Tick::Idle);
    assert_eq!(tick_kind(&effect(LedMode::Off)), Tick::Idle);
    assert_eq!(tick_kind(&effect(LedMode::Sound)), Tick::Idle);
    let computer = EffectConfig { rhythm_source: RhythmSource::Computer, ..effect(LedMode::Sound) };
    assert_eq!(tick_kind(&computer), Tick::ComputerRhythm);
    assert_eq!(tick_kind(&EffectConfig { sound_index: 6, ..computer }), Tick::ComputerRhythm);
    assert_eq!(tick_kind(&EffectConfig { sound_index: 7, ..computer }), Tick::ComputerPulse);
    assert_eq!(tick_kind(&EffectConfig { sound_index: 8, ..computer }), Tick::ComputerMeter);
    assert_eq!(tick_kind(&effect(LedMode::Static)), Tick::Idle);
    let breathe = EffectConfig { soft_effect: SoftEffect::Breathe, ..effect(LedMode::Static) };
    assert_eq!(tick_kind(&breathe), Tick::SoftBreathe);
    let rotate = EffectConfig { soft_effect: SoftEffect::Rotate, ..effect(LedMode::Static) };
    assert_eq!(tick_kind(&rotate), Tick::SoftRotate);
}

#[test]
fn blanking() {
    assert_eq!(blank_step(true, true, false, false, false), (BlankAction::TurnOff, true));
    assert_eq!(blank_step(true, true, false, false, true), (BlankAction::StayOff, true));
    assert_eq!(blank_step(false, true, true, true, false), (BlankAction::TurnOff, true));
    assert_eq!(blank_step(false, true, false, true, true), (BlankAction::Restore, false));
    assert_eq!(blank_step(false, false, false, false, false), (BlankAction::Run, false));
}

#[test]
fn volume_hold() {
    assert_eq!(hold_hardware_volume(50, 40), 50);
    assert_eq!(hold_hardware_volume(30, 40), 40);
    assert_eq!(hold_hardware_volume(0, 40), 0);
    assert_eq!(hold_hardware_volume(40, 40), 40);
}

#[test]
fn screen_sync_failures() {
    let first = after_send_failure(Tick::ScreenSync, 0);
    assert_eq!((first.errors, first.report, first.pause, first.reconnect), (1, true, true, true));
    let second = after_send_failure(Tick::ScreenSync, 1);
    assert!(!second.report && second.reconnect);
    assert!(after_send_failure(Tick::ScreenSync, 9).report);
}

#[test]
fn effect_failures() {
    let first = after_send_failure(Tick::ComputerPulse, 0);
    assert_eq!((first.errors, first.report, first.pause, first.reconnect), (1, true, false, false));
    let r = after_send_failure(Tick::ComputerMeter, 48);
    assert!(!r.report && !r.reconnect);
    let r = after_send_failure(Tick::ComputerRhythm, 49);
    assert!(r.report && r.reconnect && r.errors == 50);
    let r = after_send_failure(Tick::ComputerRhythm, 50);
    assert!(!r.report && r.reconnect);
}

#[test]
fn animation_failures() {
    let r = after_send_failure(Tick::SoftBreathe, 0);
    assert!(!r.report && !r.reconnect && !r.pause);
    let r = after_send_failure(Tick::SoftRotate, 49);
    assert!(r.report && r.reconnect);
}

#[test]
fn dynamic_mode_fails_when_the_effect_does_not_start() {
    let e = effect(LedMode::Dynamic);
    let plan = mode_commands(&e, 65);
    assert!(mode_applied(&plan, &vec![false, true, true, true, true]));
    assert!(!mode_applied(&plan, &vec![true, true, false, true, true]));
    assert!(!mode_applied(&plan, &vec![true, true, true, true, false]));
}

#[test]
fn other_modes_application_result() {
    let sync = mode_commands(&effect(LedMode::Sync), 65);
    assert!(mode_applied(&sync, &vec![]));
    let off = mode_commands(&effect(LedMode::Off), 65);
    assert!(!mode_applied(&off, &vec![false]));
    assert!(mode_applied(&off, &vec![true]));
    let stat = mode_commands(&effect(LedMode::Static), 65);
    assert!(!mode_applied(&stat, &vec![false]));
    let hw = mode_commands(&effect(LedMode::Sound), 65);
    assert!(mode_applied(&hw, &vec![false, true, true]));
    assert!(!mode_applied(&hw, &vec![true, true, false]));
    let sw = EffectConfig { rhythm_source: RhythmSource::Computer, sound_index: 8, ..effect(LedMode::Sound) };
    let swp = mode_commands(&sw, 65);
    assert!(mode_applied(&swp, &vec![false, false]));
}
