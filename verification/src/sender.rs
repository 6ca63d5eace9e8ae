//! Decisions of the loop that drives the LED device: which commands set a
//! mode up, what a settings reload changes, what runs at each tick, when
//! the strip is blanked, and how send failures are answered.

use vstd::prelude::*;
use crate::config::{Config, EffectConfig, LedMode, RhythmSource, SoftEffect};

verus! {

/// Whether two effect sections differ in a way that needs the mode to be set
/// up again (the mode itself is compared apart).
pub open spec fn effect_differs(a: EffectConfig, b: EffectConfig) -> bool {
    ||| a.dynamic_index != b.dynamic_index
    ||| a.sound_index != b.sound_index
    ||| a.color_r != b.color_r
    ||| a.color_g != b.color_g
    ||| a.color_b != b.color_b
    ||| a.effect_speed != b.effect_speed
    ||| a.rhythm_source != b.rhythm_source
    ||| a.soft_effect != b.soft_effect
}

/// Compares two effect sections on every key but the mode.
pub fn effect_cfg_changed(a: &EffectConfig, b: &EffectConfig) -> (r: bool)
    ensures
        r == effect_differs(*a, *b),
{
    a.dynamic_index != b.dynamic_index || a.sound_index != b.sound_index || a.color_r != b.color_r
        || a.color_g != b.color_g || a.color_b != b.color_b || a.effect_speed != b.effect_speed
        || a.rhythm_source != b.rhythm_source || a.soft_effect != b.soft_effect
}

/// A section never differs from itself, difference does not depend on the
/// order of the two sections, and two sections that agree on every key,
/// the mode aside, do not differ.
pub proof fn law_effect_change_is_a_difference(a: EffectConfig, b: EffectConfig)
    ensures
        !effect_differs(a, a),
        effect_differs(a, b) == effect_differs(b, a),
        !effect_differs(a, b) <==> (EffectConfig { mode: a.mode, ..b }) == a,
        a.dynamic_index != b.dynamic_index ==> effect_differs(a, b),
        a.sound_index != b.sound_index ==> effect_differs(a, b),
        a.color_r != b.color_r ==> effect_differs(a, b),
        a.color_g != b.color_g ==> effect_differs(a, b),
        a.color_b != b.color_b ==> effect_differs(a, b),
        a.effect_speed != b.effect_speed ==> effect_differs(a, b),
        a.rhythm_source != b.rhythm_source ==> effect_differs(a, b),
        a.soft_effect != b.soft_effect ==> effect_differs(a, b),
        !effect_differs(a, EffectConfig { mode: b.mode, ..a }),
{
}

/// A reload sets the mode up again exactly when the new effect section is
/// not the one in force (mode included), and resends the brightness exactly
/// when the new brightness is not the one in force.
pub proof fn law_reload_follows_every_change(effect: EffectConfig, brightness: u8, new_config: Config)
    ensures
        reload_response(effect, brightness, new_config).reapply_mode <==> effect
            != new_config.effect,
        reload_response(effect, brightness, new_config).set_brightness <==> brightness
            != new_config.sync.brightness,
{
    if effect != new_config.effect && effect.mode == new_config.effect.mode {
        if !effect_differs(effect, new_config.effect) {
            assert(effect == new_config.effect);
        }
    }
}

/// Group number of the device's built-in dynamic effects.
pub const DYNAMIC_EFFECT_GROUP: u8 = 2;

/// Group number of the device's built-in music effects.
pub const SOUND_EFFECT_GROUP: u8 = 3;

/// Highest index of a built-in music effect.
pub const MAX_HARDWARE_SOUND_INDEX: u8 = 6;

/// First music-effect index that the software drives itself.
pub const SOFTWARE_SOUND_INDEX: u8 = 7;

/// A command for the LED device, or a pause between two commands.
#[derive(Debug, Clone, Copy, PartialEq, Eq, Structural)]
pub enum DeviceCommand {
    /// Light the first `lamps` LEDs in one colour.
    SectionLed { r: u8, g: u8, b: u8, lamps: u32 },
    /// Start built-in effect `index` of effect group `group`.
    LedEffect { group: u8, index: u8 },
    /// Speed of the built-in dynamic effects.
    DynamicSpeed { speed: u8 },
    /// Switch the LEDs off.
    TurnOff,
    /// Wait this many milliseconds.
    Pause { ms: u64 },
}

/// Whether the music effect is drawn by the software rather than by the
/// device: the rhythm comes from the computer and the effect index is past
/// the built-in ones.
pub open spec fn sound_is_software_driven(effect: EffectConfig) -> bool {
    effect.rhythm_source == RhythmSource::Computer && effect.sound_index >= SOFTWARE_SOUND_INDEX
}

/// The commands that set a mode up on the device. Screen sync needs none;
/// a dynamic effect clears the strip, starts the effect and sets its speed;
/// a music effect clears the strip and, unless the software drives it,
/// starts the built-in effect (index capped at 6); a static colour lights
/// the strip; off switches it off. Whether applying the mode succeeded is
/// `plan_succeeded`.
pub open spec fn mode_plan(effect: EffectConfig, lamps: u32) -> Seq<DeviceCommand> {
    match effect.mode {
        LedMode::Sync => seq![],
        LedMode::Dynamic => seq![
            DeviceCommand::SectionLed { r: 0, g: 0, b: 0, lamps },
            DeviceCommand::Pause { ms: 20 },
            DeviceCommand::LedEffect { group: DYNAMIC_EFFECT_GROUP, index: effect.dynamic_index },
            DeviceCommand::Pause { ms: 80 },
            DeviceCommand::DynamicSpeed { speed: effect.effect_speed },
        ],
        LedMode::Sound => if sound_is_software_driven(effect) {
            seq![
                DeviceCommand::SectionLed { r: 0, g: 0, b: 0, lamps },
                DeviceCommand::Pause { ms: 20 },
            ]
        } else {
            seq![
                DeviceCommand::SectionLed { r: 0, g: 0, b: 0, lamps },
                DeviceCommand::Pause { ms: 20 },
                DeviceCommand::LedEffect {
                    group: SOUND_EFFECT_GROUP,
                    index: if effect.sound_index > MAX_HARDWARE_SOUND_INDEX {
                        MAX_HARDWARE_SOUND_INDEX
                    } else {
                        effect.sound_index
                    },
                },
            ]
        },
        LedMode::Static => seq![
            DeviceCommand::SectionLed {
                r: effect.color_r,
                g: effect.color_g,
                b: effect.color_b,
                lamps,
            },
        ],
        LedMode::Off => seq![DeviceCommand::TurnOff],
    }
}

/// The commands that set the configured mode up, as `mode_plan` lists them.
pub fn mode_commands(effect: &EffectConfig, lamps_amount: u32) -> (r: Vec<DeviceCommand>)
    ensures
        r@ == mode_plan(*effect, lamps_amount),
{
    let clear = DeviceCommand::SectionLed { r: 0, g: 0, b: 0, lamps: lamps_amount };
    match effect.mode {
        LedMode::Sync => Vec::new(),
        LedMode::Dynamic => vec![
            clear,
            DeviceCommand::Pause { ms: 20 },
            DeviceCommand::LedEffect { group: DYNAMIC_EFFECT_GROUP, index: effect.dynamic_index },
            DeviceCommand::Pause { ms: 80 },
            DeviceCommand::DynamicSpeed { speed: effect.effect_speed },
        ],
        LedMode::Sound => {
            let software_driven = effect.rhythm_source == RhythmSource::Computer
                && effect.sound_index >= SOFTWARE_SOUND_INDEX;
            if software_driven {
                vec![clear, DeviceCommand::Pause { ms: 20 }]
            } else {
                let index = if effect.sound_index > MAX_HARDWARE_SOUND_INDEX {
                    MAX_HARDWARE_SOUND_INDEX
                } else {
                    effect.sound_index
                };
                vec![
                    clear,
                    DeviceCommand::Pause { ms: 20 },
                    DeviceCommand::LedEffect { group: SOUND_EFFECT_GROUP, index },
                ]
            }
        },
        LedMode::Static => vec![
            DeviceCommand::SectionLed {
                r: effect.color_r,
                g: effect.color_g,
                b: effect.color_b,
                lamps: lamps_amount,
            },
        ],
        LedMode::Off => vec![DeviceCommand::TurnOff],
    }
}

/// Whether the outcome of step `i` of a mode plan decides whether the mode
/// was applied: a pause never does, nor does clearing the strip before a
/// built-in effect is started (the first of several steps); every other
/// command does.
pub open spec fn step_decides(plan: Seq<DeviceCommand>, i: int) -> bool {
    !(plan[i] is Pause) && !(i == 0 && plan.len() > 1)
}

/// A mode was applied when every deciding step of its plan succeeded;
/// `outcomes[i]` says whether step `i` succeeded.
pub open spec fn plan_succeeded(plan: Seq<DeviceCommand>, outcomes: Seq<bool>) -> bool {
    forall|i: int| 0 <= i < plan.len() && step_decides(plan, i) ==> #[trigger] outcomes[i]
}

/// Whether the mode was applied, from the outcome of each step of its plan.
pub fn mode_applied(plan: &Vec<DeviceCommand>, outcomes: &Vec<bool>) -> (r: bool)
    requires
        outcomes.len() == plan.len(),
    ensures
        r == plan_succeeded(plan@, outcomes@),
{
    let mut i: usize = 0;
    while i < plan.len()
        invariant
            i <= plan.len(),
            outcomes.len() == plan.len(),
            forall|j: int| 0 <= j < i && step_decides(plan@, j) ==> #[trigger] outcomes@[j],
        decreases plan.len() - i,
    {
        let is_pause = match plan[i] {
            DeviceCommand::Pause { .. } => true,
            _ => false,
        };
        let decides = !is_pause && !(i == 0 && plan.len() > 1);
        if decides && !outcomes[i] {
            assert(step_decides(plan@, i as int));
            return false;
        }
        i = i + 1;
    }
    true
}

/// What applying each mode comes to: screen sync always succeeds; a dynamic
/// effect succeeds when both starting the effect and setting its speed
/// succeed; a built-in music effect when starting it succeeds, and one the
/// software drives always; a static colour and off when their one command
/// succeeds. Clearing the strip beforehand never decides.
pub proof fn law_mode_application_result(effect: EffectConfig, lamps: u32, outcomes: Seq<bool>)
    requires
        outcomes.len() == mode_plan(effect, lamps).len(),
    ensures
        effect.mode == LedMode::Sync ==> plan_succeeded(mode_plan(effect, lamps), outcomes),
        effect.mode == LedMode::Dynamic ==> (plan_succeeded(mode_plan(effect, lamps), outcomes)
            <==> outcomes[2] && outcomes[4]),
        effect.mode == LedMode::Sound && !sound_is_software_driven(effect) ==> (plan_succeeded(
            mode_plan(effect, lamps),
            outcomes,
        ) <==> outcomes[2]),
        effect.mode == LedMode::Sound && sound_is_software_driven(effect) ==> plan_succeeded(
            mode_plan(effect, lamps),
            outcomes,
        ),
        effect.mode == LedMode::Static || effect.mode == LedMode::Off ==> (plan_succeeded(
            mode_plan(effect, lamps),
            outcomes,
        ) <==> outcomes[0]),
{
    let plan = mode_plan(effect, lamps);
    if effect.mode == LedMode::Dynamic {
        assert(step_decides(plan, 2) && step_decides(plan, 4));
        assert(!step_decides(plan, 0) && !step_decides(plan, 1) && !step_decides(plan, 3));
    } else if effect.mode == LedMode::Sound {
        if sound_is_software_driven(effect) {
            assert(!step_decides(plan, 0) && !step_decides(plan, 1));
        } else {
            assert(step_decides(plan, 2));
            assert(!step_decides(plan, 0) && !step_decides(plan, 1));
        }
    } else if effect.mode == LedMode::Static || effect.mode == LedMode::Off {
        assert(step_decides(plan, 0));
    }
}

/// What a settings reload makes the device loop do beyond taking the new
/// values over.
#[derive(Debug, Clone, Copy, PartialEq, Eq, Structural)]
pub struct ReloadPlan {
    /// Send the new brightness to the device.
    pub set_brightness: bool,
    /// Take the new effect section over, reset the music state and set the
    /// mode up again.
    pub reapply_mode: bool,
}

/// What a reload of the settings changes on the device: the brightness is
/// sent when it changed, and the mode is set up again when the mode or any
/// other effect key changed.
pub open spec fn reload_response(effect: EffectConfig, brightness: u8, new_config: Config) -> ReloadPlan {
    ReloadPlan {
        set_brightness: brightness != new_config.sync.brightness,
        reapply_mode: effect.mode != new_config.effect.mode || effect_differs(
            effect,
            new_config.effect,
        ),
    }
}

/// Decides what a reload of the settings changes on the device.
pub fn reload_plan(effect: &EffectConfig, brightness: u8, new_config: &Config) -> (r: ReloadPlan)
    ensures
        r == reload_response(*effect, brightness, *new_config),
{
    ReloadPlan {
        set_brightness: brightness != new_config.sync.brightness,
        reapply_mode: effect.mode != new_config.effect.mode || effect_cfg_changed(
            effect,
            &new_config.effect,
        ),
    }
}

/// Reloading the settings that are already in force neither resends the
/// brightness nor sets the mode up again.
pub proof fn law_unchanged_reload_is_quiet(config: Config)
    ensures
        reload_response(config.effect, config.sync.brightness, config) == (ReloadPlan {
            set_brightness: false,
            reapply_mode: false,
        }),
{
}

/// What the device loop does at one tick.
#[derive(Debug, Clone, Copy, PartialEq, Eq, Structural)]
pub enum Tick {
    /// Send the latest captured screen colours.
    ScreenSync,
    /// Light the strip in the pulse colour scaled by the computer's volume.
    ComputerPulse,
    /// Draw a level meter of the computer's volume on the side edges.
    ComputerMeter,
    /// Feed the computer's volume to a built-in music effect.
    ComputerRhythm,
    /// Breathe the static colour.
    SoftBreathe,
    /// Rotate a gradient of the static colour around the strip.
    SoftRotate,
    /// Nothing to send: the device runs the mode on its own.
    Idle,
}

/// The work of one tick for the configured effect.
pub open spec fn tick_for(effect: EffectConfig) -> Tick {
    if effect.mode == LedMode::Sync {
        Tick::ScreenSync
    } else if effect.mode == LedMode::Sound && effect.rhythm_source == RhythmSource::Computer {
        if effect.sound_index == SOFTWARE_SOUND_INDEX {
            Tick::ComputerPulse
        } else if effect.sound_index > SOFTWARE_SOUND_INDEX {
            Tick::ComputerMeter
        } else {
            Tick::ComputerRhythm
        }
    } else if effect.mode == LedMode::Static && effect.soft_effect == SoftEffect::Breathe {
        Tick::SoftBreathe
    } else if effect.mode == LedMode::Static && effect.soft_effect == SoftEffect::Rotate {
        Tick::SoftRotate
    } else {
        Tick::Idle
    }
}

/// Chooses the work of one tick.
pub fn tick_kind(effect: &EffectConfig) -> (r: Tick)
    ensures
        r == tick_for(*effect),
{
    match effect.mode {
        LedMode::Sync => Tick::ScreenSync,
        LedMode::Sound => {
            if effect.rhythm_source == RhythmSource::Computer {
                if effect.sound_index == SOFTWARE_SOUND_INDEX {
                    Tick::ComputerPulse
                } else if effect.sound_index > SOFTWARE_SOUND_INDEX {
                    Tick::ComputerMeter
                } else {
                    Tick::ComputerRhythm
                }
            } else {
                Tick::Idle
            }
        },
        LedMode::Static => match effect.soft_effect {
            SoftEffect::Breathe => Tick::SoftBreathe,
            SoftEffect::Rotate => Tick::SoftRotate,
            SoftEffect::Still => Tick::Idle,
        },
        _ => Tick::Idle,
    }
}

/// A mode that the device runs by itself is never driven tick by tick, and
/// a music effect that the software drives is never handed to the device.
pub proof fn law_software_and_device_split_the_work(effect: EffectConfig, lamps: u32)
    ensures
        tick_for(effect) == Tick::ComputerPulse || tick_for(effect) == Tick::ComputerMeter
            <==> effect.mode == LedMode::Sound && sound_is_software_driven(effect),
        effect.mode == LedMode::Sound && sound_is_software_driven(effect) ==> mode_plan(
            effect,
            lamps,
        ).len() == 2,
        effect.mode == LedMode::Off ==> tick_for(effect) == Tick::Idle,
        effect.mode == LedMode::Dynamic ==> tick_for(effect) == Tick::Idle,
{
}

/// Screen sync runs only in sync mode; the computer-driven music work only
/// in music mode with the rhythm from the computer (pulse at index 7, meter
/// above it, built-in effect below it); the software animations only in the
/// static-colour mode, by its animation setting; music with the rhythm from
/// the controller, dynamic effects and off need no work per tick.
pub proof fn law_tick_belongs_to_its_mode(effect: EffectConfig)
    ensures
        tick_for(effect) == Tick::ScreenSync <==> effect.mode == LedMode::Sync,
        tick_for(effect) == Tick::SoftBreathe <==> effect.mode == LedMode::Static
            && effect.soft_effect == SoftEffect::Breathe,
        tick_for(effect) == Tick::SoftRotate <==> effect.mode == LedMode::Static
            && effect.soft_effect == SoftEffect::Rotate,
        tick_for(effect) == Tick::ComputerPulse <==> effect.mode == LedMode::Sound
            && effect.rhythm_source == RhythmSource::Computer && effect.sound_index == 7,
        tick_for(effect) == Tick::ComputerMeter <==> effect.mode == LedMode::Sound
            && effect.rhythm_source == RhythmSource::Computer && effect.sound_index > 7,
        tick_for(effect) == Tick::ComputerRhythm <==> effect.mode == LedMode::Sound
            && effect.rhythm_source == RhythmSource::Computer && effect.sound_index < 7,
        effect.mode == LedMode::Sound && effect.rhythm_source == RhythmSource::Controller
            ==> tick_for(effect) == Tick::Idle,
        effect.mode == LedMode::Dynamic || effect.mode == LedMode::Off ==> tick_for(effect)
            == Tick::Idle,
        effect.mode == LedMode::Static && effect.soft_effect == SoftEffect::Still ==> tick_for(
            effect,
        ) == Tick::Idle,
{
}

/// What the device loop does about blanking at one tick.
#[derive(Debug, Clone, Copy, PartialEq, Eq, Structural)]
pub enum BlankAction {
    /// Switch the LEDs off and skip the tick.
    TurnOff,
    /// The LEDs are already off: skip the tick.
    StayOff,
    /// Restore the brightness, set the mode up again, then run the tick.
    Restore,
    /// Run the tick.
    Run,
}

/// Whether the strip is to be dark: the monitor sleeps and the settings ask
/// to follow it, or the screen is black and the settings ask to follow that.
pub open spec fn blank_wanted(
    turn_off_on_sleep: bool,
    monitor_off: bool,
    turn_off_on_black: bool,
    screen_black: bool,
) -> bool {
    (turn_off_on_sleep && monitor_off) || (turn_off_on_black && screen_black)
}

/// The blanking action and whether the strip is blanked afterwards.
pub open spec fn blank_response(wanted: bool, blanked: bool) -> (BlankAction, bool) {
    if wanted {
        if blanked {
            (BlankAction::StayOff, true)
        } else {
            (BlankAction::TurnOff, true)
        }
    } else if blanked {
        (BlankAction::Restore, false)
    } else {
        (BlankAction::Run, false)
    }
}

/// Decides the blanking action of one tick, and whether the strip is
/// blanked afterwards.
pub fn blank_step(
    turn_off_on_sleep: bool,
    monitor_off: bool,
    turn_off_on_black: bool,
    screen_black: bool,
    blanked: bool,
) -> (r: (BlankAction, bool))
    ensures
        r == blank_response(
            blank_wanted(turn_off_on_sleep, monitor_off, turn_off_on_black, screen_black),
            blanked,
        ),
{
    let wanted = (turn_off_on_sleep && monitor_off) || (turn_off_on_black && screen_black);
    if wanted {
        if blanked {
            (BlankAction::StayOff, true)
        } else {
            (BlankAction::TurnOff, true)
        }
    } else if blanked {
        (BlankAction::Restore, false)
    } else {
        (BlankAction::Run, false)
    }
}

/// The strip goes dark when the monitor sleeps and the settings follow the
/// monitor, or when the screen is black and the settings follow the screen,
/// each whatever the other signal says; otherwise it stays lit (and a dark
/// strip is restored). Each signal matters only with its own setting.
pub proof fn law_blank_follows_its_causes(
    turn_off_on_sleep: bool,
    monitor_off: bool,
    turn_off_on_black: bool,
    screen_black: bool,
    blanked: bool,
)
    ensures
        turn_off_on_black && screen_black ==> blank_response(
            blank_wanted(turn_off_on_sleep, monitor_off, true, true),
            false,
        ) == (BlankAction::TurnOff, true),
        turn_off_on_sleep && monitor_off ==> blank_response(
            blank_wanted(true, true, turn_off_on_black, screen_black),
            false,
        ) == (BlankAction::TurnOff, true),
        !(turn_off_on_sleep && monitor_off) && !(turn_off_on_black && screen_black) ==> !blank_response(
            blank_wanted(turn_off_on_sleep, monitor_off, turn_off_on_black, screen_black),
            blanked,
        ).1,
        blank_wanted(false, monitor_off, turn_off_on_black, screen_black) == (turn_off_on_black
            && screen_black),
        blank_wanted(turn_off_on_sleep, monitor_off, false, screen_black) == (turn_off_on_sleep
            && monitor_off),
        !blank_wanted(false, monitor_off, false, screen_black),
{
}

/// Through a dark period the LEDs are switched off once: a second dark tick
/// only keeps them off. When the darkness ends they are restored once, and
/// a strip that was never dark is never restored.
pub proof fn law_blanking_switches_once(wanted: bool, blanked: bool)
    ensures
        blank_response(true, blank_response(true, blanked).1).0 == BlankAction::StayOff,
        blank_response(false, blank_response(true, blanked).1).0 == BlankAction::Restore,
        blank_response(false, blank_response(false, blanked).1).0 == BlankAction::Run,
        blank_response(wanted, blanked).1 == wanted,
{
}

/// The volume sent to a built-in music effect: a rising volume or silence
/// is sent as it is, a falling one is held at the last value sent.
pub open spec fn held_volume(vol: u8, last: u8) -> u8 {
    if vol >= last || vol == 0 {
        vol
    } else {
        last
    }
}

/// Applies the peak hold to the volume; the result is also the new last
/// value sent.
pub fn hold_hardware_volume(vol: u8, last: u8) -> (r: u8)
    ensures
        r == held_volume(vol, last),
{
    if vol >= last || vol == 0 {
        vol
    } else {
        last
    }
}

/// The held volume is never below the volume heard, and never below the
/// last value sent unless the sound has stopped.
pub proof fn law_volume_hold_never_drops_early(vol: u8, last: u8)
    ensures
        held_volume(vol, last) >= vol,
        vol != 0 ==> held_volume(vol, last) >= last,
        vol == 0 ==> held_volume(vol, last) == 0,
{
}

/// Failures in a row after which the effect modes reconnect to the device.
pub const EFFECT_RECONNECT_AFTER: u32 = 50;

/// Failures in a row between two reports in screen-sync mode.
pub const SYNC_REPORT_EVERY: u32 = 10;

/// What follows a failed send.
#[derive(Debug, Clone, Copy, PartialEq, Eq, Structural)]
pub struct FailureResponse {
    /// Failures in a row, this one included.
    pub errors: u32,
    /// Report this failure.
    pub report: bool,
    /// Pause a second before anything else.
    pub pause: bool,
    /// Try to reconnect to the device.
    pub reconnect: bool,
}

/// The answer to a failed send during tick `tick`. In screen sync every
/// failure pauses and reconnects, and the first and every tenth are
/// reported. In the computer-driven music effects the first and every
/// fiftieth are reported and the fiftieth and later reconnect. In the
/// software animations failures are reported only when they reconnect, from
/// the fiftieth on.
pub open spec fn failure_response(tick: Tick, errors_before: u32) -> FailureResponse {
    let errors = (errors_before + 1) as u32;
    match tick {
        Tick::ScreenSync => FailureResponse {
            errors,
            report: errors == 1 || errors % SYNC_REPORT_EVERY == 0,
            pause: true,
            reconnect: true,
        },
        Tick::SoftBreathe | Tick::SoftRotate => FailureResponse {
            errors,
            report: errors >= EFFECT_RECONNECT_AFTER,
            pause: false,
            reconnect: errors >= EFFECT_RECONNECT_AFTER,
        },
        _ => FailureResponse {
            errors,
            report: errors == 1 || errors % EFFECT_RECONNECT_AFTER == 0,
            pause: false,
            reconnect: errors >= EFFECT_RECONNECT_AFTER,
        },
    }
}

/// Decides how to answer a failed send.
pub fn after_send_failure(tick: Tick, errors_before: u32) -> (r: FailureResponse)
    requires
        errors_before < u32::MAX,
    ensures
        r == failure_response(tick, errors_before),
{
    let errors = errors_before + 1;
    match tick {
        Tick::ScreenSync => FailureResponse {
            errors,
            report: errors == 1 || errors % SYNC_REPORT_EVERY == 0,
            pause: true,
            reconnect: true,
        },
        Tick::SoftBreathe | Tick::SoftRotate => FailureResponse {
            errors,
            report: errors >= EFFECT_RECONNECT_AFTER,
            pause: false,
            reconnect: errors >= EFFECT_RECONNECT_AFTER,
        },
        _ => FailureResponse {
            errors,
            report: errors == 1 || errors % EFFECT_RECONNECT_AFTER == 0,
            pause: false,
            reconnect: errors >= EFFECT_RECONNECT_AFTER,
        },
    }
}

/// The first failure of a run is always reported except in the software
/// animations, and a run of failures in an effect mode reconnects exactly
/// once it reaches fifty.
pub proof fn law_failures_escalate(tick: Tick, errors_before: u32)
    requires
        errors_before < u32::MAX,
    ensures
        tick != Tick::SoftBreathe && tick != Tick::SoftRotate ==> failure_response(tick, 0).report,
        tick != Tick::ScreenSync ==> (failure_response(tick, errors_before).reconnect <==> errors_before
            + 1 >= EFFECT_RECONNECT_AFTER),
        failure_response(tick, errors_before).errors == errors_before + 1,
{
}

/// The answer to a failed send, in numbers. In screen sync every failure
/// pauses and reconnects, and the first and every tenth are reported. In
/// the software animations nothing pauses, and failures are reported and
/// reconnect from the fiftieth on. In the computer-driven music work nothing
/// pauses, the first and every fiftieth are reported, and the fiftieth and
/// later reconnect. The count always grows by one.
pub proof fn law_failures_in_numbers(tick: Tick, errors_before: u32)
    requires
        errors_before < u32::MAX,
    ensures
        ({
            let n = errors_before as int + 1;
            let r = failure_response(tick, errors_before);
            &&& r.errors as int == n
            &&& tick == Tick::ScreenSync ==> r.pause && r.reconnect && (r.report <==> (n == 1
                || n % 10 == 0))
            &&& (tick == Tick::SoftBreathe || tick == Tick::SoftRotate) ==> !r.pause && (r.report
                <==> n >= 50) && (r.reconnect <==> n >= 50)
            &&& (tick == Tick::ComputerPulse || tick == Tick::ComputerMeter || tick
                == Tick::ComputerRhythm || tick == Tick::Idle) ==> !r.pause && (r.report <==> (n
                == 1 || n % 50 == 0)) && (r.reconnect <==> n >= 50)
        }),
{
}

/// The held volume is always either the volume heard or the last value
/// sent: a volume at or above the last one is sent as it is, silence is sent
/// as silence, and a lower volume keeps the last value.
pub proof fn law_volume_hold_picks_heard_or_last(vol: u8, last: u8)
    ensures
        held_volume(vol, last) == vol || held_volume(vol, last) == last,
        vol >= last ==> held_volume(vol, last) == vol,
        vol == 0 ==> held_volume(vol, last) == 0,
        0 < vol < last ==> held_volume(vol, last) == last,
{
}

/// The commands of each mode, in numbers: a dynamic effect clears all
/// `lamps` LEDs, pauses 20 ms, starts effect `dynamic_index` of group 2,
/// pauses 80 ms and sets the effect speed; a music effect clears the strip
/// and pauses 20 ms, then, unless the rhythm comes from the computer and
/// the index is 7 or more, starts effect `min(sound_index, 6)` of group 3; a
/// static colour lights all `lamps` LEDs in it; off switches off; screen
/// sync sends nothing.
pub proof fn law_mode_commands_in_numbers(effect: EffectConfig, lamps: u32)
    ensures
        ({
            let plan = mode_plan(effect, lamps);
            let clear = DeviceCommand::SectionLed { r: 0, g: 0, b: 0, lamps };
            &&& effect.mode == LedMode::Sync ==> plan.len() == 0
            &&& effect.mode == LedMode::Dynamic ==> plan == seq![
                clear,
                DeviceCommand::Pause { ms: 20 },
                DeviceCommand::LedEffect { group: 2, index: effect.dynamic_index },
                DeviceCommand::Pause { ms: 80 },
                DeviceCommand::DynamicSpeed { speed: effect.effect_speed },
            ]
            &&& effect.mode == LedMode::Sound ==> plan.len() >= 2 && plan[0] == clear && plan[1]
                == DeviceCommand::Pause { ms: 20 }
            &&& effect.mode == LedMode::Sound ==> (plan.len() == 2 <==> effect.rhythm_source
                == RhythmSource::Computer && effect.sound_index >= 7)
            &&& effect.mode == LedMode::Sound && plan.len() == 3 ==> plan[2]
                == DeviceCommand::LedEffect {
                group: 3,
                index: if effect.sound_index < 6 {
                    effect.sound_index
                } else {
                    6
                },
            }
            &&& effect.mode == LedMode::Static ==> plan == seq![
                DeviceCommand::SectionLed {
                    r: effect.color_r,
                    g: effect.color_g,
                    b: effect.color_b,
                    lamps,
                },
            ]
            &&& effect.mode == LedMode::Off ==> plan == seq![DeviceCommand::TurnOff]
        }),
{
}

} // verus!
