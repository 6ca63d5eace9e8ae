//! The controller's settings: device, capture, synchronisation, effect and
//! application sections, with the defaults that a missing file or a missing
//! key falls back to.

use vstd::prelude::*;

verus! {

/// What the LED strip shows.
#[derive(Debug, Clone, Copy, PartialEq, Eq, Structural)]
pub enum LedMode {
    Sync,
    Dynamic,
    Sound,
    Static,
    Off,
}

impl Default for LedMode {
    fn default() -> (r: Self)
        ensures
            r == LedMode::Sync,
    {
        LedMode::Sync
    }
}

/// Where the music reaction takes its rhythm from.
#[derive(Debug, Clone, Copy, PartialEq, Eq, Structural)]
pub enum RhythmSource {
    Controller,
    Computer,
}

impl Default for RhythmSource {
    fn default() -> (r: Self)
        ensures
            r == RhythmSource::Controller,
    {
        RhythmSource::Controller
    }
}

/// Language of the user interface.
#[derive(Debug, Clone, Copy, PartialEq, Eq, Structural)]
pub enum Language {
    Auto,
    En,
    Ko,
}

impl Default for Language {
    fn default() -> (r: Self)
        ensures
            r == Language::Auto,
    {
        Language::Auto
    }
}

/// Animation played in the software on top of a static colour.
#[derive(Debug, Clone, Copy, PartialEq, Eq, Structural)]
pub enum SoftEffect {
    /// No animation: the colour stays as it is (`none` in the settings file).
    Still,
    Breathe,
    Rotate,
}

impl Default for SoftEffect {
    fn default() -> (r: Self)
        ensures
            r == SoftEffect::Still,
    {
        SoftEffect::Still
    }
}

/// The `[device]` section.
#[derive(Debug)]
pub struct DeviceConfig {
    pub com_port: String,
    pub wire_map: String,
    pub display_size: u32,
    pub lamps_amount: u32,
}

impl Clone for DeviceConfig {
    fn clone(&self) -> (r: Self)
        ensures
            r == *self,
    {
        DeviceConfig {
            com_port: self.com_port.clone(),
            wire_map: self.wire_map.clone(),
            display_size: self.display_size,
            lamps_amount: self.lamps_amount,
        }
    }
}

/// The `[capture]` section.
#[derive(Debug, Clone, Copy, PartialEq, Eq, Structural)]
pub struct CaptureConfig {
    pub fps: u32,
    pub monitor: u32,
    pub sample_width: u32,
}

/// The `[sync]` section.
///
/// `gamma_bits` and `saturation_bits` hold the IEEE-754 single-precision
/// encoding of the gamma and saturation factors: the library carries them
/// through unchanged and reads only the sign and class of the saturation.
#[derive(Debug, Clone, Copy, PartialEq, Eq, Structural)]
pub struct SyncConfig {
    pub speed: u32,
    pub brightness: u8,
    pub gamma_bits: u32,
    pub saturation_bits: u32,
    pub light_compression: bool,
    pub smoothing: bool,
    pub reverse: bool,
    pub edge_number: u8,
}

/// The `[effect]` section.
#[derive(Debug, Clone, Copy, PartialEq, Eq, Structural)]
pub struct EffectConfig {
    pub mode: LedMode,
    pub dynamic_index: u8,
    pub sound_index: u8,
    pub color_r: u8,
    pub color_g: u8,
    pub color_b: u8,
    pub effect_speed: u8,
    pub rhythm_source: RhythmSource,
    pub soft_effect: SoftEffect,
}

/// The `[app]` section.
#[derive(Debug, Clone, Copy, PartialEq, Eq, Structural)]
pub struct AppConfig {
    pub autostart: bool,
    pub show_console: bool,
    pub language: Language,
    pub turn_off_on_sleep: bool,
    pub turn_off_on_black: bool,
}

/// The whole settings file.
#[derive(Debug)]
pub struct Config {
    pub device: DeviceConfig,
    pub capture: CaptureConfig,
    pub sync: SyncConfig,
    pub effect: EffectConfig,
    pub app: AppConfig,
}

impl Clone for Config {
    fn clone(&self) -> (r: Self)
        ensures
            r == *self,
    {
        Config {
            device: self.device.clone(),
            capture: self.capture,
            sync: self.sync,
            effect: self.effect,
            app: self.app,
        }
    }
}

/// Encoding of the factor 1.0, the default gamma and saturation.
pub const ONE_BITS: u32 = 0x3f80_0000;

/// Sign bit of the single-precision encoding.
pub const SIGN_BIT: u32 = 0x8000_0000;

/// Exponent field of the single-precision encoding.
pub const EXPONENT_MASK: u32 = 0x7f80_0000;

/// Fraction field of the single-precision encoding.
pub const FRACTION_MASK: u32 = 0x007f_ffff;

/// The encoded number is strictly greater than zero: its sign is clear,
/// it is not zero, and it is not a NaN (all exponent bits set with a
/// non-zero fraction).
pub open spec fn encodes_positive(bits: u32) -> bool {
    &&& bits & SIGN_BIT == 0
    &&& bits != 0
    &&& !(bits & EXPONENT_MASK == EXPONENT_MASK && bits & FRACTION_MASK != 0)
}

/// Serde default of the gamma key.
pub fn default_gamma() -> (r: u32)
    ensures
        r == ONE_BITS,
{
    ONE_BITS
}

/// Serde default of the saturation key.
pub fn default_saturation() -> (r: u32)
    ensures
        r == ONE_BITS,
{
    ONE_BITS
}

/// Serde default of the boolean keys that start switched on.
pub fn default_true() -> (r: bool)
    ensures
        r,
{
    true
}

/// Serde default of the number of lit screen edges.
pub fn default_edge_number() -> (r: u8)
    ensures
        r == 3,
{
    3
}

/// Serde default of the blue channel of the static colour.
pub fn default_255() -> (r: u8)
    ensures
        r == 255,
{
    255
}

/// Serde default of the effect speed.
pub fn default_50() -> (r: u8)
    ensures
        r == 50,
{
    50
}

impl SyncConfig {
    /// Milliseconds between two frames sent to the device.
    pub fn interval_ms(&self) -> (r: u64)
        ensures
            r == self.speed + 20,
    {
        self.speed as u64 + 20
    }

    /// Whether saturation boosting is on: the saturation factor is greater
    /// than zero.
    pub fn saturation_enabled(&self) -> (r: bool)
        ensures
            r == encodes_positive(self.saturation_bits),
    {
        let bits = self.saturation_bits;
        bits & SIGN_BIT == 0 && bits != 0 && !(bits & EXPONENT_MASK == EXPONENT_MASK && bits
            & FRACTION_MASK != 0)
    }
}

impl Default for EffectConfig {
    fn default() -> (r: Self)
        ensures
            r == (EffectConfig {
                mode: LedMode::Sync,
                dynamic_index: 0,
                sound_index: 0,
                color_r: 0,
                color_g: 0,
                color_b: 255,
                effect_speed: 50,
                rhythm_source: RhythmSource::Controller,
                soft_effect: SoftEffect::Still,
            }),
    {
        EffectConfig {
            mode: LedMode::Sync,
            dynamic_index: 0,
            sound_index: 0,
            color_r: 0,
            color_g: 0,
            color_b: 255,
            effect_speed: 50,
            rhythm_source: RhythmSource::Controller,
            soft_effect: SoftEffect::Still,
        }
    }
}

impl Default for AppConfig {
    fn default() -> (r: Self)
        ensures
            r == (AppConfig {
                autostart: false,
                show_console: false,
                language: Language::Auto,
                turn_off_on_sleep: false,
                turn_off_on_black: false,
            }),
    {
        AppConfig {
            autostart: false,
            show_console: false,
            language: Language::Auto,
            turn_off_on_sleep: false,
            turn_off_on_black: false,
        }
    }
}

/// The settings that apply when no settings file can be read.
pub open spec fn is_default_config(c: Config) -> bool {
    &&& c.device.com_port@ == "auto"@
    &&& c.device.wire_map@ == "RGB"@
    &&& c.device.display_size == 27
    &&& c.device.lamps_amount == 65
    &&& c.capture == (CaptureConfig { fps: 30, monitor: 0, sample_width: 50 })
    &&& c.sync == (SyncConfig {
        speed: 0,
        brightness: 255,
        gamma_bits: ONE_BITS,
        saturation_bits: ONE_BITS,
        light_compression: true,
        smoothing: true,
        reverse: false,
        edge_number: 3,
    })
    &&& c.effect == (EffectConfig {
        mode: LedMode::Sync,
        dynamic_index: 0,
        sound_index: 0,
        color_r: 0,
        color_g: 0,
        color_b: 255,
        effect_speed: 50,
        rhythm_source: RhythmSource::Controller,
        soft_effect: SoftEffect::Still,
    })
    &&& c.app == (AppConfig {
        autostart: false,
        show_console: false,
        language: Language::Auto,
        turn_off_on_sleep: false,
        turn_off_on_black: false,
    })
}

impl Default for Config {
    fn default() -> (r: Self)
        ensures
            is_default_config(r),
    {
        Config {
            device: DeviceConfig {
                com_port: "auto".to_owned(),
                wire_map: "RGB".to_owned(),
                display_size: 27,
                lamps_amount: 65,
            },
            capture: CaptureConfig { fps: 30, monitor: 0, sample_width: 50 },
            sync: SyncConfig {
                speed: 0,
                brightness: 255,
                gamma_bits: ONE_BITS,
                saturation_bits: ONE_BITS,
                light_compression: true,
                smoothing: true,
                reverse: false,
                edge_number: 3,
            },
            effect: EffectConfig::default(),
            app: AppConfig::default(),
        }
    }
}

/// Name of the settings file.
pub const CONFIG_FILE_NAME: &'static str = "config.toml";

/// First lines of a saved settings file.
pub const CONFIG_HEADER: &'static str = "# SyncRGB 설정 파일\n\n";

/// The text of a saved settings file: the header, then the serialized
/// settings.
pub fn config_file_text(body: &str) -> (r: String)
    ensures
        r@ == CONFIG_HEADER@ + body@,
{
    let mut text = CONFIG_HEADER.to_owned();
    text.append(body);
    text
}

/// Directory that holds a settings file.
#[derive(Debug, Clone, Copy, PartialEq, Eq, Structural)]
pub enum ConfigLocation {
    /// The directory of the running program.
    ExeDir,
    /// The current working directory.
    WorkingDir,
}

/// Where settings are looked for, in order: next to the program when its
/// directory is known, then in the working directory.
pub open spec fn search_order(exe_dir_known: bool) -> Seq<ConfigLocation> {
    if exe_dir_known {
        seq![ConfigLocation::ExeDir, ConfigLocation::WorkingDir]
    } else {
        seq![ConfigLocation::WorkingDir]
    }
}

/// The places to try when loading settings; the first that holds a file
/// that parses wins, and the defaults apply when none does.
pub fn load_candidates(exe_dir_known: bool) -> (r: Vec<ConfigLocation>)
    ensures
        r@ == search_order(exe_dir_known),
{
    if exe_dir_known {
        vec![ConfigLocation::ExeDir, ConfigLocation::WorkingDir]
    } else {
        vec![ConfigLocation::WorkingDir]
    }
}

/// Where the settings file is saved: an existing file next to the program
/// wins, then an existing file in the working directory; with neither, next
/// to the program when its directory is known, else the working directory.
pub open spec fn save_location(exe_dir_known: bool, exe_file_exists: bool, cwd_file_exists: bool) -> ConfigLocation {
    if exe_dir_known && exe_file_exists {
        ConfigLocation::ExeDir
    } else if cwd_file_exists {
        ConfigLocation::WorkingDir
    } else if exe_dir_known {
        ConfigLocation::ExeDir
    } else {
        ConfigLocation::WorkingDir
    }
}

/// Chooses the directory of the settings file.
pub fn config_location(exe_dir_known: bool, exe_file_exists: bool, cwd_file_exists: bool) -> (r:
    ConfigLocation)
    ensures
        r == save_location(exe_dir_known, exe_file_exists, cwd_file_exists),
{
    if exe_dir_known && exe_file_exists {
        ConfigLocation::ExeDir
    } else if cwd_file_exists {
        ConfigLocation::WorkingDir
    } else if exe_dir_known {
        ConfigLocation::ExeDir
    } else {
        ConfigLocation::WorkingDir
    }
}

/// The file that is saved to is the file that is loaded from: when a
/// settings file exists, the save location is the first place in the search
/// order that holds one.
pub proof fn law_save_where_loaded(exe_dir_known: bool, exe_file_exists: bool, cwd_file_exists: bool)
    requires
        (exe_dir_known && exe_file_exists) || cwd_file_exists,
    ensures
        ({
            let order = search_order(exe_dir_known);
            let loc = save_location(exe_dir_known, exe_file_exists, cwd_file_exists);
            let holds = |l: ConfigLocation|
                if l == ConfigLocation::ExeDir {
                    exe_file_exists
                } else {
                    cwd_file_exists
                };
            exists|i: int|
                0 <= i < order.len() && order[i] == loc && holds(order[i]) && forall|j: int|
                    0 <= j < i ==> !holds(#[trigger] order[j])
        }),
{
    let order = search_order(exe_dir_known);
    if exe_dir_known && exe_file_exists {
        assert(order[0] == ConfigLocation::ExeDir);
    } else if exe_dir_known {
        assert(order[1] == ConfigLocation::WorkingDir);
    } else {
        assert(order[0] == ConfigLocation::WorkingDir);
    }
}

/// The settings loaded from the first place that held a file that parsed
/// (`attempts[i]` is what place `i` of the search order gave), or the
/// defaults when none did.
pub fn first_loaded(attempts: &Vec<Option<Config>>) -> (r: Config)
    ensures
        (exists|i: int| 0 <= i < attempts@.len() && attempts@[i] is Some) ==> exists|i: int|
            0 <= i < attempts@.len() && attempts@[i] == Some(r) && forall|j: int|
                0 <= j < i ==> attempts@[j] is None,
        (forall|i: int| 0 <= i < attempts@.len() ==> attempts@[i] is None) ==> is_default_config(r),
{
    let mut i: usize = 0;
    while i < attempts.len()
        invariant
            i <= attempts.len(),
            forall|j: int| 0 <= j < i ==> attempts@[j] is None,
        decreases attempts.len() - i,
    {
        match &attempts[i] {
            Some(c) => {
                let found = c.clone();
                assert(attempts@[i as int] == Some(found));
                return found;
            },
            None => {},
        }
        i = i + 1;
    }
    Config::default()
}

/// Settings are looked for next to the program first (when its directory is
/// known) and in the working directory second; they are saved next to the
/// program when a file is there, else in the working directory when a file
/// is there, else next to the program when its directory is known.
pub proof fn law_settings_places_in_order(exe_dir_known: bool, exe_file_exists: bool, cwd_file_exists: bool)
    ensures
        exe_dir_known ==> search_order(exe_dir_known) =~= seq![
            ConfigLocation::ExeDir,
            ConfigLocation::WorkingDir,
        ],
        !exe_dir_known ==> search_order(exe_dir_known) =~= seq![ConfigLocation::WorkingDir],
        exe_dir_known && exe_file_exists ==> save_location(
            exe_dir_known,
            exe_file_exists,
            cwd_file_exists,
        ) == ConfigLocation::ExeDir,
        !(exe_dir_known && exe_file_exists) && cwd_file_exists ==> save_location(
            exe_dir_known,
            exe_file_exists,
            cwd_file_exists,
        ) == ConfigLocation::WorkingDir,
        !cwd_file_exists && !(exe_dir_known && exe_file_exists) ==> (save_location(
            exe_dir_known,
            exe_file_exists,
            cwd_file_exists,
        ) == ConfigLocation::ExeDir <==> exe_dir_known),
{
}

/// The encodings of numbers greater than zero are exactly the bit patterns
/// from 1 (the smallest subnormal) up to 0x7f80_0000 (positive infinity):
/// everything with the sign bit set, zero, and the NaNs above infinity are
/// excluded.
pub proof fn law_positive_encodings_form_a_range(bits: u32)
    ensures
        encodes_positive(bits) <==> 0 < bits <= 0x7f80_0000,
{
    assert((bits & 0x8000_0000 == 0 && bits != 0 && !(bits & 0x7f80_0000 == 0x7f80_0000 && bits
        & 0x007f_ffff != 0)) <==> (0 < bits && bits <= 0x7f80_0000)) by (bit_vector);
}

} // verus!
