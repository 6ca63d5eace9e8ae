//! Text of the user interface in Korean and in English, and the choice
//! between them.

use vstd::prelude::*;
use crate::config::{Config, Language};

verus! {

/// Every text of the user interface in one language.
#[derive(Debug, Clone, Copy)]
pub struct Locale {
    pub tab_sync: &'static str,
    pub tab_dynamic: &'static str,
    pub tab_sound: &'static str,
    pub tab_static: &'static str,
    pub led_on: &'static str,
    pub led_off: &'static str,
    pub led_off_msg: &'static str,
    pub led_off_hint: &'static str,
    pub brightness: &'static str,
    pub settings: &'static str,
    pub applied: &'static str,
    pub save_failed_prefix: &'static str,
    pub failed_keyword: &'static str,
    pub sync_speed: &'static str,
    pub speed_fastest: &'static str,
    pub speed_fast: &'static str,
    pub speed_normal: &'static str,
    pub speed_slow: &'static str,
    pub color_processing: &'static str,
    pub saturation: &'static str,
    pub gamma: &'static str,
    pub light_compression: &'static str,
    pub smoothing: &'static str,
    pub led_layout: &'static str,
    pub direction: &'static str,
    pub dir_ltr: &'static str,
    pub dir_rtl: &'static str,
    pub edges: &'static str,
    pub edges_3: &'static str,
    pub edges_4: &'static str,
    pub pattern_hint: &'static str,
    pub effect_speed: &'static str,
    pub sound_source: &'static str,
    pub source_controller: &'static str,
    pub source_computer: &'static str,
    pub color_adjust: &'static str,
    pub quick_select: &'static str,
    pub static_animation: &'static str,
    pub anim_none: &'static str,
    pub anim_breathe: &'static str,
    pub anim_rotate: &'static str,
    pub speed: &'static str,
    pub device: &'static str,
    pub led_count: &'static str,
    pub monitor_label: &'static str,
    pub capture_fps: &'static str,
    pub app_section: &'static str,
    pub autostart: &'static str,
    pub autostart_failed_prefix: &'static str,
    pub save_settings: &'static str,
    pub dynamic_effects: &'static [&'static str],
    pub sound_effects: &'static [&'static str],
    pub color_presets: &'static [(&'static str, [u8; 3])],
    pub tray_pause: &'static str,
    pub tray_resume: &'static str,
    pub tray_settings: &'static str,
    pub tray_quit: &'static str,
    pub tray_paused_tooltip: &'static str,
    pub language_label: &'static str,
    pub lang_auto: &'static str,
}

/// The two languages the interface is written in.
#[derive(Debug, Clone, Copy, PartialEq, Eq, Structural)]
pub enum LocaleId {
    Korean,
    English,
}

/// The Korean text of the interface.
pub open spec fn is_korean_text(l: Locale) -> bool {
    &&& l.tab_sync@ == "화면 동기화"@
    &&& l.tab_dynamic@ == "동적 효과"@
    &&& l.tab_sound@ == "음악 반응"@
    &&& l.tab_static@ == "단색"@
    &&& l.led_on@ == "LED ON"@
    &&& l.led_off@ == "LED OFF"@
    &&& l.led_off_msg@ == "LED가 꺼져 있습니다"@
    &&& l.led_off_hint@ == "모드 탭을 클릭하면 LED가 자동으로 켜집니다"@
    &&& l.brightness@ == "밝기:"@
    &&& l.settings@ == "설정"@
    &&& l.applied@ == "적용됨"@
    &&& l.save_failed_prefix@ == "저장 실패: "@
    &&& l.failed_keyword@ == "실패"@
    &&& l.sync_speed@ == "동기화 속도"@
    &&& l.speed_fastest@ == "극빠름"@
    &&& l.speed_fast@ == "빠름"@
    &&& l.speed_normal@ == "보통"@
    &&& l.speed_slow@ == "느림"@
    &&& l.color_processing@ == "색상 처리"@
    &&& l.saturation@ == "채도"@
    &&& l.gamma@ == "감마"@
    &&& l.light_compression@ == "광량 압축 (USB 전력 최적화)"@
    &&& l.smoothing@ == "부드러운 전환 (스무딩)"@
    &&& l.led_layout@ == "LED 배치"@
    &&& l.direction@ == "방향:"@
    &&& l.dir_ltr@ == "왼쪽 → 오른쪽"@
    &&& l.dir_rtl@ == "오른쪽 → 왼쪽"@
    &&& l.edges@ == "변 수:"@
    &&& l.edges_3@ == "3면 (상/좌/우)"@
    &&& l.edges_4@ == "4면"@
    &&& l.pattern_hint@ == "패턴을 선택하면 즉시 적용됩니다"@
    &&& l.effect_speed@ == "효과 속도"@
    &&& l.sound_source@ == "음악 소스"@
    &&& l.source_controller@ == "컨트롤러 (내장 마이크)"@
    &&& l.source_computer@ == "컴퓨터 (PC 오디오)"@
    &&& l.color_adjust@ == "색상 조절"@
    &&& l.quick_select@ == "빠른 선택"@
    &&& l.static_animation@ == "단색 애니메이션"@
    &&& l.anim_none@ == "없음"@
    &&& l.anim_breathe@ == "숨쉬기"@
    &&& l.anim_rotate@ == "회전"@
    &&& l.speed@ == "속도"@
    &&& l.device@ == "디바이스"@
    &&& l.led_count@ == "LED 개수:"@
    &&& l.monitor_label@ == "모니터:"@
    &&& l.capture_fps@ == "캡처 FPS:"@
    &&& l.app_section@ == "앱"@
    &&& l.autostart@ == "Windows 시작 시 자동 실행"@
    &&& l.autostart_failed_prefix@ == "자동 시작 실패: "@
    &&& l.save_settings@ == "  설정 저장  "@
    &&& l.dynamic_effects@.len() == 7
    &&& l.dynamic_effects@[0]@ == "무지개 흐름"@
    &&& l.dynamic_effects@[1]@ == "숨쉬기"@
    &&& l.dynamic_effects@[2]@ == "컬러 체이스"@
    &&& l.dynamic_effects@[3]@ == "유성"@
    &&& l.dynamic_effects@[4]@ == "반짝이"@
    &&& l.dynamic_effects@[5]@ == "그라데이션"@
    &&& l.dynamic_effects@[6]@ == "마키"@
    &&& l.sound_effects@.len() == 7
    &&& l.sound_effects@[0]@ == "리듬 웨이브"@
    &&& l.sound_effects@[1]@ == "리듬 펄스"@
    &&& l.sound_effects@[2]@ == "리듬 스펙트럼"@
    &&& l.sound_effects@[3]@ == "리듬 플래시"@
    &&& l.sound_effects@[4]@ == "리듬 그라데이션"@
    &&& l.sound_effects@[5]@ == "리듬 체이스"@
    &&& l.sound_effects@[6]@ == "리듬 레인보우"@
    &&& l.color_presets@.len() == 10
    &&& l.color_presets@[0].0@ == "빨강"@
    &&& l.color_presets@[0].1@ == seq![255u8, 0u8, 0u8]
    &&& l.color_presets@[1].0@ == "주황"@
    &&& l.color_presets@[1].1@ == seq![255u8, 120u8, 0u8]
    &&& l.color_presets@[2].0@ == "노랑"@
    &&& l.color_presets@[2].1@ == seq![255u8, 255u8, 0u8]
    &&& l.color_presets@[3].0@ == "초록"@
    &&& l.color_presets@[3].1@ == seq![0u8, 255u8, 0u8]
    &&& l.color_presets@[4].0@ == "시안"@
    &&& l.color_presets@[4].1@ == seq![0u8, 255u8, 255u8]
    &&& l.color_presets@[5].0@ == "파랑"@
    &&& l.color_presets@[5].1@ == seq![0u8, 0u8, 255u8]
    &&& l.color_presets@[6].0@ == "보라"@
    &&& l.color_presets@[6].1@ == seq![150u8, 0u8, 255u8]
    &&& l.color_presets@[7].0@ == "핑크"@
    &&& l.color_presets@[7].1@ == seq![255u8, 0u8, 150u8]
    &&& l.color_presets@[8].0@ == "흰색"@
    &&& l.color_presets@[8].1@ == seq![255u8, 255u8, 255u8]
    &&& l.color_presets@[9].0@ == "웜 화이트"@
    &&& l.color_presets@[9].1@ == seq![255u8, 180u8, 100u8]
    &&& l.tray_pause@ == "일시정지"@
    &&& l.tray_resume@ == "재개"@
    &&& l.tray_settings@ == "설정"@
    &&& l.tray_quit@ == "종료"@
    &&& l.tray_paused_tooltip@ == "SyncRGB (일시정지)"@
    &&& l.language_label@ == "언어"@
    &&& l.lang_auto@ == "자동"@
}

/// The English text of the interface.
pub open spec fn is_english_text(l: Locale) -> bool {
    &&& l.tab_sync@ == "Screen Sync"@
    &&& l.tab_dynamic@ == "Dynamic Effects"@
    &&& l.tab_sound@ == "Sound Reactive"@
    &&& l.tab_static@ == "Static Color"@
    &&& l.led_on@ == "LED ON"@
    &&& l.led_off@ == "LED OFF"@
    &&& l.led_off_msg@ == "LEDs are turned off"@
    &&& l.led_off_hint@ == "Click a mode tab to turn LEDs on"@
    &&& l.brightness@ == "Brightness:"@
    &&& l.settings@ == "Settings"@
    &&& l.applied@ == "Applied"@
    &&& l.save_failed_prefix@ == "Save failed: "@
    &&& l.failed_keyword@ == "failed"@
    &&& l.sync_speed@ == "Sync Speed"@
    &&& l.speed_fastest@ == "Fastest"@
    &&& l.speed_fast@ == "Fast"@
    &&& l.speed_normal@ == "Normal"@
    &&& l.speed_slow@ == "Slow"@
    &&& l.color_processing@ == "Color Processing"@
    &&& l.saturation@ == "Saturation"@
    &&& l.gamma@ == "Gamma"@
    &&& l.light_compression@ == "Light Compression (USB power opt.)"@
    &&& l.smoothing@ == "Smooth Transition (Smoothing)"@
    &&& l.led_layout@ == "LED Layout"@
    &&& l.direction@ == "Direction:"@
    &&& l.dir_ltr@ == "Left → Right"@
    &&& l.dir_rtl@ == "Right → Left"@
    &&& l.edges@ == "Edges:"@
    &&& l.edges_3@ == "3 sides (Top/Left/Right)"@
    &&& l.edges_4@ == "4 sides"@
    &&& l.pattern_hint@ == "Select a pattern to apply instantly"@
    &&& l.effect_speed@ == "Effect Speed"@
    &&& l.sound_source@ == "Sound Source"@
    &&& l.source_controller@ == "Controller (Built-in Mic)"@
    &&& l.source_computer@ == "Computer (PC Audio)"@
    &&& l.color_adjust@ == "Color Adjustment"@
    &&& l.quick_select@ == "Quick Select"@
    &&& l.static_animation@ == "Static Animation"@
    &&& l.anim_none@ == "None"@
    &&& l.anim_breathe@ == "Breathe"@
    &&& l.anim_rotate@ == "Rotate"@
    &&& l.speed@ == "Speed"@
    &&& l.device@ == "Device"@
    &&& l.led_count@ == "LED Count:"@
    &&& l.monitor_label@ == "Monitor:"@
    &&& l.capture_fps@ == "Capture FPS:"@
    &&& l.app_section@ == "App"@
    &&& l.autostart@ == "Start with Windows"@
    &&& l.autostart_failed_prefix@ == "Autostart failed: "@
    &&& l.save_settings@ == "  Save Settings  "@
    &&& l.dynamic_effects@.len() == 7
    &&& l.dynamic_effects@[0]@ == "Rainbow Flow"@
    &&& l.dynamic_effects@[1]@ == "Breathing"@
    &&& l.dynamic_effects@[2]@ == "Color Chase"@
    &&& l.dynamic_effects@[3]@ == "Meteor"@
    &&& l.dynamic_effects@[4]@ == "Sparkle"@
    &&& l.dynamic_effects@[5]@ == "Gradient"@
    &&& l.dynamic_effects@[6]@ == "Marquee"@
    &&& l.sound_effects@.len() == 7
    &&& l.sound_effects@[0]@ == "Rhythm Wave"@
    &&& l.sound_effects@[1]@ == "Rhythm Pulse"@
    &&& l.sound_effects@[2]@ == "Rhythm Spectrum"@
    &&& l.sound_effects@[3]@ == "Rhythm Flash"@
    &&& l.sound_effects@[4]@ == "Rhythm Gradient"@
    &&& l.sound_effects@[5]@ == "Rhythm Chase"@
    &&& l.sound_effects@[6]@ == "Rhythm Rainbow"@
    &&& l.color_presets@.len() == 10
    &&& l.color_presets@[0].0@ == "Red"@
    &&& l.color_presets@[0].1@ == seq![255u8, 0u8, 0u8]
    &&& l.color_presets@[1].0@ == "Orange"@
    &&& l.color_presets@[1].1@ == seq![255u8, 120u8, 0u8]
    &&& l.color_presets@[2].0@ == "Yellow"@
    &&& l.color_presets@[2].1@ == seq![255u8, 255u8, 0u8]
    &&& l.color_presets@[3].0@ == "Green"@
    &&& l.color_presets@[3].1@ == seq![0u8, 255u8, 0u8]
    &&& l.color_presets@[4].0@ == "Cyan"@
    &&& l.color_presets@[4].1@ == seq![0u8, 255u8, 255u8]
    &&& l.color_presets@[5].0@ == "Blue"@
    &&& l.color_presets@[5].1@ == seq![0u8, 0u8, 255u8]
    &&& l.color_presets@[6].0@ == "Purple"@
    &&& l.color_presets@[6].1@ == seq![150u8, 0u8, 255u8]
    &&& l.color_presets@[7].0@ == "Pink"@
    &&& l.color_presets@[7].1@ == seq![255u8, 0u8, 150u8]
    &&& l.color_presets@[8].0@ == "White"@
    &&& l.color_presets@[8].1@ == seq![255u8, 255u8, 255u8]
    &&& l.color_presets@[9].0@ == "Warm White"@
    &&& l.color_presets@[9].1@ == seq![255u8, 180u8, 100u8]
    &&& l.tray_pause@ == "Pause"@
    &&& l.tray_resume@ == "Resume"@
    &&& l.tray_settings@ == "Settings"@
    &&& l.tray_quit@ == "Quit"@
    &&& l.tray_paused_tooltip@ == "SyncRGB (Paused)"@
    &&& l.language_label@ == "Language"@
    &&& l.lang_auto@ == "Auto"@
}

impl Locale {
    /// The Korean interface.
    pub fn korean() -> (r: Locale)
        ensures
            is_korean_text(r),
    {
        Locale {
            tab_sync: "화면 동기화",
            tab_dynamic: "동적 효과",
            tab_sound: "음악 반응",
            tab_static: "단색",
            led_on: "LED ON",
            led_off: "LED OFF",
            led_off_msg: "LED가 꺼져 있습니다",
            led_off_hint: "모드 탭을 클릭하면 LED가 자동으로 켜집니다",
            brightness: "밝기:",
            settings: "설정",
            applied: "적용됨",
            save_failed_prefix: "저장 실패: ",
            failed_keyword: "실패",
            sync_speed: "동기화 속도",
            speed_fastest: "극빠름",
            speed_fast: "빠름",
            speed_normal: "보통",
            speed_slow: "느림",
            color_processing: "색상 처리",
            saturation: "채도",
            gamma: "감마",
            light_compression: "광량 압축 (USB 전력 최적화)",
            smoothing: "부드러운 전환 (스무딩)",
            led_layout: "LED 배치",
            direction: "방향:",
            dir_ltr: "왼쪽 → 오른쪽",
            dir_rtl: "오른쪽 → 왼쪽",
            edges: "변 수:",
            edges_3: "3면 (상/좌/우)",
            edges_4: "4면",
            pattern_hint: "패턴을 선택하면 즉시 적용됩니다",
            effect_speed: "효과 속도",
            sound_source: "음악 소스",
            source_controller: "컨트롤러 (내장 마이크)",
            source_computer: "컴퓨터 (PC 오디오)",
            color_adjust: "색상 조절",
            quick_select: "빠른 선택",
            static_animation: "단색 애니메이션",
            anim_none: "없음",
            anim_breathe: "숨쉬기",
            anim_rotate: "회전",
            speed: "속도",
            device: "디바이스",
            led_count: "LED 개수:",
            monitor_label: "모니터:",
            capture_fps: "캡처 FPS:",
            app_section: "앱",
            autostart: "Windows 시작 시 자동 실행",
            autostart_failed_prefix: "자동 시작 실패: ",
            save_settings: "  설정 저장  ",
            dynamic_effects: &["무지개 흐름", "숨쉬기", "컬러 체이스", "유성", "반짝이", "그라데이션", "마키"],
            sound_effects: &["리듬 웨이브", "리듬 펄스", "리듬 스펙트럼", "리듬 플래시", "리듬 그라데이션", "리듬 체이스", "리듬 레인보우"],
            color_presets: &[
                ("빨강", [255, 0, 0]),
                ("주황", [255, 120, 0]),
                ("노랑", [255, 255, 0]),
                ("초록", [0, 255, 0]),
                ("시안", [0, 255, 255]),
                ("파랑", [0, 0, 255]),
                ("보라", [150, 0, 255]),
                ("핑크", [255, 0, 150]),
                ("흰색", [255, 255, 255]),
                ("웜 화이트", [255, 180, 100]),
            ],
            tray_pause: "일시정지",
            tray_resume: "재개",
            tray_settings: "설정",
            tray_quit: "종료",
            tray_paused_tooltip: "SyncRGB (일시정지)",
            language_label: "언어",
            lang_auto: "자동",
        }
    }


    /// The English interface.
    pub fn english() -> (r: Locale)
        ensures
            is_english_text(r),
    {
        Locale {
            tab_sync: "Screen Sync",
            tab_dynamic: "Dynamic Effects",
            tab_sound: "Sound Reactive",
            tab_static: "Static Color",
            led_on: "LED ON",
            led_off: "LED OFF",
            led_off_msg: "LEDs are turned off",
            led_off_hint: "Click a mode tab to turn LEDs on",
            brightness: "Brightness:",
            settings: "Settings",
            applied: "Applied",
            save_failed_prefix: "Save failed: ",
            failed_keyword: "failed",
            sync_speed: "Sync Speed",
            speed_fastest: "Fastest",
            speed_fast: "Fast",
            speed_normal: "Normal",
            speed_slow: "Slow",
            color_processing: "Color Processing",
            saturation: "Saturation",
            gamma: "Gamma",
            light_compression: "Light Compression (USB power opt.)",
            smoothing: "Smooth Transition (Smoothing)",
            led_layout: "LED Layout",
            direction: "Direction:",
            dir_ltr: "Left → Right",
            dir_rtl: "Right → Left",
            edges: "Edges:",
            edges_3: "3 sides (Top/Left/Right)",
            edges_4: "4 sides",
            pattern_hint: "Select a pattern to apply instantly",
            effect_speed: "Effect Speed",
            sound_source: "Sound Source",
            source_controller: "Controller (Built-in Mic)",
            source_computer: "Computer (PC Audio)",
            color_adjust: "Color Adjustment",
            quick_select: "Quick Select",
            static_animation: "Static Animation",
            anim_none: "None",
            anim_breathe: "Breathe",
            anim_rotate: "Rotate",
            speed: "Speed",
            device: "Device",
            led_count: "LED Count:",
            monitor_label: "Monitor:",
            capture_fps: "Capture FPS:",
            app_section: "App",
            autostart: "Start with Windows",
            autostart_failed_prefix: "Autostart failed: ",
            save_settings: "  Save Settings  ",
            dynamic_effects: &["Rainbow Flow", "Breathing", "Color Chase", "Meteor", "Sparkle", "Gradient", "Marquee"],
            sound_effects: &["Rhythm Wave", "Rhythm Pulse", "Rhythm Spectrum", "Rhythm Flash", "Rhythm Gradient", "Rhythm Chase", "Rhythm Rainbow"],
            color_presets: &[
                ("Red", [255, 0, 0]),
                ("Orange", [255, 120, 0]),
                ("Yellow", [255, 255, 0]),
                ("Green", [0, 255, 0]),
                ("Cyan", [0, 255, 255]),
                ("Blue", [0, 0, 255]),
                ("Purple", [150, 0, 255]),
                ("Pink", [255, 0, 150]),
                ("White", [255, 255, 255]),
                ("Warm White", [255, 180, 100]),
            ],
            tray_pause: "Pause",
            tray_resume: "Resume",
            tray_settings: "Settings",
            tray_quit: "Quit",
            tray_paused_tooltip: "SyncRGB (Paused)",
            language_label: "Language",
            lang_auto: "Auto",
        }
    }

    /// The interface in the given language.
    pub fn of(id: LocaleId) -> (r: Locale)
        ensures
            id == LocaleId::Korean ==> is_korean_text(r),
            id == LocaleId::English ==> is_english_text(r),
    {
        match id {
            LocaleId::Korean => Locale::korean(),
            LocaleId::English => Locale::english(),
        }
    }
}
/// Mask of the primary-language bits of a Windows language identifier.
pub const PRIMARY_LANGUAGE_MASK: u16 = 0x3ff;

/// Primary-language number of Korean.
pub const KOREAN_PRIMARY_LANGUAGE: u16 = 0x12;

/// The interface language for a setting: Korean or English when chosen,
/// and for `Auto` Korean exactly when the primary language of the user's
/// interface language identifier is Korean.
pub open spec fn locale_for(lang: Language, ui_language: u16) -> LocaleId {
    match lang {
        Language::Ko => LocaleId::Korean,
        Language::En => LocaleId::English,
        Language::Auto => if ui_language & PRIMARY_LANGUAGE_MASK == KOREAN_PRIMARY_LANGUAGE {
            LocaleId::Korean
        } else {
            LocaleId::English
        },
    }
}

/// Chooses the interface language; `ui_language` is the operating system's
/// language identifier of the user's interface.
pub fn locale_id(lang: Language, ui_language: u16) -> (r: LocaleId)
    ensures
        r == locale_for(lang, ui_language),
{
    match lang {
        Language::Ko => LocaleId::Korean,
        Language::En => LocaleId::English,
        Language::Auto => {
            if ui_language & PRIMARY_LANGUAGE_MASK == KOREAN_PRIMARY_LANGUAGE {
                LocaleId::Korean
            } else {
                LocaleId::English
            }
        },
    }
}

/// The interface text for a language setting.
pub fn resolve_locale(lang: Language, ui_language: u16) -> (r: Locale)
    ensures
        locale_for(lang, ui_language) == LocaleId::Korean ==> is_korean_text(r),
        locale_for(lang, ui_language) == LocaleId::English ==> is_english_text(r),
{
    Locale::of(locale_id(lang, ui_language))
}

/// The interface text for the language of the loaded settings.
pub fn detect_locale(config: &Config, ui_language: u16) -> (r: Locale)
    ensures
        locale_for(config.app.language, ui_language) == LocaleId::Korean ==> is_korean_text(r),
        locale_for(config.app.language, ui_language) == LocaleId::English ==> is_english_text(r),
{
    resolve_locale(config.app.language, ui_language)
}

/// A language chosen in the settings wins over the operating system's;
/// `Auto` follows the primary language of the user's interface, whatever its
/// sublanguage (Korean is 0x0412).
pub proof fn law_explicit_language_wins(ui_language: u16, sublanguage: u16)
    requires
        sublanguage < 64,
    ensures
        locale_for(Language::Ko, ui_language) == LocaleId::Korean,
        locale_for(Language::En, ui_language) == LocaleId::English,
        locale_for(Language::Auto, (sublanguage * 1024 + 0x12) as u16) == LocaleId::Korean,
{
    assert((((sublanguage * 1024 + 0x12) as u16) & 0x3ff) == 0x12) by (bit_vector)
        requires
            sublanguage < 64,
    ;
}

/// The automatic choice reads only the primary language, the low ten bits
/// of the identifier: Korean exactly when they are 0x12, English otherwise.
pub proof fn law_automatic_language_reads_primary_bits(ui_language: u16)
    ensures
        ui_language & 0x3ff == 0x12 ==> locale_for(Language::Auto, ui_language)
            == LocaleId::Korean,
        ui_language & 0x3ff != 0x12 ==> locale_for(Language::Auto, ui_language)
            == LocaleId::English,
        locale_for(Language::Auto, ui_language) == locale_for(
            Language::Auto,
            ui_language & 0x3ff,
        ),
{
    assert((ui_language & 0x3ff) & 0x3ff == ui_language & 0x3ff) by (bit_vector);
}

} // verus!
