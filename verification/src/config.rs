use vstd::prelude::*;

use crate::ansi::{all_digits, digits_value};
use crate::text::{join, join_strings, copy_str, dec, digit_char, dec_signed_padded, push_signed_padded, is_ascii_digit, is_prefix, str_eq, strip_prefix, to_chars, trim, trimmed, views};

verus! {

// ---------------------------------------------------------------------------
// Reading values.
// ---------------------------------------------------------------------------

/// `str::parse::<i32>`: an optional sign, then one or more ASCII digits whose
/// value fits in an `i32`.
pub open spec fn parse_i32_text(s: Seq<char>) -> Option<i32> {
    let neg = s.len() > 0 && s[0] == '-';
    let body = if s.len() > 0 && (s[0] == '+' || s[0] == '-') {
        s.drop_first()
    } else {
        s
    };
    let v: int = if neg {
        -digits_value(body)
    } else {
        digits_value(body) as int
    };
    if body.len() > 0 && all_digits(body) && i32::MIN <= v <= i32::MAX {
        Some(v as i32)
    } else {
        None
    }
}

/// `str::parse::<bool>`: exactly `true` or `false`.
pub open spec fn parse_bool_text(s: Seq<char>) -> Option<bool> {
    if s == "true"@ {
        Some(true)
    } else if s == "false"@ {
        Some(false)
    } else {
        None
    }
}

/// The value after `prefix` on a line, trimmed, when the line starts with it.
pub open spec fn text_setting(line: Seq<char>, prefix: Seq<char>) -> Option<Seq<char>> {
    if is_prefix(prefix, line) {
        Some(trimmed(line.skip(prefix.len() as int)))
    } else {
        None
    }
}

/// The whole number after `prefix` on a line.
pub open spec fn int_setting(line: Seq<char>, prefix: Seq<char>) -> Option<i32> {
    match text_setting(line, prefix) {
        Some(v) => parse_i32_text(v),
        None => None,
    }
}

/// The truth value after `prefix` on a line.
pub open spec fn flag_setting(line: Seq<char>, prefix: Seq<char>) -> Option<bool> {
    match text_setting(line, prefix) {
        Some(v) => parse_bool_text(v),
        None => None,
    }
}

proof fn lemma_digits_prefix_bound(s: Seq<char>, k: int)
    requires
        0 <= k <= s.len(),
    ensures
        digits_value(s.take(k)) <= digits_value(s),
    decreases s.len(),
{
    if k < s.len() {
        assert(s.drop_last().take(k) =~= s.take(k));
        lemma_digits_prefix_bound(s.drop_last(), k);
    } else {
        assert(s.take(k) =~= s);
    }
}

/// Reads a text as `str::parse::<i32>` does.
pub fn parse_i32_str(s: &str) -> (r: Option<i32>)
    ensures
        r == parse_i32_text(s@),
{
    let v = to_chars(s);
    let neg = v.len() > 0 && v[0] == '-';
    let start: usize = if v.len() > 0 && (v[0] == '+' || v[0] == '-') {
        1
    } else {
        0
    };
    let ghost body = s@.skip(start as int);
    proof {
        if v.len() > 0 && (v@[0] == '+' || v@[0] == '-') {
            assert(body =~= s@.drop_first());
        } else {
            assert(body =~= s@);
        }
    }
    if start == v.len() {
        return None;
    }
    let mut acc: u64 = 0;
    let mut k: usize = start;
    while k < v.len()
        invariant
            v@ == s@,
            (s@.len() > 0 && (s@[0] == '+' || s@[0] == '-')) ==> start == 1,
            !(s@.len() > 0 && (s@[0] == '+' || s@[0] == '-')) ==> start == 0,
            start <= k <= v@.len(),
            start < v@.len(),
            body == s@.skip(start as int),
            acc == digits_value(v@.subrange(start as int, k as int)),
            acc <= 2147483648,
            all_digits(v@.subrange(start as int, k as int)),
        decreases v.len() - k,
    {
        let c = v[k];
        if !('0' <= c && c <= '9') {
            proof {
                assert(!is_ascii_digit(body[k - start]));
                assert(!all_digits(body));
            }
            return None;
        }
        let d = (c as u32 - 48) as u64;
        proof {
            let t = v@.subrange(start as int, k + 1);
            assert(t.drop_last() =~= v@.subrange(start as int, k as int));
            assert(t.last() == c);
        }
        acc = acc * 10 + d;
        proof {
            let t = v@.subrange(start as int, k + 1);
            assert(acc == digits_value(t));
        }
        if acc > 2147483648 {
            proof {
                let t = v@.subrange(start as int, k + 1);
                if all_digits(body) {
                    assert(body.take(k + 1 - start) =~= t);
                    lemma_digits_prefix_bound(body, k + 1 - start);
                    assert(digits_value(body) > 2147483648);
                }
                if start == 1 {
                    assert(body =~= s@.drop_first());
                } else {
                    assert(body =~= s@);
                }
            }
            return None;
        }
        proof {
            let t = v@.subrange(start as int, k + 1);
            assert forall|i: int| 0 <= i < t.len() implies is_ascii_digit(#[trigger] t[i]) by {
                if i < t.len() - 1 {
                    assert(t[i] == v@.subrange(start as int, k as int)[i]);
                }
            }
        }
        k = k + 1;
    }
    proof {
        assert(v@.subrange(start as int, v@.len() as int) =~= body);
    }
    if neg {
        let m = acc as i64;
        Some((-m) as i32)
    } else if acc <= 2147483647 {
        Some(acc as i32)
    } else {
        None
    }
}

/// The whole number after `prefix` on `line`, as the configuration reader
/// takes it: the rest of the line, trimmed, read as an `i32`.
pub fn parse_i32(line: &str, prefix: &str) -> (r: Option<i32>)
    ensures
        r == int_setting(line@, prefix@),
{
    match strip_prefix(line, prefix) {
        Some(rest) => {
            let t = trim(rest.as_str());
            parse_i32_str(t.as_str())
        },
        None => None,
    }
}

/// The text after `prefix` on `line`, trimmed.
pub fn parse_str(line: &str, prefix: &str) -> (r: Option<String>)
    ensures
        match r {
            Some(v) => text_setting(line@, prefix@) == Some(v@),
            None => text_setting(line@, prefix@) is None,
        },
{
    match strip_prefix(line, prefix) {
        Some(rest) => Some(trim(rest.as_str())),
        None => None,
    }
}

/// The truth value after `prefix` on `line`: the rest of the line, trimmed,
/// read as a `bool`.
pub fn parse_bool(line: &str, prefix: &str) -> (r: Option<bool>)
    ensures
        r == flag_setting(line@, prefix@),
{
    match strip_prefix(line, prefix) {
        Some(rest) => {
            let t = trim(rest.as_str());
            if str_eq(t.as_str(), "true") {
                Some(true)
            } else if str_eq(t.as_str(), "false") {
                Some(false)
            } else {
                None
            }
        },
        None => None,
    }
}

// ---------------------------------------------------------------------------
// The settings file.
// ---------------------------------------------------------------------------

/// The whole-number settings of `zenith.conf`.
#[derive(Clone, Copy, Debug, PartialEq, Eq, Structural)]
pub enum IntKey {
    GapsOut,
    GapsIn,
    BorderSize,
    Rounding,
    BlurSize,
    WaybarHeight,
    WaybarRounding,
    RofiRounding,
    QsHeight,
    QsRounding,
    QsMarginH,
    QsMarginV,
    QsBorderWidth,
    QsFontSize,
    QsPillRounding,
    QsModuleSpacing,
}

/// The text settings of `zenith.conf`.
#[derive(Clone, Copy, Debug, PartialEq, Eq, Structural)]
pub enum TextKey {
    ActiveBorderColor,
    WaybarPosition,
    WaybarBgColor,
    ActiveBar,
    DefaultLauncher,
    DefaultTerminal,
    DefaultShell,
    KittyBg,
    KittyFg,
    RofiBg,
    RofiFg,
    QsBg,
    QsAccent,
    QsPosition,
    QsBorderColor,
    QsTextColor,
    QsBarStyle,
    QsPillBg,
    QsBrandText,
    QsStatusText,
}

/// The on/off settings of `zenith.conf`.
#[derive(Clone, Copy, Debug, PartialEq, Eq, Structural)]
pub enum FlagKey {
    BlurEnabled,
    ShadowEnabled,
    AnimationsEnabled,
    QsFloating,
    QsShowWorkspaces,
    QsShowCpu,
    QsShowBattery,
    QsShowVolume,
    QsShowBluetooth,
    QsShowNetwork,
    QsShowClock,
    QsShowSeconds,
    QsShowBrand,
    QsShowStatusBadge,
    QsShowLauncherBtn,
    QsShowRam,
    QsShowMedia,
    QsShowPowerBtn,
}

/// The fractional settings of `zenith.conf` (their value is handed on as text).
#[derive(Clone, Copy, Debug, PartialEq, Eq, Structural)]
pub enum FloatKey {
    ActiveOpacity,
    InactiveOpacity,
    WaybarOpacity,
    KittyOpacity,
    KittyFontSize,
    RofiOpacity,
    QsOpacity,
    QsPillOpacity,
}

/// What one line of `zenith.conf` sets.
#[derive(Clone, Debug, PartialEq)]
pub enum ConfigEntry {
    /// A `monitor = <rule>` line.
    Monitor(String),
    Int(IntKey, i32),
    Text(TextKey, String),
    Flag(FlagKey, bool),
    /// A fractional setting, with the text of its value.
    Float(FloatKey, String),
}

pub enum ConfigEntryView {
    Monitor(Seq<char>),
    Int(IntKey, i32),
    Text(TextKey, Seq<char>),
    Flag(FlagKey, bool),
    Float(FloatKey, Seq<char>),
}

impl View for ConfigEntry {
    type V = ConfigEntryView;

    open spec fn view(&self) -> ConfigEntryView {
        match self {
            ConfigEntry::Monitor(r) => ConfigEntryView::Monitor(r@),
            ConfigEntry::Int(k, v) => ConfigEntryView::Int(*k, *v),
            ConfigEntry::Text(k, v) => ConfigEntryView::Text(*k, v@),
            ConfigEntry::Flag(k, v) => ConfigEntryView::Flag(*k, *v),
            ConfigEntry::Float(k, v) => ConfigEntryView::Float(*k, v@),
        }
    }
}

/// What a line of `zenith.conf` sets, read after trimming it: a
/// `monitor = <rule>` line gives its rule (trimmed); a
/// `$zenith_<name> = <value>` line gives that setting with its value
/// (trimmed) when the value reads as the setting's type; the checks are made
/// in a fixed order and the first that applies wins; any other line sets
/// nothing.
pub open spec fn config_entry_of(line: Seq<char>) -> Option<ConfigEntryView> {
    let l = trimmed(line);
    if is_prefix("monitor = "@, l) {
        Some(ConfigEntryView::Monitor(trimmed(l.skip(10))))
    } else {
        entry_part_1(l)
    }
}

#[verifier::opaque]
pub open spec fn entry_part_1(l: Seq<char>) -> Option<ConfigEntryView> {
    if int_setting(l, "$zenith_gaps_out = "@) is Some {
        Some(ConfigEntryView::Int(IntKey::GapsOut, int_setting(l, "$zenith_gaps_out = "@)->0))
    } else if int_setting(l, "$zenith_gaps_in = "@) is Some {
        Some(ConfigEntryView::Int(IntKey::GapsIn, int_setting(l, "$zenith_gaps_in = "@)->0))
    } else if int_setting(l, "$zenith_border_size = "@) is Some {
        Some(ConfigEntryView::Int(IntKey::BorderSize, int_setting(l, "$zenith_border_size = "@)->0))
    } else if int_setting(l, "$zenith_rounding = "@) is Some {
        Some(ConfigEntryView::Int(IntKey::Rounding, int_setting(l, "$zenith_rounding = "@)->0))
    } else if text_setting(l, "$zenith_active_border_color = "@) is Some {
        Some(ConfigEntryView::Text(TextKey::ActiveBorderColor, text_setting(l, "$zenith_active_border_color = "@)->0))
    } else if text_setting(l, "$zenith_active_opacity = "@) is Some {
        Some(ConfigEntryView::Float(FloatKey::ActiveOpacity, text_setting(l, "$zenith_active_opacity = "@)->0))
    } else if text_setting(l, "$zenith_inactive_opacity = "@) is Some {
        Some(ConfigEntryView::Float(FloatKey::InactiveOpacity, text_setting(l, "$zenith_inactive_opacity = "@)->0))
    } else if flag_setting(l, "$zenith_blur_enabled = "@) is Some {
        Some(ConfigEntryView::Flag(FlagKey::BlurEnabled, flag_setting(l, "$zenith_blur_enabled = "@)->0))
    } else {
        entry_part_2(l)
    }
}

#[verifier::opaque]
pub open spec fn entry_part_2(l: Seq<char>) -> Option<ConfigEntryView> {
    if int_setting(l, "$zenith_blur_size = "@) is Some {
        Some(ConfigEntryView::Int(IntKey::BlurSize, int_setting(l, "$zenith_blur_size = "@)->0))
    } else if flag_setting(l, "$zenith_shadow_enabled = "@) is Some {
        Some(ConfigEntryView::Flag(FlagKey::ShadowEnabled, flag_setting(l, "$zenith_shadow_enabled = "@)->0))
    } else if flag_setting(l, "$zenith_animations_enabled = "@) is Some {
        Some(ConfigEntryView::Flag(FlagKey::AnimationsEnabled, flag_setting(l, "$zenith_animations_enabled = "@)->0))
    } else if text_setting(l, "$zenith_wb_pos = "@) is Some {
        Some(ConfigEntryView::Text(TextKey::WaybarPosition, text_setting(l, "$zenith_wb_pos = "@)->0))
    } else if int_setting(l, "$zenith_wb_height = "@) is Some {
        Some(ConfigEntryView::Int(IntKey::WaybarHeight, int_setting(l, "$zenith_wb_height = "@)->0))
    } else if text_setting(l, "$zenith_wb_bg = "@) is Some {
        Some(ConfigEntryView::Text(TextKey::WaybarBgColor, text_setting(l, "$zenith_wb_bg = "@)->0))
    } else if text_setting(l, "$zenith_wb_opacity = "@) is Some {
        Some(ConfigEntryView::Float(FloatKey::WaybarOpacity, text_setting(l, "$zenith_wb_opacity = "@)->0))
    } else if int_setting(l, "$zenith_wb_round = "@) is Some {
        Some(ConfigEntryView::Int(IntKey::WaybarRounding, int_setting(l, "$zenith_wb_round = "@)->0))
    } else {
        entry_part_3(l)
    }
}

#[verifier::opaque]
pub open spec fn entry_part_3(l: Seq<char>) -> Option<ConfigEntryView> {
    if text_setting(l, "$zenith_active_bar = "@) is Some {
        Some(ConfigEntryView::Text(TextKey::ActiveBar, text_setting(l, "$zenith_active_bar = "@)->0))
    } else if text_setting(l, "$zenith_launcher = "@) is Some {
        Some(ConfigEntryView::Text(TextKey::DefaultLauncher, text_setting(l, "$zenith_launcher = "@)->0))
    } else if text_setting(l, "$zenith_terminal = "@) is Some {
        Some(ConfigEntryView::Text(TextKey::DefaultTerminal, text_setting(l, "$zenith_terminal = "@)->0))
    } else if text_setting(l, "$zenith_shell = "@) is Some {
        Some(ConfigEntryView::Text(TextKey::DefaultShell, text_setting(l, "$zenith_shell = "@)->0))
    } else if text_setting(l, "$zenith_kitty_bg = "@) is Some {
        Some(ConfigEntryView::Text(TextKey::KittyBg, text_setting(l, "$zenith_kitty_bg = "@)->0))
    } else if text_setting(l, "$zenith_kitty_fg = "@) is Some {
        Some(ConfigEntryView::Text(TextKey::KittyFg, text_setting(l, "$zenith_kitty_fg = "@)->0))
    } else if text_setting(l, "$zenith_kitty_opacity = "@) is Some {
        Some(ConfigEntryView::Float(FloatKey::KittyOpacity, text_setting(l, "$zenith_kitty_opacity = "@)->0))
    } else if text_setting(l, "$zenith_kitty_font = "@) is Some {
        Some(ConfigEntryView::Float(FloatKey::KittyFontSize, text_setting(l, "$zenith_kitty_font = "@)->0))
    } else {
        entry_part_4(l)
    }
}

#[verifier::opaque]
pub open spec fn entry_part_4(l: Seq<char>) -> Option<ConfigEntryView> {
    if text_setting(l, "$zenith_rofi_bg = "@) is Some {
        Some(ConfigEntryView::Text(TextKey::RofiBg, text_setting(l, "$zenith_rofi_bg = "@)->0))
    } else if text_setting(l, "$zenith_rofi_fg = "@) is Some {
        Some(ConfigEntryView::Text(TextKey::RofiFg, text_setting(l, "$zenith_rofi_fg = "@)->0))
    } else if text_setting(l, "$zenith_rofi_opacity = "@) is Some {
        Some(ConfigEntryView::Float(FloatKey::RofiOpacity, text_setting(l, "$zenith_rofi_opacity = "@)->0))
    } else if int_setting(l, "$zenith_rofi_round = "@) is Some {
        Some(ConfigEntryView::Int(IntKey::RofiRounding, int_setting(l, "$zenith_rofi_round = "@)->0))
    } else if text_setting(l, "$zenith_qs_bg = "@) is Some {
        Some(ConfigEntryView::Text(TextKey::QsBg, text_setting(l, "$zenith_qs_bg = "@)->0))
    } else if text_setting(l, "$zenith_qs_accent = "@) is Some {
        Some(ConfigEntryView::Text(TextKey::QsAccent, text_setting(l, "$zenith_qs_accent = "@)->0))
    } else if text_setting(l, "$zenith_qs_opacity = "@) is Some {
        Some(ConfigEntryView::Float(FloatKey::QsOpacity, text_setting(l, "$zenith_qs_opacity = "@)->0))
    } else if int_setting(l, "$zenith_qs_height = "@) is Some {
        Some(ConfigEntryView::Int(IntKey::QsHeight, int_setting(l, "$zenith_qs_height = "@)->0))
    } else {
        entry_part_5(l)
    }
}

#[verifier::opaque]
pub open spec fn entry_part_5(l: Seq<char>) -> Option<ConfigEntryView> {
    if text_setting(l, "$zenith_qs_position = "@) is Some {
        Some(ConfigEntryView::Text(TextKey::QsPosition, text_setting(l, "$zenith_qs_position = "@)->0))
    } else if int_setting(l, "$zenith_qs_rounding = "@) is Some {
        Some(ConfigEntryView::Int(IntKey::QsRounding, int_setting(l, "$zenith_qs_rounding = "@)->0))
    } else if int_setting(l, "$zenith_qs_margin_h = "@) is Some {
        Some(ConfigEntryView::Int(IntKey::QsMarginH, int_setting(l, "$zenith_qs_margin_h = "@)->0))
    } else if int_setting(l, "$zenith_qs_margin_v = "@) is Some {
        Some(ConfigEntryView::Int(IntKey::QsMarginV, int_setting(l, "$zenith_qs_margin_v = "@)->0))
    } else if int_setting(l, "$zenith_qs_border_width = "@) is Some {
        Some(ConfigEntryView::Int(IntKey::QsBorderWidth, int_setting(l, "$zenith_qs_border_width = "@)->0))
    } else if text_setting(l, "$zenith_qs_border_color = "@) is Some {
        Some(ConfigEntryView::Text(TextKey::QsBorderColor, text_setting(l, "$zenith_qs_border_color = "@)->0))
    } else if text_setting(l, "$zenith_qs_text_color = "@) is Some {
        Some(ConfigEntryView::Text(TextKey::QsTextColor, text_setting(l, "$zenith_qs_text_color = "@)->0))
    } else if int_setting(l, "$zenith_qs_font_size = "@) is Some {
        Some(ConfigEntryView::Int(IntKey::QsFontSize, int_setting(l, "$zenith_qs_font_size = "@)->0))
    } else {
        entry_part_6(l)
    }
}

#[verifier::opaque]
pub open spec fn entry_part_6(l: Seq<char>) -> Option<ConfigEntryView> {
    if flag_setting(l, "$zenith_qs_floating = "@) is Some {
        Some(ConfigEntryView::Flag(FlagKey::QsFloating, flag_setting(l, "$zenith_qs_floating = "@)->0))
    } else if flag_setting(l, "$zenith_qs_show_workspaces = "@) is Some {
        Some(ConfigEntryView::Flag(FlagKey::QsShowWorkspaces, flag_setting(l, "$zenith_qs_show_workspaces = "@)->0))
    } else if flag_setting(l, "$zenith_qs_show_cpu = "@) is Some {
        Some(ConfigEntryView::Flag(FlagKey::QsShowCpu, flag_setting(l, "$zenith_qs_show_cpu = "@)->0))
    } else if flag_setting(l, "$zenith_qs_show_battery = "@) is Some {
        Some(ConfigEntryView::Flag(FlagKey::QsShowBattery, flag_setting(l, "$zenith_qs_show_battery = "@)->0))
    } else if flag_setting(l, "$zenith_qs_show_volume = "@) is Some {
        Some(ConfigEntryView::Flag(FlagKey::QsShowVolume, flag_setting(l, "$zenith_qs_show_volume = "@)->0))
    } else if flag_setting(l, "$zenith_qs_show_bluetooth = "@) is Some {
        Some(ConfigEntryView::Flag(FlagKey::QsShowBluetooth, flag_setting(l, "$zenith_qs_show_bluetooth = "@)->0))
    } else if flag_setting(l, "$zenith_qs_show_network = "@) is Some {
        Some(ConfigEntryView::Flag(FlagKey::QsShowNetwork, flag_setting(l, "$zenith_qs_show_network = "@)->0))
    } else if flag_setting(l, "$zenith_qs_show_clock = "@) is Some {
        Some(ConfigEntryView::Flag(FlagKey::QsShowClock, flag_setting(l, "$zenith_qs_show_clock = "@)->0))
    } else {
        entry_part_7(l)
    }
}

#[verifier::opaque]
pub open spec fn entry_part_7(l: Seq<char>) -> Option<ConfigEntryView> {
    if flag_setting(l, "$zenith_qs_show_seconds = "@) is Some {
        Some(ConfigEntryView::Flag(FlagKey::QsShowSeconds, flag_setting(l, "$zenith_qs_show_seconds = "@)->0))
    } else if text_setting(l, "$zenith_qs_bar_style = "@) is Some {
        Some(ConfigEntryView::Text(TextKey::QsBarStyle, text_setting(l, "$zenith_qs_bar_style = "@)->0))
    } else if text_setting(l, "$zenith_qs_pill_bg = "@) is Some {
        Some(ConfigEntryView::Text(TextKey::QsPillBg, text_setting(l, "$zenith_qs_pill_bg = "@)->0))
    } else if text_setting(l, "$zenith_qs_pill_opacity = "@) is Some {
        Some(ConfigEntryView::Float(FloatKey::QsPillOpacity, text_setting(l, "$zenith_qs_pill_opacity = "@)->0))
    } else if int_setting(l, "$zenith_qs_pill_rounding = "@) is Some {
        Some(ConfigEntryView::Int(IntKey::QsPillRounding, int_setting(l, "$zenith_qs_pill_rounding = "@)->0))
    } else if int_setting(l, "$zenith_qs_module_spacing = "@) is Some {
        Some(ConfigEntryView::Int(IntKey::QsModuleSpacing, int_setting(l, "$zenith_qs_module_spacing = "@)->0))
    } else if text_setting(l, "$zenith_qs_brand_text = "@) is Some {
        Some(ConfigEntryView::Text(TextKey::QsBrandText, text_setting(l, "$zenith_qs_brand_text = "@)->0))
    } else if flag_setting(l, "$zenith_qs_show_brand = "@) is Some {
        Some(ConfigEntryView::Flag(FlagKey::QsShowBrand, flag_setting(l, "$zenith_qs_show_brand = "@)->0))
    } else {
        entry_part_8(l)
    }
}

#[verifier::opaque]
pub open spec fn entry_part_8(l: Seq<char>) -> Option<ConfigEntryView> {
    if text_setting(l, "$zenith_qs_status_text = "@) is Some {
        Some(ConfigEntryView::Text(TextKey::QsStatusText, text_setting(l, "$zenith_qs_status_text = "@)->0))
    } else if flag_setting(l, "$zenith_qs_show_status_badge = "@) is Some {
        Some(ConfigEntryView::Flag(FlagKey::QsShowStatusBadge, flag_setting(l, "$zenith_qs_show_status_badge = "@)->0))
    } else if flag_setting(l, "$zenith_qs_show_launcher_btn = "@) is Some {
        Some(ConfigEntryView::Flag(FlagKey::QsShowLauncherBtn, flag_setting(l, "$zenith_qs_show_launcher_btn = "@)->0))
    } else if flag_setting(l, "$zenith_qs_show_ram = "@) is Some {
        Some(ConfigEntryView::Flag(FlagKey::QsShowRam, flag_setting(l, "$zenith_qs_show_ram = "@)->0))
    } else if flag_setting(l, "$zenith_qs_show_media = "@) is Some {
        Some(ConfigEntryView::Flag(FlagKey::QsShowMedia, flag_setting(l, "$zenith_qs_show_media = "@)->0))
    } else if flag_setting(l, "$zenith_qs_show_power_btn = "@) is Some {
        Some(ConfigEntryView::Flag(FlagKey::QsShowPowerBtn, flag_setting(l, "$zenith_qs_show_power_btn = "@)->0))
    } else {
        None
    }
}

/// Reads what a line of `zenith.conf` sets.
pub fn config_entry(line: &str) -> (r: Option<ConfigEntry>)
    ensures
        match r {
            Some(e) => config_entry_of(line@) == Some(e@),
            None => config_entry_of(line@) is None,
        },
{
    let t = trim(line);
    let l = t.as_str();
    proof {
        reveal_strlit("monitor = ");
    }
    if let Some(rule) = strip_prefix(l, "monitor = ") {
        Some(ConfigEntry::Monitor(trim(rule.as_str())))
    } else {
        read_part_1(l)
    }
}

fn read_part_1(l: &str) -> (r: Option<ConfigEntry>)
    ensures
        match r {
            Some(e) => entry_part_1(l@) == Some(e@),
            None => entry_part_1(l@) is None,
        },
{
    proof {
        reveal(entry_part_1);
    }
    if let Some(v) = parse_i32(l, "$zenith_gaps_out = ") {
        Some(ConfigEntry::Int(IntKey::GapsOut, v))
    } else if let Some(v) = parse_i32(l, "$zenith_gaps_in = ") {
        Some(ConfigEntry::Int(IntKey::GapsIn, v))
    } else if let Some(v) = parse_i32(l, "$zenith_border_size = ") {
        Some(ConfigEntry::Int(IntKey::BorderSize, v))
    } else if let Some(v) = parse_i32(l, "$zenith_rounding = ") {
        Some(ConfigEntry::Int(IntKey::Rounding, v))
    } else if let Some(v) = parse_str(l, "$zenith_active_border_color = ") {
        Some(ConfigEntry::Text(TextKey::ActiveBorderColor, v))
    } else if let Some(v) = parse_str(l, "$zenith_active_opacity = ") {
        Some(ConfigEntry::Float(FloatKey::ActiveOpacity, v))
    } else if let Some(v) = parse_str(l, "$zenith_inactive_opacity = ") {
        Some(ConfigEntry::Float(FloatKey::InactiveOpacity, v))
    } else if let Some(v) = parse_bool(l, "$zenith_blur_enabled = ") {
        Some(ConfigEntry::Flag(FlagKey::BlurEnabled, v))
    } else {
        read_part_2(l)
    }
}

fn read_part_2(l: &str) -> (r: Option<ConfigEntry>)
    ensures
        match r {
            Some(e) => entry_part_2(l@) == Some(e@),
            None => entry_part_2(l@) is None,
        },
{
    proof {
        reveal(entry_part_2);
    }
    if let Some(v) = parse_i32(l, "$zenith_blur_size = ") {
        Some(ConfigEntry::Int(IntKey::BlurSize, v))
    } else if let Some(v) = parse_bool(l, "$zenith_shadow_enabled = ") {
        Some(ConfigEntry::Flag(FlagKey::ShadowEnabled, v))
    } else if let Some(v) = parse_bool(l, "$zenith_animations_enabled = ") {
        Some(ConfigEntry::Flag(FlagKey::AnimationsEnabled, v))
    } else if let Some(v) = parse_str(l, "$zenith_wb_pos = ") {
        Some(ConfigEntry::Text(TextKey::WaybarPosition, v))
    } else if let Some(v) = parse_i32(l, "$zenith_wb_height = ") {
        Some(ConfigEntry::Int(IntKey::WaybarHeight, v))
    } else if let Some(v) = parse_str(l, "$zenith_wb_bg = ") {
        Some(ConfigEntry::Text(TextKey::WaybarBgColor, v))
    } else if let Some(v) = parse_str(l, "$zenith_wb_opacity = ") {
        Some(ConfigEntry::Float(FloatKey::WaybarOpacity, v))
    } else if let Some(v) = parse_i32(l, "$zenith_wb_round = ") {
        Some(ConfigEntry::Int(IntKey::WaybarRounding, v))
    } else {
        read_part_3(l)
    }
}

fn read_part_3(l: &str) -> (r: Option<ConfigEntry>)
    ensures
        match r {
            Some(e) => entry_part_3(l@) == Some(e@),
            None => entry_part_3(l@) is None,
        },
{
    proof {
        reveal(entry_part_3);
    }
    if let Some(v) = parse_str(l, "$zenith_active_bar = ") {
        Some(ConfigEntry::Text(TextKey::ActiveBar, v))
    } else if let Some(v) = parse_str(l, "$zenith_launcher = ") {
        Some(ConfigEntry::Text(TextKey::DefaultLauncher, v))
    } else if let Some(v) = parse_str(l, "$zenith_terminal = ") {
        Some(ConfigEntry::Text(TextKey::DefaultTerminal, v))
    } else if let Some(v) = parse_str(l, "$zenith_shell = ") {
        Some(ConfigEntry::Text(TextKey::DefaultShell, v))
    } else if let Some(v) = parse_str(l, "$zenith_kitty_bg = ") {
        Some(ConfigEntry::Text(TextKey::KittyBg, v))
    } else if let Some(v) = parse_str(l, "$zenith_kitty_fg = ") {
        Some(ConfigEntry::Text(TextKey::KittyFg, v))
    } else if let Some(v) = parse_str(l, "$zenith_kitty_opacity = ") {
        Some(ConfigEntry::Float(FloatKey::KittyOpacity, v))
    } else if let Some(v) = parse_str(l, "$zenith_kitty_font = ") {
        Some(ConfigEntry::Float(FloatKey::KittyFontSize, v))
    } else {
        read_part_4(l)
    }
}

fn read_part_4(l: &str) -> (r: Option<ConfigEntry>)
    ensures
        match r {
            Some(e) => entry_part_4(l@) == Some(e@),
            None => entry_part_4(l@) is None,
        },
{
    proof {
        reveal(entry_part_4);
    }
    if let Some(v) = parse_str(l, "$zenith_rofi_bg = ") {
        Some(ConfigEntry::Text(TextKey::RofiBg, v))
    } else if let Some(v) = parse_str(l, "$zenith_rofi_fg = ") {
        Some(ConfigEntry::Text(TextKey::RofiFg, v))
    } else if let Some(v) = parse_str(l, "$zenith_rofi_opacity = ") {
        Some(ConfigEntry::Float(FloatKey::RofiOpacity, v))
    } else if let Some(v) = parse_i32(l, "$zenith_rofi_round = ") {
        Some(ConfigEntry::Int(IntKey::RofiRounding, v))
    } else if let Some(v) = parse_str(l, "$zenith_qs_bg = ") {
        Some(ConfigEntry::Text(TextKey::QsBg, v))
    } else if let Some(v) = parse_str(l, "$zenith_qs_accent = ") {
        Some(ConfigEntry::Text(TextKey::QsAccent, v))
    } else if let Some(v) = parse_str(l, "$zenith_qs_opacity = ") {
        Some(ConfigEntry::Float(FloatKey::QsOpacity, v))
    } else if let Some(v) = parse_i32(l, "$zenith_qs_height = ") {
        Some(ConfigEntry::Int(IntKey::QsHeight, v))
    } else {
        read_part_5(l)
    }
}

fn read_part_5(l: &str) -> (r: Option<ConfigEntry>)
    ensures
        match r {
            Some(e) => entry_part_5(l@) == Some(e@),
            None => entry_part_5(l@) is None,
        },
{
    proof {
        reveal(entry_part_5);
    }
    if let Some(v) = parse_str(l, "$zenith_qs_position = ") {
        Some(ConfigEntry::Text(TextKey::QsPosition, v))
    } else if let Some(v) = parse_i32(l, "$zenith_qs_rounding = ") {
        Some(ConfigEntry::Int(IntKey::QsRounding, v))
    } else if let Some(v) = parse_i32(l, "$zenith_qs_margin_h = ") {
        Some(ConfigEntry::Int(IntKey::QsMarginH, v))
    } else if let Some(v) = parse_i32(l, "$zenith_qs_margin_v = ") {
        Some(ConfigEntry::Int(IntKey::QsMarginV, v))
    } else if let Some(v) = parse_i32(l, "$zenith_qs_border_width = ") {
        Some(ConfigEntry::Int(IntKey::QsBorderWidth, v))
    } else if let Some(v) = parse_str(l, "$zenith_qs_border_color = ") {
        Some(ConfigEntry::Text(TextKey::QsBorderColor, v))
    } else if let Some(v) = parse_str(l, "$zenith_qs_text_color = ") {
        Some(ConfigEntry::Text(TextKey::QsTextColor, v))
    } else if let Some(v) = parse_i32(l, "$zenith_qs_font_size = ") {
        Some(ConfigEntry::Int(IntKey::QsFontSize, v))
    } else {
        read_part_6(l)
    }
}

fn read_part_6(l: &str) -> (r: Option<ConfigEntry>)
    ensures
        match r {
            Some(e) => entry_part_6(l@) == Some(e@),
            None => entry_part_6(l@) is None,
        },
{
    proof {
        reveal(entry_part_6);
    }
    if let Some(v) = parse_bool(l, "$zenith_qs_floating = ") {
        Some(ConfigEntry::Flag(FlagKey::QsFloating, v))
    } else if let Some(v) = parse_bool(l, "$zenith_qs_show_workspaces = ") {
        Some(ConfigEntry::Flag(FlagKey::QsShowWorkspaces, v))
    } else if let Some(v) = parse_bool(l, "$zenith_qs_show_cpu = ") {
        Some(ConfigEntry::Flag(FlagKey::QsShowCpu, v))
    } else if let Some(v) = parse_bool(l, "$zenith_qs_show_battery = ") {
        Some(ConfigEntry::Flag(FlagKey::QsShowBattery, v))
    } else if let Some(v) = parse_bool(l, "$zenith_qs_show_volume = ") {
        Some(ConfigEntry::Flag(FlagKey::QsShowVolume, v))
    } else if let Some(v) = parse_bool(l, "$zenith_qs_show_bluetooth = ") {
        Some(ConfigEntry::Flag(FlagKey::QsShowBluetooth, v))
    } else if let Some(v) = parse_bool(l, "$zenith_qs_show_network = ") {
        Some(ConfigEntry::Flag(FlagKey::QsShowNetwork, v))
    } else if let Some(v) = parse_bool(l, "$zenith_qs_show_clock = ") {
        Some(ConfigEntry::Flag(FlagKey::QsShowClock, v))
    } else {
        read_part_7(l)
    }
}

fn read_part_7(l: &str) -> (r: Option<ConfigEntry>)
    ensures
        match r {
            Some(e) => entry_part_7(l@) == Some(e@),
            None => entry_part_7(l@) is None,
        },
{
    proof {
        reveal(entry_part_7);
    }
    if let Some(v) = parse_bool(l, "$zenith_qs_show_seconds = ") {
        Some(ConfigEntry::Flag(FlagKey::QsShowSeconds, v))
    } else if let Some(v) = parse_str(l, "$zenith_qs_bar_style = ") {
        Some(ConfigEntry::Text(TextKey::QsBarStyle, v))
    } else if let Some(v) = parse_str(l, "$zenith_qs_pill_bg = ") {
        Some(ConfigEntry::Text(TextKey::QsPillBg, v))
    } else if let Some(v) = parse_str(l, "$zenith_qs_pill_opacity = ") {
        Some(ConfigEntry::Float(FloatKey::QsPillOpacity, v))
    } else if let Some(v) = parse_i32(l, "$zenith_qs_pill_rounding = ") {
        Some(ConfigEntry::Int(IntKey::QsPillRounding, v))
    } else if let Some(v) = parse_i32(l, "$zenith_qs_module_spacing = ") {
        Some(ConfigEntry::Int(IntKey::QsModuleSpacing, v))
    } else if let Some(v) = parse_str(l, "$zenith_qs_brand_text = ") {
        Some(ConfigEntry::Text(TextKey::QsBrandText, v))
    } else if let Some(v) = parse_bool(l, "$zenith_qs_show_brand = ") {
        Some(ConfigEntry::Flag(FlagKey::QsShowBrand, v))
    } else {
        read_part_8(l)
    }
}

fn read_part_8(l: &str) -> (r: Option<ConfigEntry>)
    ensures
        match r {
            Some(e) => entry_part_8(l@) == Some(e@),
            None => entry_part_8(l@) is None,
        },
{
    proof {
        reveal(entry_part_8);
    }
    if let Some(v) = parse_str(l, "$zenith_qs_status_text = ") {
        Some(ConfigEntry::Text(TextKey::QsStatusText, v))
    } else if let Some(v) = parse_bool(l, "$zenith_qs_show_status_badge = ") {
        Some(ConfigEntry::Flag(FlagKey::QsShowStatusBadge, v))
    } else if let Some(v) = parse_bool(l, "$zenith_qs_show_launcher_btn = ") {
        Some(ConfigEntry::Flag(FlagKey::QsShowLauncherBtn, v))
    } else if let Some(v) = parse_bool(l, "$zenith_qs_show_ram = ") {
        Some(ConfigEntry::Flag(FlagKey::QsShowRam, v))
    } else if let Some(v) = parse_bool(l, "$zenith_qs_show_media = ") {
        Some(ConfigEntry::Flag(FlagKey::QsShowMedia, v))
    } else if let Some(v) = parse_bool(l, "$zenith_qs_show_power_btn = ") {
        Some(ConfigEntry::Flag(FlagKey::QsShowPowerBtn, v))
    } else {
        None
    }
}


// ---------------------------------------------------------------------------
// Monitor rules.
// ---------------------------------------------------------------------------

/// The part of `s` before its first `,` (all of it when it has none).
pub open spec fn before_comma(s: Seq<char>) -> Seq<char>
    decreases s.len(),
{
    if s.len() == 0 {
        s
    } else if s[0] == ',' {
        Seq::empty()
    } else {
        seq![s[0]] + before_comma(s.drop_first())
    }
}

/// The monitor a rule is for: its first comma-separated field, trimmed.
pub open spec fn monitor_name(rule: Seq<char>) -> Seq<char> {
    trimmed(before_comma(rule))
}

pub open spec fn monitor_names(rules: Seq<Seq<char>>) -> Seq<Seq<char>> {
    rules.map_values(|r: Seq<char>| monitor_name(r))
}

/// The rules with only the last rule for each monitor kept, in their order.
pub open spec fn keep_last_rules(rules: Seq<Seq<char>>) -> Seq<Seq<char>>
    decreases rules.len(),
{
    if rules.len() == 0 {
        rules
    } else {
        let rest = keep_last_rules(rules.drop_first());
        if monitor_names(rules.drop_first()).contains(monitor_name(rules[0])) {
            rest
        } else {
            seq![rules[0]] + rest
        }
    }
}

/// The monitor a rule is for.
pub fn rule_monitor(rule: &str) -> (r: String)
    ensures
        r@ == monitor_name(rule@),
{
    let v = to_chars(rule);
    let mut head = String::new();
    let mut i: usize = 0;
    proof {
        assert(rule@.skip(0) =~= rule@);
    }
    while i < v.len() && v[i] != ','
        invariant
            v@ == rule@,
            i <= v@.len(),
            head@ + before_comma(rule@.skip(i as int)) == before_comma(rule@),
        decreases v.len() - i,
    {
        proof {
            let t = rule@.skip(i as int);
            assert(t[0] == v@[i as int]);
            assert(t.drop_first() =~= rule@.skip(i + 1));
            assert(head@.push(v@[i as int]) + before_comma(rule@.skip(i + 1)) =~= head@ + before_comma(t));
        }
        crate::text::push_char(&mut head, v[i]);
        i = i + 1;
    }
    proof {
        let t = rule@.skip(i as int);
        if i < v@.len() {
            assert(t[0] == ',');
        }
        assert(before_comma(t) =~= Seq::<char>::empty());
        assert(head@ =~= before_comma(rule@));
    }
    trim(head.as_str())
}

/// The monitor rules with only the last rule for each monitor kept (a later
/// rule for a monitor replaces an earlier one), in their order.
pub fn dedup_monitor_rules(rules: &Vec<String>) -> (r: Vec<String>)
    ensures
        views(r@) == keep_last_rules(views(rules@)),
{
    let mut names: Vec<String> = Vec::new();
    let mut i: usize = 0;
    while i < rules.len()
        invariant
            i <= rules@.len(),
            names@.len() == i,
            forall|k: int| 0 <= k < i ==> (#[trigger] names@[k])@ == monitor_name(rules@[k]@),
        decreases rules.len() - i,
    {
        names.push(rule_monitor(rules[i].as_str()));
        i = i + 1;
    }
    let ghost all = views(rules@);
    let mut r: Vec<String> = Vec::new();
    let mut i: usize = 0;
    proof {
        assert(all.skip(0) =~= all);
        assert(views(r@) + keep_last_rules(all.skip(0)) =~= keep_last_rules(all));
    }
    while i < rules.len()
        invariant
            all == views(rules@),
            i <= rules@.len(),
            names@.len() == rules@.len(),
            forall|k: int| 0 <= k < rules@.len() ==> (#[trigger] names@[k])@ == monitor_name(rules@[k]@),
            views(r@) + keep_last_rules(all.skip(i as int)) == keep_last_rules(all),
        decreases rules.len() - i,
    {
        let mut later = false;
        let mut j: usize = i + 1;
        while j < rules.len()
            invariant
                i < j <= rules@.len(),
                names@.len() == rules@.len(),
                later == exists|k: int| i < k < j && (#[trigger] names@[k])@ == names@[i as int]@,
            decreases rules.len() - j,
        {
            if str_eq(names[j].as_str(), names[i].as_str()) {
                later = true;
            }
            j = j + 1;
        }
        let ghost t = all.skip(i as int);
        proof {
            assert(t[0] == rules@[i as int]@);
            assert(t.drop_first() =~= all.skip(i + 1));
            let tn = monitor_names(t.drop_first());
            if later {
                let k = choose|k: int| i < k < rules@.len() && (#[trigger] names@[k])@ == names@[i as int]@;
                assert(tn[k - i - 1] == monitor_name(rules@[k]@));
                assert(tn.contains(monitor_name(t[0])));
            } else if tn.contains(monitor_name(t[0])) {
                let m = choose|m: int| 0 <= m < tn.len() && tn[m] == monitor_name(t[0]);
                assert(names@[i + 1 + m]@ == tn[m]);
                assert(false);
            }
        }
        if !later {
            let ghost before = r@;
            r.push(copy_str(rules[i].as_str()));
            proof {
                assert(views(r@) =~= views(before).push(rules@[i as int]@));
                assert(views(r@) + keep_last_rules(t.drop_first()) =~= views(before) + keep_last_rules(t));
            }
        }
        i = i + 1;
    }
    proof {
        assert(all.skip(rules@.len() as int) =~= Seq::<Seq<char>>::empty());
        assert(views(r@) + Seq::<Seq<char>>::empty() =~= views(r@));
    }
    r
}

/// Every kept rule is one of the rules.
pub proof fn lemma_keep_last_from(rules: Seq<Seq<char>>)
    ensures
        forall|x: Seq<char>| keep_last_rules(rules).contains(x) ==> rules.contains(x),
    decreases rules.len(),
{
    if rules.len() > 0 {
        lemma_keep_last_from(rules.drop_first());
        let rest = keep_last_rules(rules.drop_first());
        assert forall|x: Seq<char>| keep_last_rules(rules).contains(x) implies rules.contains(x) by {
            let k = choose|k: int| 0 <= k < keep_last_rules(rules).len() && keep_last_rules(rules)[k] == x;
            if !monitor_names(rules.drop_first()).contains(monitor_name(rules[0])) && k == 0 {
                assert(rules[0] == x);
            } else {
                let kk = if monitor_names(rules.drop_first()).contains(monitor_name(rules[0])) { k } else { k - 1 };
                assert(rest[kk] == x);
                assert(rest.contains(x));
                assert(rules.drop_first().contains(x));
                let m = choose|m: int| 0 <= m < rules.drop_first().len() && rules.drop_first()[m] == x;
                assert(rules[m + 1] == x);
            }
        }
    }
}

/// After deduplication each monitor has at most one rule, and every monitor
/// that had a rule still has one.
pub proof fn law_monitor_rules_dedup(rules: Seq<Seq<char>>)
    ensures
        forall|a: int, b: int|
            0 <= a < b < keep_last_rules(rules).len() ==> monitor_name(#[trigger] keep_last_rules(rules)[a])
                != monitor_name(#[trigger] keep_last_rules(rules)[b]),
        forall|k: int| 0 <= k < rules.len() ==> monitor_names(keep_last_rules(rules)).contains(#[trigger] monitor_name(rules[k])),
    decreases rules.len(),
{
    if rules.len() > 0 {
        let tail = rules.drop_first();
        law_monitor_rules_dedup(tail);
        lemma_keep_last_from(tail);
        let rest = keep_last_rules(tail);
        let r = keep_last_rules(rules);
        let n0 = monitor_name(rules[0]);
        if monitor_names(tail).contains(n0) {
            assert(r == rest);
            assert forall|k: int| 0 <= k < rules.len() implies monitor_names(r).contains(#[trigger] monitor_name(rules[k])) by {
                if k == 0 {
                    let m = choose|m: int| 0 <= m < monitor_names(tail).len() && monitor_names(tail)[m] == n0;
                    assert(monitor_name(tail[m]) == n0);
                    assert(monitor_names(rest).contains(monitor_name(tail[m])));
                } else {
                    assert(tail[k - 1] == rules[k]);
                }
            }
        } else {
            assert(r == seq![rules[0]] + rest);
            assert forall|a: int, b: int| 0 <= a < b < r.len() implies monitor_name(#[trigger] r[a]) != monitor_name(
                #[trigger] r[b],
            ) by {
                if a == 0 {
                    assert(r[b] == rest[b - 1]);
                    assert(rest.contains(r[b]));
                    assert(tail.contains(r[b]));
                    let m = choose|m: int| 0 <= m < tail.len() && tail[m] == r[b];
                    assert(monitor_names(tail)[m] == monitor_name(r[b]));
                } else {
                    assert(r[a] == rest[a - 1] && r[b] == rest[b - 1]);
                }
            }
            assert forall|k: int| 0 <= k < rules.len() implies monitor_names(r).contains(#[trigger] monitor_name(rules[k])) by {
                if k == 0 {
                    assert(monitor_names(r)[0] == n0);
                } else {
                    assert(tail[k - 1] == rules[k]);
                    let m = choose|m: int| 0 <= m < monitor_names(rest).len() && monitor_names(rest)[m] == monitor_name(tail[k - 1]);
                    assert(monitor_names(r)[m + 1] == monitor_names(rest)[m]);
                }
            }
        }
    }
}

/// The launcher command for the `$menu` variable: wofi's when wofi is the
/// chosen launcher, rofi's otherwise.
pub fn launcher_command(launcher: &str) -> (r: &'static str)
    ensures
        r@ == if launcher@ == "wofi"@ { "wofi --show drun"@ } else { "rofi -show drun"@ },
{
    if str_eq(launcher, "wofi") {
        "wofi --show drun"
    } else {
        "rofi -show drun"
    }
}

/// The `monitor = <rule>` lines, one per rule.
pub open spec fn monitor_lines_of(rules: Seq<Seq<char>>) -> Seq<char>
    decreases rules.len(),
{
    if rules.len() == 0 {
        Seq::empty()
    } else {
        monitor_lines_of(rules.drop_last()) + "monitor = "@ + rules.last() + "\n"@
    }
}

/// Writes the monitor rules as `monitor = <rule>` lines.
pub fn monitor_lines(rules: &Vec<String>) -> (out: String)
    ensures
        out@ == monitor_lines_of(views(rules@)),
{
    let mut out = String::new();
    let mut i: usize = 0;
    while i < rules.len()
        invariant
            i <= rules@.len(),
            out@ == monitor_lines_of(views(rules@).take(i as int)),
        decreases rules.len() - i,
    {
        out.append("monitor = ");
        out.append(rules[i].as_str());
        out.append("\n");
        proof {
            let t = views(rules@).take(i + 1);
            assert(t.drop_last() =~= views(rules@).take(i as int));
        }
        i = i + 1;
    }
    proof {
        assert(views(rules@).take(rules@.len() as int) =~= views(rules@));
    }
    out
}


// ---------------------------------------------------------------------------
// Writing the settings file.
// ---------------------------------------------------------------------------

/// How `{}` prints a truth value.
#[verifier::opaque]
pub open spec fn flag_text(b: bool) -> Seq<char> {
    if b { "true"@ } else { "false"@ }
}

fn push_flag(out: &mut String, b: bool)
    ensures
        final(out)@ == old(out)@ + flag_text(b),
{
    proof {
        reveal(flag_text);
    }
    if b {
        out.append("true");
    } else {
        out.append("false");
    }
}

pub open spec fn launcher_of(launcher: Seq<char>) -> Seq<char> {
    if launcher == "wofi"@ { "wofi --show drun"@ } else { "rofi -show drun"@ }
}

/// The start of a `zenith.conf` line for each setting of this kind.
pub open spec fn int_key_prefix(k: IntKey) -> Seq<char> {
    match k {
        IntKey::GapsOut => "$zenith_gaps_out = "@,
        IntKey::GapsIn => "$zenith_gaps_in = "@,
        IntKey::BorderSize => "$zenith_border_size = "@,
        IntKey::Rounding => "$zenith_rounding = "@,
        IntKey::BlurSize => "$zenith_blur_size = "@,
        IntKey::WaybarHeight => "$zenith_wb_height = "@,
        IntKey::WaybarRounding => "$zenith_wb_round = "@,
        IntKey::RofiRounding => "$zenith_rofi_round = "@,
        IntKey::QsHeight => "$zenith_qs_height = "@,
        IntKey::QsRounding => "$zenith_qs_rounding = "@,
        IntKey::QsMarginH => "$zenith_qs_margin_h = "@,
        IntKey::QsMarginV => "$zenith_qs_margin_v = "@,
        IntKey::QsBorderWidth => "$zenith_qs_border_width = "@,
        IntKey::QsFontSize => "$zenith_qs_font_size = "@,
        IntKey::QsPillRounding => "$zenith_qs_pill_rounding = "@,
        IntKey::QsModuleSpacing => "$zenith_qs_module_spacing = "@,
    }
}

/// The start of a `zenith.conf` line for each setting of this kind.
pub open spec fn text_key_prefix(k: TextKey) -> Seq<char> {
    match k {
        TextKey::ActiveBorderColor => "$zenith_active_border_color = "@,
        TextKey::WaybarPosition => "$zenith_wb_pos = "@,
        TextKey::WaybarBgColor => "$zenith_wb_bg = "@,
        TextKey::ActiveBar => "$zenith_active_bar = "@,
        TextKey::DefaultLauncher => "$zenith_launcher = "@,
        TextKey::DefaultTerminal => "$zenith_terminal = "@,
        TextKey::DefaultShell => "$zenith_shell = "@,
        TextKey::KittyBg => "$zenith_kitty_bg = "@,
        TextKey::KittyFg => "$zenith_kitty_fg = "@,
        TextKey::RofiBg => "$zenith_rofi_bg = "@,
        TextKey::RofiFg => "$zenith_rofi_fg = "@,
        TextKey::QsBg => "$zenith_qs_bg = "@,
        TextKey::QsAccent => "$zenith_qs_accent = "@,
        TextKey::QsPosition => "$zenith_qs_position = "@,
        TextKey::QsBorderColor => "$zenith_qs_border_color = "@,
        TextKey::QsTextColor => "$zenith_qs_text_color = "@,
        TextKey::QsBarStyle => "$zenith_qs_bar_style = "@,
        TextKey::QsPillBg => "$zenith_qs_pill_bg = "@,
        TextKey::QsBrandText => "$zenith_qs_brand_text = "@,
        TextKey::QsStatusText => "$zenith_qs_status_text = "@,
    }
}

/// The start of a `zenith.conf` line for each setting of this kind.
pub open spec fn flag_key_prefix(k: FlagKey) -> Seq<char> {
    match k {
        FlagKey::BlurEnabled => "$zenith_blur_enabled = "@,
        FlagKey::ShadowEnabled => "$zenith_shadow_enabled = "@,
        FlagKey::AnimationsEnabled => "$zenith_animations_enabled = "@,
        FlagKey::QsFloating => "$zenith_qs_floating = "@,
        FlagKey::QsShowWorkspaces => "$zenith_qs_show_workspaces = "@,
        FlagKey::QsShowCpu => "$zenith_qs_show_cpu = "@,
        FlagKey::QsShowBattery => "$zenith_qs_show_battery = "@,
        FlagKey::QsShowVolume => "$zenith_qs_show_volume = "@,
        FlagKey::QsShowBluetooth => "$zenith_qs_show_bluetooth = "@,
        FlagKey::QsShowNetwork => "$zenith_qs_show_network = "@,
        FlagKey::QsShowClock => "$zenith_qs_show_clock = "@,
        FlagKey::QsShowSeconds => "$zenith_qs_show_seconds = "@,
        FlagKey::QsShowBrand => "$zenith_qs_show_brand = "@,
        FlagKey::QsShowStatusBadge => "$zenith_qs_show_status_badge = "@,
        FlagKey::QsShowLauncherBtn => "$zenith_qs_show_launcher_btn = "@,
        FlagKey::QsShowRam => "$zenith_qs_show_ram = "@,
        FlagKey::QsShowMedia => "$zenith_qs_show_media = "@,
        FlagKey::QsShowPowerBtn => "$zenith_qs_show_power_btn = "@,
    }
}

/// The start of a `zenith.conf` line for each setting of this kind.
pub open spec fn float_key_prefix(k: FloatKey) -> Seq<char> {
    match k {
        FloatKey::ActiveOpacity => "$zenith_active_opacity = "@,
        FloatKey::InactiveOpacity => "$zenith_inactive_opacity = "@,
        FloatKey::WaybarOpacity => "$zenith_wb_opacity = "@,
        FloatKey::KittyOpacity => "$zenith_kitty_opacity = "@,
        FloatKey::KittyFontSize => "$zenith_kitty_font = "@,
        FloatKey::RofiOpacity => "$zenith_rofi_opacity = "@,
        FloatKey::QsOpacity => "$zenith_qs_opacity = "@,
        FloatKey::QsPillOpacity => "$zenith_qs_pill_opacity = "@,
    }
}

/// The line `zenith.conf` holds for an entry.
pub open spec fn entry_line(e: ConfigEntryView) -> Seq<char> {
    match e {
        ConfigEntryView::Monitor(r) => "monitor = "@ + r,
        ConfigEntryView::Int(k, v) => int_key_prefix(k) + dec_signed_padded(v as int, 0),
        ConfigEntryView::Text(k, t) => text_key_prefix(k) + t,
        ConfigEntryView::Flag(k, b) => flag_key_prefix(k) + flag_text(b),
        ConfigEntryView::Float(k, t) => float_key_prefix(k) + t,
    }
}

/// The values `zenith.conf` is written from; the fractional ones already
/// formatted (`{:.2}`, the kitty font size `{:.1}`).
pub struct ConfigFile {
    pub gaps_out: i32,
    pub gaps_in: i32,
    pub border_size: i32,
    pub rounding: i32,
    pub active_border_color: String,
    pub active_opacity: String,
    pub inactive_opacity: String,
    pub blur_enabled: bool,
    pub blur_size: i32,
    pub shadow_enabled: bool,
    pub animations_enabled: bool,
    pub waybar_position: String,
    pub waybar_height: i32,
    pub waybar_bg_color: String,
    pub waybar_opacity: String,
    pub waybar_rounding: i32,
    pub active_bar: String,
    pub default_launcher: String,
    pub default_terminal: String,
    pub default_shell: String,
    pub kitty_bg: String,
    pub kitty_fg: String,
    pub kitty_opacity: String,
    pub kitty_font_size: String,
    pub rofi_bg: String,
    pub rofi_fg: String,
    pub rofi_opacity: String,
    pub rofi_rounding: i32,
    pub qs_bg: String,
    pub qs_accent: String,
    pub qs_opacity: String,
    pub qs_height: i32,
    pub qs_position: String,
    pub qs_rounding: i32,
    pub qs_margin_h: i32,
    pub qs_margin_v: i32,
    pub qs_border_width: i32,
    pub qs_border_color: String,
    pub qs_text_color: String,
    pub qs_font_size: i32,
    pub qs_floating: bool,
    pub qs_show_workspaces: bool,
    pub qs_show_cpu: bool,
    pub qs_show_battery: bool,
    pub qs_show_volume: bool,
    pub qs_show_bluetooth: bool,
    pub qs_show_network: bool,
    pub qs_show_clock: bool,
    pub qs_show_seconds: bool,
    pub qs_bar_style: String,
    pub qs_pill_bg: String,
    pub qs_pill_opacity: String,
    pub qs_pill_rounding: i32,
    pub qs_module_spacing: i32,
    pub qs_brand_text: String,
    pub qs_show_brand: bool,
    pub qs_status_text: String,
    pub qs_show_status_badge: bool,
    pub qs_show_launcher_btn: bool,
    pub qs_show_ram: bool,
    pub qs_show_media: bool,
    pub qs_show_power_btn: bool,
    pub monitor_rules: Vec<String>,
}

/// The settings of a configuration in the order `zenith.conf` lists them.
pub open spec fn settings_of(c: ConfigFile) -> Seq<ConfigEntryView> {
    seq![
        ConfigEntryView::Int(IntKey::GapsOut, c.gaps_out),
        ConfigEntryView::Int(IntKey::GapsIn, c.gaps_in),
        ConfigEntryView::Int(IntKey::BorderSize, c.border_size),
        ConfigEntryView::Int(IntKey::Rounding, c.rounding),
        ConfigEntryView::Text(TextKey::ActiveBorderColor, c.active_border_color@),
        ConfigEntryView::Float(FloatKey::ActiveOpacity, c.active_opacity@),
        ConfigEntryView::Float(FloatKey::InactiveOpacity, c.inactive_opacity@),
        ConfigEntryView::Flag(FlagKey::BlurEnabled, c.blur_enabled),
        ConfigEntryView::Int(IntKey::BlurSize, c.blur_size),
        ConfigEntryView::Flag(FlagKey::ShadowEnabled, c.shadow_enabled),
        ConfigEntryView::Flag(FlagKey::AnimationsEnabled, c.animations_enabled),
        ConfigEntryView::Text(TextKey::WaybarPosition, c.waybar_position@),
        ConfigEntryView::Int(IntKey::WaybarHeight, c.waybar_height),
        ConfigEntryView::Text(TextKey::WaybarBgColor, c.waybar_bg_color@),
        ConfigEntryView::Float(FloatKey::WaybarOpacity, c.waybar_opacity@),
        ConfigEntryView::Int(IntKey::WaybarRounding, c.waybar_rounding),
        ConfigEntryView::Text(TextKey::ActiveBar, c.active_bar@),
        ConfigEntryView::Text(TextKey::DefaultLauncher, c.default_launcher@),
        ConfigEntryView::Text(TextKey::DefaultTerminal, c.default_terminal@),
        ConfigEntryView::Text(TextKey::DefaultShell, c.default_shell@),
        ConfigEntryView::Text(TextKey::KittyBg, c.kitty_bg@),
        ConfigEntryView::Text(TextKey::KittyFg, c.kitty_fg@),
        ConfigEntryView::Float(FloatKey::KittyOpacity, c.kitty_opacity@),
        ConfigEntryView::Float(FloatKey::KittyFontSize, c.kitty_font_size@),
        ConfigEntryView::Text(TextKey::RofiBg, c.rofi_bg@),
        ConfigEntryView::Text(TextKey::RofiFg, c.rofi_fg@),
        ConfigEntryView::Float(FloatKey::RofiOpacity, c.rofi_opacity@),
        ConfigEntryView::Int(IntKey::RofiRounding, c.rofi_rounding),
        ConfigEntryView::Text(TextKey::QsBg, c.qs_bg@),
        ConfigEntryView::Text(TextKey::QsAccent, c.qs_accent@),
        ConfigEntryView::Float(FloatKey::QsOpacity, c.qs_opacity@),
        ConfigEntryView::Int(IntKey::QsHeight, c.qs_height),
        ConfigEntryView::Text(TextKey::QsPosition, c.qs_position@),
        ConfigEntryView::Int(IntKey::QsRounding, c.qs_rounding),
        ConfigEntryView::Int(IntKey::QsMarginH, c.qs_margin_h),
        ConfigEntryView::Int(IntKey::QsMarginV, c.qs_margin_v),
        ConfigEntryView::Int(IntKey::QsBorderWidth, c.qs_border_width),
        ConfigEntryView::Text(TextKey::QsBorderColor, c.qs_border_color@),
        ConfigEntryView::Text(TextKey::QsTextColor, c.qs_text_color@),
        ConfigEntryView::Int(IntKey::QsFontSize, c.qs_font_size),
        ConfigEntryView::Flag(FlagKey::QsFloating, c.qs_floating),
        ConfigEntryView::Flag(FlagKey::QsShowWorkspaces, c.qs_show_workspaces),
        ConfigEntryView::Flag(FlagKey::QsShowCpu, c.qs_show_cpu),
        ConfigEntryView::Flag(FlagKey::QsShowBattery, c.qs_show_battery),
        ConfigEntryView::Flag(FlagKey::QsShowVolume, c.qs_show_volume),
        ConfigEntryView::Flag(FlagKey::QsShowBluetooth, c.qs_show_bluetooth),
        ConfigEntryView::Flag(FlagKey::QsShowNetwork, c.qs_show_network),
        ConfigEntryView::Flag(FlagKey::QsShowClock, c.qs_show_clock),
        ConfigEntryView::Flag(FlagKey::QsShowSeconds, c.qs_show_seconds),
        ConfigEntryView::Text(TextKey::QsBarStyle, c.qs_bar_style@),
        ConfigEntryView::Text(TextKey::QsPillBg, c.qs_pill_bg@),
        ConfigEntryView::Float(FloatKey::QsPillOpacity, c.qs_pill_opacity@),
        ConfigEntryView::Int(IntKey::QsPillRounding, c.qs_pill_rounding),
        ConfigEntryView::Int(IntKey::QsModuleSpacing, c.qs_module_spacing),
        ConfigEntryView::Text(TextKey::QsBrandText, c.qs_brand_text@),
        ConfigEntryView::Flag(FlagKey::QsShowBrand, c.qs_show_brand),
        ConfigEntryView::Text(TextKey::QsStatusText, c.qs_status_text@),
        ConfigEntryView::Flag(FlagKey::QsShowStatusBadge, c.qs_show_status_badge),
        ConfigEntryView::Flag(FlagKey::QsShowLauncherBtn, c.qs_show_launcher_btn),
        ConfigEntryView::Flag(FlagKey::QsShowRam, c.qs_show_ram),
        ConfigEntryView::Flag(FlagKey::QsShowMedia, c.qs_show_media),
        ConfigEntryView::Flag(FlagKey::QsShowPowerBtn, c.qs_show_power_btn),
    ]
}

/// The lines after the settings: the terminal and menu variables and the
/// Hyprland sections that read the settings.
pub open spec fn closing_lines(c: ConfigFile) -> Seq<Seq<char>> {
    seq![
        Seq::<char>::empty(),
        "$terminal = "@ + c.default_terminal@,
        "$menu = "@ + launcher_of(c.default_launcher@),
        Seq::<char>::empty(),
        "general {"@,
        "gaps_out = $zenith_gaps_out"@,
        "gaps_in = $zenith_gaps_in"@,
        "border_size = $zenith_border_size"@,
        "col.active_border = rgb($zenith_active_border_color)"@,
        "}"@,
        Seq::<char>::empty(),
        "decoration {"@,
        "rounding = $zenith_rounding"@,
        "active_opacity = $zenith_active_opacity"@,
        "inactive_opacity = $zenith_inactive_opacity"@,
        "shadow {"@,
        "enabled = $zenith_shadow_enabled"@,
        "}"@,
        "blur {"@,
        "enabled = $zenith_blur_enabled"@,
        "size = $zenith_blur_size"@,
        "}"@,
        "}"@,
        Seq::<char>::empty(),
        "animations {"@,
        "enabled = $zenith_animations_enabled"@,
        "}"@,
        Seq::<char>::empty(),
    ]
}

/// The lines of `zenith.conf`: a header, one line per monitor rule, an empty
/// line, one `$zenith_<name> = <value>` line per setting, and the closing
/// lines.
pub open spec fn file_lines(c: ConfigFile) -> Seq<Seq<char>> {
    seq!["# Generated by Zenith Control"@] + views(c.monitor_rules@).map_values(|r: Seq<char>| "monitor = "@ + r) + seq![
        Seq::<char>::empty(),
    ] + settings_of(c).map_values(|e: ConfigEntryView| entry_line(e)) + closing_lines(c)
}

/// The text of `zenith.conf`: its lines, separated by line breaks.
pub open spec fn config_text_of(c: ConfigFile) -> Seq<char> {
    join(file_lines(c), "\n"@)
}

pub(crate) fn push_line(lines: &mut Vec<String>, line: String)
    ensures
        views(final(lines)@) == views(old(lines)@).push(line@),
{
    let ghost before = lines@;
    lines.push(line);
    proof {
        assert(views(lines@) =~= views(before).push(line@));
    }
}

fn int_line(prefix: &str, v: i32) -> (r: String)
    ensures
        r@ == prefix@ + dec_signed_padded(v as int, 0),
{
    let mut r = copy_str(prefix);
    push_signed_padded(&mut r, v as i64, 0);
    r
}

pub(crate) fn text_line(prefix: &str, v: &str) -> (r: String)
    ensures
        r@ == prefix@ + v@,
{
    let mut r = copy_str(prefix);
    r.append(v);
    r
}

fn flag_line(prefix: &str, b: bool) -> (r: String)
    ensures
        r@ == prefix@ + flag_text(b),
{
    let mut r = copy_str(prefix);
    push_flag(&mut r, b);
    r
}

fn push_settings_1(lines: &mut Vec<String>, c: &ConfigFile)
    ensures
        views(final(lines)@) == views(old(lines)@) + settings_of(*c).subrange(0, 8).map_values(|e: ConfigEntryView| entry_line(e)),
{
    let ghost start = views(lines@);
    push_line(lines, int_line("$zenith_gaps_out = ", c.gaps_out));
    push_line(lines, int_line("$zenith_gaps_in = ", c.gaps_in));
    push_line(lines, int_line("$zenith_border_size = ", c.border_size));
    push_line(lines, int_line("$zenith_rounding = ", c.rounding));
    push_line(lines, text_line("$zenith_active_border_color = ", c.active_border_color.as_str()));
    push_line(lines, text_line("$zenith_active_opacity = ", c.active_opacity.as_str()));
    push_line(lines, text_line("$zenith_inactive_opacity = ", c.inactive_opacity.as_str()));
    push_line(lines, flag_line("$zenith_blur_enabled = ", c.blur_enabled));
    proof {
        assert(views(lines@) =~= start + settings_of(*c).subrange(0, 8).map_values(|e: ConfigEntryView| entry_line(e)));
    }
}

fn push_settings_2(lines: &mut Vec<String>, c: &ConfigFile)
    ensures
        views(final(lines)@) == views(old(lines)@) + settings_of(*c).subrange(8, 16).map_values(|e: ConfigEntryView| entry_line(e)),
{
    let ghost start = views(lines@);
    push_line(lines, int_line("$zenith_blur_size = ", c.blur_size));
    push_line(lines, flag_line("$zenith_shadow_enabled = ", c.shadow_enabled));
    push_line(lines, flag_line("$zenith_animations_enabled = ", c.animations_enabled));
    push_line(lines, text_line("$zenith_wb_pos = ", c.waybar_position.as_str()));
    push_line(lines, int_line("$zenith_wb_height = ", c.waybar_height));
    push_line(lines, text_line("$zenith_wb_bg = ", c.waybar_bg_color.as_str()));
    push_line(lines, text_line("$zenith_wb_opacity = ", c.waybar_opacity.as_str()));
    push_line(lines, int_line("$zenith_wb_round = ", c.waybar_rounding));
    proof {
        assert(views(lines@) =~= start + settings_of(*c).subrange(8, 16).map_values(|e: ConfigEntryView| entry_line(e)));
    }
}

fn push_settings_3(lines: &mut Vec<String>, c: &ConfigFile)
    ensures
        views(final(lines)@) == views(old(lines)@) + settings_of(*c).subrange(16, 24).map_values(|e: ConfigEntryView| entry_line(e)),
{
    let ghost start = views(lines@);
    push_line(lines, text_line("$zenith_active_bar = ", c.active_bar.as_str()));
    push_line(lines, text_line("$zenith_launcher = ", c.default_launcher.as_str()));
    push_line(lines, text_line("$zenith_terminal = ", c.default_terminal.as_str()));
    push_line(lines, text_line("$zenith_shell = ", c.default_shell.as_str()));
    push_line(lines, text_line("$zenith_kitty_bg = ", c.kitty_bg.as_str()));
    push_line(lines, text_line("$zenith_kitty_fg = ", c.kitty_fg.as_str()));
    push_line(lines, text_line("$zenith_kitty_opacity = ", c.kitty_opacity.as_str()));
    push_line(lines, text_line("$zenith_kitty_font = ", c.kitty_font_size.as_str()));
    proof {
        assert(views(lines@) =~= start + settings_of(*c).subrange(16, 24).map_values(|e: ConfigEntryView| entry_line(e)));
    }
}

fn push_settings_4(lines: &mut Vec<String>, c: &ConfigFile)
    ensures
        views(final(lines)@) == views(old(lines)@) + settings_of(*c).subrange(24, 32).map_values(|e: ConfigEntryView| entry_line(e)),
{
    let ghost start = views(lines@);
    push_line(lines, text_line("$zenith_rofi_bg = ", c.rofi_bg.as_str()));
    push_line(lines, text_line("$zenith_rofi_fg = ", c.rofi_fg.as_str()));
    push_line(lines, text_line("$zenith_rofi_opacity = ", c.rofi_opacity.as_str()));
    push_line(lines, int_line("$zenith_rofi_round = ", c.rofi_rounding));
    push_line(lines, text_line("$zenith_qs_bg = ", c.qs_bg.as_str()));
    push_line(lines, text_line("$zenith_qs_accent = ", c.qs_accent.as_str()));
    push_line(lines, text_line("$zenith_qs_opacity = ", c.qs_opacity.as_str()));
    push_line(lines, int_line("$zenith_qs_height = ", c.qs_height));
    proof {
        assert(views(lines@) =~= start + settings_of(*c).subrange(24, 32).map_values(|e: ConfigEntryView| entry_line(e)));
    }
}

fn push_settings_5(lines: &mut Vec<String>, c: &ConfigFile)
    ensures
        views(final(lines)@) == views(old(lines)@) + settings_of(*c).subrange(32, 40).map_values(|e: ConfigEntryView| entry_line(e)),
{
    let ghost start = views(lines@);
    push_line(lines, text_line("$zenith_qs_position = ", c.qs_position.as_str()));
    push_line(lines, int_line("$zenith_qs_rounding = ", c.qs_rounding));
    push_line(lines, int_line("$zenith_qs_margin_h = ", c.qs_margin_h));
    push_line(lines, int_line("$zenith_qs_margin_v = ", c.qs_margin_v));
    push_line(lines, int_line("$zenith_qs_border_width = ", c.qs_border_width));
    push_line(lines, text_line("$zenith_qs_border_color = ", c.qs_border_color.as_str()));
    push_line(lines, text_line("$zenith_qs_text_color = ", c.qs_text_color.as_str()));
    push_line(lines, int_line("$zenith_qs_font_size = ", c.qs_font_size));
    proof {
        assert(views(lines@) =~= start + settings_of(*c).subrange(32, 40).map_values(|e: ConfigEntryView| entry_line(e)));
    }
}

fn push_settings_6(lines: &mut Vec<String>, c: &ConfigFile)
    ensures
        views(final(lines)@) == views(old(lines)@) + settings_of(*c).subrange(40, 48).map_values(|e: ConfigEntryView| entry_line(e)),
{
    let ghost start = views(lines@);
    push_line(lines, flag_line("$zenith_qs_floating = ", c.qs_floating));
    push_line(lines, flag_line("$zenith_qs_show_workspaces = ", c.qs_show_workspaces));
    push_line(lines, flag_line("$zenith_qs_show_cpu = ", c.qs_show_cpu));
    push_line(lines, flag_line("$zenith_qs_show_battery = ", c.qs_show_battery));
    push_line(lines, flag_line("$zenith_qs_show_volume = ", c.qs_show_volume));
    push_line(lines, flag_line("$zenith_qs_show_bluetooth = ", c.qs_show_bluetooth));
    push_line(lines, flag_line("$zenith_qs_show_network = ", c.qs_show_network));
    push_line(lines, flag_line("$zenith_qs_show_clock = ", c.qs_show_clock));
    proof {
        assert(views(lines@) =~= start + settings_of(*c).subrange(40, 48).map_values(|e: ConfigEntryView| entry_line(e)));
    }
}

fn push_settings_7(lines: &mut Vec<String>, c: &ConfigFile)
    ensures
        views(final(lines)@) == views(old(lines)@) + settings_of(*c).subrange(48, 56).map_values(|e: ConfigEntryView| entry_line(e)),
{
    let ghost start = views(lines@);
    push_line(lines, flag_line("$zenith_qs_show_seconds = ", c.qs_show_seconds));
    push_line(lines, text_line("$zenith_qs_bar_style = ", c.qs_bar_style.as_str()));
    push_line(lines, text_line("$zenith_qs_pill_bg = ", c.qs_pill_bg.as_str()));
    push_line(lines, text_line("$zenith_qs_pill_opacity = ", c.qs_pill_opacity.as_str()));
    push_line(lines, int_line("$zenith_qs_pill_rounding = ", c.qs_pill_rounding));
    push_line(lines, int_line("$zenith_qs_module_spacing = ", c.qs_module_spacing));
    push_line(lines, text_line("$zenith_qs_brand_text = ", c.qs_brand_text.as_str()));
    push_line(lines, flag_line("$zenith_qs_show_brand = ", c.qs_show_brand));
    proof {
        assert(views(lines@) =~= start + settings_of(*c).subrange(48, 56).map_values(|e: ConfigEntryView| entry_line(e)));
    }
}

fn push_settings_8(lines: &mut Vec<String>, c: &ConfigFile)
    ensures
        views(final(lines)@) == views(old(lines)@) + settings_of(*c).subrange(56, 62).map_values(|e: ConfigEntryView| entry_line(e)),
{
    let ghost start = views(lines@);
    push_line(lines, text_line("$zenith_qs_status_text = ", c.qs_status_text.as_str()));
    push_line(lines, flag_line("$zenith_qs_show_status_badge = ", c.qs_show_status_badge));
    push_line(lines, flag_line("$zenith_qs_show_launcher_btn = ", c.qs_show_launcher_btn));
    push_line(lines, flag_line("$zenith_qs_show_ram = ", c.qs_show_ram));
    push_line(lines, flag_line("$zenith_qs_show_media = ", c.qs_show_media));
    push_line(lines, flag_line("$zenith_qs_show_power_btn = ", c.qs_show_power_btn));
    proof {
        assert(views(lines@) =~= start + settings_of(*c).subrange(56, 62).map_values(|e: ConfigEntryView| entry_line(e)));
    }
}

fn push_closing(lines: &mut Vec<String>, c: &ConfigFile)
    ensures
        views(final(lines)@) == views(old(lines)@) + closing_lines(*c),
{
    let ghost start = views(lines@);
    push_line(lines, String::new());
    push_line(lines, text_line("$terminal = ", c.default_terminal.as_str()));
    push_line(lines, text_line("$menu = ", launcher_command(c.default_launcher.as_str())));
    push_line(lines, String::new());
    push_line(lines, copy_str("general {"));
    push_line(lines, copy_str("gaps_out = $zenith_gaps_out"));
    push_line(lines, copy_str("gaps_in = $zenith_gaps_in"));
    push_line(lines, copy_str("border_size = $zenith_border_size"));
    push_line(lines, copy_str("col.active_border = rgb($zenith_active_border_color)"));
    push_line(lines, copy_str("}"));
    push_line(lines, String::new());
    push_line(lines, copy_str("decoration {"));
    push_line(lines, copy_str("rounding = $zenith_rounding"));
    push_line(lines, copy_str("active_opacity = $zenith_active_opacity"));
    push_line(lines, copy_str("inactive_opacity = $zenith_inactive_opacity"));
    push_line(lines, copy_str("shadow {"));
    push_line(lines, copy_str("enabled = $zenith_shadow_enabled"));
    push_line(lines, copy_str("}"));
    push_line(lines, copy_str("blur {"));
    push_line(lines, copy_str("enabled = $zenith_blur_enabled"));
    push_line(lines, copy_str("size = $zenith_blur_size"));
    push_line(lines, copy_str("}"));
    push_line(lines, copy_str("}"));
    push_line(lines, String::new());
    push_line(lines, copy_str("animations {"));
    push_line(lines, copy_str("enabled = $zenith_animations_enabled"));
    push_line(lines, copy_str("}"));
    push_line(lines, String::new());
    proof {
        assert(views(lines@) =~= start + closing_lines(*c));
    }
}

/// The monitor lines of a configuration, one `monitor = <rule>` per rule.
pub open spec fn monitor_lines_of_file(c: ConfigFile) -> Seq<Seq<char>> {
    views(c.monitor_rules@).map_values(|r: Seq<char>| "monitor = "@ + r)
}

/// The setting lines of a configuration, in the order of `settings_of`.
pub open spec fn setting_lines_of(c: ConfigFile) -> Seq<Seq<char>> {
    settings_of(c).map_values(|e: ConfigEntryView| entry_line(e))
}

pub(crate) fn push_monitor_lines(lines: &mut Vec<String>, c: &ConfigFile)
    ensures
        views(final(lines)@) == views(old(lines)@) + monitor_lines_of_file(*c),
{
    let ghost head = views(lines@);
    let mut i: usize = 0;
    while i < c.monitor_rules.len()
        invariant
            i <= c.monitor_rules@.len(),
            views(lines@) == head + views(c.monitor_rules@).take(i as int).map_values(|r: Seq<char>| "monitor = "@ + r),
        decreases c.monitor_rules.len() - i,
    {
        push_line(lines, text_line("monitor = ", c.monitor_rules[i].as_str()));
        proof {
            let rs = views(c.monitor_rules@);
            assert(rs.take(i + 1) =~= rs.take(i as int).push(c.monitor_rules@[i as int]@));
            assert(rs.take(i + 1).map_values(|r: Seq<char>| "monitor = "@ + r) =~= rs.take(i as int).map_values(
                |r: Seq<char>| "monitor = "@ + r,
            ).push("monitor = "@ + c.monitor_rules@[i as int]@));
        }
        i = i + 1;
    }
    proof {
        assert(views(c.monitor_rules@).take(c.monitor_rules@.len() as int) =~= views(c.monitor_rules@));
    }
}

pub(crate) fn push_setting_lines(lines: &mut Vec<String>, c: &ConfigFile)
    ensures
        views(final(lines)@) == views(old(lines)@) + setting_lines_of(*c),
{
    let ghost start = views(lines@);
    push_settings_1(lines, c);
    push_settings_2(lines, c);
    push_settings_3(lines, c);
    push_settings_4(lines, c);
    push_settings_5(lines, c);
    push_settings_6(lines, c);
    push_settings_7(lines, c);
    push_settings_8(lines, c);
    proof {
        let s = settings_of(*c);
        let f = |e: ConfigEntryView| entry_line(e);
        assert(s.map_values(f) =~= s.subrange(0, 8).map_values(f) + s.subrange(8, 16).map_values(f) + s.subrange(16, 24).map_values(f) + s.subrange(24, 32).map_values(f) + s.subrange(32, 40).map_values(f) + s.subrange(40, 48).map_values(f) + s.subrange(48, 56).map_values(f) + s.subrange(56, 62).map_values(f));
        assert(views(lines@) =~= start + setting_lines_of(*c));
    }
}

/// Writes the text of `zenith.conf`.
pub fn config_file_text(c: &ConfigFile) -> (out: String)
    ensures
        out@ == config_text_of(*c),
{
    let mut lines: Vec<String> = Vec::new();
    push_line(&mut lines, copy_str("# Generated by Zenith Control"));
    push_monitor_lines(&mut lines, c);
    push_line(&mut lines, String::new());
    push_setting_lines(&mut lines, c);
    push_closing(&mut lines, c);
    proof {
        assert(views(lines@) =~= file_lines(*c));
    }
    let out = join_strings(&lines, "\n");
    out
}

proof fn lemma_digit_char(d: nat)
    requires
        d < 10,
    ensures
        digit_char(d) as nat == 48 + d,
        is_ascii_digit(digit_char(d)),
{
}

pub proof fn lemma_dec_digits(n: nat)
    ensures
        dec(n).len() > 0,
        all_digits(dec(n)),
        digits_value(dec(n)) == n,
    decreases n,
{
    if n >= 10 {
        lemma_dec_digits(n / 10);
        lemma_digit_char(n % 10);
        let s = dec(n);
        assert(s.drop_last() =~= dec(n / 10));
        assert(s.last() == digit_char(n % 10));
        vstd::arithmetic::div_mod::lemma_fundamental_div_mod(n as int, 10);
        assert(digits_value(s) == digits_value(s.drop_last()) * 10 + ((s.last() as nat) - 48) as nat);
        assert forall|i: int| 0 <= i < s.len() implies is_ascii_digit(#[trigger] s[i]) by {
            if i < s.len() - 1 {
                assert(s[i] == dec(n / 10)[i]);
            }
        }
    } else {
        lemma_digit_char(n);
        assert(dec(n).drop_last() =~= Seq::<char>::empty());
        assert(digits_value(Seq::<char>::empty()) == 0);
        assert(digits_value(dec(n)) == digits_value(dec(n).drop_last()) * 10 + ((dec(n).last() as nat) - 48) as nat);
    }
}

/// The text `{}` prints for an `i32`: not empty, a digit at its end, and
/// made of digits after an optional minus sign.
pub proof fn lemma_int_text_shape(v: i32)
    ensures
        dec_signed_padded(v as int, 0).len() > 0,
        is_ascii_digit(dec_signed_padded(v as int, 0).last()),
        forall|i: int|
            0 <= i < dec_signed_padded(v as int, 0).len() ==> is_ascii_digit(
                #[trigger] dec_signed_padded(v as int, 0)[i],
            ) || (i == 0 && dec_signed_padded(v as int, 0)[i] == '-'),
{
    let t = dec_signed_padded(v as int, 0);
    if v < 0 {
        let n = (-(v as int)) as nat;
        lemma_dec_digits(n);
        assert(t == seq!['-'] + dec(n));
        assert forall|i: int| 0 <= i < t.len() implies is_ascii_digit(#[trigger] t[i]) || (i == 0
            && t[i] == '-') by {
            if i > 0 {
                assert(t[i] == dec(n)[i - 1]);
            }
        }
        assert(t.last() == dec(n)[dec(n).len() - 1]);
    } else {
        let n = v as nat;
        lemma_dec_digits(n);
        assert(t == dec(n));
    }
}

/// Whole numbers are written so that they read back: the text `{}` prints
/// for an `i32` parses as that number.
pub proof fn law_int_text_roundtrip(v: i32)
    ensures
        parse_i32_text(dec_signed_padded(v as int, 0)) == Some(v),
{
    let t = dec_signed_padded(v as int, 0);
    if v < 0 {
        let n = (-(v as int)) as nat;
        lemma_dec_digits(n);
        assert(t == seq!['-'] + dec(n));
        assert(t[0] == '-');
        assert(t.drop_first() =~= dec(n));
    } else {
        let n = v as nat;
        lemma_dec_digits(n);
        assert(t == dec(n));
        assert(is_ascii_digit(t[0]));
    }
}

} // verus!
