use vstd::prelude::*;

use crate::config::{
    config_entry, config_entry_of, entry_part_1, entry_part_2, entry_part_3, entry_part_4,
    entry_part_5, entry_part_6, entry_part_7, entry_part_8, parse_bool_text, parse_i32_text,
    text_setting, closing_lines, config_text_of, file_lines, launcher_of, settings_of, ConfigFile,
    config_file_text, launcher_command, monitor_lines_of_file, push_line, push_monitor_lines, push_setting_lines,
    setting_lines_of, text_line, entry_line, flag_text, law_int_text_roundtrip, lemma_int_text_shape, ConfigEntry, ConfigEntryView, FlagKey, FloatKey, IntKey, TextKey,
};
use crate::text::{copy_str, join, join_strings, is_prefix, starts_with, str_eq, trim, dec_signed_padded, is_ascii_digit, split_at_char, split_char, views, trim_end, trim_start, trimmed, unicode_whitespace};

verus! {

/// A value that a `zenith.conf` line carries unchanged: not empty, without
/// white space at either end, and without a line break.
pub open spec fn plain_value(t: Seq<char>) -> bool {
    &&& t.len() > 0
    &&& !unicode_whitespace(t[0])
    &&& !unicode_whitespace(t.last())
    &&& !t.contains('\n')
}

proof fn lemma_trimmed_plain(s: Seq<char>)
    requires
        s.len() > 0,
        !unicode_whitespace(s[0]),
        !unicode_whitespace(s.last()),
    ensures
        trimmed(s) == s,
{
    assert(trim_start(s) == s);
    assert(trim_end(s) == s);
}

/// A line made of a setting's start and a plain value is already trimmed,
/// and the value after that start reads as the value itself.
proof fn lemma_setting_value(p: Seq<char>, t: Seq<char>)
    requires
        p.len() > 0,
        !unicode_whitespace(p[0]),
        plain_value(t),
    ensures
        trimmed(p + t) == p + t,
        text_setting(p + t, p) == Some(t),
{
    let l = p + t;
    assert(l[0] == p[0]);
    assert(l.last() == t.last());
    lemma_trimmed_plain(l);
    assert(l.take(p.len() as int) =~= p);
    assert(l.skip(p.len() as int) =~= t);
    lemma_trimmed_plain(t);
}

/// The lengths of the settings' line starts, and the characters that tell
/// them apart.
proof fn lemma_setting_starts()
    ensures
        "$zenith_gaps_out = "@.len() == 19 && "$zenith_gaps_out = "@[0] == '$' && "$zenith_gaps_out = "@[1] == 'z' && "$zenith_gaps_out = "@[8] == 'g' && "$zenith_gaps_out = "@[13] == 'o',
        "$zenith_gaps_in = "@.len() == 18 && "$zenith_gaps_in = "@[0] == '$' && "$zenith_gaps_in = "@[1] == 'z' && "$zenith_gaps_in = "@[8] == 'g' && "$zenith_gaps_in = "@[13] == 'i',
        "$zenith_border_size = "@.len() == 22 && "$zenith_border_size = "@[0] == '$' && "$zenith_border_size = "@[1] == 'z' && "$zenith_border_size = "@[8] == 'b' && "$zenith_border_size = "@[9] == 'o',
        "$zenith_rounding = "@.len() == 19 && "$zenith_rounding = "@[0] == '$' && "$zenith_rounding = "@[1] == 'z' && "$zenith_rounding = "@[8] == 'r' && "$zenith_rounding = "@[10] == 'u',
        "$zenith_active_border_color = "@.len() == 30 && "$zenith_active_border_color = "@[0] == '$' && "$zenith_active_border_color = "@[1] == 'z' && "$zenith_active_border_color = "@[8] == 'a' && "$zenith_active_border_color = "@[9] == 'c' && "$zenith_active_border_color = "@[15] == 'b' && "$zenith_active_border_color = "@[16] == 'o',
        "$zenith_active_opacity = "@.len() == 25 && "$zenith_active_opacity = "@[0] == '$' && "$zenith_active_opacity = "@[1] == 'z' && "$zenith_active_opacity = "@[8] == 'a' && "$zenith_active_opacity = "@[9] == 'c' && "$zenith_active_opacity = "@[15] == 'o',
        "$zenith_inactive_opacity = "@.len() == 27 && "$zenith_inactive_opacity = "@[0] == '$' && "$zenith_inactive_opacity = "@[1] == 'z' && "$zenith_inactive_opacity = "@[8] == 'i',
        "$zenith_blur_enabled = "@.len() == 23 && "$zenith_blur_enabled = "@[0] == '$' && "$zenith_blur_enabled = "@[1] == 'z' && "$zenith_blur_enabled = "@[8] == 'b' && "$zenith_blur_enabled = "@[9] == 'l' && "$zenith_blur_enabled = "@[13] == 'e',
        "$zenith_blur_size = "@.len() == 20 && "$zenith_blur_size = "@[0] == '$' && "$zenith_blur_size = "@[1] == 'z' && "$zenith_blur_size = "@[8] == 'b' && "$zenith_blur_size = "@[9] == 'l' && "$zenith_blur_size = "@[13] == 's',
        "$zenith_shadow_enabled = "@.len() == 25 && "$zenith_shadow_enabled = "@[0] == '$' && "$zenith_shadow_enabled = "@[1] == 'z' && "$zenith_shadow_enabled = "@[8] == 's' && "$zenith_shadow_enabled = "@[10] == 'a',
        "$zenith_animations_enabled = "@.len() == 29 && "$zenith_animations_enabled = "@[0] == '$' && "$zenith_animations_enabled = "@[1] == 'z' && "$zenith_animations_enabled = "@[8] == 'a' && "$zenith_animations_enabled = "@[9] == 'n',
        "$zenith_wb_pos = "@.len() == 17 && "$zenith_wb_pos = "@[0] == '$' && "$zenith_wb_pos = "@[1] == 'z' && "$zenith_wb_pos = "@[8] == 'w' && "$zenith_wb_pos = "@[11] == 'p',
        "$zenith_wb_height = "@.len() == 20 && "$zenith_wb_height = "@[0] == '$' && "$zenith_wb_height = "@[1] == 'z' && "$zenith_wb_height = "@[8] == 'w' && "$zenith_wb_height = "@[11] == 'h',
        "$zenith_wb_bg = "@.len() == 16 && "$zenith_wb_bg = "@[0] == '$' && "$zenith_wb_bg = "@[1] == 'z' && "$zenith_wb_bg = "@[8] == 'w' && "$zenith_wb_bg = "@[11] == 'b',
        "$zenith_wb_opacity = "@.len() == 21 && "$zenith_wb_opacity = "@[0] == '$' && "$zenith_wb_opacity = "@[1] == 'z' && "$zenith_wb_opacity = "@[8] == 'w' && "$zenith_wb_opacity = "@[11] == 'o',
        "$zenith_wb_round = "@.len() == 19 && "$zenith_wb_round = "@[0] == '$' && "$zenith_wb_round = "@[1] == 'z' && "$zenith_wb_round = "@[8] == 'w' && "$zenith_wb_round = "@[11] == 'r',
        "$zenith_active_bar = "@.len() == 21 && "$zenith_active_bar = "@[0] == '$' && "$zenith_active_bar = "@[1] == 'z' && "$zenith_active_bar = "@[8] == 'a' && "$zenith_active_bar = "@[9] == 'c' && "$zenith_active_bar = "@[15] == 'b' && "$zenith_active_bar = "@[16] == 'a',
        "$zenith_launcher = "@.len() == 19 && "$zenith_launcher = "@[0] == '$' && "$zenith_launcher = "@[1] == 'z' && "$zenith_launcher = "@[8] == 'l',
        "$zenith_terminal = "@.len() == 19 && "$zenith_terminal = "@[0] == '$' && "$zenith_terminal = "@[1] == 'z' && "$zenith_terminal = "@[8] == 't',
        "$zenith_shell = "@.len() == 16 && "$zenith_shell = "@[0] == '$' && "$zenith_shell = "@[1] == 'z' && "$zenith_shell = "@[8] == 's' && "$zenith_shell = "@[10] == 'e',
        "$zenith_kitty_bg = "@.len() == 19 && "$zenith_kitty_bg = "@[0] == '$' && "$zenith_kitty_bg = "@[1] == 'z' && "$zenith_kitty_bg = "@[8] == 'k' && "$zenith_kitty_bg = "@[14] == 'b',
        "$zenith_kitty_fg = "@.len() == 19 && "$zenith_kitty_fg = "@[0] == '$' && "$zenith_kitty_fg = "@[1] == 'z' && "$zenith_kitty_fg = "@[8] == 'k' && "$zenith_kitty_fg = "@[14] == 'f' && "$zenith_kitty_fg = "@[15] == 'g',
        "$zenith_kitty_opacity = "@.len() == 24 && "$zenith_kitty_opacity = "@[0] == '$' && "$zenith_kitty_opacity = "@[1] == 'z' && "$zenith_kitty_opacity = "@[8] == 'k' && "$zenith_kitty_opacity = "@[14] == 'o',
        "$zenith_kitty_font = "@.len() == 21 && "$zenith_kitty_font = "@[0] == '$' && "$zenith_kitty_font = "@[1] == 'z' && "$zenith_kitty_font = "@[8] == 'k' && "$zenith_kitty_font = "@[14] == 'f' && "$zenith_kitty_font = "@[15] == 'o',
        "$zenith_rofi_bg = "@.len() == 18 && "$zenith_rofi_bg = "@[0] == '$' && "$zenith_rofi_bg = "@[1] == 'z' && "$zenith_rofi_bg = "@[8] == 'r' && "$zenith_rofi_bg = "@[10] == 'f' && "$zenith_rofi_bg = "@[13] == 'b',
        "$zenith_rofi_fg = "@.len() == 18 && "$zenith_rofi_fg = "@[0] == '$' && "$zenith_rofi_fg = "@[1] == 'z' && "$zenith_rofi_fg = "@[8] == 'r' && "$zenith_rofi_fg = "@[10] == 'f' && "$zenith_rofi_fg = "@[13] == 'f',
        "$zenith_rofi_opacity = "@.len() == 23 && "$zenith_rofi_opacity = "@[0] == '$' && "$zenith_rofi_opacity = "@[1] == 'z' && "$zenith_rofi_opacity = "@[8] == 'r' && "$zenith_rofi_opacity = "@[10] == 'f' && "$zenith_rofi_opacity = "@[13] == 'o',
        "$zenith_rofi_round = "@.len() == 21 && "$zenith_rofi_round = "@[0] == '$' && "$zenith_rofi_round = "@[1] == 'z' && "$zenith_rofi_round = "@[8] == 'r' && "$zenith_rofi_round = "@[10] == 'f' && "$zenith_rofi_round = "@[13] == 'r',
        "$zenith_qs_bg = "@.len() == 16 && "$zenith_qs_bg = "@[0] == '$' && "$zenith_qs_bg = "@[1] == 'z' && "$zenith_qs_bg = "@[8] == 'q' && "$zenith_qs_bg = "@[11] == 'b' && "$zenith_qs_bg = "@[12] == 'g',
        "$zenith_qs_accent = "@.len() == 20 && "$zenith_qs_accent = "@[0] == '$' && "$zenith_qs_accent = "@[1] == 'z' && "$zenith_qs_accent = "@[8] == 'q' && "$zenith_qs_accent = "@[11] == 'a',
        "$zenith_qs_opacity = "@.len() == 21 && "$zenith_qs_opacity = "@[0] == '$' && "$zenith_qs_opacity = "@[1] == 'z' && "$zenith_qs_opacity = "@[8] == 'q' && "$zenith_qs_opacity = "@[11] == 'o',
        "$zenith_qs_height = "@.len() == 20 && "$zenith_qs_height = "@[0] == '$' && "$zenith_qs_height = "@[1] == 'z' && "$zenith_qs_height = "@[8] == 'q' && "$zenith_qs_height = "@[11] == 'h',
        "$zenith_qs_position = "@.len() == 22 && "$zenith_qs_position = "@[0] == '$' && "$zenith_qs_position = "@[1] == 'z' && "$zenith_qs_position = "@[8] == 'q' && "$zenith_qs_position = "@[11] == 'p' && "$zenith_qs_position = "@[12] == 'o',
        "$zenith_qs_rounding = "@.len() == 22 && "$zenith_qs_rounding = "@[0] == '$' && "$zenith_qs_rounding = "@[1] == 'z' && "$zenith_qs_rounding = "@[8] == 'q' && "$zenith_qs_rounding = "@[11] == 'r',
        "$zenith_qs_margin_h = "@.len() == 22 && "$zenith_qs_margin_h = "@[0] == '$' && "$zenith_qs_margin_h = "@[1] == 'z' && "$zenith_qs_margin_h = "@[8] == 'q' && "$zenith_qs_margin_h = "@[11] == 'm' && "$zenith_qs_margin_h = "@[12] == 'a' && "$zenith_qs_margin_h = "@[18] == 'h',
        "$zenith_qs_margin_v = "@.len() == 22 && "$zenith_qs_margin_v = "@[0] == '$' && "$zenith_qs_margin_v = "@[1] == 'z' && "$zenith_qs_margin_v = "@[8] == 'q' && "$zenith_qs_margin_v = "@[11] == 'm' && "$zenith_qs_margin_v = "@[12] == 'a' && "$zenith_qs_margin_v = "@[18] == 'v',
        "$zenith_qs_border_width = "@.len() == 26 && "$zenith_qs_border_width = "@[0] == '$' && "$zenith_qs_border_width = "@[1] == 'z' && "$zenith_qs_border_width = "@[8] == 'q' && "$zenith_qs_border_width = "@[11] == 'b' && "$zenith_qs_border_width = "@[12] == 'o' && "$zenith_qs_border_width = "@[18] == 'w',
        "$zenith_qs_border_color = "@.len() == 26 && "$zenith_qs_border_color = "@[0] == '$' && "$zenith_qs_border_color = "@[1] == 'z' && "$zenith_qs_border_color = "@[8] == 'q' && "$zenith_qs_border_color = "@[11] == 'b' && "$zenith_qs_border_color = "@[12] == 'o' && "$zenith_qs_border_color = "@[18] == 'c',
        "$zenith_qs_text_color = "@.len() == 24 && "$zenith_qs_text_color = "@[0] == '$' && "$zenith_qs_text_color = "@[1] == 'z' && "$zenith_qs_text_color = "@[8] == 'q' && "$zenith_qs_text_color = "@[11] == 't',
        "$zenith_qs_font_size = "@.len() == 23 && "$zenith_qs_font_size = "@[0] == '$' && "$zenith_qs_font_size = "@[1] == 'z' && "$zenith_qs_font_size = "@[8] == 'q' && "$zenith_qs_font_size = "@[11] == 'f' && "$zenith_qs_font_size = "@[12] == 'o',
        "$zenith_qs_floating = "@.len() == 22 && "$zenith_qs_floating = "@[0] == '$' && "$zenith_qs_floating = "@[1] == 'z' && "$zenith_qs_floating = "@[8] == 'q' && "$zenith_qs_floating = "@[11] == 'f' && "$zenith_qs_floating = "@[12] == 'l',
        "$zenith_qs_show_workspaces = "@.len() == 29 && "$zenith_qs_show_workspaces = "@[0] == '$' && "$zenith_qs_show_workspaces = "@[1] == 'z' && "$zenith_qs_show_workspaces = "@[8] == 'q' && "$zenith_qs_show_workspaces = "@[11] == 's' && "$zenith_qs_show_workspaces = "@[12] == 'h' && "$zenith_qs_show_workspaces = "@[16] == 'w',
        "$zenith_qs_show_cpu = "@.len() == 22 && "$zenith_qs_show_cpu = "@[0] == '$' && "$zenith_qs_show_cpu = "@[1] == 'z' && "$zenith_qs_show_cpu = "@[8] == 'q' && "$zenith_qs_show_cpu = "@[11] == 's' && "$zenith_qs_show_cpu = "@[12] == 'h' && "$zenith_qs_show_cpu = "@[16] == 'c' && "$zenith_qs_show_cpu = "@[17] == 'p',
        "$zenith_qs_show_battery = "@.len() == 26 && "$zenith_qs_show_battery = "@[0] == '$' && "$zenith_qs_show_battery = "@[1] == 'z' && "$zenith_qs_show_battery = "@[8] == 'q' && "$zenith_qs_show_battery = "@[11] == 's' && "$zenith_qs_show_battery = "@[12] == 'h' && "$zenith_qs_show_battery = "@[16] == 'b' && "$zenith_qs_show_battery = "@[17] == 'a',
        "$zenith_qs_show_volume = "@.len() == 25 && "$zenith_qs_show_volume = "@[0] == '$' && "$zenith_qs_show_volume = "@[1] == 'z' && "$zenith_qs_show_volume = "@[8] == 'q' && "$zenith_qs_show_volume = "@[11] == 's' && "$zenith_qs_show_volume = "@[12] == 'h' && "$zenith_qs_show_volume = "@[16] == 'v',
        "$zenith_qs_show_bluetooth = "@.len() == 28 && "$zenith_qs_show_bluetooth = "@[0] == '$' && "$zenith_qs_show_bluetooth = "@[1] == 'z' && "$zenith_qs_show_bluetooth = "@[8] == 'q' && "$zenith_qs_show_bluetooth = "@[11] == 's' && "$zenith_qs_show_bluetooth = "@[12] == 'h' && "$zenith_qs_show_bluetooth = "@[16] == 'b' && "$zenith_qs_show_bluetooth = "@[17] == 'l',
        "$zenith_qs_show_network = "@.len() == 26 && "$zenith_qs_show_network = "@[0] == '$' && "$zenith_qs_show_network = "@[1] == 'z' && "$zenith_qs_show_network = "@[8] == 'q' && "$zenith_qs_show_network = "@[11] == 's' && "$zenith_qs_show_network = "@[12] == 'h' && "$zenith_qs_show_network = "@[16] == 'n',
        "$zenith_qs_show_clock = "@.len() == 24 && "$zenith_qs_show_clock = "@[0] == '$' && "$zenith_qs_show_clock = "@[1] == 'z' && "$zenith_qs_show_clock = "@[8] == 'q' && "$zenith_qs_show_clock = "@[11] == 's' && "$zenith_qs_show_clock = "@[12] == 'h' && "$zenith_qs_show_clock = "@[16] == 'c' && "$zenith_qs_show_clock = "@[17] == 'l',
        "$zenith_qs_show_seconds = "@.len() == 26 && "$zenith_qs_show_seconds = "@[0] == '$' && "$zenith_qs_show_seconds = "@[1] == 'z' && "$zenith_qs_show_seconds = "@[8] == 'q' && "$zenith_qs_show_seconds = "@[11] == 's' && "$zenith_qs_show_seconds = "@[12] == 'h' && "$zenith_qs_show_seconds = "@[16] == 's' && "$zenith_qs_show_seconds = "@[17] == 'e',
        "$zenith_qs_bar_style = "@.len() == 23 && "$zenith_qs_bar_style = "@[0] == '$' && "$zenith_qs_bar_style = "@[1] == 'z' && "$zenith_qs_bar_style = "@[8] == 'q' && "$zenith_qs_bar_style = "@[11] == 'b' && "$zenith_qs_bar_style = "@[12] == 'a',
        "$zenith_qs_pill_bg = "@.len() == 21 && "$zenith_qs_pill_bg = "@[0] == '$' && "$zenith_qs_pill_bg = "@[1] == 'z' && "$zenith_qs_pill_bg = "@[8] == 'q' && "$zenith_qs_pill_bg = "@[11] == 'p' && "$zenith_qs_pill_bg = "@[12] == 'i' && "$zenith_qs_pill_bg = "@[16] == 'b',
        "$zenith_qs_pill_opacity = "@.len() == 26 && "$zenith_qs_pill_opacity = "@[0] == '$' && "$zenith_qs_pill_opacity = "@[1] == 'z' && "$zenith_qs_pill_opacity = "@[8] == 'q' && "$zenith_qs_pill_opacity = "@[11] == 'p' && "$zenith_qs_pill_opacity = "@[12] == 'i' && "$zenith_qs_pill_opacity = "@[16] == 'o',
        "$zenith_qs_pill_rounding = "@.len() == 27 && "$zenith_qs_pill_rounding = "@[0] == '$' && "$zenith_qs_pill_rounding = "@[1] == 'z' && "$zenith_qs_pill_rounding = "@[8] == 'q' && "$zenith_qs_pill_rounding = "@[11] == 'p' && "$zenith_qs_pill_rounding = "@[12] == 'i' && "$zenith_qs_pill_rounding = "@[16] == 'r',
        "$zenith_qs_module_spacing = "@.len() == 28 && "$zenith_qs_module_spacing = "@[0] == '$' && "$zenith_qs_module_spacing = "@[1] == 'z' && "$zenith_qs_module_spacing = "@[8] == 'q' && "$zenith_qs_module_spacing = "@[11] == 'm' && "$zenith_qs_module_spacing = "@[12] == 'o',
        "$zenith_qs_brand_text = "@.len() == 24 && "$zenith_qs_brand_text = "@[0] == '$' && "$zenith_qs_brand_text = "@[1] == 'z' && "$zenith_qs_brand_text = "@[8] == 'q' && "$zenith_qs_brand_text = "@[11] == 'b' && "$zenith_qs_brand_text = "@[12] == 'r',
        "$zenith_qs_show_brand = "@.len() == 24 && "$zenith_qs_show_brand = "@[0] == '$' && "$zenith_qs_show_brand = "@[1] == 'z' && "$zenith_qs_show_brand = "@[8] == 'q' && "$zenith_qs_show_brand = "@[11] == 's' && "$zenith_qs_show_brand = "@[12] == 'h' && "$zenith_qs_show_brand = "@[16] == 'b' && "$zenith_qs_show_brand = "@[17] == 'r',
        "$zenith_qs_status_text = "@.len() == 25 && "$zenith_qs_status_text = "@[0] == '$' && "$zenith_qs_status_text = "@[1] == 'z' && "$zenith_qs_status_text = "@[8] == 'q' && "$zenith_qs_status_text = "@[11] == 's' && "$zenith_qs_status_text = "@[12] == 't',
        "$zenith_qs_show_status_badge = "@.len() == 31 && "$zenith_qs_show_status_badge = "@[0] == '$' && "$zenith_qs_show_status_badge = "@[1] == 'z' && "$zenith_qs_show_status_badge = "@[8] == 'q' && "$zenith_qs_show_status_badge = "@[11] == 's' && "$zenith_qs_show_status_badge = "@[12] == 'h' && "$zenith_qs_show_status_badge = "@[16] == 's' && "$zenith_qs_show_status_badge = "@[17] == 't',
        "$zenith_qs_show_launcher_btn = "@.len() == 31 && "$zenith_qs_show_launcher_btn = "@[0] == '$' && "$zenith_qs_show_launcher_btn = "@[1] == 'z' && "$zenith_qs_show_launcher_btn = "@[8] == 'q' && "$zenith_qs_show_launcher_btn = "@[11] == 's' && "$zenith_qs_show_launcher_btn = "@[12] == 'h' && "$zenith_qs_show_launcher_btn = "@[16] == 'l',
        "$zenith_qs_show_ram = "@.len() == 22 && "$zenith_qs_show_ram = "@[0] == '$' && "$zenith_qs_show_ram = "@[1] == 'z' && "$zenith_qs_show_ram = "@[8] == 'q' && "$zenith_qs_show_ram = "@[11] == 's' && "$zenith_qs_show_ram = "@[12] == 'h' && "$zenith_qs_show_ram = "@[16] == 'r',
        "$zenith_qs_show_media = "@.len() == 24 && "$zenith_qs_show_media = "@[0] == '$' && "$zenith_qs_show_media = "@[1] == 'z' && "$zenith_qs_show_media = "@[8] == 'q' && "$zenith_qs_show_media = "@[11] == 's' && "$zenith_qs_show_media = "@[12] == 'h' && "$zenith_qs_show_media = "@[16] == 'm',
        "$zenith_qs_show_power_btn = "@.len() == 28 && "$zenith_qs_show_power_btn = "@[0] == '$' && "$zenith_qs_show_power_btn = "@[1] == 'z' && "$zenith_qs_show_power_btn = "@[8] == 'q' && "$zenith_qs_show_power_btn = "@[11] == 's' && "$zenith_qs_show_power_btn = "@[12] == 'h' && "$zenith_qs_show_power_btn = "@[16] == 'p',
{
    reveal_strlit("$zenith_gaps_out = ");
    reveal_strlit("$zenith_gaps_in = ");
    reveal_strlit("$zenith_border_size = ");
    reveal_strlit("$zenith_rounding = ");
    reveal_strlit("$zenith_active_border_color = ");
    reveal_strlit("$zenith_active_opacity = ");
    reveal_strlit("$zenith_inactive_opacity = ");
    reveal_strlit("$zenith_blur_enabled = ");
    reveal_strlit("$zenith_blur_size = ");
    reveal_strlit("$zenith_shadow_enabled = ");
    reveal_strlit("$zenith_animations_enabled = ");
    reveal_strlit("$zenith_wb_pos = ");
    reveal_strlit("$zenith_wb_height = ");
    reveal_strlit("$zenith_wb_bg = ");
    reveal_strlit("$zenith_wb_opacity = ");
    reveal_strlit("$zenith_wb_round = ");
    reveal_strlit("$zenith_active_bar = ");
    reveal_strlit("$zenith_launcher = ");
    reveal_strlit("$zenith_terminal = ");
    reveal_strlit("$zenith_shell = ");
    reveal_strlit("$zenith_kitty_bg = ");
    reveal_strlit("$zenith_kitty_fg = ");
    reveal_strlit("$zenith_kitty_opacity = ");
    reveal_strlit("$zenith_kitty_font = ");
    reveal_strlit("$zenith_rofi_bg = ");
    reveal_strlit("$zenith_rofi_fg = ");
    reveal_strlit("$zenith_rofi_opacity = ");
    reveal_strlit("$zenith_rofi_round = ");
    reveal_strlit("$zenith_qs_bg = ");
    reveal_strlit("$zenith_qs_accent = ");
    reveal_strlit("$zenith_qs_opacity = ");
    reveal_strlit("$zenith_qs_height = ");
    reveal_strlit("$zenith_qs_position = ");
    reveal_strlit("$zenith_qs_rounding = ");
    reveal_strlit("$zenith_qs_margin_h = ");
    reveal_strlit("$zenith_qs_margin_v = ");
    reveal_strlit("$zenith_qs_border_width = ");
    reveal_strlit("$zenith_qs_border_color = ");
    reveal_strlit("$zenith_qs_text_color = ");
    reveal_strlit("$zenith_qs_font_size = ");
    reveal_strlit("$zenith_qs_floating = ");
    reveal_strlit("$zenith_qs_show_workspaces = ");
    reveal_strlit("$zenith_qs_show_cpu = ");
    reveal_strlit("$zenith_qs_show_battery = ");
    reveal_strlit("$zenith_qs_show_volume = ");
    reveal_strlit("$zenith_qs_show_bluetooth = ");
    reveal_strlit("$zenith_qs_show_network = ");
    reveal_strlit("$zenith_qs_show_clock = ");
    reveal_strlit("$zenith_qs_show_seconds = ");
    reveal_strlit("$zenith_qs_bar_style = ");
    reveal_strlit("$zenith_qs_pill_bg = ");
    reveal_strlit("$zenith_qs_pill_opacity = ");
    reveal_strlit("$zenith_qs_pill_rounding = ");
    reveal_strlit("$zenith_qs_module_spacing = ");
    reveal_strlit("$zenith_qs_brand_text = ");
    reveal_strlit("$zenith_qs_show_brand = ");
    reveal_strlit("$zenith_qs_status_text = ");
    reveal_strlit("$zenith_qs_show_status_badge = ");
    reveal_strlit("$zenith_qs_show_launcher_btn = ");
    reveal_strlit("$zenith_qs_show_ram = ");
    reveal_strlit("$zenith_qs_show_media = ");
    reveal_strlit("$zenith_qs_show_power_btn = ");
}

proof fn lemma_reads_int_gaps_out(t: Seq<char>)
    requires
        plain_value(t),
        parse_i32_text(t) is Some,
    ensures
        config_entry_of("$zenith_gaps_out = "@ + t) == Some(ConfigEntryView::Int(IntKey::GapsOut, parse_i32_text(t)->0)),
        !("$zenith_gaps_out = "@ + t).contains('\n'),
{
    let l = "$zenith_gaps_out = "@ + t;
    reveal_strlit("$zenith_gaps_out = ");
    reveal_strlit("monitor = ");
    lemma_setting_value("$zenith_gaps_out = "@, t);
    reveal(entry_part_1);
    assert(l[0] == '$');
    lemma_no_line_break("$zenith_gaps_out = "@, t);
}

proof fn lemma_reads_int_gaps_in(t: Seq<char>)
    requires
        plain_value(t),
        parse_i32_text(t) is Some,
    ensures
        config_entry_of("$zenith_gaps_in = "@ + t) == Some(ConfigEntryView::Int(IntKey::GapsIn, parse_i32_text(t)->0)),
        !("$zenith_gaps_in = "@ + t).contains('\n'),
{
    let l = "$zenith_gaps_in = "@ + t;
    reveal_strlit("$zenith_gaps_in = ");
    reveal_strlit("monitor = ");
    lemma_setting_starts();
    lemma_setting_value("$zenith_gaps_in = "@, t);
    reveal(entry_part_1);
    assert(l[0] == '$' && l[13] == 'i');
    lemma_no_line_break("$zenith_gaps_in = "@, t);
}

proof fn lemma_reads_int_border_size(t: Seq<char>)
    requires
        plain_value(t),
        parse_i32_text(t) is Some,
    ensures
        config_entry_of("$zenith_border_size = "@ + t) == Some(ConfigEntryView::Int(IntKey::BorderSize, parse_i32_text(t)->0)),
        !("$zenith_border_size = "@ + t).contains('\n'),
{
    let l = "$zenith_border_size = "@ + t;
    reveal_strlit("$zenith_border_size = ");
    reveal_strlit("monitor = ");
    lemma_setting_starts();
    lemma_setting_value("$zenith_border_size = "@, t);
    reveal(entry_part_1);
    assert(l[0] == '$' && l[8] == 'b');
    lemma_no_line_break("$zenith_border_size = "@, t);
}

proof fn lemma_reads_int_rounding(t: Seq<char>)
    requires
        plain_value(t),
        parse_i32_text(t) is Some,
    ensures
        config_entry_of("$zenith_rounding = "@ + t) == Some(ConfigEntryView::Int(IntKey::Rounding, parse_i32_text(t)->0)),
        !("$zenith_rounding = "@ + t).contains('\n'),
{
    let l = "$zenith_rounding = "@ + t;
    reveal_strlit("$zenith_rounding = ");
    reveal_strlit("monitor = ");
    lemma_setting_starts();
    lemma_setting_value("$zenith_rounding = "@, t);
    reveal(entry_part_1);
    assert(l[0] == '$' && l[8] == 'r');
    lemma_no_line_break("$zenith_rounding = "@, t);
}

proof fn lemma_reads_text_active_border_color(t: Seq<char>)
    requires
        plain_value(t),
    ensures
        config_entry_of("$zenith_active_border_color = "@ + t) == Some(ConfigEntryView::Text(TextKey::ActiveBorderColor, t)),
        !("$zenith_active_border_color = "@ + t).contains('\n'),
{
    let l = "$zenith_active_border_color = "@ + t;
    reveal_strlit("$zenith_active_border_color = ");
    reveal_strlit("monitor = ");
    lemma_setting_starts();
    lemma_setting_value("$zenith_active_border_color = "@, t);
    reveal(entry_part_1);
    assert(l[0] == '$' && l[8] == 'a');
    lemma_no_line_break("$zenith_active_border_color = "@, t);
}

proof fn lemma_reads_float_active_opacity(t: Seq<char>)
    requires
        plain_value(t),
    ensures
        config_entry_of("$zenith_active_opacity = "@ + t) == Some(ConfigEntryView::Float(FloatKey::ActiveOpacity, t)),
        !("$zenith_active_opacity = "@ + t).contains('\n'),
{
    let l = "$zenith_active_opacity = "@ + t;
    reveal_strlit("$zenith_active_opacity = ");
    reveal_strlit("monitor = ");
    lemma_setting_starts();
    lemma_setting_value("$zenith_active_opacity = "@, t);
    reveal(entry_part_1);
    assert(l[0] == '$' && l[8] == 'a' && l[15] == 'o');
    lemma_no_line_break("$zenith_active_opacity = "@, t);
}

proof fn lemma_reads_float_inactive_opacity(t: Seq<char>)
    requires
        plain_value(t),
    ensures
        config_entry_of("$zenith_inactive_opacity = "@ + t) == Some(ConfigEntryView::Float(FloatKey::InactiveOpacity, t)),
        !("$zenith_inactive_opacity = "@ + t).contains('\n'),
{
    let l = "$zenith_inactive_opacity = "@ + t;
    reveal_strlit("$zenith_inactive_opacity = ");
    reveal_strlit("monitor = ");
    lemma_setting_starts();
    lemma_setting_value("$zenith_inactive_opacity = "@, t);
    reveal(entry_part_1);
    assert(l[0] == '$' && l[8] == 'i');
    lemma_no_line_break("$zenith_inactive_opacity = "@, t);
}

proof fn lemma_reads_flag_blur_enabled(t: Seq<char>)
    requires
        plain_value(t),
        parse_bool_text(t) is Some,
    ensures
        config_entry_of("$zenith_blur_enabled = "@ + t) == Some(ConfigEntryView::Flag(FlagKey::BlurEnabled, parse_bool_text(t)->0)),
        !("$zenith_blur_enabled = "@ + t).contains('\n'),
{
    let l = "$zenith_blur_enabled = "@ + t;
    reveal_strlit("$zenith_blur_enabled = ");
    reveal_strlit("monitor = ");
    lemma_setting_starts();
    lemma_setting_value("$zenith_blur_enabled = "@, t);
    reveal(entry_part_1);
    assert(l[0] == '$' && l[8] == 'b' && l[9] == 'l');
    lemma_no_line_break("$zenith_blur_enabled = "@, t);
}

proof fn lemma_reads_int_blur_size(t: Seq<char>)
    requires
        plain_value(t),
        parse_i32_text(t) is Some,
    ensures
        config_entry_of("$zenith_blur_size = "@ + t) == Some(ConfigEntryView::Int(IntKey::BlurSize, parse_i32_text(t)->0)),
        !("$zenith_blur_size = "@ + t).contains('\n'),
{
    let l = "$zenith_blur_size = "@ + t;
    reveal_strlit("$zenith_blur_size = ");
    reveal_strlit("monitor = ");
    lemma_setting_starts();
    lemma_setting_value("$zenith_blur_size = "@, t);
    reveal(entry_part_1);
    reveal(entry_part_2);
    assert(l[0] == '$' && l[8] == 'b' && l[9] == 'l' && l[13] == 's');
    lemma_no_line_break("$zenith_blur_size = "@, t);
}

proof fn lemma_reads_flag_shadow_enabled(t: Seq<char>)
    requires
        plain_value(t),
        parse_bool_text(t) is Some,
    ensures
        config_entry_of("$zenith_shadow_enabled = "@ + t) == Some(ConfigEntryView::Flag(FlagKey::ShadowEnabled, parse_bool_text(t)->0)),
        !("$zenith_shadow_enabled = "@ + t).contains('\n'),
{
    let l = "$zenith_shadow_enabled = "@ + t;
    reveal_strlit("$zenith_shadow_enabled = ");
    reveal_strlit("monitor = ");
    lemma_setting_starts();
    lemma_setting_value("$zenith_shadow_enabled = "@, t);
    reveal(entry_part_1);
    reveal(entry_part_2);
    assert(l[0] == '$' && l[8] == 's');
    lemma_no_line_break("$zenith_shadow_enabled = "@, t);
}

proof fn lemma_reads_flag_animations_enabled(t: Seq<char>)
    requires
        plain_value(t),
        parse_bool_text(t) is Some,
    ensures
        config_entry_of("$zenith_animations_enabled = "@ + t) == Some(ConfigEntryView::Flag(FlagKey::AnimationsEnabled, parse_bool_text(t)->0)),
        !("$zenith_animations_enabled = "@ + t).contains('\n'),
{
    let l = "$zenith_animations_enabled = "@ + t;
    reveal_strlit("$zenith_animations_enabled = ");
    reveal_strlit("monitor = ");
    lemma_setting_starts();
    lemma_setting_value("$zenith_animations_enabled = "@, t);
    reveal(entry_part_1);
    reveal(entry_part_2);
    assert(l[0] == '$' && l[8] == 'a' && l[9] == 'n');
    lemma_no_line_break("$zenith_animations_enabled = "@, t);
}

proof fn lemma_reads_text_waybar_position(t: Seq<char>)
    requires
        plain_value(t),
    ensures
        config_entry_of("$zenith_wb_pos = "@ + t) == Some(ConfigEntryView::Text(TextKey::WaybarPosition, t)),
        !("$zenith_wb_pos = "@ + t).contains('\n'),
{
    let l = "$zenith_wb_pos = "@ + t;
    reveal_strlit("$zenith_wb_pos = ");
    reveal_strlit("monitor = ");
    lemma_setting_starts();
    lemma_setting_value("$zenith_wb_pos = "@, t);
    reveal(entry_part_1);
    reveal(entry_part_2);
    assert(l[0] == '$' && l[8] == 'w');
    lemma_no_line_break("$zenith_wb_pos = "@, t);
}

proof fn lemma_reads_int_waybar_height(t: Seq<char>)
    requires
        plain_value(t),
        parse_i32_text(t) is Some,
    ensures
        config_entry_of("$zenith_wb_height = "@ + t) == Some(ConfigEntryView::Int(IntKey::WaybarHeight, parse_i32_text(t)->0)),
        !("$zenith_wb_height = "@ + t).contains('\n'),
{
    let l = "$zenith_wb_height = "@ + t;
    reveal_strlit("$zenith_wb_height = ");
    reveal_strlit("monitor = ");
    lemma_setting_starts();
    lemma_setting_value("$zenith_wb_height = "@, t);
    reveal(entry_part_1);
    reveal(entry_part_2);
    assert(l[0] == '$' && l[8] == 'w' && l[11] == 'h');
    lemma_no_line_break("$zenith_wb_height = "@, t);
}

proof fn lemma_reads_text_waybar_bg_color(t: Seq<char>)
    requires
        plain_value(t),
    ensures
        config_entry_of("$zenith_wb_bg = "@ + t) == Some(ConfigEntryView::Text(TextKey::WaybarBgColor, t)),
        !("$zenith_wb_bg = "@ + t).contains('\n'),
{
    let l = "$zenith_wb_bg = "@ + t;
    reveal_strlit("$zenith_wb_bg = ");
    reveal_strlit("monitor = ");
    lemma_setting_starts();
    lemma_setting_value("$zenith_wb_bg = "@, t);
    reveal(entry_part_1);
    reveal(entry_part_2);
    assert(l[0] == '$' && l[8] == 'w' && l[11] == 'b');
    lemma_no_line_break("$zenith_wb_bg = "@, t);
}

proof fn lemma_reads_float_waybar_opacity(t: Seq<char>)
    requires
        plain_value(t),
    ensures
        config_entry_of("$zenith_wb_opacity = "@ + t) == Some(ConfigEntryView::Float(FloatKey::WaybarOpacity, t)),
        !("$zenith_wb_opacity = "@ + t).contains('\n'),
{
    let l = "$zenith_wb_opacity = "@ + t;
    reveal_strlit("$zenith_wb_opacity = ");
    reveal_strlit("monitor = ");
    lemma_setting_starts();
    lemma_setting_value("$zenith_wb_opacity = "@, t);
    reveal(entry_part_1);
    reveal(entry_part_2);
    assert(l[0] == '$' && l[8] == 'w' && l[11] == 'o');
    lemma_no_line_break("$zenith_wb_opacity = "@, t);
}

proof fn lemma_reads_int_waybar_rounding(t: Seq<char>)
    requires
        plain_value(t),
        parse_i32_text(t) is Some,
    ensures
        config_entry_of("$zenith_wb_round = "@ + t) == Some(ConfigEntryView::Int(IntKey::WaybarRounding, parse_i32_text(t)->0)),
        !("$zenith_wb_round = "@ + t).contains('\n'),
{
    let l = "$zenith_wb_round = "@ + t;
    reveal_strlit("$zenith_wb_round = ");
    reveal_strlit("monitor = ");
    lemma_setting_starts();
    lemma_setting_value("$zenith_wb_round = "@, t);
    reveal(entry_part_1);
    reveal(entry_part_2);
    assert(l[0] == '$' && l[8] == 'w' && l[11] == 'r');
    lemma_no_line_break("$zenith_wb_round = "@, t);
}

proof fn lemma_reads_text_active_bar(t: Seq<char>)
    requires
        plain_value(t),
    ensures
        config_entry_of("$zenith_active_bar = "@ + t) == Some(ConfigEntryView::Text(TextKey::ActiveBar, t)),
        !("$zenith_active_bar = "@ + t).contains('\n'),
{
    let l = "$zenith_active_bar = "@ + t;
    reveal_strlit("$zenith_active_bar = ");
    reveal_strlit("monitor = ");
    lemma_setting_starts();
    lemma_setting_value("$zenith_active_bar = "@, t);
    reveal(entry_part_1);
    reveal(entry_part_2);
    reveal(entry_part_3);
    assert(l[0] == '$' && l[8] == 'a' && l[9] == 'c' && l[15] == 'b' && l[16] == 'a');
    lemma_no_line_break("$zenith_active_bar = "@, t);
}

proof fn lemma_reads_text_default_launcher(t: Seq<char>)
    requires
        plain_value(t),
    ensures
        config_entry_of("$zenith_launcher = "@ + t) == Some(ConfigEntryView::Text(TextKey::DefaultLauncher, t)),
        !("$zenith_launcher = "@ + t).contains('\n'),
{
    let l = "$zenith_launcher = "@ + t;
    reveal_strlit("$zenith_launcher = ");
    reveal_strlit("monitor = ");
    lemma_setting_starts();
    lemma_setting_value("$zenith_launcher = "@, t);
    reveal(entry_part_1);
    reveal(entry_part_2);
    reveal(entry_part_3);
    assert(l[0] == '$' && l[8] == 'l');
    lemma_no_line_break("$zenith_launcher = "@, t);
}

proof fn lemma_reads_text_default_terminal(t: Seq<char>)
    requires
        plain_value(t),
    ensures
        config_entry_of("$zenith_terminal = "@ + t) == Some(ConfigEntryView::Text(TextKey::DefaultTerminal, t)),
        !("$zenith_terminal = "@ + t).contains('\n'),
{
    let l = "$zenith_terminal = "@ + t;
    reveal_strlit("$zenith_terminal = ");
    reveal_strlit("monitor = ");
    lemma_setting_starts();
    lemma_setting_value("$zenith_terminal = "@, t);
    reveal(entry_part_1);
    reveal(entry_part_2);
    reveal(entry_part_3);
    assert(l[0] == '$' && l[8] == 't');
    lemma_no_line_break("$zenith_terminal = "@, t);
}

proof fn lemma_reads_text_default_shell(t: Seq<char>)
    requires
        plain_value(t),
    ensures
        config_entry_of("$zenith_shell = "@ + t) == Some(ConfigEntryView::Text(TextKey::DefaultShell, t)),
        !("$zenith_shell = "@ + t).contains('\n'),
{
    let l = "$zenith_shell = "@ + t;
    reveal_strlit("$zenith_shell = ");
    reveal_strlit("monitor = ");
    lemma_setting_starts();
    lemma_setting_value("$zenith_shell = "@, t);
    reveal(entry_part_1);
    reveal(entry_part_2);
    reveal(entry_part_3);
    assert(l[0] == '$' && l[8] == 's' && l[10] == 'e');
    lemma_no_line_break("$zenith_shell = "@, t);
}

proof fn lemma_reads_text_kitty_bg(t: Seq<char>)
    requires
        plain_value(t),
    ensures
        config_entry_of("$zenith_kitty_bg = "@ + t) == Some(ConfigEntryView::Text(TextKey::KittyBg, t)),
        !("$zenith_kitty_bg = "@ + t).contains('\n'),
{
    let l = "$zenith_kitty_bg = "@ + t;
    reveal_strlit("$zenith_kitty_bg = ");
    reveal_strlit("monitor = ");
    lemma_setting_starts();
    lemma_setting_value("$zenith_kitty_bg = "@, t);
    reveal(entry_part_1);
    reveal(entry_part_2);
    reveal(entry_part_3);
    assert(l[0] == '$' && l[8] == 'k');
    lemma_no_line_break("$zenith_kitty_bg = "@, t);
}

proof fn lemma_reads_text_kitty_fg(t: Seq<char>)
    requires
        plain_value(t),
    ensures
        config_entry_of("$zenith_kitty_fg = "@ + t) == Some(ConfigEntryView::Text(TextKey::KittyFg, t)),
        !("$zenith_kitty_fg = "@ + t).contains('\n'),
{
    let l = "$zenith_kitty_fg = "@ + t;
    reveal_strlit("$zenith_kitty_fg = ");
    reveal_strlit("monitor = ");
    lemma_setting_starts();
    lemma_setting_value("$zenith_kitty_fg = "@, t);
    reveal(entry_part_1);
    reveal(entry_part_2);
    reveal(entry_part_3);
    assert(l[0] == '$' && l[8] == 'k' && l[14] == 'f');
    lemma_no_line_break("$zenith_kitty_fg = "@, t);
}

proof fn lemma_reads_float_kitty_opacity(t: Seq<char>)
    requires
        plain_value(t),
    ensures
        config_entry_of("$zenith_kitty_opacity = "@ + t) == Some(ConfigEntryView::Float(FloatKey::KittyOpacity, t)),
        !("$zenith_kitty_opacity = "@ + t).contains('\n'),
{
    let l = "$zenith_kitty_opacity = "@ + t;
    reveal_strlit("$zenith_kitty_opacity = ");
    reveal_strlit("monitor = ");
    lemma_setting_starts();
    lemma_setting_value("$zenith_kitty_opacity = "@, t);
    reveal(entry_part_1);
    reveal(entry_part_2);
    reveal(entry_part_3);
    assert(l[0] == '$' && l[8] == 'k' && l[14] == 'o');
    lemma_no_line_break("$zenith_kitty_opacity = "@, t);
}

proof fn lemma_reads_float_kitty_font_size(t: Seq<char>)
    requires
        plain_value(t),
    ensures
        config_entry_of("$zenith_kitty_font = "@ + t) == Some(ConfigEntryView::Float(FloatKey::KittyFontSize, t)),
        !("$zenith_kitty_font = "@ + t).contains('\n'),
{
    let l = "$zenith_kitty_font = "@ + t;
    reveal_strlit("$zenith_kitty_font = ");
    reveal_strlit("monitor = ");
    lemma_setting_starts();
    lemma_setting_value("$zenith_kitty_font = "@, t);
    reveal(entry_part_1);
    reveal(entry_part_2);
    reveal(entry_part_3);
    assert(l[0] == '$' && l[8] == 'k' && l[14] == 'f' && l[15] == 'o');
    lemma_no_line_break("$zenith_kitty_font = "@, t);
}

proof fn lemma_reads_text_rofi_bg(t: Seq<char>)
    requires
        plain_value(t),
    ensures
        config_entry_of("$zenith_rofi_bg = "@ + t) == Some(ConfigEntryView::Text(TextKey::RofiBg, t)),
        !("$zenith_rofi_bg = "@ + t).contains('\n'),
{
    let l = "$zenith_rofi_bg = "@ + t;
    reveal_strlit("$zenith_rofi_bg = ");
    reveal_strlit("monitor = ");
    lemma_setting_starts();
    lemma_setting_value("$zenith_rofi_bg = "@, t);
    reveal(entry_part_1);
    reveal(entry_part_2);
    reveal(entry_part_3);
    reveal(entry_part_4);
    assert(l[0] == '$' && l[8] == 'r' && l[10] == 'f');
    lemma_no_line_break("$zenith_rofi_bg = "@, t);
}

proof fn lemma_reads_text_rofi_fg(t: Seq<char>)
    requires
        plain_value(t),
    ensures
        config_entry_of("$zenith_rofi_fg = "@ + t) == Some(ConfigEntryView::Text(TextKey::RofiFg, t)),
        !("$zenith_rofi_fg = "@ + t).contains('\n'),
{
    let l = "$zenith_rofi_fg = "@ + t;
    reveal_strlit("$zenith_rofi_fg = ");
    reveal_strlit("monitor = ");
    lemma_setting_starts();
    lemma_setting_value("$zenith_rofi_fg = "@, t);
    reveal(entry_part_1);
    reveal(entry_part_2);
    reveal(entry_part_3);
    reveal(entry_part_4);
    assert(l[0] == '$' && l[8] == 'r' && l[10] == 'f' && l[13] == 'f');
    lemma_no_line_break("$zenith_rofi_fg = "@, t);
}

proof fn lemma_reads_float_rofi_opacity(t: Seq<char>)
    requires
        plain_value(t),
    ensures
        config_entry_of("$zenith_rofi_opacity = "@ + t) == Some(ConfigEntryView::Float(FloatKey::RofiOpacity, t)),
        !("$zenith_rofi_opacity = "@ + t).contains('\n'),
{
    let l = "$zenith_rofi_opacity = "@ + t;
    reveal_strlit("$zenith_rofi_opacity = ");
    reveal_strlit("monitor = ");
    lemma_setting_starts();
    lemma_setting_value("$zenith_rofi_opacity = "@, t);
    reveal(entry_part_1);
    reveal(entry_part_2);
    reveal(entry_part_3);
    reveal(entry_part_4);
    assert(l[0] == '$' && l[8] == 'r' && l[10] == 'f' && l[13] == 'o');
    lemma_no_line_break("$zenith_rofi_opacity = "@, t);
}

proof fn lemma_reads_int_rofi_rounding(t: Seq<char>)
    requires
        plain_value(t),
        parse_i32_text(t) is Some,
    ensures
        config_entry_of("$zenith_rofi_round = "@ + t) == Some(ConfigEntryView::Int(IntKey::RofiRounding, parse_i32_text(t)->0)),
        !("$zenith_rofi_round = "@ + t).contains('\n'),
{
    let l = "$zenith_rofi_round = "@ + t;
    reveal_strlit("$zenith_rofi_round = ");
    reveal_strlit("monitor = ");
    lemma_setting_starts();
    lemma_setting_value("$zenith_rofi_round = "@, t);
    reveal(entry_part_1);
    reveal(entry_part_2);
    reveal(entry_part_3);
    reveal(entry_part_4);
    assert(l[0] == '$' && l[8] == 'r' && l[10] == 'f' && l[13] == 'r');
    lemma_no_line_break("$zenith_rofi_round = "@, t);
}

proof fn lemma_reads_text_qs_bg(t: Seq<char>)
    requires
        plain_value(t),
    ensures
        config_entry_of("$zenith_qs_bg = "@ + t) == Some(ConfigEntryView::Text(TextKey::QsBg, t)),
        !("$zenith_qs_bg = "@ + t).contains('\n'),
{
    let l = "$zenith_qs_bg = "@ + t;
    reveal_strlit("$zenith_qs_bg = ");
    reveal_strlit("monitor = ");
    lemma_setting_starts();
    lemma_setting_value("$zenith_qs_bg = "@, t);
    reveal(entry_part_1);
    reveal(entry_part_2);
    reveal(entry_part_3);
    reveal(entry_part_4);
    assert(l[0] == '$' && l[8] == 'q');
    lemma_no_line_break("$zenith_qs_bg = "@, t);
}

proof fn lemma_reads_text_qs_accent(t: Seq<char>)
    requires
        plain_value(t),
    ensures
        config_entry_of("$zenith_qs_accent = "@ + t) == Some(ConfigEntryView::Text(TextKey::QsAccent, t)),
        !("$zenith_qs_accent = "@ + t).contains('\n'),
{
    let l = "$zenith_qs_accent = "@ + t;
    reveal_strlit("$zenith_qs_accent = ");
    reveal_strlit("monitor = ");
    lemma_setting_starts();
    lemma_setting_value("$zenith_qs_accent = "@, t);
    reveal(entry_part_1);
    reveal(entry_part_2);
    reveal(entry_part_3);
    reveal(entry_part_4);
    assert(l[0] == '$' && l[8] == 'q' && l[11] == 'a');
    lemma_no_line_break("$zenith_qs_accent = "@, t);
}

proof fn lemma_reads_float_qs_opacity(t: Seq<char>)
    requires
        plain_value(t),
    ensures
        config_entry_of("$zenith_qs_opacity = "@ + t) == Some(ConfigEntryView::Float(FloatKey::QsOpacity, t)),
        !("$zenith_qs_opacity = "@ + t).contains('\n'),
{
    let l = "$zenith_qs_opacity = "@ + t;
    reveal_strlit("$zenith_qs_opacity = ");
    reveal_strlit("monitor = ");
    lemma_setting_starts();
    lemma_setting_value("$zenith_qs_opacity = "@, t);
    reveal(entry_part_1);
    reveal(entry_part_2);
    reveal(entry_part_3);
    reveal(entry_part_4);
    assert(l[0] == '$' && l[8] == 'q' && l[11] == 'o');
    lemma_no_line_break("$zenith_qs_opacity = "@, t);
}

proof fn lemma_reads_int_qs_height(t: Seq<char>)
    requires
        plain_value(t),
        parse_i32_text(t) is Some,
    ensures
        config_entry_of("$zenith_qs_height = "@ + t) == Some(ConfigEntryView::Int(IntKey::QsHeight, parse_i32_text(t)->0)),
        !("$zenith_qs_height = "@ + t).contains('\n'),
{
    let l = "$zenith_qs_height = "@ + t;
    reveal_strlit("$zenith_qs_height = ");
    reveal_strlit("monitor = ");
    lemma_setting_starts();
    lemma_setting_value("$zenith_qs_height = "@, t);
    reveal(entry_part_1);
    reveal(entry_part_2);
    reveal(entry_part_3);
    reveal(entry_part_4);
    assert(l[0] == '$' && l[8] == 'q' && l[11] == 'h');
    lemma_no_line_break("$zenith_qs_height = "@, t);
}

proof fn lemma_reads_text_qs_position(t: Seq<char>)
    requires
        plain_value(t),
    ensures
        config_entry_of("$zenith_qs_position = "@ + t) == Some(ConfigEntryView::Text(TextKey::QsPosition, t)),
        !("$zenith_qs_position = "@ + t).contains('\n'),
{
    let l = "$zenith_qs_position = "@ + t;
    reveal_strlit("$zenith_qs_position = ");
    reveal_strlit("monitor = ");
    lemma_setting_starts();
    lemma_setting_value("$zenith_qs_position = "@, t);
    reveal(entry_part_1);
    reveal(entry_part_2);
    reveal(entry_part_3);
    reveal(entry_part_4);
    reveal(entry_part_5);
    assert(l[0] == '$' && l[8] == 'q' && l[11] == 'p');
    lemma_no_line_break("$zenith_qs_position = "@, t);
}

proof fn lemma_reads_int_qs_rounding(t: Seq<char>)
    requires
        plain_value(t),
        parse_i32_text(t) is Some,
    ensures
        config_entry_of("$zenith_qs_rounding = "@ + t) == Some(ConfigEntryView::Int(IntKey::QsRounding, parse_i32_text(t)->0)),
        !("$zenith_qs_rounding = "@ + t).contains('\n'),
{
    let l = "$zenith_qs_rounding = "@ + t;
    reveal_strlit("$zenith_qs_rounding = ");
    reveal_strlit("monitor = ");
    lemma_setting_starts();
    lemma_setting_value("$zenith_qs_rounding = "@, t);
    reveal(entry_part_1);
    reveal(entry_part_2);
    reveal(entry_part_3);
    reveal(entry_part_4);
    reveal(entry_part_5);
    assert(l[0] == '$' && l[8] == 'q' && l[11] == 'r');
    lemma_no_line_break("$zenith_qs_rounding = "@, t);
}

proof fn lemma_reads_int_qs_margin_h(t: Seq<char>)
    requires
        plain_value(t),
        parse_i32_text(t) is Some,
    ensures
        config_entry_of("$zenith_qs_margin_h = "@ + t) == Some(ConfigEntryView::Int(IntKey::QsMarginH, parse_i32_text(t)->0)),
        !("$zenith_qs_margin_h = "@ + t).contains('\n'),
{
    let l = "$zenith_qs_margin_h = "@ + t;
    reveal_strlit("$zenith_qs_margin_h = ");
    reveal_strlit("monitor = ");
    lemma_setting_starts();
    lemma_setting_value("$zenith_qs_margin_h = "@, t);
    reveal(entry_part_1);
    reveal(entry_part_2);
    reveal(entry_part_3);
    reveal(entry_part_4);
    reveal(entry_part_5);
    assert(l[0] == '$' && l[8] == 'q' && l[11] == 'm');
    lemma_no_line_break("$zenith_qs_margin_h = "@, t);
}

proof fn lemma_reads_int_qs_margin_v(t: Seq<char>)
    requires
        plain_value(t),
        parse_i32_text(t) is Some,
    ensures
        config_entry_of("$zenith_qs_margin_v = "@ + t) == Some(ConfigEntryView::Int(IntKey::QsMarginV, parse_i32_text(t)->0)),
        !("$zenith_qs_margin_v = "@ + t).contains('\n'),
{
    let l = "$zenith_qs_margin_v = "@ + t;
    reveal_strlit("$zenith_qs_margin_v = ");
    reveal_strlit("monitor = ");
    lemma_setting_starts();
    lemma_setting_value("$zenith_qs_margin_v = "@, t);
    reveal(entry_part_1);
    reveal(entry_part_2);
    reveal(entry_part_3);
    reveal(entry_part_4);
    reveal(entry_part_5);
    assert(l[0] == '$' && l[8] == 'q' && l[11] == 'm' && l[18] == 'v');
    lemma_no_line_break("$zenith_qs_margin_v = "@, t);
}

proof fn lemma_reads_int_qs_border_width(t: Seq<char>)
    requires
        plain_value(t),
        parse_i32_text(t) is Some,
    ensures
        config_entry_of("$zenith_qs_border_width = "@ + t) == Some(ConfigEntryView::Int(IntKey::QsBorderWidth, parse_i32_text(t)->0)),
        !("$zenith_qs_border_width = "@ + t).contains('\n'),
{
    let l = "$zenith_qs_border_width = "@ + t;
    reveal_strlit("$zenith_qs_border_width = ");
    reveal_strlit("monitor = ");
    lemma_setting_starts();
    lemma_setting_value("$zenith_qs_border_width = "@, t);
    reveal(entry_part_1);
    reveal(entry_part_2);
    reveal(entry_part_3);
    reveal(entry_part_4);
    reveal(entry_part_5);
    assert(l[0] == '$' && l[8] == 'q' && l[11] == 'b' && l[12] == 'o');
    lemma_no_line_break("$zenith_qs_border_width = "@, t);
}

proof fn lemma_reads_text_qs_border_color(t: Seq<char>)
    requires
        plain_value(t),
    ensures
        config_entry_of("$zenith_qs_border_color = "@ + t) == Some(ConfigEntryView::Text(TextKey::QsBorderColor, t)),
        !("$zenith_qs_border_color = "@ + t).contains('\n'),
{
    let l = "$zenith_qs_border_color = "@ + t;
    reveal_strlit("$zenith_qs_border_color = ");
    reveal_strlit("monitor = ");
    lemma_setting_starts();
    lemma_setting_value("$zenith_qs_border_color = "@, t);
    reveal(entry_part_1);
    reveal(entry_part_2);
    reveal(entry_part_3);
    reveal(entry_part_4);
    reveal(entry_part_5);
    assert(l[0] == '$' && l[8] == 'q' && l[11] == 'b' && l[12] == 'o' && l[18] == 'c');
    lemma_no_line_break("$zenith_qs_border_color = "@, t);
}

proof fn lemma_reads_text_qs_text_color(t: Seq<char>)
    requires
        plain_value(t),
    ensures
        config_entry_of("$zenith_qs_text_color = "@ + t) == Some(ConfigEntryView::Text(TextKey::QsTextColor, t)),
        !("$zenith_qs_text_color = "@ + t).contains('\n'),
{
    let l = "$zenith_qs_text_color = "@ + t;
    reveal_strlit("$zenith_qs_text_color = ");
    reveal_strlit("monitor = ");
    lemma_setting_starts();
    lemma_setting_value("$zenith_qs_text_color = "@, t);
    reveal(entry_part_1);
    reveal(entry_part_2);
    reveal(entry_part_3);
    reveal(entry_part_4);
    reveal(entry_part_5);
    assert(l[0] == '$' && l[8] == 'q' && l[11] == 't');
    lemma_no_line_break("$zenith_qs_text_color = "@, t);
}

proof fn lemma_reads_int_qs_font_size(t: Seq<char>)
    requires
        plain_value(t),
        parse_i32_text(t) is Some,
    ensures
        config_entry_of("$zenith_qs_font_size = "@ + t) == Some(ConfigEntryView::Int(IntKey::QsFontSize, parse_i32_text(t)->0)),
        !("$zenith_qs_font_size = "@ + t).contains('\n'),
{
    let l = "$zenith_qs_font_size = "@ + t;
    reveal_strlit("$zenith_qs_font_size = ");
    reveal_strlit("monitor = ");
    lemma_setting_starts();
    lemma_setting_value("$zenith_qs_font_size = "@, t);
    reveal(entry_part_1);
    reveal(entry_part_2);
    reveal(entry_part_3);
    reveal(entry_part_4);
    reveal(entry_part_5);
    assert(l[0] == '$' && l[8] == 'q' && l[11] == 'f');
    lemma_no_line_break("$zenith_qs_font_size = "@, t);
}

proof fn lemma_reads_flag_qs_floating(t: Seq<char>)
    requires
        plain_value(t),
        parse_bool_text(t) is Some,
    ensures
        config_entry_of("$zenith_qs_floating = "@ + t) == Some(ConfigEntryView::Flag(FlagKey::QsFloating, parse_bool_text(t)->0)),
        !("$zenith_qs_floating = "@ + t).contains('\n'),
{
    let l = "$zenith_qs_floating = "@ + t;
    reveal_strlit("$zenith_qs_floating = ");
    reveal_strlit("monitor = ");
    lemma_setting_starts();
    lemma_setting_value("$zenith_qs_floating = "@, t);
    reveal(entry_part_1);
    reveal(entry_part_2);
    reveal(entry_part_3);
    reveal(entry_part_4);
    reveal(entry_part_5);
    reveal(entry_part_6);
    assert(l[0] == '$' && l[8] == 'q' && l[11] == 'f' && l[12] == 'l');
    lemma_no_line_break("$zenith_qs_floating = "@, t);
}

proof fn lemma_reads_flag_qs_show_workspaces(t: Seq<char>)
    requires
        plain_value(t),
        parse_bool_text(t) is Some,
    ensures
        config_entry_of("$zenith_qs_show_workspaces = "@ + t) == Some(ConfigEntryView::Flag(FlagKey::QsShowWorkspaces, parse_bool_text(t)->0)),
        !("$zenith_qs_show_workspaces = "@ + t).contains('\n'),
{
    let l = "$zenith_qs_show_workspaces = "@ + t;
    reveal_strlit("$zenith_qs_show_workspaces = ");
    reveal_strlit("monitor = ");
    lemma_setting_starts();
    lemma_setting_value("$zenith_qs_show_workspaces = "@, t);
    reveal(entry_part_1);
    reveal(entry_part_2);
    reveal(entry_part_3);
    reveal(entry_part_4);
    reveal(entry_part_5);
    reveal(entry_part_6);
    assert(l[0] == '$' && l[8] == 'q' && l[11] == 's');
    lemma_no_line_break("$zenith_qs_show_workspaces = "@, t);
}

proof fn lemma_reads_flag_qs_show_cpu(t: Seq<char>)
    requires
        plain_value(t),
        parse_bool_text(t) is Some,
    ensures
        config_entry_of("$zenith_qs_show_cpu = "@ + t) == Some(ConfigEntryView::Flag(FlagKey::QsShowCpu, parse_bool_text(t)->0)),
        !("$zenith_qs_show_cpu = "@ + t).contains('\n'),
{
    let l = "$zenith_qs_show_cpu = "@ + t;
    reveal_strlit("$zenith_qs_show_cpu = ");
    reveal_strlit("monitor = ");
    lemma_setting_starts();
    lemma_setting_value("$zenith_qs_show_cpu = "@, t);
    reveal(entry_part_1);
    reveal(entry_part_2);
    reveal(entry_part_3);
    reveal(entry_part_4);
    reveal(entry_part_5);
    reveal(entry_part_6);
    assert(l[0] == '$' && l[8] == 'q' && l[11] == 's' && l[16] == 'c');
    lemma_no_line_break("$zenith_qs_show_cpu = "@, t);
}

proof fn lemma_reads_flag_qs_show_battery(t: Seq<char>)
    requires
        plain_value(t),
        parse_bool_text(t) is Some,
    ensures
        config_entry_of("$zenith_qs_show_battery = "@ + t) == Some(ConfigEntryView::Flag(FlagKey::QsShowBattery, parse_bool_text(t)->0)),
        !("$zenith_qs_show_battery = "@ + t).contains('\n'),
{
    let l = "$zenith_qs_show_battery = "@ + t;
    reveal_strlit("$zenith_qs_show_battery = ");
    reveal_strlit("monitor = ");
    lemma_setting_starts();
    lemma_setting_value("$zenith_qs_show_battery = "@, t);
    reveal(entry_part_1);
    reveal(entry_part_2);
    reveal(entry_part_3);
    reveal(entry_part_4);
    reveal(entry_part_5);
    reveal(entry_part_6);
    assert(l[0] == '$' && l[8] == 'q' && l[11] == 's' && l[16] == 'b');
    lemma_no_line_break("$zenith_qs_show_battery = "@, t);
}

proof fn lemma_reads_flag_qs_show_volume(t: Seq<char>)
    requires
        plain_value(t),
        parse_bool_text(t) is Some,
    ensures
        config_entry_of("$zenith_qs_show_volume = "@ + t) == Some(ConfigEntryView::Flag(FlagKey::QsShowVolume, parse_bool_text(t)->0)),
        !("$zenith_qs_show_volume = "@ + t).contains('\n'),
{
    let l = "$zenith_qs_show_volume = "@ + t;
    reveal_strlit("$zenith_qs_show_volume = ");
    reveal_strlit("monitor = ");
    lemma_setting_starts();
    lemma_setting_value("$zenith_qs_show_volume = "@, t);
    reveal(entry_part_1);
    reveal(entry_part_2);
    reveal(entry_part_3);
    reveal(entry_part_4);
    reveal(entry_part_5);
    reveal(entry_part_6);
    assert(l[0] == '$' && l[8] == 'q' && l[11] == 's' && l[16] == 'v');
    lemma_no_line_break("$zenith_qs_show_volume = "@, t);
}

proof fn lemma_reads_flag_qs_show_bluetooth(t: Seq<char>)
    requires
        plain_value(t),
        parse_bool_text(t) is Some,
    ensures
        config_entry_of("$zenith_qs_show_bluetooth = "@ + t) == Some(ConfigEntryView::Flag(FlagKey::QsShowBluetooth, parse_bool_text(t)->0)),
        !("$zenith_qs_show_bluetooth = "@ + t).contains('\n'),
{
    let l = "$zenith_qs_show_bluetooth = "@ + t;
    reveal_strlit("$zenith_qs_show_bluetooth = ");
    reveal_strlit("monitor = ");
    lemma_setting_starts();
    lemma_setting_value("$zenith_qs_show_bluetooth = "@, t);
    reveal(entry_part_1);
    reveal(entry_part_2);
    reveal(entry_part_3);
    reveal(entry_part_4);
    reveal(entry_part_5);
    reveal(entry_part_6);
    assert(l[0] == '$' && l[8] == 'q' && l[11] == 's' && l[16] == 'b' && l[17] == 'l');
    lemma_no_line_break("$zenith_qs_show_bluetooth = "@, t);
}

proof fn lemma_reads_flag_qs_show_network(t: Seq<char>)
    requires
        plain_value(t),
        parse_bool_text(t) is Some,
    ensures
        config_entry_of("$zenith_qs_show_network = "@ + t) == Some(ConfigEntryView::Flag(FlagKey::QsShowNetwork, parse_bool_text(t)->0)),
        !("$zenith_qs_show_network = "@ + t).contains('\n'),
{
    let l = "$zenith_qs_show_network = "@ + t;
    reveal_strlit("$zenith_qs_show_network = ");
    reveal_strlit("monitor = ");
    lemma_setting_starts();
    lemma_setting_value("$zenith_qs_show_network = "@, t);
    reveal(entry_part_1);
    reveal(entry_part_2);
    reveal(entry_part_3);
    reveal(entry_part_4);
    reveal(entry_part_5);
    reveal(entry_part_6);
    assert(l[0] == '$' && l[8] == 'q' && l[11] == 's' && l[16] == 'n');
    lemma_no_line_break("$zenith_qs_show_network = "@, t);
}

proof fn lemma_reads_flag_qs_show_clock(t: Seq<char>)
    requires
        plain_value(t),
        parse_bool_text(t) is Some,
    ensures
        config_entry_of("$zenith_qs_show_clock = "@ + t) == Some(ConfigEntryView::Flag(FlagKey::QsShowClock, parse_bool_text(t)->0)),
        !("$zenith_qs_show_clock = "@ + t).contains('\n'),
{
    let l = "$zenith_qs_show_clock = "@ + t;
    reveal_strlit("$zenith_qs_show_clock = ");
    reveal_strlit("monitor = ");
    lemma_setting_starts();
    lemma_setting_value("$zenith_qs_show_clock = "@, t);
    reveal(entry_part_1);
    reveal(entry_part_2);
    reveal(entry_part_3);
    reveal(entry_part_4);
    reveal(entry_part_5);
    reveal(entry_part_6);
    assert(l[0] == '$' && l[8] == 'q' && l[11] == 's' && l[16] == 'c' && l[17] == 'l');
    lemma_no_line_break("$zenith_qs_show_clock = "@, t);
}

proof fn lemma_reads_flag_qs_show_seconds(t: Seq<char>)
    requires
        plain_value(t),
        parse_bool_text(t) is Some,
    ensures
        config_entry_of("$zenith_qs_show_seconds = "@ + t) == Some(ConfigEntryView::Flag(FlagKey::QsShowSeconds, parse_bool_text(t)->0)),
        !("$zenith_qs_show_seconds = "@ + t).contains('\n'),
{
    let l = "$zenith_qs_show_seconds = "@ + t;
    reveal_strlit("$zenith_qs_show_seconds = ");
    reveal_strlit("monitor = ");
    lemma_setting_starts();
    lemma_setting_value("$zenith_qs_show_seconds = "@, t);
    reveal(entry_part_1);
    reveal(entry_part_2);
    reveal(entry_part_3);
    reveal(entry_part_4);
    reveal(entry_part_5);
    reveal(entry_part_6);
    reveal(entry_part_7);
    assert(l[0] == '$' && l[8] == 'q' && l[11] == 's' && l[16] == 's');
    lemma_no_line_break("$zenith_qs_show_seconds = "@, t);
}

proof fn lemma_reads_text_qs_bar_style(t: Seq<char>)
    requires
        plain_value(t),
    ensures
        config_entry_of("$zenith_qs_bar_style = "@ + t) == Some(ConfigEntryView::Text(TextKey::QsBarStyle, t)),
        !("$zenith_qs_bar_style = "@ + t).contains('\n'),
{
    let l = "$zenith_qs_bar_style = "@ + t;
    reveal_strlit("$zenith_qs_bar_style = ");
    reveal_strlit("monitor = ");
    lemma_setting_starts();
    lemma_setting_value("$zenith_qs_bar_style = "@, t);
    reveal(entry_part_1);
    reveal(entry_part_2);
    reveal(entry_part_3);
    reveal(entry_part_4);
    reveal(entry_part_5);
    reveal(entry_part_6);
    reveal(entry_part_7);
    assert(l[0] == '$' && l[8] == 'q' && l[11] == 'b' && l[12] == 'a');
    lemma_no_line_break("$zenith_qs_bar_style = "@, t);
}

proof fn lemma_reads_text_qs_pill_bg(t: Seq<char>)
    requires
        plain_value(t),
    ensures
        config_entry_of("$zenith_qs_pill_bg = "@ + t) == Some(ConfigEntryView::Text(TextKey::QsPillBg, t)),
        !("$zenith_qs_pill_bg = "@ + t).contains('\n'),
{
    let l = "$zenith_qs_pill_bg = "@ + t;
    reveal_strlit("$zenith_qs_pill_bg = ");
    reveal_strlit("monitor = ");
    lemma_setting_starts();
    lemma_setting_value("$zenith_qs_pill_bg = "@, t);
    reveal(entry_part_1);
    reveal(entry_part_2);
    reveal(entry_part_3);
    reveal(entry_part_4);
    reveal(entry_part_5);
    reveal(entry_part_6);
    reveal(entry_part_7);
    assert(l[0] == '$' && l[8] == 'q' && l[11] == 'p' && l[12] == 'i');
    lemma_no_line_break("$zenith_qs_pill_bg = "@, t);
}

proof fn lemma_reads_float_qs_pill_opacity(t: Seq<char>)
    requires
        plain_value(t),
    ensures
        config_entry_of("$zenith_qs_pill_opacity = "@ + t) == Some(ConfigEntryView::Float(FloatKey::QsPillOpacity, t)),
        !("$zenith_qs_pill_opacity = "@ + t).contains('\n'),
{
    let l = "$zenith_qs_pill_opacity = "@ + t;
    reveal_strlit("$zenith_qs_pill_opacity = ");
    reveal_strlit("monitor = ");
    lemma_setting_starts();
    lemma_setting_value("$zenith_qs_pill_opacity = "@, t);
    reveal(entry_part_1);
    reveal(entry_part_2);
    reveal(entry_part_3);
    reveal(entry_part_4);
    reveal(entry_part_5);
    reveal(entry_part_6);
    reveal(entry_part_7);
    assert(l[0] == '$' && l[8] == 'q' && l[11] == 'p' && l[12] == 'i' && l[16] == 'o');
    lemma_no_line_break("$zenith_qs_pill_opacity = "@, t);
}

proof fn lemma_reads_int_qs_pill_rounding(t: Seq<char>)
    requires
        plain_value(t),
        parse_i32_text(t) is Some,
    ensures
        config_entry_of("$zenith_qs_pill_rounding = "@ + t) == Some(ConfigEntryView::Int(IntKey::QsPillRounding, parse_i32_text(t)->0)),
        !("$zenith_qs_pill_rounding = "@ + t).contains('\n'),
{
    let l = "$zenith_qs_pill_rounding = "@ + t;
    reveal_strlit("$zenith_qs_pill_rounding = ");
    reveal_strlit("monitor = ");
    lemma_setting_starts();
    lemma_setting_value("$zenith_qs_pill_rounding = "@, t);
    reveal(entry_part_1);
    reveal(entry_part_2);
    reveal(entry_part_3);
    reveal(entry_part_4);
    reveal(entry_part_5);
    reveal(entry_part_6);
    reveal(entry_part_7);
    assert(l[0] == '$' && l[8] == 'q' && l[11] == 'p' && l[12] == 'i' && l[16] == 'r');
    lemma_no_line_break("$zenith_qs_pill_rounding = "@, t);
}

proof fn lemma_reads_int_qs_module_spacing(t: Seq<char>)
    requires
        plain_value(t),
        parse_i32_text(t) is Some,
    ensures
        config_entry_of("$zenith_qs_module_spacing = "@ + t) == Some(ConfigEntryView::Int(IntKey::QsModuleSpacing, parse_i32_text(t)->0)),
        !("$zenith_qs_module_spacing = "@ + t).contains('\n'),
{
    let l = "$zenith_qs_module_spacing = "@ + t;
    reveal_strlit("$zenith_qs_module_spacing = ");
    reveal_strlit("monitor = ");
    lemma_setting_starts();
    lemma_setting_value("$zenith_qs_module_spacing = "@, t);
    reveal(entry_part_1);
    reveal(entry_part_2);
    reveal(entry_part_3);
    reveal(entry_part_4);
    reveal(entry_part_5);
    reveal(entry_part_6);
    reveal(entry_part_7);
    assert(l[0] == '$' && l[8] == 'q' && l[11] == 'm' && l[12] == 'o');
    lemma_no_line_break("$zenith_qs_module_spacing = "@, t);
}

proof fn lemma_reads_text_qs_brand_text(t: Seq<char>)
    requires
        plain_value(t),
    ensures
        config_entry_of("$zenith_qs_brand_text = "@ + t) == Some(ConfigEntryView::Text(TextKey::QsBrandText, t)),
        !("$zenith_qs_brand_text = "@ + t).contains('\n'),
{
    let l = "$zenith_qs_brand_text = "@ + t;
    reveal_strlit("$zenith_qs_brand_text = ");
    reveal_strlit("monitor = ");
    lemma_setting_starts();
    lemma_setting_value("$zenith_qs_brand_text = "@, t);
    reveal(entry_part_1);
    reveal(entry_part_2);
    reveal(entry_part_3);
    reveal(entry_part_4);
    reveal(entry_part_5);
    reveal(entry_part_6);
    reveal(entry_part_7);
    assert(l[0] == '$' && l[8] == 'q' && l[11] == 'b' && l[12] == 'r');
    lemma_no_line_break("$zenith_qs_brand_text = "@, t);
}

proof fn lemma_reads_flag_qs_show_brand(t: Seq<char>)
    requires
        plain_value(t),
        parse_bool_text(t) is Some,
    ensures
        config_entry_of("$zenith_qs_show_brand = "@ + t) == Some(ConfigEntryView::Flag(FlagKey::QsShowBrand, parse_bool_text(t)->0)),
        !("$zenith_qs_show_brand = "@ + t).contains('\n'),
{
    let l = "$zenith_qs_show_brand = "@ + t;
    reveal_strlit("$zenith_qs_show_brand = ");
    reveal_strlit("monitor = ");
    lemma_setting_starts();
    lemma_setting_value("$zenith_qs_show_brand = "@, t);
    reveal(entry_part_1);
    reveal(entry_part_2);
    reveal(entry_part_3);
    reveal(entry_part_4);
    reveal(entry_part_5);
    reveal(entry_part_6);
    reveal(entry_part_7);
    assert(l[0] == '$' && l[8] == 'q' && l[11] == 's' && l[16] == 'b' && l[17] == 'r');
    lemma_no_line_break("$zenith_qs_show_brand = "@, t);
}

proof fn lemma_reads_text_qs_status_text(t: Seq<char>)
    requires
        plain_value(t),
    ensures
        config_entry_of("$zenith_qs_status_text = "@ + t) == Some(ConfigEntryView::Text(TextKey::QsStatusText, t)),
        !("$zenith_qs_status_text = "@ + t).contains('\n'),
{
    let l = "$zenith_qs_status_text = "@ + t;
    reveal_strlit("$zenith_qs_status_text = ");
    reveal_strlit("monitor = ");
    lemma_setting_starts();
    lemma_setting_value("$zenith_qs_status_text = "@, t);
    reveal(entry_part_1);
    reveal(entry_part_2);
    reveal(entry_part_3);
    reveal(entry_part_4);
    reveal(entry_part_5);
    reveal(entry_part_6);
    reveal(entry_part_7);
    reveal(entry_part_8);
    assert(l[0] == '$' && l[8] == 'q' && l[11] == 's' && l[12] == 't');
    lemma_no_line_break("$zenith_qs_status_text = "@, t);
}

proof fn lemma_reads_flag_qs_show_status_badge(t: Seq<char>)
    requires
        plain_value(t),
        parse_bool_text(t) is Some,
    ensures
        config_entry_of("$zenith_qs_show_status_badge = "@ + t) == Some(ConfigEntryView::Flag(FlagKey::QsShowStatusBadge, parse_bool_text(t)->0)),
        !("$zenith_qs_show_status_badge = "@ + t).contains('\n'),
{
    let l = "$zenith_qs_show_status_badge = "@ + t;
    reveal_strlit("$zenith_qs_show_status_badge = ");
    reveal_strlit("monitor = ");
    lemma_setting_starts();
    lemma_setting_value("$zenith_qs_show_status_badge = "@, t);
    reveal(entry_part_1);
    reveal(entry_part_2);
    reveal(entry_part_3);
    reveal(entry_part_4);
    reveal(entry_part_5);
    reveal(entry_part_6);
    reveal(entry_part_7);
    reveal(entry_part_8);
    assert(l[0] == '$' && l[8] == 'q' && l[11] == 's' && l[12] == 'h' && l[16] == 's' && l[17] == 't');
    lemma_no_line_break("$zenith_qs_show_status_badge = "@, t);
}

proof fn lemma_reads_flag_qs_show_launcher_btn(t: Seq<char>)
    requires
        plain_value(t),
        parse_bool_text(t) is Some,
    ensures
        config_entry_of("$zenith_qs_show_launcher_btn = "@ + t) == Some(ConfigEntryView::Flag(FlagKey::QsShowLauncherBtn, parse_bool_text(t)->0)),
        !("$zenith_qs_show_launcher_btn = "@ + t).contains('\n'),
{
    let l = "$zenith_qs_show_launcher_btn = "@ + t;
    reveal_strlit("$zenith_qs_show_launcher_btn = ");
    reveal_strlit("monitor = ");
    lemma_setting_starts();
    lemma_setting_value("$zenith_qs_show_launcher_btn = "@, t);
    reveal(entry_part_1);
    reveal(entry_part_2);
    reveal(entry_part_3);
    reveal(entry_part_4);
    reveal(entry_part_5);
    reveal(entry_part_6);
    reveal(entry_part_7);
    reveal(entry_part_8);
    assert(l[0] == '$' && l[8] == 'q' && l[11] == 's' && l[12] == 'h' && l[16] == 'l');
    lemma_no_line_break("$zenith_qs_show_launcher_btn = "@, t);
}

proof fn lemma_reads_flag_qs_show_ram(t: Seq<char>)
    requires
        plain_value(t),
        parse_bool_text(t) is Some,
    ensures
        config_entry_of("$zenith_qs_show_ram = "@ + t) == Some(ConfigEntryView::Flag(FlagKey::QsShowRam, parse_bool_text(t)->0)),
        !("$zenith_qs_show_ram = "@ + t).contains('\n'),
{
    let l = "$zenith_qs_show_ram = "@ + t;
    reveal_strlit("$zenith_qs_show_ram = ");
    reveal_strlit("monitor = ");
    lemma_setting_starts();
    lemma_setting_value("$zenith_qs_show_ram = "@, t);
    reveal(entry_part_1);
    reveal(entry_part_2);
    reveal(entry_part_3);
    reveal(entry_part_4);
    reveal(entry_part_5);
    reveal(entry_part_6);
    reveal(entry_part_7);
    reveal(entry_part_8);
    assert(l[0] == '$' && l[8] == 'q' && l[11] == 's' && l[12] == 'h' && l[16] == 'r');
    lemma_no_line_break("$zenith_qs_show_ram = "@, t);
}

proof fn lemma_reads_flag_qs_show_media(t: Seq<char>)
    requires
        plain_value(t),
        parse_bool_text(t) is Some,
    ensures
        config_entry_of("$zenith_qs_show_media = "@ + t) == Some(ConfigEntryView::Flag(FlagKey::QsShowMedia, parse_bool_text(t)->0)),
        !("$zenith_qs_show_media = "@ + t).contains('\n'),
{
    let l = "$zenith_qs_show_media = "@ + t;
    reveal_strlit("$zenith_qs_show_media = ");
    reveal_strlit("monitor = ");
    lemma_setting_starts();
    lemma_setting_value("$zenith_qs_show_media = "@, t);
    reveal(entry_part_1);
    reveal(entry_part_2);
    reveal(entry_part_3);
    reveal(entry_part_4);
    reveal(entry_part_5);
    reveal(entry_part_6);
    reveal(entry_part_7);
    reveal(entry_part_8);
    assert(l[0] == '$' && l[8] == 'q' && l[11] == 's' && l[12] == 'h' && l[16] == 'm');
    lemma_no_line_break("$zenith_qs_show_media = "@, t);
}

proof fn lemma_reads_flag_qs_show_power_btn(t: Seq<char>)
    requires
        plain_value(t),
        parse_bool_text(t) is Some,
    ensures
        config_entry_of("$zenith_qs_show_power_btn = "@ + t) == Some(ConfigEntryView::Flag(FlagKey::QsShowPowerBtn, parse_bool_text(t)->0)),
        !("$zenith_qs_show_power_btn = "@ + t).contains('\n'),
{
    let l = "$zenith_qs_show_power_btn = "@ + t;
    reveal_strlit("$zenith_qs_show_power_btn = ");
    reveal_strlit("monitor = ");
    lemma_setting_starts();
    lemma_setting_value("$zenith_qs_show_power_btn = "@, t);
    reveal(entry_part_1);
    reveal(entry_part_2);
    reveal(entry_part_3);
    reveal(entry_part_4);
    reveal(entry_part_5);
    reveal(entry_part_6);
    reveal(entry_part_7);
    reveal(entry_part_8);
    assert(l[0] == '$' && l[8] == 'q' && l[11] == 's' && l[12] == 'h' && l[16] == 'p');
    lemma_no_line_break("$zenith_qs_show_power_btn = "@, t);
}

/// A setting's start followed by a plain value holds no line break, when the
/// start holds none.
proof fn lemma_no_line_break(p: Seq<char>, t: Seq<char>)
    requires
        forall|i: int| 0 <= i < p.len() ==> #[trigger] p[i] != '\n',
        plain_value(t),
    ensures
        !(p + t).contains('\n'),
{
    if (p + t).contains('\n') {
        let i = choose|i: int| 0 <= i < (p + t).len() && (p + t)[i] == '\n';
        if i >= p.len() {
            assert((p + t)[i] == t[i - p.len()]);
        }
    }
}

/// A monitor rule's line reads back as that rule.
proof fn lemma_reads_monitor(r: Seq<char>)
    requires
        plain_value(r),
    ensures
        config_entry_of("monitor = "@ + r) == Some(ConfigEntryView::Monitor(r)),
        !("monitor = "@ + r).contains('\n'),
{
    reveal_strlit("monitor = ");
    lemma_no_line_break("monitor = "@, r);
    lemma_setting_value("monitor = "@, r);
    let l = "monitor = "@ + r;
    assert(l.take(10) =~= "monitor = "@);
    assert(l.skip(10) =~= r);
    lemma_trimmed_plain(r);
}

/// The text `{}` prints for an `i32` is plain and parses back.
proof fn lemma_int_value_plain(v: i32)
    ensures
        plain_value(dec_signed_padded(v as int, 0)),
        parse_i32_text(dec_signed_padded(v as int, 0)) == Some(v),
{
    let t = dec_signed_padded(v as int, 0);
    lemma_int_text_shape(v);
    law_int_text_roundtrip(v);
    assert(!t.contains('\n')) by {
        if t.contains('\n') {
            let i = choose|i: int| 0 <= i < t.len() && t[i] == '\n';
            assert(is_ascii_digit(t[i]) || (i == 0 && t[i] == '-'));
        }
    }
}

/// The text `{}` prints for a truth value is plain and parses back.
proof fn lemma_flag_value_plain(b: bool)
    ensures
        plain_value(flag_text(b)),
        parse_bool_text(flag_text(b)) == Some(b),
{
    reveal(flag_text);
    reveal_strlit("true");
    reveal_strlit("false");
    let t = flag_text(b);
    if b {
        assert(t == "true"@);
    } else {
        assert(t == "false"@);
        assert(t.len() != "true"@.len());
    }
    assert(!t.contains('\n')) by {
        if t.contains('\n') {
            let i = choose|i: int| 0 <= i < t.len() && t[i] == '\n';
            assert(0 <= i < 5);
        }
    }
}

/// Whether an entry's value is carried unchanged by its line: the text of a
/// monitor rule, a text setting or a fractional setting is plain; whole
/// numbers and truth values always are.
pub open spec fn plain_entry(e: ConfigEntryView) -> bool {
    match e {
        ConfigEntryView::Monitor(r) => plain_value(r),
        ConfigEntryView::Text(_, t) => plain_value(t),
        ConfigEntryView::Float(_, t) => plain_value(t),
        _ => true,
    }
}

/// Each line `zenith.conf` is written with reads back as the entry it was
/// written from, when that entry's value is plain.
pub proof fn law_setting_line_reads_back(e: ConfigEntryView)
    requires
        plain_entry(e),
    ensures
        config_entry_of(entry_line(e)) == Some(e),
        !entry_line(e).contains('\n'),
{
    match e {
        ConfigEntryView::Monitor(r) => lemma_reads_monitor(r),
        ConfigEntryView::Int(k, v) => {
            let t = dec_signed_padded(v as int, 0);
            lemma_int_value_plain(v);
            match k {
                IntKey::GapsOut => lemma_reads_int_gaps_out(t),
                IntKey::GapsIn => lemma_reads_int_gaps_in(t),
                IntKey::BorderSize => lemma_reads_int_border_size(t),
                IntKey::Rounding => lemma_reads_int_rounding(t),
                IntKey::BlurSize => lemma_reads_int_blur_size(t),
                IntKey::WaybarHeight => lemma_reads_int_waybar_height(t),
                IntKey::WaybarRounding => lemma_reads_int_waybar_rounding(t),
                IntKey::RofiRounding => lemma_reads_int_rofi_rounding(t),
                IntKey::QsHeight => lemma_reads_int_qs_height(t),
                IntKey::QsRounding => lemma_reads_int_qs_rounding(t),
                IntKey::QsMarginH => lemma_reads_int_qs_margin_h(t),
                IntKey::QsMarginV => lemma_reads_int_qs_margin_v(t),
                IntKey::QsBorderWidth => lemma_reads_int_qs_border_width(t),
                IntKey::QsFontSize => lemma_reads_int_qs_font_size(t),
                IntKey::QsPillRounding => lemma_reads_int_qs_pill_rounding(t),
                IntKey::QsModuleSpacing => lemma_reads_int_qs_module_spacing(t),
            }
        },
        ConfigEntryView::Flag(k, b) => {
            let t = flag_text(b);
            lemma_flag_value_plain(b);
            match k {
                FlagKey::BlurEnabled => lemma_reads_flag_blur_enabled(t),
                FlagKey::ShadowEnabled => lemma_reads_flag_shadow_enabled(t),
                FlagKey::AnimationsEnabled => lemma_reads_flag_animations_enabled(t),
                FlagKey::QsFloating => lemma_reads_flag_qs_floating(t),
                FlagKey::QsShowWorkspaces => lemma_reads_flag_qs_show_workspaces(t),
                FlagKey::QsShowCpu => lemma_reads_flag_qs_show_cpu(t),
                FlagKey::QsShowBattery => lemma_reads_flag_qs_show_battery(t),
                FlagKey::QsShowVolume => lemma_reads_flag_qs_show_volume(t),
                FlagKey::QsShowBluetooth => lemma_reads_flag_qs_show_bluetooth(t),
                FlagKey::QsShowNetwork => lemma_reads_flag_qs_show_network(t),
                FlagKey::QsShowClock => lemma_reads_flag_qs_show_clock(t),
                FlagKey::QsShowSeconds => lemma_reads_flag_qs_show_seconds(t),
                FlagKey::QsShowBrand => lemma_reads_flag_qs_show_brand(t),
                FlagKey::QsShowStatusBadge => lemma_reads_flag_qs_show_status_badge(t),
                FlagKey::QsShowLauncherBtn => lemma_reads_flag_qs_show_launcher_btn(t),
                FlagKey::QsShowRam => lemma_reads_flag_qs_show_ram(t),
                FlagKey::QsShowMedia => lemma_reads_flag_qs_show_media(t),
                FlagKey::QsShowPowerBtn => lemma_reads_flag_qs_show_power_btn(t),
            }
        },
        ConfigEntryView::Text(k, t) => {
            match k {
                TextKey::ActiveBorderColor => lemma_reads_text_active_border_color(t),
                TextKey::WaybarPosition => lemma_reads_text_waybar_position(t),
                TextKey::WaybarBgColor => lemma_reads_text_waybar_bg_color(t),
                TextKey::ActiveBar => lemma_reads_text_active_bar(t),
                TextKey::DefaultLauncher => lemma_reads_text_default_launcher(t),
                TextKey::DefaultTerminal => lemma_reads_text_default_terminal(t),
                TextKey::DefaultShell => lemma_reads_text_default_shell(t),
                TextKey::KittyBg => lemma_reads_text_kitty_bg(t),
                TextKey::KittyFg => lemma_reads_text_kitty_fg(t),
                TextKey::RofiBg => lemma_reads_text_rofi_bg(t),
                TextKey::RofiFg => lemma_reads_text_rofi_fg(t),
                TextKey::QsBg => lemma_reads_text_qs_bg(t),
                TextKey::QsAccent => lemma_reads_text_qs_accent(t),
                TextKey::QsPosition => lemma_reads_text_qs_position(t),
                TextKey::QsBorderColor => lemma_reads_text_qs_border_color(t),
                TextKey::QsTextColor => lemma_reads_text_qs_text_color(t),
                TextKey::QsBarStyle => lemma_reads_text_qs_bar_style(t),
                TextKey::QsPillBg => lemma_reads_text_qs_pill_bg(t),
                TextKey::QsBrandText => lemma_reads_text_qs_brand_text(t),
                TextKey::QsStatusText => lemma_reads_text_qs_status_text(t),
            }
        },
        ConfigEntryView::Float(k, t) => {
            match k {
                FloatKey::ActiveOpacity => lemma_reads_float_active_opacity(t),
                FloatKey::InactiveOpacity => lemma_reads_float_inactive_opacity(t),
                FloatKey::WaybarOpacity => lemma_reads_float_waybar_opacity(t),
                FloatKey::KittyOpacity => lemma_reads_float_kitty_opacity(t),
                FloatKey::KittyFontSize => lemma_reads_float_kitty_font_size(t),
                FloatKey::RofiOpacity => lemma_reads_float_rofi_opacity(t),
                FloatKey::QsOpacity => lemma_reads_float_qs_opacity(t),
                FloatKey::QsPillOpacity => lemma_reads_float_qs_pill_opacity(t),
            }
        },
    }
}
proof fn lemma_part_1_skips(l: Seq<char>)
    requires
        !(l.len() > 1 && l[0] == '$' && l[1] == 'z'),
    ensures
        entry_part_1(l) == entry_part_2(l),
{
    reveal(entry_part_1);
    lemma_setting_starts();
    lemma_not_setting_start("$zenith_gaps_out = "@, l);
    lemma_not_setting_start("$zenith_gaps_in = "@, l);
    lemma_not_setting_start("$zenith_border_size = "@, l);
    lemma_not_setting_start("$zenith_rounding = "@, l);
    lemma_not_setting_start("$zenith_active_border_color = "@, l);
    lemma_not_setting_start("$zenith_active_opacity = "@, l);
    lemma_not_setting_start("$zenith_inactive_opacity = "@, l);
    lemma_not_setting_start("$zenith_blur_enabled = "@, l);
}

proof fn lemma_part_2_skips(l: Seq<char>)
    requires
        !(l.len() > 1 && l[0] == '$' && l[1] == 'z'),
    ensures
        entry_part_2(l) == entry_part_3(l),
{
    reveal(entry_part_2);
    lemma_setting_starts();
    lemma_not_setting_start("$zenith_blur_size = "@, l);
    lemma_not_setting_start("$zenith_shadow_enabled = "@, l);
    lemma_not_setting_start("$zenith_animations_enabled = "@, l);
    lemma_not_setting_start("$zenith_wb_pos = "@, l);
    lemma_not_setting_start("$zenith_wb_height = "@, l);
    lemma_not_setting_start("$zenith_wb_bg = "@, l);
    lemma_not_setting_start("$zenith_wb_opacity = "@, l);
    lemma_not_setting_start("$zenith_wb_round = "@, l);
}

proof fn lemma_part_3_skips(l: Seq<char>)
    requires
        !(l.len() > 1 && l[0] == '$' && l[1] == 'z'),
    ensures
        entry_part_3(l) == entry_part_4(l),
{
    reveal(entry_part_3);
    lemma_setting_starts();
    lemma_not_setting_start("$zenith_active_bar = "@, l);
    lemma_not_setting_start("$zenith_launcher = "@, l);
    lemma_not_setting_start("$zenith_terminal = "@, l);
    lemma_not_setting_start("$zenith_shell = "@, l);
    lemma_not_setting_start("$zenith_kitty_bg = "@, l);
    lemma_not_setting_start("$zenith_kitty_fg = "@, l);
    lemma_not_setting_start("$zenith_kitty_opacity = "@, l);
    lemma_not_setting_start("$zenith_kitty_font = "@, l);
}

proof fn lemma_part_4_skips(l: Seq<char>)
    requires
        !(l.len() > 1 && l[0] == '$' && l[1] == 'z'),
    ensures
        entry_part_4(l) == entry_part_5(l),
{
    reveal(entry_part_4);
    lemma_setting_starts();
    lemma_not_setting_start("$zenith_rofi_bg = "@, l);
    lemma_not_setting_start("$zenith_rofi_fg = "@, l);
    lemma_not_setting_start("$zenith_rofi_opacity = "@, l);
    lemma_not_setting_start("$zenith_rofi_round = "@, l);
    lemma_not_setting_start("$zenith_qs_bg = "@, l);
    lemma_not_setting_start("$zenith_qs_accent = "@, l);
    lemma_not_setting_start("$zenith_qs_opacity = "@, l);
    lemma_not_setting_start("$zenith_qs_height = "@, l);
}

proof fn lemma_part_5_skips(l: Seq<char>)
    requires
        !(l.len() > 1 && l[0] == '$' && l[1] == 'z'),
    ensures
        entry_part_5(l) == entry_part_6(l),
{
    reveal(entry_part_5);
    lemma_setting_starts();
    lemma_not_setting_start("$zenith_qs_position = "@, l);
    lemma_not_setting_start("$zenith_qs_rounding = "@, l);
    lemma_not_setting_start("$zenith_qs_margin_h = "@, l);
    lemma_not_setting_start("$zenith_qs_margin_v = "@, l);
    lemma_not_setting_start("$zenith_qs_border_width = "@, l);
    lemma_not_setting_start("$zenith_qs_border_color = "@, l);
    lemma_not_setting_start("$zenith_qs_text_color = "@, l);
    lemma_not_setting_start("$zenith_qs_font_size = "@, l);
}

proof fn lemma_part_6_skips(l: Seq<char>)
    requires
        !(l.len() > 1 && l[0] == '$' && l[1] == 'z'),
    ensures
        entry_part_6(l) == entry_part_7(l),
{
    reveal(entry_part_6);
    lemma_setting_starts();
    lemma_not_setting_start("$zenith_qs_floating = "@, l);
    lemma_not_setting_start("$zenith_qs_show_workspaces = "@, l);
    lemma_not_setting_start("$zenith_qs_show_cpu = "@, l);
    lemma_not_setting_start("$zenith_qs_show_battery = "@, l);
    lemma_not_setting_start("$zenith_qs_show_volume = "@, l);
    lemma_not_setting_start("$zenith_qs_show_bluetooth = "@, l);
    lemma_not_setting_start("$zenith_qs_show_network = "@, l);
    lemma_not_setting_start("$zenith_qs_show_clock = "@, l);
}

proof fn lemma_part_7_skips(l: Seq<char>)
    requires
        !(l.len() > 1 && l[0] == '$' && l[1] == 'z'),
    ensures
        entry_part_7(l) == entry_part_8(l),
{
    reveal(entry_part_7);
    lemma_setting_starts();
    lemma_not_setting_start("$zenith_qs_show_seconds = "@, l);
    lemma_not_setting_start("$zenith_qs_bar_style = "@, l);
    lemma_not_setting_start("$zenith_qs_pill_bg = "@, l);
    lemma_not_setting_start("$zenith_qs_pill_opacity = "@, l);
    lemma_not_setting_start("$zenith_qs_pill_rounding = "@, l);
    lemma_not_setting_start("$zenith_qs_module_spacing = "@, l);
    lemma_not_setting_start("$zenith_qs_brand_text = "@, l);
    lemma_not_setting_start("$zenith_qs_show_brand = "@, l);
}

proof fn lemma_part_8_skips(l: Seq<char>)
    requires
        !(l.len() > 1 && l[0] == '$' && l[1] == 'z'),
    ensures
        entry_part_8(l) is None,
{
    reveal(entry_part_8);
    lemma_setting_starts();
    lemma_not_setting_start("$zenith_qs_status_text = "@, l);
    lemma_not_setting_start("$zenith_qs_show_status_badge = "@, l);
    lemma_not_setting_start("$zenith_qs_show_launcher_btn = "@, l);
    lemma_not_setting_start("$zenith_qs_show_ram = "@, l);
    lemma_not_setting_start("$zenith_qs_show_media = "@, l);
    lemma_not_setting_start("$zenith_qs_show_power_btn = "@, l);
}

proof fn lemma_not_setting_start(p: Seq<char>, l: Seq<char>)
    requires
        p.len() > 1,
        p[0] == '$',
        p[1] == 'z',
        !(l.len() > 1 && l[0] == '$' && l[1] == 'z'),
    ensures
        !crate::text::is_prefix(p, l),
{
    if p.len() <= l.len() && l.take(p.len() as int) == p {
        assert(l.take(p.len() as int)[0] == l[0]);
        assert(l.take(p.len() as int)[1] == l[1]);
    }
}

/// A line that, once trimmed, neither starts with `m` nor with `$z` sets
/// nothing.
proof fn lemma_line_sets_nothing(line: Seq<char>)
    requires
        !(trimmed(line).len() > 0 && trimmed(line)[0] == 'm'),
        !(trimmed(line).len() > 1 && trimmed(line)[0] == '$' && trimmed(line)[1] == 'z'),
    ensures
        config_entry_of(line) is None,
{
    let l = trimmed(line);
    reveal_strlit("monitor = ");
    assert(!crate::text::is_prefix("monitor = "@, l)) by {
        if l.len() >= 10 {
            assert(l.take(10)[0] == l[0]);
        }
    }
    lemma_part_1_skips(l);
    lemma_part_2_skips(l);
    lemma_part_3_skips(l);
    lemma_part_4_skips(l);
    lemma_part_5_skips(l);
    lemma_part_6_skips(l);
    lemma_part_7_skips(l);
    lemma_part_8_skips(l);
}

// ---------------------------------------------------------------------------
// Reading the whole file.
// ---------------------------------------------------------------------------

/// The entries that a list of lines sets, in the order of the lines.
pub open spec fn read_entries(lines: Seq<Seq<char>>) -> Seq<ConfigEntryView>
    decreases lines.len(),
{
    if lines.len() == 0 {
        Seq::empty()
    } else {
        let before = read_entries(lines.drop_last());
        match config_entry_of(lines.last()) {
            Some(e) => before.push(e),
            None => before,
        }
    }
}

proof fn lemma_read_entries_concat(a: Seq<Seq<char>>, b: Seq<Seq<char>>)
    ensures
        read_entries(a + b) == read_entries(a) + read_entries(b),
    decreases b.len(),
{
    if b.len() == 0 {
        assert(a + b =~= a);
        assert(read_entries(a) + read_entries(b) =~= read_entries(a));
    } else {
        lemma_read_entries_concat(a, b.drop_last());
        assert((a + b).drop_last() =~= a + b.drop_last());
        assert((a + b).last() == b.last());
        match config_entry_of(b.last()) {
            Some(e) => {
                assert(read_entries(a) + read_entries(b.drop_last()).push(e) =~= (read_entries(a)
                    + read_entries(b.drop_last())).push(e));
            },
            None => {},
        }
    }
}

proof fn lemma_read_entries_each(lines: Seq<Seq<char>>, es: Seq<ConfigEntryView>)
    requires
        lines.len() == es.len(),
        forall|i: int| 0 <= i < lines.len() ==> config_entry_of(#[trigger] lines[i]) == Some(es[i]),
    ensures
        read_entries(lines) == es,
    decreases lines.len(),
{
    if lines.len() > 0 {
        let n = lines.len() - 1;
        assert forall|i: int| 0 <= i < n implies config_entry_of(#[trigger] lines.drop_last()[i])
            == Some(es.drop_last()[i]) by {
            assert(lines.drop_last()[i] == lines[i]);
        }
        lemma_read_entries_each(lines.drop_last(), es.drop_last());
        assert(config_entry_of(lines[n]) == Some(es[n]));
        assert(es.drop_last().push(es.last()) =~= es);
    } else {
        assert(es =~= Seq::<ConfigEntryView>::empty());
    }
}

proof fn lemma_read_entries_none(lines: Seq<Seq<char>>)
    requires
        forall|i: int| 0 <= i < lines.len() ==> config_entry_of(#[trigger] lines[i]) is None,
    ensures
        read_entries(lines) == Seq::<ConfigEntryView>::empty(),
    decreases lines.len(),
{
    if lines.len() > 0 {
        assert forall|i: int| 0 <= i < lines.len() - 1 implies config_entry_of(
            #[trigger] lines.drop_last()[i],
        ) is None by {
            assert(lines.drop_last()[i] == lines[i]);
        }
        lemma_read_entries_none(lines.drop_last());
        assert(config_entry_of(lines[lines.len() - 1]) is None);
    }
}

/// The views of a list of entries.
pub open spec fn entry_views(v: Seq<ConfigEntry>) -> Seq<ConfigEntryView> {
    v.map_values(|e: ConfigEntry| e@)
}

/// Reads the entries of `zenith.conf` from its text, line by line (a line
/// break may be preceded by a carriage return: it is white space and trimmed
/// away with the rest).
pub fn config_entries(text: &str) -> (r: Vec<ConfigEntry>)
    ensures
        entry_views(r@) == read_entries(split_char(text@, '\n')),
{
    let lines = split_at_char(text, '\n');
    let ghost ls = views(lines@);
    let mut out: Vec<ConfigEntry> = Vec::new();
    let mut i: usize = 0;
    while i < lines.len()
        invariant
            i <= lines@.len(),
            ls == views(lines@),
            ls == split_char(text@, '\n'),
            entry_views(out@) == read_entries(ls.take(i as int)),
        decreases lines.len() - i,
    {
        let e = config_entry(lines[i].as_str());
        proof {
            assert(ls.take(i + 1).drop_last() =~= ls.take(i as int));
            assert(ls.take(i + 1).last() == lines@[i as int]@);
        }
        let ghost before = out@;
        match e {
            Some(x) => {
                let ghost xv = x@;
                out.push(x);
                proof {
                    assert(entry_views(out@) =~= entry_views(before).push(xv));
                }
            },
            None => {},
        }
        i = i + 1;
    }
    proof {
        assert(ls.take(ls.len() as int) =~= ls);
    }
    out
}


/// The lines after the settings set nothing and hold no line break.
proof fn lemma_closing_lines(c: ConfigFile)
    requires
        plain_value(c.default_terminal@),
    ensures
        forall|i: int| 0 <= i < closing_lines(c).len() ==> config_entry_of(#[trigger] closing_lines(c)[i]) is None
            && !closing_lines(c)[i].contains('\n'),
{
    let cl = closing_lines(c);
    lemma_empty_line();
    reveal_strlit("$terminal = ");
    lemma_no_line_break("$terminal = "@, c.default_terminal@);
    lemma_fixed_line("$terminal = "@ + c.default_terminal@);
    reveal_strlit("$menu = ");
    reveal_strlit("wofi --show drun");
    reveal_strlit("rofi -show drun");
    lemma_no_line_break("$menu = "@, launcher_of(c.default_launcher@));
    lemma_fixed_line("$menu = "@ + launcher_of(c.default_launcher@));
    lemma_empty_line();
    reveal_strlit("general {");
    lemma_fixed_line("general {"@);
    reveal_strlit("gaps_out = $zenith_gaps_out");
    lemma_fixed_line("gaps_out = $zenith_gaps_out"@);
    reveal_strlit("gaps_in = $zenith_gaps_in");
    lemma_fixed_line("gaps_in = $zenith_gaps_in"@);
    reveal_strlit("border_size = $zenith_border_size");
    lemma_fixed_line("border_size = $zenith_border_size"@);
    reveal_strlit("col.active_border = rgb($zenith_active_border_color)");
    lemma_fixed_line("col.active_border = rgb($zenith_active_border_color)"@);
    reveal_strlit("}");
    lemma_fixed_line("}"@);
    lemma_empty_line();
    reveal_strlit("decoration {");
    lemma_fixed_line("decoration {"@);
    reveal_strlit("rounding = $zenith_rounding");
    lemma_fixed_line("rounding = $zenith_rounding"@);
    reveal_strlit("active_opacity = $zenith_active_opacity");
    lemma_fixed_line("active_opacity = $zenith_active_opacity"@);
    reveal_strlit("inactive_opacity = $zenith_inactive_opacity");
    lemma_fixed_line("inactive_opacity = $zenith_inactive_opacity"@);
    reveal_strlit("shadow {");
    lemma_fixed_line("shadow {"@);
    reveal_strlit("enabled = $zenith_shadow_enabled");
    lemma_fixed_line("enabled = $zenith_shadow_enabled"@);
    reveal_strlit("}");
    lemma_fixed_line("}"@);
    reveal_strlit("blur {");
    lemma_fixed_line("blur {"@);
    reveal_strlit("enabled = $zenith_blur_enabled");
    lemma_fixed_line("enabled = $zenith_blur_enabled"@);
    reveal_strlit("size = $zenith_blur_size");
    lemma_fixed_line("size = $zenith_blur_size"@);
    reveal_strlit("}");
    lemma_fixed_line("}"@);
    reveal_strlit("}");
    lemma_fixed_line("}"@);
    lemma_empty_line();
    reveal_strlit("animations {");
    lemma_fixed_line("animations {"@);
    reveal_strlit("enabled = $zenith_animations_enabled");
    lemma_fixed_line("enabled = $zenith_animations_enabled"@);
    reveal_strlit("}");
    lemma_fixed_line("}"@);
    lemma_empty_line();
    assert forall|i: int| 0 <= i < cl.len() implies config_entry_of(#[trigger] cl[i]) is None
        && !cl[i].contains('\n') by {
        if i == 0 {
            assert(cl[0] == Seq::<char>::empty());
        } else if i == 1 {
            assert(cl[1] == "$terminal = "@ + c.default_terminal@);
        } else if i == 2 {
            assert(cl[2] == "$menu = "@ + launcher_of(c.default_launcher@));
        } else if i == 3 {
            assert(cl[3] == Seq::<char>::empty());
        } else if i == 4 {
            assert(cl[4] == "general {"@);
        } else if i == 5 {
            assert(cl[5] == "gaps_out = $zenith_gaps_out"@);
        } else if i == 6 {
            assert(cl[6] == "gaps_in = $zenith_gaps_in"@);
        } else if i == 7 {
            assert(cl[7] == "border_size = $zenith_border_size"@);
        } else if i == 8 {
            assert(cl[8] == "col.active_border = rgb($zenith_active_border_color)"@);
        } else if i == 9 {
            assert(cl[9] == "}"@);
        } else if i == 10 {
            assert(cl[10] == Seq::<char>::empty());
        } else if i == 11 {
            assert(cl[11] == "decoration {"@);
        } else if i == 12 {
            assert(cl[12] == "rounding = $zenith_rounding"@);
        } else if i == 13 {
            assert(cl[13] == "active_opacity = $zenith_active_opacity"@);
        } else if i == 14 {
            assert(cl[14] == "inactive_opacity = $zenith_inactive_opacity"@);
        } else if i == 15 {
            assert(cl[15] == "shadow {"@);
        } else if i == 16 {
            assert(cl[16] == "enabled = $zenith_shadow_enabled"@);
        } else if i == 17 {
            assert(cl[17] == "}"@);
        } else if i == 18 {
            assert(cl[18] == "blur {"@);
        } else if i == 19 {
            assert(cl[19] == "enabled = $zenith_blur_enabled"@);
        } else if i == 20 {
            assert(cl[20] == "size = $zenith_blur_size"@);
        } else if i == 21 {
            assert(cl[21] == "}"@);
        } else if i == 22 {
            assert(cl[22] == "}"@);
        } else if i == 23 {
            assert(cl[23] == Seq::<char>::empty());
        } else if i == 24 {
            assert(cl[24] == "animations {"@);
        } else if i == 25 {
            assert(cl[25] == "enabled = $zenith_animations_enabled"@);
        } else if i == 26 {
            assert(cl[26] == "}"@);
        } else if i == 27 {
            assert(cl[27] == Seq::<char>::empty());
        }
    }
}

/// A line that is already trimmed and starts neither with `m` nor with `$z`
/// sets nothing.
proof fn lemma_fixed_line(l: Seq<char>)
    requires
        l.len() > 0,
        !unicode_whitespace(l[0]),
        !unicode_whitespace(l.last()),
        l[0] != 'm',
        !(l.len() > 1 && l[0] == '$' && l[1] == 'z'),
        !l.contains('\n'),
    ensures
        config_entry_of(l) is None,
        !l.contains('\n'),
{
    lemma_trimmed_plain(l);
    lemma_line_sets_nothing(l);
}

proof fn lemma_empty_line()
    ensures
        config_entry_of(Seq::<char>::empty()) is None,
        !Seq::<char>::empty().contains('\n'),
{
    let e = Seq::<char>::empty();
    assert(trim_start(e) == e);
    assert(trim_end(e) == e);
    lemma_line_sets_nothing(e);
}

/// Whether every value of a configuration is carried unchanged by
/// `zenith.conf`: its monitor rules and its text settings are plain.
pub open spec fn plain_config(c: ConfigFile) -> bool {
    &&& forall|i: int| 0 <= i < c.monitor_rules@.len() ==> plain_value(#[trigger] c.monitor_rules@[i]@)
    &&& forall|i: int| 0 <= i < settings_of(c).len() ==> plain_entry(#[trigger] settings_of(c)[i])
}

/// The monitor entries of a configuration, one per rule, in order.
pub open spec fn monitor_entries(c: ConfigFile) -> Seq<ConfigEntryView> {
    views(c.monitor_rules@).map_values(|r: Seq<char>| ConfigEntryView::Monitor(r))
}

/// What is saved is what is loaded: reading `zenith.conf` line by line after
/// writing it from a configuration gives one monitor entry per rule, in
/// order, and then every setting with the value it was written with, when
/// the configuration's values are plain.
pub proof fn law_config_file_reads_back(c: ConfigFile)
    requires
        plain_config(c),
    ensures
        read_entries(split_char(config_text_of(c), '\n')) == monitor_entries(c) + settings_of(c),
{
    let hd: Seq<Seq<char>> = seq!["# Generated by Zenith Control"@];
    let ms = views(c.monitor_rules@).map_values(|r: Seq<char>| "monitor = "@ + r);
    let em: Seq<Seq<char>> = seq![Seq::<char>::empty()];
    let ss = settings_of(c).map_values(|e: ConfigEntryView| entry_line(e));
    let cl = closing_lines(c);
    let lines = file_lines(c);
    assert(lines == hd + ms + em + ss + cl);

    reveal_strlit("# Generated by Zenith Control");
    lemma_fixed_line("# Generated by Zenith Control"@);
    lemma_read_entries_none(hd);

    let me = monitor_entries(c);
    assert forall|i: int| 0 <= i < ms.len() implies config_entry_of(#[trigger] ms[i]) == Some(me[i])
        && !ms[i].contains('\n') by {
        assert(plain_value(c.monitor_rules@[i]@));
        lemma_reads_monitor(c.monitor_rules@[i]@);
    }
    lemma_read_entries_each(ms, me);

    lemma_empty_line();
    lemma_read_entries_none(em);

    let st = settings_of(c);
    assert forall|i: int| 0 <= i < ss.len() implies config_entry_of(#[trigger] ss[i]) == Some(st[i])
        && !ss[i].contains('\n') by {
        assert(plain_entry(st[i]));
        law_setting_line_reads_back(st[i]);
    }
    lemma_read_entries_each(ss, st);

    assert(plain_entry(st[18]));
    lemma_closing_lines(c);
    lemma_read_entries_none(cl);

    assert forall|k: int| 0 <= k < lines.len() implies !(#[trigger] lines[k]).contains('\n') by {
        let a = hd.len() + ms.len();
        let b = a + 1;
        let d = b + ss.len();
        if k == 0 {
            assert(lines[k] == hd[0]);
        } else if k < a {
            assert(lines[k] == ms[k - 1]);
        } else if k < b {
            assert(lines[k] == em[0]);
        } else if k < d {
            assert(lines[k] == ss[k - b]);
        } else {
            assert(lines[k] == cl[k - d]);
        }
    }
    crate::text::law_join_then_split(lines, '\n');
    reveal_strlit("\n");
    assert("\n"@ == seq!['\n']);

    lemma_read_entries_concat(hd + ms + em + ss, cl);
    lemma_read_entries_concat(hd + ms + em, ss);
    lemma_read_entries_concat(hd + ms, em);
    lemma_read_entries_concat(hd, ms);
    assert(Seq::<ConfigEntryView>::empty() + me + Seq::<ConfigEntryView>::empty() + st
        + Seq::<ConfigEntryView>::empty() =~= me + st);
}


// ---------------------------------------------------------------------------
// Writing settings back into an existing `zenith.conf`.
// ---------------------------------------------------------------------------

/// The first line of a generated `zenith.conf`.
pub open spec fn header_line() -> Seq<char> {
    "# Generated by Zenith Control"@
}

/// Whether the control center owns a line of `zenith.conf`: a line that
/// sets something (a monitor rule or a setting), the header, or the
/// `$terminal` and `$menu` variables. Every other line (comments, empty
/// lines, binds, sections) belongs to the user.
pub open spec fn gui_owned(line: Seq<char>) -> bool {
    let t = trimmed(line);
    config_entry_of(line) is Some || t == header_line() || is_prefix("$terminal = "@, t) || is_prefix(
        "$menu = "@,
        t,
    )
}

/// Whether a line belongs to the user.
pub open spec fn is_user_line() -> spec_fn(Seq<char>) -> bool {
    |l: Seq<char>| !gui_owned(l)
}

/// The user's lines among a list of lines, in order.
pub open spec fn user_lines(lines: Seq<Seq<char>>) -> Seq<Seq<char>> {
    lines.filter(is_user_line())
}

/// The lines the control center writes for a configuration: the header, the
/// monitor rules, the settings, and the terminal and menu variables.
pub open spec fn owned_lines(c: ConfigFile) -> Seq<Seq<char>> {
    seq![header_line()] + monitor_lines_of_file(c) + setting_lines_of(c) + seq![
        "$terminal = "@ + c.default_terminal@,
        "$menu = "@ + launcher_of(c.default_launcher@),
    ]
}

/// The lines of `zenith.conf` after writing a configuration over the
/// existing text: a new file when there is none (the text is empty);
/// otherwise the control center's lines followed by every line of the
/// existing file that belongs to the user, unchanged and in order.
pub open spec fn updated_lines(existing: Seq<char>, c: ConfigFile) -> Seq<Seq<char>> {
    if existing.len() == 0 {
        file_lines(c)
    } else {
        owned_lines(c) + user_lines(split_char(existing, '\n'))
    }
}

/// The text of `zenith.conf` after writing a configuration over the
/// existing text.
pub open spec fn updated_text(existing: Seq<char>, c: ConfigFile) -> Seq<char> {
    join(updated_lines(existing, c), "\n"@)
}

/// Whether the control center owns a line.
pub fn is_gui_owned(line: &str) -> (r: bool)
    ensures
        r == gui_owned(line@),
{
    if config_entry(line).is_some() {
        return true;
    }
    let t = trim(line);
    str_eq(t.as_str(), "# Generated by Zenith Control") || starts_with(t.as_str(), "$terminal = ")
        || starts_with(t.as_str(), "$menu = ")
}

/// Writes a configuration over the existing text of `zenith.conf`, keeping
/// every line that belongs to the user.
pub fn updated_config_text(existing: &str, c: &ConfigFile) -> (out: String)
    ensures
        out@ == updated_text(existing@, *c),
{
    if existing.unicode_len() == 0 {
        return config_file_text(c);
    }
    let mut lines: Vec<String> = Vec::new();
    push_line(&mut lines, copy_str("# Generated by Zenith Control"));
    push_monitor_lines(&mut lines, c);
    push_setting_lines(&mut lines, c);
    push_line(&mut lines, text_line("$terminal = ", c.default_terminal.as_str()));
    push_line(&mut lines, text_line("$menu = ", launcher_command(c.default_launcher.as_str())));
    let ghost head = views(lines@);
    proof {
        assert(head =~= owned_lines(*c));
    }
    let pieces = split_at_char(existing, '\n');
    let ghost ps = views(pieces@);
    let mut i: usize = 0;
    while i < pieces.len()
        invariant
            i <= pieces@.len(),
            ps == views(pieces@),
            views(lines@) == head + ps.take(i as int).filter(is_user_line()),
        decreases pieces.len() - i,
    {
        let ghost before = views(lines@);
        proof {
            reveal(Seq::filter);
            assert(ps.take(i + 1).drop_last() =~= ps.take(i as int));
            assert(ps.take(i + 1).last() == pieces@[i as int]@);
        }
        if !is_gui_owned(pieces[i].as_str()) {
            push_line(&mut lines, copy_str(pieces[i].as_str()));
            proof {
                assert(head + ps.take(i as int).filter(is_user_line()).push(pieces@[i as int]@) =~= before.push(
                    pieces@[i as int]@,
                ));
            }
        }
        i = i + 1;
    }
    proof {
        assert(ps.take(ps.len() as int) =~= ps);
    }
    join_strings(&lines, "\n")
}

/// The control center's lines are its own, hold no line break, and read
/// back as the monitor entries and the settings of the configuration.
proof fn lemma_owned_lines(c: ConfigFile)
    requires
        plain_config(c),
    ensures
        forall|k: int| 0 <= k < owned_lines(c).len() ==> gui_owned(#[trigger] owned_lines(c)[k]) && !owned_lines(
            c,
        )[k].contains('\n'),
        read_entries(owned_lines(c)) == monitor_entries(c) + settings_of(c),
{
    let hd: Seq<Seq<char>> = seq![header_line()];
    let ms = monitor_lines_of_file(c);
    let ss = setting_lines_of(c);
    let term = "$terminal = "@ + c.default_terminal@;
    let menu = "$menu = "@ + launcher_of(c.default_launcher@);
    let tl: Seq<Seq<char>> = seq![term, menu];
    let all = owned_lines(c);
    assert(all == hd + ms + ss + tl);

    reveal_strlit("# Generated by Zenith Control");
    lemma_trimmed_plain(header_line());
    lemma_fixed_line(header_line());

    let me = monitor_entries(c);
    assert forall|i: int| 0 <= i < ms.len() implies config_entry_of(#[trigger] ms[i]) == Some(me[i])
        && !ms[i].contains('\n') by {
        assert(plain_value(c.monitor_rules@[i]@));
        lemma_reads_monitor(c.monitor_rules@[i]@);
    }
    let st = settings_of(c);
    assert forall|i: int| 0 <= i < ss.len() implies config_entry_of(#[trigger] ss[i]) == Some(st[i])
        && !ss[i].contains('\n') by {
        assert(plain_entry(st[i]));
        law_setting_line_reads_back(st[i]);
    }

    assert(plain_entry(st[18]));
    reveal_strlit("$terminal = ");
    lemma_no_line_break("$terminal = "@, c.default_terminal@);
    lemma_trimmed_plain(term);
    lemma_fixed_line(term);
    assert(term.take(12) =~= "$terminal = "@);
    reveal_strlit("$menu = ");
    reveal_strlit("wofi --show drun");
    reveal_strlit("rofi -show drun");
    lemma_no_line_break("$menu = "@, launcher_of(c.default_launcher@));
    lemma_trimmed_plain(menu);
    lemma_fixed_line(menu);
    assert(menu.take(8) =~= "$menu = "@);

    assert forall|k: int| 0 <= k < all.len() implies gui_owned(#[trigger] all[k]) && !all[k].contains('\n') by {
        let a = 1 + ms.len();
        let b = a + ss.len();
        if k == 0 {
            assert(all[k] == header_line());
        } else if k < a {
            assert(all[k] == ms[k - 1]);
        } else if k < b {
            assert(all[k] == ss[k - a]);
        } else if k == b {
            assert(all[k] == term);
        } else {
            assert(all[k] == menu);
        }
    }

    lemma_read_entries_none(hd);
    lemma_read_entries_each(ms, me);
    lemma_read_entries_each(ss, st);
    assert(config_entry_of(tl[0]) is None && config_entry_of(tl[1]) is None);
    lemma_read_entries_none(tl);
    lemma_read_entries_concat(hd + ms + ss, tl);
    lemma_read_entries_concat(hd + ms, ss);
    lemma_read_entries_concat(hd, ms);
    assert(Seq::<ConfigEntryView>::empty() + me + st + Seq::<ConfigEntryView>::empty() =~= me + st);
}

/// The user's lines of a text hold no line break and set nothing.
proof fn lemma_user_lines_of_text(existing: Seq<char>)
    ensures
        forall|k: int| 0 <= k < user_lines(split_char(existing, '\n')).len() ==> !gui_owned(
            #[trigger] user_lines(split_char(existing, '\n'))[k],
        ) && !user_lines(split_char(existing, '\n'))[k].contains('\n'),
{
    let ps = split_char(existing, '\n');
    let us = user_lines(ps);
    crate::text::lemma_split_pieces(existing, '\n', Seq::empty());
    assert forall|k: int| 0 <= k < us.len() implies !gui_owned(#[trigger] us[k]) && !us[k].contains('\n') by {
        ps.lemma_filter_pred(is_user_line(), k);
        assert(us.contains(us[k]));
        ps.lemma_filter_contains_rev(is_user_line(), us[k]);
        let j = choose|j: int| 0 <= j < ps.len() && ps[j] == us[k];
        assert(!ps[j].contains('\n'));
    }
}

/// The text written holds exactly the lines it was made of.
proof fn lemma_updated_split(existing: Seq<char>, c: ConfigFile)
    requires
        plain_config(c),
        existing.len() > 0,
    ensures
        split_char(updated_text(existing, c), '\n') == owned_lines(c) + user_lines(split_char(existing, '\n')),
{
    let own = owned_lines(c);
    let us = user_lines(split_char(existing, '\n'));
    let lines = own + us;
    lemma_owned_lines(c);
    lemma_user_lines_of_text(existing);
    assert forall|k: int| 0 <= k < lines.len() implies !(#[trigger] lines[k]).contains('\n') by {
        if k < own.len() {
            assert(lines[k] == own[k]);
        } else {
            assert(lines[k] == us[k - own.len()]);
        }
    }
    crate::text::law_join_then_split(lines, '\n');
    reveal_strlit("\n");
    assert("\n"@ == seq!['\n']);
}

/// Writing settings back keeps the user's lines: the lines of the new text
/// that belong to the user are those of the old text, unchanged and in
/// order, when the configuration's values are plain.
pub proof fn law_update_keeps_user_lines(existing: Seq<char>, c: ConfigFile)
    requires
        plain_config(c),
        existing.len() > 0,
    ensures
        user_lines(split_char(updated_text(existing, c), '\n')) == user_lines(split_char(existing, '\n')),
{
    let own = owned_lines(c);
    let us = user_lines(split_char(existing, '\n'));
    lemma_updated_split(existing, c);
    lemma_owned_lines(c);
    lemma_user_lines_of_text(existing);
    Seq::filter_distributes_over_add(own, us, is_user_line());
    let fo = own.filter(is_user_line());
    if fo.len() > 0 {
        own.lemma_filter_pred(is_user_line(), 0);
        assert(fo.contains(fo[0]));
        own.lemma_filter_contains_rev(is_user_line(), fo[0]);
        let j = choose|j: int| 0 <= j < own.len() && own[j] == fo[0];
        assert(gui_owned(own[j]));
    }
    assert(fo =~= Seq::<Seq<char>>::empty());
    lemma_filter_keeps_all(us, is_user_line());
    assert(fo + us.filter(is_user_line()) =~= us);
}

/// Writing any configuration back over an existing file keeps the user's
/// lines: every line of the old text that belongs to the user is a line of
/// the new text, unchanged, in the same order, and together they end it.
pub proof fn law_update_ends_with_user_lines(existing: Seq<char>, c: ConfigFile)
    requires
        existing.len() > 0,
    ensures
        ({
            let lines = split_char(updated_text(existing, c), '\n');
            let us = user_lines(split_char(existing, '\n'));
            lines.len() >= us.len() && lines.skip(lines.len() - us.len()) == us
        }),
{
    let own = owned_lines(c);
    let us = user_lines(split_char(existing, '\n'));
    let lines = split_char(updated_text(existing, c), '\n');
    reveal_strlit("\n");
    assert("\n"@ == seq!['\n']);
    if us.len() == 0 {
        assert(own + us =~= own);
        assert(lines.skip(lines.len() as int) =~= us);
    } else {
        crate::text::lemma_join_concat(own, us, seq!['\n']);
        crate::text::lemma_split_around(join(own, seq!['\n']), join(us, seq!['\n']), '\n', Seq::empty());
        lemma_user_lines_of_text(existing);
        crate::text::law_join_then_split(us, '\n');
        let pre = split_char(join(own, seq!['\n']), '\n');
        assert(lines == pre + us);
        assert(lines.skip(lines.len() - us.len()) =~= us);
    }
}

proof fn lemma_filter_keeps_all(s: Seq<Seq<char>>, p: spec_fn(Seq<char>) -> bool)
    requires
        forall|k: int| 0 <= k < s.len() ==> p(#[trigger] s[k]),
    ensures
        s.filter(p) == s,
    decreases s.len(),
{
    reveal(Seq::filter);
    if s.len() > 0 {
        lemma_filter_keeps_all(s.drop_last(), p);
        assert(p(s[s.len() - 1]));
        assert(s.drop_last().push(s.last()) =~= s);
    } else {
        assert(s.filter(p) =~= s);
    }
}

/// Writing settings back over an existing file, what is loaded is what was
/// saved: the text read line by line gives one monitor entry per rule, in
/// order, then every setting with its new value, whatever lines the user
/// added, when the configuration's values are plain.
pub proof fn law_update_reads_back(existing: Seq<char>, c: ConfigFile)
    requires
        plain_config(c),
    ensures
        read_entries(split_char(updated_text(existing, c), '\n')) == monitor_entries(c) + settings_of(c),
{
    if existing.len() == 0 {
        law_config_file_reads_back(c);
    } else {
        let own = owned_lines(c);
        let us = user_lines(split_char(existing, '\n'));
        lemma_updated_split(existing, c);
        lemma_owned_lines(c);
        lemma_user_lines_of_text(existing);
        assert forall|k: int| 0 <= k < us.len() implies config_entry_of(#[trigger] us[k]) is None by {
            assert(!gui_owned(us[k]));
        }
        lemma_read_entries_none(us);
        lemma_read_entries_concat(own, us);
        assert(monitor_entries(c) + settings_of(c) + Seq::<ConfigEntryView>::empty() =~= monitor_entries(c)
            + settings_of(c));
    }
}

} // verus!
