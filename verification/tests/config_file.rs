use zenith::config_read::{config_entries, updated_config_text};
use zenith::config::{
    config_entry, config_file_text, dedup_monitor_rules, ConfigEntry, ConfigFile, FlagKey, FloatKey, IntKey, TextKey,
};

struct Cfg {
    gaps_out: i32,
    gaps_in: i32,
    border_size: i32,
    rounding: i32,
    active_border_color: String,
    active_opacity: f64,
    inactive_opacity: f64,
    blur_enabled: bool,
    blur_size: i32,
    shadow_enabled: bool,
    animations_enabled: bool,
    waybar_position: String,
    waybar_height: i32,
    waybar_bg_color: String,
    waybar_opacity: f64,
    waybar_rounding: i32,
    active_bar: String,
    default_launcher: String,
    default_terminal: String,
    default_shell: String,
    kitty_bg: String,
    kitty_fg: String,
    kitty_opacity: f64,
    kitty_font_size: f64,
    rofi_bg: String,
    rofi_fg: String,
    rofi_opacity: f64,
    rofi_rounding: i32,
    qs_bg: String,
    qs_accent: String,
    qs_opacity: f64,
    qs_height: i32,
    qs_position: String,
    qs_rounding: i32,
    qs_margin_h: i32,
    qs_margin_v: i32,
    qs_border_width: i32,
    qs_border_color: String,
    qs_text_color: String,
    qs_font_size: i32,
    qs_floating: bool,
    qs_bar_style: String,
    qs_pill_bg: String,
    qs_pill_opacity: f64,
    qs_pill_rounding: i32,
    qs_module_spacing: i32,
    qs_brand_text: String,
    qs_show_brand: bool,
    qs_status_text: String,
    qs_show_status_badge: bool,
    qs_show_workspaces: bool,
    qs_show_launcher_btn: bool,
    qs_show_cpu: bool,
    qs_show_ram: bool,
    qs_show_battery: bool,
    qs_show_volume: bool,
    qs_show_bluetooth: bool,
    qs_show_network: bool,
    qs_show_media: bool,
    qs_show_clock: bool,
    qs_show_seconds: bool,
    qs_show_power_btn: bool,
    monitor_rules: Vec<String>,
}

fn sample() -> Cfg {
        Cfg {
            gaps_out: 10,
            gaps_in: 5,
            border_size: 2,
            rounding: 8,
            active_border_color: "33ccff".to_string(),
            active_opacity: 1.0,
            inactive_opacity: 0.9,
            blur_enabled: true,
            blur_size: 6,
            shadow_enabled: true,
            animations_enabled: true,
            waybar_position: "top".to_string(),
            waybar_height: 32,
            waybar_bg_color: "1e1e2e".to_string(),
            waybar_opacity: 0.90,
            waybar_rounding: 10,
            active_bar: "waybar".to_string(),
            default_launcher: "rofi".to_string(),
            default_terminal: "kitty".to_string(),
            default_shell: "zsh".to_string(),
            kitty_bg: "1e1e2e".to_string(),
            kitty_fg: "cdd6f4".to_string(),
            kitty_opacity: 0.95,
            kitty_font_size: 11.5,
            rofi_bg: "1e1e2e".to_string(),
            rofi_fg: "cdd6f4".to_string(),
            rofi_opacity: 0.95,
            rofi_rounding: 12,
            qs_bg: "1e1e2e".to_string(),
            qs_accent: "89b4fa".to_string(),
            qs_opacity: 0.90,
            qs_height: 38,
            qs_position: "top".to_string(),
            qs_rounding: 12,
            qs_margin_h: 8,
            qs_margin_v: 6,
            qs_border_width: 1,
            qs_border_color: "45475a".to_string(),
            qs_text_color: "cdd6f4".to_string(),
            qs_font_size: 11,
            qs_floating: true,
            qs_bar_style: "unified".to_string(),
            qs_pill_bg: "181825".to_string(),
            qs_pill_opacity: 0.85,
            qs_pill_rounding: 8,
            qs_module_spacing: 12,
            qs_brand_text: "Zenith".to_string(),
            qs_show_brand: true,
            qs_status_text: "Hyprland".to_string(),
            qs_show_status_badge: true,
            qs_show_workspaces: true,
            qs_show_launcher_btn: true,
            qs_show_cpu: true,
            qs_show_ram: true,
            qs_show_battery: true,
            qs_show_volume: true,
            qs_show_bluetooth: true,
            qs_show_network: true,
            qs_show_media: true,
            qs_show_clock: true,
            qs_show_seconds: false,
            qs_show_power_btn: true,
            monitor_rules: Vec::new(),
        }
}

fn reference(cfg: &Cfg) -> String {
    let launcher_cmd = if cfg.default_launcher == "wofi" { "wofi --show drun" } else { "rofi -show drun" };
    let mut monitor_lines = String::new();
    for rule in &cfg.monitor_rules {
        monitor_lines.push_str(&format!("monitor = {}\n", rule));
    }
    let content = format!(
                "# Generated by Zenith Control\n\
                {}\n\
                $zenith_gaps_out = {}\n\
                $zenith_gaps_in = {}\n\
                $zenith_border_size = {}\n\
                $zenith_rounding = {}\n\
                $zenith_active_border_color = {}\n\
                $zenith_active_opacity = {:.2}\n\
                $zenith_inactive_opacity = {:.2}\n\
                $zenith_blur_enabled = {}\n\
                $zenith_blur_size = {}\n\
                $zenith_shadow_enabled = {}\n\
                $zenith_animations_enabled = {}\n\
                $zenith_wb_pos = {}\n\
                $zenith_wb_height = {}\n\
                $zenith_wb_bg = {}\n\
                $zenith_wb_opacity = {:.2}\n\
                $zenith_wb_round = {}\n\
                $zenith_active_bar = {}\n\
                $zenith_launcher = {}\n\
                $zenith_terminal = {}\n\
                $zenith_shell = {}\n\
                $zenith_kitty_bg = {}\n\
                $zenith_kitty_fg = {}\n\
                $zenith_kitty_opacity = {:.2}\n\
                $zenith_kitty_font = {:.1}\n\
                $zenith_rofi_bg = {}\n\
                $zenith_rofi_fg = {}\n\
                $zenith_rofi_opacity = {:.2}\n\
                $zenith_rofi_round = {}\n\
                $zenith_qs_bg = {}\n\
                $zenith_qs_accent = {}\n\
                $zenith_qs_opacity = {:.2}\n\
                $zenith_qs_height = {}\n\
                $zenith_qs_position = {}\n\
                $zenith_qs_rounding = {}\n\
                $zenith_qs_margin_h = {}\n\
                $zenith_qs_margin_v = {}\n\
                $zenith_qs_border_width = {}\n\
                $zenith_qs_border_color = {}\n\
                $zenith_qs_text_color = {}\n\
                $zenith_qs_font_size = {}\n\
                $zenith_qs_floating = {}\n\
                $zenith_qs_show_workspaces = {}\n\
                $zenith_qs_show_cpu = {}\n\
                $zenith_qs_show_battery = {}\n\
                $zenith_qs_show_volume = {}\n\
                $zenith_qs_show_bluetooth = {}\n\
                $zenith_qs_show_network = {}\n\
                $zenith_qs_show_clock = {}\n\
                $zenith_qs_show_seconds = {}\n\
                $zenith_qs_bar_style = {}\n\
                $zenith_qs_pill_bg = {}\n\
                $zenith_qs_pill_opacity = {:.2}\n\
                $zenith_qs_pill_rounding = {}\n\
                $zenith_qs_module_spacing = {}\n\
                $zenith_qs_brand_text = {}\n\
                $zenith_qs_show_brand = {}\n\
                $zenith_qs_status_text = {}\n\
                $zenith_qs_show_status_badge = {}\n\
                $zenith_qs_show_launcher_btn = {}\n\
                $zenith_qs_show_ram = {}\n\
                $zenith_qs_show_media = {}\n\
                $zenith_qs_show_power_btn = {}\n\n\
                $terminal = {}\n\
                $menu = {}\n\n\
                general {{\n\
                    gaps_out = $zenith_gaps_out\n\
                    gaps_in = $zenith_gaps_in\n\
                    border_size = $zenith_border_size\n\
                    col.active_border = rgb($zenith_active_border_color)\n\
                }}\n\n\
                decoration {{\n\
                    rounding = $zenith_rounding\n\
                    active_opacity = $zenith_active_opacity\n\
                    inactive_opacity = $zenith_inactive_opacity\n\
                    shadow {{\n\
                        enabled = $zenith_shadow_enabled\n\
                    }}\n\
                    blur {{\n\
                        enabled = $zenith_blur_enabled\n\
                        size = $zenith_blur_size\n\
                    }}\n\
                }}\n\n\
                animations {{\n\
                    enabled = $zenith_animations_enabled\n\
                }}\n",
                monitor_lines,
                cfg.gaps_out, cfg.gaps_in, cfg.border_size, cfg.rounding, cfg.active_border_color,
                cfg.active_opacity, cfg.inactive_opacity, cfg.blur_enabled, cfg.blur_size,
                cfg.shadow_enabled, cfg.animations_enabled,
                cfg.waybar_position, cfg.waybar_height, cfg.waybar_bg_color,
                cfg.waybar_opacity, cfg.waybar_rounding,
                cfg.active_bar, cfg.default_launcher, cfg.default_terminal, cfg.default_shell,
                cfg.kitty_bg, cfg.kitty_fg, cfg.kitty_opacity, cfg.kitty_font_size,
                cfg.rofi_bg, cfg.rofi_fg, cfg.rofi_opacity, cfg.rofi_rounding,
                cfg.qs_bg, cfg.qs_accent, cfg.qs_opacity, cfg.qs_height, cfg.qs_position,
                cfg.qs_rounding, cfg.qs_margin_h, cfg.qs_margin_v, cfg.qs_border_width,
                cfg.qs_border_color, cfg.qs_text_color, cfg.qs_font_size, cfg.qs_floating,
                cfg.qs_show_workspaces, cfg.qs_show_cpu, cfg.qs_show_battery, cfg.qs_show_volume,
                cfg.qs_show_bluetooth, cfg.qs_show_network, cfg.qs_show_clock, cfg.qs_show_seconds,
                cfg.qs_bar_style, cfg.qs_pill_bg, cfg.qs_pill_opacity, cfg.qs_pill_rounding,
                cfg.qs_module_spacing, cfg.qs_brand_text, cfg.qs_show_brand, cfg.qs_status_text,
                cfg.qs_show_status_badge, cfg.qs_show_launcher_btn, cfg.qs_show_ram, cfg.qs_show_media,
                cfg.qs_show_power_btn,
                cfg.default_terminal, launcher_cmd
            );
    content
}

fn file_of(cfg: &Cfg) -> ConfigFile {
    ConfigFile {
        gaps_out: cfg.gaps_out,
        gaps_in: cfg.gaps_in,
        border_size: cfg.border_size,
        rounding: cfg.rounding,
        active_border_color: cfg.active_border_color.clone(),
        active_opacity: format!("{:.2}", cfg.active_opacity),
        inactive_opacity: format!("{:.2}", cfg.inactive_opacity),
        blur_enabled: cfg.blur_enabled,
        blur_size: cfg.blur_size,
        shadow_enabled: cfg.shadow_enabled,
        animations_enabled: cfg.animations_enabled,
        waybar_position: cfg.waybar_position.clone(),
        waybar_height: cfg.waybar_height,
        waybar_bg_color: cfg.waybar_bg_color.clone(),
        waybar_opacity: format!("{:.2}", cfg.waybar_opacity),
        waybar_rounding: cfg.waybar_rounding,
        active_bar: cfg.active_bar.clone(),
        default_launcher: cfg.default_launcher.clone(),
        default_terminal: cfg.default_terminal.clone(),
        default_shell: cfg.default_shell.clone(),
        kitty_bg: cfg.kitty_bg.clone(),
        kitty_fg: cfg.kitty_fg.clone(),
        kitty_opacity: format!("{:.2}", cfg.kitty_opacity),
        kitty_font_size: format!("{:.1}", cfg.kitty_font_size),
        rofi_bg: cfg.rofi_bg.clone(),
        rofi_fg: cfg.rofi_fg.clone(),
        rofi_opacity: format!("{:.2}", cfg.rofi_opacity),
        rofi_rounding: cfg.rofi_rounding,
        qs_bg: cfg.qs_bg.clone(),
        qs_accent: cfg.qs_accent.clone(),
        qs_opacity: format!("{:.2}", cfg.qs_opacity),
        qs_height: cfg.qs_height,
        qs_position: cfg.qs_position.clone(),
        qs_rounding: cfg.qs_rounding,
        qs_margin_h: cfg.qs_margin_h,
        qs_margin_v: cfg.qs_margin_v,
        qs_border_width: cfg.qs_border_width,
        qs_border_color: cfg.qs_border_color.clone(),
        qs_text_color: cfg.qs_text_color.clone(),
        qs_font_size: cfg.qs_font_size,
        qs_floating: cfg.qs_floating,
        qs_show_workspaces: cfg.qs_show_workspaces,
        qs_show_cpu: cfg.qs_show_cpu,
        qs_show_battery: cfg.qs_show_battery,
        qs_show_volume: cfg.qs_show_volume,
        qs_show_bluetooth: cfg.qs_show_bluetooth,
        qs_show_network: cfg.qs_show_network,
        qs_show_clock: cfg.qs_show_clock,
        qs_show_seconds: cfg.qs_show_seconds,
        qs_bar_style: cfg.qs_bar_style.clone(),
        qs_pill_bg: cfg.qs_pill_bg.clone(),
        qs_pill_opacity: format!("{:.2}", cfg.qs_pill_opacity),
        qs_pill_rounding: cfg.qs_pill_rounding,
        qs_module_spacing: cfg.qs_module_spacing,
        qs_brand_text: cfg.qs_brand_text.clone(),
        qs_show_brand: cfg.qs_show_brand,
        qs_status_text: cfg.qs_status_text.clone(),
        qs_show_status_badge: cfg.qs_show_status_badge,
        qs_show_launcher_btn: cfg.qs_show_launcher_btn,
        qs_show_ram: cfg.qs_show_ram,
        qs_show_media: cfg.qs_show_media,
        qs_show_power_btn: cfg.qs_show_power_btn,
        monitor_rules: cfg.monitor_rules.clone(),
    }
}

#[test]
fn config_file_text_matches_format() {
    let mut cfg = sample();
    assert_eq!(config_file_text(&file_of(&cfg)), reference(&cfg));
    cfg.gaps_out = -3;
    cfg.default_launcher = "wofi".to_string();
    cfg.kitty_font_size = 12.25;
    cfg.qs_opacity = 0.005;
    cfg.qs_show_seconds = true;
    cfg.monitor_rules = vec!["DP-1,1920x1080@60,auto,1".to_string(), "eDP-1,preferred,auto,1.5".to_string()];
    assert_eq!(config_file_text(&file_of(&cfg)), reference(&cfg));
}

#[test]
fn config_file_reads_back() {
    let mut cfg = sample();
    cfg.gaps_in = -12;
    cfg.qs_brand_text = "Mijn Balk".to_string();
    cfg.qs_show_ram = false;
    cfg.monitor_rules = vec!["DP-1,1920x1080,auto,1".to_string(), "DP-1,2560x1440,auto,1".to_string()];
    let text = config_file_text(&file_of(&cfg));
    let entries: Vec<ConfigEntry> = text.lines().filter_map(config_entry).collect();
    assert!(entries.contains(&ConfigEntry::Int(IntKey::GapsIn, -12)));
    assert!(entries.contains(&ConfigEntry::Int(IntKey::QsModuleSpacing, 12)));
    assert!(entries.contains(&ConfigEntry::Text(TextKey::QsBrandText, "Mijn Balk".to_string())));
    assert!(entries.contains(&ConfigEntry::Flag(FlagKey::QsShowRam, false)));
    assert!(entries.contains(&ConfigEntry::Float(FloatKey::KittyFontSize, "11.5".to_string())));
    let rules: Vec<String> = entries
        .iter()
        .filter_map(|e| match e {
            ConfigEntry::Monitor(r) => Some(r.clone()),
            _ => None,
        })
        .collect();
    assert_eq!(rules.len(), 2);
    assert_eq!(dedup_monitor_rules(&rules), vec!["DP-1,2560x1440,auto,1".to_string()]);
    assert_eq!(entries.len(), 2 + 62);
}

#[test]
fn config_entries_read_written_file_in_order() {
    let mut cfg = sample();
    cfg.gaps_out = 7;
    cfg.qs_show_power_btn = false;
    cfg.monitor_rules = vec!["HDMI-A-1,1920x1080,0x0,1".to_string(), "eDP-1,preferred,auto,1.5".to_string()];
    let text = config_file_text(&file_of(&cfg));
    let entries = config_entries(&text);
    assert_eq!(entries.len(), 2 + 62);
    assert_eq!(entries[0], ConfigEntry::Monitor("HDMI-A-1,1920x1080,0x0,1".to_string()));
    assert_eq!(entries[1], ConfigEntry::Monitor("eDP-1,preferred,auto,1.5".to_string()));
    assert_eq!(entries[2], ConfigEntry::Int(IntKey::GapsOut, 7));
    assert_eq!(entries[63], ConfigEntry::Flag(FlagKey::QsShowPowerBtn, false));
    let by_line: Vec<ConfigEntry> = text.split('\n').filter_map(config_entry).collect();
    assert_eq!(entries, by_line);
}

#[test]
fn setting_lines_read_back() {
    assert_eq!(config_entry("$zenith_wb_pos = top"), Some(ConfigEntry::Text(TextKey::WaybarPosition, "top".to_string())));
    assert_eq!(config_entry("$zenith_gaps_out = -5"), Some(ConfigEntry::Int(IntKey::GapsOut, -5)));
    assert_eq!(config_entry("$zenith_qs_show_cpu = true"), Some(ConfigEntry::Flag(FlagKey::QsShowCpu, true)));
    assert_eq!(config_entry("$zenith_qs_opacity = 0.85"), Some(ConfigEntry::Float(FloatKey::QsOpacity, "0.85".to_string())));
    assert_eq!(config_entry("monitor = DP-2,preferred,auto,1"), Some(ConfigEntry::Monitor("DP-2,preferred,auto,1".to_string())));
}

#[test]
fn empty_text_value_is_not_read_back() {
    let mut cfg = sample();
    cfg.waybar_position = String::new();
    cfg.monitor_rules = vec![];
    let entries = config_entries(&config_file_text(&file_of(&cfg)));
    assert_eq!(entries.len(), 61);
    assert!(!entries.iter().any(|e| matches!(e, ConfigEntry::Text(TextKey::WaybarPosition, _))));
}

#[test]
fn config_entries_accept_carriage_returns() {
    let entries = config_entries("# header\r\nmonitor = DP-1,auto,auto,1\r\n$zenith_gaps_in = 4\r\n");
    assert_eq!(
        entries,
        vec![ConfigEntry::Monitor("DP-1,auto,auto,1".to_string()), ConfigEntry::Int(IntKey::GapsIn, 4)]
    );
}

#[test]
fn saving_keeps_manual_edits() {
    let mut cfg = sample();
    cfg.monitor_rules = vec!["DP-1,preferred,auto,1".to_string()];
    let first = config_file_text(&file_of(&cfg));
    let edited = format!("{}# my note\nbind = SUPER, X, exec, foo\n", first);
    cfg.gaps_out = 21;
    cfg.default_terminal = "foot".to_string();
    let saved = updated_config_text(&edited, &file_of(&cfg));
    assert!(saved.contains("\n# my note\n"));
    assert!(saved.contains("\nbind = SUPER, X, exec, foo\n"));
    assert!(saved.contains("$zenith_gaps_out = 21"));
    assert!(saved.contains("$terminal = foot"));
    assert!(!saved.contains("$terminal = kitty"));
    assert_eq!(saved.matches("$zenith_gaps_out").count(), 2);
    let entries = config_entries(&saved);
    assert_eq!(entries.len(), 1 + 62);
    assert!(entries.contains(&ConfigEntry::Int(IntKey::GapsOut, 21)));
    assert_eq!(entries[0], ConfigEntry::Monitor("DP-1,preferred,auto,1".to_string()));
    let again = updated_config_text(&saved, &file_of(&cfg));
    assert_eq!(again, saved);
}

#[test]
fn saving_over_nothing_writes_a_new_file() {
    let cfg = sample();
    assert_eq!(updated_config_text("", &file_of(&cfg)), config_file_text(&file_of(&cfg)));
}

#[test]
fn saving_any_values_keeps_user_lines_at_the_end() {
    let mut cfg = sample();
    let first = config_file_text(&file_of(&cfg));
    let edited = format!("{}# my note\n\nbind = SUPER, X, exec, foo", first);
    cfg.default_terminal = " two\nlines ".to_string();
    cfg.monitor_rules = vec![String::new()];
    let saved = updated_config_text(&edited, &file_of(&cfg));
    let lines: Vec<&str> = saved.split('\n').collect();
    let n = lines.len();
    assert_eq!(lines[n - 3..].to_vec(), vec!["# my note", "", "bind = SUPER, X, exec, foo"]);
}
