use zenith::config::{
    config_entry, dedup_monitor_rules, launcher_command, monitor_lines, parse_bool, parse_i32, parse_i32_str, parse_str,
    rule_monitor, ConfigEntry, FlagKey, FloatKey, IntKey, TextKey,
};

#[test]
fn parse_helpers() {
    assert_eq!(parse_i32("$zenith_gaps_out = 12", "$zenith_gaps_out = "), Some(12));
    assert_eq!(parse_i32("$zenith_gaps_out =  -7  ", "$zenith_gaps_out = "), Some(-7));
    assert_eq!(parse_i32("$zenith_gaps_out = x", "$zenith_gaps_out = "), None);
    assert_eq!(parse_i32("gaps = 1", "$zenith_gaps_out = "), None);
    assert_eq!(parse_str("$zenith_shell =   fish ", "$zenith_shell = "), Some("fish".to_string()));
    assert_eq!(parse_str("$zenith_shell = ", "$zenith_shell = "), Some(String::new()));
    assert_eq!(parse_bool("$zenith_qs_floating = true", "$zenith_qs_floating = "), Some(true));
    assert_eq!(parse_bool("$zenith_qs_floating = false ", "$zenith_qs_floating = "), Some(false));
    assert_eq!(parse_bool("$zenith_qs_floating = yes", "$zenith_qs_floating = "), None);
}

#[test]
fn i32_text_matches_std() {
    for s in [
        "0", "-0", "+5", "-5", "2147483647", "2147483648", "-2147483648", "-2147483649", "", "+", "-", "+-1", "1 ", "007",
        "99999999999999999999", "12a", "٣",
    ] {
        assert_eq!(parse_i32_str(s), s.parse::<i32>().ok(), "text {:?}", s);
    }
}

#[test]
fn config_lines() {
    assert_eq!(config_entry("  monitor =  DP-1,1920x1080@60,auto,1  "), Some(ConfigEntry::Monitor("DP-1,1920x1080@60,auto,1".to_string())));
    assert_eq!(config_entry("$zenith_gaps_out = 14"), Some(ConfigEntry::Int(IntKey::GapsOut, 14)));
    assert_eq!(config_entry("$zenith_qs_font_size = 12"), Some(ConfigEntry::Int(IntKey::QsFontSize, 12)));
    assert_eq!(config_entry("$zenith_gaps_out = big"), None);
    assert_eq!(config_entry("$zenith_terminal = foot"), Some(ConfigEntry::Text(TextKey::DefaultTerminal, "foot".to_string())));
    assert_eq!(config_entry("$zenith_qs_show_power_btn = false"), Some(ConfigEntry::Flag(FlagKey::QsShowPowerBtn, false)));
    assert_eq!(config_entry("$zenith_kitty_font = 11.5"), Some(ConfigEntry::Float(FloatKey::KittyFontSize, "11.5".to_string())));
    assert_eq!(config_entry("# comment"), None);
    assert_eq!(config_entry(""), None);
}

#[test]
fn monitor_rules_keep_the_last_per_monitor() {
    let rules: Vec<String> = vec!["DP-1,1920x1080,auto,1", "HDMI-A-1,preferred,auto,1", " DP-1 ,2560x1440,auto,1.25", "eDP-1"]
        .into_iter()
        .map(String::from)
        .collect();
    let kept = dedup_monitor_rules(&rules);
    assert_eq!(kept, vec![rules[1].clone(), rules[2].clone(), rules[3].clone()]);
    assert_eq!(rule_monitor(" DP-1 ,x"), "DP-1");
    assert_eq!(rule_monitor("eDP-1"), "eDP-1");
    assert!(dedup_monitor_rules(&Vec::new()).is_empty());
}

#[test]
fn launcher_and_monitor_lines() {
    assert_eq!(launcher_command("wofi"), "wofi --show drun");
    assert_eq!(launcher_command("rofi"), "rofi -show drun");
    assert_eq!(monitor_lines(&vec!["a,b".to_string(), "c".to_string()]), "monitor = a,b\nmonitor = c\n");
    assert_eq!(monitor_lines(&Vec::new()), "");
}
