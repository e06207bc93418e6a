use zenith::hyprland::{hyprctl_args, HyprSetting};
use zenith::palette::{apply_palette, trim_start_matches, WallpaperPalette};

#[test]
fn test_palette_defaults() {
    let p = WallpaperPalette::default();
    assert_eq!(p.background, "#1e1e2e");
    assert_eq!(p.surface, "#181825");
    assert_eq!(p.primary_accent, "#89b4fa");
    assert_eq!(p.secondary_accent, "#cba6f7");
    assert_eq!(p.foreground, "#cdd6f4");
}

#[test]
fn applying_a_palette() {
    let p = WallpaperPalette {
        background: "#010203".to_string(),
        surface: "#111111".to_string(),
        primary_accent: "##abcdef".to_string(),
        secondary_accent: "#222222".to_string(),
        foreground: "#eeeeee".to_string(),
    };
    let s = apply_palette(&p);
    assert_eq!(s.background, "#010203");
    assert_eq!(s.accent, "##abcdef");
    assert_eq!(s.border_color, "#111111");
    assert_eq!(s.pill_bg, "#111111");
    assert_eq!(s.text_color, "#eeeeee");
    assert_eq!(s.border_hex, "abcdef");
    assert_eq!(trim_start_matches("#a#b", '#'), "a#b");
    assert_eq!(trim_start_matches("", '#'), "");
}

fn args(s: HyprSetting) -> Vec<String> {
    hyprctl_args(&s)
}

#[test]
fn hyprctl_keyword_arguments() {
    assert_eq!(args(HyprSetting::GapsOut(10)), vec!["keyword", "general:gaps_out", "10"]);
    assert_eq!(args(HyprSetting::GapsIn(-3)), vec!["keyword", "general:gaps_in", "-3"]);
    assert_eq!(args(HyprSetting::BorderSize(2)), vec!["keyword", "general:border_size", "2"]);
    assert_eq!(args(HyprSetting::Rounding(8)), vec!["keyword", "decoration:rounding", "8"]);
    assert_eq!(
        args(HyprSetting::ActiveBorderColor("89b4fa".to_string())),
        vec!["keyword", "general:col.active_border", "rgb(89b4fa)"]
    );
    assert_eq!(args(HyprSetting::BlurEnabled(true)), vec!["keyword", "decoration:blur:enabled", "true"]);
    assert_eq!(args(HyprSetting::BlurSize(i32::MIN)), vec!["keyword", "decoration:blur:size", "-2147483648"]);
    assert_eq!(args(HyprSetting::ShadowEnabled(false)), vec!["keyword", "decoration:shadow:enabled", "false"]);
    assert_eq!(args(HyprSetting::AnimationsEnabled(true)), vec!["keyword", "animations:enabled", "true"]);
}
