use zenith::bootstrap::{
    default_hyprland_conf, ensure_default_cards, ensure_default_modules, ensure_panels, environment_placeholders,
    hyprland_source_injection, injected_line, kitty_import_injection, shell_qml_outdated, waybar_style_with_import,
    zenith_conf_outdated,
};
use zenith::qml_files::{SHELL_QML, WORKSPACES_QML, ZENITH_THEME_JSON};

#[test]
fn default_file_tables() {
    let modules = ensure_default_modules("/q/modules");
    assert_eq!(modules.len(), 18);
    assert_eq!(modules[0].path, "/q/modules/workspaces.qml");
    assert_eq!(modules[0].content, WORKSPACES_QML);
    assert_eq!(modules[15].path, "/q/modules/CustomWidget.qml.example");
    let panels = ensure_panels("/q/panels/");
    assert_eq!(panels.len(), 2);
    assert_eq!(panels[1].path, "/q/panels/Osd.qml");
    let cards = ensure_default_cards("/q/cards");
    assert_eq!(cards.len(), 11);
    assert_eq!(cards[10].path, "/q/cards/script_card.qml");
    assert!(cards.iter().all(|f| f.content.starts_with("import QtQuick")));
    let ph = environment_placeholders("/home/u");
    assert_eq!(ph.len(), 4);
    assert_eq!(ph[1].path, "/home/u/.config/kitty/zenith-theme.conf");
    assert_eq!(ph[1].content, "# Zenith Kitty Theme\n");
    assert_eq!(ph[3].content, ZENITH_THEME_JSON);
    assert!(ZENITH_THEME_JSON.starts_with("{\n  \"background\": \"#1e1e2e\",\n  \"accent\""));
    assert!(ZENITH_THEME_JSON.ends_with("\"show_power_btn\": true\n}\n"));
}

#[test]
fn shell_qml_checks() {
    assert!(!shell_qml_outdated(SHELL_QML));
    assert!(shell_qml_outdated("import QtQuick\nScope { ModuleLoader {} FileView {} }"));
    assert!(zenith_conf_outdated("$zenith_gaps_out = 10"));
    assert!(!zenith_conf_outdated("# org.zenith.control"));
}

#[test]
fn imports_are_injected_once() {
    let first = kitty_import_injection("font_size 11\n").expect("missing import");
    assert_eq!(first, "\n# Injected by Zenith Control\ninclude ./zenith-theme.conf\n");
    let after = format!("font_size 11\n{}", first);
    assert_eq!(kitty_import_injection(&after), None);
    assert_eq!(injected_line("a", "b"), Some("\n# Injected by Zenith Control\nb\n".to_string()));
    let conf = default_hyprland_conf();
    assert!(conf.starts_with("# Hyprland Configuration with Zenith Control\n$mainMod = SUPER\n"));
    assert!(conf.ends_with("# Injected by Zenith Control\nsource = ~/.config/hypr/zenith.conf\n"));
    assert_eq!(hyprland_source_injection(&conf), None);
    let style = waybar_style_with_import("* {}\n").expect("missing import");
    assert_eq!(style, "@import \"zenith-style.css\";\n* {}\n");
    assert_eq!(waybar_style_with_import(&style), None);
}
