use zenith::shell_config::{
    builtin_modules, default_cc_cards, default_language, discover_available_cards, discover_available_lockscreen_cards,
    discover_available_modules, discover_cards_for_instance, discover_custom_modules_in_dir,
    discover_lockscreen_cards_for_instance, discover_modules_for_instance, move_module, CustomIcons,
    CustomScriptModule, ModuleInfo, OsdConfig, ShellModules,
};

fn ids(list: &[ModuleInfo]) -> Vec<&str> {
    list.iter().map(|m| m.id.as_str()).collect()
}

fn script(id: &str, name: &str) -> CustomScriptModule {
    CustomScriptModule {
        id: id.to_string(),
        name: name.to_string(),
        icon: "🌐".to_string(),
        command: "curl -s ifconfig.me".to_string(),
        interval_seconds: 60,
        on_click: None,
    }
}

#[test]
fn test_discover_available_modules() {
    let modules = discover_available_modules(&CustomIcons::default(), &Vec::new(), &Vec::new());
    assert!(!modules.is_empty());
    assert!(modules.iter().any(|m| m.id == "workspaces"));
    assert!(modules.iter().any(|m| m.id == "clock"));
    assert!(modules.iter().any(|m| m.id == "volume"));
    assert!(modules.iter().any(|m| m.id == "active_window"));
    assert!(modules.iter().any(|m| m.id == "systray"));
    assert!(modules.iter().any(|m| m.id == "power"));
}

#[test]
fn test_discover_custom_module() {
    let existing: Vec<ModuleInfo> = Vec::new();
    let stems = vec!["TestCustomProbe".to_string()];
    let modules = discover_custom_modules_in_dir(&stems, "✨", &existing);
    let found = modules.iter().find(|m| m.id == "TestCustomProbe");
    assert!(found.is_some(), "Custom module TestCustomProbe should be discovered");
    let m = found.unwrap();
    assert!(m.is_custom);
    assert!(m.name.contains("TestCustomProbe"));
}

#[test]
fn test_custom_script_discovery() {
    let own = vec![CustomScriptModule {
        id: "my_ip".to_string(),
        name: "Mijn IP".to_string(),
        icon: "🌐".to_string(),
        command: "curl -s ifconfig.me".to_string(),
        interval_seconds: 60,
        on_click: None,
    }];
    let modules = discover_modules_for_instance(&CustomIcons::default(), &Vec::new(), &Vec::new(), &own);
    let found = modules.iter().find(|m| m.id == "script:my_ip");
    assert!(found.is_some(), "Script module script:my_ip should be in list");
    assert!(found.unwrap().name.contains("Mijn IP"));
}

#[test]
fn test_discover_available_cards() {
    let cards = discover_available_cards(&CustomIcons::default(), &Vec::new());
    assert!(!cards.is_empty());
    assert!(cards.iter().any(|c| c.id == "wifi_toggle"));
    assert!(cards.iter().any(|c| c.id == "bluetooth_toggle"));
    assert!(cards.iter().any(|c| c.id == "volume_slider"));
    assert!(cards.iter().any(|c| c.id == "brightness_slider"));
    assert!(cards.iter().any(|c| c.id == "mpris_card"));
    assert!(cards.iter().any(|c| c.id == "power_strip"));
}

#[test]
fn test_discover_available_lockscreen_cards() {
    let cards = discover_available_lockscreen_cards(&CustomIcons::default(), &Vec::new(), &Vec::new());
    assert!(!cards.is_empty());
    assert!(cards.iter().any(|c| c.id == "clock"));
    assert!(cards.iter().any(|c| c.id == "auth"));
    assert!(cards.iter().any(|c| c.id == "avatar"));
    assert!(cards.iter().any(|c| c.id == "mpris"));
    assert!(cards.iter().any(|c| c.id == "battery_network"));
}

#[test]
fn discovery_skips_known_ids_and_duplicates() {
    let icons = CustomIcons::default();
    let stems = vec!["clock".to_string(), "weather".to_string(), "weather".to_string()];
    let scripts = vec![script("ip", "IP"), script("ip", "IP again")];
    let modules = discover_available_modules(&icons, &stems, &scripts);
    assert_eq!(modules.len(), 15 + 2);
    assert_eq!(modules[15].id, "weather");
    assert_eq!(modules[15].name, "✨ Custom: weather");
    assert_eq!(modules[15].description, "Aangepast QML widget: weather.qml");
    assert_eq!(modules[15].icon, icons.custom);
    assert_eq!(modules[16].id, "script:ip");
    assert_eq!(modules[16].name, "💻 Script: IP");
    assert_eq!(modules[16].description, "`curl -s ifconfig.me` (elke 60s)");
    let mut seen = ids(&modules);
    seen.sort();
    seen.dedup();
    assert_eq!(seen.len(), modules.len());
    assert_eq!(ids(&modules[..15]), ids(&builtin_modules(&icons)));
}

#[test]
fn card_discovery_rules() {
    let icons = CustomIcons::default();
    let stems = vec!["script_card".to_string(), "wifi_toggle".to_string(), "gpu".to_string()];
    let cards = discover_cards_for_instance(&icons, &stems, &vec![script("gpu_temp", "GPU")]);
    assert_eq!(cards.len(), 10 + 2);
    assert_eq!(cards[10].id, "gpu");
    assert_eq!(cards[10].description, "Aangepaste QML kaart: gpu.qml");
    assert_eq!(cards[11].id, "script:gpu_temp");
    let ls = discover_lockscreen_cards_for_instance(
        &icons,
        &vec!["clock_card".to_string(), "weather_card".to_string()],
        &vec![script("a", "A")],
        &vec![script("a", "A"), script("b", "B")],
    );
    assert_eq!(ids(&ls), vec!["clock", "auth", "avatar", "mpris", "battery_network", "weather_card", "script:a", "script:b"]);
    assert_eq!(ls[2].icon, "👤");
    assert_eq!(ls[5].description, "Aangepaste Lockscreen kaart: weather_card.qml");
}

#[test]
fn moving_a_module() {
    let mut m = ShellModules::default();
    let before_right = m.right.clone();
    let n = move_module(&mut m, "clock", "left");
    assert_eq!(n, 3);
    assert_eq!(m.left.last().map(|s| s.as_str()), Some("clock"));
    assert!(!m.right.iter().any(|s| s == "clock"));
    assert_eq!(m.right.len(), before_right.len() - 1);
    let n2 = move_module(&mut m, "clock", "somewhere");
    assert_eq!(n2, m.right.len() - 1);
    assert_eq!(m.right.last().map(|s| s.as_str()), Some("clock"));
    assert!(!m.left.iter().any(|s| s == "clock"));
    let n3 = move_module(&mut m, "new", "center");
    assert_eq!(n3, 2);
    assert_eq!(m.center, vec!["active_window".to_string(), "media".to_string(), "new".to_string()]);
}

#[test]
fn shell_defaults() {
    let icons = CustomIcons::default();
    assert_eq!(icons.volume_high, "🔊");
    assert_eq!(icons.battery_full, "🔋");
    assert_eq!(icons.wifi, "📶");
    assert_eq!(default_language(), "nl");
    let cards = default_cc_cards();
    assert_eq!(cards.len(), 10);
    assert_eq!(cards[0], "wifi_toggle");
    let osd = OsdConfig::default();
    assert_eq!(osd.timeout_ms, 2000);
    assert_eq!(osd.orientation, "horizontal");
}

#[test]
fn lockscreen_and_osd_defaults() {
    assert_eq!(zenith::shell_config::default_ls_layout(), "centered");
    assert_eq!(zenith::shell_config::default_ls_blur_radius(), 32);
    assert_eq!(zenith::shell_config::default_ls_clock_font_size(), 72);
    assert_eq!(zenith::shell_config::default_ls_auth_icon(), "🔒");
    assert_eq!(zenith::shell_config::default_osd_orientation(), "horizontal");
    assert_eq!(zenith::shell_config::default_cc_pos(), "top-right");
    assert!(zenith::shell_config::default_true());
}
