use zenith::keybinds::{
    build_conf_contents, conf_path, default_dispatch, default_keybinds, dispatch_for, ensure_installed, json_path,
    key_combo_text, parse_key_combo, source_keybinds, Keybind, group_order, section_group, combo_for,
};

#[test]
fn default_set_is_complete() {
    let binds = default_keybinds();
    assert!(binds.len() >= 30, "default set should contain >= 30 binds");
    let ids: Vec<String> = binds.iter().map(|b| b.id.clone()).collect::<Vec<String>>();
    for want in ["terminal", "launcher", "filemanager", "lock", "screenshot", "workspace_1", "volume_up", "toggle_fullscreen"] {
        assert!(ids.iter().any(|i| *i == want), "default set should contain all representative ids");
    }
}

#[test]
fn default_table_is_sound() {
    let binds = default_keybinds();
    assert_eq!(binds.len(), 45);
    let groups = ["Basis", "Focus", "Werkruimten", "Venster", "Multimedia", "Screenshots"];
    for (i, b) in binds.iter().enumerate() {
        assert!(!b.keys.is_empty());
        assert!(groups.contains(&b.group.as_str()));
        assert_ne!(dispatch_for(&b.id), "pass");
        for other in &binds[i + 1..] {
            assert_ne!(b.id, other.id);
        }
    }
}

#[test]
fn dispatch_known_and_unknown() {
    assert!(dispatch_for("terminal").starts_with("exec, kitty"));
    assert!(dispatch_for("volume_up").contains("wpctl"));
    assert!(dispatch_for("workspace_3").starts_with("workspace, 3"));
    assert!(dispatch_for("move_to_workspace_5").starts_with("movetoworkspacesilent, 5"));
    assert!(dispatch_for("focus_left").starts_with("movefocus, left"));
    assert!(dispatch_for("unknown_id").starts_with("pass"));
    let d = default_dispatch("no_such_bind");
    assert_eq!(d, "pass");
}

#[test]
fn modifiers_and_key_split() {
    let kb = Keybind {
        id: "test".to_string(),
        keys: vec!["SUPER".to_string(), "SHIFT".to_string(), "Return".to_string()],
        description: "d".to_string(),
        group: "g".to_string(),
    };
    let mods = kb.modifiers();
    assert_eq!(mods.len(), 2);
    assert_eq!(mods[0], "SUPER");
    assert_eq!(mods[1], "SHIFT");
    assert_eq!(kb.key(), "Return");
    let solo = Keybind {
        id: "solo".to_string(),
        keys: vec!["Print".to_string()],
        description: "d".to_string(),
        group: "g".to_string(),
    };
    assert_eq!(solo.modifiers().len(), 0);
    assert_eq!(solo.key(), "Print");
}

#[test]
fn conf_contents_has_bind_lines() {
    let binds = default_keybinds();
    let content = build_conf_contents(&binds);
    assert!(content.contains("$mainMod = SUPER"));
    assert!(content.contains("bind = "), "conf should contain bind lines");
    assert!(content.contains("SUPER, Return, exec, kitty"));
    assert!(content.contains("SUPER, 3, workspace, 3"));
}

#[test]
fn keybind_paths() {
    assert_eq!(json_path("/home/u"), "/home/u/.config/hypr/zenith-keybinds.json");
    assert_eq!(conf_path("/home/u"), "/home/u/.config/hypr/zenith-keybinds.conf");
}

#[test]
fn empty_keys_give_empty_key() {
    let kb = Keybind { id: "x".to_string(), keys: vec![], description: String::new(), group: String::new() };
    assert_eq!(kb.key(), "");
    assert!(kb.modifiers().is_empty());
}

#[test]
fn key_combo_roundtrip() {
    let keys = vec!["SUPER".to_string(), "SHIFT".to_string(), "Q".to_string()];
    let text = key_combo_text(&keys);
    assert_eq!(text, "SUPER SHIFT Q");
    assert_eq!(parse_key_combo(&text), keys);
    assert_eq!(parse_key_combo("  SUPER \t Return "), vec!["SUPER".to_string(), "Return".to_string()]);
    assert!(parse_key_combo("   ").is_empty());
}

#[test]
fn source_line_is_added_once() {
    let once = source_keybinds("exec-once = waybar\n").expect("source line added");
    assert!(once.contains("source = ~/.config/hypr/zenith-keybinds.conf"));
    assert_eq!(source_keybinds(&once), None);
}

#[test]
fn ensure_installed_cases() {
    let (conf, hypr) = ensure_installed(true, Some("source = ~/.config/hypr/zenith-keybinds.conf\n"));
    assert_eq!(conf, None);
    assert_eq!(hypr, None);
    let (conf2, hypr2) = ensure_installed(false, None);
    assert!(conf2.expect("default conf written").contains("$mainMod = SUPER"));
    assert_eq!(hypr2, None);
}

fn bind(id: &str, keys: &[&str], group: &str) -> Keybind {
    Keybind {
        id: id.to_string(),
        keys: keys.iter().map(|k| k.to_string()).collect(),
        description: id.to_string(),
        group: group.to_string(),
    }
}

#[test]
fn groups_in_first_appearance_order() {
    let binds = vec![
        bind("a", &["SUPER", "Q"], "Basis"),
        bind("b", &["SUPER", "H"], "Focus"),
        bind("c", &["SUPER", "E"], "Basis"),
        bind("d", &["SUPER", "1"], "Werkruimten"),
        bind("e", &["SUPER", "L"], "Focus"),
    ];
    assert_eq!(group_order(&binds), vec!["Basis".to_string(), "Focus".to_string(), "Werkruimten".to_string()]);
    assert_eq!(group_order(&Vec::new()), Vec::<String>::new());
}

#[test]
fn section_groups() {
    assert_eq!(section_group("Multimedia"), "Multimedia");
    assert_eq!(section_group("Screenshots"), "Screenshots");
    assert_eq!(section_group("Eigen"), "Basis");
}

#[test]
fn combo_text_after_reset() {
    let binds = vec![bind("term", &["SUPER", "RETURN"], "Basis"), bind("term", &["SUPER", "T"], "Basis")];
    assert_eq!(combo_for(&binds, "term"), Some("SUPER T".to_string()));
    assert_eq!(combo_for(&binds, "files"), None);
}
