use zenith::designer::{card_template_path, template_action, widget_template_paths, TemplateAction};
use zenith::qml_files::{CUSTOM_CARD_QML, CUSTOM_WIDGET_QML};
use zenith::designer::{
    bar_preset, edit_rows, edit_slot, gsettings_get_args, gsettings_set_args, gsettings_value, new_bar_script,
    new_card_script, optional_text, picker_labels, preview_clock_text, remove_script, row_text, script_row_text,
    status_label, swatch_text_color, swaybg_image, trimmed_or, value_with_unit, wallpaper_candidates, RowEdit,
    ScriptForm,
};
use zenith::editing::{holds_name, move_down, move_up, remove_at, switch_name};
use zenith::shell_config::{CustomScriptModule, ModuleInfo, ShellModules};

fn strings(items: &[&str]) -> Vec<String> {
    items.iter().map(|s| s.to_string()).collect()
}

fn modules() -> ShellModules {
    ShellModules {
        left: strings(&["launcher", "workspaces"]),
        center: strings(&["clock", "script:spotify"]),
        right: strings(&["script:spotify", "battery", "script:spotify"]),
    }
}

fn script(id: &str) -> CustomScriptModule {
    CustomScriptModule {
        id: id.to_string(),
        name: "Spotify".to_string(),
        icon: "🎵".to_string(),
        command: "playerctl metadata title".to_string(),
        interval_seconds: 5,
        on_click: None,
    }
}

fn form(name: &str, icon: &str, command: &str, click: &str) -> ScriptForm {
    ScriptForm {
        name: name.to_string(),
        icon: icon.to_string(),
        command: command.to_string(),
        interval_seconds: 7,
        on_click: click.to_string(),
    }
}

#[test]
fn rows_move_and_leave() {
    let mut v = strings(&["a", "b", "c"]);
    move_up(&mut v, 2);
    assert_eq!(v, strings(&["a", "c", "b"]));
    move_up(&mut v, 0);
    assert_eq!(v, strings(&["a", "c", "b"]));
    move_down(&mut v, 1);
    assert_eq!(v, strings(&["a", "b", "c"]));
    move_down(&mut v, 2);
    assert_eq!(v, strings(&["a", "b", "c"]));
    remove_at(&mut v, 5);
    assert_eq!(v, strings(&["a", "b", "c"]));
    remove_at(&mut v, 0);
    assert_eq!(v, strings(&["b", "c"]));
}

#[test]
fn moving_up_then_down_restores_the_list() {
    let start = strings(&["cpu", "ram", "clock", "power"]);
    let mut v = start.clone();
    move_up(&mut v, 2);
    assert_eq!(v, strings(&["cpu", "clock", "ram", "power"]));
    move_down(&mut v, 1);
    assert_eq!(v, start);
}

#[test]
fn edit_rows_applies_each_button() {
    let mut v = strings(&["x"]);
    edit_rows(&mut v, RowEdit::Add("y".to_string()));
    edit_rows(&mut v, RowEdit::Up(1));
    assert_eq!(v, strings(&["y", "x"]));
    edit_rows(&mut v, RowEdit::Down(0));
    assert_eq!(v, strings(&["x", "y"]));
    edit_rows(&mut v, RowEdit::Remove(1));
    assert_eq!(v, strings(&["x"]));
}

#[test]
fn edit_slot_touches_only_the_named_zone() {
    let mut m = modules();
    edit_slot(&mut m, "center", RowEdit::Add("media".to_string()));
    assert_eq!(m.center, strings(&["clock", "script:spotify", "media"]));
    assert_eq!(m.left, strings(&["launcher", "workspaces"]));
    let before = m.clone();
    edit_slot(&mut m, "top", RowEdit::Remove(0));
    assert_eq!(m, before);
    edit_slot(&mut m, "left", RowEdit::Remove(0));
    assert_eq!(m.left, strings(&["workspaces"]));
}

#[test]
fn removing_a_script_takes_it_off_the_bar() {
    let mut scripts = vec![script("spotify"), script("btc")];
    let mut m = modules();
    remove_script(&mut scripts, &mut m, 0, "spotify");
    assert_eq!(scripts, vec![script("btc")]);
    assert_eq!(m.left, strings(&["launcher", "workspaces"]));
    assert_eq!(m.center, strings(&["clock"]));
    assert_eq!(m.right, strings(&["battery"]));
}

#[test]
fn switching_names_on_and_off() {
    let mut t = strings(&["volume", "mic"]);
    switch_name(&mut t, "brightness", true);
    assert_eq!(t, strings(&["volume", "mic", "brightness"]));
    switch_name(&mut t, "brightness", true);
    assert_eq!(t, strings(&["volume", "mic", "brightness"]));
    switch_name(&mut t, "mic", false);
    assert_eq!(t, strings(&["volume", "brightness"]));
    assert!(!holds_name(&t, "mic"));
    switch_name(&mut t, "mic", false);
    assert_eq!(t, strings(&["volume", "brightness"]));
}

#[test]
fn new_bar_script_makes_a_fresh_id() {
    let existing = vec![script("spotify_now"), script("spotify_now_1")];
    let m = new_bar_script(&existing, &form("  Spotify Now! ", "", " playerctl status ", "  ")).unwrap();
    assert_eq!(m.id, "spotify_now_2");
    assert_eq!(m.name, "Spotify Now!");
    assert_eq!(m.icon, "💻");
    assert_eq!(m.command, "playerctl status");
    assert_eq!(m.interval_seconds, 7);
    assert_eq!(m.on_click, None);
    let fresh = new_bar_script(&Vec::new(), &form("Bitcoin", "₿", "curl rate", "xdg-open x")).unwrap();
    assert_eq!(fresh.id, "bitcoin");
    assert_eq!(fresh.on_click, Some("xdg-open x".to_string()));
}

#[test]
fn new_bar_script_defaults_and_refusals() {
    assert_eq!(new_bar_script(&Vec::new(), &form("Name", "x", "   ", "")), None);
    let m = new_bar_script(&Vec::new(), &form("", "", "date", "")).unwrap();
    assert_eq!(m.name, "Custom Script");
    assert_eq!(m.id, "custom_script");
    let u = new_bar_script(&Vec::new(), &form("___", "", "date", "")).unwrap();
    assert_eq!(u.id, "custom_script");
    let c = new_bar_script(&Vec::new(), &form("Café Stand", "", "date", "")).unwrap();
    assert_eq!(c.id, "café_stand");
}

#[test]
fn new_card_script_is_stamped() {
    let (m, card) = new_card_script(&form(" My Card! ", "", " whoami ", ""), 1_700_000_000).unwrap();
    assert_eq!(m.id, "mycard_1700000000");
    assert_eq!(card, "script:mycard_1700000000");
    let (k, _) = new_card_script(&form("Net_Speed", "🌐", "ip a", "ip r"), 42).unwrap();
    assert_eq!(k.id, "net_speed_42");
    assert_eq!(k.on_click, Some("ip r".to_string()));
    assert_eq!(m.icon, "💻");
    assert_eq!(m.command, "whoami");
    assert!(new_card_script(&form("  ", "", "whoami", ""), 5).is_none());
    assert!(new_card_script(&form("x", "", "", ""), 5).is_none());
}

fn info(id: &str, name: &str) -> ModuleInfo {
    ModuleInfo {
        id: id.to_string(),
        name: name.to_string(),
        icon: "🌤".to_string(),
        description: format!("about {}", name),
        is_custom: false,
    }
}

#[test]
fn row_texts() {
    let all = vec![info("weather", "Weather"), info("clock", "Clock")];
    assert_eq!(picker_labels(&all), strings(&["🌤 Weather", "🌤 Clock"]));
    assert_eq!(
        row_text(&all, "clock", false, "🧩", "Module ID"),
        ("🌤 Clock".to_string(), "about Clock".to_string())
    );
    assert_eq!(
        row_text(&all, "nope", false, "🧩", "Module ID"),
        ("🧩 nope".to_string(), "Module ID: nope".to_string())
    );
    assert_eq!(
        row_text(&all, "weather:paris", true, "🎴", "Kaart ID"),
        ("🌤 Weather".to_string(), "about Weather".to_string())
    );
    assert_eq!(
        row_text(&all, "weather:paris", false, "🎴", "Kaart ID"),
        ("🎴 weather:paris".to_string(), "Kaart ID: weather:paris".to_string())
    );
}

#[test]
fn script_rows() {
    let mut s = script("spotify");
    assert_eq!(
        script_row_text(&s),
        (
            "🎵 Spotify [script:spotify]".to_string(),
            "Commando: `playerctl metadata title` | Polling: 5s".to_string()
        )
    );
    s.on_click = Some("playerctl play-pause".to_string());
    assert_eq!(
        script_row_text(&s).1,
        "Commando: `playerctl metadata title` | Polling: 5s | Klik: `playerctl play-pause`"
    );
    s.on_click = Some("   ".to_string());
    assert_eq!(script_row_text(&s).1, "Commando: `playerctl metadata title` | Polling: 5s");
}

#[test]
fn bar_presets() {
    let islands = bar_preset(1);
    assert_eq!(islands.layout.bar_style, "islands");
    assert_eq!(islands.accent, "#cba6f7");
    assert_eq!(islands.opacity_percent, 80);
    assert_eq!(islands.modules.left, strings(&["launcher", "workspaces"]));
    let dock = bar_preset(4);
    assert_eq!(dock.layout.position, "bottom");
    assert_eq!(dock.layout.height, 44);
    let edge = bar_preset(5);
    assert!(!edge.layout.floating);
    assert_eq!(edge.pill_opacity_percent, 100);
    let modern = bar_preset(0);
    let other = bar_preset(42);
    assert_eq!(modern.accent, "#89b4fa");
    assert_eq!(other.accent, modern.accent);
    assert_eq!(other.modules.right.len(), 10);
}

#[test]
fn small_texts() {
    assert_eq!(optional_text("  x  "), Some("x".to_string()));
    assert_eq!(optional_text("   "), None);
    assert_eq!(trimmed_or("  ", "hh:mm"), "hh:mm");
    assert_eq!(trimmed_or(" HH:MM ", "hh:mm"), "HH:MM");
    assert_eq!(value_with_unit(-3, "px"), "-3 px");
    assert_eq!(value_with_unit(250, "ms"), "250 ms");
    assert_eq!(swatch_text_color("#1e1e2e"), "#cdd6f4");
    assert_eq!(swatch_text_color("#3b4252"), "#cdd6f4");
    assert_eq!(swatch_text_color("#ff007f"), "#11111b");
    assert_eq!(status_label(true, "Actief", "Inactief"), "● Actief");
    assert_eq!(status_label(false, "Actief", "Inactief"), "○ Inactief");
    assert_eq!(preview_clock_text("hh:mm:ss"), "14:35:09");
    assert_eq!(preview_clock_text("hh:mm"), "14:35");
    assert_eq!(gsettings_value("'Adwaita-dark'\n"), "Adwaita-dark");
    assert_eq!(gsettings_value("24\n"), "24");
    assert_eq!(gsettings_get_args("gtk-theme"), strings(&["get", "org.gnome.desktop.interface", "gtk-theme"]));
    assert_eq!(
        gsettings_set_args("font-name", "Inter 11"),
        strings(&["set", "org.gnome.desktop.interface", "font-name", "Inter 11"])
    );
}

#[test]
fn swaybg_lines() {
    assert_eq!(swaybg_image("1234 swaybg -i /home/u/wall.png -m fill"), Some("/home/u/wall.png".to_string()));
    assert_eq!(swaybg_image("1234 swaybg -o DP-1 -c #000000"), None);
    assert_eq!(swaybg_image("77 swaybg -i "), Some(String::new()));
}

#[test]
fn wallpaper_candidates_in_order() {
    let out = "12 swaybg -i /a.png -m fill\r\n13 swaybg -c #000\n14 swaybg -i /b.png\n";
    let folder = strings(&["/home/u/Pictures/Wallpapers/c.jpg"]);
    assert_eq!(
        wallpaper_candidates("", out, &folder),
        strings(&[
            "/a.png",
            "/b.png",
            "/home/u/Pictures/Wallpapers/c.jpg",
            "/usr/share/hypr/wall2.png",
            "/usr/share/hypr/wall1.png",
            "/usr/share/hypr/wall0.png",
        ])
    );
    let first = wallpaper_candidates("/saved.png", "", &Vec::new());
    assert_eq!(first[0], "/saved.png");
    assert_eq!(first.len(), 4);
}

#[test]
fn template_files() {
    assert_eq!(template_action(true, true), TemplateAction::Keep);
    assert_eq!(template_action(false, true), TemplateAction::CopyExample);
    assert_eq!(template_action(false, false), TemplateAction::WriteTemplate);
    assert_eq!(
        widget_template_paths("/home/u"),
        (
            "/home/u/.config/quickshell/modules/CustomWidget.qml".to_string(),
            "/home/u/.config/quickshell/modules/CustomWidget.qml.example".to_string()
        )
    );
    assert_eq!(card_template_path("/h"), "/h/.config/quickshell/cards/CustomCard.qml");
    assert!(CUSTOM_WIDGET_QML.contains("✨ Custom Widget"));
    assert!(CUSTOM_CARD_QML.starts_with("import QtQuick\n"));
}
