use vstd::prelude::*;

use crate::backup::{join_path, path_join};
use crate::qml_files::{WORKSPACES_QML, ACTIVE_WINDOW_QML, CLOCK_QML, SYSTRAY_QML, VOLUME_QML, BRIGHTNESS_QML, POWER_QML, LAUNCHER_QML, BRAND_QML, MEDIA_QML, CPU_QML, RAM_QML, BATTERY_QML, NETWORK_QML, BLUETOOTH_QML, CUSTOM_WIDGET_QML_EXAMPLE, SCRIPT_RUNNER_QML, QUICK_SETTINGS_QML, CONTROL_CENTER_QML, OSD_QML, WIFI_TOGGLE_QML, BLUETOOTH_TOGGLE_QML, DND_TOGGLE_QML, NIGHTLIGHT_TOGGLE_QML, VOLUME_SLIDER_QML, MIC_SLIDER_QML, BRIGHTNESS_SLIDER_QML, MPRIS_CARD_QML, BATTERY_CARD_QML, POWER_STRIP_QML, SCRIPT_CARD_QML, ZENITH_THEME_JSON, SHELL_QML, HYPRLAND_CONF_HEAD, HYPRLAND_CONF_TAIL};
use crate::text::{contains, contains_seq, copy_str, occurs_at};

verus! {

/// A file the desktop environment needs, with the text it gets when it is
/// missing.
pub struct DefaultFile {
    pub path: String,
    pub content: String,
}

pub struct DefaultFileView {
    pub path: Seq<char>,
    pub content: Seq<char>,
}

impl View for DefaultFile {
    type V = DefaultFileView;

    open spec fn view(&self) -> DefaultFileView {
        DefaultFileView { path: self.path@, content: self.content@ }
    }
}

pub open spec fn file_views(s: Seq<DefaultFile>) -> Seq<DefaultFileView> {
    s.map_values(|f: DefaultFile| f@)
}

/// The files of a table (name, text) placed in directory `dir`.
pub open spec fn files_in(dir: Seq<char>, table: Seq<(Seq<char>, Seq<char>)>) -> Seq<DefaultFileView> {
    table.map_values(|e: (Seq<char>, Seq<char>)| DefaultFileView { path: path_join(dir, e.0), content: e.1 })
}

fn push_default(files: &mut Vec<DefaultFile>, dir: &str, name: &str, content: &str)
    ensures
        file_views(final(files)@) == file_views(old(files)@).push(
            DefaultFileView { path: path_join(dir@, name@), content: content@ },
        ),
{
    let ghost before = files@;
    files.push(DefaultFile { path: join_path(dir, name), content: copy_str(content) });
    proof {
        assert(file_views(files@) =~= file_views(before).push(
            DefaultFileView { path: path_join(dir@, name@), content: content@ },
        ));
    }
}

/// The placeholder files the generated configuration imports, relative to
/// the home directory, so that the imports never fail.
pub open spec fn placeholder_table() -> Seq<(Seq<char>, Seq<char>)> {
    seq![
        (".config/waybar/zenith-style.css"@, "/* Zenith Waybar Styles */\n"@),
        (".config/kitty/zenith-theme.conf"@, "# Zenith Kitty Theme\n"@),
        (".config/rofi/zenith-theme.rasi"@, "/* Zenith Rofi Theme */\n"@),
        (".config/quickshell/zenith-theme.json"@, ZENITH_THEME_JSON@),
    ]
}

/// The placeholder files under the home directory `home`.
pub fn environment_placeholders(home: &str) -> (files: Vec<DefaultFile>)
    ensures
        file_views(files@) == files_in(home@, placeholder_table()),
{
    let mut files: Vec<DefaultFile> = Vec::new();
    push_default(&mut files, home, ".config/waybar/zenith-style.css", "/* Zenith Waybar Styles */\n");
    proof {
        assert(file_views(files@) =~= files_in(home@, placeholder_table().take(1)));
    }
    push_default(&mut files, home, ".config/kitty/zenith-theme.conf", "# Zenith Kitty Theme\n");
    proof {
        assert(file_views(files@) =~= files_in(home@, placeholder_table().take(2)));
    }
    push_default(&mut files, home, ".config/rofi/zenith-theme.rasi", "/* Zenith Rofi Theme */\n");
    proof {
        assert(file_views(files@) =~= files_in(home@, placeholder_table().take(3)));
    }
    push_default(&mut files, home, ".config/quickshell/zenith-theme.json", ZENITH_THEME_JSON);
    proof {
        assert(file_views(files@) =~= files_in(home@, placeholder_table().take(4)));
        assert(placeholder_table().take(4) =~= placeholder_table());
    }
    files
}

/// The files written into the directory by [`ensure_default_modules`], name and text.
pub open spec fn default_modules_table() -> Seq<(Seq<char>, Seq<char>)> {
    seq![
        ("workspaces.qml"@, WORKSPACES_QML@),
        ("active_window.qml"@, ACTIVE_WINDOW_QML@),
        ("clock.qml"@, CLOCK_QML@),
        ("systray.qml"@, SYSTRAY_QML@),
        ("volume.qml"@, VOLUME_QML@),
        ("brightness.qml"@, BRIGHTNESS_QML@),
        ("power.qml"@, POWER_QML@),
        ("launcher.qml"@, LAUNCHER_QML@),
        ("brand.qml"@, BRAND_QML@),
        ("media.qml"@, MEDIA_QML@),
        ("cpu.qml"@, CPU_QML@),
        ("ram.qml"@, RAM_QML@),
        ("battery.qml"@, BATTERY_QML@),
        ("network.qml"@, NETWORK_QML@),
        ("bluetooth.qml"@, BLUETOOTH_QML@),
        ("CustomWidget.qml.example"@, CUSTOM_WIDGET_QML_EXAMPLE@),
        ("script_runner.qml"@, SCRIPT_RUNNER_QML@),
        ("quick_settings.qml"@, QUICK_SETTINGS_QML@),
    ]
}

/// The default bar modules: the files that must exist in the modules
/// directory `dir`, with the text each gets when it is missing.
pub fn ensure_default_modules(dir: &str) -> (files: Vec<DefaultFile>)
    ensures
        file_views(files@) == files_in(dir@, default_modules_table()),
{
    let mut files: Vec<DefaultFile> = Vec::new();
    push_default(&mut files, dir, "workspaces.qml", WORKSPACES_QML);
    proof {
        assert(file_views(files@) =~= files_in(dir@, default_modules_table().take(1)));
    }
    push_default(&mut files, dir, "active_window.qml", ACTIVE_WINDOW_QML);
    proof {
        assert(file_views(files@) =~= files_in(dir@, default_modules_table().take(2)));
    }
    push_default(&mut files, dir, "clock.qml", CLOCK_QML);
    proof {
        assert(file_views(files@) =~= files_in(dir@, default_modules_table().take(3)));
    }
    push_default(&mut files, dir, "systray.qml", SYSTRAY_QML);
    proof {
        assert(file_views(files@) =~= files_in(dir@, default_modules_table().take(4)));
    }
    push_default(&mut files, dir, "volume.qml", VOLUME_QML);
    proof {
        assert(file_views(files@) =~= files_in(dir@, default_modules_table().take(5)));
    }
    push_default(&mut files, dir, "brightness.qml", BRIGHTNESS_QML);
    proof {
        assert(file_views(files@) =~= files_in(dir@, default_modules_table().take(6)));
    }
    push_default(&mut files, dir, "power.qml", POWER_QML);
    proof {
        assert(file_views(files@) =~= files_in(dir@, default_modules_table().take(7)));
    }
    push_default(&mut files, dir, "launcher.qml", LAUNCHER_QML);
    proof {
        assert(file_views(files@) =~= files_in(dir@, default_modules_table().take(8)));
    }
    push_default(&mut files, dir, "brand.qml", BRAND_QML);
    proof {
        assert(file_views(files@) =~= files_in(dir@, default_modules_table().take(9)));
    }
    push_default(&mut files, dir, "media.qml", MEDIA_QML);
    proof {
        assert(file_views(files@) =~= files_in(dir@, default_modules_table().take(10)));
    }
    push_default(&mut files, dir, "cpu.qml", CPU_QML);
    proof {
        assert(file_views(files@) =~= files_in(dir@, default_modules_table().take(11)));
    }
    push_default(&mut files, dir, "ram.qml", RAM_QML);
    proof {
        assert(file_views(files@) =~= files_in(dir@, default_modules_table().take(12)));
    }
    push_default(&mut files, dir, "battery.qml", BATTERY_QML);
    proof {
        assert(file_views(files@) =~= files_in(dir@, default_modules_table().take(13)));
    }
    push_default(&mut files, dir, "network.qml", NETWORK_QML);
    proof {
        assert(file_views(files@) =~= files_in(dir@, default_modules_table().take(14)));
    }
    push_default(&mut files, dir, "bluetooth.qml", BLUETOOTH_QML);
    proof {
        assert(file_views(files@) =~= files_in(dir@, default_modules_table().take(15)));
    }
    push_default(&mut files, dir, "CustomWidget.qml.example", CUSTOM_WIDGET_QML_EXAMPLE);
    proof {
        assert(file_views(files@) =~= files_in(dir@, default_modules_table().take(16)));
    }
    push_default(&mut files, dir, "script_runner.qml", SCRIPT_RUNNER_QML);
    proof {
        assert(file_views(files@) =~= files_in(dir@, default_modules_table().take(17)));
    }
    push_default(&mut files, dir, "quick_settings.qml", QUICK_SETTINGS_QML);
    proof {
        assert(file_views(files@) =~= files_in(dir@, default_modules_table().take(18)));
    }
    proof {
        assert(default_modules_table().take(18) =~= default_modules_table());
    }
    files
}

/// The files written into the directory by [`ensure_panels`], name and text.
pub open spec fn panels_table() -> Seq<(Seq<char>, Seq<char>)> {
    seq![
        ("ControlCenter.qml"@, CONTROL_CENTER_QML@),
        ("Osd.qml"@, OSD_QML@),
    ]
}

/// The control center and OSD panels: the files that must exist in the
/// panels directory `dir`, with the text each gets when it is missing.
pub fn ensure_panels(dir: &str) -> (files: Vec<DefaultFile>)
    ensures
        file_views(files@) == files_in(dir@, panels_table()),
{
    let mut files: Vec<DefaultFile> = Vec::new();
    push_default(&mut files, dir, "ControlCenter.qml", CONTROL_CENTER_QML);
    proof {
        assert(file_views(files@) =~= files_in(dir@, panels_table().take(1)));
    }
    push_default(&mut files, dir, "Osd.qml", OSD_QML);
    proof {
        assert(file_views(files@) =~= files_in(dir@, panels_table().take(2)));
    }
    proof {
        assert(panels_table().take(2) =~= panels_table());
    }
    files
}

/// The files written into the directory by [`ensure_default_cards`], name and text.
pub open spec fn default_cards_table() -> Seq<(Seq<char>, Seq<char>)> {
    seq![
        ("wifi_toggle.qml"@, WIFI_TOGGLE_QML@),
        ("bluetooth_toggle.qml"@, BLUETOOTH_TOGGLE_QML@),
        ("dnd_toggle.qml"@, DND_TOGGLE_QML@),
        ("nightlight_toggle.qml"@, NIGHTLIGHT_TOGGLE_QML@),
        ("volume_slider.qml"@, VOLUME_SLIDER_QML@),
        ("mic_slider.qml"@, MIC_SLIDER_QML@),
        ("brightness_slider.qml"@, BRIGHTNESS_SLIDER_QML@),
        ("mpris_card.qml"@, MPRIS_CARD_QML@),
        ("battery_card.qml"@, BATTERY_CARD_QML@),
        ("power_strip.qml"@, POWER_STRIP_QML@),
        ("script_card.qml"@, SCRIPT_CARD_QML@),
    ]
}

/// The default control center cards: the files that must exist in the
/// cards directory `dir`, with the text each gets when it is missing.
pub fn ensure_default_cards(dir: &str) -> (files: Vec<DefaultFile>)
    ensures
        file_views(files@) == files_in(dir@, default_cards_table()),
{
    let mut files: Vec<DefaultFile> = Vec::new();
    push_default(&mut files, dir, "wifi_toggle.qml", WIFI_TOGGLE_QML);
    proof {
        assert(file_views(files@) =~= files_in(dir@, default_cards_table().take(1)));
    }
    push_default(&mut files, dir, "bluetooth_toggle.qml", BLUETOOTH_TOGGLE_QML);
    proof {
        assert(file_views(files@) =~= files_in(dir@, default_cards_table().take(2)));
    }
    push_default(&mut files, dir, "dnd_toggle.qml", DND_TOGGLE_QML);
    proof {
        assert(file_views(files@) =~= files_in(dir@, default_cards_table().take(3)));
    }
    push_default(&mut files, dir, "nightlight_toggle.qml", NIGHTLIGHT_TOGGLE_QML);
    proof {
        assert(file_views(files@) =~= files_in(dir@, default_cards_table().take(4)));
    }
    push_default(&mut files, dir, "volume_slider.qml", VOLUME_SLIDER_QML);
    proof {
        assert(file_views(files@) =~= files_in(dir@, default_cards_table().take(5)));
    }
    push_default(&mut files, dir, "mic_slider.qml", MIC_SLIDER_QML);
    proof {
        assert(file_views(files@) =~= files_in(dir@, default_cards_table().take(6)));
    }
    push_default(&mut files, dir, "brightness_slider.qml", BRIGHTNESS_SLIDER_QML);
    proof {
        assert(file_views(files@) =~= files_in(dir@, default_cards_table().take(7)));
    }
    push_default(&mut files, dir, "mpris_card.qml", MPRIS_CARD_QML);
    proof {
        assert(file_views(files@) =~= files_in(dir@, default_cards_table().take(8)));
    }
    push_default(&mut files, dir, "battery_card.qml", BATTERY_CARD_QML);
    proof {
        assert(file_views(files@) =~= files_in(dir@, default_cards_table().take(9)));
    }
    push_default(&mut files, dir, "power_strip.qml", POWER_STRIP_QML);
    proof {
        assert(file_views(files@) =~= files_in(dir@, default_cards_table().take(10)));
    }
    push_default(&mut files, dir, "script_card.qml", SCRIPT_CARD_QML);
    proof {
        assert(file_views(files@) =~= files_in(dir@, default_cards_table().take(11)));
    }
    proof {
        assert(default_cards_table().take(11) =~= default_cards_table());
    }
    files
}

// ---------------------------------------------------------------------------
// Keeping existing files up to date.
// ---------------------------------------------------------------------------

/// Whether an existing `shell.qml` predates the modular shell: it lacks any
/// of `ModuleLoader`, `FileView`, `Panels.ControlCenter` or `Scope` (it is
/// then kept as `shell.qml.old` and replaced by [`SHELL_QML`]).
pub fn shell_qml_outdated(content: &str) -> (r: bool)
    ensures
        r == !(contains_seq(content@, "ModuleLoader"@) && contains_seq(content@, "FileView"@) && contains_seq(
            content@,
            "Panels.ControlCenter"@,
        ) && contains_seq(content@, "Scope"@)),
{
    !contains(content, "ModuleLoader") || !contains(content, "FileView") || !contains(content, "Panels.ControlCenter")
        || !contains(content, "Scope")
}

/// Whether an existing `zenith.conf` must be written again: it does not
/// mention `org.zenith.control`.
pub fn zenith_conf_outdated(content: &str) -> (r: bool)
    ensures
        r == !contains_seq(content@, "org.zenith.control"@),
{
    !contains(content, "org.zenith.control")
}

/// The line that makes Hyprland read the generated settings.
pub open spec fn hyprland_source_line() -> Seq<char> {
    "source = ~/.config/hypr/zenith.conf"@
}

/// The line that makes kitty read the generated theme.
pub open spec fn kitty_import_line() -> Seq<char> {
    "include ./zenith-theme.conf"@
}

/// The line that makes Waybar read the generated style.
pub open spec fn waybar_import_line() -> Seq<char> {
    "@import \"zenith-style.css\";"@
}

/// The text appended to a file that lacks `line`.
pub open spec fn injection(line: Seq<char>) -> Seq<char> {
    "\n# Injected by Zenith Control\n"@ + line + "\n"@
}

/// What to append to a file so that it holds `line`: nothing when it already
/// does, else a marked block with the line.
pub fn injected_line(content: &str, line: &str) -> (r: Option<String>)
    ensures
        contains_seq(content@, line@) ==> r is None,
        !contains_seq(content@, line@) ==> (r matches Some(t) && t@ == injection(line@)),
{
    if contains(content, line) {
        None
    } else {
        let mut t = copy_str("\n# Injected by Zenith Control\n");
        t.append(line);
        t.append("\n");
        Some(t)
    }
}

/// What to append to `hyprland.conf` so that it reads the generated settings.
pub fn hyprland_source_injection(content: &str) -> (r: Option<String>)
    ensures
        contains_seq(content@, hyprland_source_line()) ==> r is None,
        !contains_seq(content@, hyprland_source_line()) ==> (r matches Some(t) && t@ == injection(hyprland_source_line())),
{
    injected_line(content, "source = ~/.config/hypr/zenith.conf")
}

/// What to append to `kitty.conf` so that it reads the generated theme.
pub fn kitty_import_injection(content: &str) -> (r: Option<String>)
    ensures
        contains_seq(content@, kitty_import_line()) ==> r is None,
        !contains_seq(content@, kitty_import_line()) ==> (r matches Some(t) && t@ == injection(kitty_import_line())),
{
    injected_line(content, "include ./zenith-theme.conf")
}

/// A new `hyprland.conf` (when there is none): a few basic binds and the
/// source line.
pub fn default_hyprland_conf() -> (r: String)
    ensures
        r@ == HYPRLAND_CONF_HEAD@ + hyprland_source_line() + HYPRLAND_CONF_TAIL@,
{
    let mut r = copy_str(HYPRLAND_CONF_HEAD);
    r.append("source = ~/.config/hypr/zenith.conf");
    r.append(HYPRLAND_CONF_TAIL);
    r
}

/// The new text of Waybar's `style.css` when it lacks the import of the
/// generated style: the import line, a line break, then the old text.
pub fn waybar_style_with_import(content: &str) -> (r: Option<String>)
    ensures
        contains_seq(content@, waybar_import_line()) ==> r is None,
        !contains_seq(content@, waybar_import_line()) ==> (r matches Some(t) && t@ == waybar_import_line() + "\n"@ + content@),
{
    let line = "@import \"zenith-style.css\";";
    if contains(content, line) {
        None
    } else {
        let mut t = copy_str(line);
        t.append("\n");
        t.append(content);
        Some(t)
    }
}

/// `p` occurs in `a + b` wherever it occurs in `b`, shifted by `a`'s length.
pub proof fn lemma_contains_after(a: Seq<char>, b: Seq<char>, p: Seq<char>)
    requires
        contains_seq(b, p),
    ensures
        contains_seq(a + b, p),
{
    let i = choose|i: int| occurs_at(p, b, i);
    assert((a + b).subrange(a.len() + i, a.len() + i + p.len()) =~= b.subrange(i, i + p.len()));
    assert(occurs_at(p, a + b, a.len() + i));
}

/// `p` occurs in `a + b` wherever it occurs in `a`.
pub proof fn lemma_contains_before(a: Seq<char>, b: Seq<char>, p: Seq<char>)
    requires
        contains_seq(a, p),
    ensures
        contains_seq(a + b, p),
{
    let i = choose|i: int| occurs_at(p, a, i);
    assert((a + b).subrange(i, i + p.len()) =~= a.subrange(i, i + p.len()));
    assert(occurs_at(p, a + b, i));
}

/// `p` occurs in itself.
pub proof fn lemma_contains_self(p: Seq<char>)
    ensures
        contains_seq(p, p),
{
    assert(p.subrange(0, p.len() as int) =~= p);
    assert(occurs_at(p, p, 0));
}

/// Injecting a line is done once: the file then holds the line, so a second
/// injection appends nothing.
pub proof fn law_injection_once(content: Seq<char>, line: Seq<char>)
    ensures
        contains_seq(content + injection(line), line),
{
    lemma_contains_self(line);
    lemma_contains_after("\n# Injected by Zenith Control\n"@, line, line);
    lemma_contains_before("\n# Injected by Zenith Control\n"@ + line, "\n"@, line);
    assert(injection(line) =~= ("\n# Injected by Zenith Control\n"@ + line) + "\n"@);
    lemma_contains_after(content, injection(line), line);
}

/// Adding the Waybar import is done once: the new style holds the import.
pub proof fn law_waybar_import_once(content: Seq<char>)
    ensures
        contains_seq(waybar_import_line() + "\n"@ + content, waybar_import_line()),
{
    lemma_contains_self(waybar_import_line());
    lemma_contains_before(waybar_import_line(), "\n"@, waybar_import_line());
    lemma_contains_before(waybar_import_line() + "\n"@, content, waybar_import_line());
}

/// A new `hyprland.conf` already reads the generated settings.
pub proof fn law_default_hyprland_conf_sources()
    ensures
        contains_seq(HYPRLAND_CONF_HEAD@ + hyprland_source_line() + HYPRLAND_CONF_TAIL@, hyprland_source_line()),
{
    lemma_contains_self(hyprland_source_line());
    lemma_contains_after(HYPRLAND_CONF_HEAD@, hyprland_source_line(), hyprland_source_line());
    lemma_contains_before(HYPRLAND_CONF_HEAD@ + hyprland_source_line(), HYPRLAND_CONF_TAIL@, hyprland_source_line());
}

} // verus!
