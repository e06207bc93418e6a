use vstd::prelude::*;

use crate::backup::{join_path, path_join};
use crate::text::{copy_str, dec, push_dec, str_eq, views};

verus! {

// ---------------------------------------------------------------------------
// Parts of the shell configuration that hold no floating point.
// ---------------------------------------------------------------------------

/// Placement and look of the bar.
#[derive(Clone, Debug, PartialEq)]
pub struct ShellLayout {
    pub position: String,
    pub height: i32,
    pub floating: bool,
    /// "unified", "islands" or "minimal".
    pub bar_style: String,
}

impl Default for ShellLayout {
    fn default() -> (r: Self)
        ensures
            r.position@ == "top"@,
            r.height == 38,
            r.floating,
            r.bar_style@ == "unified"@,
    {
        ShellLayout { position: copy_str("top"), height: 38, floating: true, bar_style: copy_str("unified") }
    }
}

/// The module ids of the three zones of the bar.
#[derive(Clone, Debug, PartialEq)]
pub struct ShellModules {
    pub left: Vec<String>,
    pub center: Vec<String>,
    pub right: Vec<String>,
}

/// A list of texts made of literals.
pub open spec fn lit_views(s: Seq<&str>) -> Seq<Seq<char>> {
    s.map_values(|x: &str| x@)
}

/// Makes owned texts of a list of literals.
pub fn strings_of(items: &[&str]) -> (out: Vec<String>)
    ensures
        views(out@) == lit_views(items@),
{
    let mut out: Vec<String> = Vec::new();
    let mut i: usize = 0;
    while i < items.len()
        invariant
            i <= items@.len(),
            out@.len() == i,
            views(out@) == lit_views(items@.take(i as int)),
        decreases items.len() - i,
    {
        let ghost before = out@;
        let s = copy_str(items[i]);
        out.push(s);
        proof {
            assert(s@ == items@[i as int]@);
            assert(views(out@) =~= views(before).push(s@));
            assert(views(out@) =~= lit_views(items@.take(i + 1)));
        }
        i = i + 1;
    }
    proof {
        assert(items@.take(items@.len() as int) =~= items@);
    }
    out
}

pub open spec fn default_left_modules() -> Seq<Seq<char>> {
    lit_views(seq!["launcher", "brand", "workspaces"])
}

pub open spec fn default_center_modules() -> Seq<Seq<char>> {
    lit_views(seq!["active_window", "media"])
}

pub open spec fn default_right_modules() -> Seq<Seq<char>> {
    lit_views(seq!["cpu", "ram", "battery", "volume", "brightness", "network", "bluetooth", "systray", "clock", "power"])
}

impl Default for ShellModules {
    fn default() -> (r: Self)
        ensures
            views(r.left@) == default_left_modules(),
            views(r.center@) == default_center_modules(),
            views(r.right@) == default_right_modules(),
    {
        let left = strings_of(&["launcher", "brand", "workspaces"]);
        let center = strings_of(&["active_window", "media"]);
        let right = strings_of(&["cpu", "ram", "battery", "volume", "brightness", "network", "bluetooth", "systray", "clock", "power"]);
        proof {
            assert(lit_views(seq!["launcher", "brand", "workspaces"]) =~= default_left_modules());
        }
        ShellModules { left, center, right }
    }
}

/// Which panels of the shell are on.
#[derive(Clone, Debug, PartialEq)]
pub struct ShellPanels {
    pub quick_settings: bool,
    pub control_center: bool,
    pub volume_osd: bool,
    pub brightness_osd: bool,
    pub notifications: bool,
}

impl Default for ShellPanels {
    fn default() -> (r: Self)
        ensures
            r.quick_settings && !r.control_center && r.volume_osd && r.brightness_osd && r.notifications,
    {
        ShellPanels { quick_settings: true, control_center: false, volume_osd: true, brightness_osd: true, notifications: true }
    }
}

/// A raw QML override of the whole shell.
#[derive(Clone, Debug, PartialEq)]
pub struct ShellCustom {
    pub raw_override: bool,
    pub custom_qml_path: Option<String>,
}

impl Default for ShellCustom {
    fn default() -> (r: Self)
        ensures
            !r.raw_override && r.custom_qml_path.is_none(),
    {
        ShellCustom { raw_override: false, custom_qml_path: None }
    }
}

/// A module whose text comes from a shell command run at an interval.
#[derive(Clone, Debug, PartialEq)]
pub struct CustomScriptModule {
    pub id: String,
    pub name: String,
    pub icon: String,
    pub command: String,
    pub interval_seconds: u32,
    pub on_click: Option<String>,
}

/// The on-screen display of volume and brightness changes.
#[derive(Clone, Debug, PartialEq)]
pub struct OsdConfig {
    pub enabled: bool,
    /// "bottom", "top", "center", "top-right" or "bottom-right".
    pub position: String,
    pub timeout_ms: u32,
    pub width: i32,
    pub height: i32,
    /// "horizontal" or "vertical".
    pub orientation: String,
    pub show_percentage: bool,
    pub show_icon: bool,
    /// e.g. ["volume", "mic", "brightness"].
    pub hardware_targets: Vec<String>,
}

/// Fields that are absent from a stored configuration count as on.
pub fn default_true() -> (r: bool)
    ensures
        r,
{
    true
}

/// Default corner of the control center.
pub fn default_cc_pos() -> (r: String)
    ensures
        r@ == "top-right"@,
{
    copy_str("top-right")
}

/// Default width of the control center.
pub fn default_cc_width() -> (r: i32)
    ensures
        r == 380,
{
    380
}

/// Default maximal height of the control center.
pub fn default_cc_max_height() -> (r: i32)
    ensures
        r == 600,
{
    600
}

/// Default corner radius of the control center.
pub fn default_cc_border_radius() -> (r: i32)
    ensures
        r == 16,
{
    16
}

pub open spec fn default_cc_card_ids() -> Seq<Seq<char>> {
    lit_views(
        seq![
            "wifi_toggle",
            "bluetooth_toggle",
            "dnd_toggle",
            "nightlight_toggle",
            "volume_slider",
            "mic_slider",
            "brightness_slider",
            "mpris_card",
            "battery_card",
            "power_strip",
        ],
    )
}

/// The cards of a new control center.
pub fn default_cc_cards() -> (r: Vec<String>)
    ensures
        views(r@) == default_cc_card_ids(),
{
    strings_of(
        &[
            "wifi_toggle",
            "bluetooth_toggle",
            "dnd_toggle",
            "nightlight_toggle",
            "volume_slider",
            "mic_slider",
            "brightness_slider",
            "mpris_card",
            "battery_card",
            "power_strip",
        ],
    )
}

/// Default place of the OSD.
pub fn default_osd_pos() -> (r: String)
    ensures
        r@ == "bottom"@,
{
    copy_str("bottom")
}

/// Default time the OSD stays visible, in milliseconds.
pub fn default_osd_timeout() -> (r: u32)
    ensures
        r == 2000,
{
    2000
}

/// Default OSD width.
pub fn default_osd_width() -> (r: i32)
    ensures
        r == 260,
{
    260
}

/// Default OSD height.
pub fn default_osd_height() -> (r: i32)
    ensures
        r == 48,
{
    48
}

/// Default OSD orientation.
pub fn default_osd_orientation() -> (r: String)
    ensures
        r@ == "horizontal"@,
{
    copy_str("horizontal")
}

/// The hardware controls the OSD reacts to by default.
pub fn default_osd_hardware_targets() -> (r: Vec<String>)
    ensures
        views(r@) == lit_views(seq!["volume", "mic", "brightness"]),
{
    strings_of(&["volume", "mic", "brightness"])
}

impl Default for OsdConfig {
    fn default() -> (r: Self)
        ensures
            r.enabled,
            r.position@ == "bottom"@,
            r.timeout_ms == 2000,
            r.width == 260,
            r.height == 48,
            r.orientation@ == "horizontal"@,
            r.show_percentage,
            r.show_icon,
            views(r.hardware_targets@) == lit_views(seq!["volume", "mic", "brightness"]),
    {
        OsdConfig {
            enabled: default_true(),
            position: default_osd_pos(),
            timeout_ms: default_osd_timeout(),
            width: default_osd_width(),
            height: default_osd_height(),
            orientation: default_osd_orientation(),
            show_percentage: true,
            show_icon: true,
            hardware_targets: default_osd_hardware_targets(),
        }
    }
}

/// Default lock screen layout.
pub fn default_ls_layout() -> (r: String)
    ensures
        r@ == "centered"@,
{
    copy_str("centered")
}

/// Default lock screen background.
pub fn default_ls_bg_mode() -> (r: String)
    ensures
        r@ == "wallpaper_blur"@,
{
    copy_str("wallpaper_blur")
}

/// Default blur radius of the lock screen background.
pub fn default_ls_blur_radius() -> (r: u32)
    ensures
        r == 32,
{
    32
}

/// Default lock screen clock format.
pub fn default_ls_clock_format() -> (r: String)
    ensures
        r@ == "hh:mm"@,
{
    copy_str("hh:mm")
}

/// Default lock screen clock size.
pub fn default_ls_clock_font_size() -> (r: u32)
    ensures
        r == 72,
{
    72
}

/// Default lock screen clock font.
pub fn default_ls_clock_font_family() -> (r: String)
    ensures
        r@ == "JetBrains Mono"@,
{
    copy_str("JetBrains Mono")
}

/// Default lock screen greeting; `{user}` stands for the user name.
pub fn default_ls_greeting() -> (r: String)
    ensures
        r@ == "Welkom terug, {user}"@,
{
    copy_str("Welkom terug, {user}")
}

/// Default icon of the password field.
pub fn default_ls_auth_icon() -> (r: String)
    ensures
        r@ == "🔒"@,
{
    copy_str("🔒")
}

/// The cards of a new lock screen.
pub fn default_ls_cards() -> (r: Vec<String>)
    ensures
        views(r@) == lit_views(seq!["clock", "avatar", "auth", "mpris", "battery_network"]),
{
    strings_of(&["clock", "avatar", "auth", "mpris", "battery_network"])
}

/// The interface language of a new configuration.
pub fn default_language() -> (r: String)
    ensures
        r@ == "nl"@,
{
    copy_str("nl")
}

/// The icons the shell shows, each replaceable by the user.
#[derive(Clone, Debug, PartialEq)]
pub struct CustomIcons {
    pub workspaces: String,
    pub active_window: String,
    pub clock: String,
    pub systray: String,
    pub volume_high: String,
    pub volume_medium: String,
    pub volume_muted: String,
    pub brightness: String,
    pub power: String,
    pub launcher: String,
    pub brand: String,
    pub media: String,
    pub media_play: String,
    pub media_pause: String,
    pub media_prev: String,
    pub media_next: String,
    pub cpu: String,
    pub ram: String,
    pub battery_full: String,
    pub battery_low: String,
    pub battery_charging: String,
    pub network: String,
    pub bluetooth: String,
    pub wifi: String,
    pub dnd_on: String,
    pub dnd_off: String,
    pub nightlight: String,
    pub mic: String,
    pub mic_muted: String,
    pub lock: String,
    pub sleep: String,
    pub logout: String,
    pub reboot: String,
    pub shutdown: String,
    pub settings: String,
    pub script: String,
    pub custom: String,
    pub close: String,
}

impl Default for CustomIcons {
    fn default() -> (r: Self)
        ensures
            r.workspaces@ == "🗂️"@,
            r.active_window@ == "🪟"@,
            r.clock@ == "🕒"@,
            r.systray@ == "📥"@,
            r.volume_high@ == "🔊"@,
            r.volume_medium@ == "🔉"@,
            r.volume_muted@ == "🔇"@,
            r.brightness@ == "☀️"@,
            r.power@ == "⏻"@,
            r.launcher@ == "🚀"@,
            r.brand@ == "🌟"@,
            r.media@ == "🎵"@,
            r.media_play@ == "▶"@,
            r.media_pause@ == "⏸"@,
            r.media_prev@ == "⏮"@,
            r.media_next@ == "⏭"@,
            r.cpu@ == "🖥"@,
            r.ram@ == "💾"@,
            r.battery_full@ == "🔋"@,
            r.battery_low@ == "🪫"@,
            r.battery_charging@ == "⚡"@,
            r.network@ == "🌐"@,
            r.bluetooth@ == "ᛒ"@,
            r.wifi@ == "📶"@,
            r.dnd_on@ == "🔕"@,
            r.dnd_off@ == "🔔"@,
            r.nightlight@ == "🌙"@,
            r.mic@ == "🎙️"@,
            r.mic_muted@ == "🎙️❌"@,
            r.lock@ == "🔒"@,
            r.sleep@ == "💤"@,
            r.logout@ == "🚪"@,
            r.reboot@ == "🔄"@,
            r.shutdown@ == "⏻"@,
            r.settings@ == "⚙️"@,
            r.script@ == "💻"@,
            r.custom@ == "✨"@,
            r.close@ == "✕"@,
    {
        CustomIcons {
            workspaces: copy_str("🗂️"),
            active_window: copy_str("🪟"),
            clock: copy_str("🕒"),
            systray: copy_str("📥"),
            volume_high: copy_str("🔊"),
            volume_medium: copy_str("🔉"),
            volume_muted: copy_str("🔇"),
            brightness: copy_str("☀️"),
            power: copy_str("⏻"),
            launcher: copy_str("🚀"),
            brand: copy_str("🌟"),
            media: copy_str("🎵"),
            media_play: copy_str("▶"),
            media_pause: copy_str("⏸"),
            media_prev: copy_str("⏮"),
            media_next: copy_str("⏭"),
            cpu: copy_str("🖥"),
            ram: copy_str("💾"),
            battery_full: copy_str("🔋"),
            battery_low: copy_str("🪫"),
            battery_charging: copy_str("⚡"),
            network: copy_str("🌐"),
            bluetooth: copy_str("ᛒ"),
            wifi: copy_str("📶"),
            dnd_on: copy_str("🔕"),
            dnd_off: copy_str("🔔"),
            nightlight: copy_str("🌙"),
            mic: copy_str("🎙️"),
            mic_muted: copy_str("🎙️❌"),
            lock: copy_str("🔒"),
            sleep: copy_str("💤"),
            logout: copy_str("🚪"),
            reboot: copy_str("🔄"),
            shutdown: copy_str("⏻"),
            settings: copy_str("⚙️"),
            script: copy_str("💻"),
            custom: copy_str("✨"),
            close: copy_str("✕"),
        }
    }
}


// ---------------------------------------------------------------------------
// Modules and cards the designer offers.
// ---------------------------------------------------------------------------

/// A module (or card) the user can place.
#[derive(Clone, Debug, PartialEq)]
pub struct ModuleInfo {
    pub id: String,
    pub name: String,
    pub icon: String,
    pub description: String,
    pub is_custom: bool,
}

pub struct ModuleInfoView {
    pub id: Seq<char>,
    pub name: Seq<char>,
    pub icon: Seq<char>,
    pub description: Seq<char>,
    pub is_custom: bool,
}

impl View for ModuleInfo {
    type V = ModuleInfoView;

    open spec fn view(&self) -> ModuleInfoView {
        ModuleInfoView {
            id: self.id@,
            name: self.name@,
            icon: self.icon@,
            description: self.description@,
            is_custom: self.is_custom,
        }
    }
}

pub open spec fn info_views(s: Seq<ModuleInfo>) -> Seq<ModuleInfoView> {
    s.map_values(|m: ModuleInfo| m@)
}

fn builtin_info(id: &str, name: &str, icon: String, description: &str) -> (m: ModuleInfo)
    ensures
        m@ == (ModuleInfoView { id: id@, name: name@, icon: icon@, description: description@, is_custom: false }),
{
    ModuleInfo { id: copy_str(id), name: copy_str(name), icon, description: copy_str(description), is_custom: false }
}

/// The built-in bar modules, with the user's icons.
pub open spec fn builtin_modules_of(icons: CustomIcons) -> Seq<ModuleInfoView> {
    seq![
        ModuleInfoView { id: "workspaces"@, name: "Hyprland Werkbladen"@, icon: icons.workspaces@, description: "Interactieve werkbladknoppen via Hyprland IPC"@, is_custom: false },
        ModuleInfoView { id: "active_window"@, name: "Actief Venster"@, icon: icons.active_window@, description: "Titel van het huidige gefocuste venster"@, is_custom: false },
        ModuleInfoView { id: "clock"@, name: "Klok & Kalender"@, icon: icons.clock@, description: "Tijd en datumweergave met klikbare acties"@, is_custom: false },
        ModuleInfoView { id: "systray"@, name: "Systeemvak (Tray)"@, icon: icons.systray@, description: "StatusNotifiers en achtergrondapplicaties"@, is_custom: false },
        ModuleInfoView { id: "volume"@, name: "Geluid / Volume"@, icon: icons.volume_high@, description: "Volumeniveau met klik voor dempen en scrolregeling"@, is_custom: false },
        ModuleInfoView { id: "brightness"@, name: "Helderheid"@, icon: icons.brightness@, description: "Schermhelderheid aanpassen en uitlezen"@, is_custom: false },
        ModuleInfoView { id: "power"@, name: "Sessie / Afsluiten"@, icon: icons.power@, description: "Sessiebeheer (afsluiten, herstarten, vergrendelen)"@, is_custom: false },
        ModuleInfoView { id: "launcher"@, name: "Applicatiemenu"@, icon: icons.launcher@, description: "Snelstarter voor Rofi / Wofi menu"@, is_custom: false },
        ModuleInfoView { id: "brand"@, name: "Zenith Label"@, icon: icons.brand@, description: "Zenith merklabel en distro-indicatie"@, is_custom: false },
        ModuleInfoView { id: "media"@, name: "Mediaspeler"@, icon: icons.media@, description: "Now Playing trackweergave en play/pause knop"@, is_custom: false },
        ModuleInfoView { id: "cpu"@, name: "Processor (CPU)"@, icon: icons.cpu@, description: "Realtime CPU-belasting monitor"@, is_custom: false },
        ModuleInfoView { id: "ram"@, name: "Werkgeheugen (RAM)"@, icon: icons.ram@, description: "Actueel werkgeheugengebruik"@, is_custom: false },
        ModuleInfoView { id: "battery"@, name: "Batterij / Accu"@, icon: icons.battery_full@, description: "Accuniveau, dynamische iconen en laadindicator"@, is_custom: false },
        ModuleInfoView { id: "network"@, name: "Netwerk & Wifi"@, icon: icons.network@, description: "Verbindingsstatus en SSID/Ethernet indicatie"@, is_custom: false },
        ModuleInfoView { id: "bluetooth"@, name: "Bluetooth"@, icon: icons.bluetooth@, description: "Bluetooth powerstatus en klik-schakelaar"@, is_custom: false },
    ]
}
/// The built-in control center cards, with the user's icons.
pub open spec fn builtin_cards_of(icons: CustomIcons) -> Seq<ModuleInfoView> {
    seq![
        ModuleInfoView { id: "wifi_toggle"@, name: "Wi-Fi Schakelaar"@, icon: icons.wifi@, description: "Draadloos netwerk in-/uitschakelen en actuele verbinding"@, is_custom: false },
        ModuleInfoView { id: "bluetooth_toggle"@, name: "Bluetooth Schakelaar"@, icon: icons.bluetooth@, description: "Bluetooth in-/uitschakelen en gekoppelde apparaten"@, is_custom: false },
        ModuleInfoView { id: "dnd_toggle"@, name: "Niet Storen (DND)"@, icon: icons.dnd_on@, description: "Dunst notificaties onderdrukken"@, is_custom: false },
        ModuleInfoView { id: "nightlight_toggle"@, name: "Nachtmodus (Blauwfilter)"@, icon: icons.nightlight@, description: "Kleurtemperatuur van het scherm aanpassen voor de avond"@, is_custom: false },
        ModuleInfoView { id: "volume_slider"@, name: "Geluidsvolume Slider"@, icon: icons.volume_high@, description: "Interactieve volumeregeling en dempknop via WirePlumber"@, is_custom: false },
        ModuleInfoView { id: "mic_slider"@, name: "Microfoon Slider"@, icon: icons.mic@, description: "Opnamevolume en microfoondemping"@, is_custom: false },
        ModuleInfoView { id: "brightness_slider"@, name: "Schermhelderheid Slider"@, icon: icons.brightness@, description: "Helderheidsregeling van het beeldscherm via brightnessctl"@, is_custom: false },
        ModuleInfoView { id: "mpris_card"@, name: "Media Player Kaart"@, icon: icons.media@, description: "Volwaardige mediaspeler met album-art en bediening"@, is_custom: false },
        ModuleInfoView { id: "battery_card"@, name: "Accustatus Kaart"@, icon: icons.battery_full@, description: "Batterijniveau, laadstatus en resterende capaciteit"@, is_custom: false },
        ModuleInfoView { id: "power_strip"@, name: "Systeem Powerstrip"@, icon: icons.power@, description: "Snelknoppen voor vergrendelen, slaapstand, reboot en uitschakelen"@, is_custom: false },
    ]
}
/// The built-in lock screen cards, with the user's icons.
pub open spec fn builtin_lockscreen_cards_of(icons: CustomIcons) -> Seq<ModuleInfoView> {
    seq![
        ModuleInfoView { id: "clock"@, name: "Klok & Datum"@, icon: icons.clock@, description: "Elegante tijd-, dag- en datumweergave"@, is_custom: false },
        ModuleInfoView { id: "auth"@, name: "Authenticatie Box"@, icon: icons.lock@, description: "Wachtwoordinvoer met PAM verificatie en animaties"@, is_custom: false },
        ModuleInfoView { id: "avatar"@, name: "Profielfoto & Welkom"@, icon: "👤"@, description: "Gebruikersavatar met begroeting"@, is_custom: false },
        ModuleInfoView { id: "mpris"@, name: "Mediaspeler"@, icon: icons.media@, description: "Huidig spelend nummer met cover art en controls"@, is_custom: false },
        ModuleInfoView { id: "battery_network"@, name: "Status Indicator"@, icon: icons.battery_full@, description: "Batterij-, netwerk- en caps-lock status"@, is_custom: false },
    ]
}
/// The built-in bar modules.
pub fn builtin_modules(icons: &CustomIcons) -> (list: Vec<ModuleInfo>)
    ensures
        info_views(list@) == builtin_modules_of(*icons),
{
    let mut list: Vec<ModuleInfo> = Vec::new();
    let ghost before = list@;
    list.push(builtin_info("workspaces", "Hyprland Werkbladen", icons.workspaces.clone(), "Interactieve werkbladknoppen via Hyprland IPC"));
    proof { assert(info_views(list@) =~= info_views(before).push(list@.last()@)); assert(info_views(list@) =~= builtin_modules_of(*icons).take(1)); }
    let ghost before = list@;
    list.push(builtin_info("active_window", "Actief Venster", icons.active_window.clone(), "Titel van het huidige gefocuste venster"));
    proof { assert(info_views(list@) =~= info_views(before).push(list@.last()@)); assert(info_views(list@) =~= builtin_modules_of(*icons).take(2)); }
    let ghost before = list@;
    list.push(builtin_info("clock", "Klok & Kalender", icons.clock.clone(), "Tijd en datumweergave met klikbare acties"));
    proof { assert(info_views(list@) =~= info_views(before).push(list@.last()@)); assert(info_views(list@) =~= builtin_modules_of(*icons).take(3)); }
    let ghost before = list@;
    list.push(builtin_info("systray", "Systeemvak (Tray)", icons.systray.clone(), "StatusNotifiers en achtergrondapplicaties"));
    proof { assert(info_views(list@) =~= info_views(before).push(list@.last()@)); assert(info_views(list@) =~= builtin_modules_of(*icons).take(4)); }
    let ghost before = list@;
    list.push(builtin_info("volume", "Geluid / Volume", icons.volume_high.clone(), "Volumeniveau met klik voor dempen en scrolregeling"));
    proof { assert(info_views(list@) =~= info_views(before).push(list@.last()@)); assert(info_views(list@) =~= builtin_modules_of(*icons).take(5)); }
    let ghost before = list@;
    list.push(builtin_info("brightness", "Helderheid", icons.brightness.clone(), "Schermhelderheid aanpassen en uitlezen"));
    proof { assert(info_views(list@) =~= info_views(before).push(list@.last()@)); assert(info_views(list@) =~= builtin_modules_of(*icons).take(6)); }
    let ghost before = list@;
    list.push(builtin_info("power", "Sessie / Afsluiten", icons.power.clone(), "Sessiebeheer (afsluiten, herstarten, vergrendelen)"));
    proof { assert(info_views(list@) =~= info_views(before).push(list@.last()@)); assert(info_views(list@) =~= builtin_modules_of(*icons).take(7)); }
    let ghost before = list@;
    list.push(builtin_info("launcher", "Applicatiemenu", icons.launcher.clone(), "Snelstarter voor Rofi / Wofi menu"));
    proof { assert(info_views(list@) =~= info_views(before).push(list@.last()@)); assert(info_views(list@) =~= builtin_modules_of(*icons).take(8)); }
    let ghost before = list@;
    list.push(builtin_info("brand", "Zenith Label", icons.brand.clone(), "Zenith merklabel en distro-indicatie"));
    proof { assert(info_views(list@) =~= info_views(before).push(list@.last()@)); assert(info_views(list@) =~= builtin_modules_of(*icons).take(9)); }
    let ghost before = list@;
    list.push(builtin_info("media", "Mediaspeler", icons.media.clone(), "Now Playing trackweergave en play/pause knop"));
    proof { assert(info_views(list@) =~= info_views(before).push(list@.last()@)); assert(info_views(list@) =~= builtin_modules_of(*icons).take(10)); }
    let ghost before = list@;
    list.push(builtin_info("cpu", "Processor (CPU)", icons.cpu.clone(), "Realtime CPU-belasting monitor"));
    proof { assert(info_views(list@) =~= info_views(before).push(list@.last()@)); assert(info_views(list@) =~= builtin_modules_of(*icons).take(11)); }
    let ghost before = list@;
    list.push(builtin_info("ram", "Werkgeheugen (RAM)", icons.ram.clone(), "Actueel werkgeheugengebruik"));
    proof { assert(info_views(list@) =~= info_views(before).push(list@.last()@)); assert(info_views(list@) =~= builtin_modules_of(*icons).take(12)); }
    let ghost before = list@;
    list.push(builtin_info("battery", "Batterij / Accu", icons.battery_full.clone(), "Accuniveau, dynamische iconen en laadindicator"));
    proof { assert(info_views(list@) =~= info_views(before).push(list@.last()@)); assert(info_views(list@) =~= builtin_modules_of(*icons).take(13)); }
    let ghost before = list@;
    list.push(builtin_info("network", "Netwerk & Wifi", icons.network.clone(), "Verbindingsstatus en SSID/Ethernet indicatie"));
    proof { assert(info_views(list@) =~= info_views(before).push(list@.last()@)); assert(info_views(list@) =~= builtin_modules_of(*icons).take(14)); }
    let ghost before = list@;
    list.push(builtin_info("bluetooth", "Bluetooth", icons.bluetooth.clone(), "Bluetooth powerstatus en klik-schakelaar"));
    proof { assert(info_views(list@) =~= info_views(before).push(list@.last()@)); assert(info_views(list@) =~= builtin_modules_of(*icons).take(15)); }
    proof { assert(builtin_modules_of(*icons).take(15) =~= builtin_modules_of(*icons)); }
    list
}
/// The built-in control center cards.
pub fn builtin_cards(icons: &CustomIcons) -> (list: Vec<ModuleInfo>)
    ensures
        info_views(list@) == builtin_cards_of(*icons),
{
    let mut list: Vec<ModuleInfo> = Vec::new();
    let ghost before = list@;
    list.push(builtin_info("wifi_toggle", "Wi-Fi Schakelaar", icons.wifi.clone(), "Draadloos netwerk in-/uitschakelen en actuele verbinding"));
    proof { assert(info_views(list@) =~= info_views(before).push(list@.last()@)); assert(info_views(list@) =~= builtin_cards_of(*icons).take(1)); }
    let ghost before = list@;
    list.push(builtin_info("bluetooth_toggle", "Bluetooth Schakelaar", icons.bluetooth.clone(), "Bluetooth in-/uitschakelen en gekoppelde apparaten"));
    proof { assert(info_views(list@) =~= info_views(before).push(list@.last()@)); assert(info_views(list@) =~= builtin_cards_of(*icons).take(2)); }
    let ghost before = list@;
    list.push(builtin_info("dnd_toggle", "Niet Storen (DND)", icons.dnd_on.clone(), "Dunst notificaties onderdrukken"));
    proof { assert(info_views(list@) =~= info_views(before).push(list@.last()@)); assert(info_views(list@) =~= builtin_cards_of(*icons).take(3)); }
    let ghost before = list@;
    list.push(builtin_info("nightlight_toggle", "Nachtmodus (Blauwfilter)", icons.nightlight.clone(), "Kleurtemperatuur van het scherm aanpassen voor de avond"));
    proof { assert(info_views(list@) =~= info_views(before).push(list@.last()@)); assert(info_views(list@) =~= builtin_cards_of(*icons).take(4)); }
    let ghost before = list@;
    list.push(builtin_info("volume_slider", "Geluidsvolume Slider", icons.volume_high.clone(), "Interactieve volumeregeling en dempknop via WirePlumber"));
    proof { assert(info_views(list@) =~= info_views(before).push(list@.last()@)); assert(info_views(list@) =~= builtin_cards_of(*icons).take(5)); }
    let ghost before = list@;
    list.push(builtin_info("mic_slider", "Microfoon Slider", icons.mic.clone(), "Opnamevolume en microfoondemping"));
    proof { assert(info_views(list@) =~= info_views(before).push(list@.last()@)); assert(info_views(list@) =~= builtin_cards_of(*icons).take(6)); }
    let ghost before = list@;
    list.push(builtin_info("brightness_slider", "Schermhelderheid Slider", icons.brightness.clone(), "Helderheidsregeling van het beeldscherm via brightnessctl"));
    proof { assert(info_views(list@) =~= info_views(before).push(list@.last()@)); assert(info_views(list@) =~= builtin_cards_of(*icons).take(7)); }
    let ghost before = list@;
    list.push(builtin_info("mpris_card", "Media Player Kaart", icons.media.clone(), "Volwaardige mediaspeler met album-art en bediening"));
    proof { assert(info_views(list@) =~= info_views(before).push(list@.last()@)); assert(info_views(list@) =~= builtin_cards_of(*icons).take(8)); }
    let ghost before = list@;
    list.push(builtin_info("battery_card", "Accustatus Kaart", icons.battery_full.clone(), "Batterijniveau, laadstatus en resterende capaciteit"));
    proof { assert(info_views(list@) =~= info_views(before).push(list@.last()@)); assert(info_views(list@) =~= builtin_cards_of(*icons).take(9)); }
    let ghost before = list@;
    list.push(builtin_info("power_strip", "Systeem Powerstrip", icons.power.clone(), "Snelknoppen voor vergrendelen, slaapstand, reboot en uitschakelen"));
    proof { assert(info_views(list@) =~= info_views(before).push(list@.last()@)); assert(info_views(list@) =~= builtin_cards_of(*icons).take(10)); }
    proof { assert(builtin_cards_of(*icons).take(10) =~= builtin_cards_of(*icons)); }
    list
}
/// The built-in lock screen cards.
pub fn builtin_lockscreen_cards(icons: &CustomIcons) -> (list: Vec<ModuleInfo>)
    ensures
        info_views(list@) == builtin_lockscreen_cards_of(*icons),
{
    let mut list: Vec<ModuleInfo> = Vec::new();
    let ghost before = list@;
    list.push(builtin_info("clock", "Klok & Datum", icons.clock.clone(), "Elegante tijd-, dag- en datumweergave"));
    proof { assert(info_views(list@) =~= info_views(before).push(list@.last()@)); assert(info_views(list@) =~= builtin_lockscreen_cards_of(*icons).take(1)); }
    let ghost before = list@;
    list.push(builtin_info("auth", "Authenticatie Box", icons.lock.clone(), "Wachtwoordinvoer met PAM verificatie en animaties"));
    proof { assert(info_views(list@) =~= info_views(before).push(list@.last()@)); assert(info_views(list@) =~= builtin_lockscreen_cards_of(*icons).take(2)); }
    let ghost before = list@;
    list.push(builtin_info("avatar", "Profielfoto & Welkom", copy_str("👤"), "Gebruikersavatar met begroeting"));
    proof { assert(info_views(list@) =~= info_views(before).push(list@.last()@)); assert(info_views(list@) =~= builtin_lockscreen_cards_of(*icons).take(3)); }
    let ghost before = list@;
    list.push(builtin_info("mpris", "Mediaspeler", icons.media.clone(), "Huidig spelend nummer met cover art en controls"));
    proof { assert(info_views(list@) =~= info_views(before).push(list@.last()@)); assert(info_views(list@) =~= builtin_lockscreen_cards_of(*icons).take(4)); }
    let ghost before = list@;
    list.push(builtin_info("battery_network", "Status Indicator", icons.battery_full.clone(), "Batterij-, netwerk- en caps-lock status"));
    proof { assert(info_views(list@) =~= info_views(before).push(list@.last()@)); assert(info_views(list@) =~= builtin_lockscreen_cards_of(*icons).take(5)); }
    proof { assert(builtin_lockscreen_cards_of(*icons).take(5) =~= builtin_lockscreen_cards_of(*icons)); }
    list
}

/// Whether some entry of `list` has id `id`.
pub open spec fn has_id(list: Seq<ModuleInfoView>, id: Seq<char>) -> bool {
    exists|i: int| 0 <= i < list.len() && (#[trigger] list[i]).id == id
}

/// No two entries share an id.
pub open spec fn ids_unique(list: Seq<ModuleInfoView>) -> bool {
    forall|a: int, b: int| 0 <= a < b < list.len() ==> (#[trigger] list[a]).id != (#[trigger] list[b]).id
}

/// `list` with `m` appended unless an entry already has its id.
pub open spec fn add_unique(list: Seq<ModuleInfoView>, m: ModuleInfoView) -> Seq<ModuleInfoView> {
    if has_id(list, m.id) {
        list
    } else {
        list.push(m)
    }
}

/// Whether `list` holds an entry with the id `id`.
pub fn contains_id(list: &Vec<ModuleInfo>, id: &str) -> (r: bool)
    ensures
        r == has_id(info_views(list@), id@),
{
    let mut i: usize = 0;
    while i < list.len()
        invariant
            i <= list@.len(),
            forall|k: int| 0 <= k < i ==> list@[k].id@ != id@,
        decreases list.len() - i,
    {
        if str_eq(list[i].id.as_str(), id) {
            proof {
                assert(info_views(list@)[i as int].id == id@);
            }
            return true;
        }
        i = i + 1;
    }
    proof {
        assert forall|k: int| 0 <= k < info_views(list@).len() implies (#[trigger] info_views(list@)[k]).id != id@ by {
            assert(info_views(list@)[k] == list@[k]@);
        }
    }
    false
}

/// Appends `m` unless an entry already has its id.
pub fn push_unique(list: &mut Vec<ModuleInfo>, m: ModuleInfo)
    ensures
        info_views(final(list)@) == add_unique(info_views(old(list)@), m@),
{
    if !contains_id(list, m.id.as_str()) {
        let ghost before = list@;
        list.push(m);
        proof {
            assert(info_views(list@) =~= info_views(before).push(m@));
        }
    }
}

/// Adding an entry by id never creates a duplicate id.
pub proof fn law_add_unique_keeps_ids_unique(list: Seq<ModuleInfoView>, m: ModuleInfoView)
    requires
        ids_unique(list),
    ensures
        ids_unique(add_unique(list, m)),
        has_id(add_unique(list, m), m.id),
{
    if !has_id(list, m.id) {
        let l2 = list.push(m);
        assert forall|a: int, b: int| 0 <= a < b < l2.len() implies (#[trigger] l2[a]).id != (#[trigger] l2[b]).id by {
            if b == list.len() {
                assert(l2[a] == list[a]);
            } else {
                assert(l2[a] == list[a] && l2[b] == list[b]);
            }
        }
        assert(l2[list.len() as int] == m);
    }
}


/// Which list custom QML files are discovered for.
#[derive(Clone, Copy, PartialEq, Eq, Debug)]
pub enum CustomKind {
    /// Bar modules (`modules/*.qml`).
    Module,
    /// Control center cards (`cards/*.qml`).
    Card,
    /// Lock screen cards (`lockscreen_cards/*.qml`).
    LockscreenCard,
}

pub open spec fn custom_description_head(kind: CustomKind) -> Seq<char> {
    match kind {
        CustomKind::Module => "Aangepast QML widget: "@,
        CustomKind::Card => "Aangepaste QML kaart: "@,
        CustomKind::LockscreenCard => "Aangepaste Lockscreen kaart: "@,
    }
}

/// The entry for a custom QML file with stem `stem`.
pub open spec fn custom_view(kind: CustomKind, stem: Seq<char>, icon: Seq<char>) -> ModuleInfoView {
    ModuleInfoView {
        id: stem,
        name: "✨ Custom: "@ + stem,
        icon: icon,
        description: custom_description_head(kind) + stem + ".qml"@,
        is_custom: true,
    }
}

/// `stem` without a trailing `_card`.
pub open spec fn without_card_suffix(stem: Seq<char>) -> Seq<char> {
    if stem.len() >= "_card"@.len() && stem.skip(stem.len() - "_card"@.len()) == "_card"@ {
        stem.take(stem.len() - "_card"@.len())
    } else {
        stem
    }
}

/// Whether a discovered file is left out: when an entry has its id already;
/// `script_card` is never a control center card; a lock screen card is also
/// left out when an entry has its id without `_card`.
pub open spec fn custom_skipped(kind: CustomKind, list: Seq<ModuleInfoView>, stem: Seq<char>) -> bool {
    match kind {
        CustomKind::Module => has_id(list, stem),
        CustomKind::Card => stem == "script_card"@ || has_id(list, stem),
        CustomKind::LockscreenCard => has_id(list, without_card_suffix(stem)) || has_id(list, stem),
    }
}

/// `list` with an entry for each discovered file that is not left out, in order.
pub open spec fn with_customs(kind: CustomKind, list: Seq<ModuleInfoView>, stems: Seq<Seq<char>>, icon: Seq<char>) -> Seq<ModuleInfoView>
    decreases stems.len(),
{
    if stems.len() == 0 {
        list
    } else {
        let next = if custom_skipped(kind, list, stems[0]) {
            list
        } else {
            list.push(custom_view(kind, stems[0], icon))
        };
        with_customs(kind, next, stems.drop_first(), icon)
    }
}

/// The entry for a custom script.
pub open spec fn script_view(s: CustomScriptModule) -> ModuleInfoView {
    ModuleInfoView {
        id: "script:"@ + s.id@,
        name: "💻 Script: "@ + s.name@,
        icon: s.icon@,
        description: "`"@ + s.command@ + "` (elke "@ + dec(s.interval_seconds as nat) + "s)"@,
        is_custom: true,
    }
}

/// `list` with an entry for each script whose id is not there yet, in order.
pub open spec fn with_scripts(list: Seq<ModuleInfoView>, scripts: Seq<CustomScriptModule>) -> Seq<ModuleInfoView>
    decreases scripts.len(),
{
    if scripts.len() == 0 {
        list
    } else {
        with_scripts(add_unique(list, script_view(scripts[0])), scripts.drop_first())
    }
}

fn strip_card_suffix(stem: &str) -> (r: String)
    ensures
        r@ == without_card_suffix(stem@),
{
    let v = crate::text::to_chars(stem);
    let suffix = crate::text::to_chars("_card");
    if v.len() >= suffix.len() && crate::text::ends_with(stem, "_card") {
        let mut r = String::new();
        crate::text::push_range(&mut r, &v, 0, v.len() - suffix.len());
        proof {
            assert(v@.subrange(0, v@.len() - suffix@.len()) =~= stem@.take(stem@.len() - "_card"@.len()));
        }
        r
    } else {
        copy_str(stem)
    }
}

fn custom_info(kind: CustomKind, stem: &str, icon: &str) -> (m: ModuleInfo)
    ensures
        m@ == custom_view(kind, stem@, icon@),
{
    let mut name = copy_str("✨ Custom: ");
    name.append(stem);
    let mut description = match kind {
        CustomKind::Module => copy_str("Aangepast QML widget: "),
        CustomKind::Card => copy_str("Aangepaste QML kaart: "),
        CustomKind::LockscreenCard => copy_str("Aangepaste Lockscreen kaart: "),
    };
    description.append(stem);
    description.append(".qml");
    ModuleInfo { id: copy_str(stem), name, icon: copy_str(icon), description, is_custom: true }
}

/// Adds an entry for each discovered custom QML file (stems in directory
/// order) that is not left out.
pub fn add_customs(list: &mut Vec<ModuleInfo>, kind: CustomKind, stems: &Vec<String>, icon: &str)
    ensures
        info_views(final(list)@) == with_customs(kind, info_views(old(list)@), views(stems@), icon@),
{
    let mut i: usize = 0;
    proof {
        assert(views(stems@).skip(0) =~= views(stems@));
    }
    while i < stems.len()
        invariant
            i <= stems@.len(),
            with_customs(kind, info_views(list@), views(stems@).skip(i as int), icon@) == with_customs(
                kind,
                info_views(old(list)@),
                views(stems@),
                icon@,
            ),
        decreases stems.len() - i,
    {
        let stem = stems[i].as_str();
        let ghost rest = views(stems@).skip(i as int);
        proof {
            assert(rest[0] == stem@);
            assert(rest.drop_first() =~= views(stems@).skip(i + 1));
        }
        let skip = match kind {
            CustomKind::Module => contains_id(list, stem),
            CustomKind::Card => str_eq(stem, "script_card") || contains_id(list, stem),
            CustomKind::LockscreenCard => {
                let base = strip_card_suffix(stem);
                contains_id(list, base.as_str()) || contains_id(list, stem)
            },
        };
        if !skip {
            let ghost before = list@;
            list.push(custom_info(kind, stem, icon));
            proof {
                assert(info_views(list@) =~= info_views(before).push(custom_view(kind, stem@, icon@)));
            }
        }
        i = i + 1;
    }
    proof {
        assert(views(stems@).skip(stems@.len() as int) =~= Seq::<Seq<char>>::empty());
    }
}

fn script_info(s: &CustomScriptModule) -> (m: ModuleInfo)
    ensures
        m@ == script_view(*s),
{
    let mut id = copy_str("script:");
    id.append(s.id.as_str());
    let mut name = copy_str("💻 Script: ");
    name.append(s.name.as_str());
    let mut description = copy_str("`");
    description.append(s.command.as_str());
    description.append("` (elke ");
    push_dec(&mut description, s.interval_seconds as u64);
    description.append("s)");
    ModuleInfo { id, name, icon: s.icon.clone(), description, is_custom: true }
}

/// Adds an entry for each script whose id is not there yet.
pub fn add_scripts(list: &mut Vec<ModuleInfo>, scripts: &Vec<CustomScriptModule>)
    ensures
        info_views(final(list)@) == with_scripts(info_views(old(list)@), scripts@),
{
    let mut i: usize = 0;
    proof {
        assert(scripts@.skip(0) =~= scripts@);
    }
    while i < scripts.len()
        invariant
            i <= scripts@.len(),
            with_scripts(info_views(list@), scripts@.skip(i as int)) == with_scripts(info_views(old(list)@), scripts@),
        decreases scripts.len() - i,
    {
        proof {
            assert(scripts@.skip(i as int)[0] == scripts@[i as int]);
            assert(scripts@.skip(i as int).drop_first() =~= scripts@.skip(i + 1));
        }
        push_unique(list, script_info(&scripts[i]));
        i = i + 1;
    }
    proof {
        assert(scripts@.skip(scripts@.len() as int) =~= Seq::<CustomScriptModule>::empty());
    }
}

/// The custom modules found among the stems of the `.qml` files of a
/// directory: one per stem that neither `existing` nor an earlier stem has.
pub fn discover_custom_modules_in_dir(stems: &Vec<String>, custom_icon: &str, existing: &Vec<ModuleInfo>) -> (found: Vec<ModuleInfo>)
    ensures
        info_views(existing@) + info_views(found@) == with_customs(
            CustomKind::Module,
            info_views(existing@),
            views(stems@),
            custom_icon@,
        ),
{
    let mut found: Vec<ModuleInfo> = Vec::new();
    let mut i: usize = 0;
    proof {
        assert(info_views(existing@) + info_views(found@) =~= info_views(existing@));
        assert(views(stems@).skip(0) =~= views(stems@));
    }
    while i < stems.len()
        invariant
            i <= stems@.len(),
            with_customs(CustomKind::Module, info_views(existing@) + info_views(found@), views(stems@).skip(i as int), custom_icon@)
                == with_customs(CustomKind::Module, info_views(existing@), views(stems@), custom_icon@),
        decreases stems.len() - i,
    {
        let stem = stems[i].as_str();
        let ghost rest = views(stems@).skip(i as int);
        let ghost all = info_views(existing@) + info_views(found@);
        proof {
            assert(rest[0] == stem@);
            assert(rest.drop_first() =~= views(stems@).skip(i + 1));
        }
        let in_existing = contains_id(existing, stem);
        let in_found = contains_id(&found, stem);
        proof {
            if has_id(all, stem@) {
                let k = choose|k: int| 0 <= k < all.len() && (#[trigger] all[k]).id == stem@;
                if k < existing@.len() {
                    assert(info_views(existing@)[k] == all[k]);
                } else {
                    assert(info_views(found@)[k - existing@.len()] == all[k]);
                }
            }
            if in_existing {
                let k = choose|k: int| 0 <= k < info_views(existing@).len() && (#[trigger] info_views(existing@)[k]).id == stem@;
                assert(all[k] == info_views(existing@)[k]);
            }
            if in_found {
                let k = choose|k: int| 0 <= k < info_views(found@).len() && (#[trigger] info_views(found@)[k]).id == stem@;
                assert(all[existing@.len() + k] == info_views(found@)[k]);
            }
            assert(has_id(all, stem@) == (in_existing || in_found));
        }
        if !in_existing && !in_found {
            let ghost before = found@;
            found.push(custom_info(CustomKind::Module, stem, custom_icon));
            proof {
                assert(info_views(existing@) + info_views(found@) =~= all.push(custom_view(CustomKind::Module, stem@, custom_icon@)));
            }
        }
        i = i + 1;
    }
    proof {
        assert(views(stems@).skip(stems@.len() as int) =~= Seq::<Seq<char>>::empty());
    }
    found
}


/// The bar modules on offer: the built-in ones, then one per custom QML
/// module found (`stems`, the stems of `modules/*.qml` in directory order)
/// whose id is new, then one per configured script whose id is new.
pub fn discover_available_modules(icons: &CustomIcons, stems: &Vec<String>, scripts: &Vec<CustomScriptModule>) -> (list: Vec<ModuleInfo>)
    ensures
        info_views(list@) == with_scripts(
            with_customs(CustomKind::Module, builtin_modules_of(*icons), views(stems@), icons.custom@),
            scripts@,
        ),
        ids_unique(info_views(list@)),
        info_views(list@).take(builtin_modules_of(*icons).len() as int) == builtin_modules_of(*icons),
{
    let mut list = builtin_modules(icons);
    let mut found = discover_custom_modules_in_dir(stems, icons.custom.as_str(), &list);
    let ghost before = list@;
    let ghost found_before = found@;
    list.append(&mut found);
    proof {
        assert(info_views(list@) =~= info_views(before) + info_views(found_before));
    }
    add_scripts(&mut list, scripts);
    proof {
        law_discovered_modules(*icons, views(stems@), scripts@);
    }
    list
}

/// The bar modules on offer to one shell instance: those of
/// [`discover_available_modules`], then one per script of the instance whose
/// id is new.
pub fn discover_modules_for_instance(
    icons: &CustomIcons,
    stems: &Vec<String>,
    scripts: &Vec<CustomScriptModule>,
    own_scripts: &Vec<CustomScriptModule>,
) -> (list: Vec<ModuleInfo>)
    ensures
        info_views(list@) == with_scripts(
            with_scripts(
                with_customs(CustomKind::Module, builtin_modules_of(*icons), views(stems@), icons.custom@),
                scripts@,
            ),
            own_scripts@,
        ),
        ids_unique(info_views(list@)),
{
    let mut list = discover_available_modules(icons, stems, scripts);
    add_scripts(&mut list, own_scripts);
    proof {
        law_with_scripts_keeps_ids_unique(
            with_scripts(
                with_customs(CustomKind::Module, builtin_modules_of(*icons), views(stems@), icons.custom@),
                scripts@,
            ),
            own_scripts@,
        );
    }
    list
}

/// The control center cards on offer: the built-in ones, then one per custom
/// QML card found (`stems`, the stems of `cards/*.qml` in directory order)
/// that is not `script_card` and whose id is new.
pub fn discover_available_cards(icons: &CustomIcons, stems: &Vec<String>) -> (list: Vec<ModuleInfo>)
    ensures
        info_views(list@) == with_customs(CustomKind::Card, builtin_cards_of(*icons), views(stems@), icons.custom@),
        ids_unique(info_views(list@)),
        info_views(list@).take(builtin_cards_of(*icons).len() as int) == builtin_cards_of(*icons),
{
    let mut list = builtin_cards(icons);
    add_customs(&mut list, CustomKind::Card, stems, icons.custom.as_str());
    proof {
        law_builtin_ids_unique(*icons);
        law_with_customs_keeps_ids_unique(CustomKind::Card, builtin_cards_of(*icons), views(stems@), icons.custom@);
    }
    list
}

/// The control center cards on offer to one shell instance: those of
/// [`discover_available_cards`], then one per script of the instance whose id
/// is new.
pub fn discover_cards_for_instance(icons: &CustomIcons, stems: &Vec<String>, own_scripts: &Vec<CustomScriptModule>) -> (list: Vec<ModuleInfo>)
    ensures
        info_views(list@) == with_scripts(
            with_customs(CustomKind::Card, builtin_cards_of(*icons), views(stems@), icons.custom@),
            own_scripts@,
        ),
        ids_unique(info_views(list@)),
{
    let mut list = discover_available_cards(icons, stems);
    add_scripts(&mut list, own_scripts);
    proof {
        law_with_scripts_keeps_ids_unique(
            with_customs(CustomKind::Card, builtin_cards_of(*icons), views(stems@), icons.custom@),
            own_scripts@,
        );
    }
    list
}

/// The lock screen cards on offer: the built-in ones, then one per custom QML
/// card found (`stems`, the stems of `lockscreen_cards/*.qml` in directory
/// order) whose id, with or without a trailing `_card`, is new, then one per
/// configured lock screen script whose id is new.
pub fn discover_available_lockscreen_cards(icons: &CustomIcons, stems: &Vec<String>, scripts: &Vec<CustomScriptModule>) -> (list: Vec<ModuleInfo>)
    ensures
        info_views(list@) == with_scripts(
            with_customs(CustomKind::LockscreenCard, builtin_lockscreen_cards_of(*icons), views(stems@), icons.custom@),
            scripts@,
        ),
        ids_unique(info_views(list@)),
        info_views(list@).take(builtin_lockscreen_cards_of(*icons).len() as int) == builtin_lockscreen_cards_of(*icons),
{
    let mut list = builtin_lockscreen_cards(icons);
    add_customs(&mut list, CustomKind::LockscreenCard, stems, icons.custom.as_str());
    add_scripts(&mut list, scripts);
    proof {
        law_builtin_ids_unique(*icons);
        let l0 = builtin_lockscreen_cards_of(*icons);
        let l1 = with_customs(CustomKind::LockscreenCard, l0, views(stems@), icons.custom@);
        law_with_customs_keeps_ids_unique(CustomKind::LockscreenCard, l0, views(stems@), icons.custom@);
        law_with_scripts_keeps_ids_unique(l1, scripts@);
        assert(with_scripts(l1, scripts@).take(l0.len() as int) =~= l0) by {
            assert(with_scripts(l1, scripts@).take(l1.len() as int) == l1);
            assert forall|i: int| 0 <= i < l0.len() implies with_scripts(l1, scripts@)[i] == l0[i] by {
                assert(with_scripts(l1, scripts@)[i] == with_scripts(l1, scripts@).take(l1.len() as int)[i]);
                assert(l1[i] == l1.take(l0.len() as int)[i]);
            }
        }
    }
    list
}

/// The lock screen cards on offer to one shell instance: those of
/// [`discover_available_lockscreen_cards`], then one per lock screen script
/// of the instance whose id is new.
pub fn discover_lockscreen_cards_for_instance(
    icons: &CustomIcons,
    stems: &Vec<String>,
    scripts: &Vec<CustomScriptModule>,
    own_scripts: &Vec<CustomScriptModule>,
) -> (list: Vec<ModuleInfo>)
    ensures
        info_views(list@) == with_scripts(
            with_scripts(
                with_customs(CustomKind::LockscreenCard, builtin_lockscreen_cards_of(*icons), views(stems@), icons.custom@),
                scripts@,
            ),
            own_scripts@,
        ),
        ids_unique(info_views(list@)),
{
    let mut list = discover_available_lockscreen_cards(icons, stems, scripts);
    add_scripts(&mut list, own_scripts);
    proof {
        law_with_scripts_keeps_ids_unique(
            with_scripts(
                with_customs(CustomKind::LockscreenCard, builtin_lockscreen_cards_of(*icons), views(stems@), icons.custom@),
                scripts@,
            ),
            own_scripts@,
        );
    }
    list
}

/// The built-in modules, control center cards and lock screen cards each have
/// distinct ids.
pub proof fn law_builtin_ids_unique(icons: CustomIcons)
    ensures
        ids_unique(builtin_modules_of(icons)),
        ids_unique(builtin_cards_of(icons)),
        ids_unique(builtin_lockscreen_cards_of(icons)),
{
    reveal_strlit("workspaces");
    reveal_strlit("active_window");
    reveal_strlit("clock");
    reveal_strlit("systray");
    reveal_strlit("volume");
    reveal_strlit("brightness");
    reveal_strlit("power");
    reveal_strlit("launcher");
    reveal_strlit("brand");
    reveal_strlit("media");
    reveal_strlit("cpu");
    reveal_strlit("ram");
    reveal_strlit("battery");
    reveal_strlit("network");
    reveal_strlit("bluetooth");
    reveal_strlit("wifi_toggle");
    reveal_strlit("bluetooth_toggle");
    reveal_strlit("dnd_toggle");
    reveal_strlit("nightlight_toggle");
    reveal_strlit("volume_slider");
    reveal_strlit("mic_slider");
    reveal_strlit("brightness_slider");
    reveal_strlit("mpris_card");
    reveal_strlit("battery_card");
    reveal_strlit("power_strip");
    reveal_strlit("auth");
    reveal_strlit("avatar");
    reveal_strlit("mpris");
    reveal_strlit("battery_network");
    let m = builtin_modules_of(icons);
    assert forall|a: int, b: int| 0 <= a < b < m.len() implies (#[trigger] m[a]).id != (#[trigger] m[b]).id by {
        if m[a].id.len() == m[b].id.len() {
            assert(m[a].id[0] != m[b].id[0] || m[a].id[1] != m[b].id[1] || m[a].id[2] != m[b].id[2]);
        }
    }
    let c = builtin_cards_of(icons);
    assert forall|a: int, b: int| 0 <= a < b < c.len() implies (#[trigger] c[a]).id != (#[trigger] c[b]).id by {
        if c[a].id.len() == c[b].id.len() {
            assert(c[a].id[0] != c[b].id[0] || c[a].id[1] != c[b].id[1]);
        }
    }
    let l = builtin_lockscreen_cards_of(icons);
    assert forall|a: int, b: int| 0 <= a < b < l.len() implies (#[trigger] l[a]).id != (#[trigger] l[b]).id by {
        if l[a].id.len() == l[b].id.len() {
            assert(l[a].id[1] != l[b].id[1]);
        }
    }
}

/// Adding the discovered custom QML files keeps the ids distinct and keeps
/// what was there, in place, at the front.
pub proof fn law_with_customs_keeps_ids_unique(kind: CustomKind, list: Seq<ModuleInfoView>, stems: Seq<Seq<char>>, icon: Seq<char>)
    requires
        ids_unique(list),
    ensures
        ids_unique(with_customs(kind, list, stems, icon)),
        with_customs(kind, list, stems, icon).len() >= list.len(),
        with_customs(kind, list, stems, icon).take(list.len() as int) == list,
    decreases stems.len(),
{
    if stems.len() > 0 {
        let m = custom_view(kind, stems[0], icon);
        let next = if custom_skipped(kind, list, stems[0]) { list } else { list.push(m) };
        if !custom_skipped(kind, list, stems[0]) {
            assert(!has_id(list, m.id));
            assert(add_unique(list, m) == next);
            law_add_unique_keeps_ids_unique(list, m);
        }
        law_with_customs_keeps_ids_unique(kind, next, stems.drop_first(), icon);
        let r = with_customs(kind, next, stems.drop_first(), icon);
        assert(r.take(list.len() as int) =~= list) by {
            assert forall|i: int| 0 <= i < list.len() implies r[i] == list[i] by {
                assert(r[i] == r.take(next.len() as int)[i]);
                assert(next[i] == list[i]);
            }
        }
    }
}

/// Adding scripts keeps the ids distinct, keeps what was there, in place, at
/// the front, and leaves an entry for each script's id.
pub proof fn law_with_scripts_keeps_ids_unique(list: Seq<ModuleInfoView>, scripts: Seq<CustomScriptModule>)
    requires
        ids_unique(list),
    ensures
        ids_unique(with_scripts(list, scripts)),
        with_scripts(list, scripts).len() >= list.len(),
        with_scripts(list, scripts).take(list.len() as int) == list,
        forall|k: int| 0 <= k < scripts.len() ==> has_id(with_scripts(list, scripts), #[trigger] script_view(scripts[k]).id),
    decreases scripts.len(),
{
    if scripts.len() > 0 {
        let m = script_view(scripts[0]);
        let next = add_unique(list, m);
        law_add_unique_keeps_ids_unique(list, m);
        law_with_scripts_keeps_ids_unique(next, scripts.drop_first());
        let r = with_scripts(next, scripts.drop_first());
        assert(next.len() >= list.len() && next.take(list.len() as int) =~= list);
        assert(r.take(list.len() as int) =~= list) by {
            assert forall|i: int| 0 <= i < list.len() implies r[i] == list[i] by {
                assert(r[i] == r.take(next.len() as int)[i]);
                assert(next[i] == next.take(list.len() as int)[i]);
            }
        }
        assert forall|k: int| 0 <= k < scripts.len() implies has_id(r, #[trigger] script_view(scripts[k]).id) by {
            if k == 0 {
                let j = choose|j: int| 0 <= j < next.len() && (#[trigger] next[j]).id == m.id;
                assert(r[j] == r.take(next.len() as int)[j]);
            } else {
                assert(scripts.drop_first()[k - 1] == scripts[k]);
            }
        }
    }
}

/// The discovered bar modules have distinct ids and start with the built-in
/// ones, in order.
pub proof fn law_discovered_modules(icons: CustomIcons, stems: Seq<Seq<char>>, scripts: Seq<CustomScriptModule>)
    ensures
        ids_unique(with_scripts(with_customs(CustomKind::Module, builtin_modules_of(icons), stems, icons.custom@), scripts)),
        with_scripts(with_customs(CustomKind::Module, builtin_modules_of(icons), stems, icons.custom@), scripts).take(
            builtin_modules_of(icons).len() as int,
        ) == builtin_modules_of(icons),
{
    law_builtin_ids_unique(icons);
    let l0 = builtin_modules_of(icons);
    let l1 = with_customs(CustomKind::Module, l0, stems, icons.custom@);
    law_with_customs_keeps_ids_unique(CustomKind::Module, l0, stems, icons.custom@);
    law_with_scripts_keeps_ids_unique(l1, scripts);
    let r = with_scripts(l1, scripts);
    assert(r.take(l0.len() as int) =~= l0) by {
        assert forall|i: int| 0 <= i < l0.len() implies r[i] == l0[i] by {
            assert(r[i] == r.take(l1.len() as int)[i]);
            assert(l1[i] == l1.take(l0.len() as int)[i]);
        }
    }
}


// ---------------------------------------------------------------------------
// Moving a module between the zones of the bar.
// ---------------------------------------------------------------------------

/// A zone of the bar.
#[derive(Clone, Copy, Debug, PartialEq, Eq, Structural)]
pub enum Zone {
    Left,
    Center,
    Right,
}

/// The zone a drop target names: `left`, `center`, anything else the right.
pub open spec fn zone_named(name: Seq<char>) -> Zone {
    if name == "left"@ {
        Zone::Left
    } else if name == "center"@ {
        Zone::Center
    } else {
        Zone::Right
    }
}

/// `s` without the first occurrence of `x` (unchanged when `x` is absent).
pub open spec fn without_first(s: Seq<Seq<char>>, x: Seq<char>) -> Seq<Seq<char>>
    decreases s.len(),
{
    if s.len() == 0 {
        s
    } else if s[0] == x {
        s.drop_first()
    } else {
        seq![s[0]] + without_first(s.drop_first(), x)
    }
}

/// A zone after a move of `id`: its first `id` removed, and `id` appended
/// when it is the target.
pub open spec fn zone_after_move(zone: Seq<Seq<char>>, id: Seq<char>, is_target: bool) -> Seq<Seq<char>> {
    if is_target {
        without_first(zone, id).push(id)
    } else {
        without_first(zone, id)
    }
}

/// Removes the first `id` from a zone.
fn remove_first(zone: &mut Vec<String>, id: &str)
    ensures
        views(final(zone)@) == without_first(views(old(zone)@), id@),
{
    let mut i: usize = 0;
    proof {
        assert(views(zone@).skip(0) =~= views(zone@));
    }
    while i < zone.len()
        invariant
            zone@ == old(zone)@,
            i <= zone@.len(),
            forall|k: int| 0 <= k < i ==> zone@[k]@ != id@,
            views(zone@).take(i as int) + without_first(views(zone@).skip(i as int), id@) == without_first(
                views(zone@),
                id@,
            ),
        decreases zone.len() - i,
    {
        let ghost t = views(zone@).skip(i as int);
        proof {
            assert(t[0] == zone@[i as int]@);
            assert(t.drop_first() =~= views(zone@).skip(i + 1));
        }
        if str_eq(zone[i].as_str(), id) {
            let ghost before = zone@;
            zone.remove(i);
            proof {
                assert(views(zone@) =~= views(before).take(i as int) + t.drop_first());
            }
            return;
        }
        proof {
            assert(views(zone@).take(i + 1) =~= views(zone@).take(i as int).push(t[0]));
            assert(views(zone@).take(i + 1) + without_first(t.drop_first(), id@) =~= views(zone@).take(i as int) + (
            seq![t[0]] + without_first(t.drop_first(), id@)));
        }
        i = i + 1;
    }
    proof {
        assert(views(zone@).skip(i as int) =~= Seq::<Seq<char>>::empty());
        assert(views(zone@).take(i as int) =~= views(zone@));
    }
}

/// Moves module `id` to the end of the zone named `target_zone` (`left`,
/// `center`, otherwise the right): it is first taken out of every zone it is
/// in, then appended to the target. Returns the length the target zone had
/// before the move (the position the daemon is told).
pub fn move_module(modules: &mut ShellModules, id: &str, target_zone: &str) -> (target_len: usize)
    ensures
        target_len == match zone_named(target_zone@) {
            Zone::Left => old(modules).left@.len(),
            Zone::Center => old(modules).center@.len(),
            Zone::Right => old(modules).right@.len(),
        },
        views(final(modules).left@) == zone_after_move(views(old(modules).left@), id@, zone_named(target_zone@) == Zone::Left),
        views(final(modules).center@) == zone_after_move(
            views(old(modules).center@),
            id@,
            zone_named(target_zone@) == Zone::Center,
        ),
        views(final(modules).right@) == zone_after_move(
            views(old(modules).right@),
            id@,
            zone_named(target_zone@) == Zone::Right,
        ),
{
    proof {
        reveal_strlit("left");
        reveal_strlit("center");
    }
    let zone = if str_eq(target_zone, "left") {
        Zone::Left
    } else if str_eq(target_zone, "center") {
        Zone::Center
    } else {
        Zone::Right
    };
    let target_len = match zone {
        Zone::Left => modules.left.len(),
        Zone::Center => modules.center.len(),
        Zone::Right => modules.right.len(),
    };
    remove_first(&mut modules.left, id);
    remove_first(&mut modules.center, id);
    remove_first(&mut modules.right, id);
    let ghost l = modules.left@;
    let ghost c = modules.center@;
    let ghost r = modules.right@;
    match zone {
        Zone::Left => modules.left.push(copy_str(id)),
        Zone::Center => modules.center.push(copy_str(id)),
        Zone::Right => modules.right.push(copy_str(id)),
    }
    proof {
        match zone {
            Zone::Left => assert(views(modules.left@) =~= views(l).push(id@)),
            Zone::Center => assert(views(modules.center@) =~= views(c).push(id@)),
            Zone::Right => assert(views(modules.right@) =~= views(r).push(id@)),
        }
    }
    target_len
}

/// How often `x` occurs in `s`.
pub open spec fn occurrences(s: Seq<Seq<char>>, x: Seq<char>) -> nat
    decreases s.len(),
{
    if s.len() == 0 {
        0
    } else {
        (if s[0] == x { 1nat } else { 0nat }) + occurrences(s.drop_first(), x)
    }
}

/// Taking out the first `x` takes out one occurrence and keeps the others.
pub proof fn lemma_without_first(s: Seq<Seq<char>>, x: Seq<char>)
    ensures
        occurrences(without_first(s, x), x) == if occurrences(s, x) > 0 { (occurrences(s, x) - 1) as nat } else { 0nat },
        forall|y: Seq<char>| y != x ==> occurrences(without_first(s, x), y) == occurrences(s, y),
    decreases s.len(),
{
    if s.len() > 0 {
        lemma_without_first(s.drop_first(), x);
        if s[0] != x {
            let w = seq![s[0]] + without_first(s.drop_first(), x);
            assert(w.drop_first() =~= without_first(s.drop_first(), x));
            assert(w[0] == s[0]);
            assert forall|y: Seq<char>| y != x implies occurrences(without_first(s, x), y) == occurrences(s, y) by {
                assert(occurrences(without_first(s.drop_first(), x), y) == occurrences(s.drop_first(), y));
            }
        }
    }
}

/// `x` occurs once more at the end of `s.push(x)`.
pub proof fn lemma_occurrences_push(s: Seq<Seq<char>>, x: Seq<char>, y: Seq<char>)
    ensures
        occurrences(s.push(x), y) == occurrences(s, y) + (if x == y { 1nat } else { 0nat }),
    decreases s.len(),
{
    if s.len() > 0 {
        lemma_occurrences_push(s.drop_first(), x, y);
        assert(s.push(x).drop_first() =~= s.drop_first().push(x));
        assert(s.push(x)[0] == s[0]);
    } else {
        assert(s.push(x).drop_first() =~= Seq::<Seq<char>>::empty());
        assert(s.push(x)[0] == x);
        assert(occurrences(Seq::<Seq<char>>::empty(), y) == 0);
    }
}

/// A moved module ends as the last module of its target zone; a module
/// placed at most once in the bar is, after the move, in the target zone once
/// and in no other zone; no other module is added or lost anywhere.
pub proof fn law_move_module(
    left: Seq<Seq<char>>,
    center: Seq<Seq<char>>,
    right: Seq<Seq<char>>,
    id: Seq<char>,
    target: Zone,
)
    ensures
        ({
            let nl = zone_after_move(left, id, target == Zone::Left);
            let nc = zone_after_move(center, id, target == Zone::Center);
            let nr = zone_after_move(right, id, target == Zone::Right);
            &&& (match target {
                Zone::Left => nl.last() == id,
                Zone::Center => nc.last() == id,
                Zone::Right => nr.last() == id,
            })
            &&& (occurrences(left, id) + occurrences(center, id) + occurrences(right, id) <= 1 ==> occurrences(nl, id)
                + occurrences(nc, id) + occurrences(nr, id) == 1)
            &&& (occurrences(left, id) + occurrences(center, id) + occurrences(right, id) <= 1 ==> match target {
                Zone::Left => occurrences(nl, id) == 1,
                Zone::Center => occurrences(nc, id) == 1,
                Zone::Right => occurrences(nr, id) == 1,
            })
            &&& forall|y: Seq<char>|
                y != id ==> occurrences(nl, y) == occurrences(left, y) && occurrences(nc, y) == occurrences(center, y)
                    && occurrences(nr, y) == occurrences(right, y)
        }),
{
    lemma_without_first(left, id);
    lemma_without_first(center, id);
    lemma_without_first(right, id);
    let wl = without_first(left, id);
    let wc = without_first(center, id);
    let wr = without_first(right, id);
    assert forall|y: Seq<char>| true implies occurrences(wl.push(id), y) == occurrences(wl, y) + (if id == y { 1nat } else { 0nat })
        && occurrences(wc.push(id), y) == occurrences(wc, y) + (if id == y { 1nat } else { 0nat })
        && occurrences(wr.push(id), y) == occurrences(wr, y) + (if id == y { 1nat } else { 0nat }) by {
        lemma_occurrences_push(wl, id, y);
        lemma_occurrences_push(wc, id, y);
        lemma_occurrences_push(wr, id, y);
    }
    assert(occurrences(wl.push(id), id) == occurrences(wl, id) + 1);
    assert(occurrences(wc.push(id), id) == occurrences(wc, id) + 1);
    assert(occurrences(wr.push(id), id) == occurrences(wr, id) + 1);
}


// ---------------------------------------------------------------------------
// Where the shell configuration lives.
// ---------------------------------------------------------------------------

/// The shell configuration file under the home directory.
pub fn config_path(home: &str) -> (p: String)
    ensures
        p@ == path_join(home@, ".config/quickshell/zenith-shell.json"@),
{
    join_path(home, ".config/quickshell/zenith-shell.json")
}

/// The directory of custom bar modules under the home directory.
pub fn modules_dir(home: &str) -> (p: String)
    ensures
        p@ == path_join(home@, ".config/quickshell/modules"@),
{
    join_path(home, ".config/quickshell/modules")
}

/// The directory of control center cards under the home directory.
pub fn cards_dir(home: &str) -> (p: String)
    ensures
        p@ == path_join(home@, ".config/quickshell/cards"@),
{
    join_path(home, ".config/quickshell/cards")
}

/// The directory of lock screen cards under the home directory.
pub fn lockscreen_cards_dir(home: &str) -> (p: String)
    ensures
        p@ == path_join(home@, ".config/quickshell/lockscreen_cards"@),
{
    join_path(home, ".config/quickshell/lockscreen_cards")
}

} // verus!
