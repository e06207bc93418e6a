use vstd::prelude::*;

use crate::backup::{join_path, path_join};
use crate::text::{copy_str, dec, push_dec, str_eq, trim, trimmed, views};

verus! {

/// Padding around the fastfetch logo.
#[derive(Debug, Clone, PartialEq)]
pub struct FastfetchLogoPadding {
    pub top: Option<u32>,
    pub left: Option<u32>,
    pub right: Option<u32>,
}

impl Default for FastfetchLogoPadding {
    fn default() -> (r: Self)
        ensures
            r.top is None && r.left is None && r.right is None,
    {
        FastfetchLogoPadding { top: None, left: None, right: None }
    }
}

/// The key column of fastfetch's output.
#[derive(Debug, Clone, PartialEq)]
pub struct FastfetchDisplayKey {
    pub width: Option<u32>,
}

impl Default for FastfetchDisplayKey {
    fn default() -> (r: Self)
        ensures
            r.width is None,
    {
        FastfetchDisplayKey { width: None }
    }
}

/// The fields of a detailed fastfetch module that the designer reads and
/// writes (a module's other members are kept aside by the caller).
#[derive(Debug, Clone, PartialEq)]
pub struct FastfetchModuleConfig {
    pub module_type: String,
    pub key: Option<String>,
    pub key_color: Option<String>,
    pub format: Option<String>,
    pub text: Option<String>,
    pub symbol: Option<String>,
}

/// A fastfetch module: just its type, or its type with settings.
#[derive(Debug, Clone, PartialEq)]
pub enum FastfetchModuleItem {
    Simple(String),
    Detailed(FastfetchModuleConfig),
}

pub open spec fn opt_view(o: Option<String>) -> Option<Seq<char>> {
    match o {
        Some(s) => Some(s@),
        None => None,
    }
}

/// The label of a module in the designer's list: the type of a simple
/// module; `$ <key or cmd> (<text>)` for a command module; `<type> (<key>)`
/// (the key trimmed) for a module with a key; the type otherwise.
pub open spec fn module_label(item: FastfetchModuleItem) -> Seq<char> {
    match item {
        FastfetchModuleItem::Simple(s) => s@,
        FastfetchModuleItem::Detailed(d) => if d.module_type@ == "command"@ {
            "$ "@ + (match d.key {
                Some(k) => k@,
                None => "cmd"@,
            }) + " ("@ + (match d.text {
                Some(t) => t@,
                None => Seq::empty(),
            }) + ")"@
        } else {
            match d.key {
                Some(k) => d.module_type@ + " ("@ + trimmed(k@) + ")"@,
                None => d.module_type@,
            }
        },
    }
}

impl FastfetchModuleItem {
    /// The module's type.
    pub fn module_type(&self) -> (r: &str)
        ensures
            r@ == match self {
                FastfetchModuleItem::Simple(s) => s@,
                FastfetchModuleItem::Detailed(d) => d.module_type@,
            },
    {
        match self {
            FastfetchModuleItem::Simple(s) => s.as_str(),
            FastfetchModuleItem::Detailed(d) => d.module_type.as_str(),
        }
    }

    /// The module's label in the designer's list.
    pub fn display_label(&self) -> (r: String)
        ensures
            r@ == module_label(*self),
    {
        match self {
            FastfetchModuleItem::Simple(s) => copy_str(s.as_str()),
            FastfetchModuleItem::Detailed(d) => {
                if str_eq(d.module_type.as_str(), "command") {
                    let mut r = copy_str("$ ");
                    match &d.key {
                        Some(k) => r.append(k.as_str()),
                        None => r.append("cmd"),
                    }
                    r.append(" (");
                    match &d.text {
                        Some(t) => r.append(t.as_str()),
                        None => {},
                    }
                    r.append(")");
                    r
                } else {
                    match &d.key {
                        Some(k) => {
                            let mut r = copy_str(d.module_type.as_str());
                            r.append(" (");
                            let t = trim(k.as_str());
                            r.append(t.as_str());
                            r.append(")");
                            r
                        },
                        None => copy_str(d.module_type.as_str()),
                    }
                }
            },
        }
    }
}

/// A detailed module with only a type and a key.
fn keyed(module_type: &str, key: &str) -> (m: FastfetchModuleItem)
    ensures
        m == FastfetchModuleItem::Detailed(
            FastfetchModuleConfig {
                module_type: m->Detailed_0.module_type,
                key: m->Detailed_0.key,
                key_color: None,
                format: None,
                text: None,
                symbol: None,
            },
        ),
        m->Detailed_0.module_type@ == module_type@,
        opt_view(m->Detailed_0.key) == Some(key@),
{
    FastfetchModuleItem::Detailed(
        FastfetchModuleConfig {
            module_type: copy_str(module_type),
            key: Some(copy_str(key)),
            key_color: None,
            format: None,
            text: None,
            symbol: None,
        },
    )
}

/// What the default preset's modules are: type, key, format and symbol of
/// each (`None` for a simple module's settings).
pub open spec fn module_summary(m: FastfetchModuleItem) -> (Seq<char>, bool, Option<Seq<char>>, Option<Seq<char>>, Option<Seq<char>>) {
    match m {
        FastfetchModuleItem::Simple(s) => (s@, false, None, None, None),
        FastfetchModuleItem::Detailed(d) => (d.module_type@, true, opt_view(d.key), opt_view(d.format), opt_view(d.symbol)),
    }
}

/// The modules of the default preset: a break, the title, a break, OS,
/// kernel, uptime, packages, shell, WM, CPU and memory with their keys, a
/// break, and the colour circles.
pub open spec fn default_module_summaries() -> Seq<(Seq<char>, bool, Option<Seq<char>>, Option<Seq<char>>, Option<Seq<char>>)> {
    seq![
        ("break"@, false, None, None, None),
        ("title"@, true, None, Some("{1}"@), None),
        ("break"@, false, None, None, None),
        ("os"@, true, Some("OS"@), None, None),
        ("kernel"@, true, Some("Kernel"@), None, None),
        ("uptime"@, true, Some("Uptime"@), None, None),
        ("packages"@, true, Some("Packages"@), None, None),
        ("shell"@, true, Some("Shell"@), None, None),
        ("wm"@, true, Some("WM"@), None, None),
        ("cpu"@, true, Some("CPU"@), None, None),
        ("memory"@, true, Some("Memory"@), None, None),
        ("break"@, false, None, None, None),
        ("colors"@, true, None, None, Some("circle"@)),
    ]
}

/// Whether a detailed module sets nothing besides type, key, format and
/// symbol.
pub open spec fn plain_settings(m: FastfetchModuleItem) -> bool {
    match m {
        FastfetchModuleItem::Simple(_) => true,
        FastfetchModuleItem::Detailed(d) => d.key_color is None && d.text is None,
    }
}

/// The modules of the default preset.
pub fn default_preset_modules() -> (r: Vec<FastfetchModuleItem>)
    ensures
        r@.map_values(|m: FastfetchModuleItem| module_summary(m)) == default_module_summaries(),
        forall|i: int| 0 <= i < r@.len() ==> plain_settings(#[trigger] r@[i]),
{
    let mut r: Vec<FastfetchModuleItem> = Vec::new();
    r.push(FastfetchModuleItem::Simple(copy_str("break")));
    r.push(
        FastfetchModuleItem::Detailed(
            FastfetchModuleConfig {
                module_type: copy_str("title"),
                key: None,
                key_color: None,
                format: Some(copy_str("{1}")),
                text: None,
                symbol: None,
            },
        ),
    );
    r.push(FastfetchModuleItem::Simple(copy_str("break")));
    r.push(keyed("os", "OS"));
    r.push(keyed("kernel", "Kernel"));
    r.push(keyed("uptime", "Uptime"));
    r.push(keyed("packages", "Packages"));
    r.push(keyed("shell", "Shell"));
    r.push(keyed("wm", "WM"));
    r.push(keyed("cpu", "CPU"));
    r.push(keyed("memory", "Memory"));
    r.push(FastfetchModuleItem::Simple(copy_str("break")));
    r.push(
        FastfetchModuleItem::Detailed(
            FastfetchModuleConfig {
                module_type: copy_str("colors"),
                key: None,
                key_color: None,
                format: None,
                text: None,
                symbol: Some(copy_str("circle")),
            },
        ),
    );
    proof {
        assert(r@.map_values(|m: FastfetchModuleItem| module_summary(m)) =~= default_module_summaries());
    }
    r
}

/// The logo padding of the default preset: 1 above, 2 left, 3 right.
pub fn default_preset_padding() -> (p: FastfetchLogoPadding)
    ensures
        p.top == Some(1u32) && p.left == Some(2u32) && p.right == Some(3u32),
{
    FastfetchLogoPadding { top: Some(1), left: Some(2), right: Some(3) }
}

/// The key column of the default preset: 12 wide.
pub fn default_preset_key() -> (k: FastfetchDisplayKey)
    ensures
        k.width == Some(12u32),
{
    FastfetchDisplayKey { width: Some(12) }
}


/// The JSON schema the default preset names.
pub const FASTFETCH_SCHEMA: &'static str = "https://github.com/fastfetch-cli/fastfetch/raw/master/doc/json_schema.json";

/// The logo type of the default preset.
pub const DEFAULT_LOGO_TYPE: &'static str = "small";

/// The key/value separator of the default preset.
pub const DEFAULT_SEPARATOR: &'static str = " ➜ ";

/// Where fastfetch's configuration lives: under `$XDG_CONFIG_HOME` when that
/// is set, else under `~/.config`, else relative to the working directory.
pub fn fastfetch_config_path(xdg_config_home: Option<&str>, home: Option<&str>) -> (p: String)
    ensures
        p@ == match xdg_config_home {
            Some(x) => path_join(x@, "fastfetch/config.jsonc"@),
            None => match home {
                Some(h) => path_join(h@, ".config/fastfetch/config.jsonc"@),
                None => ".config/fastfetch/config.jsonc"@,
            },
        },
{
    match xdg_config_home {
        Some(x) => join_path(x, "fastfetch/config.jsonc"),
        None => match home {
            Some(h) => join_path(h, ".config/fastfetch/config.jsonc"),
            None => copy_str(".config/fastfetch/config.jsonc"),
        },
    }
}

/// The temporary file the preview configuration is written to, for process
/// `pid`.
pub fn preview_config_path(pid: u32) -> (p: String)
    ensures
        p@ == "/tmp/zenith-ff-"@ + dec(pid as nat) + ".json"@,
{
    let mut p = copy_str("/tmp/zenith-ff-");
    push_dec(&mut p, pid as u64);
    p.append(".json");
    p
}

/// The arguments fastfetch runs with for a preview of configuration file
/// `config`: `-c <config> --pipe false` (colours kept).
pub fn preview_args(config: &str) -> (argv: Vec<String>)
    ensures
        views(argv@) == seq!["-c"@, config@, "--pipe"@, "false"@],
{
    let mut argv: Vec<String> = Vec::new();
    argv.push(copy_str("-c"));
    argv.push(copy_str(config));
    argv.push(copy_str("--pipe"));
    argv.push(copy_str("false"));
    proof {
        assert(views(argv@) =~= seq!["-c"@, config@, "--pipe"@, "false"@]);
    }
    argv
}

/// How a preview run of fastfetch ended.
pub enum PreviewRun {
    /// fastfetch could not be started; the error text.
    NotStarted(String),
    /// fastfetch ran; whether it succeeded, and what it printed (decoded
    /// leniently).
    Finished { success: bool, stdout: String, stderr: String },
}

/// The preview to show: the output of a run that succeeded, or that failed
/// without printing an error; the error it printed otherwise; a message when
/// fastfetch could not be started.
pub fn preview_result(run: PreviewRun) -> (r: Result<String, String>)
    ensures
        match run {
            PreviewRun::NotStarted(e) => r matches Err(m) && m@ == "Kan fastfetch niet uitvoeren: "@ + e@,
            PreviewRun::Finished { success, stdout, stderr } => if success || stderr@.len() == 0 {
                r matches Ok(o) && o@ == stdout@
            } else {
                r matches Err(m) && m@ == stderr@
            },
        },
{
    match run {
        PreviewRun::NotStarted(e) => {
            let mut m = copy_str("Kan fastfetch niet uitvoeren: ");
            m.append(e.as_str());
            Err(m)
        },
        PreviewRun::Finished { success, stdout, stderr } => {
            if success || stderr.unicode_len() == 0 {
                Ok(stdout)
            } else {
                Err(stderr)
            }
        },
    }
}


// ---------------------------------------------------------------------------
// The designer's module catalog and new modules.
// ---------------------------------------------------------------------------

/// The modules the designer offers to add, in the order of its menu.
pub open spec fn catalog_names() -> Seq<Seq<char>> {
    seq!["break"@, "title"@, "os"@, "host"@, "kernel"@, "uptime"@, "packages"@, "shell"@, "wm"@, "terminal"@, "cpu"@, "gpu"@, "memory"@, "swap"@, "disk"@, "battery"@, "localip"@, "locale"@, "colors"@]
}

/// An ASCII small letter made capital; any other character as it is.
pub open spec fn ascii_uppercase(c: char) -> char {
    if 'a' <= c && c <= 'z' {
        ((c as u32) - 32) as char
    } else {
        c
    }
}

/// A text in ASCII capitals.
pub open spec fn ascii_upper_text(s: Seq<char>) -> Seq<char> {
    s.map_values(|c: char| ascii_uppercase(c))
}

/// The module the catalog adds for a name: a break as a simple module, the
/// colour circles, or a module of that type keyed by its name in capitals.
pub open spec fn catalog_summary(name: Seq<char>) -> (Seq<char>, bool, Option<Seq<char>>, Option<Seq<char>>, Option<Seq<char>>) {
    if name == "break"@ {
        ("break"@, false, None, None, None)
    } else if name == "colors"@ {
        ("colors"@, true, None, None, Some("circle"@))
    } else {
        (name, true, Some(ascii_upper_text(name)), None, None)
    }
}

fn upper_text(s: &str) -> (r: String)
    ensures
        r@ == ascii_upper_text(s@),
{
    let v = crate::text::to_chars(s);
    let mut r = String::new();
    let mut i: usize = 0;
    while i < v.len()
        invariant
            i <= v@.len(),
            v@ == s@,
            r@ == ascii_upper_text(v@.take(i as int)),
        decreases v.len() - i,
    {
        let c = v[i];
        let u = if 'a' <= c && c <= 'z' {
            let code: u8 = ((c as u32) - 32) as u8;
            code as char
        } else {
            c
        };
        proof {
            assert(u == ascii_uppercase(c));
            assert(v@.take(i + 1) =~= v@.take(i as int).push(c));
            assert(ascii_upper_text(v@.take(i + 1)) =~= ascii_upper_text(v@.take(i as int)).push(u));
        }
        crate::text::push_char(&mut r, u);
        i = i + 1;
    }
    proof {
        assert(v@.take(v@.len() as int) =~= v@);
    }
    r
}

/// The module the catalog adds for the row chosen in its menu, if the row
/// exists.
pub fn catalog_module(row: u32) -> (r: Option<FastfetchModuleItem>)
    ensures
        r is None <==> row >= catalog_names().len(),
        r matches Some(m) ==> module_summary(m) == catalog_summary(catalog_names()[row as int]) && plain_settings(m),
{
    let name: &str = match row {
        0 => "break",
        1 => "title",
        2 => "os",
        3 => "host",
        4 => "kernel",
        5 => "uptime",
        6 => "packages",
        7 => "shell",
        8 => "wm",
        9 => "terminal",
        10 => "cpu",
        11 => "gpu",
        12 => "memory",
        13 => "swap",
        14 => "disk",
        15 => "battery",
        16 => "localip",
        17 => "locale",
        18 => "colors",
        _ => {
            return None;
        },
    };
    proof {
        assert(name@ == catalog_names()[row as int]);
    }
    if str_eq(name, "break") {
        Some(FastfetchModuleItem::Simple(copy_str("break")))
    } else if str_eq(name, "colors") {
        Some(
            FastfetchModuleItem::Detailed(
                FastfetchModuleConfig {
                    module_type: copy_str("colors"),
                    key: None,
                    key_color: None,
                    format: None,
                    text: None,
                    symbol: Some(copy_str("circle")),
                },
            ),
        )
    } else {
        Some(
            FastfetchModuleItem::Detailed(
                FastfetchModuleConfig {
                    module_type: copy_str(name),
                    key: Some(upper_text(name)),
                    key_color: None,
                    format: None,
                    text: None,
                    symbol: None,
                },
            ),
        )
    }
}

/// The subtitle of a module's row: a simple module's name, a command
/// module's command, or another module's type.
pub open spec fn module_subtitle_of(item: FastfetchModuleItem) -> Seq<char> {
    match item {
        FastfetchModuleItem::Simple(s) => "Standaard module: "@ + s@,
        FastfetchModuleItem::Detailed(d) => if d.module_type@ == "command"@ {
            "Shell commando: "@ + (match d.text {
                Some(t) => t@,
                None => Seq::empty(),
            })
        } else {
            "Type: "@ + d.module_type@
        },
    }
}

/// The subtitle of a module's row.
pub fn module_subtitle(item: &FastfetchModuleItem) -> (r: String)
    ensures
        r@ == module_subtitle_of(*item),
{
    match item {
        FastfetchModuleItem::Simple(s) => {
            let mut r = copy_str("Standaard module: ");
            r.append(s.as_str());
            r
        },
        FastfetchModuleItem::Detailed(d) => {
            if str_eq(d.module_type.as_str(), "command") {
                let mut r = copy_str("Shell commando: ");
                match &d.text {
                    Some(t) => r.append(t.as_str()),
                    None => {},
                }
                r
            } else {
                let mut r = copy_str("Type: ");
                r.append(d.module_type.as_str());
                r
            }
        },
    }
}

/// A module that shows the output of a shell command under a label; none
/// when the label or the command is empty once trimmed.
pub fn command_module(label: &str, command: &str) -> (r: Option<FastfetchModuleItem>)
    ensures
        r is None <==> (trimmed(label@).len() == 0 || trimmed(command@).len() == 0),
        r matches Some(m) ==> m == FastfetchModuleItem::Detailed(
            FastfetchModuleConfig {
                module_type: m->Detailed_0.module_type,
                key: m->Detailed_0.key,
                key_color: None,
                format: None,
                text: m->Detailed_0.text,
                symbol: None,
            },
        ) && m->Detailed_0.module_type@ == "command"@ && opt_view(m->Detailed_0.key) == Some(trimmed(label@))
            && opt_view(m->Detailed_0.text) == Some(trimmed(command@)),
{
    let k = trim(label);
    let c = trim(command);
    if k.unicode_len() == 0 || c.unicode_len() == 0 {
        return None;
    }
    Some(
        FastfetchModuleItem::Detailed(
            FastfetchModuleConfig {
                module_type: copy_str("command"),
                key: Some(k),
                key_color: None,
                format: None,
                text: Some(c),
                symbol: None,
            },
        ),
    )
}

} // verus!
