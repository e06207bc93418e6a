use vstd::prelude::*;

use crate::packages::holds;
use crate::text::{ascii_lowercase, copy_str, is_prefix, str_eq, views};

verus! {

/// The core packages Zenith relies on.
#[derive(Clone, Copy, Debug, PartialEq, Eq, Structural)]
pub enum ZenithDependency {
    Quickshell,
    Hyprland,
    Waybar,
    Rofi,
    Wofi,
}

/// The command that must be on `PATH` for the package to count as installed.
pub open spec fn binary_of(d: ZenithDependency) -> Seq<char> {
    match d {
        ZenithDependency::Quickshell => "quickshell"@,
        ZenithDependency::Hyprland => "Hyprland"@,
        ZenithDependency::Waybar => "waybar"@,
        ZenithDependency::Rofi => "rofi"@,
        ZenithDependency::Wofi => "wofi"@,
    }
}

/// The Arch package that provides it.
pub open spec fn arch_package_of(d: ZenithDependency) -> Seq<char> {
    match d {
        ZenithDependency::Quickshell => "quickshell"@,
        ZenithDependency::Hyprland => "hyprland"@,
        ZenithDependency::Waybar => "waybar"@,
        ZenithDependency::Rofi => "rofi-wayland"@,
        ZenithDependency::Wofi => "wofi"@,
    }
}

/// Its name in the UI.
pub open spec fn title_of(d: ZenithDependency) -> Seq<char> {
    match d {
        ZenithDependency::Quickshell => "Quickshell"@,
        ZenithDependency::Hyprland => "Hyprland"@,
        ZenithDependency::Waybar => "Waybar"@,
        ZenithDependency::Rofi => "Rofi"@,
        ZenithDependency::Wofi => "Wofi"@,
    }
}

/// Every dependency, in order.
pub open spec fn all_dependencies() -> Seq<ZenithDependency> {
    seq![
        ZenithDependency::Quickshell,
        ZenithDependency::Hyprland,
        ZenithDependency::Waybar,
        ZenithDependency::Rofi,
        ZenithDependency::Wofi,
    ]
}

impl ZenithDependency {
    /// Every dependency.
    pub const ALL: [ZenithDependency; 5] = [
        ZenithDependency::Quickshell,
        ZenithDependency::Hyprland,
        ZenithDependency::Waybar,
        ZenithDependency::Rofi,
        ZenithDependency::Wofi,
    ];

    /// The command that must be on `PATH`.
    pub fn binary(&self) -> (r: &'static str)
        ensures
            r@ == binary_of(*self),
    {
        match self {
            ZenithDependency::Quickshell => "quickshell",
            ZenithDependency::Hyprland => "Hyprland",
            ZenithDependency::Waybar => "waybar",
            ZenithDependency::Rofi => "rofi",
            ZenithDependency::Wofi => "wofi",
        }
    }

    /// The Arch package to install with pacman.
    pub fn arch_package(&self) -> (r: &'static str)
        ensures
            r@ == arch_package_of(*self),
    {
        match self {
            ZenithDependency::Quickshell => "quickshell",
            ZenithDependency::Hyprland => "hyprland",
            ZenithDependency::Waybar => "waybar",
            ZenithDependency::Rofi => "rofi-wayland",
            ZenithDependency::Wofi => "wofi",
        }
    }

    /// A short name for the UI.
    pub fn title(&self) -> (r: &'static str)
        ensures
            r@ == title_of(*self),
    {
        match self {
            ZenithDependency::Quickshell => "Quickshell",
            ZenithDependency::Hyprland => "Hyprland",
            ZenithDependency::Waybar => "Waybar",
            ZenithDependency::Rofi => "Rofi",
            ZenithDependency::Wofi => "Wofi",
        }
    }

    /// Whether the package is installed, given the commands found on `PATH`.
    pub fn is_installed(&self, on_path: &Vec<String>) -> (r: bool)
        ensures
            r == views(on_path@).contains(binary_of(*self)),
    {
        holds(on_path, self.binary())
    }
}

/// The core dependencies that are missing, given the commands found on
/// `PATH`, in the order of [`ZenithDependency::ALL`].
pub fn missing_dependencies(on_path: &Vec<String>) -> (r: Vec<ZenithDependency>)
    ensures
        r@ == all_dependencies().filter(|d: ZenithDependency| !views(on_path@).contains(binary_of(d))),
{
    let all = ZenithDependency::ALL;
    let ghost spec_all = all_dependencies();
    proof {
        assert(all@ =~= spec_all);
    }
    let mut r: Vec<ZenithDependency> = Vec::new();
    let mut i: usize = 0;
    let ghost keep = |d: ZenithDependency| !views(on_path@).contains(binary_of(d));
    proof {
        assert(spec_all.take(0).filter(keep) =~= Seq::<ZenithDependency>::empty());
    }
    while i < 5
        invariant
            i <= 5,
            all@ == spec_all,
            spec_all.len() == 5,
            keep == (|d: ZenithDependency| !views(on_path@).contains(binary_of(d))),
            r@ == spec_all.take(i as int).filter(keep),
        decreases 5 - i,
    {
        let d = all[i];
        proof {
            assert(spec_all.take(i + 1).drop_last() =~= spec_all.take(i as int));
            reveal(Seq::filter);
        }
        if !d.is_installed(on_path) {
            r.push(d);
        }
        i = i + 1;
    }
    proof {
        assert(spec_all.take(5) =~= spec_all);
    }
    r
}

// ---------------------------------------------------------------------------
// Installing packages.
// ---------------------------------------------------------------------------

/// The pacman command: `pacman` when found on `PATH`, else `/usr/bin/pacman`.
pub fn pacman_path(pacman_on_path: bool) -> (r: &'static str)
    ensures
        r@ == if pacman_on_path { "pacman"@ } else { "/usr/bin/pacman"@ },
{
    if pacman_on_path {
        "pacman"
    } else {
        "/usr/bin/pacman"
    }
}

/// The command line that installs `packages`:
/// `<pkexec|sudo> <pacman> -S --noconfirm <packages>`, asking through pkexec
/// when it is on `PATH`; none for an empty list.
pub open spec fn install_command_of(packages: Seq<Seq<char>>, pkexec_on_path: bool, pacman_on_path: bool) -> Option<
    Seq<Seq<char>>,
> {
    if packages.len() == 0 {
        None
    } else {
        Some(
            seq![
                if pkexec_on_path { "pkexec"@ } else { "sudo"@ },
                if pacman_on_path { "pacman"@ } else { "/usr/bin/pacman"@ },
                "-S"@,
                "--noconfirm"@,
            ] + packages,
        )
    }
}

/// The command line (program first) that installs `packages` with a
/// password prompt; `None` when there is nothing to install.
pub fn install_command(packages: &Vec<String>, pkexec_on_path: bool, pacman_on_path: bool) -> (r: Option<Vec<String>>)
    ensures
        match r {
            Some(argv) => install_command_of(views(packages@), pkexec_on_path, pacman_on_path) == Some(views(argv@)),
            None => install_command_of(views(packages@), pkexec_on_path, pacman_on_path) is None,
        },
{
    if packages.len() == 0 {
        return None;
    }
    let mut argv: Vec<String> = Vec::new();
    argv.push(if pkexec_on_path { copy_str("pkexec") } else { copy_str("sudo") });
    argv.push(copy_str(pacman_path(pacman_on_path)));
    argv.push(copy_str("-S"));
    argv.push(copy_str("--noconfirm"));
    let ghost head = views(argv@);
    let mut i: usize = 0;
    while i < packages.len()
        invariant
            i <= packages@.len(),
            views(argv@) == head + views(packages@).take(i as int),
        decreases packages.len() - i,
    {
        let ghost before = argv@;
        argv.push(copy_str(packages[i].as_str()));
        proof {
            assert(views(argv@) =~= views(before).push(packages@[i as int]@));
            assert(views(packages@).take(i + 1) =~= views(packages@).take(i as int).push(packages@[i as int]@));
            assert(views(argv@) =~= head + views(packages@).take(i + 1));
        }
        i = i + 1;
    }
    proof {
        assert(views(packages@).take(packages@.len() as int) =~= views(packages@));
        let expected = seq![
            if pkexec_on_path { "pkexec"@ } else { "sudo"@ },
            if pacman_on_path { "pacman"@ } else { "/usr/bin/pacman"@ },
            "-S"@,
            "--noconfirm"@,
        ];
        assert(head =~= expected);
    }
    Some(argv)
}

/// The packages that install one core dependency: its Arch package.
pub fn install_dependency(dep: ZenithDependency) -> (r: Vec<String>)
    ensures
        views(r@) == seq![arch_package_of(dep)],
{
    let mut r: Vec<String> = Vec::new();
    r.push(copy_str(dep.arch_package()));
    proof {
        assert(views(r@) =~= seq![arch_package_of(dep)]);
    }
    r
}

/// The packages that install Quickshell.
pub fn install_quickshell() -> (r: Vec<String>)
    ensures
        views(r@) == seq!["quickshell"@],
{
    let mut r: Vec<String> = Vec::new();
    r.push(copy_str("quickshell"));
    proof {
        assert(views(r@) =~= seq!["quickshell"@]);
    }
    r
}

/// The package to install for the chosen status bar: only `quickshell` and
/// `waybar` are installed, and only when their command is not on `PATH`.
pub fn ensure_bar_installed(bar: &str, bar_on_path: bool) -> (r: Option<String>)
    ensures
        r matches Some(p) ==> p@ == bar@ && !bar_on_path,
        r is None <==> (bar_on_path || (bar@ != "quickshell"@ && bar@ != "waybar"@)),
{
    if (str_eq(bar, "quickshell") || str_eq(bar, "waybar")) && !bar_on_path {
        Some(copy_str(bar))
    } else {
        None
    }
}

/// The package to install for the chosen launcher (`wofi`, otherwise
/// `rofi-wayland`) when its command is not on `PATH`.
pub fn ensure_launcher_installed(launcher: &str, launcher_on_path: bool) -> (r: Option<String>)
    ensures
        launcher_on_path ==> r is None,
        !launcher_on_path ==> (r matches Some(p) && p@ == if launcher@ == "wofi"@ { "wofi"@ } else { "rofi-wayland"@ }),
{
    if launcher_on_path {
        None
    } else if str_eq(launcher, "wofi") {
        Some(copy_str("wofi"))
    } else {
        Some(copy_str("rofi-wayland"))
    }
}

/// The package to install for the chosen terminal (`alacritty`, `foot`,
/// otherwise `kitty`) when its command is not on `PATH`.
pub fn ensure_terminal_installed(term: &str, term_on_path: bool) -> (r: Option<String>)
    ensures
        term_on_path ==> r is None,
        !term_on_path ==> (r matches Some(p) && p@ == if term@ == "alacritty"@ {
            "alacritty"@
        } else if term@ == "foot"@ {
            "foot"@
        } else {
            "kitty"@
        }),
{
    if term_on_path {
        None
    } else if str_eq(term, "alacritty") {
        Some(copy_str("alacritty"))
    } else if str_eq(term, "foot") {
        Some(copy_str("foot"))
    } else {
        Some(copy_str("kitty"))
    }
}

/// The command line that starts the chosen status bar, detached, after the
/// running bars are stopped: `waybar`, `quickshell -d`, or none for any other
/// choice (which leaves both stopped).
pub fn bar_launch_command(choice: &str) -> (r: Option<Vec<String>>)
    ensures
        choice@ == "waybar"@ ==> (r matches Some(argv) && views(argv@) == seq!["waybar"@]),
        choice@ == "quickshell"@ ==> (r matches Some(argv) && views(argv@) == seq!["quickshell"@, "-d"@]),
        choice@ != "waybar"@ && choice@ != "quickshell"@ ==> r is None,
{
    proof {
        reveal_strlit("waybar");
        reveal_strlit("quickshell");
    }
    let mut argv: Vec<String> = Vec::new();
    if str_eq(choice, "waybar") {
        argv.push(copy_str("waybar"));
        proof {
            assert(views(argv@) =~= seq!["waybar"@]);
            assert("waybar"@.len() != "quickshell"@.len());
        }
        Some(argv)
    } else if str_eq(choice, "quickshell") {
        argv.push(copy_str("quickshell"));
        argv.push(copy_str("-d"));
        proof {
            assert(views(argv@) =~= seq!["quickshell"@, "-d"@]);
        }
        Some(argv)
    } else {
        None
    }
}

/// The login shell binary for a choice: `bash`, `fish`, otherwise zsh.
pub fn shell_path(shell: &str) -> (r: &'static str)
    ensures
        r@ == if shell@ == "bash"@ {
            "/bin/bash"@
        } else if shell@ == "fish"@ {
            "/bin/fish"@
        } else {
            "/bin/zsh"@
        },
{
    if str_eq(shell, "bash") {
        "/bin/bash"
    } else if str_eq(shell, "fish") {
        "/bin/fish"
    } else {
        "/bin/zsh"
    }
}

/// The argument `dunstctl set-paused` takes to (un)pause notifications.
pub fn dunst_paused_arg(paused: bool) -> (r: &'static str)
    ensures
        r@ == if paused { "true"@ } else { "false"@ },
{
    if paused {
        "true"
    } else {
        "false"
    }
}

/// The Arch package of a dependency is named after the command it provides
/// (in small letters), and no two dependencies share a package.
pub proof fn law_each_dependency_has_its_own_package(d: ZenithDependency, e: ZenithDependency)
    ensures
        is_prefix(binary_of(d).map_values(|c: char| ascii_lowercase(c)), arch_package_of(d)),
        d != e ==> arch_package_of(d) != arch_package_of(e),
{
    reveal_strlit("quickshell");
    reveal_strlit("Hyprland");
    reveal_strlit("hyprland");
    reveal_strlit("waybar");
    reveal_strlit("rofi");
    reveal_strlit("rofi-wayland");
    reveal_strlit("wofi");
    let b = binary_of(d).map_values(|c: char| ascii_lowercase(c));
    let p = arch_package_of(d);
    assert(p.take(b.len() as int) =~= b);
    assert(arch_package_of(d).len() != arch_package_of(e).len() || d == e);
}

} // verus!
