use zenith::process::{
    bar_launch_command, dunst_paused_arg, ensure_bar_installed, ensure_launcher_installed, ensure_terminal_installed,
    install_command, install_dependency, install_quickshell, missing_dependencies, pacman_path, shell_path,
    ZenithDependency,
};

#[test]
fn dependency_metadata_is_consistent() {
    assert_eq!(ZenithDependency::Quickshell.binary(), "quickshell");
    assert_eq!(ZenithDependency::Quickshell.arch_package(), "quickshell");
    assert_eq!(ZenithDependency::Hyprland.binary(), "Hyprland");
    assert_eq!(ZenithDependency::Waybar.arch_package(), "waybar");
    assert_eq!(ZenithDependency::Rofi.arch_package(), "rofi-wayland");
    for d in ZenithDependency::ALL {
        assert!(!d.title().is_empty());
    }
    assert_eq!(ZenithDependency::ALL.len(), 5);
}

#[test]
fn install_packages_handles_empty() {
    assert_eq!(install_command(&Vec::new(), true, true), None);
}

#[test]
fn missing_dependencies_filters_in_order() {
    let on_path = vec!["Hyprland".to_string(), "rofi".to_string()];
    assert_eq!(
        missing_dependencies(&on_path),
        vec![ZenithDependency::Quickshell, ZenithDependency::Waybar, ZenithDependency::Wofi]
    );
    assert!(ZenithDependency::Rofi.is_installed(&on_path));
    assert!(!ZenithDependency::Wofi.is_installed(&on_path));
    assert_eq!(missing_dependencies(&Vec::new()).len(), 5);
}

#[test]
fn install_command_lines() {
    let pkgs = install_dependency(ZenithDependency::Rofi);
    assert_eq!(pkgs, vec!["rofi-wayland".to_string()]);
    assert_eq!(
        install_command(&pkgs, true, false),
        Some(vec!["pkexec", "/usr/bin/pacman", "-S", "--noconfirm", "rofi-wayland"].into_iter().map(String::from).collect())
    );
    assert_eq!(
        install_command(&install_quickshell(), false, true),
        Some(vec!["sudo", "pacman", "-S", "--noconfirm", "quickshell"].into_iter().map(String::from).collect())
    );
    assert_eq!(pacman_path(true), "pacman");
    assert_eq!(pacman_path(false), "/usr/bin/pacman");
}

#[test]
fn ensure_installed_choices() {
    assert_eq!(ensure_bar_installed("waybar", false), Some("waybar".to_string()));
    assert_eq!(ensure_bar_installed("waybar", true), None);
    assert_eq!(ensure_bar_installed("none", false), None);
    assert_eq!(ensure_launcher_installed("wofi", false), Some("wofi".to_string()));
    assert_eq!(ensure_launcher_installed("rofi", false), Some("rofi-wayland".to_string()));
    assert_eq!(ensure_launcher_installed("rofi", true), None);
    assert_eq!(ensure_terminal_installed("foot", false), Some("foot".to_string()));
    assert_eq!(ensure_terminal_installed("xterm", false), Some("kitty".to_string()));
    assert_eq!(ensure_terminal_installed("alacritty", true), None);
}

#[test]
fn bar_shell_and_dunst_choices() {
    assert_eq!(bar_launch_command("waybar"), Some(vec!["waybar".to_string()]));
    assert_eq!(bar_launch_command("quickshell"), Some(vec!["quickshell".to_string(), "-d".to_string()]));
    assert_eq!(bar_launch_command("none"), None);
    assert_eq!(shell_path("bash"), "/bin/bash");
    assert_eq!(shell_path("fish"), "/bin/fish");
    assert_eq!(shell_path("zsh"), "/bin/zsh");
    assert_eq!(shell_path("tcsh"), "/bin/zsh");
    assert_eq!(dunst_paused_arg(true), "true");
    assert_eq!(dunst_paused_arg(false), "false");
}
