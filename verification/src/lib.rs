use vstd::prelude::*;

pub mod ansi;
pub mod backup;
pub mod bootstrap;
pub mod calendar;
pub mod choices;
pub mod config;
pub mod config_read;
pub mod designer;
pub mod editing;
pub mod escape;
pub mod fastfetch;
pub mod hyprland;
pub mod ipc;
pub mod jsonc;
pub mod keybinds;
pub mod packages;
pub mod palette;
pub mod process;
pub mod qml_files;
pub mod shell_config;
pub mod text;

verus! {

} // verus!
