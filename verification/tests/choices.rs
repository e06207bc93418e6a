use zenith::choices::{
    active_bar_choice, active_bar_row, bar_position_choice, bar_position_row, bar_style_choice, bar_style_row,
    cc_position_choice, cc_position_row, language_choice, language_row, launcher_choice, launcher_row,
    logo_type_choice, logo_type_row, ls_background_choice, ls_background_row, ls_layout_choice, ls_layout_row,
    osd_orientation_choice, osd_orientation_row, osd_position_choice, osd_position_row, shell_choice, shell_row,
    terminal_choice, terminal_row, waybar_position_choice, waybar_position_row,
};

#[test]
fn menus_with_a_first_option_as_fallback() {
    assert_eq!(language_choice(2), "de");
    assert_eq!(language_choice(7), "nl");
    assert_eq!(language_row("es"), 3);
    assert_eq!(language_row("fr"), 0);
    assert_eq!(active_bar_choice(1), "quickshell");
    assert_eq!(active_bar_row("none"), 2);
    assert_eq!(active_bar_row("polybar"), 0);
    assert_eq!(waybar_position_choice(1), "bottom");
    assert_eq!(waybar_position_row("left"), 0);
    assert_eq!(launcher_choice(1), "wofi");
    assert_eq!(launcher_row("rofi"), 0);
    assert_eq!(terminal_choice(2), "foot");
    assert_eq!(terminal_row("alacritty"), 1);
    assert_eq!(shell_choice(3), "zsh");
    assert_eq!(shell_row("fish"), 2);
    assert_eq!(bar_style_choice(2), "minimal");
    assert_eq!(bar_style_row("islands"), 1);
    assert_eq!(bar_position_choice(3), "right");
    assert_eq!(bar_position_row("bottom"), 1);
    assert_eq!(cc_position_choice(4), "floating-center");
    assert_eq!(cc_position_row("top-left"), 2);
    assert_eq!(osd_position_choice(0), "bottom");
    assert_eq!(osd_position_row("top-right"), 3);
    assert_eq!(osd_orientation_choice(1), "vertical");
    assert_eq!(osd_orientation_row("diagonal"), 0);
}

#[test]
fn menus_that_keep_their_row() {
    assert_eq!(ls_layout_choice(1), Some("split"));
    assert_eq!(ls_layout_choice(4), None);
    assert_eq!(ls_layout_row("free_canvas"), Some(3));
    assert_eq!(ls_layout_row("grid"), None);
    assert_eq!(ls_background_choice(2), Some("solid_black"));
    assert_eq!(ls_background_row("custom_image"), Some(1));
    assert_eq!(logo_type_choice(5), Some("kitty"));
    assert_eq!(logo_type_choice(7), None);
    assert_eq!(logo_type_row("none"), Some(6));
    assert_eq!(logo_type_row("sixel"), None);
}

#[test]
fn a_row_shows_its_own_option() {
    for row in 0..5u32 {
        assert_eq!(cc_position_row(cc_position_choice(row)), row);
        assert_eq!(osd_position_row(osd_position_choice(row)), row);
    }
    for row in 0..7u32 {
        assert_eq!(logo_type_row(logo_type_choice(row).unwrap()), Some(row));
    }
}
