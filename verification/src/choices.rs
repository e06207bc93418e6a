use vstd::prelude::*;

use crate::text::str_eq;

verus! {

// ---------------------------------------------------------------------------
// Drop-down menus: each shows a fixed list of options, one per row.
// ---------------------------------------------------------------------------

/// The option on `row`; a row past the end stands for the first option.
pub open spec fn option_at(t: Seq<Seq<char>>, row: int) -> Seq<char> {
    if 0 <= row < t.len() {
        t[row]
    } else {
        t[0]
    }
}

/// The option on `row`, if there is such a row.
pub open spec fn option_in(t: Seq<Seq<char>>, row: int) -> Option<Seq<char>> {
    if 0 <= row < t.len() {
        Some(t[row])
    } else {
        None
    }
}

/// The first row that shows `v`, or -1 when no row does.
pub open spec fn find_row(t: Seq<Seq<char>>, v: Seq<char>) -> int
    decreases t.len(),
{
    if t.len() == 0 {
        -1
    } else if t[0] == v {
        0
    } else {
        let r = find_row(t.drop_first(), v);
        if r < 0 {
            -1
        } else {
            r + 1
        }
    }
}

/// The first row that shows `v`, or the first row when none does.
pub open spec fn row_of(t: Seq<Seq<char>>, v: Seq<char>) -> int {
    if find_row(t, v) < 0 {
        0
    } else {
        find_row(t, v)
    }
}

/// The first row that shows `v`, if one does.
pub open spec fn row_in(t: Seq<Seq<char>>, v: Seq<char>) -> Option<int> {
    if find_row(t, v) < 0 {
        None
    } else {
        Some(find_row(t, v))
    }
}

/// Whether no option is shown twice.
pub open spec fn distinct_options(t: Seq<Seq<char>>) -> bool {
    forall|i: int, j: int| 0 <= i < j < t.len() ==> t[i] != t[j]
}

proof fn lemma_find_row(t: Seq<Seq<char>>, v: Seq<char>)
    ensures
        -1 <= find_row(t, v) < t.len(),
        (find_row(t, v) >= 0) == t.contains(v),
        find_row(t, v) >= 0 ==> t[find_row(t, v)] == v,
        forall|k: int| 0 <= k < t.len() && (find_row(t, v) < 0 || k < find_row(t, v)) ==> t[k] != v,
    decreases t.len(),
{
    if t.len() > 0 {
        lemma_find_row(t.drop_first(), v);
        assert forall|k: int| 0 < k < t.len() implies t[k] == #[trigger] t.drop_first()[k - 1] by {}
        if t[0] != v {
            assert forall|k: int|
                0 <= k < t.len() && (find_row(t, v) < 0 || k < find_row(t, v)) implies t[k] != v by {
                if k > 0 {
                    assert(t[k] == t.drop_first()[k - 1]);
                }
            }
        }
        if t[0] == v {
            assert(t.contains(v));
        } else if t.contains(v) {
            let k = choose|k: int| 0 <= k < t.len() && t[k] == v;
            assert(t.drop_first()[k - 1] == v);
        } else {
            if t.drop_first().contains(v) {
                let k = choose|k: int| 0 <= k < t.drop_first().len() && t.drop_first()[k] == v;
                assert(t[k + 1] == v);
            }
        }
    }
}

/// The row shown for a value holds that value when the menu offers it, and
/// the first option otherwise; and on a menu that shows no option twice, the
/// row shown for a row's option is that row.
pub proof fn law_rows_and_options(t: Seq<Seq<char>>, v: Seq<char>, row: int)
    requires
        t.len() > 0,
    ensures
        option_at(t, row_of(t, v)) == (if t.contains(v) { v } else { t[0] }),
        distinct_options(t) && 0 <= row < t.len() ==> row_of(t, t[row]) == row,
        distinct_options(t) && 0 <= row < t.len() ==> row_in(t, t[row]) == Some(row),
        option_in(t, row) is Some ==> row_in(t, option_in(t, row)->0) is Some,
{
    lemma_find_row(t, v);
    if 0 <= row < t.len() {
        let w = t[row];
        assert(t.contains(w));
        lemma_find_row(t, w);
        if distinct_options(t) {
            let r = find_row(t, w);
            if r < row {
                assert(t[r] != t[row]);
            }
        }
    }
}

/// The languages of the sidebar's language menu, by their codes.
pub open spec fn language_options() -> Seq<Seq<char>> {
    seq!["nl"@, "en"@, "de"@, "es"@]
}

/// The option on a row of this menu.
pub fn language_choice(row: u32) -> (r: &'static str)
    ensures
        r@ == option_at(language_options(), row as int),
{
    match row {
        1 => "en",
        2 => "de",
        3 => "es",
        _ => "nl",
    }
}

/// The row this menu shows for a value.
pub fn language_row(v: &str) -> (r: u32)
    ensures
        r == row_of(language_options(), v@),
{
    let ghost t = language_options();
    proof {
        reveal_strlit("nl");
        reveal_strlit("en");
        reveal_strlit("de");
        reveal_strlit("es");
        lemma_find_row(t, v@);
    }
    if str_eq(v, "en") {
        proof {
            assert("nl"@[0] != "en"@[0] && t[0] != v@ && t[1] == v@);
        }
        1
    } else if str_eq(v, "de") {
        proof {
            assert("nl"@[0] != "de"@[0] && "en"@[0] != "de"@[0] && t[0] != v@ && t[1] != v@ && t[2] == v@);
        }
        2
    } else if str_eq(v, "es") {
        proof {
            assert("nl"@[0] != "es"@[0] && "en"@[1] != "es"@[1] && "de"@[0] != "es"@[0] && t[0] != v@ && t[1] != v@ && t[2] != v@ && t[3] == v@);
        }
        3
    } else {
        proof {
            assert(t[1] != v@ && t[2] != v@ && t[3] != v@);
        }
        0
    }
}

/// The bars the dashboard can run.
pub open spec fn active_bar_options() -> Seq<Seq<char>> {
    seq!["waybar"@, "quickshell"@, "none"@]
}

/// The option on a row of this menu.
pub fn active_bar_choice(row: u32) -> (r: &'static str)
    ensures
        r@ == option_at(active_bar_options(), row as int),
{
    match row {
        1 => "quickshell",
        2 => "none",
        _ => "waybar",
    }
}

/// The row this menu shows for a value.
pub fn active_bar_row(v: &str) -> (r: u32)
    ensures
        r == row_of(active_bar_options(), v@),
{
    let ghost t = active_bar_options();
    proof {
        reveal_strlit("waybar");
        reveal_strlit("quickshell");
        reveal_strlit("none");
        lemma_find_row(t, v@);
    }
    if str_eq(v, "quickshell") {
        proof {
            assert("waybar"@.len() != "quickshell"@.len() && t[0] != v@ && t[1] == v@);
        }
        1
    } else if str_eq(v, "none") {
        proof {
            assert("waybar"@.len() != "none"@.len() && "quickshell"@.len() != "none"@.len() && t[0] != v@ && t[1] != v@ && t[2] == v@);
        }
        2
    } else {
        proof {
            assert(t[1] != v@ && t[2] != v@);
        }
        0
    }
}

/// Where Waybar can sit.
pub open spec fn waybar_position_options() -> Seq<Seq<char>> {
    seq!["top"@, "bottom"@]
}

/// The option on a row of this menu.
pub fn waybar_position_choice(row: u32) -> (r: &'static str)
    ensures
        r@ == option_at(waybar_position_options(), row as int),
{
    match row {
        1 => "bottom",
        _ => "top",
    }
}

/// The row this menu shows for a value.
pub fn waybar_position_row(v: &str) -> (r: u32)
    ensures
        r == row_of(waybar_position_options(), v@),
{
    let ghost t = waybar_position_options();
    proof {
        reveal_strlit("top");
        reveal_strlit("bottom");
        lemma_find_row(t, v@);
    }
    if str_eq(v, "bottom") {
        proof {
            assert("top"@.len() != "bottom"@.len() && t[0] != v@ && t[1] == v@);
        }
        1
    } else {
        proof {
            assert(t[1] != v@);
        }
        0
    }
}

/// The application launchers on offer.
pub open spec fn launcher_options() -> Seq<Seq<char>> {
    seq!["rofi"@, "wofi"@]
}

/// The option on a row of this menu.
pub fn launcher_choice(row: u32) -> (r: &'static str)
    ensures
        r@ == option_at(launcher_options(), row as int),
{
    match row {
        1 => "wofi",
        _ => "rofi",
    }
}

/// The row this menu shows for a value.
pub fn launcher_row(v: &str) -> (r: u32)
    ensures
        r == row_of(launcher_options(), v@),
{
    let ghost t = launcher_options();
    proof {
        reveal_strlit("rofi");
        reveal_strlit("wofi");
        lemma_find_row(t, v@);
    }
    if str_eq(v, "wofi") {
        proof {
            assert("rofi"@[0] != "wofi"@[0] && t[0] != v@ && t[1] == v@);
        }
        1
    } else {
        proof {
            assert(t[1] != v@);
        }
        0
    }
}

/// The terminals on offer.
pub open spec fn terminal_options() -> Seq<Seq<char>> {
    seq!["kitty"@, "alacritty"@, "foot"@]
}

/// The option on a row of this menu.
pub fn terminal_choice(row: u32) -> (r: &'static str)
    ensures
        r@ == option_at(terminal_options(), row as int),
{
    match row {
        1 => "alacritty",
        2 => "foot",
        _ => "kitty",
    }
}

/// The row this menu shows for a value.
pub fn terminal_row(v: &str) -> (r: u32)
    ensures
        r == row_of(terminal_options(), v@),
{
    let ghost t = terminal_options();
    proof {
        reveal_strlit("kitty");
        reveal_strlit("alacritty");
        reveal_strlit("foot");
        lemma_find_row(t, v@);
    }
    if str_eq(v, "alacritty") {
        proof {
            assert("kitty"@.len() != "alacritty"@.len() && t[0] != v@ && t[1] == v@);
        }
        1
    } else if str_eq(v, "foot") {
        proof {
            assert("kitty"@.len() != "foot"@.len() && "alacritty"@.len() != "foot"@.len() && t[0] != v@ && t[1] != v@ && t[2] == v@);
        }
        2
    } else {
        proof {
            assert(t[1] != v@ && t[2] != v@);
        }
        0
    }
}

/// The login shells on offer.
pub open spec fn shell_options() -> Seq<Seq<char>> {
    seq!["zsh"@, "bash"@, "fish"@]
}

/// The option on a row of this menu.
pub fn shell_choice(row: u32) -> (r: &'static str)
    ensures
        r@ == option_at(shell_options(), row as int),
{
    match row {
        1 => "bash",
        2 => "fish",
        _ => "zsh",
    }
}

/// The row this menu shows for a value.
pub fn shell_row(v: &str) -> (r: u32)
    ensures
        r == row_of(shell_options(), v@),
{
    let ghost t = shell_options();
    proof {
        reveal_strlit("zsh");
        reveal_strlit("bash");
        reveal_strlit("fish");
        lemma_find_row(t, v@);
    }
    if str_eq(v, "bash") {
        proof {
            assert("zsh"@.len() != "bash"@.len() && t[0] != v@ && t[1] == v@);
        }
        1
    } else if str_eq(v, "fish") {
        proof {
            assert("zsh"@.len() != "fish"@.len() && "bash"@[0] != "fish"@[0] && t[0] != v@ && t[1] != v@ && t[2] == v@);
        }
        2
    } else {
        proof {
            assert(t[1] != v@ && t[2] != v@);
        }
        0
    }
}

/// The shapes of the Quickshell bar: one piece, separate islands, or minimal.
pub open spec fn bar_style_options() -> Seq<Seq<char>> {
    seq!["unified"@, "islands"@, "minimal"@]
}

/// The option on a row of this menu.
pub fn bar_style_choice(row: u32) -> (r: &'static str)
    ensures
        r@ == option_at(bar_style_options(), row as int),
{
    match row {
        1 => "islands",
        2 => "minimal",
        _ => "unified",
    }
}

/// The row this menu shows for a value.
pub fn bar_style_row(v: &str) -> (r: u32)
    ensures
        r == row_of(bar_style_options(), v@),
{
    let ghost t = bar_style_options();
    proof {
        reveal_strlit("unified");
        reveal_strlit("islands");
        reveal_strlit("minimal");
        lemma_find_row(t, v@);
    }
    if str_eq(v, "islands") {
        proof {
            assert("unified"@[0] != "islands"@[0] && t[0] != v@ && t[1] == v@);
        }
        1
    } else if str_eq(v, "minimal") {
        proof {
            assert("unified"@[0] != "minimal"@[0] && "islands"@[0] != "minimal"@[0] && t[0] != v@ && t[1] != v@ && t[2] == v@);
        }
        2
    } else {
        proof {
            assert(t[1] != v@ && t[2] != v@);
        }
        0
    }
}

/// The edges the Quickshell bar can sit on.
pub open spec fn bar_position_options() -> Seq<Seq<char>> {
    seq!["top"@, "bottom"@, "left"@, "right"@]
}

/// The option on a row of this menu.
pub fn bar_position_choice(row: u32) -> (r: &'static str)
    ensures
        r@ == option_at(bar_position_options(), row as int),
{
    match row {
        1 => "bottom",
        2 => "left",
        3 => "right",
        _ => "top",
    }
}

/// The row this menu shows for a value.
pub fn bar_position_row(v: &str) -> (r: u32)
    ensures
        r == row_of(bar_position_options(), v@),
{
    let ghost t = bar_position_options();
    proof {
        reveal_strlit("top");
        reveal_strlit("bottom");
        reveal_strlit("left");
        reveal_strlit("right");
        lemma_find_row(t, v@);
    }
    if str_eq(v, "bottom") {
        proof {
            assert("top"@.len() != "bottom"@.len() && t[0] != v@ && t[1] == v@);
        }
        1
    } else if str_eq(v, "left") {
        proof {
            assert("top"@.len() != "left"@.len() && "bottom"@.len() != "left"@.len() && t[0] != v@ && t[1] != v@ && t[2] == v@);
        }
        2
    } else if str_eq(v, "right") {
        proof {
            assert("top"@.len() != "right"@.len() && "bottom"@.len() != "right"@.len() && "left"@.len() != "right"@.len() && t[0] != v@ && t[1] != v@ && t[2] != v@ && t[3] == v@);
        }
        3
    } else {
        proof {
            assert(t[1] != v@ && t[2] != v@ && t[3] != v@);
        }
        0
    }
}

/// Where the control center can open.
pub open spec fn cc_position_options() -> Seq<Seq<char>> {
    seq!["top-right"@, "bottom-right"@, "top-left"@, "bottom-left"@, "floating-center"@]
}

/// The option on a row of this menu.
pub fn cc_position_choice(row: u32) -> (r: &'static str)
    ensures
        r@ == option_at(cc_position_options(), row as int),
{
    match row {
        1 => "bottom-right",
        2 => "top-left",
        3 => "bottom-left",
        4 => "floating-center",
        _ => "top-right",
    }
}

/// The row this menu shows for a value.
pub fn cc_position_row(v: &str) -> (r: u32)
    ensures
        r == row_of(cc_position_options(), v@),
{
    let ghost t = cc_position_options();
    proof {
        reveal_strlit("top-right");
        reveal_strlit("bottom-right");
        reveal_strlit("top-left");
        reveal_strlit("bottom-left");
        reveal_strlit("floating-center");
        lemma_find_row(t, v@);
    }
    if str_eq(v, "bottom-right") {
        proof {
            assert("top-right"@.len() != "bottom-right"@.len() && t[0] != v@ && t[1] == v@);
        }
        1
    } else if str_eq(v, "top-left") {
        proof {
            assert("top-right"@.len() != "top-left"@.len() && "bottom-right"@.len() != "top-left"@.len() && t[0] != v@ && t[1] != v@ && t[2] == v@);
        }
        2
    } else if str_eq(v, "bottom-left") {
        proof {
            assert("top-right"@.len() != "bottom-left"@.len() && "bottom-right"@.len() != "bottom-left"@.len() && "top-left"@.len() != "bottom-left"@.len() && t[0] != v@ && t[1] != v@ && t[2] != v@ && t[3] == v@);
        }
        3
    } else if str_eq(v, "floating-center") {
        proof {
            assert("top-right"@.len() != "floating-center"@.len() && "bottom-right"@.len() != "floating-center"@.len() && "top-left"@.len() != "floating-center"@.len() && "bottom-left"@.len() != "floating-center"@.len() && t[0] != v@ && t[1] != v@ && t[2] != v@ && t[3] != v@ && t[4] == v@);
        }
        4
    } else {
        proof {
            assert(t[1] != v@ && t[2] != v@ && t[3] != v@ && t[4] != v@);
        }
        0
    }
}

/// Where on-screen displays can appear.
pub open spec fn osd_position_options() -> Seq<Seq<char>> {
    seq!["bottom"@, "top"@, "center"@, "top-right"@, "bottom-right"@]
}

/// The option on a row of this menu.
pub fn osd_position_choice(row: u32) -> (r: &'static str)
    ensures
        r@ == option_at(osd_position_options(), row as int),
{
    match row {
        1 => "top",
        2 => "center",
        3 => "top-right",
        4 => "bottom-right",
        _ => "bottom",
    }
}

/// The row this menu shows for a value.
pub fn osd_position_row(v: &str) -> (r: u32)
    ensures
        r == row_of(osd_position_options(), v@),
{
    let ghost t = osd_position_options();
    proof {
        reveal_strlit("bottom");
        reveal_strlit("top");
        reveal_strlit("center");
        reveal_strlit("top-right");
        reveal_strlit("bottom-right");
        lemma_find_row(t, v@);
    }
    if str_eq(v, "top") {
        proof {
            assert("bottom"@.len() != "top"@.len() && t[0] != v@ && t[1] == v@);
        }
        1
    } else if str_eq(v, "center") {
        proof {
            assert("bottom"@[0] != "center"@[0] && "top"@.len() != "center"@.len() && t[0] != v@ && t[1] != v@ && t[2] == v@);
        }
        2
    } else if str_eq(v, "top-right") {
        proof {
            assert("bottom"@.len() != "top-right"@.len() && "top"@.len() != "top-right"@.len() && "center"@.len() != "top-right"@.len() && t[0] != v@ && t[1] != v@ && t[2] != v@ && t[3] == v@);
        }
        3
    } else if str_eq(v, "bottom-right") {
        proof {
            assert("bottom"@.len() != "bottom-right"@.len() && "top"@.len() != "bottom-right"@.len() && "center"@.len() != "bottom-right"@.len() && "top-right"@.len() != "bottom-right"@.len() && t[0] != v@ && t[1] != v@ && t[2] != v@ && t[3] != v@ && t[4] == v@);
        }
        4
    } else {
        proof {
            assert(t[1] != v@ && t[2] != v@ && t[3] != v@ && t[4] != v@);
        }
        0
    }
}

/// How on-screen displays can be laid out.
pub open spec fn osd_orientation_options() -> Seq<Seq<char>> {
    seq!["horizontal"@, "vertical"@]
}

/// The option on a row of this menu.
pub fn osd_orientation_choice(row: u32) -> (r: &'static str)
    ensures
        r@ == option_at(osd_orientation_options(), row as int),
{
    match row {
        1 => "vertical",
        _ => "horizontal",
    }
}

/// The row this menu shows for a value.
pub fn osd_orientation_row(v: &str) -> (r: u32)
    ensures
        r == row_of(osd_orientation_options(), v@),
{
    let ghost t = osd_orientation_options();
    proof {
        reveal_strlit("horizontal");
        reveal_strlit("vertical");
        lemma_find_row(t, v@);
    }
    if str_eq(v, "vertical") {
        proof {
            assert("horizontal"@.len() != "vertical"@.len() && t[0] != v@ && t[1] == v@);
        }
        1
    } else {
        proof {
            assert(t[1] != v@);
        }
        0
    }
}

/// The layouts of the lock screen.
pub open spec fn ls_layout_options() -> Seq<Seq<char>> {
    seq!["centered"@, "split"@, "left_aligned"@, "free_canvas"@]
}

/// The option on a row of this menu, if the row exists.
pub fn ls_layout_choice(row: u32) -> (r: Option<&'static str>)
    ensures
        match r {
            Some(s) => option_in(ls_layout_options(), row as int) == Some(s@),
            None => option_in(ls_layout_options(), row as int) is None,
        },
{
    match row {
        0 => Some("centered"),
        1 => Some("split"),
        2 => Some("left_aligned"),
        3 => Some("free_canvas"),
        _ => None,
    }
}

/// The row this menu shows for a value, if it offers the value.
pub fn ls_layout_row(v: &str) -> (r: Option<u32>)
    ensures
        match r {
            Some(k) => row_in(ls_layout_options(), v@) == Some(k as int),
            None => row_in(ls_layout_options(), v@) is None,
        },
{
    let ghost t = ls_layout_options();
    proof {
        reveal_strlit("centered");
        reveal_strlit("split");
        reveal_strlit("left_aligned");
        reveal_strlit("free_canvas");
        lemma_find_row(t, v@);
    }
    if str_eq(v, "centered") {
        proof {
            assert(t[0] == v@);
        }
        Some(0)
    } else if str_eq(v, "split") {
        proof {
            assert("centered"@.len() != "split"@.len() && t[0] != v@ && t[1] == v@);
        }
        Some(1)
    } else if str_eq(v, "left_aligned") {
        proof {
            assert("centered"@.len() != "left_aligned"@.len() && "split"@.len() != "left_aligned"@.len() && t[0] != v@ && t[1] != v@ && t[2] == v@);
        }
        Some(2)
    } else if str_eq(v, "free_canvas") {
        proof {
            assert("centered"@.len() != "free_canvas"@.len() && "split"@.len() != "free_canvas"@.len() && "left_aligned"@.len() != "free_canvas"@.len() && t[0] != v@ && t[1] != v@ && t[2] != v@ && t[3] == v@);
        }
        Some(3)
    } else {
        proof {
            assert(t[0] != v@ && t[1] != v@ && t[2] != v@ && t[3] != v@);
        }
        None
    }
}

/// The backgrounds of the lock screen.
pub open spec fn ls_background_options() -> Seq<Seq<char>> {
    seq!["wallpaper_blur"@, "custom_image"@, "solid_black"@, "transparent_acrylic"@]
}

/// The option on a row of this menu, if the row exists.
pub fn ls_background_choice(row: u32) -> (r: Option<&'static str>)
    ensures
        match r {
            Some(s) => option_in(ls_background_options(), row as int) == Some(s@),
            None => option_in(ls_background_options(), row as int) is None,
        },
{
    match row {
        0 => Some("wallpaper_blur"),
        1 => Some("custom_image"),
        2 => Some("solid_black"),
        3 => Some("transparent_acrylic"),
        _ => None,
    }
}

/// The row this menu shows for a value, if it offers the value.
pub fn ls_background_row(v: &str) -> (r: Option<u32>)
    ensures
        match r {
            Some(k) => row_in(ls_background_options(), v@) == Some(k as int),
            None => row_in(ls_background_options(), v@) is None,
        },
{
    let ghost t = ls_background_options();
    proof {
        reveal_strlit("wallpaper_blur");
        reveal_strlit("custom_image");
        reveal_strlit("solid_black");
        reveal_strlit("transparent_acrylic");
        lemma_find_row(t, v@);
    }
    if str_eq(v, "wallpaper_blur") {
        proof {
            assert(t[0] == v@);
        }
        Some(0)
    } else if str_eq(v, "custom_image") {
        proof {
            assert("wallpaper_blur"@.len() != "custom_image"@.len() && t[0] != v@ && t[1] == v@);
        }
        Some(1)
    } else if str_eq(v, "solid_black") {
        proof {
            assert("wallpaper_blur"@.len() != "solid_black"@.len() && "custom_image"@.len() != "solid_black"@.len() && t[0] != v@ && t[1] != v@ && t[2] == v@);
        }
        Some(2)
    } else if str_eq(v, "transparent_acrylic") {
        proof {
            assert("wallpaper_blur"@.len() != "transparent_acrylic"@.len() && "custom_image"@.len() != "transparent_acrylic"@.len() && "solid_black"@.len() != "transparent_acrylic"@.len() && t[0] != v@ && t[1] != v@ && t[2] != v@ && t[3] == v@);
        }
        Some(3)
    } else {
        proof {
            assert(t[0] != v@ && t[1] != v@ && t[2] != v@ && t[3] != v@);
        }
        None
    }
}

/// The kinds of logo fastfetch can show.
pub open spec fn logo_type_options() -> Seq<Seq<char>> {
    seq!["small"@, "builtin"@, "auto"@, "file"@, "chafa"@, "kitty"@, "none"@]
}

/// The option on a row of this menu, if the row exists.
pub fn logo_type_choice(row: u32) -> (r: Option<&'static str>)
    ensures
        match r {
            Some(s) => option_in(logo_type_options(), row as int) == Some(s@),
            None => option_in(logo_type_options(), row as int) is None,
        },
{
    match row {
        0 => Some("small"),
        1 => Some("builtin"),
        2 => Some("auto"),
        3 => Some("file"),
        4 => Some("chafa"),
        5 => Some("kitty"),
        6 => Some("none"),
        _ => None,
    }
}

/// The row this menu shows for a value, if it offers the value.
pub fn logo_type_row(v: &str) -> (r: Option<u32>)
    ensures
        match r {
            Some(k) => row_in(logo_type_options(), v@) == Some(k as int),
            None => row_in(logo_type_options(), v@) is None,
        },
{
    let ghost t = logo_type_options();
    proof {
        reveal_strlit("small");
        reveal_strlit("builtin");
        reveal_strlit("auto");
        reveal_strlit("file");
        reveal_strlit("chafa");
        reveal_strlit("kitty");
        reveal_strlit("none");
        lemma_find_row(t, v@);
    }
    if str_eq(v, "small") {
        proof {
            assert(t[0] == v@);
        }
        Some(0)
    } else if str_eq(v, "builtin") {
        proof {
            assert("small"@.len() != "builtin"@.len() && t[0] != v@ && t[1] == v@);
        }
        Some(1)
    } else if str_eq(v, "auto") {
        proof {
            assert("small"@.len() != "auto"@.len() && "builtin"@.len() != "auto"@.len() && t[0] != v@ && t[1] != v@ && t[2] == v@);
        }
        Some(2)
    } else if str_eq(v, "file") {
        proof {
            assert("small"@.len() != "file"@.len() && "builtin"@.len() != "file"@.len() && "auto"@[0] != "file"@[0] && t[0] != v@ && t[1] != v@ && t[2] != v@ && t[3] == v@);
        }
        Some(3)
    } else if str_eq(v, "chafa") {
        proof {
            assert("small"@[0] != "chafa"@[0] && "builtin"@.len() != "chafa"@.len() && "auto"@.len() != "chafa"@.len() && "file"@.len() != "chafa"@.len() && t[0] != v@ && t[1] != v@ && t[2] != v@ && t[3] != v@ && t[4] == v@);
        }
        Some(4)
    } else if str_eq(v, "kitty") {
        proof {
            assert("small"@[0] != "kitty"@[0] && "builtin"@.len() != "kitty"@.len() && "auto"@.len() != "kitty"@.len() && "file"@.len() != "kitty"@.len() && "chafa"@[0] != "kitty"@[0] && t[0] != v@ && t[1] != v@ && t[2] != v@ && t[3] != v@ && t[4] != v@ && t[5] == v@);
        }
        Some(5)
    } else if str_eq(v, "none") {
        proof {
            assert("small"@.len() != "none"@.len() && "builtin"@.len() != "none"@.len() && "auto"@[0] != "none"@[0] && "file"@[0] != "none"@[0] && "chafa"@.len() != "none"@.len() && "kitty"@.len() != "none"@.len() && t[0] != v@ && t[1] != v@ && t[2] != v@ && t[3] != v@ && t[4] != v@ && t[5] != v@ && t[6] == v@);
        }
        Some(6)
    } else {
        proof {
            assert(t[0] != v@ && t[1] != v@ && t[2] != v@ && t[3] != v@ && t[4] != v@ && t[5] != v@ && t[6] != v@);
        }
        None
    }
}

/// Each menu shows every option once; so the row shown for the option on a
/// row is that row again.
pub proof fn law_menus_round_trip(row: int)
    ensures
        0 <= row < language_options().len() ==> row_of(language_options(), option_at(language_options(), row)) == row,
        0 <= row < active_bar_options().len() ==> row_of(active_bar_options(), option_at(active_bar_options(), row)) == row,
        0 <= row < waybar_position_options().len() ==> row_of(waybar_position_options(), option_at(waybar_position_options(), row)) == row,
        0 <= row < launcher_options().len() ==> row_of(launcher_options(), option_at(launcher_options(), row)) == row,
        0 <= row < terminal_options().len() ==> row_of(terminal_options(), option_at(terminal_options(), row)) == row,
        0 <= row < shell_options().len() ==> row_of(shell_options(), option_at(shell_options(), row)) == row,
        0 <= row < bar_style_options().len() ==> row_of(bar_style_options(), option_at(bar_style_options(), row)) == row,
        0 <= row < bar_position_options().len() ==> row_of(bar_position_options(), option_at(bar_position_options(), row)) == row,
        0 <= row < cc_position_options().len() ==> row_of(cc_position_options(), option_at(cc_position_options(), row)) == row,
        0 <= row < osd_position_options().len() ==> row_of(osd_position_options(), option_at(osd_position_options(), row)) == row,
        0 <= row < osd_orientation_options().len() ==> row_of(osd_orientation_options(), option_at(osd_orientation_options(), row)) == row,
        0 <= row < ls_layout_options().len() ==> row_in(ls_layout_options(), option_in(ls_layout_options(), row)->0) == Some(row),
        0 <= row < ls_background_options().len() ==> row_in(ls_background_options(), option_in(ls_background_options(), row)->0) == Some(row),
        0 <= row < logo_type_options().len() ==> row_in(logo_type_options(), option_in(logo_type_options(), row)->0) == Some(row),
{
    let t = language_options();
    reveal_strlit("nl");
    reveal_strlit("en");
    reveal_strlit("de");
    reveal_strlit("es");
    assert(t[0][0] != t[1][0] && t[0][0] != t[2][0] && t[0][0] != t[3][0] && t[1][0] != t[2][0] && t[1][1] != t[3][1] && t[2][0] != t[3][0]);
    assert(distinct_options(t));
    law_rows_and_options(t, t[0], row);
    let t = active_bar_options();
    reveal_strlit("waybar");
    reveal_strlit("quickshell");
    reveal_strlit("none");
    assert(t[0].len() != t[1].len() && t[0].len() != t[2].len() && t[1].len() != t[2].len());
    assert(distinct_options(t));
    law_rows_and_options(t, t[0], row);
    let t = waybar_position_options();
    reveal_strlit("top");
    reveal_strlit("bottom");
    assert(t[0].len() != t[1].len());
    assert(distinct_options(t));
    law_rows_and_options(t, t[0], row);
    let t = launcher_options();
    reveal_strlit("rofi");
    reveal_strlit("wofi");
    assert(t[0][0] != t[1][0]);
    assert(distinct_options(t));
    law_rows_and_options(t, t[0], row);
    let t = terminal_options();
    reveal_strlit("kitty");
    reveal_strlit("alacritty");
    reveal_strlit("foot");
    assert(t[0].len() != t[1].len() && t[0].len() != t[2].len() && t[1].len() != t[2].len());
    assert(distinct_options(t));
    law_rows_and_options(t, t[0], row);
    let t = shell_options();
    reveal_strlit("zsh");
    reveal_strlit("bash");
    reveal_strlit("fish");
    assert(t[0].len() != t[1].len() && t[0].len() != t[2].len() && t[1][0] != t[2][0]);
    assert(distinct_options(t));
    law_rows_and_options(t, t[0], row);
    let t = bar_style_options();
    reveal_strlit("unified");
    reveal_strlit("islands");
    reveal_strlit("minimal");
    assert(t[0][0] != t[1][0] && t[0][0] != t[2][0] && t[1][0] != t[2][0]);
    assert(distinct_options(t));
    law_rows_and_options(t, t[0], row);
    let t = bar_position_options();
    reveal_strlit("top");
    reveal_strlit("bottom");
    reveal_strlit("left");
    reveal_strlit("right");
    assert(t[0].len() != t[1].len() && t[0].len() != t[2].len() && t[0].len() != t[3].len() && t[1].len() != t[2].len() && t[1].len() != t[3].len() && t[2].len() != t[3].len());
    assert(distinct_options(t));
    law_rows_and_options(t, t[0], row);
    let t = cc_position_options();
    reveal_strlit("top-right");
    reveal_strlit("bottom-right");
    reveal_strlit("top-left");
    reveal_strlit("bottom-left");
    reveal_strlit("floating-center");
    assert(t[0].len() != t[1].len() && t[0].len() != t[2].len() && t[0].len() != t[3].len() && t[0].len() != t[4].len() && t[1].len() != t[2].len() && t[1].len() != t[3].len() && t[1].len() != t[4].len() && t[2].len() != t[3].len() && t[2].len() != t[4].len() && t[3].len() != t[4].len());
    assert(distinct_options(t));
    law_rows_and_options(t, t[0], row);
    let t = osd_position_options();
    reveal_strlit("bottom");
    reveal_strlit("top");
    reveal_strlit("center");
    reveal_strlit("top-right");
    reveal_strlit("bottom-right");
    assert(t[0].len() != t[1].len() && t[0][0] != t[2][0] && t[0].len() != t[3].len() && t[0].len() != t[4].len() && t[1].len() != t[2].len() && t[1].len() != t[3].len() && t[1].len() != t[4].len() && t[2].len() != t[3].len() && t[2].len() != t[4].len() && t[3].len() != t[4].len());
    assert(distinct_options(t));
    law_rows_and_options(t, t[0], row);
    let t = osd_orientation_options();
    reveal_strlit("horizontal");
    reveal_strlit("vertical");
    assert(t[0].len() != t[1].len());
    assert(distinct_options(t));
    law_rows_and_options(t, t[0], row);
    let t = ls_layout_options();
    reveal_strlit("centered");
    reveal_strlit("split");
    reveal_strlit("left_aligned");
    reveal_strlit("free_canvas");
    assert(t[0].len() != t[1].len() && t[0].len() != t[2].len() && t[0].len() != t[3].len() && t[1].len() != t[2].len() && t[1].len() != t[3].len() && t[2].len() != t[3].len());
    assert(distinct_options(t));
    law_rows_and_options(t, t[0], row);
    let t = ls_background_options();
    reveal_strlit("wallpaper_blur");
    reveal_strlit("custom_image");
    reveal_strlit("solid_black");
    reveal_strlit("transparent_acrylic");
    assert(t[0].len() != t[1].len() && t[0].len() != t[2].len() && t[0].len() != t[3].len() && t[1].len() != t[2].len() && t[1].len() != t[3].len() && t[2].len() != t[3].len());
    assert(distinct_options(t));
    law_rows_and_options(t, t[0], row);
    let t = logo_type_options();
    reveal_strlit("small");
    reveal_strlit("builtin");
    reveal_strlit("auto");
    reveal_strlit("file");
    reveal_strlit("chafa");
    reveal_strlit("kitty");
    reveal_strlit("none");
    assert(t[0].len() != t[1].len() && t[0].len() != t[2].len() && t[0].len() != t[3].len() && t[0][0] != t[4][0] && t[0][0] != t[5][0] && t[0].len() != t[6].len() && t[1].len() != t[2].len() && t[1].len() != t[3].len() && t[1].len() != t[4].len() && t[1].len() != t[5].len() && t[1].len() != t[6].len() && t[2][0] != t[3][0] && t[2].len() != t[4].len() && t[2].len() != t[5].len() && t[2][0] != t[6][0] && t[3].len() != t[4].len() && t[3].len() != t[5].len() && t[3][0] != t[6][0] && t[4][0] != t[5][0] && t[4].len() != t[6].len() && t[5].len() != t[6].len());
    assert(distinct_options(t));
    law_rows_and_options(t, t[0], row);
}

} // verus!
