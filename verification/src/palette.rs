use vstd::prelude::*;

use crate::text::{copy_str, push_range, to_chars};

verus! {

/// The five colours taken from a wallpaper (`#rrggbb`).
#[derive(Debug, Clone, PartialEq)]
pub struct WallpaperPalette {
    pub background: String,
    pub surface: String,
    pub primary_accent: String,
    pub secondary_accent: String,
    pub foreground: String,
}

impl Default for WallpaperPalette {
    /// The Catppuccin Mocha colours.
    fn default() -> (r: Self)
        ensures
            r.background@ == "#1e1e2e"@,
            r.surface@ == "#181825"@,
            r.primary_accent@ == "#89b4fa"@,
            r.secondary_accent@ == "#cba6f7"@,
            r.foreground@ == "#cdd6f4"@,
    {
        WallpaperPalette {
            background: copy_str("#1e1e2e"),
            surface: copy_str("#181825"),
            primary_accent: copy_str("#89b4fa"),
            secondary_accent: copy_str("#cba6f7"),
            foreground: copy_str("#cdd6f4"),
        }
    }
}

/// `s` without the leading `c`s, as `str::trim_start_matches(c)` gives it.
pub open spec fn without_leading(s: Seq<char>, c: char) -> Seq<char>
    decreases s.len(),
{
    if s.len() > 0 && s[0] == c {
        without_leading(s.drop_first(), c)
    } else {
        s
    }
}

/// `s` without its leading `c`s.
pub fn trim_start_matches(s: &str, c: char) -> (r: String)
    ensures
        r@ == without_leading(s@, c),
{
    let v = to_chars(s);
    let mut i: usize = 0;
    proof {
        assert(s@.skip(0) =~= s@);
    }
    while i < v.len() && v[i] == c
        invariant
            v@ == s@,
            i <= v@.len(),
            without_leading(s@.skip(i as int), c) == without_leading(s@, c),
        decreases v.len() - i,
    {
        proof {
            assert(s@.skip(i as int).drop_first() =~= s@.skip(i + 1));
        }
        i = i + 1;
    }
    let mut r = String::new();
    push_range(&mut r, &v, i, v.len());
    proof {
        assert(v@.subrange(i as int, v@.len() as int) =~= s@.skip(i as int));
    }
    r
}

/// What applying a palette sets: the shell's styling colours, and the
/// window border colour handed to Hyprland (without `#`).
pub struct PaletteStyling {
    pub background: String,
    pub accent: String,
    pub border_color: String,
    pub text_color: String,
    pub pill_bg: String,
    pub border_hex: String,
}

/// The styling a palette gives: background from the background, accent from
/// the primary accent, border and pill from the surface, text from the
/// foreground; the Hyprland border is the primary accent without its `#`s.
pub fn apply_palette(palette: &WallpaperPalette) -> (s: PaletteStyling)
    ensures
        s.background@ == palette.background@,
        s.accent@ == palette.primary_accent@,
        s.border_color@ == palette.surface@,
        s.text_color@ == palette.foreground@,
        s.pill_bg@ == palette.surface@,
        s.border_hex@ == without_leading(palette.primary_accent@, '#'),
{
    PaletteStyling {
        background: copy_str(palette.background.as_str()),
        accent: copy_str(palette.primary_accent.as_str()),
        border_color: copy_str(palette.surface.as_str()),
        text_color: copy_str(palette.foreground.as_str()),
        pill_bg: copy_str(palette.surface.as_str()),
        border_hex: trim_start_matches(palette.primary_accent.as_str(), '#'),
    }
}

} // verus!
