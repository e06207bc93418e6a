use vstd::prelude::*;

use crate::escape::{pango_char, pango_escaped, push_escaped};
use crate::text::{copy_str, hex_digit, hex_rgb, is_alphabetic, is_ascii_digit, rgb_hex, to_chars, unicode_alphabetic};

verus! {

// ---------------------------------------------------------------------------
// Colour tables.
// ---------------------------------------------------------------------------

/// The colour of a standard SGR foreground code (30–37, 90–97); any other
/// code gets the default text colour.
pub open spec fn standard_hex(code: u32) -> Seq<char> {
    if code == 30 {
        "#000000"@
    } else if code == 31 {
        "#cd0000"@
    } else if code == 32 {
        "#00cd00"@
    } else if code == 33 {
        "#cdcd00"@
    } else if code == 34 {
        "#0000ee"@
    } else if code == 35 {
        "#cd00cd"@
    } else if code == 36 {
        "#00cdcd"@
    } else if code == 37 {
        "#e5e5e5"@
    } else if code == 90 {
        "#7f7f7f"@
    } else if code == 91 {
        "#ff5555"@
    } else if code == 92 {
        "#50fa7b"@
    } else if code == 93 {
        "#f1fa8c"@
    } else if code == 94 {
        "#bd93f9"@
    } else if code == 95 {
        "#ff79c6"@
    } else if code == 96 {
        "#8be9fd"@
    } else if code == 97 {
        "#ffffff"@
    } else {
        "#cdd6f4"@
    }
}

/// Maps a standard SGR foreground code to its colour.
pub fn ansi_standard_to_hex(code: u32) -> (r: &'static str)
    ensures
        r@ == standard_hex(code),
{
    match code {
        30 => "#000000",
        31 => "#cd0000",
        32 => "#00cd00",
        33 => "#cdcd00",
        34 => "#0000ee",
        35 => "#cd00cd",
        36 => "#00cdcd",
        37 => "#e5e5e5",
        90 => "#7f7f7f",
        91 => "#ff5555",
        92 => "#50fa7b",
        93 => "#f1fa8c",
        94 => "#bd93f9",
        95 => "#ff79c6",
        96 => "#8be9fd",
        97 => "#ffffff",
        _ => "#cdd6f4",
    }
}

/// The first sixteen entries of the 256-colour palette.
pub open spec fn base16_hex(idx: u8) -> Seq<char> {
    if idx == 0 {
        "#000000"@
    } else if idx == 1 {
        "#cd0000"@
    } else if idx == 2 {
        "#00cd00"@
    } else if idx == 3 {
        "#cdcd00"@
    } else if idx == 4 {
        "#0000ee"@
    } else if idx == 5 {
        "#cd00cd"@
    } else if idx == 6 {
        "#00cdcd"@
    } else if idx == 7 {
        "#e5e5e5"@
    } else if idx == 8 {
        "#7f7f7f"@
    } else if idx == 9 {
        "#ff0000"@
    } else if idx == 10 {
        "#00ff00"@
    } else if idx == 11 {
        "#ffff00"@
    } else if idx == 12 {
        "#5c5cff"@
    } else if idx == 13 {
        "#ff00ff"@
    } else if idx == 14 {
        "#00ffff"@
    } else {
        "#ffffff"@
    }
}

/// The intensity of one step (0–5) of the 6×6×6 colour cube.
pub open spec fn cube_level(x: int) -> u8 {
    if x == 0 {
        0
    } else {
        (55 + x * 40) as u8
    }
}

/// The colour of an entry of the xterm 256-colour palette.
pub open spec fn palette_hex(idx: u8) -> Seq<char> {
    if idx < 16 {
        base16_hex(idx)
    } else if idx <= 231 {
        let o = idx - 16;
        hex_rgb(cube_level(o / 36), cube_level((o % 36) / 6), cube_level(o % 6))
    } else {
        let gray = (8 + (idx - 232) * 10) as u8;
        hex_rgb(gray, gray, gray)
    }
}

fn cube_level_exec(x: u8) -> (r: u8)
    requires
        x <= 5,
    ensures
        r == cube_level(x as int),
{
    if x == 0 {
        0
    } else {
        55 + x * 40
    }
}

/// Maps an index of the 256-colour palette to `#rrggbb`.
pub fn ansi_256_to_hex(idx: u8) -> (r: String)
    ensures
        r@ == palette_hex(idx),
{
    if idx < 16 {
        let s = match idx {
            0 => "#000000",
            1 => "#cd0000",
            2 => "#00cd00",
            3 => "#cdcd00",
            4 => "#0000ee",
            5 => "#cd00cd",
            6 => "#00cdcd",
            7 => "#e5e5e5",
            8 => "#7f7f7f",
            9 => "#ff0000",
            10 => "#00ff00",
            11 => "#ffff00",
            12 => "#5c5cff",
            13 => "#ff00ff",
            14 => "#00ffff",
            _ => "#ffffff",
        };
        let mut r = String::new();
        r.append(s);
        r
    } else if idx <= 231 {
        let o = idx - 16;
        let r = cube_level_exec(o / 36);
        let g = cube_level_exec((o % 36) / 6);
        let b = cube_level_exec(o % 6);
        rgb_hex(r, g, b)
    } else {
        let gray = 8 + (idx - 232) * 10;
        rgb_hex(gray, gray, gray)
    }
}

// ---------------------------------------------------------------------------
// SGR parameters: `;`-separated fields, of which the numbers count.
// ---------------------------------------------------------------------------

pub open spec fn all_digits(s: Seq<char>) -> bool {
    forall|i: int| 0 <= i < s.len() ==> is_ascii_digit(#[trigger] s[i])
}

/// The value of a string of ASCII digits.
pub open spec fn digits_value(s: Seq<char>) -> nat
    decreases s.len(),
{
    if s.len() == 0 {
        0
    } else {
        digits_value(s.drop_last()) * 10 + ((s.last() as nat) - 48) as nat
    }
}

/// `str::parse::<u32>`: an optional `+`, then one or more ASCII digits whose
/// value fits in a `u32`.
pub open spec fn parse_u32(s: Seq<char>) -> Option<u32> {
    let body = if s.len() > 0 && s[0] == '+' {
        s.drop_first()
    } else {
        s
    };
    if body.len() > 0 && all_digits(body) && digits_value(body) <= u32::MAX {
        Some(digits_value(body) as u32)
    } else {
        None
    }
}

pub open spec fn option_seq(o: Option<u32>) -> Seq<u32> {
    match o {
        Some(v) => seq![v],
        None => Seq::empty(),
    }
}

/// The numbers among the `;`-separated fields of `s` (fields that do not parse
/// as a `u32` are left out), `cur` being the part of the first field already read.
pub open spec fn codes_from(s: Seq<char>, cur: Seq<char>) -> Seq<u32>
    decreases s.len(),
{
    if s.len() == 0 {
        option_seq(parse_u32(cur))
    } else if s[0] == ';' {
        option_seq(parse_u32(cur)) + codes_from(s.drop_first(), Seq::empty())
    } else {
        codes_from(s.drop_first(), cur.push(s[0]))
    }
}

proof fn lemma_digits_value_prefix(s: Seq<char>, k: int)
    requires
        0 <= k <= s.len(),
    ensures
        digits_value(s.take(k)) <= digits_value(s),
    decreases s.len(),
{
    if k < s.len() {
        assert(s.drop_last().take(k) =~= s.take(k));
        lemma_digits_value_prefix(s.drop_last(), k);
    } else {
        assert(s.take(k) =~= s);
    }
}

/// Parses `v[a..b]` as `str::parse::<u32>` does.
pub fn parse_u32_range(v: &Vec<char>, a: usize, b: usize) -> (r: Option<u32>)
    requires
        a <= b <= v@.len(),
    ensures
        r == parse_u32(v@.subrange(a as int, b as int)),
{
    let ghost s = v@.subrange(a as int, b as int);
    let start = if b > a && v[a] == '+' {
        a + 1
    } else {
        a
    };
    let ghost body = v@.subrange(start as int, b as int);
    proof {
        if s.len() > 0 {
            assert(s[0] == v@[a as int]);
        }
        if b > a && v@[a as int] == '+' {
            assert(body =~= s.drop_first());
        } else {
            assert(body =~= s);
        }
    }
    if start == b {
        return None;
    }
    let mut acc: u64 = 0;
    let mut k = start;
    while k < b
        invariant
            a <= start <= k <= b <= v@.len(),
            body == v@.subrange(start as int, b as int),
            s == v@.subrange(a as int, b as int),
            (s.len() > 0 && s[0] == '+') ==> body == s.drop_first(),
            !(s.len() > 0 && s[0] == '+') ==> body == s,
            start < b,
            acc == digits_value(v@.subrange(start as int, k as int)),
            acc <= u32::MAX,
            all_digits(v@.subrange(start as int, k as int)),
        decreases b - k,
    {
        let c = v[k];
        if !('0' <= c && c <= '9') {
            proof {
                assert(!is_ascii_digit(body[k - start]));
            }
            return None;
        }
        let d = (c as u32 - 48) as u64;
        proof {
            let t = v@.subrange(start as int, k + 1);
            assert(t.drop_last() =~= v@.subrange(start as int, k as int));
            assert(t.last() == c);
        }
        acc = acc * 10 + d;
        proof {
            let t = v@.subrange(start as int, k + 1);
            assert(acc == digits_value(t));
        }
        if acc > 4294967295 {
            proof {
                let t = v@.subrange(start as int, k + 1);
                if all_digits(body) {
                    assert(body.take(k + 1 - start) =~= t);
                    lemma_digits_value_prefix(body, k + 1 - start);
                }
            }
            return None;
        }
        proof {
            let t = v@.subrange(start as int, k + 1);
            assert forall|i: int| 0 <= i < t.len() implies is_ascii_digit(#[trigger] t[i]) by {
                if i < t.len() - 1 {
                    assert(t[i] == v@.subrange(start as int, k as int)[i]);
                }
            }
        }
        k = k + 1;
    }
    Some(acc as u32)
}

/// The numbers among the `;`-separated fields of `v[a..b]`.
pub fn sgr_codes(v: &Vec<char>, a: usize, b: usize) -> (parts: Vec<u32>)
    requires
        a <= b <= v@.len(),
    ensures
        parts@ == codes_from(v@.subrange(a as int, b as int), Seq::empty()),
{
    let mut parts: Vec<u32> = Vec::new();
    let mut cur_start = a;
    let mut k = a;
    proof {
        assert(v@.subrange(a as int, a as int) =~= Seq::<char>::empty());
    }
    while k < b
        invariant
            a <= cur_start <= k <= b <= v@.len(),
            parts@ + codes_from(v@.subrange(k as int, b as int), v@.subrange(cur_start as int, k as int))
                == codes_from(v@.subrange(a as int, b as int), Seq::empty()),
        decreases b - k,
    {
        let ghost s = v@.subrange(k as int, b as int);
        proof {
            assert(s.drop_first() =~= v@.subrange(k + 1, b as int));
            assert(s[0] == v@[k as int]);
        }
        if v[k] == ';' {
            let ghost before = parts@;
            let p = parse_u32_range(v, cur_start, k);
            match p {
                Some(x) => {
                    parts.push(x);
                },
                None => {},
            }
            proof {
                assert(v@.subrange(k + 1, k + 1) =~= Seq::<char>::empty());
                assert(parts@ =~= before + option_seq(p));
                assert(parts@ + codes_from(v@.subrange(k + 1, b as int), Seq::empty()) =~= before + (
                option_seq(p) + codes_from(v@.subrange(k + 1, b as int), Seq::empty())));
            }
            cur_start = k + 1;
        } else {
            proof {
                assert(v@.subrange(cur_start as int, k + 1) =~= v@.subrange(cur_start as int, k as int).push(v@[k as int]));
            }
        }
        k = k + 1;
    }
    let ghost before = parts@;
    let p = parse_u32_range(v, cur_start, b);
    match p {
        Some(x) => {
            parts.push(x);
        },
        None => {},
    }
    proof {
        assert(v@.subrange(b as int, b as int) =~= Seq::<char>::empty());
        assert(parts@ =~= before + option_seq(p));
    }
    parts
}

// ---------------------------------------------------------------------------
// From ANSI SGR sequences to Pango markup.
// ---------------------------------------------------------------------------

/// Which markup elements are open: `<b>`, a `<span>` with a colour, and
/// which of the two was opened first when both are.
pub struct OpenTags {
    pub bold: bool,
    pub color: Option<Seq<char>>,
    pub bold_first: bool,
}

pub open spec fn plain_state() -> OpenTags {
    OpenTags { bold: false, color: None, bold_first: false }
}

pub open spec fn close_color(st: OpenTags) -> Seq<char> {
    if st.color is Some {
        "</span>"@
    } else {
        Seq::empty()
    }
}

pub open spec fn close_bold(st: OpenTags) -> Seq<char> {
    if st.bold {
        "</b>"@
    } else {
        Seq::empty()
    }
}

/// Whether the bold sits inside the span.
pub open spec fn bold_inside(st: OpenTags) -> bool {
    st.bold && st.color is Some && !st.bold_first
}

/// The closing tags for whatever is open, in the reverse order of opening.
pub open spec fn close_all(st: OpenTags) -> Seq<char> {
    if st.bold && st.bold_first {
        close_color(st) + close_bold(st)
    } else {
        close_bold(st) + close_color(st)
    }
}

pub open spec fn open_color(hex: Seq<char>) -> Seq<char> {
    "<span foreground=\""@ + hex + "\">"@
}

/// Switching bold on: `<b>` inside whatever is open.
pub open spec fn bold_on(st: OpenTags) -> (Seq<char>, OpenTags) {
    if st.bold {
        (Seq::empty(), st)
    } else {
        ("<b>"@, OpenTags { bold: true, color: st.color, bold_first: st.color is None })
    }
}

/// Switching bold off: when a span was opened inside the bold, it is closed
/// first and opened again after the bold is closed.
pub open spec fn bold_off(st: OpenTags) -> (Seq<char>, OpenTags) {
    if !st.bold {
        (Seq::empty(), st)
    } else if st.color is Some && st.bold_first {
        ("</span></b>"@ + open_color(st.color->0), OpenTags { bold: false, color: st.color, bold_first: false })
    } else {
        ("</b>"@, OpenTags { bold: false, color: st.color, bold_first: false })
    }
}

/// Dropping the colour: when a bold was opened inside the span, it is closed
/// first and opened again after the span is closed.
pub open spec fn uncolor(st: OpenTags) -> (Seq<char>, OpenTags) {
    if st.color is None {
        (Seq::empty(), st)
    } else if bold_inside(st) {
        ("</b></span><b>"@, OpenTags { bold: true, color: None, bold_first: true })
    } else {
        ("</span>"@, OpenTags { bold: st.bold, color: None, bold_first: st.bold })
    }
}

/// Replacing the current colour with `hex`: the open span is closed (with a
/// bold inside it closed before and opened again after) and a new span opened.
pub open spec fn recolor(st: OpenTags, hex: Seq<char>) -> (Seq<char>, OpenTags) {
    if st.color is None {
        (open_color(hex), OpenTags { bold: st.bold, color: Some(hex), bold_first: st.bold })
    } else if bold_inside(st) {
        ("</b></span>"@ + open_color(hex) + "<b>"@, OpenTags { bold: true, color: Some(hex), bold_first: false })
    } else {
        ("</span>"@ + open_color(hex), OpenTags { bold: st.bold, color: Some(hex), bold_first: st.bold_first })
    }
}

/// One step through the code list at position `p`: the markup it writes, the
/// state after it, and the position of the next code (38;2;r;g;b and 38;5;n
/// consume their arguments).
pub open spec fn code_step(parts: Seq<u32>, p: int, st: OpenTags) -> (Seq<char>, OpenTags, int) {
    let code = parts[p];
    if code == 0 {
        (close_all(st), plain_state(), p + 1)
    } else if code == 1 {
        let r = bold_on(st);
        (r.0, r.1, p + 1)
    } else if code == 22 {
        let r = bold_off(st);
        (r.0, r.1, p + 1)
    } else if code == 39 {
        let r = uncolor(st);
        (r.0, r.1, p + 1)
    } else if (30 <= code <= 37) || (90 <= code <= 97) {
        let r = recolor(st, standard_hex(code));
        (r.0, r.1, p + 1)
    } else if code == 38 && p + 4 < parts.len() && parts[p + 1] == 2 {
        let r = recolor(
            st,
            hex_rgb((parts[p + 2] % 256) as u8, (parts[p + 3] % 256) as u8, (parts[p + 4] % 256) as u8),
        );
        (r.0, r.1, p + 5)
    } else if code == 38 && p + 2 < parts.len() && parts[p + 1] == 5 {
        let r = recolor(st, palette_hex((parts[p + 2] % 256) as u8));
        (r.0, r.1, p + 3)
    } else {
        (Seq::empty(), st, p + 1)
    }
}

/// The markup written by the codes from position `p` on, and the final state.
pub open spec fn apply_codes(parts: Seq<u32>, p: int, st: OpenTags) -> (Seq<char>, OpenTags)
    decreases parts.len() - p,
{
    if p < 0 || p >= parts.len() {
        (Seq::empty(), st)
    } else {
        let step = code_step(parts, p, st);
        let rest = apply_codes(parts, step.2, step.1);
        (step.0 + rest.0, rest.1)
    }
}

/// An SGR sequence with parameter text `params`: empty or `0` resets
/// everything; otherwise its numeric codes are applied in order.
pub open spec fn sgr(params: Seq<char>, st: OpenTags) -> (Seq<char>, OpenTags) {
    if params.len() == 0 || params == seq!['0'] {
        (close_all(st), plain_state())
    } else {
        apply_codes(codes_from(params, Seq::empty()), 0, st)
    }
}

/// The index of the final character of an escape sequence whose parameters
/// start at `j`: the first alphabetic character (or `m`), or the end of the text.
pub open spec fn esc_end(s: Seq<char>, j: int) -> int
    decreases s.len() - j,
{
    if j < 0 || j >= s.len() {
        s.len() as int
    } else if unicode_alphabetic(s[j]) || s[j] == 'm' {
        j
    } else {
        esc_end(s, j + 1)
    }
}

pub proof fn lemma_esc_end_bounds(s: Seq<char>, j: int)
    requires
        0 <= j <= s.len(),
    ensures
        j <= esc_end(s, j) <= s.len(),
    decreases s.len() - j,
{
    if j < s.len() && !(unicode_alphabetic(s[j]) || s[j] == 'm') {
        lemma_esc_end_bounds(s, j + 1);
    }
}

/// The markup for the text from index `i` on, with `st` open. Plain characters
/// are escaped; `ESC [ params final` sequences are consumed, and an SGR one
/// (`final` = `m`) changes the open elements; an unterminated sequence ends the
/// text. At the end every open element is closed.
pub open spec fn render_from(s: Seq<char>, i: int, st: OpenTags) -> Seq<char>
    decreases s.len() - i,
{
    if i < 0 || i >= s.len() {
        close_all(st)
    } else if s[i] == '\x1b' && i + 1 < s.len() && s[i + 1] == '[' {
        let j = esc_end(s, i + 2);
        proof {
            lemma_esc_end_bounds(s, i + 2);
        }
        if j >= s.len() {
            close_all(st)
        } else if s[j] == 'm' {
            let r = sgr(s.subrange(i + 2, j), st);
            r.0 + render_from(s, j + 1, r.1)
        } else {
            render_from(s, j + 1, st)
        }
    } else {
        pango_char(s[i]) + render_from(s, i + 1, st)
    }
}

/// The Pango markup for a text with ANSI escape sequences.
pub open spec fn pango_markup(s: Seq<char>) -> Seq<char> {
    render_from(s, 0, plain_state())
}

/// The markup elements open while a text is turned into markup.
pub struct MarkupState {
    pub bold: bool,
    pub color: Option<String>,
    pub bold_first: bool,
}

impl View for MarkupState {
    type V = OpenTags;

    open spec fn view(&self) -> OpenTags {
        OpenTags {
            bold: self.bold,
            color: match self.color {
                Some(c) => Some(c@),
                None => None,
            },
            bold_first: self.bold_first,
        }
    }
}

fn plain_exec() -> (r: MarkupState)
    ensures
        r@ == plain_state(),
{
    MarkupState { bold: false, color: None, bold_first: false }
}

fn close_all_exec(out: &mut String, st: &MarkupState)
    ensures
        final(out)@ == old(out)@ + close_all(st@),
{
    let has_color = st.color.is_some();
    if st.bold && st.bold_first {
        if has_color {
            out.append("</span>");
        }
        out.append("</b>");
    } else {
        if st.bold {
            out.append("</b>");
        }
        if has_color {
            out.append("</span>");
        }
    }
    proof {
        assert(out@ =~= old(out)@ + close_all(st@));
    }
}

fn push_open_color(out: &mut String, hex: &str)
    ensures
        final(out)@ == old(out)@ + open_color(hex@),
{
    out.append("<span foreground=\"");
    out.append(hex);
    out.append("\">");
    proof {
        assert(out@ =~= old(out)@ + open_color(hex@));
    }
}

fn recolor_exec(out: &mut String, st: MarkupState, hex: String) -> (r: MarkupState)
    ensures
        final(out)@ == old(out)@ + recolor(st@, hex@).0,
        r@ == recolor(st@, hex@).1,
{
    let ghost before = out@;
    match st.color {
        None => {
            push_open_color(out, hex.as_str());
            MarkupState { bold: st.bold, color: Some(hex), bold_first: st.bold }
        },
        Some(_) => {
            if st.bold && !st.bold_first {
                out.append("</b></span>");
                push_open_color(out, hex.as_str());
                out.append("<b>");
                proof {
                    assert(out@ =~= before + recolor(st@, hex@).0);
                }
                MarkupState { bold: true, color: Some(hex), bold_first: false }
            } else {
                out.append("</span>");
                push_open_color(out, hex.as_str());
                proof {
                    assert(out@ =~= before + recolor(st@, hex@).0);
                }
                MarkupState { bold: st.bold, color: Some(hex), bold_first: st.bold_first }
            }
        },
    }
}

fn code_step_exec(out: &mut String, parts: &Vec<u32>, p: usize, st: MarkupState) -> (r: (MarkupState, usize))
    requires
        p < parts@.len(),
    ensures
        final(out)@ == old(out)@ + code_step(parts@, p as int, st@).0,
        r.0@ == code_step(parts@, p as int, st@).1,
        r.1 == code_step(parts@, p as int, st@).2,
{
    assert(p < parts.len());
    let ghost before = out@;
    let code = parts[p];
    if code == 0 {
        close_all_exec(out, &st);
        (plain_exec(), p + 1)
    } else if code == 1 {
        if st.bold {
            proof {
                assert(out@ =~= out@ + Seq::<char>::empty());
            }
            (st, p + 1)
        } else {
            out.append("<b>");
            let first = st.color.is_none();
            (MarkupState { bold: true, color: st.color, bold_first: first }, p + 1)
        }
    } else if code == 22 {
        if !st.bold {
            proof {
                assert(out@ =~= out@ + Seq::<char>::empty());
            }
            (st, p + 1)
        } else {
            match st.color {
                Some(hex) => {
                    if st.bold_first {
                        out.append("</span></b>");
                        push_open_color(out, hex.as_str());
                    } else {
                        out.append("</b>");
                    }
                    proof {
                        assert(out@ =~= before + code_step(parts@, p as int, st@).0);
                    }
                    (MarkupState { bold: false, color: Some(hex), bold_first: false }, p + 1)
                },
                None => {
                    out.append("</b>");
                    (MarkupState { bold: false, color: None, bold_first: false }, p + 1)
                },
            }
        }
    } else if code == 39 {
        match st.color {
            None => {
                proof {
                    assert(out@ =~= out@ + Seq::<char>::empty());
                }
                (st, p + 1)
            },
            Some(_) => {
                if st.bold && !st.bold_first {
                    out.append("</b></span><b>");
                    (MarkupState { bold: true, color: None, bold_first: true }, p + 1)
                } else {
                    out.append("</span>");
                    (MarkupState { bold: st.bold, color: None, bold_first: st.bold }, p + 1)
                }
            },
        }
    } else if (30 <= code && code <= 37) || (90 <= code && code <= 97) {
        let hex = ansi_standard_to_hex(code);
        let r = recolor_exec(out, st, copy_str(hex));
        (r, p + 1)
    } else if code == 38 && parts.len() > 4 && p < parts.len() - 4 && parts[p + 1] == 2 {
        let hex = rgb_hex((parts[p + 2] % 256) as u8, (parts[p + 3] % 256) as u8, (parts[p + 4] % 256) as u8);
        let r = recolor_exec(out, st, hex);
        (r, p + 5)
    } else if code == 38 && parts.len() > 2 && p < parts.len() - 2 && parts[p + 1] == 5 {
        let hex = ansi_256_to_hex((parts[p + 2] % 256) as u8);
        let r = recolor_exec(out, st, hex);
        (r, p + 3)
    } else {
        proof {
            assert(out@ =~= out@ + Seq::<char>::empty());
        }
        (st, p + 1)
    }
}

fn apply_codes_exec(out: &mut String, parts: &Vec<u32>, st0: MarkupState) -> (r: MarkupState)
    ensures
        final(out)@ == old(out)@ + apply_codes(parts@, 0, st0@).0,
        r@ == apply_codes(parts@, 0, st0@).1,
{
    let ghost s0 = st0@;
    let mut p: usize = 0;
    let mut st = st0;
    while p < parts.len()
        invariant
            out@ + apply_codes(parts@, p as int, st@).0 == old(out)@ + apply_codes(parts@, 0, s0).0,
            apply_codes(parts@, p as int, st@).1 == apply_codes(parts@, 0, s0).1,
        decreases parts.len() - p,
    {
        let ghost before = out@;
        let ghost sb = st@;
        let (st2, q) = code_step_exec(out, parts, p, st);
        proof {
            let step = code_step(parts@, p as int, sb);
            assert(apply_codes(parts@, p as int, sb).0 == step.0 + apply_codes(parts@, q as int, st2@).0);
            assert(out@ + apply_codes(parts@, q as int, st2@).0 =~= before + apply_codes(parts@, p as int, sb).0);
        }
        p = q;
        st = st2;
    }
    proof {
        assert(out@ =~= out@ + apply_codes(parts@, p as int, st@).0);
    }
    st
}

fn sgr_exec(out: &mut String, v: &Vec<char>, a: usize, b: usize, st: MarkupState) -> (r: MarkupState)
    requires
        a <= b <= v@.len(),
    ensures
        final(out)@ == old(out)@ + sgr(v@.subrange(a as int, b as int), st@).0,
        r@ == sgr(v@.subrange(a as int, b as int), st@).1,
{
    let ghost params = v@.subrange(a as int, b as int);
    if a == b || (b == a + 1 && v[a] == '0') {
        proof {
            if b == a + 1 && v@[a as int] == '0' {
                assert(params =~= seq!['0']);
            }
        }
        close_all_exec(out, &st);
        plain_exec()
    } else {
        proof {
            if params == seq!['0'] {
                assert(params[0] == v@[a as int]);
            }
        }
        let parts = sgr_codes(v, a, b);
        apply_codes_exec(out, &parts, st)
    }
}

/// Turns raw ANSI text (as fastfetch prints it) into Pango markup for a
/// GTK label: bold and foreground colours become `<b>` and `<span>`
/// elements, other escape sequences are dropped and `&`, `<`, `>` are escaped.
pub fn ansi_to_pango(text: &str) -> (out: String)
    ensures
        out@ == pango_markup(text@),
        well_nested(out@),
{
    let chars = to_chars(text);
    let len = chars.len();
    let mut out = String::new();
    let mut st = plain_exec();
    let mut i: usize = 0;
    while i < len
        invariant
            len == chars@.len(),
            chars@ == text@,
            i <= len,
            out@ + render_from(chars@, i as int, st@) == pango_markup(text@),
        decreases len - i,
    {
        let ghost before = out@;
        let ghost st_before = st@;
        let ghost i_before = i as int;
        if chars[i] == '\x1b' && i + 1 < len && chars[i + 1] == '[' {
            let mut j = i + 2;
            while j < len && !is_alphabetic(chars[j]) && chars[j] != 'm'
                invariant
                    len == chars@.len(),
                    i + 2 <= j <= len,
                    esc_end(chars@, (i + 2) as int) == esc_end(chars@, j as int),
                decreases len - j,
            {
                j = j + 1;
            }
            proof {
                lemma_esc_end_bounds(chars@, (i + 2) as int);
            }
            if j < len {
                if chars[j] == 'm' {
                    st = sgr_exec(&mut out, &chars, i + 2, j, st);
                }
                i = j + 1;
                proof {
                    assert(out@ + render_from(chars@, i as int, st@) =~= before + render_from(chars@, i_before, st_before));
                }
            } else {
                i = len;
                close_all_exec(&mut out, &st);
                st = plain_exec();
                proof {
                    assert(out@ + render_from(chars@, i as int, st@) =~= before + render_from(chars@, i_before, st_before));
                }
            }
        } else {
            push_escaped(&mut out, chars[i]);
            i = i + 1;
            proof {
                assert(out@ + render_from(chars@, i as int, st@) =~= before + render_from(chars@, i_before, st_before));
            }
        }
    }
    let ghost before = out@;
    close_all_exec(&mut out, &st);
    proof {
        assert(out@ =~= before + render_from(chars@, i as int, st@));
        law_markup_is_well_nested(text@);
    }
    out
}


/// Putting `c` in front of a text puts its markup in front.
proof fn lemma_escaped_cons(c: char, t: Seq<char>)
    ensures
        pango_escaped(seq![c] + t) == pango_char(c) + pango_escaped(t),
    decreases t.len(),
{
    let u = seq![c] + t;
    if t.len() == 0 {
        assert(u.drop_last() =~= Seq::<char>::empty());
        assert(u.last() == c);
        assert(pango_escaped(Seq::<char>::empty()) == Seq::<char>::empty());
        assert(pango_char(c) + Seq::<char>::empty() =~= pango_char(c));
        assert(Seq::<char>::empty() + pango_char(c) =~= pango_char(c));
    } else {
        assert(u.drop_last() =~= seq![c] + t.drop_last());
        assert(u.last() == t.last());
        lemma_escaped_cons(c, t.drop_last());
        assert(pango_char(c) + pango_escaped(t.drop_last()) + pango_char(t.last()) =~= pango_char(c) + (pango_escaped(
            t.drop_last(),
        ) + pango_char(t.last())));
    }
}

proof fn lemma_render_plain(s: Seq<char>, i: int)
    requires
        0 <= i <= s.len(),
        !s.contains('\x1b'),
    ensures
        render_from(s, i, plain_state()) == pango_escaped(s.skip(i)),
    decreases s.len() - i,
{
    if i < s.len() {
        lemma_render_plain(s, i + 1);
        assert(s.skip(i) =~= seq![s[i]] + s.skip(i + 1));
        lemma_escaped_cons(s[i], s.skip(i + 1));
        assert(s[i] != '\x1b');
    } else {
        assert(s.skip(i) =~= Seq::<char>::empty());
        assert(close_all(plain_state()) =~= Seq::<char>::empty());
    }
}

/// Text without escape sequences comes out with only `&`, `<` and `>`
/// escaped.
pub proof fn law_plain_text_is_escaped(s: Seq<char>)
    requires
        !s.contains('\x1b'),
    ensures
        pango_markup(s) == pango_escaped(s),
{
    lemma_render_plain(s, 0);
    assert(s.skip(0) =~= s);
}

// ---------------------------------------------------------------------------
// The markup is well nested.
// ---------------------------------------------------------------------------

/// The index of the first `>` in `m` from index `j` on (`m.len()` when there
/// is none).
pub open spec fn gt_index(m: Seq<char>, j: int) -> int
    decreases m.len() - j,
{
    if j < 0 || j >= m.len() {
        m.len() as int
    } else if m[j] == '>' {
        j
    } else {
        gt_index(m, j + 1)
    }
}

pub proof fn lemma_gt_index_bounds(m: Seq<char>, j: int)
    requires
        0 <= j,
    ensures
        j <= gt_index(m, j) <= m.len() || (j > m.len() && gt_index(m, j) == m.len()),
    decreases m.len() - j,
{
    if j < m.len() && m[j] != '>' {
        lemma_gt_index_bounds(m, j + 1);
    }
}

/// What a tag with the text `body` between `<` and `>` does to the stack of
/// open elements (`true` for `<b>`, `false` for a `<span>`): `b` and `span ...`
/// open one, `/b` and `/span` close the innermost one if it is of their kind.
/// Any other tag, or a closing tag that does not match, is an error.
pub open spec fn tag_effect(body: Seq<char>, open: Seq<bool>) -> Option<Seq<bool>> {
    if body == "b"@ {
        Some(open.push(true))
    } else if body == "/b"@ {
        if open.len() > 0 && open.last() {
            Some(open.drop_last())
        } else {
            None
        }
    } else if body == "/span"@ {
        if open.len() > 0 && !open.last() {
            Some(open.drop_last())
        } else {
            None
        }
    } else if body.len() >= 5 && body.take(5) == "span "@ {
        Some(open.push(false))
    } else {
        None
    }
}

/// Reads the tags of markup `m` with the elements `open` already open: the
/// elements open at its end, or `None` when a tag is unknown, unterminated or
/// closes an element that is not the innermost open one.
pub open spec fn tag_scan(m: Seq<char>, open: Seq<bool>) -> Option<Seq<bool>>
    decreases m.len(),
{
    if m.len() == 0 {
        Some(open)
    } else if m[0] != '<' {
        tag_scan(m.skip(1), open)
    } else {
        let k = gt_index(m, 1);
        proof {
            lemma_gt_index_bounds(m, 1);
        }
        if k >= m.len() {
            None
        } else {
            match tag_effect(m.subrange(1, k), open) {
                Some(o2) => tag_scan(m.skip(k + 1), o2),
                None => None,
            }
        }
    }
}

/// Markup whose tags are balanced and properly nested.
pub open spec fn well_nested(m: Seq<char>) -> bool {
    tag_scan(m, Seq::empty()) == Some(Seq::<bool>::empty())
}

/// Reading `m` from stack `o1` ends with stack `o2`.
pub open spec fn goes(m: Seq<char>, o1: Seq<bool>, o2: Seq<bool>) -> bool {
    tag_scan(m, o1) == Some(o2)
}

proof fn lemma_gt_index_concat(a: Seq<char>, b: Seq<char>, j: int)
    requires
        0 <= j,
        gt_index(a, j) < a.len(),
    ensures
        gt_index(a + b, j) == gt_index(a, j),
    decreases a.len() - j,
{
    assert((a + b)[j] == a[j]);
    if a[j] != '>' {
        lemma_gt_index_concat(a, b, j + 1);
    }
}

proof fn lemma_scan_concat(a: Seq<char>, b: Seq<char>, o: Seq<bool>)
    requires
        tag_scan(a, o) is Some,
    ensures
        tag_scan(a + b, o) == tag_scan(b, tag_scan(a, o)->0),
    decreases a.len(),
{
    if a.len() == 0 {
        assert(a + b =~= b);
    } else {
        assert((a + b)[0] == a[0]);
        if a[0] != '<' {
            assert((a + b).skip(1) =~= a.skip(1) + b);
            lemma_scan_concat(a.skip(1), b, o);
        } else {
            let k = gt_index(a, 1);
            lemma_gt_index_bounds(a, 1);
            lemma_gt_index_concat(a, b, 1);
            assert((a + b).subrange(1, k) =~= a.subrange(1, k));
            assert((a + b).skip(k + 1) =~= a.skip(k + 1) + b);
            let o2 = tag_effect(a.subrange(1, k), o)->0;
            lemma_scan_concat(a.skip(k + 1), b, o2);
        }
    }
}

/// Reading two pieces one after the other.
proof fn lemma_goes_concat(a: Seq<char>, b: Seq<char>, o1: Seq<bool>, o2: Seq<bool>, o3: Seq<bool>)
    requires
        goes(a, o1, o2),
        goes(b, o2, o3),
    ensures
        goes(a + b, o1, o3),
{
    lemma_scan_concat(a, b, o1);
}

/// Text without `<` leaves the open elements as they are.
proof fn lemma_goes_plain(m: Seq<char>, o: Seq<bool>)
    requires
        forall|k: int| 0 <= k < m.len() ==> m[k] != '<',
    ensures
        goes(m, o, o),
    decreases m.len(),
{
    if m.len() > 0 {
        assert(m[0] != '<');
        lemma_goes_plain(m.skip(1), o);
    }
}

proof fn lemma_goes_empty(o: Seq<bool>)
    ensures
        goes(Seq::<char>::empty(), o, o),
{
}

proof fn lemma_goes_char(c: char, o: Seq<bool>)
    ensures
        goes(pango_char(c), o, o),
{
    reveal_strlit("&amp;");
    reveal_strlit("&lt;");
    reveal_strlit("&gt;");
    lemma_goes_plain(pango_char(c), o);
}

/// A tag `<body>` where `body` holds no `>`.
proof fn lemma_goes_tag(body: Seq<char>, o: Seq<bool>)
    requires
        forall|k: int| 0 <= k < body.len() ==> body[k] != '>',
        tag_effect(body, o) is Some,
    ensures
        goes(seq!['<'] + body + seq!['>'], o, tag_effect(body, o)->0),
{
    let m = seq!['<'] + body + seq!['>'];
    let n: int = body.len() as int + 1;
    assert forall|t: int| 1 <= t < n implies m[t] != '>' by {
        assert(m[t] == body[t - 1]);
    }
    lemma_gt_index_at(m, 1, n);
    assert(m[0] == '<');
    assert(m.len() == n + 1);
    assert(m.subrange(1, n) =~= body);
    assert(m.skip(n + 1) =~= Seq::<char>::empty());
    let o2 = tag_effect(body, o)->0;
    assert(tag_scan(Seq::<char>::empty(), o2) == Some(o2));
}

proof fn lemma_gt_index_at(m: Seq<char>, j: int, k: int)
    requires
        0 <= j <= k < m.len(),
        m[k] == '>',
        forall|t: int| j <= t < k ==> m[t] != '>',
    ensures
        gt_index(m, j) == k,
    decreases k - j,
{
    if j < k {
        lemma_gt_index_at(m, j + 1, k);
    }
}

proof fn lemma_goes_open_bold(o: Seq<bool>)
    ensures
        goes("<b>"@, o, o.push(true)),
{
    reveal_strlit("<b>");
    reveal_strlit("b");
    assert("<b>"@ =~= seq!['<'] + "b"@ + seq!['>']);
    lemma_goes_tag("b"@, o);
}

proof fn lemma_goes_close_bold(o: Seq<bool>)
    requires
        o.len() > 0,
        o.last(),
    ensures
        goes("</b>"@, o, o.drop_last()),
{
    reveal_strlit("</b>");
    reveal_strlit("/b");
    reveal_strlit("b");
    assert("</b>"@ =~= seq!['<'] + "/b"@ + seq!['>']);
    lemma_goes_tag("/b"@, o);
}

proof fn lemma_goes_close_span(o: Seq<bool>)
    requires
        o.len() > 0,
        !o.last(),
    ensures
        goes("</span>"@, o, o.drop_last()),
{
    reveal_strlit("</span>");
    reveal_strlit("/span");
    reveal_strlit("b");
    reveal_strlit("/b");
    assert("</span>"@ =~= seq!['<'] + "/span"@ + seq!['>']);
    lemma_goes_tag("/span"@, o);
}

/// A colour text that can stand inside a span's opening tag.
pub open spec fn gt_free(h: Seq<char>) -> bool {
    forall|k: int| 0 <= k < h.len() ==> h[k] != '>'
}

proof fn lemma_goes_open_color(hex: Seq<char>, o: Seq<bool>)
    requires
        gt_free(hex),
    ensures
        goes(open_color(hex), o, o.push(false)),
{
    reveal_strlit("<span foreground=\"");
    reveal_strlit("\">");
    reveal_strlit("span ");
    reveal_strlit("b");
    reveal_strlit("/b");
    reveal_strlit("/span");
    let pre = "<span foreground=\""@;
    let post = "\">"@;
    assert(pre.len() == 18);
    assert(pre[0] == '<');
    assert(post =~= seq!['"', '>']);
    let body = pre.skip(1) + hex + seq!['"'];
    assert(open_color(hex) =~= seq!['<'] + body + seq!['>']);
    assert(body.take(5) =~= "span "@) by {
        assert forall|k: int| 0 <= k < 5 implies body[k] == "span "@[k] by {
            assert(body[k] == pre[k + 1]);
        }
    }
    assert(body.len() >= 5);
    assert(body != "b"@);
    assert(body != "/b"@);
    assert(body != "/span"@) by {
        assert(body[0] != "/span"@[0]);
    }
    assert forall|k: int| 0 <= k < body.len() implies body[k] != '>' by {
        if k < 17 {
            assert(body[k] == pre[k + 1]);
        } else if k < 17 + hex.len() {
            assert(body[k] == hex[k - 17]);
        }
    }
    lemma_goes_tag(body, o);
}

/// The stack of open elements of a state, outermost first.
pub open spec fn stack_of(st: OpenTags) -> Seq<bool> {
    if st.bold && st.color is Some {
        if st.bold_first {
            seq![true, false]
        } else {
            seq![false, true]
        }
    } else if st.bold {
        seq![true]
    } else if st.color is Some {
        seq![false]
    } else {
        Seq::empty()
    }
}

proof fn lemma_close_all_nested(st: OpenTags)
    ensures
        goes(close_all(st), stack_of(st), Seq::empty()),
{
    let o = stack_of(st);
    if st.bold && st.bold_first {
        if st.color is Some {
            lemma_goes_close_span(o);
            assert(o.drop_last() =~= seq![true]);
            lemma_goes_close_bold(seq![true]);
            assert(seq![true].drop_last() =~= Seq::<bool>::empty());
            lemma_goes_concat("</span>"@, "</b>"@, o, seq![true], Seq::empty());
        } else {
            lemma_goes_close_bold(o);
            assert(o.drop_last() =~= Seq::<bool>::empty());
            assert(close_all(st) =~= Seq::<char>::empty() + "</b>"@);
        }
    } else if st.bold {
        if st.color is Some {
            lemma_goes_close_bold(o);
            assert(o.drop_last() =~= seq![false]);
            lemma_goes_close_span(seq![false]);
            assert(seq![false].drop_last() =~= Seq::<bool>::empty());
            lemma_goes_concat("</b>"@, "</span>"@, o, seq![false], Seq::empty());
        } else {
            lemma_goes_close_bold(o);
            assert(o.drop_last() =~= Seq::<bool>::empty());
            assert(close_all(st) =~= "</b>"@ + Seq::<char>::empty());
        }
    } else if st.color is Some {
        lemma_goes_close_span(o);
        assert(o.drop_last() =~= Seq::<bool>::empty());
        assert(close_all(st) =~= Seq::<char>::empty() + "</span>"@);
    } else {
        assert(close_all(st) =~= Seq::<char>::empty());
        lemma_goes_empty(o);
    }
}

proof fn lemma_bold_on_nested(st: OpenTags)
    ensures
        goes(bold_on(st).0, stack_of(st), stack_of(bold_on(st).1)),
{
    let o = stack_of(st);
    if st.bold {
        lemma_goes_empty(o);
    } else {
        lemma_goes_open_bold(o);
        assert(o.push(true) =~= stack_of(bold_on(st).1));
    }
}

/// The colour of an open span can stand inside its opening tag.
pub open spec fn color_ok(st: OpenTags) -> bool {
    st.color is Some ==> gt_free(st.color->0)
}

proof fn lemma_bold_off_nested(st: OpenTags)
    requires
        color_ok(st),
    ensures
        goes(bold_off(st).0, stack_of(st), stack_of(bold_off(st).1)),
{
    let o = stack_of(st);
    if !st.bold {
        lemma_goes_empty(o);
    } else if st.color is Some && st.bold_first {
        let hex = st.color->0;
        lemma_goes_close_span(o);
        assert(o.drop_last() =~= seq![true]);
        lemma_goes_close_bold(seq![true]);
        assert(seq![true].drop_last() =~= Seq::<bool>::empty());
        lemma_goes_concat("</span>"@, "</b>"@, o, seq![true], Seq::empty());
        reveal_strlit("</span></b>");
        reveal_strlit("</span>");
        reveal_strlit("</b>");
        assert("</span></b>"@ =~= "</span>"@ + "</b>"@);
        lemma_goes_open_color(hex, Seq::empty());
        assert(Seq::<bool>::empty().push(false) =~= seq![false]);
        lemma_goes_concat("</span></b>"@, open_color(hex), o, Seq::empty(), seq![false]);
    } else {
        lemma_goes_close_bold(o);
        assert(o.drop_last() =~= stack_of(bold_off(st).1));
    }
}

proof fn lemma_uncolor_nested(st: OpenTags)
    ensures
        goes(uncolor(st).0, stack_of(st), stack_of(uncolor(st).1)),
{
    let o = stack_of(st);
    if st.color is None {
        lemma_goes_empty(o);
    } else if bold_inside(st) {
        lemma_goes_close_bold(o);
        assert(o.drop_last() =~= seq![false]);
        lemma_goes_close_span(seq![false]);
        assert(seq![false].drop_last() =~= Seq::<bool>::empty());
        lemma_goes_concat("</b>"@, "</span>"@, o, seq![false], Seq::empty());
        lemma_goes_open_bold(Seq::empty());
        assert(Seq::<bool>::empty().push(true) =~= seq![true]);
        lemma_goes_concat("</b>"@ + "</span>"@, "<b>"@, o, Seq::empty(), seq![true]);
        reveal_strlit("</b></span><b>");
        reveal_strlit("</b>");
        reveal_strlit("</span>");
        reveal_strlit("<b>");
        assert("</b></span><b>"@ =~= "</b>"@ + "</span>"@ + "<b>"@);
    } else {
        lemma_goes_close_span(o);
        assert(o.drop_last() =~= stack_of(uncolor(st).1));
    }
}

proof fn lemma_recolor_nested(st: OpenTags, hex: Seq<char>)
    requires
        gt_free(hex),
    ensures
        goes(recolor(st, hex).0, stack_of(st), stack_of(recolor(st, hex).1)),
        color_ok(recolor(st, hex).1),
{
    let o = stack_of(st);
    if st.color is None {
        lemma_goes_open_color(hex, o);
        assert(o.push(false) =~= stack_of(recolor(st, hex).1));
    } else if bold_inside(st) {
        lemma_goes_close_bold(o);
        assert(o.drop_last() =~= seq![false]);
        lemma_goes_close_span(seq![false]);
        assert(seq![false].drop_last() =~= Seq::<bool>::empty());
        lemma_goes_concat("</b>"@, "</span>"@, o, seq![false], Seq::empty());
        reveal_strlit("</b></span>");
        reveal_strlit("</b>");
        reveal_strlit("</span>");
        assert("</b></span>"@ =~= "</b>"@ + "</span>"@);
        lemma_goes_open_color(hex, Seq::empty());
        assert(Seq::<bool>::empty().push(false) =~= seq![false]);
        lemma_goes_concat("</b></span>"@, open_color(hex), o, Seq::empty(), seq![false]);
        lemma_goes_open_bold(seq![false]);
        assert(seq![false].push(true) =~= seq![false, true]);
        lemma_goes_concat("</b></span>"@ + open_color(hex), "<b>"@, o, seq![false], seq![false, true]);
    } else {
        lemma_goes_close_span(o);
        let o2 = o.drop_last();
        lemma_goes_open_color(hex, o2);
        lemma_goes_concat("</span>"@, open_color(hex), o, o2, o2.push(false));
        assert(o2.push(false) =~= stack_of(recolor(st, hex).1));
    }
}

proof fn lemma_hex_rgb_gt_free(r: u8, g: u8, b: u8)
    ensures
        gt_free(hex_rgb(r, g, b)),
{
    let h = hex_rgb(r, g, b);
    assert forall|k: int| 0 <= k < h.len() implies h[k] != '>' by {
        if k > 0 {
            let x = if k <= 2 { r } else if k <= 4 { g } else { b };
            let d = if k % 2 == 1 { (x / 16) as nat } else { (x % 16) as nat };
            assert(h[k] == hex_digit(d));
        }
    }
}

proof fn lemma_standard_hex_gt_free(code: u32)
    ensures
        gt_free(standard_hex(code)),
{
    reveal_strlit("#000000");
    reveal_strlit("#cd0000");
    reveal_strlit("#00cd00");
    reveal_strlit("#cdcd00");
    reveal_strlit("#0000ee");
    reveal_strlit("#cd00cd");
    reveal_strlit("#00cdcd");
    reveal_strlit("#e5e5e5");
    reveal_strlit("#7f7f7f");
    reveal_strlit("#ff5555");
    reveal_strlit("#50fa7b");
    reveal_strlit("#f1fa8c");
    reveal_strlit("#bd93f9");
    reveal_strlit("#ff79c6");
    reveal_strlit("#8be9fd");
    reveal_strlit("#ffffff");
    reveal_strlit("#cdd6f4");
}

proof fn lemma_palette_hex_gt_free(idx: u8)
    ensures
        gt_free(palette_hex(idx)),
{
    if idx < 16 {
        reveal_strlit("#000000");
        reveal_strlit("#cd0000");
        reveal_strlit("#00cd00");
        reveal_strlit("#cdcd00");
        reveal_strlit("#0000ee");
        reveal_strlit("#cd00cd");
        reveal_strlit("#00cdcd");
        reveal_strlit("#e5e5e5");
        reveal_strlit("#7f7f7f");
        reveal_strlit("#ff0000");
        reveal_strlit("#00ff00");
        reveal_strlit("#ffff00");
        reveal_strlit("#5c5cff");
        reveal_strlit("#ff00ff");
        reveal_strlit("#00ffff");
        reveal_strlit("#ffffff");
    } else if idx <= 231 {
        let o = idx - 16;
        lemma_hex_rgb_gt_free(cube_level(o / 36), cube_level((o % 36) / 6), cube_level(o % 6));
    } else {
        let gray = (8 + (idx - 232) * 10) as u8;
        lemma_hex_rgb_gt_free(gray, gray, gray);
    }
}

proof fn lemma_code_step_nested(parts: Seq<u32>, p: int, st: OpenTags)
    requires
        0 <= p < parts.len(),
        color_ok(st),
    ensures
        goes(code_step(parts, p, st).0, stack_of(st), stack_of(code_step(parts, p, st).1)),
        color_ok(code_step(parts, p, st).1),
{
    let code = parts[p];
    if code == 0 {
        lemma_close_all_nested(st);
        assert(stack_of(plain_state()) =~= Seq::<bool>::empty());
    } else if code == 1 {
        lemma_bold_on_nested(st);
    } else if code == 22 {
        lemma_bold_off_nested(st);
    } else if code == 39 {
        lemma_uncolor_nested(st);
    } else if (30 <= code <= 37) || (90 <= code <= 97) {
        lemma_standard_hex_gt_free(code);
        lemma_recolor_nested(st, standard_hex(code));
    } else if code == 38 && p + 4 < parts.len() && parts[p + 1] == 2 {
        let (r, g, b) = ((parts[p + 2] % 256) as u8, (parts[p + 3] % 256) as u8, (parts[p + 4] % 256) as u8);
        lemma_hex_rgb_gt_free(r, g, b);
        lemma_recolor_nested(st, hex_rgb(r, g, b));
    } else if code == 38 && p + 2 < parts.len() && parts[p + 1] == 5 {
        lemma_palette_hex_gt_free((parts[p + 2] % 256) as u8);
        lemma_recolor_nested(st, palette_hex((parts[p + 2] % 256) as u8));
    } else {
        lemma_goes_empty(stack_of(st));
    }
}

proof fn lemma_apply_codes_nested(parts: Seq<u32>, p: int, st: OpenTags)
    requires
        0 <= p,
        color_ok(st),
    ensures
        goes(apply_codes(parts, p, st).0, stack_of(st), stack_of(apply_codes(parts, p, st).1)),
        color_ok(apply_codes(parts, p, st).1),
    decreases parts.len() - p,
{
    if p < parts.len() {
        let step = code_step(parts, p, st);
        lemma_code_step_nested(parts, p, st);
        lemma_apply_codes_nested(parts, step.2, step.1);
        let rest = apply_codes(parts, step.2, step.1);
        lemma_goes_concat(step.0, rest.0, stack_of(st), stack_of(step.1), stack_of(rest.1));
    } else {
        lemma_goes_empty(stack_of(st));
    }
}

proof fn lemma_sgr_nested(params: Seq<char>, st: OpenTags)
    requires
        color_ok(st),
    ensures
        goes(sgr(params, st).0, stack_of(st), stack_of(sgr(params, st).1)),
        color_ok(sgr(params, st).1),
{
    if params.len() == 0 || params == seq!['0'] {
        lemma_close_all_nested(st);
        assert(stack_of(plain_state()) =~= Seq::<bool>::empty());
    } else {
        lemma_apply_codes_nested(codes_from(params, Seq::empty()), 0, st);
    }
}

proof fn lemma_render_nested(s: Seq<char>, i: int, st: OpenTags)
    requires
        color_ok(st),
    ensures
        goes(render_from(s, i, st), stack_of(st), Seq::empty()),
    decreases s.len() - i,
{
    if i < 0 || i >= s.len() {
        lemma_close_all_nested(st);
    } else if s[i] == '\x1b' && i + 1 < s.len() && s[i + 1] == '[' {
        let j = esc_end(s, i + 2);
        lemma_esc_end_bounds(s, i + 2);
        if j >= s.len() {
            lemma_close_all_nested(st);
        } else if s[j] == 'm' {
            let r = sgr(s.subrange(i + 2, j), st);
            lemma_sgr_nested(s.subrange(i + 2, j), st);
            lemma_render_nested(s, j + 1, r.1);
            lemma_goes_concat(r.0, render_from(s, j + 1, r.1), stack_of(st), stack_of(r.1), Seq::empty());
        } else {
            lemma_render_nested(s, j + 1, st);
        }
    } else {
        lemma_goes_char(s[i], stack_of(st));
        lemma_render_nested(s, i + 1, st);
        lemma_goes_concat(pango_char(s[i]), render_from(s, i + 1, st), stack_of(st), stack_of(st), Seq::empty());
    }
}

/// The markup made of any text has its tags balanced and properly nested:
/// every element is closed, innermost first.
pub proof fn law_markup_is_well_nested(s: Seq<char>)
    ensures
        well_nested(pango_markup(s)),
{
    assert(stack_of(plain_state()) =~= Seq::<bool>::empty());
    lemma_render_nested(s, 0, plain_state());
}

/// The standard code a colour of the standard codes belongs to, told by its
/// red, green and blue high digits.
spec fn standard_code_of(h: Seq<char>) -> int {
    if (h[1], h[3], h[5]) == ('0', '0', '0') {
        30
    } else if (h[1], h[3], h[5]) == ('c', '0', '0') {
        31
    } else if (h[1], h[3], h[5]) == ('0', 'c', '0') {
        32
    } else if (h[1], h[3], h[5]) == ('c', 'c', '0') {
        33
    } else if (h[1], h[3], h[5]) == ('0', '0', 'e') {
        34
    } else if (h[1], h[3], h[5]) == ('c', '0', 'c') {
        35
    } else if (h[1], h[3], h[5]) == ('0', 'c', 'c') {
        36
    } else if (h[1], h[3], h[5]) == ('e', 'e', 'e') {
        37
    } else if (h[1], h[3], h[5]) == ('7', '7', '7') {
        90
    } else if (h[1], h[3], h[5]) == ('f', '5', '5') {
        91
    } else if (h[1], h[3], h[5]) == ('5', 'f', '7') {
        92
    } else if (h[1], h[3], h[5]) == ('f', 'f', '8') {
        93
    } else if (h[1], h[3], h[5]) == ('b', '9', 'f') {
        94
    } else if (h[1], h[3], h[5]) == ('f', '7', 'c') {
        95
    } else if (h[1], h[3], h[5]) == ('8', 'e', 'f') {
        96
    } else if (h[1], h[3], h[5]) == ('f', 'f', 'f') {
        97
    } else {
        0
    }
}

/// Whether `code` is one of the sixteen standard foreground codes.
pub open spec fn is_standard_code(code: u32) -> bool {
    (30 <= code <= 37) || (90 <= code <= 97)
}

proof fn lemma_standard_code_of(code: u32)
    requires
        is_standard_code(code),
    ensures
        standard_code_of(standard_hex(code)) == code,
{
    if code == 30 {
        reveal_strlit("#000000");
    } else if code == 31 {
        reveal_strlit("#cd0000");
    } else if code == 32 {
        reveal_strlit("#00cd00");
    } else if code == 33 {
        reveal_strlit("#cdcd00");
    } else if code == 34 {
        reveal_strlit("#0000ee");
    } else if code == 35 {
        reveal_strlit("#cd00cd");
    } else if code == 36 {
        reveal_strlit("#00cdcd");
    } else if code == 37 {
        reveal_strlit("#e5e5e5");
    } else if code == 90 {
        reveal_strlit("#7f7f7f");
    } else if code == 91 {
        reveal_strlit("#ff5555");
    } else if code == 92 {
        reveal_strlit("#50fa7b");
    } else if code == 93 {
        reveal_strlit("#f1fa8c");
    } else if code == 94 {
        reveal_strlit("#bd93f9");
    } else if code == 95 {
        reveal_strlit("#ff79c6");
    } else if code == 96 {
        reveal_strlit("#8be9fd");
    } else if code == 97 {
        reveal_strlit("#ffffff");
    }
}

/// The eight standard foreground codes 30–37 show the first eight colours of
/// the 256-colour palette, in order, and no two of the sixteen standard codes
/// share a colour.
pub proof fn law_standard_colors_follow_the_palette(a: u32, b: u32)
    requires
        is_standard_code(a),
        is_standard_code(b),
    ensures
        a <= 37 ==> standard_hex(a) == palette_hex((a - 30) as u8),
        a != b ==> standard_hex(a) != standard_hex(b),
{
    lemma_standard_code_of(a);
    lemma_standard_code_of(b);
}

} // verus!
