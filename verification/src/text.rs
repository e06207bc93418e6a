use vstd::prelude::*;

verus! {

broadcast use vstd::string::group_string_axioms;

// ---------------------------------------------------------------------------
// Character classes that std decides by Unicode tables.
// ---------------------------------------------------------------------------

/// Whether a character beyond ASCII has the Unicode `Alphabetic` property
/// (as `char::is_alphabetic` decides).
pub uninterp spec fn alphabetic_beyond_ascii(c: char) -> bool;

/// Whether a character beyond ASCII is alphabetic or numeric in Unicode's
/// sense (as `char::is_alphanumeric` decides).
pub uninterp spec fn alphanumeric_beyond_ascii(c: char) -> bool;

pub open spec fn is_ascii_letter(c: char) -> bool {
    ('a' <= c && c <= 'z') || ('A' <= c && c <= 'Z')
}

pub open spec fn is_ascii_digit(c: char) -> bool {
    '0' <= c && c <= '9'
}

/// The characters with the Unicode `White_Space` property: tab through
/// carriage return, space, next line, no-break space, ogham space mark, the
/// spaces from en quad to hair space, line and paragraph separator, narrow
/// no-break space, medium mathematical space and ideographic space.
pub open spec fn unicode_whitespace(c: char) -> bool {
    ||| c == ' '
    ||| ('\t' <= c && c <= '\r')
    ||| c == '\u{85}'
    ||| c == '\u{a0}'
    ||| c == '\u{1680}'
    ||| ('\u{2000}' <= c && c <= '\u{200a}')
    ||| c == '\u{2028}'
    ||| c == '\u{2029}'
    ||| c == '\u{202f}'
    ||| c == '\u{205f}'
    ||| c == '\u{3000}'
}

/// Alphabetic: among ASCII characters the letters.
pub open spec fn unicode_alphabetic(c: char) -> bool {
    if (c as u32) < 128 {
        is_ascii_letter(c)
    } else {
        alphabetic_beyond_ascii(c)
    }
}

/// Alphanumeric: among ASCII characters the letters and digits.
pub open spec fn unicode_alphanumeric(c: char) -> bool {
    if (c as u32) < 128 {
        is_ascii_letter(c) || is_ascii_digit(c)
    } else {
        alphanumeric_beyond_ascii(c)
    }
}

/// Whether `c` has the Unicode `White_Space` property (what
/// `char::is_whitespace` answers).
pub(crate) fn is_whitespace(c: char) -> (r: bool)
    ensures
        r == unicode_whitespace(c),
{
    c == ' ' || ('\t' <= c && c <= '\r') || c == '\u{85}' || c == '\u{a0}' || c == '\u{1680}' || ('\u{2000}' <= c
        && c <= '\u{200a}') || c == '\u{2028}' || c == '\u{2029}' || c == '\u{202f}' || c == '\u{205f}' || c
        == '\u{3000}'
}

/// `char::is_alphabetic`: whether `c` has the `Alphabetic` property; among
/// ASCII characters exactly the letters. Beyond ASCII the answer is named, not stated.
#[verifier::external_body]
pub(crate) fn is_alphabetic(c: char) -> (r: bool)
    ensures
        (c as u32) < 128 ==> r == is_ascii_letter(c),
        (c as u32) >= 128 ==> r == alphabetic_beyond_ascii(c),
{
    c.is_alphabetic()
}

/// `char::is_alphanumeric`: alphabetic or numeric; among ASCII characters
/// exactly letters and digits. Beyond ASCII the answer is named, not stated.
#[verifier::external_body]
pub(crate) fn is_alphanumeric(c: char) -> (r: bool)
    ensures
        (c as u32) < 128 ==> r == (is_ascii_letter(c) || is_ascii_digit(c)),
        (c as u32) >= 128 ==> r == alphanumeric_beyond_ascii(c),
{
    c.is_alphanumeric()
}

/// `String::push`: appends one character.
#[verifier::external_body]
pub(crate) fn push_char(s: &mut String, c: char)
    ensures
        final(s)@ == old(s)@.push(c),
{
    s.push(c);
}

/// What `str::to_lowercase` gives for a text that is not all ASCII (std's
/// Unicode case tables decide it).
pub uninterp spec fn lowercase_beyond_ascii(s: Seq<char>) -> Seq<char>;

/// Whether every character of `s` is ASCII.
pub open spec fn all_ascii(s: Seq<char>) -> bool {
    forall|i: int| 0 <= i < s.len() ==> (s[i] as u32) < 128
}

/// An ASCII capital letter made small; any other character as it is.
pub open spec fn ascii_lowercase(c: char) -> char {
    if 'A' <= c && c <= 'Z' {
        ((c as u32) + 32) as char
    } else {
        c
    }
}

/// A text in small letters, as `str::to_lowercase` gives it: on an ASCII
/// text every capital letter becomes its small letter and every other
/// character stays; beyond ASCII the result is named, not stated.
pub open spec fn lowercase_text(s: Seq<char>) -> Seq<char> {
    if all_ascii(s) {
        s.map_values(|c: char| ascii_lowercase(c))
    } else {
        lowercase_beyond_ascii(s)
    }
}

/// `str::to_lowercase`. Claimed: on an ASCII text every capital letter
/// becomes its small letter and every other character stays; on any other
/// text the result is `lowercase_beyond_ascii` of it, which is not stated.
#[verifier::external_body]
pub(crate) fn to_lowercase(s: &str) -> (r: String)
    ensures
        all_ascii(s@) ==> r@ == s@.map_values(|c: char| ascii_lowercase(c)),
        !all_ascii(s@) ==> r@ == lowercase_beyond_ascii(s@),
        r@ == lowercase_text(s@),
{
    s.to_lowercase()
}

// ---------------------------------------------------------------------------
// Conversions between texts and character vectors.
// ---------------------------------------------------------------------------

/// The characters of a text, in order.
pub fn to_chars(s: &str) -> (v: Vec<char>)
    ensures
        v@ == s@,
{
    let mut v: Vec<char> = Vec::new();
    for c in it: s.chars()
        invariant
            v@ == it.seq().take(it.index() as int),
    {
        v.push(c);
    }
    v
}

/// Appends characters `from..to` of `v` to `out`.
pub fn push_range(out: &mut String, v: &Vec<char>, from: usize, to: usize)
    requires
        from <= to <= v@.len(),
    ensures
        final(out)@ == old(out)@ + v@.subrange(from as int, to as int),
{
    let mut k = from;
    while k < to
        invariant
            from <= k <= to <= v@.len(),
            out@ == old(out)@ + v@.subrange(from as int, k as int),
        decreases to - k,
    {
        push_char(out, v[k]);
        proof {
            assert(v@.subrange(from as int, k + 1) =~= v@.subrange(from as int, k as int).push(v@[k as int]));
        }
        k = k + 1;
    }
}

/// A text equal to `s`.
pub fn copy_str(s: &str) -> (r: String)
    ensures
        r@ == s@,
{
    let mut r = String::new();
    r.append(s);
    r
}

// ---------------------------------------------------------------------------
// Decimal and hexadecimal numerals.
// ---------------------------------------------------------------------------

pub open spec fn digit_char(d: nat) -> char
    recommends
        d < 10,
{
    (48 + d) as char
}

/// The decimal numeral of `n`, as `{}` prints it: no sign, no leading zeros.
pub open spec fn dec(n: nat) -> Seq<char>
    decreases n,
{
    if n < 10 {
        seq![digit_char(n)]
    } else {
        dec(n / 10).push(digit_char(n % 10))
    }
}

pub open spec fn zeros(k: nat) -> Seq<char> {
    Seq::new(k, |i: int| '0')
}

/// `s` padded on the left with zeros up to `width` characters.
pub open spec fn pad_zero(s: Seq<char>, width: nat) -> Seq<char> {
    if s.len() >= width {
        s
    } else {
        zeros((width - s.len()) as nat) + s
    }
}

/// A signed integer as `{:0w$}` prints it: the sign first, then the digits
/// padded with zeros so that sign and digits together take `width` characters.
pub open spec fn dec_signed_padded(v: int, width: nat) -> Seq<char> {
    if v < 0 {
        seq!['-'] + pad_zero(dec((-v) as nat), if width >= 1 { (width - 1) as nat } else { 0 })
    } else {
        pad_zero(dec(v as nat), width)
    }
}

pub proof fn lemma_dec_len_pos(n: nat)
    ensures
        dec(n).len() >= 1,
    decreases n,
{
    if n >= 10 {
        lemma_dec_len_pos(n / 10);
    }
}

pub open spec fn pow10(k: nat) -> nat
    decreases k,
{
    if k == 0 {
        1
    } else {
        10 * pow10((k - 1) as nat)
    }
}

pub proof fn lemma_dec_len_bound(n: nat, k: nat)
    requires
        n < pow10(k),
        k >= 1,
    ensures
        dec(n).len() <= k,
    decreases n,
{
    if n >= 10 {
        assert(k >= 1) by {
            if k == 0 {
                assert(pow10(0) == 1);
            }
        }
        assert(k >= 2) by {
            if k == 1 {
                assert(pow10(1) == 10 * pow10(0));
            }
        }
        let p = pow10((k - 1) as nat);
        assert(n / 10 < p) by (nonlinear_arith)
            requires
                n < 10 * p,
        ;
        lemma_dec_len_bound(n / 10, (k - 1) as nat);
    } else {
        if k == 0 {
            assert(pow10(0) == 1);
        }
    }
}

/// Appends the decimal numeral of `n`.
pub fn push_dec(out: &mut String, n: u64)
    ensures
        final(out)@ == old(out)@ + dec(n as nat),
    decreases n,
{
    if n >= 10 {
        push_dec(out, n / 10);
    }
    let d = (n % 10) as u8;
    let c = (48u8 + d) as char;
    proof {
        assert(c == digit_char((n % 10) as nat));
    }
    push_char(out, c);
    proof {
        if n >= 10 {
            assert(dec(n as nat) == dec((n / 10) as nat).push(digit_char((n % 10) as nat)));
        }
    }
}

/// Appends `k` zeros.
pub fn push_zeros(out: &mut String, k: usize)
    ensures
        final(out)@ == old(out)@ + zeros(k as nat),
{
    let mut i: usize = 0;
    while i < k
        invariant
            i <= k,
            out@ == old(out)@ + zeros(i as nat),
        decreases k - i,
    {
        push_char(out, '0');
        proof {
            assert(zeros((i + 1) as nat) =~= zeros(i as nat).push('0'));
        }
        i = i + 1;
    }
}

/// The number of decimal digits of `n`.
pub fn dec_len(n: u64) -> (r: usize)
    ensures
        r == dec(n as nat).len(),
        r <= 20,
    decreases n,
{
    if n < 10 {
        1
    } else {
        let r = dec_len(n / 10);
        proof {
            reveal_with_fuel(pow10, 20);
            assert(pow10(19) == 10000000000000000000nat);
            lemma_dec_len_bound((n / 10) as nat, 19);
        }
        r + 1
    }
}

/// Appends `v` as `{:0width$}` prints it.
pub fn push_signed_padded(out: &mut String, v: i64, width: usize)
    ensures
        final(out)@ == old(out)@ + dec_signed_padded(v as int, width as nat),
{
    if v < 0 {
        push_char(out, '-');
        let mag: u64 = ((-(v as i128)) as u64);
        let w = if width >= 1 { width - 1 } else { 0 };
        let len = dec_len(mag);
        if len < w {
            push_zeros(out, w - len);
        }
        push_dec(out, mag);
        proof {
            assert(out@ =~= old(out)@ + dec_signed_padded(v as int, width as nat));
        }
    } else {
        let mag: u64 = v as u64;
        let len = dec_len(mag);
        if len < width {
            push_zeros(out, width - len);
        }
        push_dec(out, mag);
        proof {
            assert(out@ =~= old(out)@ + dec_signed_padded(v as int, width as nat));
        }
    }
}

pub open spec fn hex_digit(d: nat) -> char
    recommends
        d < 16,
{
    if d < 10 {
        (48 + d) as char
    } else {
        (87 + d) as char
    }
}

/// A byte as `{:02x}` prints it.
pub open spec fn hex2(b: u8) -> Seq<char> {
    seq![hex_digit((b / 16) as nat), hex_digit((b % 16) as nat)]
}

/// Appends a byte as two lowercase hexadecimal digits.
pub fn push_hex2(out: &mut String, b: u8)
    ensures
        final(out)@ == old(out)@ + hex2(b),
{
    let hi = b / 16;
    let lo = b % 16;
    let chi = if hi < 10 { (48u8 + hi) as char } else { (87u8 + hi) as char };
    let clo = if lo < 10 { (48u8 + lo) as char } else { (87u8 + lo) as char };
    push_char(out, chi);
    push_char(out, clo);
    proof {
        assert(out@ =~= old(out)@ + hex2(b));
    }
}

/// A colour as `#{:02x}{:02x}{:02x}` prints it.
pub open spec fn hex_rgb(r: u8, g: u8, b: u8) -> Seq<char> {
    seq!['#'] + hex2(r) + hex2(g) + hex2(b)
}

/// Formats a colour as `#rrggbb` with lowercase digits.
pub fn rgb_hex(r: u8, g: u8, b: u8) -> (s: String)
    ensures
        s@ == hex_rgb(r, g, b),
{
    let mut s = String::new();
    push_char(&mut s, '#');
    push_hex2(&mut s, r);
    push_hex2(&mut s, g);
    push_hex2(&mut s, b);
    proof {
        assert(s@ =~= hex_rgb(r, g, b));
    }
    s
}

// ---------------------------------------------------------------------------
// Prefixes, suffixes, substrings, trimming.
// ---------------------------------------------------------------------------

pub open spec fn is_prefix(p: Seq<char>, s: Seq<char>) -> bool {
    p.len() <= s.len() && s.take(p.len() as int) == p
}

pub open spec fn is_suffix(p: Seq<char>, s: Seq<char>) -> bool {
    p.len() <= s.len() && s.skip(s.len() - p.len()) == p
}

/// Whether `p` occurs in `s` starting at index `i`.
pub open spec fn occurs_at(p: Seq<char>, s: Seq<char>, i: int) -> bool {
    0 <= i && i + p.len() <= s.len() && s.subrange(i, i + p.len()) == p
}

pub open spec fn contains_seq(s: Seq<char>, p: Seq<char>) -> bool {
    exists|i: int| occurs_at(p, s, i)
}

/// Whether `p` occurs in `v` at index `i`.
pub fn matches_at(v: &Vec<char>, p: &Vec<char>, i: usize) -> (r: bool)
    ensures
        r == occurs_at(p@, v@, i as int),
{
    if i > v.len() || p.len() > v.len() - i {
        return false;
    }
    let mut k: usize = 0;
    while k < p.len()
        invariant
            i + p@.len() <= v@.len(),
            i + p.len() <= v.len(),
            k <= p@.len(),
            forall|m: int| 0 <= m < k ==> v@[i + m] == p@[m],
        decreases p.len() - k,
    {
        if v[i + k] != p[k] {
            proof {
                assert(v@.subrange(i as int, i + p@.len())[k as int] != p@[k as int]);
            }
            return false;
        }
        k = k + 1;
    }
    proof {
        assert(v@.subrange(i as int, i + p@.len()) =~= p@);
    }
    true
}

/// Whether `s` starts with `p`.
pub fn starts_with(s: &str, p: &str) -> (r: bool)
    ensures
        r == is_prefix(p@, s@),
{
    let v = to_chars(s);
    let pv = to_chars(p);
    let r = matches_at(&v, &pv, 0);
    proof {
        if r {
            assert(v@.subrange(0, pv@.len() as int) =~= v@.take(pv@.len() as int));
        } else if pv@.len() <= v@.len() {
            assert(v@.subrange(0, pv@.len() as int) =~= v@.take(pv@.len() as int));
        }
    }
    r
}

/// Whether `s` ends with `p`.
pub fn ends_with(s: &str, p: &str) -> (r: bool)
    ensures
        r == is_suffix(p@, s@),
{
    let v = to_chars(s);
    let pv = to_chars(p);
    if pv.len() > v.len() {
        return false;
    }
    let start = v.len() - pv.len();
    let r = matches_at(&v, &pv, start);
    proof {
        assert(v@.subrange(start as int, start + pv@.len()) =~= v@.skip(start as int));
    }
    r
}

/// Whether `p` occurs somewhere in `s`.
pub fn contains(s: &str, p: &str) -> (r: bool)
    ensures
        r == contains_seq(s@, p@),
{
    let v = to_chars(s);
    let pv = to_chars(p);
    let mut i: usize = 0;
    while i < v.len()
        invariant
            v@ == s@,
            pv@ == p@,
            i <= v.len(),
            forall|m: int| 0 <= m < i ==> !occurs_at(p@, s@, m),
        decreases v.len() - i,
    {
        if matches_at(&v, &pv, i) {
            return true;
        }
        i = i + 1;
    }
    if matches_at(&v, &pv, i) {
        return true;
    }
    proof {
        assert forall|m: int| !occurs_at(p@, s@, m) by {
            if 0 <= m && m <= i {
            }
        }
    }
    false
}

/// `s` with its first `p.len()` characters dropped when it starts with `p`.
pub fn strip_prefix(s: &str, p: &str) -> (r: Option<String>)
    ensures
        match r {
            Some(t) => is_prefix(p@, s@) && t@ == s@.skip(p@.len() as int),
            None => !is_prefix(p@, s@),
        },
{
    if starts_with(s, p) {
        let v = to_chars(s);
        let pv = to_chars(p);
        let mut t = String::new();
        push_range(&mut t, &v, pv.len(), v.len());
        proof {
            assert(v@.subrange(pv@.len() as int, v@.len() as int) =~= s@.skip(p@.len() as int));
        }
        Some(t)
    } else {
        None
    }
}

/// `s` without leading white space.
pub open spec fn trim_start(s: Seq<char>) -> Seq<char>
    decreases s.len(),
{
    if s.len() > 0 && unicode_whitespace(s[0]) {
        trim_start(s.drop_first())
    } else {
        s
    }
}

/// `s` without trailing white space.
pub open spec fn trim_end(s: Seq<char>) -> Seq<char>
    decreases s.len(),
{
    if s.len() > 0 && unicode_whitespace(s.last()) {
        trim_end(s.drop_last())
    } else {
        s
    }
}

/// `s` without leading and trailing white space, as `str::trim` gives it.
pub open spec fn trimmed(s: Seq<char>) -> Seq<char> {
    trim_end(trim_start(s))
}

proof fn lemma_trim_start_skip(s: Seq<char>, i: int)
    requires
        0 <= i <= s.len(),
        forall|k: int| 0 <= k < i ==> unicode_whitespace(#[trigger] s[k]),
    ensures
        trim_start(s) == trim_start(s.skip(i)),
    decreases i,
{
    if i > 0 {
        assert(s.drop_first().skip(i - 1) =~= s.skip(i));
        assert forall|k: int| 0 <= k < i - 1 implies unicode_whitespace(#[trigger] s.drop_first()[k]) by {
            assert(s.drop_first()[k] == s[k + 1]);
        }
        lemma_trim_start_skip(s.drop_first(), i - 1);
    } else {
        assert(s.skip(0) =~= s);
    }
}

proof fn lemma_trim_end_take(s: Seq<char>, j: int)
    requires
        0 <= j <= s.len(),
        forall|k: int| j <= k < s.len() ==> unicode_whitespace(#[trigger] s[k]),
    ensures
        trim_end(s) == trim_end(s.take(j)),
    decreases s.len() - j,
{
    if j < s.len() {
        assert(s.drop_last().take(j) =~= s.take(j));
        assert forall|k: int| j <= k < s.drop_last().len() implies unicode_whitespace(#[trigger] s.drop_last()[k]) by {
            assert(s.drop_last()[k] == s[k]);
        }
        lemma_trim_end_take(s.drop_last(), j);
    } else {
        assert(s.take(j) =~= s);
    }
}

/// Index range `[a, b)` of `v` left after trimming white space at both ends.
pub fn trim_bounds(v: &Vec<char>, from: usize, to: usize) -> (r: (usize, usize))
    requires
        from <= to <= v@.len(),
    ensures
        from <= r.0 <= r.1 <= to,
        v@.subrange(r.0 as int, r.1 as int) == trimmed(v@.subrange(from as int, to as int)),
{
    let ghost s = v@.subrange(from as int, to as int);
    let mut a = from;
    while a < to && is_whitespace(v[a])
        invariant
            from <= a <= to <= v@.len(),
            s == v@.subrange(from as int, to as int),
            forall|k: int| 0 <= k < a - from ==> unicode_whitespace(#[trigger] s[k]),
        decreases to - a,
    {
        a = a + 1;
    }
    proof {
        lemma_trim_start_skip(s, a - from);
        assert(s.skip(a - from) =~= v@.subrange(a as int, to as int));
        if a < to {
            assert(!unicode_whitespace(v@.subrange(a as int, to as int)[0]));
        }
    }
    let ghost t = v@.subrange(a as int, to as int);
    let mut b = to;
    while b > a && is_whitespace(v[b - 1])
        invariant
            from <= a <= b <= to <= v@.len(),
            t == v@.subrange(a as int, to as int),
            forall|k: int| b - a <= k < t.len() ==> unicode_whitespace(#[trigger] t[k]),
        decreases b - a,
    {
        b = b - 1;
    }
    proof {
        lemma_trim_end_take(t, b - a);
        assert(t.take(b - a) =~= v@.subrange(a as int, b as int));
        if a < to && trim_start(s).len() > 0 {
        }
        assert(trim_start(s) == t);
    }
    (a, b)
}

/// `str::trim`: `s` without leading and trailing white space.
pub fn trim(s: &str) -> (r: String)
    ensures
        r@ == trimmed(s@),
{
    let v = to_chars(s);
    let (a, b) = trim_bounds(&v, 0, v.len());
    let mut r = String::new();
    push_range(&mut r, &v, a, b);
    proof {
        assert(v@.subrange(0, v@.len() as int) =~= s@);
    }
    r
}

// ---------------------------------------------------------------------------
// Joining and splitting.
// ---------------------------------------------------------------------------

/// The views of a list of texts.
pub open spec fn views(v: Seq<String>) -> Seq<Seq<char>> {
    v.map_values(|s: String| s@)
}

/// The pieces joined with `sep` between them, as `[..].join(sep)` does.
pub open spec fn join(ss: Seq<Seq<char>>, sep: Seq<char>) -> Seq<char>
    decreases ss.len(),
{
    if ss.len() == 0 {
        Seq::empty()
    } else if ss.len() == 1 {
        ss[0]
    } else {
        join(ss.drop_last(), sep) + sep + ss.last()
    }
}

/// Joins texts with a separator.
pub fn join_strings(v: &Vec<String>, sep: &str) -> (out: String)
    ensures
        out@ == join(views(v@), sep@),
{
    let mut out = String::new();
    let mut i: usize = 0;
    while i < v.len()
        invariant
            i <= v@.len(),
            out@ == join(views(v@.take(i as int)), sep@),
        decreases v.len() - i,
    {
        if i > 0 {
            out.append(sep);
        }
        out.append(v[i].as_str());
        proof {
            let t = views(v@.take(i + 1));
            assert(t.drop_last() =~= views(v@.take(i as int)));
            assert(t.last() == v@[i as int]@);
            if i == 0 {
                assert(views(v@.take(0)) =~= Seq::<Seq<char>>::empty());
                assert(t.len() == 1);
            }
        }
        i = i + 1;
    }
    proof {
        assert(v@.take(v@.len() as int) =~= v@);
    }
    out
}

/// The pieces of `s` between occurrences of `c`, `cur` being the part of the
/// first piece already read (as `str::split(c)` yields them).
pub open spec fn split_from(s: Seq<char>, c: char, cur: Seq<char>) -> Seq<Seq<char>>
    decreases s.len(),
{
    if s.len() == 0 {
        seq![cur]
    } else if s[0] == c {
        seq![cur] + split_from(s.drop_first(), c, Seq::empty())
    } else {
        split_from(s.drop_first(), c, cur.push(s[0]))
    }
}

/// `str::split(c)`: the pieces of `s` between occurrences of `c`.
pub open spec fn split_char(s: Seq<char>, c: char) -> Seq<Seq<char>> {
    split_from(s, c, Seq::empty())
}

/// Splits a text at every occurrence of `c`.
pub fn split_at_char(s: &str, c: char) -> (out: Vec<String>)
    ensures
        views(out@) == split_char(s@, c),
{
    let v = to_chars(s);
    let mut out: Vec<String> = Vec::new();
    let mut cur = String::new();
    let mut k: usize = 0;
    proof {
        assert(s@.skip(0) =~= s@);
        assert(views(out@) =~= Seq::<Seq<char>>::empty());
        assert(views(out@) + split_char(s@, c) =~= split_char(s@, c));
    }
    while k < v.len()
        invariant
            v@ == s@,
            k <= v@.len(),
            views(out@) + split_from(s@.skip(k as int), c, cur@) == split_char(s@, c),
        decreases v.len() - k,
    {
        let ghost rest = s@.skip(k as int);
        proof {
            assert(rest.drop_first() =~= s@.skip(k + 1));
            assert(rest[0] == v@[k as int]);
        }
        if v[k] == c {
            let ghost before = views(out@);
            let piece = cur;
            cur = String::new();
            out.push(piece);
            proof {
                assert(views(out@) =~= before + seq![piece@]);
                assert(views(out@) + split_from(s@.skip(k + 1), c, cur@) =~= before + (seq![piece@]
                    + split_from(s@.skip(k + 1), c, Seq::empty())));
            }
        } else {
            push_char(&mut cur, v[k]);
        }
        k = k + 1;
    }
    let ghost before = views(out@);
    out.push(cur);
    proof {
        assert(s@.skip(k as int) =~= Seq::<char>::empty());
        assert(views(out@) =~= before + seq![cur@]);
    }
    out
}

proof fn lemma_join_first(a: Seq<char>, ss: Seq<Seq<char>>, sep: Seq<char>)
    requires
        ss.len() > 0,
    ensures
        join(seq![a] + ss, sep) == a + sep + join(ss, sep),
    decreases ss.len(),
{
    if ss.len() == 1 {
        assert((seq![a] + ss).drop_last() =~= seq![a]);
        assert(join(seq![a], sep) == a);
    } else {
        assert((seq![a] + ss).drop_last() =~= seq![a] + ss.drop_last());
        lemma_join_first(a, ss.drop_last(), sep);
    }
}

proof fn lemma_split_join(s: Seq<char>, c: char, cur: Seq<char>)
    ensures
        split_from(s, c, cur).len() > 0,
        join(split_from(s, c, cur), seq![c]) == cur + s,
    decreases s.len(),
{
    if s.len() == 0 {
        assert(cur + s =~= cur);
    } else if s[0] == c {
        lemma_split_join(s.drop_first(), c, Seq::empty());
        lemma_join_first(cur, split_from(s.drop_first(), c, Seq::empty()), seq![c]);
        assert(cur + seq![c] + (Seq::<char>::empty() + s.drop_first()) =~= cur + s);
    } else {
        lemma_split_join(s.drop_first(), c, cur.push(s[0]));
        assert(cur.push(s[0]) + s.drop_first() =~= cur + s);
    }
}

/// Splitting at a character and joining the pieces with that character gives
/// the text back.
pub proof fn law_split_then_join(s: Seq<char>, c: char)
    ensures
        join(split_char(s, c), seq![c]) == s,
{
    lemma_split_join(s, c, Seq::empty());
    assert(Seq::<char>::empty() + s =~= s);
}

/// `x` and `rest` read on after `cur`, when `x` holds no `c`: `x` joins the
/// piece being read.
proof fn lemma_split_no_sep(x: Seq<char>, rest: Seq<char>, c: char, cur: Seq<char>)
    requires
        !x.contains(c),
    ensures
        split_from(x + rest, c, cur) == split_from(rest, c, cur + x),
    decreases x.len(),
{
    if x.len() > 0 {
        assert((x + rest).drop_first() =~= x.drop_first() + rest);
        assert((x + rest)[0] == x[0]);
        assert(!x.drop_first().contains(c)) by {
            if x.drop_first().contains(c) {
                let k = choose|k: int| 0 <= k < x.drop_first().len() && x.drop_first()[k] == c;
                assert(x[k + 1] == c);
            }
        }
        lemma_split_no_sep(x.drop_first(), rest, c, cur.push(x[0]));
        assert(cur.push(x[0]) + x.drop_first() =~= cur + x);
    } else {
        assert(x + rest =~= rest);
        assert(cur + x =~= cur);
    }
}

/// The pieces of a text are free of the separator.
pub proof fn lemma_split_pieces(s: Seq<char>, c: char, cur: Seq<char>)
    requires
        !cur.contains(c),
    ensures
        forall|k: int| 0 <= k < split_from(s, c, cur).len() ==> !(#[trigger] split_from(s, c, cur)[k]).contains(c),
    decreases s.len(),
{
    if s.len() > 0 {
        if s[0] == c {
            lemma_split_pieces(s.drop_first(), c, Seq::empty());
            let r = split_from(s, c, cur);
            assert(r == seq![cur] + split_from(s.drop_first(), c, Seq::empty()));
            assert forall|k: int| 0 <= k < r.len() implies !(#[trigger] r[k]).contains(c) by {
                if k > 0 {
                    assert(r[k] == split_from(s.drop_first(), c, Seq::empty())[k - 1]);
                } else {
                    assert(r[0] == cur);
                }
            }
        } else {
            assert(!cur.push(s[0]).contains(c)) by {
                if cur.push(s[0]).contains(c) {
                    let k = choose|k: int| 0 <= k < cur.push(s[0]).len() && cur.push(s[0])[k] == c;
                    if k < cur.len() {
                        assert(cur[k] == c);
                    }
                }
            }
            lemma_split_pieces(s.drop_first(), c, cur.push(s[0]));
            assert(split_from(s, c, cur) == split_from(s.drop_first(), c, cur.push(s[0])));
        }
    } else {
        assert(split_from(s, c, cur) == seq![cur]);
        assert(split_from(s, c, cur)[0] == cur);
    }
}

/// Splitting a text that has `c` between `x` and `y` gives the pieces of `x`
/// followed by those of `y`.
pub proof fn lemma_split_around(x: Seq<char>, y: Seq<char>, c: char, cur: Seq<char>)
    ensures
        split_from(x + seq![c] + y, c, cur) == split_from(x, c, cur) + split_from(y, c, Seq::empty()),
    decreases x.len(),
{
    let t = x + seq![c] + y;
    if x.len() == 0 {
        assert(t =~= seq![c] + y);
        assert(t.drop_first() =~= y);
    } else {
        assert(t[0] == x[0]);
        assert(t.drop_first() =~= x.drop_first() + seq![c] + y);
        if x[0] == c {
            lemma_split_around(x.drop_first(), y, c, Seq::empty());
            assert(seq![cur] + (split_from(x.drop_first(), c, Seq::empty()) + split_from(y, c, Seq::empty()))
                =~= seq![cur] + split_from(x.drop_first(), c, Seq::empty()) + split_from(y, c, Seq::empty()));
        } else {
            lemma_split_around(x.drop_first(), y, c, cur.push(x[0]));
        }
    }
}

/// Joining two non-empty lists of pieces puts the separator between them.
pub proof fn lemma_join_concat(a: Seq<Seq<char>>, b: Seq<Seq<char>>, sep: Seq<char>)
    requires
        a.len() > 0,
        b.len() > 0,
    ensures
        join(a + b, sep) == join(a, sep) + sep + join(b, sep),
    decreases b.len(),
{
    let ab = a + b;
    assert(ab.last() == b.last());
    if b.len() == 1 {
        assert(ab.drop_last() =~= a);
        assert(join(b, sep) == b[0]);
    } else {
        assert(ab.drop_last() =~= a + b.drop_last());
        lemma_join_concat(a, b.drop_last(), sep);
        assert(join(a, sep) + sep + join(b.drop_last(), sep) + sep + b.last() =~= join(a, sep) + sep + (join(
            b.drop_last(),
            sep,
        ) + sep + b.last()));
    }
}

/// Joining pieces that are free of `c` with `c` and splitting at `c` gives
/// the pieces back.
pub proof fn law_join_then_split(ss: Seq<Seq<char>>, c: char)
    requires
        ss.len() > 0,
        forall|k: int| 0 <= k < ss.len() ==> !(#[trigger] ss[k]).contains(c),
    ensures
        split_char(join(ss, seq![c]), c) == ss,
    decreases ss.len(),
{
    if ss.len() == 1 {
        lemma_split_no_sep(ss[0], Seq::empty(), c, Seq::empty());
        assert(ss[0] + Seq::<char>::empty() =~= ss[0]);
        assert(Seq::<char>::empty() + ss[0] =~= ss[0]);
        assert(split_from(Seq::<char>::empty(), c, ss[0]) == seq![ss[0]]);
        assert(ss =~= seq![ss[0]]);
    } else {
        let tail = ss.drop_first();
        assert(seq![ss[0]] + tail =~= ss);
        lemma_join_first(ss[0], tail, seq![c]);
        law_join_then_split(tail, c);
        let jt = join(tail, seq![c]);
        assert(ss[0] + seq![c] + jt =~= ss[0] + (seq![c] + jt));
        lemma_split_no_sep(ss[0], seq![c] + jt, c, Seq::empty());
        assert(Seq::<char>::empty() + ss[0] =~= ss[0]);
        assert((seq![c] + jt).drop_first() =~= jt);
        assert((seq![c] + jt)[0] == c);
        assert(split_from(seq![c] + jt, c, ss[0]) == seq![ss[0]] + split_from(jt, c, Seq::empty()));
    }
}

/// Whether two texts are equal.
pub fn str_eq(a: &str, b: &str) -> (r: bool)
    ensures
        r == (a@ == b@),
{
    let va = to_chars(a);
    let vb = to_chars(b);
    if va.len() != vb.len() {
        return false;
    }
    let mut i: usize = 0;
    while i < va.len()
        invariant
            va@ == a@,
            vb@ == b@,
            va@.len() == vb@.len(),
            i <= va@.len(),
            forall|k: int| 0 <= k < i ==> va@[k] == vb@[k],
        decreases va.len() - i,
    {
        if va[i] != vb[i] {
            return false;
        }
        i = i + 1;
    }
    proof {
        assert(va@ =~= vb@);
    }
    true
}

/// The words of `s` (maximal runs of non-white-space characters), `cur` being
/// the part of the current word already read (as `str::split_whitespace` yields them).
pub open spec fn words_from(s: Seq<char>, cur: Seq<char>) -> Seq<Seq<char>>
    decreases s.len(),
{
    let done = if cur.len() > 0 {
        seq![cur]
    } else {
        Seq::empty()
    };
    if s.len() == 0 {
        done
    } else if unicode_whitespace(s[0]) {
        done + words_from(s.drop_first(), Seq::empty())
    } else {
        words_from(s.drop_first(), cur.push(s[0]))
    }
}

/// `str::split_whitespace`: the words of `s`.
pub open spec fn words(s: Seq<char>) -> Seq<Seq<char>> {
    words_from(s, Seq::empty())
}

/// Splits a text into its white-space separated words.
pub fn split_words(s: &str) -> (out: Vec<String>)
    ensures
        views(out@) == words(s@),
{
    let v = to_chars(s);
    let mut out: Vec<String> = Vec::new();
    let mut cur = String::new();
    let mut k: usize = 0;
    proof {
        assert(s@.skip(0) =~= s@);
        assert(views(out@) + words(s@) =~= words(s@));
    }
    while k < v.len()
        invariant
            v@ == s@,
            k <= v@.len(),
            views(out@) + words_from(s@.skip(k as int), cur@) == words(s@),
        decreases v.len() - k,
    {
        let ghost rest = s@.skip(k as int);
        proof {
            assert(rest.drop_first() =~= s@.skip(k + 1));
            assert(rest[0] == v@[k as int]);
        }
        if is_whitespace(v[k]) {
            let ghost before = views(out@);
            if cur.unicode_len() > 0 {
                let piece = cur;
                cur = String::new();
                out.push(piece);
                proof {
                    assert(views(out@) =~= before + seq![piece@]);
                    assert(views(out@) + words_from(s@.skip(k + 1), cur@) =~= before + (seq![piece@]
                        + words_from(s@.skip(k + 1), Seq::empty())));
                }
            } else {
                proof {
                    assert(cur@ =~= Seq::<char>::empty());
                    assert(views(out@) + words_from(s@.skip(k + 1), cur@) =~= before + (Seq::empty()
                        + words_from(s@.skip(k + 1), Seq::empty())));
                }
            }
        } else {
            push_char(&mut cur, v[k]);
        }
        k = k + 1;
    }
    proof {
        assert(s@.skip(k as int) =~= Seq::<char>::empty());
    }
    if cur.unicode_len() > 0 {
        let ghost before = views(out@);
        out.push(cur);
        proof {
            assert(views(out@) =~= before + seq![cur@]);
        }
    } else {
        proof {
            assert(views(out@) =~= views(out@) + Seq::<Seq<char>>::empty());
        }
    }
    out
}

/// A word: not empty, no white space.
pub open spec fn is_word(w: Seq<char>) -> bool {
    w.len() > 0 && forall|i: int| 0 <= i < w.len() ==> !unicode_whitespace(#[trigger] w[i])
}

proof fn lemma_words_of_word(w: Seq<char>, rest: Seq<char>, cur: Seq<char>)
    requires
        forall|i: int| 0 <= i < w.len() ==> !unicode_whitespace(#[trigger] w[i]),
    ensures
        words_from(w + rest, cur) == words_from(rest, cur + w),
    decreases w.len(),
{
    if w.len() > 0 {
        assert((w + rest).drop_first() =~= w.drop_first() + rest);
        assert((w + rest)[0] == w[0]);
        lemma_words_of_word(w.drop_first(), rest, cur.push(w[0]));
        assert(cur.push(w[0]) + w.drop_first() =~= cur + w);
    } else {
        assert(w + rest =~= rest);
        assert(cur + w =~= cur);
    }
}

proof fn lemma_words_join(ws: Seq<Seq<char>>)
    requires
        forall|i: int| 0 <= i < ws.len() ==> is_word(#[trigger] ws[i]),
    ensures
        words(join(ws, seq![' '])) == ws,
    decreases ws.len(),
{
    if ws.len() == 0 {
        assert(join(ws, seq![' ']) =~= Seq::<char>::empty());
        assert(words(Seq::<char>::empty()) =~= ws);
    } else if ws.len() == 1 {
        let w = ws[0];
        assert(is_word(ws[0]));
        lemma_words_of_word(w, Seq::empty(), Seq::empty());
        assert(w + Seq::<char>::empty() =~= w);
        assert(Seq::<char>::empty() + w =~= w);
        assert(words_from(Seq::<char>::empty(), w) =~= seq![w]);
        assert(ws =~= seq![w]);
    } else {
        let w = ws[0];
        let tail = ws.drop_first();
        assert(is_word(ws[0]));
        assert forall|i: int| 0 <= i < tail.len() implies is_word(#[trigger] tail[i]) by {
            assert(tail[i] == ws[i + 1]);
        }
        lemma_words_join(tail);
        assert(ws =~= seq![w] + tail);
        lemma_join_first(w, tail, seq![' ']);
        let rest = join(tail, seq![' ']);
        assert(w + seq![' '] + rest =~= w + (seq![' '] + rest));
        lemma_words_of_word(w, seq![' '] + rest, Seq::empty());
        assert(Seq::<char>::empty() + w =~= w);
        assert((seq![' '] + rest).drop_first() =~= rest);
        assert((seq![' '] + rest)[0] == ' ');
        assert(words_from(seq![' '] + rest, w) =~= seq![w] + words_from(rest, Seq::empty()));
    }
}

/// Joining words with single spaces and splitting the result at white space
/// gives the words back.
pub proof fn law_words_roundtrip(ws: Seq<Seq<char>>)
    requires
        forall|i: int| 0 <= i < ws.len() ==> is_word(#[trigger] ws[i]),
    ensures
        words(join(ws, seq![' '])) == ws,
{
    lemma_words_join(ws);
}

} // verus!
