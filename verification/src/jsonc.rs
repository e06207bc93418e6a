use vstd::prelude::*;

use crate::text::{push_char, to_chars};

verus! {

/// Where the scanner of a JSONC text stands.
#[derive(Clone, Copy, PartialEq, Eq, Debug)]
pub enum ScanState {
    /// Outside strings and comments.
    Code,
    /// Inside a string literal.
    Str,
    /// Inside a string literal, right after a backslash.
    StrEscape,
    /// Inside a `//` comment.
    LineComment,
    /// Inside a `/* */` comment.
    BlockComment,
}

/// The text kept from index `i` on when the scanner is in state `q`: string
/// literals are kept whole (escapes included), `//` comments are dropped up to
/// but not including their line feed, `/* */` comments are dropped whole, and
/// everything else is kept.
pub open spec fn strip_from(s: Seq<char>, i: int, q: ScanState) -> Seq<char>
    decreases s.len() - i,
{
    if i < 0 || i >= s.len() {
        Seq::empty()
    } else {
        let c = s[i];
        let next_is = |d: char| i + 1 < s.len() && s[i + 1] == d;
        match q {
            ScanState::Str => seq![c] + strip_from(
                s,
                i + 1,
                if c == '\\' {
                    ScanState::StrEscape
                } else if c == '"' {
                    ScanState::Code
                } else {
                    ScanState::Str
                },
            ),
            ScanState::StrEscape => seq![c] + strip_from(s, i + 1, ScanState::Str),
            ScanState::LineComment => if c == '\n' {
                seq!['\n'] + strip_from(s, i + 1, ScanState::Code)
            } else {
                strip_from(s, i + 1, ScanState::LineComment)
            },
            ScanState::BlockComment => if c == '*' && next_is('/') {
                strip_from(s, i + 2, ScanState::Code)
            } else {
                strip_from(s, i + 1, ScanState::BlockComment)
            },
            ScanState::Code => if c == '"' {
                seq![c] + strip_from(s, i + 1, ScanState::Str)
            } else if c == '/' && next_is('/') {
                strip_from(s, i + 2, ScanState::LineComment)
            } else if c == '/' && next_is('*') {
                strip_from(s, i + 2, ScanState::BlockComment)
            } else {
                seq![c] + strip_from(s, i + 1, ScanState::Code)
            },
        }
    }
}

/// A JSONC text with its comments removed.
pub open spec fn jsonc_stripped(s: Seq<char>) -> Seq<char> {
    strip_from(s, 0, ScanState::Code)
}

/// Removes `//` line comments and `/* */` block comments from JSONC text,
/// leaving string literals (and the escapes in them) untouched.
pub fn strip_jsonc_comments(input: &str) -> (out: String)
    ensures
        out@ == jsonc_stripped(input@),
{
    let chars = to_chars(input);
    let len = chars.len();
    let mut out = String::new();
    let mut i: usize = 0;
    let mut q = ScanState::Code;
    while i < len
        invariant
            len == chars@.len(),
            chars@ == input@,
            i <= len,
            out@ + strip_from(chars@, i as int, q) == jsonc_stripped(input@),
        decreases len - i,
    {
        let ghost before = out@;
        let ghost q0 = q;
        let ghost i0 = i as int;
        let ch = chars[i];
        let next_slash = i + 1 < len && chars[i + 1] == '/';
        let next_star = i + 1 < len && chars[i + 1] == '*';
        match q {
            ScanState::Str => {
                push_char(&mut out, ch);
                if ch == '\\' {
                    q = ScanState::StrEscape;
                } else if ch == '"' {
                    q = ScanState::Code;
                }
                i = i + 1;
            },
            ScanState::StrEscape => {
                push_char(&mut out, ch);
                q = ScanState::Str;
                i = i + 1;
            },
            ScanState::LineComment => {
                if ch == '\n' {
                    push_char(&mut out, '\n');
                    q = ScanState::Code;
                }
                i = i + 1;
            },
            ScanState::BlockComment => {
                if ch == '*' && next_slash {
                    q = ScanState::Code;
                    i = i + 2;
                } else {
                    i = i + 1;
                }
            },
            ScanState::Code => {
                if ch == '"' {
                    push_char(&mut out, ch);
                    q = ScanState::Str;
                    i = i + 1;
                } else if ch == '/' && next_slash {
                    q = ScanState::LineComment;
                    i = i + 2;
                } else if ch == '/' && next_star {
                    q = ScanState::BlockComment;
                    i = i + 2;
                } else {
                    push_char(&mut out, ch);
                    i = i + 1;
                }
            },
        }
        proof {
            assert(out@ + strip_from(chars@, i as int, q) =~= before + strip_from(chars@, i0, q0));
        }
    }
    proof {
        assert(out@ =~= out@ + strip_from(chars@, i as int, q));
    }
    out
}

/// Whether `'/'` occurs in `s` from index `i` on.
pub open spec fn slash_free_from(s: Seq<char>, i: int) -> bool {
    forall|k: int| i <= k < s.len() ==> s[k] != '/'
}

proof fn lemma_strip_slash_free(s: Seq<char>, i: int, q: ScanState)
    requires
        0 <= i <= s.len(),
        slash_free_from(s, i),
        q == ScanState::Code || q == ScanState::Str || q == ScanState::StrEscape,
    ensures
        strip_from(s, i, q) == s.skip(i),
    decreases s.len() - i,
{
    if i < s.len() {
        let c = s[i];
        let q2 = match q {
            ScanState::Str => if c == '\\' {
                ScanState::StrEscape
            } else if c == '"' {
                ScanState::Code
            } else {
                ScanState::Str
            },
            ScanState::StrEscape => ScanState::Str,
            _ => if c == '"' {
                ScanState::Str
            } else {
                ScanState::Code
            },
        };
        lemma_strip_slash_free(s, i + 1, q2);
        assert(s.skip(i) =~= seq![c] + s.skip(i + 1));
    } else {
        assert(s.skip(i) =~= Seq::<char>::empty());
    }
}

/// A text without any `/` has no comments: stripping leaves it unchanged.
pub proof fn law_strip_without_slash_is_identity(s: Seq<char>)
    requires
        forall|k: int| 0 <= k < s.len() ==> s[k] != '/',
    ensures
        jsonc_stripped(s) == s,
{
    lemma_strip_slash_free(s, 0, ScanState::Code);
    assert(s.skip(0) =~= s);
}

/// The state the scanner of a stripped text is in where the scanner of the
/// original text was in state `q`: comments are gone, so their states become
/// plain code.
pub open spec fn resumed(q: ScanState) -> ScanState {
    match q {
        ScanState::LineComment | ScanState::BlockComment => ScanState::Code,
        _ => q,
    }
}

/// Scanning from inside the second part of a concatenation only depends on
/// that part.
proof fn lemma_strip_shift(a: Seq<char>, b: Seq<char>, j: int, q: ScanState)
    requires
        0 <= j,
    ensures
        strip_from(a + b, a.len() + j, q) == strip_from(b, j, q),
    decreases b.len() - j,
{
    let s = a + b;
    let i = a.len() + j;
    if j < b.len() {
        assert(s[i] == b[j]);
        if j + 1 < b.len() {
            assert(s[i + 1] == b[j + 1]);
        }
        lemma_strip_shift(a, b, j + 1, ScanState::Code);
        lemma_strip_shift(a, b, j + 1, ScanState::Str);
        lemma_strip_shift(a, b, j + 1, ScanState::StrEscape);
        lemma_strip_shift(a, b, j + 1, ScanState::LineComment);
        lemma_strip_shift(a, b, j + 1, ScanState::BlockComment);
        assert((a.len() + (j + 1)) == i + 1);
        if j + 2 <= b.len() {
            lemma_strip_shift(a, b, j + 2, ScanState::Code);
            lemma_strip_shift(a, b, j + 2, ScanState::LineComment);
            lemma_strip_shift(a, b, j + 2, ScanState::BlockComment);
            assert((a.len() + (j + 2)) == i + 2);
        } else {
            assert(strip_from(s, i + 2, ScanState::Code) == Seq::<char>::empty());
            assert(strip_from(b, j + 2, ScanState::Code) == Seq::<char>::empty());
            assert(strip_from(s, i + 2, ScanState::LineComment) == Seq::<char>::empty());
            assert(strip_from(b, j + 2, ScanState::LineComment) == Seq::<char>::empty());
            assert(strip_from(s, i + 2, ScanState::BlockComment) == Seq::<char>::empty());
            assert(strip_from(b, j + 2, ScanState::BlockComment) == Seq::<char>::empty());
        }
    }
}

/// Code that does not start with `/` is kept from its first character on.
proof fn lemma_code_starts_with(s: Seq<char>, i: int)
    requires
        0 <= i < s.len(),
        s[i] != '/',
    ensures
        strip_from(s, i, ScanState::Code).len() > 0,
        strip_from(s, i, ScanState::Code)[0] == s[i],
{
}

/// What the scanner keeps from index `i` on in state `q` is left unchanged by
/// a second scan that starts in the corresponding state.
proof fn lemma_strip_again(s: Seq<char>, i: int, q: ScanState)
    requires
        0 <= i,
    ensures
        strip_from(strip_from(s, i, q), 0, resumed(q)) == strip_from(s, i, q),
    decreases s.len() - i,
{
    if i < s.len() {
        let c = s[i];
        let t = strip_from(s, i, q);
        lemma_strip_again(s, i + 1, ScanState::Code);
        lemma_strip_again(s, i + 1, ScanState::Str);
        lemma_strip_again(s, i + 1, ScanState::StrEscape);
        lemma_strip_again(s, i + 1, ScanState::LineComment);
        lemma_strip_again(s, i + 1, ScanState::BlockComment);
        if i + 2 <= s.len() {
            lemma_strip_again(s, i + 2, ScanState::Code);
            lemma_strip_again(s, i + 2, ScanState::LineComment);
            lemma_strip_again(s, i + 2, ScanState::BlockComment);
        }
        match q {
            ScanState::Str => {
                let q2 = if c == '\\' {
                    ScanState::StrEscape
                } else if c == '"' {
                    ScanState::Code
                } else {
                    ScanState::Str
                };
                let rest = strip_from(s, i + 1, q2);
                assert(t == seq![c] + rest);
                lemma_strip_shift(seq![c], rest, 0, q2);
                assert(strip_from(t, 0, ScanState::Str) == seq![c] + strip_from(t, 1, q2));
            },
            ScanState::StrEscape => {
                let rest = strip_from(s, i + 1, ScanState::Str);
                assert(t == seq![c] + rest);
                lemma_strip_shift(seq![c], rest, 0, ScanState::Str);
                assert(strip_from(t, 0, ScanState::StrEscape) == seq![c] + strip_from(t, 1, ScanState::Str));
            },
            ScanState::LineComment => {
                if c == '\n' {
                    let rest = strip_from(s, i + 1, ScanState::Code);
                    assert(t == seq!['\n'] + rest);
                    lemma_strip_shift(seq!['\n'], rest, 0, ScanState::Code);
                    assert(strip_from(t, 0, ScanState::Code) == seq!['\n'] + strip_from(t, 1, ScanState::Code));
                }
            },
            ScanState::BlockComment => {},
            ScanState::Code => {
                let next_slash = i + 1 < s.len() && s[i + 1] == '/';
                let next_star = i + 1 < s.len() && s[i + 1] == '*';
                if c == '"' {
                    let rest = strip_from(s, i + 1, ScanState::Str);
                    assert(t == seq![c] + rest);
                    lemma_strip_shift(seq![c], rest, 0, ScanState::Str);
                    assert(strip_from(t, 0, ScanState::Code) == seq![c] + strip_from(t, 1, ScanState::Str));
                } else if c == '/' && (next_slash || next_star) {
                } else {
                    let rest = strip_from(s, i + 1, ScanState::Code);
                    assert(t == seq![c] + rest);
                    lemma_strip_shift(seq![c], rest, 0, ScanState::Code);
                    if c == '/' && i + 1 < s.len() {
                        lemma_code_starts_with(s, i + 1);
                        assert(t[1] == s[i + 1]);
                    } else if c == '/' {
                        assert(t.len() == 1);
                    }
                    assert(strip_from(t, 0, ScanState::Code) == seq![c] + strip_from(t, 1, ScanState::Code));
                }
            },
        }
    }
}

/// Stripping the comments from a text that has none left changes nothing:
/// stripping twice gives what stripping once gives.
pub proof fn law_strip_is_idempotent(s: Seq<char>)
    ensures
        jsonc_stripped(jsonc_stripped(s)) == jsonc_stripped(s),
{
    lemma_strip_again(s, 0, ScanState::Code);
}

} // verus!
