use vstd::prelude::*;

use crate::text::{push_char, to_chars};

verus! {

/// The markup that stands for one character of plain text.
pub open spec fn pango_char(c: char) -> Seq<char> {
    if c == '&' {
        "&amp;"@
    } else if c == '<' {
        "&lt;"@
    } else if c == '>' {
        "&gt;"@
    } else {
        seq![c]
    }
}

/// Pango escaping of a whole text: each character replaced by its markup.
pub open spec fn pango_escaped(s: Seq<char>) -> Seq<char>
    decreases s.len(),
{
    if s.len() == 0 {
        Seq::empty()
    } else {
        pango_escaped(s.drop_last()) + pango_char(s.last())
    }
}

/// Appends the markup for one character.
pub fn push_escaped(out: &mut String, ch: char)
    ensures
        final(out)@ == old(out)@ + pango_char(ch),
{
    if ch == '&' {
        out.append("&amp;");
    } else if ch == '<' {
        out.append("&lt;");
    } else if ch == '>' {
        out.append("&gt;");
    } else {
        push_char(out, ch);
    }
}

/// Escapes `&`, `<` and `>` so that GTK does not read the text as Pango markup.
pub fn pango_escape(s: &str) -> (out: String)
    ensures
        out@ == pango_escaped(s@),
{
    let v = to_chars(s);
    let mut out = String::new();
    let mut i: usize = 0;
    while i < v.len()
        invariant
            v@ == s@,
            i <= v@.len(),
            out@ == pango_escaped(s@.take(i as int)),
        decreases v.len() - i,
    {
        push_escaped(&mut out, v[i]);
        proof {
            assert(s@.take(i + 1).drop_last() =~= s@.take(i as int));
        }
        i = i + 1;
    }
    proof {
        assert(s@.take(v@.len() as int) =~= s@);
    }
    out
}

} // verus!
