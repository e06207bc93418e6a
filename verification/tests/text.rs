use zenith::escape::pango_escape;
use zenith::text::{join_strings, split_at_char, split_words, trim};

#[test]
fn split_then_join_gives_back_the_text() {
    for s in ["", "a", "a,b", ",", "a,,b,", "é,ü"] {
        let parts = split_at_char(s, ',');
        assert_eq!(parts, s.split(',').map(String::from).collect::<Vec<String>>());
        assert_eq!(join_strings(&parts, ","), s);
    }
}

#[test]
fn words_match_split_whitespace() {
    for s in ["", "  a  b ", "one", "\tx\ny  z\u{3000}w"] {
        assert_eq!(split_words(s), s.split_whitespace().map(String::from).collect::<Vec<String>>());
    }
}

#[test]
fn trim_matches_std() {
    for s in ["", "  ", " a b ", "\u{2003}x\u{2003}", "\r\nq\t"] {
        assert_eq!(trim(s), s.trim());
    }
}

#[test]
fn pango_escaping() {
    assert_eq!(pango_escape("a & b < c > d \"e\" 'f'"), "a &amp; b &lt; c &gt; d \"e\" 'f'");
    assert_eq!(pango_escape(""), "");
}

#[test]
fn trim_knows_unicode_white_space() {
    assert_eq!(trim("\u{a0}\u{3000} x y\u{2009}\u{85}"), "x y");
    assert_eq!(trim("\u{200b}x"), "\u{200b}x");
    assert_eq!(trim("\t\r\n x \u{b}\u{c}"), "x");
}
