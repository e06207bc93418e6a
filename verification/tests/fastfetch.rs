use zenith::ansi::{ansi_256_to_hex, ansi_standard_to_hex, ansi_to_pango};
use zenith::fastfetch::{
    default_preset_key, default_preset_modules, default_preset_padding, FastfetchDisplayKey, FastfetchLogoPadding,
    FastfetchModuleConfig, FastfetchModuleItem, catalog_module, command_module, module_subtitle,
};
use zenith::jsonc::strip_jsonc_comments;

#[test]
fn test_strip_jsonc_comments() {
    let input = r#"{
            // Line comment
            "key": "value // not a comment",
            /* Block
               comment */
            "nested": {
                "num": 42
            }
        }"#;
    let stripped = strip_jsonc_comments(input);
    assert!(!stripped.contains("Line comment"));
    assert!(!stripped.contains("Block"));
    assert!(stripped.contains("value // not a comment"));
    assert!(stripped.contains("\"num\": 42"));

    let val: serde_json::Value = serde_json::from_str(&stripped).expect("Valid JSON");
    assert_eq!(val["key"], "value // not a comment");
    assert_eq!(val["nested"]["num"], 42);
}

#[test]
fn strip_jsonc_keeps_escaped_quotes_and_plain_text() {
    assert_eq!(strip_jsonc_comments("{\"a\": \"x\\\"//y\"}"), "{\"a\": \"x\\\"//y\"}");
    assert_eq!(strip_jsonc_comments("no slashes here"), "no slashes here");
    assert_eq!(strip_jsonc_comments("1 // c\n2"), "1 \n2");
    assert_eq!(strip_jsonc_comments("a /* b */ c"), "a  c");
    assert_eq!(strip_jsonc_comments("a /* unterminated"), "a ");
}

#[test]
fn stripping_twice_changes_nothing() {
    for input in [
        "{ \"a\": 1, // note\n \"b\": /* x */ 2 }",
        "a/**//x",
        "/* open",
        "\"s // kept\" // gone",
        "x/y/*c*/*z",
    ] {
        let once = strip_jsonc_comments(input);
        assert_eq!(strip_jsonc_comments(&once), once);
    }
    assert_eq!(strip_jsonc_comments("a/**//x"), "a/x");
    assert_eq!(strip_jsonc_comments("x/y/*c*/*z"), "x/y*z");
}

#[test]
fn test_ansi_to_pango() {
    let ansi_str = "\x1b[1m\x1b[38;2;255;181;160mArch\x1b[m \x1b[93mLinux\x1b[0m <test>";
    let pango = ansi_to_pango(ansi_str);
    assert!(pango.contains("<b>"));
    assert!(pango.contains("<span foreground=\"#ffb5a0\">Arch</span>"));
    assert!(pango.contains("<span foreground=\"#f1fa8c\">Linux</span>"));
    assert!(pango.contains("&lt;test&gt;"));
}

#[test]
fn ansi_to_pango_exact() {
    assert_eq!(ansi_to_pango("plain & <x>"), "plain &amp; &lt;x&gt;");
    assert_eq!(ansi_to_pango("\x1b[31mred\x1b[0m"), "<span foreground=\"#cd0000\">red</span>");
    assert_eq!(ansi_to_pango("\x1b[1mbold"), "<b>bold</b>");
}

#[test]
fn ansi_palettes() {
    assert_eq!(ansi_standard_to_hex(31), "#cd0000");
    assert_eq!(ansi_standard_to_hex(91), "#ff5555");
    assert_eq!(ansi_standard_to_hex(5), "#cdd6f4");
    assert_eq!(ansi_standard_to_hex(93), "#f1fa8c");
    assert_eq!(ansi_256_to_hex(0), "#000000");
    assert_eq!(ansi_256_to_hex(16), "#000000");
    assert_eq!(ansi_256_to_hex(21), "#0000ff");
    assert_eq!(ansi_256_to_hex(196), "#ff0000");
    assert_eq!(ansi_256_to_hex(232), "#080808");
    assert_eq!(ansi_256_to_hex(255), "#eeeeee");
}

fn detailed(t: &str, key: Option<&str>, text: Option<&str>) -> FastfetchModuleItem {
    FastfetchModuleItem::Detailed(FastfetchModuleConfig {
        module_type: t.to_string(),
        key: key.map(|k| k.to_string()),
        key_color: None,
        format: None,
        text: text.map(|k| k.to_string()),
        symbol: None,
    })
}

#[test]
fn module_labels() {
    assert_eq!(FastfetchModuleItem::Simple("break".to_string()).display_label(), "break");
    assert_eq!(detailed("os", Some("  OS "), None).display_label(), "os (OS)");
    assert_eq!(detailed("os", None, None).display_label(), "os");
    assert_eq!(detailed("command", Some("Disk"), Some("df -h")).display_label(), "$ Disk (df -h)");
    assert_eq!(detailed("command", None, None).display_label(), "$ cmd ()");
    assert_eq!(detailed("kernel", Some("K"), None).module_type(), "kernel");
}

#[test]
fn default_preset_parts() {
    let modules = default_preset_modules();
    assert_eq!(modules.len(), 13);
    assert_eq!(modules[0], FastfetchModuleItem::Simple("break".to_string()));
    assert_eq!(modules[3].display_label(), "os (OS)");
    assert_eq!(modules[12].module_type(), "colors");
    let p = default_preset_padding();
    assert_eq!((p.top, p.left, p.right), (Some(1), Some(2), Some(3)));
    assert_eq!(default_preset_key().width, Some(12));
    assert_eq!(FastfetchLogoPadding::default(), FastfetchLogoPadding { top: None, left: None, right: None });
    assert_eq!(FastfetchDisplayKey::default().width, None);
}

#[test]
fn escape_sequences_end_at_a_letter() {
    assert_eq!(ansi_to_pango("\x1b[2Jclear"), "clear");
    assert_eq!(ansi_to_pango("a\x1b[1éb"), "ab");
    assert_eq!(ansi_to_pango("x\x1b[12"), "x");
    assert_eq!(ansi_to_pango("\x1b[38;5;196mR"), "<span foreground=\"#ff0000\">R</span>");
    assert_eq!(
        ansi_to_pango("\x1b[1;31mB\x1b[22mC"),
        "<b><span foreground=\"#cd0000\">B</span></b><span foreground=\"#cd0000\">C</span>"
    );
    assert_eq!(ansi_to_pango("\x1b[31m\x1b[1mX\x1b[0m"), "<span foreground=\"#cd0000\"><b>X</b></span>");
    assert_eq!(ansi_to_pango("\x1b[1m\x1b[31mX\x1b[0m"), "<b><span foreground=\"#cd0000\">X</span></b>");
    assert_eq!(
        ansi_to_pango("\x1b[31m\x1b[1mX\x1b[32mY\x1b[39mZ"),
        "<span foreground=\"#cd0000\"><b>X</b></span><span foreground=\"#00cd00\"><b>Y</b></span><b>Z</b>"
    );
}

fn module_with(t: &str, key: Option<&str>, text: Option<&str>, symbol: Option<&str>) -> FastfetchModuleItem {
    FastfetchModuleItem::Detailed(FastfetchModuleConfig {
        module_type: t.to_string(),
        key: key.map(|k| k.to_string()),
        key_color: None,
        format: None,
        text: text.map(|k| k.to_string()),
        symbol: symbol.map(|k| k.to_string()),
    })
}

#[test]
fn catalog_adds_modules() {
    assert_eq!(catalog_module(0), Some(FastfetchModuleItem::Simple("break".to_string())));
    assert_eq!(catalog_module(2), Some(module_with("os", Some("OS"), None, None)));
    assert_eq!(catalog_module(16), Some(module_with("localip", Some("LOCALIP"), None, None)));
    assert_eq!(catalog_module(18), Some(module_with("colors", None, None, Some("circle"))));
    assert_eq!(catalog_module(19), None);
}

#[test]
fn module_subtitles() {
    assert_eq!(module_subtitle(&FastfetchModuleItem::Simple("break".to_string())), "Standaard module: break");
    assert_eq!(module_subtitle(&module_with("command", Some("Temp"), Some("sensors"), None)), "Shell commando: sensors");
    assert_eq!(module_subtitle(&module_with("command", Some("Temp"), None, None)), "Shell commando: ");
    assert_eq!(module_subtitle(&module_with("cpu", Some("CPU"), None, None)), "Type: cpu");
}

#[test]
fn command_modules() {
    assert_eq!(command_module(" Temp ", " sensors | head -1 "), Some(module_with("command", Some("Temp"), Some("sensors | head -1"), None)));
    assert_eq!(command_module("", "uname -r"), None);
    assert_eq!(command_module("Kernel", "  "), None);
}
