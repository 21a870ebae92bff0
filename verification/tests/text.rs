use kick_synth::text::{chars_of, sanitize_component, trim};

#[test]
fn trim_white_space() {
    assert_eq!(trim("  a b \t\n"), "a b");
    assert_eq!(trim("\u{3000}x\u{a0}"), "x");
    assert_eq!(trim("   "), "");
    assert_eq!(trim(""), "");
}

#[test]
fn sanitize_examples() {
    assert_eq!(sanitize_component("  hello world  "), "hello_world");
    assert_eq!(sanitize_component("My Kick!"), "My_Kick");
    assert_eq!(sanitize_component("___"), "default");
    assert_eq!(sanitize_component(""), "default");
    assert_eq!(sanitize_component(" \t "), "default");
    assert_eq!(sanitize_component("a.json"), "a_json");
    assert_eq!(sanitize_component("-x-"), "-x-");
    assert_eq!(sanitize_component("é"), "default");
    assert_eq!(sanitize_component("Bass 808 (v2)"), "Bass_808__v2");
}

#[test]
fn sanitized_is_safe_and_stable() {
    for s in ["", " a ", "__a__", "ü-ä", "x y\tz", "...", "ok"] {
        let r = sanitize_component(s);
        assert!(!r.is_empty());
        assert!(r.chars().all(|c| c.is_ascii_alphanumeric() || c == '-' || c == '_'));
        assert!(!r.starts_with('_') && !r.ends_with('_'));
        assert_eq!(sanitize_component(&r), r);
    }
}

#[test]
fn chars_of_text() {
    assert_eq!(chars_of("aé€"), vec!['a', 'é', '€']);
    assert_eq!(chars_of(""), Vec::<char>::new());
}
