use prank::output::pattern_evaluate;
use prank::text::replace_all;

#[test]
fn pattern_evaluate_substitutes_every_placeholder() {
    let params = vec![
        ("base".to_string(), Some("/".to_string())),
        ("bundle".to_string(), Some("app.js".to_string())),
    ];
    assert_eq!(pattern_evaluate("{base}{bundle}", &params), "/app.js");
}

#[test]
fn pattern_evaluate_leaves_an_unresolved_indirection_untouched() {
    // a value of the shape `@missing-file` whose file could not be read
    // stands unresolved, and its placeholder survives verbatim
    let params = vec![("config".to_string(), None)];
    assert_eq!(
        pattern_evaluate("<script>{config}</script>", &params),
        "<script>{config}</script>"
    );
}

#[test]
fn pattern_evaluate_replaces_repeated_placeholders() {
    let params = vec![("x".to_string(), Some("ab".to_string()))];
    assert_eq!(pattern_evaluate("{x}-{x}-{x}", &params), "ab-ab-ab");
}

#[test]
fn pattern_evaluate_ignores_unknown_placeholders() {
    let params = vec![("known".to_string(), Some("v".to_string()))];
    assert_eq!(pattern_evaluate("{known}{unknown}", &params), "v{unknown}");
}

#[test]
fn replace_all_scans_left_to_right_without_rescanning() {
    assert_eq!(replace_all("aaa", "aa", "b"), "ba");
    assert_eq!(replace_all("abcabc", "b", "xy"), "axycaxyc");
    assert_eq!(replace_all("none here", "zz", "y"), "none here");
    // the replacement text is not rescanned for the pattern
    assert_eq!(replace_all("ab", "a", "ab"), "abb");
}
