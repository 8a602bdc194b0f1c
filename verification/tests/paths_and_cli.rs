use prank::cli::{color_enabled, log_directives, prefer_silence, ColorMode, PrankAction};
use prank::errors::Error;
use prank::minify::stage_bytes;
use prank::paths::{extension_of, file_name_of, has_component, is_absolute, join, parent_of};
use prank::purescript::PureScriptAppType;
use prank::rt::CrossOrigin;
use prank::text::str_eq;

#[test]
fn join_resolves_relative_and_absolute_paths() {
    assert_eq!(join("base", "sub/file.js"), "base/sub/file.js");
    assert_eq!(join("base", "/abs/file.js"), "/abs/file.js");
    assert_eq!(join("", "file.js"), "file.js");
    assert_eq!(join("dir/", "file.js"), "dir/file.js");
    assert!(is_absolute("/x"));
    assert!(!is_absolute("x/y"));
}

#[test]
fn parent_file_name_and_extension_follow_the_model() {
    assert_eq!(parent_of("a/b/c.js"), Some("a/b".to_string()));
    assert_eq!(parent_of("c.js"), Some("".to_string()));
    assert_eq!(parent_of("/x"), Some("/".to_string()));
    assert_eq!(parent_of("/"), None);
    assert_eq!(parent_of(""), None);

    assert_eq!(file_name_of("a/b/c.js"), Some("c.js".to_string()));
    assert_eq!(file_name_of("a/b/"), None);
    assert_eq!(file_name_of("c.js"), Some("c.js".to_string()));

    assert_eq!(extension_of("a/Main.purs"), Some("purs".to_string()));
    assert_eq!(extension_of("a/archive.tar.gz"), Some("gz".to_string()));
    assert_eq!(extension_of("a/.hidden"), None);
    assert_eq!(extension_of("a/noext"), None);
}

#[test]
fn has_component_matches_whole_segments_only() {
    assert!(has_component("src/Main.purs", "src"));
    assert!(has_component("a/src/b.js", "src"));
    assert!(!has_component("srcx/b.js", "src"));
    assert!(!has_component("a/xsrc/b.js", "src"));
    assert!(has_component("src", "src"));
}

#[test]
fn str_eq_compares_characters() {
    assert!(str_eq("abc", "abc"));
    assert!(!str_eq("abc", "abd"));
    assert!(!str_eq("abc", "abcd"));
    assert!(str_eq("", ""));
}

#[test]
fn cross_origin_parses_the_closed_set() {
    assert_eq!(CrossOrigin::from_str("none").unwrap(), CrossOrigin::Unset);
    assert_eq!(
        CrossOrigin::from_str("anonymous").unwrap(),
        CrossOrigin::Anonymous
    );
    assert_eq!(
        CrossOrigin::from_str("use-credentials").unwrap(),
        CrossOrigin::UseCredentials
    );
    let err = CrossOrigin::from_str("maybe").unwrap_err();
    assert!(matches!(err, Error::Config(_)));
    assert!(err.message().contains("maybe"));
}

#[test]
fn app_type_parses_main_and_names_offenders() {
    assert_eq!(
        PureScriptAppType::from_str("main").unwrap(),
        PureScriptAppType::Main
    );
    let err = PureScriptAppType::from_str("worker").unwrap_err();
    assert_eq!(
        err,
        Error::Config(
            "unknown `data-type=\"worker\"` value for <link data-prank rel=\"purescript\" .../> attr; please ensure the value is lowercase and is a supported type"
                .to_string()
        )
    );
}

#[test]
fn staging_copies_verbatim_or_minifies() {
    let source = b"let answer = 1 + 2;\n".to_vec();
    let verbatim = stage_bytes(false, source.clone()).unwrap();
    assert_eq!(verbatim, source);
    let minified = stage_bytes(true, source.clone()).unwrap();
    assert_ne!(minified, source);
    assert!(minified.len() < source.len());
}

#[test]
fn minification_failure_is_fatal() {
    let broken = b"let = ;".to_vec();
    let err = stage_bytes(true, broken).unwrap_err();
    assert_eq!(err, Error::Execution("error minifying JS".to_string()));
}

#[test]
fn color_rules_follow_no_color_and_the_mode() {
    assert!(!color_enabled(true, ColorMode::Always, true));
    assert!(color_enabled(false, ColorMode::Always, false));
    assert!(!color_enabled(false, ColorMode::Never, true));
    assert!(color_enabled(false, ColorMode::Auto, true));
    assert!(!color_enabled(false, ColorMode::Auto, false));
}

#[test]
fn logging_directives_follow_quiet_verbose_and_overrides() {
    assert_eq!(
        log_directives(Some("warn".to_string()), 3, true, true),
        "warn"
    );
    assert_eq!(log_directives(None, 3, true, false), "error,prank=warn");
    assert_eq!(log_directives(None, 0, false, true), "error,prank=warn");
    assert_eq!(log_directives(None, 0, false, false), "error,prank=info");
    assert_eq!(log_directives(None, 1, false, false), "error,prank=debug");
    assert_eq!(log_directives(None, 2, false, false), "error,prank=trace");
}

#[test]
fn config_and_tools_subcommands_prefer_silence() {
    assert!(prefer_silence(PrankAction::Config));
    assert!(prefer_silence(PrankAction::Tools));
    assert!(!prefer_silence(PrankAction::Build));
    assert!(!prefer_silence(PrankAction::Watch));
    assert!(!prefer_silence(PrankAction::Serve));
    assert!(!prefer_silence(PrankAction::Clean));
}
