use prank::config::{
    check_path, config_format, Clean, CleanOptions, Configuration, ConfigFormat, Core,
    CoreConfig, CoreOptions, RtcClean, Source, Tools,
};
use prank::errors::Error;

fn base_config() -> Configuration {
    Configuration {
        core: CoreConfig {
            prank_version: "^0.1".to_string(),
        },
        tools: Tools {
            sass: None,
            tailwindcss: None,
            purescript_backend_es: Some("1.4.0".to_string()),
            spago: None,
            purs_tidy: None,
        },
        clean: Clean {
            spago: true,
            dist: None,
        },
    }
}

#[test]
fn tools_overrides_win_over_configured_versions() {
    let overrides = Tools {
        sass: Some("1.77.0".to_string()),
        tailwindcss: None,
        purescript_backend_es: Some("1.5.0".to_string()),
        spago: None,
        purs_tidy: None,
    };
    let merged = overrides.apply_to(base_config()).unwrap();
    assert_eq!(merged.tools.sass, Some("1.77.0".to_string()));
    assert_eq!(merged.tools.tailwindcss, None);
    assert_eq!(
        merged.tools.purescript_backend_es,
        Some("1.5.0".to_string())
    );
    assert_eq!(merged.tools.spago, None);
    assert_eq!(merged.core.prank_version, "^0.1");
}

#[test]
fn core_override_replaces_required_version() {
    let over = Core {
        required_version: Some("^0.2".to_string()),
    };
    let merged = over.apply_to(base_config()).unwrap();
    assert_eq!(merged.core.prank_version, "^0.2");

    let keep = Core {
        required_version: None,
    };
    let kept = keep.apply_to(base_config()).unwrap();
    assert_eq!(kept.core.prank_version, "^0.1");
}

#[test]
fn source_find_takes_the_first_candidate_present() {
    // candidates in order: Prank.toml, .prank.toml, Prank.yaml, .prank.yaml,
    // Prank.json, .prank.json
    let probes = vec![false, false, true, true, false, false];
    let found = Source::find("proj", &probes).unwrap();
    let Source::File(path) = found;
    assert_eq!(path, "proj/Prank.yaml");
}

#[test]
fn source_find_without_any_candidate_is_an_error() {
    let probes = vec![false; 6];
    let err = Source::find("proj", &probes).unwrap_err();
    assert_eq!(
        err,
        Error::Config("Unable to find any Prank configuration".to_string())
    );
}

#[test]
fn check_path_joins_only_when_the_probe_found_a_file() {
    assert_eq!(
        check_path("dir", "Prank.toml", true),
        Some("dir/Prank.toml".to_string())
    );
    assert_eq!(check_path("dir", "Prank.toml", false), None);
}

#[test]
fn config_format_follows_the_extension() {
    assert_eq!(config_format("Prank.toml").unwrap(), ConfigFormat::Toml);
    assert_eq!(config_format("a/b/.prank.yaml").unwrap(), ConfigFormat::Yaml);
    assert_eq!(config_format("Prank.json").unwrap(), ConfigFormat::Json);
}

#[test]
fn config_format_rejects_unsupported_and_missing_extensions() {
    let unsupported = config_format("Prank.ini").unwrap_err();
    assert_eq!(
        unsupported,
        Error::Config("Unsupported configuration file type: ini".to_string())
    );
    let missing = config_format("Prankfile").unwrap_err();
    assert_eq!(
        missing,
        Error::Config("Missing configuration file extension".to_string())
    );
}

#[test]
fn rtc_clean_takes_the_clean_and_run_options() {
    let opts = CleanOptions {
        core: CoreOptions {
            working_directory: "/work".to_string(),
        },
        tools: true,
    };
    let rtc = RtcClean::new(base_config(), opts).unwrap();
    assert_eq!(rtc.core.prank_version, "^0.1");
    assert_eq!(rtc.core.working_directory, "/work");
    assert!(rtc.spago);
    assert!(rtc.tools);
}
