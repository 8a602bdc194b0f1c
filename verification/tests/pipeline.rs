use prank::attrs::Attrs;
use prank::config::Tools;
use prank::errors::Error;
use prank::purescript::{
    manifest_href, BuildPlan, PureScriptApp, PureScriptAppType, SpagoMetadata,
};
use prank::rt::{CrossOrigin, Features, RtcBuild};

fn cfg(release: bool) -> RtcBuild {
    RtcBuild {
        release,
        offline: false,
        frozen: false,
        locked: false,
        minify: false,
        filehash: true,
        no_sri: false,
        inject_scripts: true,
        public_url: "/".to_string(),
        staging_dist: "dist/.stage".to_string(),
        working_directory: ".".to_string(),
        nonce: None,
        pattern_script: None,
        pattern_preload: None,
        pattern_params: Vec::new(),
        spago_features: Features::default(),
        spago_profile: None,
        tools: Tools::default(),
    }
}

fn manifest() -> SpagoMetadata {
    SpagoMetadata::new("./spago.yaml".to_string(), "app".to_string()).unwrap()
}

#[test]
fn manifest_metadata_roots_at_the_parent_directory() {
    let m = manifest();
    assert_eq!(m.workspace_root, ".");
    assert_eq!(m.target_directory(), "./output");
    assert_eq!(m.package.name, "app");

    let err = SpagoMetadata::new("".to_string(), "app".to_string()).unwrap_err();
    assert_eq!(
        err,
        Error::Io("manifest path has no parent directory".to_string())
    );
}

#[test]
fn manifest_href_resolution_rules() {
    let mut attrs = Attrs::new();
    assert_eq!(manifest_href(&attrs, "."), "./spago.yaml");

    attrs.insert("href".to_string(), "sub/project".to_string());
    assert_eq!(manifest_href(&attrs, "."), "./sub/project/spago.yaml");

    let mut direct = Attrs::new();
    direct.insert("href".to_string(), "sub/spago.yaml".to_string());
    assert_eq!(manifest_href(&direct, "."), "./sub/spago.yaml");

    let mut abs = Attrs::new();
    abs.insert("href".to_string(), "/opt/proj".to_string());
    assert_eq!(manifest_href(&abs, "."), "/opt/proj/spago.yaml");
}

#[test]
fn all_features_conflicts_are_a_construction_error() {
    let cases: &[&[&str]] = &[
        &["data-spago-all-features", "data-spago-no-default-features"],
        &["data-spago-all-features", "data-spago-features"],
        &[
            "data-spago-all-features",
            "data-spago-no-default-features",
            "data-spago-features",
        ],
    ];
    for keys in cases {
        let mut attrs = Attrs::new();
        for k in *keys {
            attrs.insert(k.to_string(), "core".to_string());
        }
        let err = PureScriptApp::new(cfg(false), ".", &attrs, 0, Vec::new(), manifest())
            .unwrap_err();
        assert_eq!(
            err,
            Error::Config(
                "Cannot combine --all-features with --no-default-features and/or --features"
                    .to_string()
            )
        );
    }
    // all-features alone is fine
    let mut alone = Attrs::new();
    alone.insert("data-spago-all-features".to_string(), "".to_string());
    let app = PureScriptApp::new(cfg(false), ".", &alone, 0, Vec::new(), manifest()).unwrap();
    assert_eq!(app.spago_features, Features::All);
}

#[test]
fn unknown_type_and_cross_origin_values_fail_construction() {
    let mut attrs = Attrs::new();
    attrs.insert("data-type".to_string(), "worker".to_string());
    let err =
        PureScriptApp::new(cfg(false), ".", &attrs, 0, Vec::new(), manifest()).unwrap_err();
    assert!(err.message().contains("worker"));
    assert!(matches!(err, Error::Config(_)));

    let mut attrs = Attrs::new();
    attrs.insert("data-cross-origin".to_string(), "sometimes".to_string());
    let err =
        PureScriptApp::new(cfg(false), ".", &attrs, 0, Vec::new(), manifest()).unwrap_err();
    assert!(err.message().contains("sometimes"));
    assert!(matches!(err, Error::Config(_)));

    let mut attrs = Attrs::new();
    attrs.insert("data-cross-origin".to_string(), "anonymous".to_string());
    let app = PureScriptApp::new(cfg(false), ".", &attrs, 0, Vec::new(), manifest()).unwrap();
    assert_eq!(app.cross_origin, CrossOrigin::Anonymous);
    assert_eq!(app.app_type, PureScriptAppType::Main);
}

#[test]
fn changed_path_rules_decide_the_compiler_run() {
    // an empty set always triggers a full compiler invocation
    let app = PureScriptApp::new_default(cfg(false), Some(manifest())).unwrap();
    assert!(app.should_run_spago_build());

    let mut app = PureScriptApp::new_default(cfg(false), Some(manifest())).unwrap();
    // no compiled-source or FFI-in-source-dir paths: skip
    app.changed_paths = vec!["README.md".to_string(), "assets/logo.svg".to_string()];
    assert!(!app.should_run_spago_build());
    // a JS file outside the source directory does not qualify
    app.changed_paths = vec!["lib/helper.js".to_string()];
    assert!(!app.should_run_spago_build());
    // a directory merely named like the source directory does not qualify
    app.changed_paths = vec!["srcx/helper.js".to_string()];
    assert!(!app.should_run_spago_build());

    // at least one qualifying path triggers the run
    app.changed_paths = vec!["README.md".to_string(), "src/Main.purs".to_string()];
    assert!(app.should_run_spago_build());
    app.changed_paths = vec!["src/ffi/Interop.js".to_string()];
    assert!(app.should_run_spago_build());
}

#[test]
fn skip_flag_short_circuits_the_whole_build() {
    let mut attrs = Attrs::new();
    attrs.insert("data-prank-skip".to_string(), "".to_string());
    let app = PureScriptApp::new(cfg(true), ".", &attrs, 3, Vec::new(), manifest()).unwrap();
    assert!(app.skip_build);
    // construction succeeded and the plan spawns nothing at all
    assert!(matches!(app.build_plan(), BuildPlan::Skip));
}

#[test]
fn release_plan_names_bundler_arguments_and_paths() {
    let app = PureScriptApp::new_default(cfg(true), Some(manifest())).unwrap();
    match app.build_plan() {
        BuildPlan::Release {
            run_compiler,
            spago_args,
            bundle_dir,
            bundle_path,
            bundle_args,
        } => {
            assert!(run_compiler);
            assert_eq!(spago_args, vec!["build".to_string()]);
            assert_eq!(bundle_dir, "./output/bundle");
            assert_eq!(bundle_path, "./output/bundle/index.js");
            assert_eq!(
                bundle_args,
                vec![
                    "bundle-app".to_string(),
                    "--to".to_string(),
                    "./output/bundle/index.js".to_string()
                ]
            );
        }
        _ => panic!("expected a release plan"),
    }
}

#[test]
fn spago_args_follow_offline_and_locked_flags() {
    let mut c = cfg(false);
    c.offline = true;
    c.locked = true;
    let app = PureScriptApp::new_default(c, Some(manifest())).unwrap();
    match app.build_plan() {
        BuildPlan::Dev { spago_args, .. } => {
            assert_eq!(
                spago_args,
                vec![
                    "build".to_string(),
                    "--offline".to_string(),
                    "--pure".to_string()
                ]
            );
        }
        _ => panic!("expected a development plan"),
    }
}

#[test]
fn dev_plan_locates_the_default_entry_point() {
    let app = PureScriptApp::new_default(cfg(false), Some(manifest())).unwrap();
    match app.build_plan() {
        BuildPlan::Dev {
            public_name,
            entry_path,
            run_script,
            ..
        } => {
            assert_eq!(public_name, "output/Main/index.js");
            assert_eq!(entry_path, "./output/Main/index.js");
            assert_eq!(
                run_script,
                "import { main } from '/output/Main/index.js';\nmain();"
            );
        }
        _ => panic!("expected a development plan"),
    }
}

#[test]
fn dev_entry_override_follows_the_data_main_attribute() {
    let mut attrs = Attrs::new();
    attrs.insert("data-main".to_string(), "App.Entry".to_string());
    let app = PureScriptApp::new(cfg(false), ".", &attrs, 0, Vec::new(), manifest()).unwrap();
    assert_eq!(app.dev_public_name(), "output/App.Entry/index.js");
    assert_eq!(app.dev_entry_path(), "./output/App.Entry/index.js");
}

#[test]
fn missing_dev_entry_point_fails_with_path_and_hint() {
    let app = PureScriptApp::new_default(cfg(false), Some(manifest())).unwrap();
    let entry = app.dev_entry_path();
    let err = PureScriptApp::check_dev_entry(entry.as_str(), false).unwrap_err();
    let msg = err.message();
    assert!(msg.contains("./output/Main/index.js"));
    assert!(msg.contains("Is `data-main` attribute correct?"));
    assert!(matches!(err, Error::Execution(_)));

    // a sibling pipeline in the same batch still completes
    let sibling = PureScriptApp::new_default(cfg(false), Some(manifest())).unwrap();
    assert!(PureScriptApp::check_dev_entry(
        sibling.dev_entry_path().as_str(),
        true
    )
    .is_ok());
    let out = sibling.build_sri_and_output(
        "output/Main/index.js".to_string(),
        &b"main".to_vec(),
        None,
        Some("import { main } from '/output/Main/index.js';\nmain();".to_string()),
    );
    assert_eq!(out.bundle_output, "output/Main/index.js");
}

#[test]
fn missing_bundle_fails_naming_the_expected_path() {
    let err = PureScriptApp::check_bundle_exists("./output/bundle/index.js", false).unwrap_err();
    assert_eq!(
        err,
        Error::Execution(
            "purs-backend-es succeeded, but expected JS bundle was not found at ./output/bundle/index.js. "
                .to_string()
        )
    );
    assert!(PureScriptApp::check_bundle_exists("./output/bundle/index.js", true).is_ok());
}

#[test]
fn default_construction_without_a_manifest_yields_no_pipeline() {
    assert!(PureScriptApp::new_default(cfg(false), None).is_none());
}

#[test]
fn hashed_name_requires_a_file_path() {
    let app = PureScriptApp::new_default(cfg(true), Some(manifest())).unwrap();
    let bytes = b"bundle".to_vec();
    let name = app.hashed_name("./output/bundle/index.js", &bytes).unwrap();
    assert!(name.ends_with("-index.js"));
    let err = app.hashed_name("", &bytes).unwrap_err();
    assert_eq!(err, Error::Io("Must be a file: ".to_string()));
}
