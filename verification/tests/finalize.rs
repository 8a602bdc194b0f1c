use base64::Engine;
use prank::config::Tools;
use prank::document::Document;
use prank::errors::Error;
use prank::purescript::{PureScriptApp, SpagoMetadata};
use prank::rt::{CrossOrigin, Features, RtcBuild};
use sha2::Digest;

fn cfg(release: bool) -> RtcBuild {
    RtcBuild {
        release,
        offline: false,
        frozen: false,
        locked: false,
        minify: false,
        filehash: true,
        no_sri: false,
        inject_scripts: true,
        public_url: "/".to_string(),
        staging_dist: "dist/.stage".to_string(),
        working_directory: ".".to_string(),
        nonce: None,
        pattern_script: None,
        pattern_preload: None,
        pattern_params: Vec::new(),
        spago_features: Features::default(),
        spago_profile: None,
        tools: Tools::default(),
    }
}

fn manifest() -> SpagoMetadata {
    SpagoMetadata::new("./spago.yaml".to_string(), "app".to_string()).unwrap()
}

fn doc() -> Document {
    Document::new(true, 1, Vec::new())
}

const FIRE: &str = "dispatchEvent(new CustomEvent(\"PrankApplicationStarted\"));";

#[test]
fn dev_mode_appends_the_default_run_script_into_the_body() {
    let app = PureScriptApp::new_default(cfg(false), Some(manifest())).unwrap();
    let run_script = "import { main } from '/output/Main/index.js';\nmain();".to_string();
    let out = app.build_sri_and_output(
        "output/Main/index.js".to_string(),
        &b"compiled".to_vec(),
        None,
        Some(run_script),
    );
    let mut dom = doc();
    out.finalize(&mut dom, &Vec::new()).unwrap();
    assert_eq!(dom.body_appends.len(), 1);
    assert_eq!(
        dom.body_appends[0],
        format!(
            "\n<script type=\"module\">\nimport {{ main }} from '/output/Main/index.js';\nmain();\n{FIRE}\n</script>"
        )
    );
    // one SRI preload element went into the head for the entry point
    assert_eq!(dom.head_appends.len(), 1);
    assert!(dom.head_appends[0].contains("href=\"/output/Main/index.js\""));
}

#[test]
fn release_mode_records_one_sri_digest_and_one_preload_element() {
    let bundle_bytes = b"var main = 1;".to_vec();
    let app = PureScriptApp::new_default(cfg(true), Some(manifest())).unwrap();
    let staged = app.hashed_name("./output/bundle/index.js", &bundle_bytes).unwrap();
    let expected_hash = format!("{:x}", seahash::hash(b"var main = 1;"));
    assert_eq!(staged, format!("{expected_hash}-index.js"));

    let out = app.build_sri_and_output(staged.clone(), &bundle_bytes, None, None);
    assert_eq!(out.integrities.records.len(), 1);
    let expected_digest = format!(
        "sha384-{}",
        base64::engine::general_purpose::STANDARD.encode(sha2::Sha384::digest(&bundle_bytes))
    );
    assert_eq!(out.integrities.records[0].digest, expected_digest);
    assert_eq!(out.integrities.records[0].name, staged);

    let mut dom = doc();
    out.finalize(&mut dom, &Vec::new()).unwrap();
    assert_eq!(dom.head_appends.len(), 1);
    assert!(dom.head_appends[0].contains(&format!("integrity=\"{expected_digest}\"")));
    assert!(dom.head_appends[0].contains(&format!("href=\"/{staged}\"")));
    assert!(dom.head_appends[0].starts_with("<link rel=\"modulepreload\""));
}

#[test]
fn no_sri_configuration_records_nothing() {
    let mut c = cfg(true);
    c.no_sri = true;
    let app = PureScriptApp::new_default(c, Some(manifest())).unwrap();
    let out = app.build_sri_and_output("index.js".to_string(), &b"x".to_vec(), None, None);
    assert_eq!(out.integrities.records.len(), 0);
    let mut dom = doc();
    out.finalize(&mut dom, &Vec::new()).unwrap();
    assert_eq!(dom.head_appends.len(), 0);
    assert_eq!(dom.body_appends.len(), 1);
}

#[test]
fn injection_disabled_leaves_the_document_untouched() {
    let mut c = cfg(false);
    c.inject_scripts = false;
    let app = PureScriptApp::new_default(c, Some(manifest())).unwrap();
    let out = app.build_sri_and_output(
        "output/Main/index.js".to_string(),
        &b"compiled".to_vec(),
        None,
        Some("main();".to_string()),
    );
    let mut dom = doc();
    out.finalize(&mut dom, &Vec::new()).unwrap();
    assert_eq!(dom.head_appends.len(), 0);
    assert_eq!(dom.body_appends.len(), 0);
    assert_eq!(dom.replacements.len(), 0);
}

#[test]
fn finalize_twice_on_identical_inputs_produces_identical_markup() {
    let make = || {
        let app = PureScriptApp::new_default(cfg(true), Some(manifest())).unwrap();
        app.build_sri_and_output("a-index.js".to_string(), &b"bundle".to_vec(), None, None)
    };
    let mut d1 = doc();
    let mut d2 = doc();
    make().finalize(&mut d1, &Vec::new()).unwrap();
    make().finalize(&mut d2, &Vec::new()).unwrap();
    assert_eq!(d1.head_appends, d2.head_appends);
    assert_eq!(d1.body_appends, d2.body_appends);
    assert_eq!(d1.replacements, d2.replacements);
    assert_eq!(d1.body_children, d2.body_children);
}

#[test]
fn an_explicit_id_replaces_the_directive_element() {
    let mut attrs = prank::attrs::Attrs::new();
    let app =
        PureScriptApp::new(cfg(false), ".", &mut attrs, 7, Vec::new(), manifest()).unwrap();
    let out = app.build_sri_and_output(
        "output/Main/index.js".to_string(),
        &b"c".to_vec(),
        None,
        Some("main();".to_string()),
    );
    let mut dom = Document::new(true, 1, vec![7]);
    out.finalize(&mut dom, &Vec::new()).unwrap();
    assert_eq!(dom.elements.len(), 0);
    assert_eq!(dom.replacements.len(), 1);
    assert_eq!(dom.replacements[0].0, 7);
    assert!(dom.replacements[0].1.contains("main();"));
    assert_eq!(dom.body_appends.len(), 0);
}

#[test]
fn an_empty_body_without_a_directive_element_is_fatal() {
    let app = PureScriptApp::new_default(cfg(false), Some(manifest())).unwrap();
    let out = app.build_sri_and_output(
        "output/Main/index.js".to_string(),
        &b"c".to_vec(),
        None,
        Some("main();".to_string()),
    );
    let mut dom = Document::new(true, 0, Vec::new());
    let err = out.finalize(&mut dom, &Vec::new()).unwrap_err();
    assert_eq!(
        err,
        Error::Dom(
            "Document has neither a <link data-prank rel=\"purescript\"/> nor a <body>. Either one must be present."
                .to_string()
        )
    );
    // the head markup had already been appended when placement failed
    assert_eq!(dom.body_appends.len(), 0);
}

#[test]
fn custom_script_pattern_is_evaluated_against_the_parameters() {
    let mut c = cfg(true);
    c.pattern_script = Some("<script src=\"{base}{bundle}\" data-co=\"{crossorigin}\"></script>".to_string());
    c.no_sri = true;
    let mut attrs = prank::attrs::Attrs::new();
    attrs.insert("data-cross-origin".to_string(), "anonymous".to_string());
    let app = PureScriptApp::new(c, ".", &attrs, 1, Vec::new(), manifest()).unwrap();
    assert_eq!(app.cross_origin, CrossOrigin::Anonymous);
    let out = app.build_sri_and_output("b-index.js".to_string(), &b"c".to_vec(), None, None);
    let mut dom = Document::new(true, 1, vec![1]);
    out.finalize(&mut dom, &Vec::new()).unwrap();
    assert_eq!(
        dom.replacements[0].1,
        "<script src=\"/b-index.js\" data-co=\"anonymous\"></script>"
    );
}

#[test]
fn custom_preload_pattern_wins_over_sri_injection() {
    let mut c = cfg(true);
    c.pattern_preload = Some("<link rel=\"preload\" href=\"{base}{bundle}\">".to_string());
    let app = PureScriptApp::new_default(c, Some(manifest())).unwrap();
    let out = app.build_sri_and_output("h-index.js".to_string(), &b"c".to_vec(), None, None);
    let mut dom = doc();
    out.finalize(&mut dom, &Vec::new()).unwrap();
    assert_eq!(dom.head_appends.len(), 1);
    assert_eq!(dom.head_appends[0], "<link rel=\"preload\" href=\"/h-index.js\">");
}

#[test]
fn nonce_and_cross_origin_reach_the_generated_markup() {
    let mut c = cfg(true);
    c.nonce = Some("abc123".to_string());
    let mut attrs = prank::attrs::Attrs::new();
    attrs.insert("data-cross-origin".to_string(), "anonymous".to_string());
    let app = PureScriptApp::new(c, ".", &attrs, 1, Vec::new(), manifest()).unwrap();
    let out = app.build_sri_and_output("n-index.js".to_string(), &b"c".to_vec(), None, None);
    let mut dom = Document::new(true, 1, vec![1]);
    out.finalize(&mut dom, &Vec::new()).unwrap();
    assert!(dom.head_appends[0].contains(" crossorigin=\"anonymous\""));
    assert!(dom.head_appends[0].contains(" nonce=\"abc123\""));
    assert!(dom.replacements[0].1.contains(" nonce=\"abc123\""));
}

#[test]
fn initializer_markup_awaits_the_setup_export() {
    let app = PureScriptApp::new_default(cfg(true), Some(manifest())).unwrap();
    let out = app.build_sri_and_output(
        "b-index.js".to_string(),
        &b"bundle".to_vec(),
        Some(("i-init.js".to_string(), b"init".to_vec())),
        None,
    );
    assert_eq!(out.integrities.records.len(), 2);
    assert_eq!(out.integrities.records[1].name, "i-init.js");
    assert_eq!(out.initializer, Some("i-init.js".to_string()));

    let script = out.default_initializer("/", "b-index.js", FIRE);
    assert_eq!(
        script,
        format!(
            "\n<script type=\"module\">\nimport setup from '/i-init.js';\nif (typeof setup === 'function') {{\n    await Promise.resolve(setup());\n}}\nimport '/b-index.js';\n{FIRE}\n</script>"
        )
    );
}

#[test]
fn initializer_staging_hashes_and_stages_the_module() {
    let mut attrs = prank::attrs::Attrs::new();
    attrs.insert("data-initializer".to_string(), "init.js".to_string());
    let app = PureScriptApp::new(cfg(true), ".", &attrs, 1, Vec::new(), manifest()).unwrap();
    assert_eq!(app.initializer, Some("./init.js".to_string()));
    let bytes = b"export default () => {};".to_vec();
    let (name, staged) = app.prepare_initializer(&bytes).unwrap();
    let expected_hash = format!("{:x}", seahash::hash(b"export default () => {};"));
    assert_eq!(name, format!("{expected_hash}-init.js"));
    // minification is off in this configuration: staged bytes are verbatim
    assert_eq!(staged, bytes);
}

#[test]
fn built_in_parameters_win_over_custom_parameters_of_the_same_name() {
    let mut c = cfg(true);
    c.no_sri = true;
    c.pattern_script = Some("{base}{bundle}".to_string());
    let app = PureScriptApp::new_default(c, Some(manifest())).unwrap();
    let out = app.build_sri_and_output("x.js".to_string(), &b"c".to_vec(), None, None);
    let mut dom = doc();
    let params = vec![("base".to_string(), Some("USER".to_string()))];
    out.finalize(&mut dom, &params).unwrap();
    // the finalizer's own base substitution runs first, so the custom value
    // finds no placeholder left
    assert_eq!(dom.body_appends[0], "/x.js");
}
