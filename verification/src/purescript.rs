//! The PureScript application pipeline: constructed from one directive
//! element's attributes (or from defaults when a manifest alone is found),
//! it decides whether the compiler must run, which arguments the external
//! tools receive, where the bundle or the development entry point lives, and
//! what the finished output value holds.
//!
//! External processes and the file system are the caller's collaborators: the
//! caller probes and reads, and every decision those probes feed is verified
//! here.

use vstd::prelude::*;
use crate::attrs::{spec_get, Attrs};
use crate::errors::Error;
use crate::hash::{spec_cache_busted, cache_busted_name};
use crate::minify::{spec_staged_bytes, stage_bytes};
use crate::output::PureScriptAppOutput;
use crate::paths::{
    spec_extension,
    spec_file_name,
    spec_has_component,
    spec_join,
    spec_last_segment,
    spec_parent,
    extension_of,
    file_name_of,
    has_component,
    join,
    last_segment,
    parent_of,
};
use crate::rt::{CrossOrigin, Features, FeaturesV, RtcBuild, RtcBuildV};
use crate::sri::{spec_digest_value, IntegrityType, SriBuilder, SriOptions, SriRecordV, SriType};
use crate::text::{clone_opt_string, opt_str_view, str_eq};

verus! {

/// The package section of a project manifest.
#[derive(Debug)]
pub struct SpagoPackage {
    /// The declared package name.
    pub name: String,
}

/// The manifest describing the source project backing a pipeline.
#[derive(Debug)]
pub struct SpagoMetadata {
    /// The path to the manifest file.
    pub manifest_path: String,
    /// The directory containing the manifest.
    pub workspace_root: String,
    /// The package section of the manifest.
    pub package: SpagoPackage,
}

impl SpagoMetadata {
    /// Build the metadata for a manifest at `manifest_path` whose parsed
    /// package name is `package_name`.  The workspace root is always the
    /// manifest's parent directory; a path without one is refused.
    pub fn new(manifest_path: String, package_name: String) -> (r: Result<SpagoMetadata, Error>)
        ensures
            match r {
                Ok(m) => spec_parent(manifest_path@) == Some(m.workspace_root@)
                    && m.manifest_path == manifest_path && m.package.name == package_name,
                Err(e) => spec_parent(manifest_path@) is None && (e matches Error::Io(msg)
                    && msg@ == "manifest path has no parent directory"@),
            },
    {
        match parent_of(manifest_path.as_str()) {
            Some(workspace_root) => Ok(
                SpagoMetadata {
                    manifest_path,
                    workspace_root,
                    package: SpagoPackage { name: package_name },
                },
            ),
            None => Err(Error::Io(String::from_str("manifest path has no parent directory"))),
        }
    }

    /// The compiler's output directory, relative to the workspace root.
    pub fn target_directory(&self) -> (r: String)
        ensures
            r@ == spec_join(self.workspace_root@, "output"@),
    {
        join(self.workspace_root.as_str(), "output")
    }
}

/// How the application is used.
#[derive(Debug, Clone, Copy, PartialEq, Eq, Structural)]
pub enum PureScriptAppType {
    /// Used as the main application.
    Main,
}

/// The application type a directive value selects, if it is known.
pub open spec fn spec_parse_app_type(v: Seq<char>) -> Option<PureScriptAppType> {
    if v == "main"@ {
        Some(PureScriptAppType::Main)
    } else {
        None
    }
}

impl PureScriptAppType {
    /// Parse a directive's `data-type` value against the closed set; an
    /// unknown value is a configuration error naming it.
    pub fn from_str(s: &str) -> (r: Result<PureScriptAppType, Error>)
        ensures
            match r {
                Ok(t) => spec_parse_app_type(s@) == Some(t),
                Err(e) => spec_parse_app_type(s@) is None && (e matches Error::Config(m) && m@
                    == "unknown `data-type=\""@ + s@
                    + "\"` value for <link data-prank rel=\"purescript\" .../> attr; please ensure the value is lowercase and is a supported type"@),
            },
    {
        if str_eq(s, "main") {
            Ok(PureScriptAppType::Main)
        } else {
            let mut m = String::from_str("unknown `data-type=\"");
            m.append(s);
            m.append(
                "\"` value for <link data-prank rel=\"purescript\" .../> attr; please ensure the value is lowercase and is a supported type",
            );
            Err(Error::Config(m))
        }
    }
}

/// The cross-origin policy a directive value selects, if it is known.
pub open spec fn spec_parse_cross_origin(v: Seq<char>) -> Option<CrossOrigin> {
    if v == "none"@ {
        Some(CrossOrigin::Unset)
    } else if v == "anonymous"@ {
        Some(CrossOrigin::Anonymous)
    } else if v == "use-credentials"@ {
        Some(CrossOrigin::UseCredentials)
    } else {
        None
    }
}

/// The digest kind a directive value selects, if it is known.
pub open spec fn spec_parse_integrity(v: Seq<char>) -> Option<IntegrityType> {
    if v == "none"@ {
        Some(IntegrityType::Disabled)
    } else if v == "sha256"@ {
        Some(IntegrityType::Sha256)
    } else if v == "sha384"@ {
        Some(IntegrityType::Sha384)
    } else if v == "sha512"@ {
        Some(IntegrityType::Sha512)
    } else {
        None
    }
}

/// The application type the attribute set selects, absent on an unknown
/// value.
pub open spec fn spec_app_type(av: Seq<(Seq<char>, Seq<char>)>) -> Option<PureScriptAppType> {
    match spec_get(av, "data-type"@) {
        Some(v) => spec_parse_app_type(v),
        None => Some(PureScriptAppType::Main),
    }
}

/// The cross-origin policy the attribute set selects, absent on an unknown
/// value.
pub open spec fn spec_cross(av: Seq<(Seq<char>, Seq<char>)>) -> Option<CrossOrigin> {
    match spec_get(av, "data-cross-origin"@) {
        Some(v) => spec_parse_cross_origin(v),
        None => Some(CrossOrigin::Unset),
    }
}

/// The digest kind the attribute set selects, absent on an unknown value.
pub open spec fn spec_integrity(av: Seq<(Seq<char>, Seq<char>)>, no_sri: bool) -> Option<
    IntegrityType,
> {
    match spec_get(av, "data-integrity"@) {
        Some(v) => spec_parse_integrity(v),
        None => Some(IntegrityType::default_unless_spec(no_sri)),
    }
}

/// Whether the attribute set combines enabling every feature with naming
/// features or disabling the default set — a configuration error.
pub open spec fn spec_feature_conflict(av: Seq<(Seq<char>, Seq<char>)>) -> bool {
    spec_get(av, "data-spago-all-features"@) is Some && (spec_get(
        av,
        "data-spago-no-default-features"@,
    ) is Some || spec_get(av, "data-spago-features"@) is Some)
}

/// The feature selection the attribute set yields, inheriting the global one
/// when the directive names nothing.
pub open spec fn spec_features(av: Seq<(Seq<char>, Seq<char>)>, cfg: RtcBuildV) -> FeaturesV {
    if spec_get(av, "data-spago-all-features"@) is Some {
        FeaturesV::All
    } else if spec_get(av, "data-spago-no-default-features"@) is Some || spec_get(
        av,
        "data-spago-features"@,
    ) is Some {
        FeaturesV::Custom {
            features: spec_get(av, "data-spago-features"@),
            no_default_features: spec_get(av, "data-spago-no-default-features"@) is Some,
        }
    } else {
        cfg.spago_features
    }
}

/// The build profile the attribute set yields: the mode-specific attribute,
/// else the generic one, else the globally configured profile.
pub open spec fn spec_profile(av: Seq<(Seq<char>, Seq<char>)>, cfg: RtcBuildV) -> Option<
    Seq<char>,
> {
    let mode_attr = if cfg.release {
        spec_get(av, "data-spago-profile-release"@)
    } else {
        spec_get(av, "data-spago-profile-dev"@)
    };
    let attr = match mode_attr {
        Some(v) => Some(v),
        None => spec_get(av, "data-spago-profile"@),
    };
    match attr {
        Some(v) => Some(v),
        None => cfg.spago_profile,
    }
}

/// The initializer module path the attribute set yields, resolved against
/// the document directory unless absolute.
pub open spec fn spec_initializer(av: Seq<(Seq<char>, Seq<char>)>, html_dir: Seq<char>) -> Option<
    Seq<char>,
> {
    match spec_get(av, "data-initializer"@) {
        Some(p) => Some(spec_join(html_dir, p)),
        None => None,
    }
}

/// The manifest location the attribute set yields: the reference attribute
/// resolved against the document directory unless absolute, with the
/// conventional manifest file name appended unless it already names it; with
/// no reference attribute, the conventional name in the document directory.
pub open spec fn spec_manifest_href(av: Seq<(Seq<char>, Seq<char>)>, html_dir: Seq<char>) -> Seq<
    char,
> {
    match spec_get(av, "href"@) {
        Some(attr) => {
            let p = spec_join(html_dir, attr);
            if spec_last_segment(p) == "spago.yaml"@ {
                p
            } else {
                spec_join(p, "spago.yaml"@)
            }
        },
        None => spec_join(html_dir, "spago.yaml"@),
    }
}

/// The manifest location selected by a directive's attributes under the
/// document directory.
pub fn manifest_href(attrs: &Attrs, html_dir: &str) -> (r: String)
    ensures
        r@ == spec_manifest_href(attrs@, html_dir@),
{
    match attrs.get("href") {
        Some(attr) => {
            let p = join(html_dir, attr.as_str());
            let seg = last_segment(p.as_str());
            if str_eq(seg.as_str(), "spago.yaml") {
                p
            } else {
                join(p.as_str(), "spago.yaml")
            }
        },
        None => join(html_dir, "spago.yaml"),
    }
}

/// Whether one changed path obliges a compiler run: a compiled-source file,
/// or an FFI source file under the conventional source directory.
pub open spec fn spec_triggers_build(p: Seq<char>) -> bool {
    spec_extension(p) == Some("purs"@) || (spec_extension(p) == Some("js"@)
        && spec_has_component(p, "src"@))
}

/// Whether a changed-path set obliges a compiler run: an empty set always
/// does (first build or full rebuild), a non-empty one only when it holds a
/// qualifying path.
pub open spec fn spec_should_run(paths: Seq<Seq<char>>) -> bool {
    paths.len() == 0 || exists|i: int| 0 <= i < paths.len() && spec_triggers_build(paths[i])
}

/// Whether one changed path obliges a compiler run.
fn triggers_build(p: &str) -> (r: bool)
    ensures
        r == spec_triggers_build(p@),
{
    match extension_of(p) {
        Some(e) => {
            if str_eq(e.as_str(), "purs") {
                true
            } else if str_eq(e.as_str(), "js") {
                has_component(p, "src")
            } else {
                false
            }
        },
        None => false,
    }
}

/// The compiler arguments for one build: `build`, plus the offline flag and
/// the locked/pure flag when the configuration asks for them.  The build
/// profile is accepted in the data model but deliberately not yet forwarded.
pub open spec fn spec_spago_args(cfg: RtcBuildV) -> Seq<Seq<char>> {
    let args = seq!["build"@];
    let args = if cfg.offline {
        args.push("--offline"@)
    } else {
        args
    };
    if cfg.locked {
        args.push("--pure"@)
    } else {
        args
    }
}

/// What the build step will do for one pipeline, decided before any external
/// work is performed.
pub enum BuildPlan {
    /// The skip flag short-circuits the build: no process is spawned and the
    /// output is the no-op output.
    Skip,
    /// Release mode: compile if obliged, bundle, then hash and stage.
    Release {
        /// Whether the compiler itself must run for this change set.
        run_compiler: bool,
        /// The compiler's argument list.
        spago_args: Vec<String>,
        /// The directory the bundle is written into.
        bundle_dir: String,
        /// The expected bundle file.
        bundle_path: String,
        /// The bundler's argument list.
        bundle_args: Vec<String>,
    },
    /// Development mode: compile if obliged, then locate the compiled entry
    /// point and synthesize the inline run script.
    Dev {
        /// Whether the compiler itself must run for this change set.
        run_compiler: bool,
        /// The compiler's argument list.
        spago_args: Vec<String>,
        /// The URL-relative public name of the entry point.
        public_name: String,
        /// The expected compiled entry file.
        entry_path: String,
        /// The inline module script that starts the application.
        run_script: String,
    },
}

/// A PureScript application pipeline, constructed once per directive and
/// consumed by one build.
#[derive(Debug)]
pub struct PureScriptApp {
    /// The id of this pipeline's source HTML element; absent for the
    /// implicit default pipeline, which anchors its output at the body.
    pub id: Option<usize>,
    /// The shared build configuration.
    pub cfg: RtcBuild,
    /// Skip building altogether.
    pub skip_build: bool,
    /// The build profile handed to the compiler; parsed and stored, not yet
    /// forwarded.
    pub spago_profile: Option<String>,
    /// The feature selection handed to the compiler.
    pub spago_features: Features,
    /// How the application is used.
    pub app_type: PureScriptAppType,
    /// The manifest of the backing project.
    pub manifest: SpagoMetadata,
    /// The entry module to bundle, defaulted later to `Main`.
    pub main_module: Option<String>,
    /// An optional target sub-path inside the staging directory.
    pub target_path: Option<String>,
    /// The cross-origin policy for the emitted resources.
    pub cross_origin: CrossOrigin,
    /// The subresource-integrity builder.
    pub sri: SriBuilder,
    /// The initializer module path, resolved against the document directory.
    pub initializer: Option<String>,
    /// The paths that changed in the current build cycle; empty means a
    /// first build, forcing a full compile.
    pub changed_paths: Vec<String>,
}

impl PureScriptApp {
    /// Construct a pipeline from a directive's attributes.  The manifest at
    /// [`manifest_href`]'s location is loaded by the caller and handed in.
    /// Configuration errors — an unknown type, an unknown cross-origin or
    /// integrity value, or a conflicting feature combination — fail the
    /// construction before any process is spawned.
    pub fn new(
        cfg: RtcBuild,
        html_dir: &str,
        attrs: &Attrs,
        id: usize,
        changed_paths: Vec<String>,
        manifest: SpagoMetadata,
    ) -> (r: Result<PureScriptApp, Error>)
        ensures
            match r {
                Ok(app) => spec_app_type(attrs@) is Some && spec_cross(attrs@) is Some
                    && spec_integrity(attrs@, cfg.no_sri) is Some && !spec_feature_conflict(
                    attrs@,
                ) && app.id == Some(id) && app.cfg == cfg && app.skip_build == (spec_get(
                    attrs@,
                    "data-prank-skip"@,
                ) is Some) && opt_str_view(app.main_module) == spec_get(attrs@, "data-main"@)
                    && app.app_type == spec_app_type(attrs@)->Some_0 && app.cross_origin
                    == spec_cross(attrs@)->Some_0 && app.sri@.integrity == spec_integrity(
                    attrs@,
                    cfg.no_sri,
                )->Some_0 && app.sri@.records.len() == 0 && opt_str_view(app.spago_profile)
                    == spec_profile(attrs@, cfg@) && app.spago_features@ == spec_features(
                    attrs@,
                    cfg@,
                ) && app.manifest == manifest && opt_str_view(app.initializer)
                    == spec_initializer(attrs@, html_dir@) && opt_str_view(app.target_path)
                    == spec_get(attrs@, "data-target-path"@) && app.changed_paths
                    == changed_paths,
                Err(e) => !(spec_app_type(attrs@) is Some && spec_cross(attrs@) is Some
                    && spec_integrity(attrs@, cfg.no_sri) is Some && !spec_feature_conflict(
                    attrs@,
                )) && e.spec_is_config(),
            },
            spec_feature_conflict(attrs@) ==> r is Err,
            (spec_feature_conflict(attrs@) && spec_app_type(attrs@) is Some && spec_cross(
                attrs@,
            ) is Some && spec_integrity(attrs@, cfg.no_sri) is Some) ==> (r matches Err(e) && (
            e matches Error::Config(m)
                && m@ == "Cannot combine --all-features with --no-default-features and/or --features"@)),
    {
        proof {
            reveal_strlit("none");
            reveal_strlit("anonymous");
            reveal_strlit("use-credentials");
            reveal_strlit("sha256");
            reveal_strlit("sha384");
            reveal_strlit("sha512");
            assert("none"@.len() == 4);
            assert("anonymous"@.len() == 9);
            assert("use-credentials"@.len() == 15);
            assert("sha256"@.len() == 6);
            assert("sha384"@.len() == 6);
            assert("sha512"@.len() == 6);
            assert("sha256"@[3] == '2' && "sha384"@[3] == '3' && "sha512"@[3] == '5');
        }
        let main_module = attrs.get("data-main");

        let app_type = match attrs.get("data-type") {
            Some(v) => match PureScriptAppType::from_str(v.as_str()) {
                Ok(t) => t,
                Err(e) => {
                    return Err(e);
                },
            },
            None => PureScriptAppType::Main,
        };
        let cross_origin = match attrs.get("data-cross-origin") {
            Some(v) => match CrossOrigin::from_str(v.as_str()) {
                Ok(c) => c,
                Err(e) => {
                    return Err(e);
                },
            },
            None => CrossOrigin::Unset,
        };
        let integrity = match IntegrityType::from_attrs(attrs, cfg.no_sri) {
            Ok(t) => t,
            Err(e) => {
                return Err(e);
            },
        };

        // build profile: the mode-specific attribute wins, then the generic
        // one, then the global configuration
        let mode_attr = if cfg.release {
            attrs.get("data-spago-profile-release")
        } else {
            attrs.get("data-spago-profile-dev")
        };
        let profile_attr = match mode_attr {
            Some(v) => Some(v),
            None => attrs.get("data-spago-profile"),
        };
        let spago_profile = match profile_attr {
            Some(v) => Some(v),
            None => clone_opt_string(&cfg.spago_profile),
        };

        // feature selection
        let data_features = attrs.get("data-spago-features");
        let data_all_features = attrs.contains_key("data-spago-all-features");
        let data_no_default_features = attrs.contains_key("data-spago-no-default-features");
        if data_all_features && (data_no_default_features || data_features.is_some()) {
            return Err(
                Error::Config(
                    String::from_str(
                        "Cannot combine --all-features with --no-default-features and/or --features",
                    ),
                ),
            );
        }
        let spago_features = if data_all_features {
            Features::All
        } else if data_no_default_features || data_features.is_some() {
            Features::Custom {
                features: data_features,
                no_default_features: data_no_default_features,
            }
        } else {
            cfg.spago_features.duplicate()
        };

        let skip_build = attrs.contains_key("data-prank-skip");

        let initializer = match attrs.get("data-initializer") {
            Some(p) => Some(join(html_dir, p.as_str())),
            None => None,
        };

        let target_path = attrs.get("data-target-path");

        Ok(
            PureScriptApp {
                id: Some(id),
                cfg,
                skip_build,
                spago_profile,
                spago_features,
                app_type,
                manifest,
                main_module,
                target_path,
                cross_origin,
                sri: SriBuilder::new(integrity),
                initializer,
                changed_paths,
            },
        )
    }

    /// Construct the implicit default pipeline for a document without a
    /// directive element.  The caller probes for the conventional manifest in
    /// the document directory and hands it in when found; without one there
    /// is no pipeline, which is not an error.
    pub fn new_default(cfg: RtcBuild, manifest: Option<SpagoMetadata>) -> (r: Option<
        PureScriptApp,
    >)
        ensures
            match manifest {
                None => r is None,
                Some(m) => r matches Some(app) && app.id is None && app.cfg == cfg
                    && !app.skip_build && opt_str_view(app.spago_profile) == cfg@.spago_profile
                    && app.spago_features@ == cfg@.spago_features && app.app_type
                    == PureScriptAppType::Main && app.manifest == m && app.main_module is None
                    && app.target_path is None && app.cross_origin == CrossOrigin::Unset
                    && app.sri@.integrity == IntegrityType::default_unless_spec(cfg.no_sri)
                    && app.sri@.records.len() == 0 && app.initializer is None
                    && app.changed_paths@.len() == 0,
            },
    {
        match manifest {
            None => None,
            Some(m) => {
                let integrity = IntegrityType::default_unless(cfg.no_sri);
                let spago_profile = clone_opt_string(&cfg.spago_profile);
                let spago_features = cfg.spago_features.duplicate();
                Some(
                    PureScriptApp {
                        id: None,
                        skip_build: false,
                        spago_features,
                        spago_profile,
                        cfg,
                        manifest: m,
                        main_module: None,
                        target_path: None,
                        app_type: PureScriptAppType::Main,
                        cross_origin: CrossOrigin::Unset,
                        sri: SriBuilder::new(integrity),
                        initializer: None,
                        changed_paths: Vec::new(),
                    },
                )
            },
        }
    }

    /// Whether the compiler must run for this change set.  Skipping it is a
    /// pure optimization: an empty set forces a full compile, and a non-empty
    /// set compiles exactly when it holds a compiled-source file or an FFI
    /// file under the source directory.
    pub fn should_run_spago_build(&self) -> (r: bool)
        ensures
            r == spec_should_run(self.changed_paths@.map_values(|s: String| s@)),
    {
        let n = self.changed_paths.len();
        if n == 0 {
            return true;
        }
        let mut i: usize = 0;
        while i < n
            invariant
                n == self.changed_paths@.len(),
                n > 0,
                i <= n,
                forall|j: int| 0 <= j < i ==> !spec_triggers_build(self.changed_paths@[j]@),
            decreases n - i,
        {
            if triggers_build(self.changed_paths[i].as_str()) {
                proof {
                    let mapped = self.changed_paths@.map_values(|s: String| s@);
                    assert(mapped[i as int] == self.changed_paths@[i as int]@);
                    assert(spec_triggers_build(mapped[i as int]));
                }
                return true;
            }
            i = i + 1;
        }
        proof {
            let mapped = self.changed_paths@.map_values(|s: String| s@);
            assert forall|j: int| 0 <= j < mapped.len() implies !spec_triggers_build(
                mapped[j],
            ) by {
                assert(mapped[j] == self.changed_paths@[j]@);
            }
            assert(!spec_should_run(mapped));
        }
        false
    }

    /// The compiler's argument list for this build.
    pub fn spago_args(&self) -> (r: Vec<String>)
        ensures
            r@.map_values(|s: String| s@) == spec_spago_args(self.cfg@),
    {
        let mut args: Vec<String> = Vec::new();
        args.push(String::from_str("build"));
        if let Some(_profile) = &self.spago_profile {
            // the profile knob is accepted but not yet translated into a
            // compiler flag
        }
        if self.cfg.offline {
            args.push(String::from_str("--offline"));
        }
        if self.cfg.frozen {
            // frozen resolution is the compiler's default; no flag
        }
        if self.cfg.locked {
            args.push(String::from_str("--pure"));
        }
        proof {
            assert(args@.map_values(|s: String| s@) =~= spec_spago_args(self.cfg@));
        }
        args
    }

    /// The directory the release bundle is written into.
    pub fn bundle_dir(&self) -> (r: String)
        ensures
            r@ == spec_join(spec_join(self.manifest.workspace_root@, "output"@), "bundle"@),
    {
        let target = self.manifest.target_directory();
        join(target.as_str(), "bundle")
    }

    /// The expected release bundle file.
    pub fn bundle_path(&self) -> (r: String)
        ensures
            r@ == spec_join(
                spec_join(spec_join(self.manifest.workspace_root@, "output"@), "bundle"@),
                "index.js"@,
            ),
    {
        let dir = self.bundle_dir();
        join(dir.as_str(), "index.js")
    }

    /// The bundler's argument list for a bundle written to `bundle_path`.
    pub fn purs_bundle_args(bundle_path: &str) -> (r: Vec<String>)
        ensures
            r@.map_values(|s: String| s@) == seq!["bundle-app"@, "--to"@, bundle_path@],
    {
        let mut args: Vec<String> = Vec::new();
        args.push(String::from_str("bundle-app"));
        args.push(String::from_str("--to"));
        args.push(String::from_str(bundle_path));
        proof {
            assert(args@.map_values(|s: String| s@) =~= seq!["bundle-app"@, "--to"@, bundle_path@]);
        }
        args
    }

    /// Check that the bundler left its bundle where it is expected; its
    /// absence after a successful bundler run is fatal and names the path.
    pub fn check_bundle_exists(bundle_path: &str, exists: bool) -> (r: Result<(), Error>)
        ensures
            match r {
                Ok(()) => exists,
                Err(e) => !exists && (e matches Error::Execution(m) && m@
                    == "purs-backend-es succeeded, but expected JS bundle was not found at "@
                    + bundle_path@ + ". "@),
            },
    {
        if exists {
            Ok(())
        } else {
            let mut m = String::from_str(
                "purs-backend-es succeeded, but expected JS bundle was not found at ",
            );
            m.append(bundle_path);
            m.append(". ");
            Err(Error::Execution(m))
        }
    }

    /// The entry module to use: the directive's override, else `Main`.
    pub open spec fn spec_main_module(m: Option<Seq<char>>) -> Seq<char> {
        match m {
            Some(v) => v,
            None => "Main"@,
        }
    }

    /// The URL-relative public name of the development entry point.
    pub fn dev_public_name(&self) -> (r: String)
        ensures
            r@ == spec_join(
                spec_join("output"@, Self::spec_main_module(opt_str_view(self.main_module))),
                "index.js"@,
            ),
    {
        let main: &str = match &self.main_module {
            Some(m) => m.as_str(),
            None => "Main",
        };
        let dir = join("output", main);
        join(dir.as_str(), "index.js")
    }

    /// The expected compiled entry file inside the project's output
    /// directory.
    pub fn dev_entry_path(&self) -> (r: String)
        ensures
            r@ == spec_join(
                spec_join(
                    spec_join(self.manifest.workspace_root@, "output"@),
                    Self::spec_main_module(opt_str_view(self.main_module)),
                ),
                "index.js"@,
            ),
    {
        let main: &str = match &self.main_module {
            Some(m) => m.as_str(),
            None => "Main",
        };
        let target = self.manifest.target_directory();
        let dir = join(target.as_str(), main);
        join(dir.as_str(), "index.js")
    }

    /// Check that the compiled entry point exists; its absence after a
    /// successful compile is fatal, names the expected path and hints at the
    /// entry-point attribute.
    pub fn check_dev_entry(entry_path: &str, exists: bool) -> (r: Result<(), Error>)
        ensures
            match r {
                Ok(()) => exists,
                Err(e) => !exists && (e matches Error::Execution(m) && m@
                    == "spago build succeeded, but main module entry point was not found at "@
                    + entry_path@ + ". Is `data-main` attribute correct?"@),
            },
    {
        if exists {
            Ok(())
        } else {
            let mut m = String::from_str(
                "spago build succeeded, but main module entry point was not found at ",
            );
            m.append(entry_path);
            m.append(". Is `data-main` attribute correct?");
            Err(Error::Execution(m))
        }
    }

    /// The inline module script that imports the entry module and starts the
    /// application in development mode.
    pub fn dev_run_script(public_name: &str) -> (r: String)
        ensures
            r@ == "import { main } from '/"@ + public_name@ + "';\nmain();"@,
    {
        let mut m = String::from_str("import { main } from '/");
        m.append(public_name);
        m.append("';\nmain();");
        m
    }

    /// The public cache-busting name for the file at `path` whose content is
    /// `bytes`: the hash-prefixed file name when hashing is enabled, the
    /// plain file name otherwise.  A path without a file name is refused.
    pub fn hashed_name(&self, path: &str, bytes: &Vec<u8>) -> (r: Result<String, Error>)
        ensures
            match r {
                Ok(name) => spec_file_name(path@) matches Some(f) && name@ == spec_cache_busted(
                    self.cfg.filehash,
                    f,
                    bytes@,
                ),
                Err(e) => spec_file_name(path@) is None && (e matches Error::Io(m) && m@
                    == "Must be a file: "@ + path@),
            },
    {
        match file_name_of(path) {
            Some(name) => Ok(cache_busted_name(self.cfg.filehash, name.as_str(), bytes)),
            None => {
                let mut m = String::from_str("Must be a file: ");
                m.append(path);
                Err(Error::Io(m))
            },
        }
    }

    /// Decide the whole build up front: skip, or the release steps, or the
    /// development steps, each with the exact names and argument lists the
    /// external tools will see.
    pub fn build_plan(&self) -> (r: BuildPlan)
        ensures
            self.skip_build ==> r is Skip,
            !self.skip_build && self.cfg.release ==> (r matches BuildPlan::Release {
                run_compiler,
                spago_args,
                bundle_dir,
                bundle_path,
                bundle_args,
            } && run_compiler == spec_should_run(self.changed_paths@.map_values(|s: String| s@))
                && spago_args@.map_values(|s: String| s@) == spec_spago_args(self.cfg@)
                && bundle_dir@ == spec_join(
                spec_join(self.manifest.workspace_root@, "output"@),
                "bundle"@,
            ) && bundle_path@ == spec_join(
                spec_join(spec_join(self.manifest.workspace_root@, "output"@), "bundle"@),
                "index.js"@,
            ) && bundle_args@.map_values(|s: String| s@) == seq![
                "bundle-app"@,
                "--to"@,
                bundle_path@,
            ]),
            !self.skip_build && !self.cfg.release ==> (r matches BuildPlan::Dev {
                run_compiler,
                spago_args,
                public_name,
                entry_path,
                run_script,
            } && run_compiler == spec_should_run(self.changed_paths@.map_values(|s: String| s@))
                && spago_args@.map_values(|s: String| s@) == spec_spago_args(self.cfg@)
                && public_name@ == spec_join(
                spec_join("output"@, Self::spec_main_module(opt_str_view(self.main_module))),
                "index.js"@,
            ) && entry_path@ == spec_join(
                spec_join(
                    spec_join(self.manifest.workspace_root@, "output"@),
                    Self::spec_main_module(opt_str_view(self.main_module)),
                ),
                "index.js"@,
            ) && run_script@ == "import { main } from '/"@ + public_name@ + "';\nmain();"@),
    {
        if self.skip_build {
            return BuildPlan::Skip;
        }
        let run_compiler = self.should_run_spago_build();
        let spago_args = self.spago_args();
        if self.cfg.release {
            let bundle_dir = self.bundle_dir();
            let bundle_path = self.bundle_path();
            let bundle_args = Self::purs_bundle_args(bundle_path.as_str());
            BuildPlan::Release { run_compiler, spago_args, bundle_dir, bundle_path, bundle_args }
        } else {
            let public_name = self.dev_public_name();
            let entry_path = self.dev_entry_path();
            let run_script = Self::dev_run_script(public_name.as_str());
            BuildPlan::Dev { run_compiler, spago_args, public_name, entry_path, run_script }
        }
    }

    /// Stage the initializer module: its cache-busting name from its source
    /// bytes, and the bytes to write, minified when the build asks for it.
    pub fn prepare_initializer(&self, bytes: &Vec<u8>) -> (r: Result<(String, Vec<u8>), Error>)
        requires
            self.initializer is Some,
        ensures
            match r {
                Ok(p) => spec_file_name(self.initializer->Some_0@) matches Some(f) && p.0@
                    == spec_cache_busted(self.cfg.filehash, f, bytes@) && spec_staged_bytes(
                    self.cfg.minify,
                    bytes@,
                ) == Some(p.1@),
                Err(e) => spec_file_name(self.initializer->Some_0@) is None || spec_staged_bytes(
                    self.cfg.minify,
                    bytes@,
                ) is None,
            },
    {
        let path = match &self.initializer {
            Some(p) => p,
            None => {
                proof {
                    assert(false);
                }
                return Err(Error::Io(String::from_str("Must be a file: ")));
            },
        };
        let name = match self.hashed_name(path.as_str(), bytes) {
            Ok(name) => name,
            Err(e) => {
                return Err(e);
            },
        };
        let staged = match stage_bytes(self.cfg.minify, clone_bytes(bytes)) {
            Ok(staged) => staged,
            Err(e) => {
                return Err(e);
            },
        };
        Ok((name, staged))
    }

    /// Assemble the finished output: record an integrity digest for the
    /// bundle (and for the staged initializer, when present) and hand over
    /// everything the finalizer needs.  Consumes the pipeline: each instance
    /// yields exactly one output.
    pub fn build_sri_and_output(
        self,
        bundle_name: String,
        bundle_bytes: &Vec<u8>,
        initializer_staged: Option<(String, Vec<u8>)>,
        dev_mode_run_script: Option<String>,
    ) -> (r: PureScriptAppOutput)
        ensures
            r.id == self.id,
            r.cfg == self.cfg,
            r.bundle_output == bundle_name,
            r.app_type == self.app_type,
            r.cross_origin == self.cross_origin,
            r.dev_mode_run_script == dev_mode_run_script,
            opt_str_view(r.initializer) == (match initializer_staged {
                Some(p) => Some(p.0@),
                None => None,
            }),
            r.integrities@.integrity == self.sri@.integrity,
            self.sri@.integrity == IntegrityType::Disabled ==> r.integrities@.records
                == self.sri@.records,
            self.sri@.integrity != IntegrityType::Disabled ==> r.integrities@.records
                == self.sri@.records.push(
                SriRecordV {
                    type_: SriType::ModulePreload,
                    name: bundle_name@,
                    integrity: self.sri@.integrity,
                    digest: spec_digest_value(self.sri@.integrity, bundle_bytes@),
                },
            ) + (match initializer_staged {
                Some(p) => seq![
                    SriRecordV {
                        type_: SriType::ModulePreload,
                        name: p.0@,
                        integrity: self.sri@.integrity,
                        digest: spec_digest_value(self.sri@.integrity, p.1@),
                    },
                ],
                None => Seq::<SriRecordV>::empty(),
            }),
    {
        let PureScriptApp { id, cfg, app_type, cross_origin, sri, .. } = self;
        let mut sri = sri;
        sri.record_bytes(SriType::ModulePreload, bundle_name.as_str(), SriOptions {  }, bundle_bytes);
        let initializer = match initializer_staged {
            Some((name, staged)) => {
                sri.record_bytes(SriType::ModulePreload, name.as_str(), SriOptions {  }, &staged);
                Some(name)
            },
            None => None,
        };
        proof {
            if self.sri@.integrity != IntegrityType::Disabled {
                assert(sri@.records =~= self.sri@.records.push(
                    SriRecordV {
                        type_: SriType::ModulePreload,
                        name: bundle_name@,
                        integrity: self.sri@.integrity,
                        digest: spec_digest_value(self.sri@.integrity, bundle_bytes@),
                    },
                ) + (match initializer_staged {
                    Some(p) => seq![
                        SriRecordV {
                            type_: SriType::ModulePreload,
                            name: p.0@,
                            integrity: self.sri@.integrity,
                            digest: spec_digest_value(self.sri@.integrity, p.1@),
                        },
                    ],
                    None => Seq::<SriRecordV>::empty(),
                }));
            }
        }
        PureScriptAppOutput {
            id,
            cfg,
            bundle_output: bundle_name,
            app_type,
            cross_origin,
            integrities: sri,
            initializer,
            dev_mode_run_script,
        }
    }
}

/// A byte-for-byte copy of a byte vector.
fn clone_bytes(v: &Vec<u8>) -> (r: Vec<u8>)
    ensures
        r@ == v@,
{
    let r = v.clone();
    proof {
        assert(r@ =~= v@);
    }
    r
}

} // verus!
