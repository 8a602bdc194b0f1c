//! Configuration models: the persistent configuration, the CLI override
//! blocks that are applied onto it, the search for a configuration source in
//! a directory, and the per-run clean configuration.
//!
//! Reading and parsing configuration files is a collaborator's job; this
//! module owns the decisions: which candidate file is taken, which format a
//! file's extension selects, and how overrides merge into the configuration.

use vstd::prelude::*;
use crate::errors::Error;
use crate::paths::{spec_extension, spec_join, extension_of, join};
use crate::text::str_eq;

verus! {

/// `a` when present, else `b`: how a CLI override merges with a configured
/// value.
pub open spec fn spec_or<T>(a: Option<T>, b: Option<T>) -> Option<T> {
    match a {
        Some(v) => Some(v),
        None => b,
    }
}

/// Take `a` when present, else `b`.
fn or_string(a: Option<String>, b: Option<String>) -> (r: Option<String>)
    ensures
        r == spec_or(a, b),
{
    match a {
        Some(v) => Some(v),
        None => b,
    }
}

/// The ghost value of the tool version pins.
pub ghost struct ToolsV {
    /// Version of `dart-sass` to use.
    pub sass: Option<Seq<char>>,
    /// Version of `tailwindcss-cli` to use.
    pub tailwindcss: Option<Seq<char>>,
    /// Version of `purescript-backend-es` to use.
    pub purescript_backend_es: Option<Seq<char>>,
    /// Version of `spago` to use.
    pub spago: Option<Seq<char>>,
    /// Version of `purs-tidy` to use.
    pub purs_tidy: Option<Seq<char>>,
}

/// Versions of the external tools to download and run.
#[derive(Debug, Clone, PartialEq, Eq)]
pub struct Tools {
    /// Version of `dart-sass` to use.
    pub sass: Option<String>,
    /// Version of `tailwindcss-cli` to use.
    pub tailwindcss: Option<String>,
    /// Version of `purescript-backend-es` to use.
    pub purescript_backend_es: Option<String>,
    /// Version of `spago` to use.
    pub spago: Option<String>,
    /// Version of `purs-tidy` to use.
    pub purs_tidy: Option<String>,
}

impl View for Tools {
    type V = ToolsV;

    open spec fn view(&self) -> ToolsV {
        ToolsV {
            sass: crate::text::opt_str_view(self.sass),
            tailwindcss: crate::text::opt_str_view(self.tailwindcss),
            purescript_backend_es: crate::text::opt_str_view(self.purescript_backend_es),
            spago: crate::text::opt_str_view(self.spago),
            purs_tidy: crate::text::opt_str_view(self.purs_tidy),
        }
    }
}

impl Default for Tools {
    /// No tool version pinned.
    fn default() -> (r: Tools)
        ensures
            r.sass is None,
            r.tailwindcss is None,
            r.purescript_backend_es is None,
            r.spago is None,
            r.purs_tidy is None,
    {
        Tools {
            sass: None,
            tailwindcss: None,
            purescript_backend_es: None,
            spago: None,
            purs_tidy: None,
        }
    }
}

impl Tools {
    /// Apply these CLI overrides to the configuration: each version set here
    /// wins over the configured one.
    pub fn apply_to(self, config: Configuration) -> (r: Result<Configuration, Error>)
        ensures
            r matches Ok(c) && c.tools.sass == spec_or(self.sass, config.tools.sass)
                && c.tools.tailwindcss == spec_or(self.tailwindcss, config.tools.tailwindcss)
                && c.tools.purescript_backend_es == spec_or(
                self.purescript_backend_es,
                config.tools.purescript_backend_es,
            ) && c.tools.spago == spec_or(self.spago, config.tools.spago)
                && c.tools.purs_tidy == spec_or(self.purs_tidy, config.tools.purs_tidy)
                && c.core == config.core && c.clean == config.clean,
    {
        let mut config = config;
        config.tools.sass = or_string(self.sass, config.tools.sass);
        config.tools.tailwindcss = or_string(self.tailwindcss, config.tools.tailwindcss);
        config.tools.purescript_backend_es = or_string(
            self.purescript_backend_es,
            config.tools.purescript_backend_es,
        );
        config.tools.spago = or_string(self.spago, config.tools.spago);
        config.tools.purs_tidy = or_string(self.purs_tidy, config.tools.purs_tidy);
        Ok(config)
    }
}

/// Core persistent configuration.
#[derive(Debug, Clone, PartialEq, Eq)]
pub struct CoreConfig {
    /// The version requirement this project places on the tool itself.
    pub prank_version: String,
}

/// Clean-related persistent configuration.
#[derive(Debug, Clone, PartialEq, Eq)]
pub struct Clean {
    /// Also remove the `.spago` directory.
    pub spago: bool,
    /// A legacy output-directory field, read but deliberately unused.
    pub dist: Option<String>,
}

/// The persistent configuration as this engine reads it.
#[derive(Debug, Clone, PartialEq, Eq)]
pub struct Configuration {
    /// Core settings.
    pub core: CoreConfig,
    /// Tool version pins.
    pub tools: Tools,
    /// Clean settings.
    pub clean: Clean,
}

/// Core CLI overrides.
#[derive(Debug, Clone, PartialEq, Eq)]
pub struct Core {
    /// Override the required tool version.
    pub required_version: Option<String>,
}

impl Core {
    /// Apply these CLI overrides to the configuration.
    pub fn apply_to(self, config: Configuration) -> (r: Result<Configuration, Error>)
        ensures
            r matches Ok(c) && c.core.prank_version == (match self.required_version {
                Some(v) => v,
                None => config.core.prank_version,
            }) && c.tools == config.tools && c.clean == config.clean,
    {
        let mut config = config;
        config.core.prank_version = match self.required_version {
            Some(v) => v,
            None => config.core.prank_version,
        };
        Ok(config)
    }
}

/// A configuration source.
#[derive(Debug)]
pub enum Source {
    /// A configuration file, TOML, YAML or JSON by extension.
    File(String),
}

/// The number of candidate configuration file names.
pub open spec fn n_candidates() -> int {
    6
}

/// The candidate configuration file names, most preferred first.
pub open spec fn spec_candidate(i: int) -> Seq<char> {
    if i == 0 {
        "Prank.toml"@
    } else if i == 1 {
        ".prank.toml"@
    } else if i == 2 {
        "Prank.yaml"@
    } else if i == 3 {
        ".prank.yaml"@
    } else if i == 4 {
        "Prank.json"@
    } else {
        ".prank.json"@
    }
}

/// The candidate configuration file name at position `i`.
pub fn candidate_name(i: usize) -> (r: &'static str)
    requires
        i < n_candidates(),
    ensures
        r@ == spec_candidate(i as int),
{
    match i {
        0 => "Prank.toml",
        1 => ".prank.toml",
        2 => "Prank.yaml",
        3 => ".prank.yaml",
        4 => "Prank.json",
        _ => ".prank.json",
    }
}

/// The joined candidate path when the probe reported a file there.
pub fn check_path(path: &str, name: &str, is_file: bool) -> (r: Option<String>)
    ensures
        match r {
            Some(p) => is_file && p@ == spec_join(path@, name@),
            None => !is_file,
        },
{
    if is_file {
        Some(join(path, name))
    } else {
        None
    }
}

impl Source {
    /// Find the first configuration source candidate in a directory.
    ///
    /// `candidate_is_file[i]` reports whether a probe of the file system found
    /// a file at the `i`-th candidate path under `path`.
    pub fn find(path: &str, candidate_is_file: &Vec<bool>) -> (r: Result<Source, Error>)
        requires
            candidate_is_file@.len() == n_candidates(),
        ensures
            match r {
                Ok(src) => src matches Source::File(p) && exists|i: int|
                    0 <= i < n_candidates() && candidate_is_file@[i] && p@ == spec_join(
                        path@,
                        spec_candidate(i),
                    ) && (forall|j: int| 0 <= j < i ==> !candidate_is_file@[j]),
                Err(e) => (forall|i: int|
                    0 <= i < n_candidates() ==> !candidate_is_file@[i]) && (e matches
                Error::Config(m) && m@ == "Unable to find any Prank configuration"@),
            },
    {
        let mut i: usize = 0;
        while i < 6
            invariant
                candidate_is_file@.len() == n_candidates(),
                i <= n_candidates(),
                forall|j: int| 0 <= j < i ==> !candidate_is_file@[j],
            decreases 6 - i,
        {
            if let Some(file) = check_path(path, candidate_name(i), candidate_is_file[i]) {
                return Ok(Source::File(file));
            }
            i = i + 1;
        }
        Err(Error::Config(String::from_str("Unable to find any Prank configuration")))
    }
}

/// The formats a configuration file may take.
#[derive(Debug, Clone, Copy, PartialEq, Eq, Structural)]
pub enum ConfigFormat {
    /// A TOML file.
    Toml,
    /// A YAML file.
    Yaml,
    /// A JSON file.
    Json,
}

/// The format selected by a configuration file's extension, or the exact
/// configuration error when the extension is missing or unsupported.
pub fn config_format(file: &str) -> (r: Result<ConfigFormat, Error>)
    ensures
        match r {
            Ok(f) => (f == ConfigFormat::Toml && spec_extension(file@) == Some("toml"@)) || (f
                == ConfigFormat::Yaml && spec_extension(file@) == Some("yaml"@)) || (f
                == ConfigFormat::Json && spec_extension(file@) == Some("json"@)),
            Err(e) => e matches Error::Config(m) && match spec_extension(file@) {
                Some(n) => n != "toml"@ && n != "yaml"@ && n != "json"@ && m@
                    == "Unsupported configuration file type: "@ + n,
                None => m@ == "Missing configuration file extension"@,
            },
        },
{
    match extension_of(file) {
        Some(ext) => {
            if str_eq(ext.as_str(), "toml") {
                Ok(ConfigFormat::Toml)
            } else if str_eq(ext.as_str(), "yaml") {
                Ok(ConfigFormat::Yaml)
            } else if str_eq(ext.as_str(), "json") {
                Ok(ConfigFormat::Json)
            } else {
                let msg = String::from_str("Unsupported configuration file type: ").concat(
                    ext.as_str(),
                );
                Err(Error::Config(msg))
            }
        },
        None => Err(Error::Config(String::from_str("Missing configuration file extension"))),
    }
}

/// Core runtime options supplied per run.
#[derive(Debug, Clone, PartialEq, Eq)]
pub struct CoreOptions {
    /// The directory external tools run in.
    pub working_directory: String,
}

/// Core runtime configuration, built once per run.
#[derive(Debug, Clone, PartialEq, Eq)]
pub struct RtcCore {
    /// The version requirement taken from the configuration.
    pub prank_version: String,
    /// The directory external tools run in.
    pub working_directory: String,
}

impl RtcCore {
    /// Build the core runtime configuration from the persistent configuration
    /// and the per-run options.
    pub fn new(config: CoreConfig, opts: CoreOptions) -> (r: Result<RtcCore, Error>)
        ensures
            r matches Ok(c) && c.prank_version == config.prank_version && c.working_directory
                == opts.working_directory,
    {
        Ok(
            RtcCore {
                prank_version: config.prank_version,
                working_directory: opts.working_directory,
            },
        )
    }
}

/// Runtime options for the clean system, on a per-run basis.
#[derive(Debug, Clone, PartialEq, Eq)]
pub struct CleanOptions {
    /// Core per-run options.
    pub core: CoreOptions,
    /// Also clean the downloaded tools.
    pub tools: bool,
}

/// Runtime configuration for the clean system.
#[derive(Debug, Clone, PartialEq, Eq)]
pub struct RtcClean {
    /// Core runtime configuration.
    pub core: RtcCore,
    /// Remove the `.spago` directory as well.
    pub spago: bool,
    /// Clean the downloaded tools as well.
    pub tools: bool,
}

impl RtcClean {
    /// Build the clean runtime configuration.  The legacy output-directory
    /// field of the configuration is read and deliberately ignored.
    pub fn new(config: Configuration, opts: CleanOptions) -> (r: Result<RtcClean, Error>)
        ensures
            r matches Ok(c) && c.core.prank_version == config.core.prank_version
                && c.core.working_directory == opts.core.working_directory && c.spago
                == config.clean.spago && c.tools == opts.tools,
    {
        let CleanOptions { core: core_opts, tools } = opts;
        let core = match RtcCore::new(config.core, core_opts) {
            Ok(core) => core,
            Err(e) => {
                return Err(e);
            },
        };
        Ok(RtcClean { core, spago: config.clean.spago, tools })
    }
}

} // verus!
