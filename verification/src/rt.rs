//! The shared, immutable build configuration and the small closed enums drawn
//! from it: the cross-origin policy and the feature selection handed to the
//! compiler.  Every concurrently running pipeline reads one value of
//! [`RtcBuild`] and never writes it.

use vstd::prelude::*;
use crate::config::Tools;
use crate::errors::Error;
use crate::text::{clone_opt_string, opt_str_view, str_eq};

verus! {

/// The cross-origin policy for loading the emitted resources.
#[derive(Debug, Clone, Copy, PartialEq, Eq, Structural)]
pub enum CrossOrigin {
    /// No `crossorigin` attribute is emitted.
    Unset,
    /// `crossorigin="anonymous"`.
    Anonymous,
    /// `crossorigin="use-credentials"`.
    UseCredentials,
}

impl Default for CrossOrigin {
    /// The policy used when the directive names none.
    fn default() -> (r: CrossOrigin)
        ensures
            r == CrossOrigin::Unset,
    {
        CrossOrigin::Unset
    }
}

impl CrossOrigin {
    /// The attribute value this policy renders to.
    pub open spec fn spec_as_str(self) -> Seq<char> {
        match self {
            CrossOrigin::Unset => ""@,
            CrossOrigin::Anonymous => "anonymous"@,
            CrossOrigin::UseCredentials => "use-credentials"@,
        }
    }

    /// The attribute value this policy renders to.
    pub fn as_str(&self) -> (r: &'static str)
        ensures
            r@ == self.spec_as_str(),
    {
        match self {
            CrossOrigin::Unset => "",
            CrossOrigin::Anonymous => "anonymous",
            CrossOrigin::UseCredentials => "use-credentials",
        }
    }

    /// Parse a directive's cross-origin value against the closed set; an
    /// unknown value is a configuration error naming it.
    pub fn from_str(s: &str) -> (r: Result<CrossOrigin, Error>)
        ensures
            match r {
                Ok(co) => (co == CrossOrigin::Unset && s@ == "none"@) || (co
                    == CrossOrigin::Anonymous && s@ == "anonymous"@) || (co
                    == CrossOrigin::UseCredentials && s@ == "use-credentials"@),
                Err(e) => s@ != "none"@ && s@ != "anonymous"@ && s@ != "use-credentials"@ && (
                e matches Error::Config(m) && m@ == "unknown `data-cross-origin=\""@ + s@
                    + "\"` value; expected one of none, anonymous, use-credentials"@),
            },
    {
        if str_eq(s, "none") {
            Ok(CrossOrigin::Unset)
        } else if str_eq(s, "anonymous") {
            Ok(CrossOrigin::Anonymous)
        } else if str_eq(s, "use-credentials") {
            Ok(CrossOrigin::UseCredentials)
        } else {
            let mut m = String::from_str("unknown `data-cross-origin=\"");
            m.append(s);
            m.append("\"` value; expected one of none, anonymous, use-credentials");
            Err(Error::Config(m))
        }
    }

    /// The ` crossorigin="..."` attribute fragment, empty when unset.
    pub open spec fn spec_attr(self) -> Seq<char> {
        if self == CrossOrigin::Unset {
            ""@
        } else {
            " crossorigin=\""@ + self.spec_as_str() + "\""@
        }
    }

    /// The ` crossorigin="..."` attribute fragment, empty when unset.
    pub fn attr(&self) -> (r: String)
        ensures
            r@ == self.spec_attr(),
    {
        match self {
            CrossOrigin::Unset => String::from_str(""),
            _ => {
                let mut m = String::from_str(" crossorigin=\"");
                m.append(self.as_str());
                m.append("\"");
                m
            },
        }
    }
}

/// The ` nonce="..."` attribute fragment for a response nonce, empty when the
/// configuration generates none.
pub open spec fn spec_nonce_attr(nonce: Option<Seq<char>>) -> Seq<char> {
    match nonce {
        Some(n) => " nonce=\""@ + n + "\""@,
        None => ""@,
    }
}

/// The ` nonce="..."` attribute fragment for a response nonce.
pub fn nonce_attr(nonce: &Option<String>) -> (r: String)
    ensures
        r@ == spec_nonce_attr(opt_str_view(*nonce)),
{
    match nonce {
        Some(n) => {
            let mut m = String::from_str(" nonce=\"");
            m.append(n.as_str());
            m.append("\"");
            m
        },
        None => String::from_str(""),
    }
}

/// The ghost value of a feature selection.
pub ghost enum FeaturesV {
    /// Enable every optional feature.
    All,
    /// An explicit feature list and/or a no-default-features flag.
    Custom { features: Option<Seq<char>>, no_default_features: bool },
}

/// The features passed to the compiler.  Enabling every feature is mutually
/// exclusive with naming features or disabling the default set; the inherited
/// global selection is a `Custom` value with nothing set.
#[derive(Debug, Clone, PartialEq, Eq)]
pub enum Features {
    /// Enable every optional feature.
    All,
    /// An explicit feature list and/or a no-default-features flag.
    Custom {
        /// The explicit feature list, comma separated.
        features: Option<String>,
        /// Disable the default feature set.
        no_default_features: bool,
    },
}

impl View for Features {
    type V = FeaturesV;

    open spec fn view(&self) -> FeaturesV {
        match self {
            Features::All => FeaturesV::All,
            Features::Custom { features, no_default_features } => FeaturesV::Custom {
                features: opt_str_view(*features),
                no_default_features: *no_default_features,
            },
        }
    }
}

impl Default for Features {
    /// Inherit the default feature set, naming nothing.
    fn default() -> (r: Features)
        ensures
            r@ == (FeaturesV::Custom { features: None, no_default_features: false }),
    {
        Features::Custom { features: None, no_default_features: false }
    }
}

impl Features {
    /// A copy holding the same selection.
    pub fn duplicate(&self) -> (r: Features)
        ensures
            r@ == self@,
    {
        match self {
            Features::All => Features::All,
            Features::Custom { features, no_default_features } => Features::Custom {
                features: clone_opt_string(features),
                no_default_features: *no_default_features,
            },
        }
    }
}

/// The ghost value of the build configuration.
pub ghost struct RtcBuildV {
    /// Release mode rather than development mode.
    pub release: bool,
    /// Run without accessing the network.
    pub offline: bool,
    /// Frozen dependency resolution.
    pub frozen: bool,
    /// Locked, deterministic dependency resolution.
    pub locked: bool,
    /// Minify staged scripts.
    pub minify: bool,
    /// Prefix staged file names with a content hash.
    pub filehash: bool,
    /// Disable subresource-integrity records entirely.
    pub no_sri: bool,
    /// Inject generated markup into the document.
    pub inject_scripts: bool,
    /// The public base URL.
    pub public_url: Seq<char>,
    /// The staging directory.
    pub staging_dist: Seq<char>,
    /// The working directory.
    pub working_directory: Seq<char>,
    /// The CSP nonce for this response.
    pub nonce: Option<Seq<char>>,
    /// A custom template for the body/script markup.
    pub pattern_script: Option<Seq<char>>,
    /// A custom template for the head/preload markup.
    pub pattern_preload: Option<Seq<char>>,
    /// Extra substitution parameters for the custom templates.
    pub pattern_params: Seq<(Seq<char>, Seq<char>)>,
    /// The globally configured feature selection.
    pub spago_features: FeaturesV,
    /// The globally configured build profile.
    pub spago_profile: Option<Seq<char>>,
    /// Tool version pins.
    pub tools: crate::config::ToolsV,
}

/// The shared, immutable build configuration.
#[derive(Debug)]
pub struct RtcBuild {
    /// Release mode rather than development mode.
    pub release: bool,
    /// Run without accessing the network.
    pub offline: bool,
    /// Frozen dependency resolution (the compiler's default).
    pub frozen: bool,
    /// Locked, deterministic dependency resolution.
    pub locked: bool,
    /// Minify staged scripts.  A toggle of its own, distinct from release
    /// mode.
    pub minify: bool,
    /// Prefix staged file names with a content hash.
    pub filehash: bool,
    /// Disable subresource-integrity records entirely.
    pub no_sri: bool,
    /// Inject generated markup into the document; when false the finalizer
    /// leaves the document untouched.
    pub inject_scripts: bool,
    /// The public base URL the application is served under.
    pub public_url: String,
    /// The staging directory finalized artifacts are written into.
    pub staging_dist: String,
    /// The directory external tools run in.
    pub working_directory: String,
    /// The CSP nonce for this response, when the configuration generates one.
    pub nonce: Option<String>,
    /// A custom template for the body/script markup.
    pub pattern_script: Option<String>,
    /// A custom template for the head/preload markup.
    pub pattern_preload: Option<String>,
    /// Extra substitution parameters for the custom templates.
    pub pattern_params: Vec<(String, String)>,
    /// The globally configured feature selection.
    pub spago_features: Features,
    /// The globally configured build profile.
    pub spago_profile: Option<String>,
    /// Tool version pins.
    pub tools: Tools,
}

impl View for RtcBuild {
    type V = RtcBuildV;

    open spec fn view(&self) -> RtcBuildV {
        RtcBuildV {
            release: self.release,
            offline: self.offline,
            frozen: self.frozen,
            locked: self.locked,
            minify: self.minify,
            filehash: self.filehash,
            no_sri: self.no_sri,
            inject_scripts: self.inject_scripts,
            public_url: self.public_url@,
            staging_dist: self.staging_dist@,
            working_directory: self.working_directory@,
            nonce: opt_str_view(self.nonce),
            pattern_script: opt_str_view(self.pattern_script),
            pattern_preload: opt_str_view(self.pattern_preload),
            pattern_params: self.pattern_params@.map_values(
                |p: (String, String)| (p.0@, p.1@),
            ),
            spago_features: self.spago_features@,
            spago_profile: opt_str_view(self.spago_profile),
            tools: self.tools@,
        }
    }
}

impl RtcBuild {
    /// Whether staged scripts are minified in this build.
    pub fn should_minify(&self) -> (r: bool)
        ensures
            r == self.minify,
    {
        self.minify
    }
}

} // verus!
