//! Asset-pipeline engine of a web-application build tool.
//!
//! Given the attributes of an HTML directive element, the engine constructs a
//! PureScript application pipeline, decides which external tools must run,
//! computes cache-busting names and subresource-integrity digests for the
//! emitted artifacts, and produces the markup that is spliced back into the
//! document.  External processes, the file system and the HTML tree itself are
//! collaborators: this crate holds the decisions and the exact shape of every
//! name, argument list and markup fragment.

pub mod attrs;
pub mod cli;
pub mod config;
pub mod document;
pub mod errors;
pub mod hash;
pub mod minify;
pub mod output;
pub mod paths;
pub mod purescript;
pub mod rt;
pub mod sri;
pub mod text;
