//! The pipeline's error taxonomy.
//!
//! Configuration errors are detected while a pipeline is constructed, before
//! any external process would be spawned.  Execution errors wrap a failed
//! external step or a missing expected artifact.  I/O errors carry the path
//! involved, and structural errors describe a document that cannot receive the
//! generated markup.  Every error is fatal to its own pipeline only.

use vstd::prelude::*;

verus! {

/// One pipeline's fatal error: the kind from the taxonomy plus a
/// human-readable message naming the offending value or path.
#[derive(Debug, Clone, PartialEq, Eq)]
pub enum Error {
    /// A bad attribute value or a conflicting flag combination.
    Config(String),
    /// An external tool failed or did not produce the expected artifact.
    Execution(String),
    /// Reading, writing or hashing a file failed.
    Io(String),
    /// The document offers no place for the generated markup.
    Dom(String),
}

impl Error {
    /// The message carried by the error, whatever its kind.
    pub open spec fn spec_message(&self) -> Seq<char> {
        match self {
            Error::Config(m) => m@,
            Error::Execution(m) => m@,
            Error::Io(m) => m@,
            Error::Dom(m) => m@,
        }
    }

    /// The message carried by the error, whatever its kind.
    pub fn message(&self) -> (r: &String)
        ensures
            r@ == self.spec_message(),
    {
        match self {
            Error::Config(m) => m,
            Error::Execution(m) => m,
            Error::Io(m) => m,
            Error::Dom(m) => m,
        }
    }

    /// True of configuration errors alone.
    pub open spec fn spec_is_config(&self) -> bool {
        self is Config
    }
}

} // verus!
