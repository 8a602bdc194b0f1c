//! Staging of script bytes: pass them through verbatim, or minify them with
//! module top-level semantics when the build asks for it.  A minification
//! failure is fatal to the owning pipeline.

use vstd::prelude::*;
use crate::errors::Error;

verus! {

/// What the minifier produces for the given module source bytes: a function
/// of the bytes alone, absent when they do not parse as a module.
pub uninterp spec fn minified_module_js(bytes: Seq<u8>) -> Option<Seq<u8>>;

/// Relies on minify_js::minify with `TopLevelMode::Module`: the minified
/// output is a function of the source bytes alone, and a source that does not
/// parse yields an error.
#[verifier::external_body]
fn minify_module(bytes: &Vec<u8>) -> (r: Result<Vec<u8>, ()>)
    ensures
        match r {
            Ok(out) => minified_module_js(bytes@) == Some(out@),
            Err(()) => minified_module_js(bytes@) is None,
        },
{
    let session = minify_js::Session::new();
    let mut out = Vec::new();
    match minify_js::minify(&session, minify_js::TopLevelMode::Module, bytes.as_slice(), &mut out)
    {
        Ok(()) => Ok(out),
        Err(_) => Err(()),
    }
}

/// The bytes staged for a script whose source is `bytes`: the minified form
/// when minification is on (absent when minification fails), the source
/// verbatim otherwise.
pub open spec fn spec_staged_bytes(minify: bool, bytes: Seq<u8>) -> Option<Seq<u8>> {
    if minify {
        minified_module_js(bytes)
    } else {
        Some(bytes)
    }
}

/// The bytes to write for a script, minified exactly when the build asks for
/// it.  Minification failure is fatal.
pub fn stage_bytes(minify: bool, bytes: Vec<u8>) -> (r: Result<Vec<u8>, Error>)
    ensures
        match r {
            Ok(out) => spec_staged_bytes(minify, bytes@) == Some(out@),
            Err(e) => spec_staged_bytes(minify, bytes@) is None && (e matches Error::Execution(m)
                && m@ == "error minifying JS"@),
        },
{
    if minify {
        match minify_module(&bytes) {
            Ok(out) => Ok(out),
            Err(()) => Err(Error::Execution(String::from_str("error minifying JS"))),
        }
    } else {
        Ok(bytes)
    }
}

} // verus!
