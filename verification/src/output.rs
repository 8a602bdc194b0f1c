//! The output finalizer and injector: given a completed pipeline's output and
//! a document, it evaluates the configured templates (or synthesizes the
//! default markup), appends the preload elements into the head, and performs
//! exactly one structural mutation — replacing the directive element or
//! appending to the body — unless script injection is globally disabled.

use vstd::prelude::*;
use crate::document::{spec_find_id, DocView, Document};
use crate::errors::Error;
use crate::purescript::PureScriptAppType;
use crate::rt::{spec_nonce_attr, nonce_attr, CrossOrigin, RtcBuild};
use crate::sri::{spec_sri_markups, SriBuilder, SriRecordV};
use crate::text::{clone_opt_string, opt_str_view, replace_all, spec_replace_all};

verus! {

/// The output of a completed PureScript build pipeline.
#[derive(Debug)]
pub struct PureScriptAppOutput {
    /// The shared build configuration.
    pub cfg: RtcBuild,
    /// The id of this pipeline's directive element; absent for the implicit
    /// default pipeline, whose markup is appended to the body.
    pub id: Option<usize>,
    /// The public, URL-relative name of the primary emitted artifact.
    pub bundle_output: String,
    /// How the application is used.
    pub app_type: PureScriptAppType,
    /// The cross-origin policy for loading the resources.
    pub cross_origin: CrossOrigin,
    /// The recorded subresource digests.
    pub integrities: SriBuilder,
    /// The staged name of the initializer module, when one was configured.
    pub initializer: Option<String>,
    /// The inline development run script, when the build ran in development
    /// mode.
    pub dev_mode_run_script: Option<String>,
}

/// The character sequences behind a resolved parameter list.
pub open spec fn spec_params_view(p: Seq<(String, Option<String>)>) -> Seq<
    (Seq<char>, Option<Seq<char>>),
> {
    p.map_values(|e: (String, Option<String>)| (e.0@, opt_str_view(e.1)))
}

/// Template substitution over resolved parameters: each `{key}` whose value
/// resolved is replaced by that value, in parameter order; an unresolved
/// value — a file indirection whose file could not be read — leaves its
/// placeholder untouched.
pub open spec fn spec_pattern_evaluate(
    t: Seq<char>,
    params: Seq<(Seq<char>, Option<Seq<char>>)>,
) -> Seq<char>
    decreases params.len(),
{
    if params.len() == 0 {
        t
    } else {
        let t2 = match params[0].1 {
            Some(v) => spec_replace_all(t, seq!['{'] + params[0].0 + seq!['}'], v),
            None => t,
        };
        spec_pattern_evaluate(t2, params.skip(1))
    }
}

/// Evaluate a template against resolved parameters: every `{key}` is replaced
/// by the key's resolved value; an unresolved value leaves the placeholder as
/// it stands.
pub fn pattern_evaluate(template: &str, params: &Vec<(String, Option<String>)>) -> (r: String)
    ensures
        r@ == spec_pattern_evaluate(template@, spec_params_view(params@)),
{
    let mut result = String::from_str(template);
    let n = params.len();
    let mut i: usize = 0;
    proof {
        assert(spec_params_view(params@).skip(0) =~= spec_params_view(params@));
    }
    while i < n
        invariant
            n == params@.len(),
            i <= n,
            spec_pattern_evaluate(template@, spec_params_view(params@)) == spec_pattern_evaluate(
                result@,
                spec_params_view(params@).skip(i as int),
            ),
        decreases n - i,
    {
        proof {
            assert(spec_params_view(params@)[i as int] == (
                params@[i as int].0@,
                opt_str_view(params@[i as int].1),
            ));
            assert(spec_params_view(params@).skip(i as int)[0] == spec_params_view(
                params@,
            )[i as int]);
            assert(spec_params_view(params@).skip(i as int).skip(1) =~= spec_params_view(
                params@,
            ).skip(i + 1));
        }
        match &params[i].1 {
            Some(v) => {
                let mut pat = String::from_str("{");
                pat.append(params[i].0.as_str());
                pat.append("}");
                proof {
                    reveal_strlit("{");
                    reveal_strlit("}");
                    assert("{"@ =~= seq!['{']);
                    assert("}"@ =~= seq!['}']);
                    assert(pat@ =~= seq!['{'] + params@[i as int].0@ + seq!['}']);
                }
                result = replace_all(result.as_str(), pat.as_str(), v.as_str());
            },
            None => {},
        }
        i = i + 1;
    }
    proof {
        assert(spec_params_view(params@).skip(n as int) =~= Seq::<
            (Seq<char>, Option<Seq<char>>),
        >::empty());
    }
    result
}

/// The statement that fires the application-started event.
pub open spec fn spec_fire() -> Seq<char> {
    "dispatchEvent(new CustomEvent(\"PrankApplicationStarted\"));"@
}

/// The substitution parameters the finalizer evaluates templates against:
/// the public base URL, the primary artifact's name and the cross-origin
/// value, followed by the globally configured custom parameters.
pub open spec fn spec_full_params(
    base: Seq<char>,
    bundle: Seq<char>,
    cross: CrossOrigin,
    params: Seq<(Seq<char>, Option<Seq<char>>)>,
) -> Seq<(Seq<char>, Option<Seq<char>>)> {
    seq![
        ("base"@, Some(base)),
        ("bundle"@, Some(bundle)),
        ("crossorigin"@, Some(cross.spec_as_str())),
    ] + params
}

/// The module-script markup wrapping an inline development run script.
pub open spec fn spec_dev_script_markup(nonce: Option<Seq<char>>, dev_script: Seq<char>) -> Seq<
    char,
> {
    "\n<script type=\"module\""@ + spec_nonce_attr(nonce) + ">\n"@ + dev_script + "\n"@
        + spec_fire() + "\n</script>"@
}

/// The default module-script markup: import the initializer first when one
/// exists, awaiting its default export if callable, then import the bundle,
/// then fire the start event.
pub open spec fn spec_default_initializer(
    nonce: Option<Seq<char>>,
    base: Seq<char>,
    bundle: Seq<char>,
    initializer: Option<Seq<char>>,
    fire: Seq<char>,
) -> Seq<char> {
    match initializer {
        None => "\n<script type=\"module\""@ + spec_nonce_attr(nonce) + ">\nimport '"@ + base
            + bundle + "';\n"@ + fire + "\n</script>"@,
        Some(init) => "\n<script type=\"module\""@ + spec_nonce_attr(nonce)
            + ">\nimport setup from '"@ + base + init
            + "';\nif (typeof setup === 'function') {\n    await Promise.resolve(setup());\n}\nimport '"@
            + base + bundle + "';\n"@ + fire + "\n</script>"@,
    }
}

/// The body/script markup the finalizer injects: the wrapped development run
/// script when one exists, else the evaluated custom script template, else
/// the default module script.
pub open spec fn spec_script_markup(
    nonce: Option<Seq<char>>,
    dev: Option<Seq<char>>,
    pattern_script: Option<Seq<char>>,
    full_params: Seq<(Seq<char>, Option<Seq<char>>)>,
    base: Seq<char>,
    bundle: Seq<char>,
    initializer: Option<Seq<char>>,
) -> Seq<char> {
    match dev {
        Some(ds) => spec_dev_script_markup(nonce, ds),
        None => match pattern_script {
            Some(p) => spec_pattern_evaluate(p, full_params),
            None => spec_default_initializer(nonce, base, bundle, initializer, spec_fire()),
        },
    }
}

/// The fragments the finalizer appends to the head: the evaluated custom
/// preload template when one is configured, else one SRI preload element per
/// record.
pub open spec fn spec_head_markups(
    pattern_preload: Option<Seq<char>>,
    full_params: Seq<(Seq<char>, Option<Seq<char>>)>,
    records: Seq<SriRecordV>,
    base: Seq<char>,
    cross: CrossOrigin,
    nonce: Option<Seq<char>>,
) -> Seq<Seq<char>> {
    match pattern_preload {
        Some(p) => seq![spec_pattern_evaluate(p, full_params)],
        None => spec_sri_markups(records, base, cross, nonce),
    }
}

impl PureScriptAppOutput {
    /// The head fragments this output produces, over the given resolved
    /// custom parameters.
    pub open spec fn spec_heads(self, params: Seq<(Seq<char>, Option<Seq<char>>)>) -> Seq<
        Seq<char>,
    > {
        spec_head_markups(
            opt_str_view(self.cfg.pattern_preload),
            spec_full_params(self.cfg@.public_url, self.bundle_output@, self.cross_origin, params),
            self.integrities@.records,
            self.cfg@.public_url,
            self.cross_origin,
            self.cfg@.nonce,
        )
    }

    /// The body/script markup this output produces, over the given resolved
    /// custom parameters.
    pub open spec fn spec_script(self, params: Seq<(Seq<char>, Option<Seq<char>>)>) -> Seq<
        char,
    > {
        spec_script_markup(
            self.cfg@.nonce,
            opt_str_view(self.dev_mode_run_script),
            opt_str_view(self.cfg.pattern_script),
            spec_full_params(self.cfg@.public_url, self.bundle_output@, self.cross_origin, params),
            self.cfg@.public_url,
            self.bundle_output@,
            opt_str_view(self.initializer),
        )
    }

    /// Create the default initializer script section.
    pub fn default_initializer(&self, base: &str, bundle: &str, fire: &str) -> (r: String)
        ensures
            r@ == spec_default_initializer(
                self.cfg@.nonce,
                base@,
                bundle@,
                opt_str_view(self.initializer),
                fire@,
            ),
    {
        let nonce = nonce_attr(&self.cfg.nonce);
        match &self.initializer {
            None => {
                let mut m = String::from_str("\n<script type=\"module\"");
                m.append(nonce.as_str());
                m.append(">\nimport '");
                m.append(base);
                m.append(bundle);
                m.append("';\n");
                m.append(fire);
                m.append("\n</script>");
                m
            },
            Some(initializer) => {
                let mut m = String::from_str("\n<script type=\"module\"");
                m.append(nonce.as_str());
                m.append(">\nimport setup from '");
                m.append(base);
                m.append(initializer.as_str());
                m.append(
                    "';\nif (typeof setup === 'function') {\n    await Promise.resolve(setup());\n}\nimport '",
                );
                m.append(base);
                m.append(bundle);
                m.append("';\n");
                m.append(fire);
                m.append("\n</script>");
                m
            },
        }
    }

    /// Finalize this output against a document: append the head markup, then
    /// perform exactly one structural mutation — replace the directive
    /// element, or append to a non-empty body — unless script injection is
    /// disabled, in which case the document is left untouched.
    ///
    /// `params` are the globally configured custom pattern parameters with
    /// their file indirections already resolved by the caller: a value read
    /// from a file stands resolved, an unreadable file stands unresolved.
    pub fn finalize(self, dom: &mut Document, params: &Vec<(String, Option<String>)>) -> (r:
        Result<(), Error>)
        ensures
            !self.cfg.inject_scripts ==> r is Ok && final(dom)@ == old(dom)@,
            (self.cfg.inject_scripts && !old(dom)@.has_head && self.spec_heads(
                spec_params_view(params@),
            ).len() > 0) ==> (r matches Err(e) && final(dom)@ == old(dom)@ && (e matches
            Error::Dom(_))),
            (self.cfg.inject_scripts && (old(dom)@.has_head || self.spec_heads(
                spec_params_view(params@),
            ).len() == 0)) ==> ({
                let d1 = DocView {
                    head_appends: old(dom)@.head_appends + self.spec_heads(
                        spec_params_view(params@),
                    ),
                    ..old(dom)@
                };
                let script = self.spec_script(spec_params_view(params@));
                match self.id {
                    Some(pid) => match spec_find_id(old(dom)@.elements, pid) {
                        Some(k) => r is Ok && final(dom)@ == (DocView {
                            elements: old(dom)@.elements.remove(k),
                            replacements: old(dom)@.replacements.push((pid, script)),
                            ..d1
                        }),
                        None => r matches Err(e) && final(dom)@ == d1 && (e matches Error::Dom(
                            _,
                        )),
                    },
                    None => {
                        if old(dom)@.body_children == 0 && old(dom)@.body_appends.len() == 0 {
                            r matches Err(e) && final(dom)@ == d1 && (e matches Error::Dom(m)
                                && m@
                                == "Document has neither a <link data-prank rel=\"purescript\"/> nor a <body>. Either one must be present."@)
                        } else {
                            r is Ok && final(dom)@ == (DocView {
                                body_appends: old(dom)@.body_appends.push(script),
                                ..d1
                            })
                        }
                    },
                }
            }),
    {
        if !self.cfg.inject_scripts {
            // configuration directed we do not inject any scripts
            return Ok(());
        }
        let ghost pv = spec_params_view(params@);
        let ghost full = spec_full_params(
            self.cfg@.public_url,
            self.bundle_output@,
            self.cross_origin,
            pv,
        );

        // the substitution parameters: base, bundle and crossorigin, then the
        // configured custom parameters
        let mut full_params: Vec<(String, Option<String>)> = Vec::new();
        full_params.push((String::from_str("base"), Some(self.cfg.public_url.clone())));
        full_params.push((String::from_str("bundle"), Some(self.bundle_output.clone())));
        full_params.push(
            (String::from_str("crossorigin"), Some(String::from_str(self.cross_origin.as_str()))),
        );
        let n = params.len();
        let mut i: usize = 0;
        proof {
            assert(spec_params_view(full_params@) =~= full.take(3));
        }
        while i < n
            invariant
                n == params@.len(),
                i <= n,
                full == spec_full_params(
                    self.cfg@.public_url,
                    self.bundle_output@,
                    self.cross_origin,
                    spec_params_view(params@),
                ),
                spec_params_view(full_params@) == full.take(3 + i),
            decreases n - i,
        {
            let key = params[i].0.clone();
            let value = clone_opt_string(&params[i].1);
            let ghost kv = key@;
            let ghost vv = opt_str_view(value);
            let ghost prevfp = full_params@;
            full_params.push((key, value));
            proof {
                assert(spec_params_view(params@)[i as int] == (
                    params@[i as int].0@,
                    opt_str_view(params@[i as int].1),
                ));
                assert(spec_params_view(prevfp).len() == prevfp.len());
                assert(prevfp.len() == 3 + i);
                let m = spec_params_view(full_params@);
                assert forall|k: int| 0 <= k < full_params@.len() implies m[k] == full.take(
                    3 + i + 1,
                )[k] by {
                    assert(m[k] == (full_params@[k].0@, opt_str_view(full_params@[k].1)));
                    if k < 3 + i {
                        assert(full_params@[k] == prevfp[k]);
                        assert(spec_params_view(prevfp)[k] == (
                            prevfp[k].0@,
                            opt_str_view(prevfp[k].1),
                        ));
                    } else {
                        assert(full_params@[k].0@ == kv && opt_str_view(full_params@[k].1) == vv);
                    }
                }
                assert(spec_params_view(full_params@) =~= full.take(3 + i + 1));
            }
            i = i + 1;
        }
        proof {
            assert(full.take(3 + n) =~= full);
        }

        // head markup: the custom preload template, else the recorded SRI
        // preload elements
        match &self.cfg.pattern_preload {
            Some(pattern) => {
                let html = pattern_evaluate(pattern.as_str(), &full_params);
                match dom.append_head(html) {
                    Ok(()) => {
                        proof {
                            assert(old(dom)@.head_appends.push(
                                spec_pattern_evaluate(pattern@, full),
                            ) =~= old(dom)@.head_appends + self.spec_heads(pv));
                        }
                    },
                    Err(e) => {
                        return Err(e);
                    },
                }
            },
            None => {
                match self.integrities.duplicate().build().inject(
                    dom,
                    self.cfg.public_url.as_str(),
                    self.cross_origin,
                    &self.cfg.nonce,
                ) {
                    Ok(()) => (),
                    Err(e) => {
                        return Err(e);
                    },
                }
            },
        }
        let ghost d1 = DocView {
            head_appends: old(dom)@.head_appends + self.spec_heads(pv),
            ..old(dom)@
        };
        proof {
            assert(dom@ == d1);
        }

        // body/script markup
        let fire = "dispatchEvent(new CustomEvent(\"PrankApplicationStarted\"));";
        let script: String = match &self.dev_mode_run_script {
            Some(dev_script) => {
                let mut m = String::from_str("\n<script type=\"module\"");
                let na = nonce_attr(&self.cfg.nonce);
                m.append(na.as_str());
                m.append(">\n");
                m.append(dev_script.as_str());
                m.append("\n");
                m.append(fire);
                m.append("\n</script>");
                m
            },
            None => match &self.cfg.pattern_script {
                Some(pattern) => pattern_evaluate(pattern.as_str(), &full_params),
                None => self.default_initializer(
                    self.cfg.public_url.as_str(),
                    self.bundle_output.as_str(),
                    fire,
                ),
            },
        };
        proof {
            assert(script@ == self.spec_script(pv));
        }

        // placement: replace the directive element, or append to a non-empty
        // body
        match self.id {
            Some(id) => match dom.replace_element(id, script) {
                Ok(()) => Ok(()),
                Err(e) => Err(e),
            },
            None => {
                if dom.body_is_empty() {
                    return Err(
                        Error::Dom(
                            String::from_str(
                                "Document has neither a <link data-prank rel=\"purescript\"/> nor a <body>. Either one must be present.",
                            ),
                        ),
                    );
                }
                dom.append_body(script);
                Ok(())
            },
        }
    }
}

/// Finalization is a pure function of its inputs: two structurally identical
/// outputs, against two structurally identical documents and identical
/// resolved parameters — nonce included — produce byte-identical head and
/// script markup, so running the finalizer twice over identical inputs
/// mutates both documents identically.
pub proof fn lemma_finalize_idempotent(
    o1: PureScriptAppOutput,
    o2: PureScriptAppOutput,
    params1: Seq<(Seq<char>, Option<Seq<char>>)>,
    params2: Seq<(Seq<char>, Option<Seq<char>>)>,
)
    requires
        o1.cfg@ == o2.cfg@,
        o1.bundle_output@ == o2.bundle_output@,
        o1.cross_origin == o2.cross_origin,
        o1.integrities@ == o2.integrities@,
        opt_str_view(o1.initializer) == opt_str_view(o2.initializer),
        opt_str_view(o1.dev_mode_run_script) == opt_str_view(o2.dev_mode_run_script),
        params1 == params2,
    ensures
        o1.spec_heads(params1) == o2.spec_heads(params2),
        o1.spec_script(params1) == o2.spec_script(params2),
{
}

} // verus!
