//! The integrity builder: it accumulates one record per staged artifact —
//! resource kind, logical name and cryptographic digest — and renders one
//! SRI-bearing preload element per record into the document head.  With
//! integrity disabled globally no records are produced and injection leaves
//! the document untouched.

use vstd::prelude::*;
use base64::Engine;
use sha2::Digest;
use crate::attrs::{spec_get, Attrs};
use crate::document::{DocView, Document};
use crate::errors::Error;
use crate::rt::{spec_nonce_attr, nonce_attr, CrossOrigin};
use crate::text::{opt_str_view, str_eq};

verus! {

/// The SHA-256 digest of a byte sequence, a function of the bytes alone.
pub uninterp spec fn sha256_of(bytes: Seq<u8>) -> Seq<u8>;

/// The SHA-384 digest of a byte sequence, a function of the bytes alone.
pub uninterp spec fn sha384_of(bytes: Seq<u8>) -> Seq<u8>;

/// The SHA-512 digest of a byte sequence, a function of the bytes alone.
pub uninterp spec fn sha512_of(bytes: Seq<u8>) -> Seq<u8>;

/// The standard base64 rendering of a byte sequence, a function of the bytes
/// alone.
pub uninterp spec fn base64_of(bytes: Seq<u8>) -> Seq<char>;

/// Relies on sha2::Sha256: the SHA-256 digest of the input bytes.
#[verifier::external_body]
fn sha256_bytes(bytes: &Vec<u8>) -> (r: Vec<u8>)
    ensures
        r@ == sha256_of(bytes@),
{
    sha2::Sha256::digest(bytes.as_slice()).to_vec()
}

/// Relies on sha2::Sha384: the SHA-384 digest of the input bytes.
#[verifier::external_body]
fn sha384_bytes(bytes: &Vec<u8>) -> (r: Vec<u8>)
    ensures
        r@ == sha384_of(bytes@),
{
    sha2::Sha384::digest(bytes.as_slice()).to_vec()
}

/// Relies on sha2::Sha512: the SHA-512 digest of the input bytes.
#[verifier::external_body]
fn sha512_bytes(bytes: &Vec<u8>) -> (r: Vec<u8>)
    ensures
        r@ == sha512_of(bytes@),
{
    sha2::Sha512::digest(bytes.as_slice()).to_vec()
}

/// Relies on base64's standard engine: the padded base64 text of the input
/// bytes.
#[verifier::external_body]
fn base64_encode(bytes: &Vec<u8>) -> (r: String)
    ensures
        r@ == base64_of(bytes@),
{
    base64::engine::general_purpose::STANDARD.encode(bytes.as_slice())
}

/// The digest kind recorded for emitted assets.
#[derive(Debug, Clone, Copy, PartialEq, Eq, Structural)]
pub enum IntegrityType {
    /// Integrity is disabled: nothing is recorded.
    Disabled,
    /// SHA-256.
    Sha256,
    /// SHA-384, the default.
    Sha384,
    /// SHA-512.
    Sha512,
}

impl IntegrityType {
    /// The default digest kind, unless integrity is disabled globally.
    pub fn default_unless(no_sri: bool) -> (r: IntegrityType)
        ensures
            r == if no_sri {
                IntegrityType::Disabled
            } else {
                IntegrityType::Sha384
            },
    {
        if no_sri {
            IntegrityType::Disabled
        } else {
            IntegrityType::Sha384
        }
    }

    /// The digest kind a directive selects: its `data-integrity` attribute
    /// parsed against the closed set, else the global default.
    pub fn from_attrs(attrs: &Attrs, no_sri: bool) -> (r: Result<IntegrityType, Error>)
        ensures
            match r {
                Ok(t) => match spec_get(attrs@, "data-integrity"@) {
                    Some(v) => (t == IntegrityType::Disabled && v == "none"@) || (t
                        == IntegrityType::Sha256 && v == "sha256"@) || (t
                        == IntegrityType::Sha384 && v == "sha384"@) || (t
                        == IntegrityType::Sha512 && v == "sha512"@),
                    None => t == IntegrityType::default_unless_spec(no_sri),
                },
                Err(e) => (spec_get(attrs@, "data-integrity"@) matches Some(v) && v != "none"@
                    && v != "sha256"@ && v != "sha384"@ && v != "sha512"@) && (e matches
                Error::Config(m) && m@ == "unknown `data-integrity=\""@ + spec_get(
                    attrs@,
                    "data-integrity"@,
                )->Some_0 + "\"` value; expected one of none, sha256, sha384, sha512"@),
            },
    {
        match attrs.get("data-integrity") {
            Some(v) => {
                if str_eq(v.as_str(), "none") {
                    Ok(IntegrityType::Disabled)
                } else if str_eq(v.as_str(), "sha256") {
                    Ok(IntegrityType::Sha256)
                } else if str_eq(v.as_str(), "sha384") {
                    Ok(IntegrityType::Sha384)
                } else if str_eq(v.as_str(), "sha512") {
                    Ok(IntegrityType::Sha512)
                } else {
                    let mut m = String::from_str("unknown `data-integrity=\"");
                    m.append(v.as_str());
                    m.append("\"` value; expected one of none, sha256, sha384, sha512");
                    Err(Error::Config(m))
                }
            },
            None => Ok(IntegrityType::default_unless(no_sri)),
        }
    }

    /// The default digest kind, unless integrity is disabled globally.
    pub open spec fn default_unless_spec(no_sri: bool) -> IntegrityType {
        if no_sri {
            IntegrityType::Disabled
        } else {
            IntegrityType::Sha384
        }
    }
}

/// The full integrity attribute value for `bytes` under digest kind `t`:
/// the kind's prefix, a dash, and the base64 digest.  Empty when disabled.
pub open spec fn spec_digest_value(t: IntegrityType, bytes: Seq<u8>) -> Seq<char> {
    match t {
        IntegrityType::Disabled => ""@,
        IntegrityType::Sha256 => "sha256-"@ + base64_of(sha256_of(bytes)),
        IntegrityType::Sha384 => "sha384-"@ + base64_of(sha384_of(bytes)),
        IntegrityType::Sha512 => "sha512-"@ + base64_of(sha512_of(bytes)),
    }
}

/// The full integrity attribute value for `bytes` under digest kind `t`.
pub fn digest_value(t: IntegrityType, bytes: &Vec<u8>) -> (r: String)
    ensures
        r@ == spec_digest_value(t, bytes@),
{
    match t {
        IntegrityType::Disabled => String::from_str(""),
        IntegrityType::Sha256 => {
            let mut m = String::from_str("sha256-");
            let d = base64_encode(&sha256_bytes(bytes));
            m.append(d.as_str());
            m
        },
        IntegrityType::Sha384 => {
            let mut m = String::from_str("sha384-");
            let d = base64_encode(&sha384_bytes(bytes));
            m.append(d.as_str());
            m
        },
        IntegrityType::Sha512 => {
            let mut m = String::from_str("sha512-");
            let d = base64_encode(&sha512_bytes(bytes));
            m.append(d.as_str());
            m
        },
    }
}

/// The resource kind of an integrity record.
#[derive(Debug, Clone, Copy, PartialEq, Eq, Structural)]
pub enum SriType {
    /// A preloaded module script.
    ModulePreload,
}

impl SriType {
    /// The `rel` attribute value for this resource kind.
    pub open spec fn spec_rel(self) -> Seq<char> {
        "modulepreload"@
    }

    /// The `rel` attribute value for this resource kind.
    pub fn rel(&self) -> (r: &'static str)
        ensures
            r@ == self.spec_rel(),
    {
        "modulepreload"
    }
}

/// Options honored while recording a resource; only the defaults are
/// supported.
#[derive(Debug, Clone, Copy, PartialEq, Eq, Structural)]
pub struct SriOptions {
}

impl Default for SriOptions {
    /// The default options.
    fn default() -> (r: SriOptions)
        ensures
            r == (SriOptions {  }),
    {
        SriOptions {  }
    }
}

/// The ghost value of one integrity record.
pub ghost struct SriRecordV {
    /// The resource kind.
    pub type_: SriType,
    /// The logical, URL-relative name of the resource.
    pub name: Seq<char>,
    /// The digest kind used.
    pub integrity: IntegrityType,
    /// The full integrity attribute value.
    pub digest: Seq<char>,
}

/// One integrity record: a digest per staged file that markup will refer to.
#[derive(Debug)]
pub struct SriRecord {
    /// The resource kind.
    pub type_: SriType,
    /// The logical, URL-relative name of the resource.
    pub name: String,
    /// The digest kind used.
    pub integrity: IntegrityType,
    /// The full integrity attribute value.
    pub digest: String,
}

impl View for SriRecord {
    type V = SriRecordV;

    open spec fn view(&self) -> SriRecordV {
        SriRecordV {
            type_: self.type_,
            name: self.name@,
            integrity: self.integrity,
            digest: self.digest@,
        }
    }
}

/// The ghost value of the integrity builder.
pub ghost struct SriBuilderV {
    /// The digest kind recorded for every artifact.
    pub integrity: IntegrityType,
    /// The records accumulated so far, oldest first.
    pub records: Seq<SriRecordV>,
}

/// The integrity builder: accumulates one record per staged artifact.
#[derive(Debug)]
pub struct SriBuilder {
    /// The digest kind recorded for every artifact.
    pub integrity: IntegrityType,
    /// The records accumulated so far, oldest first.
    pub records: Vec<SriRecord>,
}

impl View for SriBuilder {
    type V = SriBuilderV;

    open spec fn view(&self) -> SriBuilderV {
        SriBuilderV {
            integrity: self.integrity,
            records: self.records@.map_values(|r: SriRecord| r@),
        }
    }
}

impl SriBuilder {
    /// A builder holding no records yet.
    pub fn new(integrity: IntegrityType) -> (r: SriBuilder)
        ensures
            r@.integrity == integrity,
            r@.records == Seq::<SriRecordV>::empty(),
    {
        let r = SriBuilder { integrity, records: Vec::new() };
        proof {
            assert(r@.records =~= Seq::<SriRecordV>::empty());
        }
        r
    }

    /// A copy holding the same records, so the pipeline keeps its own while
    /// markup generation consumes the other.
    pub fn duplicate(&self) -> (r: SriBuilder)
        ensures
            r@.integrity == self@.integrity,
            r@.records == self@.records,
    {
        let mut records: Vec<SriRecord> = Vec::new();
        let n = self.records.len();
        let mut i: usize = 0;
        proof {
            assert(records@.map_values(|r: SriRecord| r@) =~= self@.records.take(0));
        }
        while i < n
            invariant
                n == self.records.len(),
                i <= n,
                records@.map_values(|r: SriRecord| r@) == self@.records.take(i as int),
            decreases n - i,
        {
            let rec = SriRecord {
                type_: self.records[i].type_,
                name: self.records[i].name.clone(),
                integrity: self.records[i].integrity,
                digest: self.records[i].digest.clone(),
            };
            proof {
                assert(rec@ == self@.records[i as int]);
                assert(records@.map_values(|r: SriRecord| r@).len() == records@.len());
                assert(self@.records.take(i as int).len() == i);
                assert(records@.len() == i);
            }
            let ghost prev = records@;
            records.push(rec);
            proof {
                let m = records@.map_values(|r: SriRecord| r@);
                assert forall|k: int| 0 <= k < records@.len() implies m[k]
                    == self@.records.take(i + 1)[k] by {
                    assert(m[k] == records@[k]@);
                    if k < i {
                        assert(records@[k] == prev[k]);
                        assert(prev.map_values(|r: SriRecord| r@)[k] == prev[k]@);
                    } else {
                        assert(records@[k] == rec);
                    }
                }
                assert(records@.map_values(|r: SriRecord| r@) =~= self@.records.take(i + 1));
            }
            i = i + 1;
        }
        proof {
            assert(self@.records.take(n as int) =~= self@.records);
        }
        SriBuilder { integrity: self.integrity, records }
    }

    /// Record a digest for the artifact called `name` whose staged bytes are
    /// `bytes`.  With integrity disabled nothing is recorded.
    pub fn record_bytes(&mut self, type_: SriType, name: &str, _options: SriOptions, bytes: &Vec<u8>)
        ensures
            final(self)@.integrity == old(self)@.integrity,
            old(self)@.integrity == IntegrityType::Disabled ==> final(self)@.records == old(
                self,
            )@.records,
            old(self)@.integrity != IntegrityType::Disabled ==> final(self)@.records == old(
                self,
            )@.records.push(
                SriRecordV {
                    type_,
                    name: name@,
                    integrity: old(self)@.integrity,
                    digest: spec_digest_value(old(self)@.integrity, bytes@),
                },
            ),
    {
        match self.integrity {
            IntegrityType::Disabled => (),
            _ => {
                let digest = digest_value(self.integrity, bytes);
                let rec = SriRecord {
                    type_,
                    name: String::from_str(name),
                    integrity: self.integrity,
                    digest,
                };
                self.records.push(rec);
                proof {
                    assert(self@.records =~= old(self)@.records.push(
                        SriRecordV {
                            type_,
                            name: name@,
                            integrity: old(self)@.integrity,
                            digest: spec_digest_value(old(self)@.integrity, bytes@),
                        },
                    ));
                }
            },
        }
    }

    /// Finish building: hand the records over for markup generation.
    pub fn build(self) -> (r: Sri)
        ensures
            r@ == self@.records,
    {
        let r = Sri { records: self.records };
        proof {
            assert(r@ =~= self@.records);
        }
        r
    }
}

/// The finished integrity set, ready to render preload markup.
#[derive(Debug)]
pub struct Sri {
    /// The records, oldest first.
    pub records: Vec<SriRecord>,
}

impl View for Sri {
    type V = Seq<SriRecordV>;

    open spec fn view(&self) -> Seq<SriRecordV> {
        self.records@.map_values(|r: SriRecord| r@)
    }
}

/// The preload element rendered for one record: an SRI-bearing link honoring
/// the cross-origin policy and the response nonce.
pub open spec fn spec_sri_link(
    base: Seq<char>,
    r: SriRecordV,
    co: CrossOrigin,
    nonce: Option<Seq<char>>,
) -> Seq<char> {
    "<link rel=\""@ + r.type_.spec_rel() + "\" href=\""@ + base + r.name + "\" integrity=\""@
        + r.digest + "\""@ + co.spec_attr() + spec_nonce_attr(nonce) + ">"@
}

/// The head markup for a whole record set, one preload element per record.
pub open spec fn spec_sri_markups(
    records: Seq<SriRecordV>,
    base: Seq<char>,
    co: CrossOrigin,
    nonce: Option<Seq<char>>,
) -> Seq<Seq<char>> {
    records.map_values(|r: SriRecordV| spec_sri_link(base, r, co, nonce))
}

impl Sri {
    /// Render one preload element for one record.
    fn link_markup(record: &SriRecord, base: &str, co: CrossOrigin, nonce: &Option<String>) -> (r:
        String)
        ensures
            r@ == spec_sri_link(base@, record@, co, opt_str_view(*nonce)),
    {
        let mut m = String::from_str("<link rel=\"");
        m.append(record.type_.rel());
        m.append("\" href=\"");
        m.append(base);
        m.append(record.name.as_str());
        m.append("\" integrity=\"");
        m.append(record.digest.as_str());
        m.append("\"");
        let co_attr = co.attr();
        m.append(co_attr.as_str());
        let nonce_frag = nonce_attr(nonce);
        m.append(nonce_frag.as_str());
        m.append(">");
        m
    }

    /// Append one SRI-bearing preload element per record into the document
    /// head.  With no records the document is untouched; with records but no
    /// head the injection fails and the document is untouched.
    pub fn inject(
        self,
        dom: &mut Document,
        base: &str,
        co: CrossOrigin,
        nonce: &Option<String>,
    ) -> (r: Result<(), Error>)
        ensures
            match r {
                Ok(()) => (self@.len() == 0 || old(dom)@.has_head) && final(dom)@ == (DocView {
                    head_appends: old(dom)@.head_appends + spec_sri_markups(
                        self@,
                        base@,
                        co,
                        opt_str_view(*nonce),
                    ),
                    ..old(dom)@
                }),
                Err(e) => self@.len() > 0 && !old(dom)@.has_head && final(dom)@ == old(dom)@ && (
                e matches Error::Dom(_)),
            },
    {
        let ghost markups = spec_sri_markups(self@, base@, co, opt_str_view(*nonce));
        let n = self.records.len();
        let mut i: usize = 0;
        while i < n
            invariant
                n == self.records.len(),
                i <= n,
                markups == spec_sri_markups(self@, base@, co, opt_str_view(*nonce)),
                i > 0 ==> old(dom)@.has_head,
                dom@ == (DocView {
                    head_appends: old(dom)@.head_appends + markups.take(i as int),
                    ..old(dom)@
                }),
            decreases n - i,
        {
            let markup = Self::link_markup(&self.records[i], base, co, nonce);
            match dom.append_head(markup) {
                Ok(()) => {
                    proof {
                        assert(markups[i as int] == spec_sri_link(
                            base@,
                            self.records[i as int]@,
                            co,
                            opt_str_view(*nonce),
                        ));
                        assert(old(dom)@.head_appends + markups.take(i + 1) =~= (old(
                            dom,
                        )@.head_appends + markups.take(i as int)).push(markups[i as int]));
                    }
                },
                Err(e) => {
                    proof {
                        assert(markups.take(0) =~= Seq::<Seq<char>>::empty());
                        assert(old(dom)@.head_appends + markups.take(0) =~= old(
                            dom,
                        )@.head_appends);
                        assert(dom@ == old(dom)@);
                    }
                    return Err(e);
                },
            }
            i = i + 1;
        }
        proof {
            assert(markups.take(n as int) =~= markups);
            if n == 0 {
                assert(old(dom)@.head_appends + markups =~= old(dom)@.head_appends);
                assert(dom@ == old(dom)@);
            }
        }
        Ok(())
    }
}

} // verus!
