//! Verified text primitives: character-level equality, substring matching and
//! non-overlapping left-to-right replacement.  Template substitution and the
//! path model are built on these.

use vstd::prelude::*;

verus! {

/// The character sequence behind an optional string.
pub open spec fn opt_str_view(o: Option<String>) -> Option<Seq<char>> {
    match o {
        Some(s) => Some(s@),
        None => None,
    }
}

/// A copy of an optional string with the same characters.
pub fn clone_opt_string(o: &Option<String>) -> (r: Option<String>)
    ensures
        opt_str_view(r) == opt_str_view(*o),
{
    match o {
        Some(s) => Some(s.clone()),
        None => None,
    }
}

/// True when `a` and `b` hold the same characters.
pub fn str_eq(a: &str, b: &str) -> (r: bool)
    ensures
        r == (a@ == b@),
{
    let alen = a.unicode_len();
    let blen = b.unicode_len();
    if alen != blen {
        return false;
    }
    let mut i: usize = 0;
    while i < alen
        invariant
            alen == a@.len(),
            alen == b@.len(),
            i <= alen,
            forall|j: int| 0 <= j < i ==> a@[j] == b@[j],
        decreases alen - i,
    {
        if a.get_char(i) != b.get_char(i) {
            return false;
        }
        i = i + 1;
    }
    proof {
        assert(a@ =~= b@);
    }
    true
}

/// True when `pat` occurs in `s` starting at position `i`.
pub fn match_at(s: &str, i: usize, pat: &str) -> (r: bool)
    requires
        i + pat@.len() <= s@.len(),
    ensures
        r == (s@.subrange(i as int, i + pat@.len()) == pat@),
{
    let slen = s.unicode_len();
    let plen = pat.unicode_len();
    let mut j: usize = 0;
    while j < plen
        invariant
            slen == s@.len(),
            plen == pat@.len(),
            i + plen <= s@.len(),
            j <= plen,
            forall|k: int| 0 <= k < j ==> s@[i + k] == pat@[k],
        decreases plen - j,
    {
        if s.get_char(i + j) != pat.get_char(j) {
            proof {
                assert(s@.subrange(i as int, i + pat@.len())[j as int] == s@[i + j]);
            }
            return false;
        }
        j = j + 1;
    }
    proof {
        assert(s@.subrange(i as int, i + pat@.len()) =~= pat@);
    }
    true
}

/// Every occurrence of `pat` in `s`, scanned left to right without overlap,
/// replaced by `rep`; the replacement text itself is not rescanned.
pub open spec fn spec_replace_all(s: Seq<char>, pat: Seq<char>, rep: Seq<char>) -> Seq<char>
    decreases s.len(),
{
    if pat.len() == 0 {
        s
    } else if s.len() < pat.len() {
        s
    } else if s.subrange(0, pat.len() as int) == pat {
        rep + spec_replace_all(s.skip(pat.len() as int), pat, rep)
    } else {
        s.take(1) + spec_replace_all(s.skip(1), pat, rep)
    }
}

/// A suffix too short to hold the pattern is left as it stands.
proof fn lemma_replace_all_short(s: Seq<char>, pat: Seq<char>, rep: Seq<char>)
    requires
        s.len() < pat.len(),
    ensures
        spec_replace_all(s, pat, rep) == s,
{
}

/// Replace every occurrence of `pat` in `s` by `rep`, left to right,
/// without rescanning the replacement.
pub fn replace_all(s: &str, pat: &str, rep: &str) -> (r: String)
    requires
        pat@.len() > 0,
    ensures
        r@ == spec_replace_all(s@, pat@, rep@),
{
    let len = s.unicode_len();
    let plen = pat.unicode_len();
    let mut result = String::new();
    let mut chunk: usize = 0;
    let mut i: usize = 0;
    proof {
        assert(s@.skip(0) =~= s@);
        assert(s@.subrange(0, 0) =~= Seq::<char>::empty());
        assert(result@ + s@.subrange(0, 0) =~= result@);
    }
    if plen <= len {
        while i <= len - plen
            invariant
                plen == pat@.len(),
                len == s@.len(),
                0 < plen <= len,
                chunk <= i <= len,
                spec_replace_all(s@, pat@, rep@) == result@ + s@.subrange(
                    chunk as int,
                    i as int,
                ) + spec_replace_all(s@.skip(i as int), pat@, rep@),
            decreases len - i,
        {
            if match_at(s, i, pat) {
                let piece = s.substring_char(chunk, i);
                result.append(piece);
                result.append(rep);
                proof {
                    let suff = s@.skip(i as int);
                    assert(suff.subrange(0, plen as int) =~= s@.subrange(
                        i as int,
                        i + plen,
                    ));
                    assert(suff.skip(plen as int) =~= s@.skip(i + plen));
                    assert(spec_replace_all(suff, pat@, rep@) == rep@ + spec_replace_all(
                        s@.skip(i + plen),
                        pat@,
                        rep@,
                    ));
                    assert(s@.subrange(i + plen, i + plen) =~= Seq::<char>::empty());
                }
                i = i + plen;
                chunk = i;
                proof {
                    assert(result@ + s@.subrange(chunk as int, i as int) =~= result@);
                }
            } else {
                proof {
                    let suff = s@.skip(i as int);
                    assert(suff.subrange(0, plen as int) =~= s@.subrange(
                        i as int,
                        i + plen,
                    ));
                    assert(suff.take(1) =~= s@.subrange(i as int, i + 1));
                    assert(suff.skip(1) =~= s@.skip(i + 1));
                    assert(spec_replace_all(suff, pat@, rep@) == suff.take(1)
                        + spec_replace_all(s@.skip(i + 1), pat@, rep@));
                    assert(s@.subrange(chunk as int, i as int) + s@.subrange(
                        i as int,
                        i + 1,
                    ) =~= s@.subrange(chunk as int, i + 1));
                }
                i = i + 1;
            }
        }
    }
    proof {
        let suff = s@.skip(i as int);
        if suff.len() < plen {
            lemma_replace_all_short(suff, pat@, rep@);
        }
        assert(suff =~= s@.subrange(i as int, len as int));
        assert(s@.subrange(chunk as int, i as int) + s@.subrange(i as int, len as int)
            =~= s@.subrange(chunk as int, len as int));
    }
    let tail = s.substring_char(chunk, len);
    result.append(tail);
    result
}

} // verus!
