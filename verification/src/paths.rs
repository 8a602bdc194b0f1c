//! A verified path model.
//!
//! Paths are strings over forward slashes, the URL-normalized form the engine
//! emits into markup.  A path is absolute when it starts with `/`; joining an
//! absolute path replaces the base, and no trailing separators are expected on
//! bases.  The model covers exactly what the engine reads of a path: its last
//! segment, its parent, its extension, and whether a given segment occurs.

use vstd::prelude::*;
use crate::text::str_eq;

verus! {

/// The last index at which `c` occurs in `p`, or `-1` when it does not.
pub open spec fn last_idx_of(p: Seq<char>, c: char) -> int
    decreases p.len(),
{
    if p.len() == 0 {
        -1
    } else if p[p.len() - 1] == c {
        p.len() - 1
    } else {
        last_idx_of(p.take(p.len() - 1), c)
    }
}

proof fn lemma_last_idx_of_bounds(p: Seq<char>, c: char)
    ensures
        -1 <= last_idx_of(p, c) < p.len(),
        last_idx_of(p, c) >= 0 ==> p[last_idx_of(p, c)] == c,
        forall|j: int| last_idx_of(p, c) < j < p.len() ==> p[j] != c,
    decreases p.len(),
{
    if p.len() > 0 && p[p.len() - 1] != c {
        lemma_last_idx_of_bounds(p.take(p.len() - 1), c);
        assert forall|j: int| last_idx_of(p, c) < j < p.len() implies p[j] != c by {
            if j < p.len() - 1 {
                assert(p.take(p.len() - 1)[j] == p[j]);
            }
        }
    }
}

/// The last index at which `c` occurs, as executable code.
pub fn last_index_of(p: &str, c: char) -> (r: Option<usize>)
    ensures
        match r {
            Some(i) => last_idx_of(p@, c) == i,
            None => last_idx_of(p@, c) == -1,
        },
{
    let len = p.unicode_len();
    let mut i: usize = len;
    proof {
        assert(p@.take(len as int) =~= p@);
    }
    while i > 0
        invariant
            len == p@.len(),
            i <= len,
            last_idx_of(p@, c) == last_idx_of(p@.take(i as int), c),
        decreases i,
    {
        if p.get_char(i - 1) == c {
            proof {
                assert(p@.take(i as int)[i - 1] == p@[i - 1]);
            }
            return Some(i - 1);
        }
        proof {
            assert(p@.take(i as int).take(i - 1) =~= p@.take(i - 1));
            assert(p@.take(i as int)[i - 1] == p@[i - 1]);
        }
        i = i - 1;
    }
    None
}

/// True when the path is absolute: it starts with a separator.
pub open spec fn spec_is_absolute(p: Seq<char>) -> bool {
    p.len() > 0 && p[0] == '/'
}

/// True when the path is absolute: it starts with a separator.
pub fn is_absolute(p: &str) -> (r: bool)
    ensures
        r == spec_is_absolute(p@),
{
    p.unicode_len() > 0 && p.get_char(0) == '/'
}

/// `rel` resolved against `base`: an absolute `rel` stands alone, anything
/// else is appended to `base` behind a single separator.
pub open spec fn spec_join(base: Seq<char>, rel: Seq<char>) -> Seq<char> {
    if spec_is_absolute(rel) {
        rel
    } else if base.len() == 0 {
        rel
    } else if base[base.len() - 1] == '/' {
        base + rel
    } else {
        base + seq!['/'] + rel
    }
}

/// Join `rel` to `base` under the model's rules.
pub fn join(base: &str, rel: &str) -> (r: String)
    ensures
        r@ == spec_join(base@, rel@),
{
    if is_absolute(rel) {
        return String::from_str(rel);
    }
    let blen = base.unicode_len();
    if blen == 0 {
        return String::from_str(rel);
    }
    let mut out = String::from_str(base);
    if base.get_char(blen - 1) != '/' {
        out.append("/");
        proof {
            reveal_strlit("/");
            assert("/"@ =~= seq!['/']);
        }
    }
    out.append(rel);
    out
}

/// The last segment of the path: everything after the final separator.
pub open spec fn spec_last_segment(p: Seq<char>) -> Seq<char> {
    p.skip(last_idx_of(p, '/') + 1)
}

/// The last segment of the path, as executable code.
pub fn last_segment(p: &str) -> (r: String)
    ensures
        r@ == spec_last_segment(p@),
{
    proof {
        lemma_last_idx_of_bounds(p@, '/');
    }
    let len = p.unicode_len();
    let cut: usize = match last_index_of(p, '/') {
        Some(i) => i + 1,
        None => 0,
    };
    let seg = p.substring_char(cut, len);
    proof {
        assert(p@.subrange(cut as int, len as int) =~= p@.skip(last_idx_of(p@, '/') + 1));
    }
    String::from_str(seg)
}

/// The file name borne by the path: its last segment, absent when that
/// segment is empty.
pub open spec fn spec_file_name(p: Seq<char>) -> Option<Seq<char>> {
    if spec_last_segment(p).len() == 0 {
        None
    } else {
        Some(spec_last_segment(p))
    }
}

/// The file name borne by the path, as executable code.
pub fn file_name_of(p: &str) -> (r: Option<String>)
    ensures
        match r {
            Some(name) => spec_file_name(p@) == Some(name@),
            None => spec_file_name(p@) is None,
        },
{
    let seg = last_segment(p);
    if seg.as_str().unicode_len() == 0 {
        None
    } else {
        Some(seg)
    }
}

/// The parent directory of the path: what stands before the final separator.
/// The root and the empty path have none; a bare file name's parent is the
/// empty path.
pub open spec fn spec_parent(p: Seq<char>) -> Option<Seq<char>> {
    if p.len() == 0 {
        None
    } else if last_idx_of(p, '/') == -1 {
        Some(Seq::<char>::empty())
    } else if last_idx_of(p, '/') == 0 {
        if p.len() == 1 {
            None
        } else {
            Some(seq!['/'])
        }
    } else {
        Some(p.take(last_idx_of(p, '/')))
    }
}

/// The parent directory of the path, as executable code.
pub fn parent_of(p: &str) -> (r: Option<String>)
    ensures
        match r {
            Some(par) => spec_parent(p@) == Some(par@),
            None => spec_parent(p@) is None,
        },
{
    proof {
        lemma_last_idx_of_bounds(p@, '/');
    }
    let len = p.unicode_len();
    if len == 0 {
        return None;
    }
    match last_index_of(p, '/') {
        None => Some(String::new()),
        Some(i) => {
            if i == 0 {
                if len == 1 {
                    None
                } else {
                    proof {
                        reveal_strlit("/");
                        assert("/"@ =~= seq!['/']);
                    }
                    Some(String::from_str("/"))
                }
            } else {
                let par = p.substring_char(0, i);
                proof {
                    assert(p@.subrange(0, i as int) =~= p@.take(i as int));
                }
                Some(String::from_str(par))
            }
        },
    }
}

/// The extension of the path's file name: what follows the final dot, absent
/// when the name holds no dot past its first character.
pub open spec fn spec_extension(p: Seq<char>) -> Option<Seq<char>> {
    match spec_file_name(p) {
        None => None,
        Some(name) => {
            if last_idx_of(name, '.') <= 0 {
                None
            } else {
                Some(name.skip(last_idx_of(name, '.') + 1))
            }
        },
    }
}

/// The extension of the path's file name, as executable code.
pub fn extension_of(p: &str) -> (r: Option<String>)
    ensures
        match r {
            Some(ext) => spec_extension(p@) == Some(ext@),
            None => spec_extension(p@) is None,
        },
{
    let name = match file_name_of(p) {
        None => {
            return None;
        },
        Some(name) => name,
    };
    proof {
        lemma_last_idx_of_bounds(name@, '.');
    }
    let nlen = name.as_str().unicode_len();
    match last_index_of(name.as_str(), '.') {
        None => None,
        Some(i) => {
            if i == 0 {
                None
            } else {
                let ext = name.as_str().substring_char(i + 1, nlen);
                proof {
                    assert(name@.subrange(i + 1, nlen as int) =~= name@.skip(
                        last_idx_of(name@, '.') + 1,
                    ));
                }
                Some(String::from_str(ext))
            }
        },
    }
}

/// True of the bounds of one `/`-separated segment of `p`.
pub open spec fn is_seg_at(p: Seq<char>, a: int, b: int) -> bool {
    0 <= a <= b <= p.len() && (a == 0 || p[a - 1] == '/') && (b == p.len() || p[b] == '/') && (
    forall|k: int| a <= k < b ==> p[k] != '/')
}

/// True when some `/`-separated segment of `p` equals `comp`.
pub open spec fn spec_has_component(p: Seq<char>, comp: Seq<char>) -> bool {
    exists|a: int, b: int| is_seg_at(p, a, b) && p.subrange(a, b) == comp
}

/// Whether some `/`-separated segment of `p` equals `comp`.
pub fn has_component(p: &str, comp: &str) -> (r: bool)
    ensures
        r == spec_has_component(p@, comp@),
{
    let len = p.unicode_len();
    let mut a: usize = 0;
    loop
        invariant
            len == p@.len(),
            a <= len,
            a == 0 || p@[a - 1] == '/',
            forall|x: int, y: int|
                is_seg_at(p@, x, y) && x < a ==> p@.subrange(x, y) != comp@,
        decreases len - a,
    {
        let mut b: usize = a;
        while b < len && p.get_char(b) != '/'
            invariant
                len == p@.len(),
                a <= b <= len,
                forall|k: int| a <= k < b ==> p@[k] != '/',
            decreases len - b,
        {
            b = b + 1;
        }
        proof {
            assert(is_seg_at(p@, a as int, b as int));
        }
        let seg = p.substring_char(a, b);
        if str_eq(seg, comp) {
            proof {
                assert(is_seg_at(p@, a as int, b as int) && p@.subrange(a as int, b as int)
                    == comp@);
            }
            return true;
        }
        proof {
            assert forall|x: int, y: int|
                is_seg_at(p@, x, y) && x < b + 1 implies p@.subrange(x, y) != comp@ by {
                if x >= a {
                    if x == a {
                        if y < b {
                            assert(p@[y] == '/');
                            assert(false);
                        } else if y > b {
                            assert(b < len && p@[b as int] == '/');
                            assert(p@[b as int] != '/');
                            assert(false);
                        }
                    } else {
                        assert(a <= x - 1 < b);
                        assert(p@[x - 1] != '/');
                        assert(false);
                    }
                }
            }
        }
        if b == len {
            proof {
                assert forall|x: int, y: int| is_seg_at(p@, x, y) implies p@.subrange(x, y)
                    != comp@ by {
                    if x >= b + 1 {
                        assert(a <= x - 1 < len);
                        assert(p@[x - 1] != '/');
                        assert(false);
                    }
                }
            }
            return false;
        }
        a = b + 1;
    }
}

} // verus!
