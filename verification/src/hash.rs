//! The content hasher: a fast, non-cryptographic digest over a file's bytes,
//! rendered as lowercase hexadecimal and prefixed to the file name for cache
//! busting.  Hashing never alters content; with hashing disabled the public
//! name is the original file name unchanged.

use vstd::prelude::*;

verus! {

/// The lowercase hexadecimal digit for a value below sixteen.
pub open spec fn hex_digit(d: int) -> char {
    if d == 0 {
        '0'
    } else if d == 1 {
        '1'
    } else if d == 2 {
        '2'
    } else if d == 3 {
        '3'
    } else if d == 4 {
        '4'
    } else if d == 5 {
        '5'
    } else if d == 6 {
        '6'
    } else if d == 7 {
        '7'
    } else if d == 8 {
        '8'
    } else if d == 9 {
        '9'
    } else if d == 10 {
        'a'
    } else if d == 11 {
        'b'
    } else if d == 12 {
        'c'
    } else if d == 13 {
        'd'
    } else if d == 14 {
        'e'
    } else {
        'f'
    }
}

/// The lowercase hexadecimal rendering of `n`, most significant digit first,
/// with no leading zeros and `0` itself rendered as one digit.
pub open spec fn hex_of(n: nat) -> Seq<char>
    decreases n,
{
    if n < 16 {
        seq![hex_digit(n as int)]
    } else {
        hex_of(n / 16).push(hex_digit((n % 16) as int))
    }
}

/// One hexadecimal digit as a string slice.
fn hex_digit_str(d: u64) -> (r: &'static str)
    requires
        d < 16,
    ensures
        r@ == seq![hex_digit(d as int)],
{
    proof {
        reveal_strlit("0");
        reveal_strlit("1");
        reveal_strlit("2");
        reveal_strlit("3");
        reveal_strlit("4");
        reveal_strlit("5");
        reveal_strlit("6");
        reveal_strlit("7");
        reveal_strlit("8");
        reveal_strlit("9");
        reveal_strlit("a");
        reveal_strlit("b");
        reveal_strlit("c");
        reveal_strlit("d");
        reveal_strlit("e");
        reveal_strlit("f");
    }
    let r = match d {
        0 => "0",
        1 => "1",
        2 => "2",
        3 => "3",
        4 => "4",
        5 => "5",
        6 => "6",
        7 => "7",
        8 => "8",
        9 => "9",
        10 => "a",
        11 => "b",
        12 => "c",
        13 => "d",
        14 => "e",
        _ => "f",
    };
    proof {
        assert(r@ =~= seq![hex_digit(d as int)]);
    }
    r
}

/// Render `n` as lowercase hexadecimal.
pub fn u64_to_hex(n: u64) -> (r: String)
    ensures
        r@ == hex_of(n as nat),
    decreases n,
{
    if n < 16 {
        String::from_str(hex_digit_str(n))
    } else {
        let mut s = u64_to_hex(n / 16);
        s.append(hex_digit_str(n % 16));
        proof {
            assert(s@ =~= hex_of(n as nat));
        }
        s
    }
}

/// The digest that the content hasher assigns to a byte sequence.  It is a
/// function of the bytes alone: the same content always carries the same
/// digest.
pub uninterp spec fn seahash_of(bytes: Seq<u8>) -> u64;

/// Relies on seahash::hash: the non-cryptographic digest of a byte slice,
/// a pure function of the bytes.
#[verifier::external_body]
fn seahash_bytes(bytes: &Vec<u8>) -> (h: u64)
    ensures
        h == seahash_of(bytes@),
{
    seahash::hash(bytes.as_slice())
}

/// The cache-busting digest string for `bytes`, present exactly when file
/// hashing is enabled.
pub open spec fn spec_hashed(filehash: bool, bytes: Seq<u8>) -> Option<Seq<char>> {
    if filehash {
        Some(hex_of(seahash_of(bytes) as nat))
    } else {
        None
    }
}

/// The cache-busting digest string for `bytes`, if file hashing is enabled.
pub fn hashed(filehash: bool, bytes: &Vec<u8>) -> (r: Option<String>)
    ensures
        match r {
            Some(h) => spec_hashed(filehash, bytes@) == Some(h@),
            None => spec_hashed(filehash, bytes@) is None,
        },
{
    if filehash {
        Some(u64_to_hex(seahash_bytes(bytes)))
    } else {
        None
    }
}

/// The public cache-busting file name: `{hash}-{name}` when hashing is
/// enabled, the original name unchanged when it is not.
pub open spec fn spec_cache_busted(filehash: bool, name: Seq<char>, bytes: Seq<u8>) -> Seq<
    char,
> {
    if filehash {
        hex_of(seahash_of(bytes) as nat) + seq!['-'] + name
    } else {
        name
    }
}

/// The public cache-busting file name for a file called `name` whose content
/// is `bytes`.
pub fn cache_busted_name(filehash: bool, name: &str, bytes: &Vec<u8>) -> (r: String)
    ensures
        r@ == spec_cache_busted(filehash, name@, bytes@),
{
    match hashed(filehash, bytes) {
        Some(h) => {
            let mut s = h;
            s.append("-");
            s.append(name);
            proof {
                reveal_strlit("-");
                assert("-"@ =~= seq!['-']);
                assert(s@ =~= spec_cache_busted(filehash, name@, bytes@));
            }
            s
        },
        None => String::from_str(name),
    }
}

/// Hashing is deterministic: identical byte content always yields an
/// identical public name, and with hashing disabled the name is the original
/// one, untouched.
pub proof fn lemma_hashing_deterministic(
    filehash: bool,
    name: Seq<char>,
    b1: Seq<u8>,
    b2: Seq<u8>,
)
    requires
        b1 == b2,
    ensures
        spec_cache_busted(filehash, name, b1) == spec_cache_busted(filehash, name, b2),
        spec_cache_busted(false, name, b1) == name,
{
}

} // verus!
