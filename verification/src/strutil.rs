use vstd::prelude::*;
use vstd::string::StringSliceAdditionalSpecFns;
use vstd::string::StrSliceExecFns;
use vstd::string::StringExecFns;
use vstd::utf8::encode_utf8;
use vstd::utf8::encode_utf8_decode_utf8;

verus! {

/// UTF-8 encoding is injective: two strings with equal byte encodings hold
/// the same characters.
pub proof fn lemma_encode_utf8_injective(a: Seq<char>, b: Seq<char>)
    requires
        encode_utf8(a) == encode_utf8(b),
    ensures
        a == b,
{
    encode_utf8_decode_utf8(a);
    encode_utf8_decode_utf8(b);
}

/// Character-for-character string comparison.
pub fn str_eq(a: &str, b: &str) -> (r: bool)
    ensures
        r == (a@ == b@),
{
    let a_len = a.unicode_len();
    let b_len = b.unicode_len();
    if a_len != b_len {
        return false;
    }
    let mut i: usize = 0;
    while i < a_len
        invariant
            a_len == a@.len(),
            b_len == b@.len(),
            a_len == b_len,
            i <= a_len,
            forall|j: int| 0 <= j < i ==> a@[j] == b@[j],
        decreases a_len - i,
    {
        if a.get_char(i) != b.get_char(i) {
            return false;
        }
        i = i + 1;
    }
    proof {
        assert(a@ =~= b@);
    }
    true
}

pub open spec fn spec_decimal_digit(d: u64) -> char {
    if d == 0 {
        '0'
    } else if d == 1 {
        '1'
    } else if d == 2 {
        '2'
    } else if d == 3 {
        '3'
    } else if d == 4 {
        '4'
    } else if d == 5 {
        '5'
    } else if d == 6 {
        '6'
    } else if d == 7 {
        '7'
    } else if d == 8 {
        '8'
    } else {
        '9'
    }
}

/// The usual decimal rendering of `n`, without leading zeros.
pub open spec fn spec_u64_decimal(n: u64) -> Seq<char>
    decreases n,
{
    if n < 10 {
        seq![spec_decimal_digit(n)]
    } else {
        spec_u64_decimal(n / 10).push(spec_decimal_digit(n % 10))
    }
}

fn decimal_digit_str(d: u64) -> (r: &'static str)
    requires
        d < 10,
    ensures
        r@ =~= seq![spec_decimal_digit(d)],
{
    proof {
        reveal_strlit("0");
        reveal_strlit("1");
        reveal_strlit("2");
        reveal_strlit("3");
        reveal_strlit("4");
        reveal_strlit("5");
        reveal_strlit("6");
        reveal_strlit("7");
        reveal_strlit("8");
        reveal_strlit("9");
    }
    if d == 0 {
        "0"
    } else if d == 1 {
        "1"
    } else if d == 2 {
        "2"
    } else if d == 3 {
        "3"
    } else if d == 4 {
        "4"
    } else if d == 5 {
        "5"
    } else if d == 6 {
        "6"
    } else if d == 7 {
        "7"
    } else if d == 8 {
        "8"
    } else {
        "9"
    }
}

/// Renders `n` in decimal.
pub fn u64_to_string(n: u64) -> (r: String)
    ensures
        r@ == spec_u64_decimal(n),
    decreases n,
{
    if n < 10 {
        String::from_str(decimal_digit_str(n))
    } else {
        let mut prefix = u64_to_string(n / 10);
        prefix.append(decimal_digit_str(n % 10));
        prefix
    }
}

/// `needle` occurs in `hay` starting at position `at`.
pub open spec fn matches_at(hay: Seq<char>, needle: Seq<char>, at: int) -> bool {
    0 <= at && at + needle.len() <= hay.len() && hay.subrange(at, at + needle.len()) == needle
}

/// `needle` occurs somewhere in `hay`.
pub open spec fn contains_seq(hay: Seq<char>, needle: Seq<char>) -> bool {
    exists|at: int| matches_at(hay, needle, at)
}

/// Whether `needle` occurs in `hay` starting at character position `at`.
pub fn occurs_at(hay: &str, needle: &str, at: usize) -> (r: bool)
    requires
        at + needle@.len() <= hay@.len(),
    ensures
        r == matches_at(hay@, needle@, at as int),
{
    let h_len = hay.unicode_len();
    let n_len = needle.unicode_len();
    let mut j: usize = 0;
    while j < n_len
        invariant
            h_len == hay@.len(),
            n_len == needle@.len(),
            at + n_len <= h_len,
            j <= n_len,
            forall|k: int| 0 <= k < j ==> hay@[at + k] == needle@[k],
        decreases n_len - j,
    {
        if hay.get_char(at + j) != needle.get_char(j) {
            proof {
                assert(hay@.subrange(at as int, at + needle@.len())[j as int] == hay@[at + j]);
            }
            return false;
        }
        j = j + 1;
    }
    proof {
        assert(hay@.subrange(at as int, at + needle@.len()) =~= needle@);
    }
    true
}

/// ASCII case folding: an upper-case ASCII letter becomes its lower-case
/// form; every other character is left alone.
pub open spec fn spec_to_lower(c: char) -> char {
    if 65 <= c as u32 && c as u32 <= 90 {
        (c as u32 + 32) as char
    } else {
        c
    }
}

/// The character sequence with every ASCII letter folded to lower case.
pub open spec fn lower_seq(s: Seq<char>) -> Seq<char> {
    s.map_values(|c: char| spec_to_lower(c))
}

/// Case-insensitive character comparison against an expected character.
pub fn char_eq_ci(h: char, n: char) -> (r: bool)
    ensures
        r == (spec_to_lower(h) == n),
{
    let hv = h as u32;
    let nv = n as u32;
    if hv >= 65 && hv <= 90 {
        hv + 32 == nv
    } else {
        hv == nv
    }
}

/// Whether `needle` occurs at character position `at` of `hay` once `hay` is
/// folded to lower case.
pub fn occurs_at_ci(hay: &str, needle: &str, at: usize) -> (r: bool)
    requires
        at + needle@.len() <= hay@.len(),
    ensures
        r == matches_at(lower_seq(hay@), needle@, at as int),
{
    let h_len = hay.unicode_len();
    let n_len = needle.unicode_len();
    proof {
        assert(lower_seq(hay@).len() == hay@.len());
    }
    let mut j: usize = 0;
    while j < n_len
        invariant
            h_len == hay@.len(),
            n_len == needle@.len(),
            at + n_len <= h_len,
            j <= n_len,
            forall|k: int| 0 <= k < j ==> lower_seq(hay@)[at + k] == needle@[k],
        decreases n_len - j,
    {
        if !char_eq_ci(hay.get_char(at + j), needle.get_char(j)) {
            proof {
                assert(lower_seq(hay@)[at + j] == spec_to_lower(hay@[at + j]));
                assert(lower_seq(hay@).subrange(at as int, at + needle@.len())[j as int]
                    == lower_seq(hay@)[at + j]);
            }
            return false;
        }
        proof {
            assert(lower_seq(hay@)[at + j] == spec_to_lower(hay@[at + j]));
        }
        j = j + 1;
    }
    proof {
        assert(lower_seq(hay@).subrange(at as int, at + needle@.len()) =~= needle@);
    }
    true
}

/// Substring search: whether `needle` occurs anywhere in `hay`.
pub fn str_contains(hay: &str, needle: &str) -> (r: bool)
    ensures
        r == contains_seq(hay@, needle@),
{
    let h_len = hay.unicode_len();
    let n_len = needle.unicode_len();
    if n_len > h_len {
        proof {
            assert(forall|at: int| !matches_at(hay@, needle@, at));
        }
        return false;
    }
    let last = h_len - n_len;
    let mut i: usize = 0;
    loop
        invariant
            h_len == hay@.len(),
            n_len == needle@.len(),
            n_len <= h_len,
            last == h_len - n_len,
            i <= last,
            forall|at: int| 0 <= at < i ==> !matches_at(hay@, needle@, at),
        ensures
            forall|at: int| 0 <= at <= last ==> !matches_at(hay@, needle@, at),
        decreases last - i,
    {
        if occurs_at(hay, needle, i) {
            return true;
        }
        if i == last {
            break;
        }
        i = i + 1;
    }
    proof {
        assert(forall|at: int| at > h_len - n_len ==> !matches_at(hay@, needle@, at));
    }
    false
}

} // verus!
