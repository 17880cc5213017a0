//! Small verified helpers for character data and decimal formatting.

use vstd::prelude::*;
use vstd::string::*;

verus! {

/// ASCII lower-casing of a single character; characters outside `A`..`Z`
/// are unchanged.
pub open spec fn lower_char_spec(c: char) -> char {
    if 'A' <= c && c <= 'Z' {
        (((c as u8) + 32) as char)
    } else {
        c
    }
}

/// ASCII lower-casing of a character sequence.
pub open spec fn lower_spec(s: Seq<char>) -> Seq<char> {
    s.map_values(|c: char| lower_char_spec(c))
}

pub fn lower_char(c: char) -> (r: char)
    ensures
        r == lower_char_spec(c),
{
    if 'A' <= c && c <= 'Z' {
        ((c as u8) + 32) as char
    } else {
        c
    }
}

/// Character-for-character equality of two string slices.
pub fn str_eq(a: &str, b: &str) -> (r: bool)
    ensures
        r == (a@ == b@),
{
    let alen = a.unicode_len();
    let blen = b.unicode_len();
    if alen != blen {
        return false;
    }
    let mut i: usize = 0;
    while i < alen
        invariant
            i <= alen,
            alen == a@.len(),
            alen == b@.len(),
            forall|j: int| 0 <= j < i ==> a@[j] == b@[j],
        decreases alen - i,
    {
        if a.get_char(i) != b.get_char(i) {
            return false;
        }
        i += 1;
    }
    proof {
        assert(a@ =~= b@);
    }
    true
}

/// Whether `a`, lower-cased, equals `b` (so `b` is expected in lower case).
pub fn str_eq_lower(a: &str, b: &str) -> (r: bool)
    ensures
        r == (lower_spec(a@) == b@),
{
    let alen = a.unicode_len();
    let blen = b.unicode_len();
    if alen != blen {
        proof {
            assert(lower_spec(a@).len() == a@.len());
        }
        return false;
    }
    let mut i: usize = 0;
    while i < alen
        invariant
            i <= alen,
            alen == a@.len(),
            alen == b@.len(),
            forall|j: int| 0 <= j < i ==> lower_char_spec(a@[j]) == b@[j],
        decreases alen - i,
    {
        if lower_char(a.get_char(i)) != b.get_char(i) {
            proof {
                assert(lower_spec(a@)[i as int] != b@[i as int]);
            }
            return false;
        }
        i += 1;
    }
    proof {
        assert(lower_spec(a@) =~= b@);
    }
    true
}

/// Whether `pat` occurs as a contiguous run inside `s`.
pub open spec fn contains_spec(s: Seq<char>, pat: Seq<char>) -> bool {
    exists|i: int|
        0 <= i && i + pat.len() <= s.len() && #[trigger] s.subrange(i, i + pat.len() as int)
            == pat
}

/// Naive substring search.
pub fn str_contains(s: &str, pat: &str) -> (r: bool)
    ensures
        r == contains_spec(s@, pat@),
{
    let slen = s.unicode_len();
    let plen = pat.unicode_len();
    if plen > slen {
        return false;
    }
    if plen == 0 {
        proof {
            assert(s@.subrange(0, 0 + pat@.len() as int) =~= pat@);
        }
        return true;
    }
    let mut i: usize = 0;
    while i <= slen - plen
        invariant
            0 < plen <= slen,
            i <= slen - plen + 1,
            slen == s@.len(),
            plen == pat@.len(),
            forall|k: int|
                0 <= k < i ==> #[trigger] s@.subrange(k, k + pat@.len() as int) != pat@,
        decreases slen - plen - i + 1,
    {
        let mut j: usize = 0;
        let mut matched = true;
        while matched && j < plen
            invariant
                j <= plen,
                plen <= slen,
                i <= slen - plen,
                slen == s@.len(),
                plen == pat@.len(),
                matched ==> forall|k: int| 0 <= k < j ==> s@[i + k] == pat@[k],
                !matched ==> s@.subrange(i as int, i + pat@.len() as int) != pat@,
            decreases (if matched {
                1int
            } else {
                0int
            }), plen - j,
        {
            if s.get_char(i + j) != pat.get_char(j) {
                proof {
                    assert(s@.subrange(i as int, i + pat@.len() as int)[j as int] != pat@[j as int]);
                }
                matched = false;
            } else {
                j += 1;
            }
        }
        if matched {
            proof {
                assert(s@.subrange(i as int, i + pat@.len() as int) =~= pat@);
            }
            return true;
        }
        i += 1;
    }
    proof {
        assert forall|k: int| 0 <= k && k + pat@.len() <= s@.len() implies #[trigger] s@.subrange(
            k,
            k + pat@.len() as int,
        ) != pat@ by {
            assert(k < i);
        }
    }
    false
}

/// The decimal digit characters of `n`, most significant first.
pub open spec fn dec_str(n: nat) -> Seq<char>
    decreases n,
{
    if n < 10 {
        seq![digit_char_spec(n)]
    } else {
        dec_str(n / 10) + seq![digit_char_spec(n % 10)]
    }
}

pub open spec fn digit_char_spec(d: nat) -> char {
    if d == 0 {
        '0'
    } else if d == 1 {
        '1'
    } else if d == 2 {
        '2'
    } else if d == 3 {
        '3'
    } else if d == 4 {
        '4'
    } else if d == 5 {
        '5'
    } else if d == 6 {
        '6'
    } else if d == 7 {
        '7'
    } else if d == 8 {
        '8'
    } else {
        '9'
    }
}

fn push_digit(s: &mut String, d: u64)
    requires
        d < 10,
    ensures
        final(s)@ == old(s)@ + seq![digit_char_spec(d as nat)],
{
    match d {
        0 => s.append("0"),
        1 => s.append("1"),
        2 => s.append("2"),
        3 => s.append("3"),
        4 => s.append("4"),
        5 => s.append("5"),
        6 => s.append("6"),
        7 => s.append("7"),
        8 => s.append("8"),
        _ => s.append("9"),
    }
    proof {
        reveal_strlit("0");
        reveal_strlit("1");
        reveal_strlit("2");
        reveal_strlit("3");
        reveal_strlit("4");
        reveal_strlit("5");
        reveal_strlit("6");
        reveal_strlit("7");
        reveal_strlit("8");
        reveal_strlit("9");
    }
}

fn append_dec_rec(s: &mut String, n: u64)
    ensures
        final(s)@ == old(s)@ + dec_str(n as nat),
    decreases n,
{
    if n < 10 {
        push_digit(s, n);
    } else {
        append_dec_rec(s, n / 10);
        push_digit(s, n % 10);
        proof {
            assert(old(s)@ + dec_str((n / 10) as nat) + seq![digit_char_spec((n % 10) as nat)]
                =~= old(s)@ + dec_str(n as nat));
        }
    }
}

/// The decimal form of `n` as a fresh string.
pub fn dec_string(n: u64) -> (r: String)
    ensures
        r@ == dec_str(n as nat),
{
    let mut s = String::new();
    append_dec_rec(&mut s, n);
    proof {
        assert(Seq::<char>::empty() + dec_str(n as nat) =~= dec_str(n as nat));
    }
    s
}

/// Addition on `i64` that stops at `i64::MAX` instead of wrapping.
pub fn sat_add_i64(a: i64, b: i64) -> (r: i64)
    requires
        a >= 0,
        b >= 0,
    ensures
        r == if a + b <= i64::MAX {
            a + b
        } else {
            i64::MAX as int
        },
{
    if a <= i64::MAX - b {
        a + b
    } else {
        i64::MAX
    }
}

} // verus!
