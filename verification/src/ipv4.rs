use vstd::prelude::*;
use vstd::string::*;

verus! {

/// One character of decimal notation.
pub open spec fn is_digit(c: char) -> bool {
    ('0' as u32) <= (c as u32) && (c as u32) <= ('9' as u32)
}

/// The value a decimal digit denotes.
pub open spec fn digit_val(c: char) -> int {
    (c as u32) - ('0' as u32)
}

/// The number a digit string denotes, most significant digit first.
pub open spec fn dec_val(s: Seq<char>) -> int
    decreases s.len(),
{
    if s.len() == 0 {
        0
    } else {
        dec_val(s.drop_last()) * 10 + digit_val(s.last())
    }
}

pub open spec fn all_digits(s: Seq<char>) -> bool {
    forall|t: int| 0 <= t < s.len() ==> is_digit(s[t])
}

/// A decimal octet as strict dotted-quad notation accepts it: one to three
/// digits, no leading zero, value at most 255.
pub open spec fn is_octet(s: Seq<char>) -> bool {
    &&& 1 <= s.len() <= 3
    &&& all_digits(s)
    &&& (s.len() > 1 ==> s[0] != '0')
    &&& dec_val(s) <= 255
}

/// Dotted-quad shape with the separators at positions `i < j < k`.
pub open spec fn ipv4_shape(s: Seq<char>, i: int, j: int, k: int) -> bool {
    &&& 0 <= i < j < k < s.len()
    &&& s[i] == '.'
    &&& s[j] == '.'
    &&& s[k] == '.'
    &&& is_octet(s.subrange(0, i))
    &&& is_octet(s.subrange(i + 1, j))
    &&& is_octet(s.subrange(j + 1, k))
    &&& is_octet(s.subrange(k + 1, s.len() as int))
}

/// Text in strict dotted-quad notation: four dot-separated octets.
pub open spec fn is_ipv4(s: Seq<char>) -> bool {
    exists|i: int, j: int, k: int| ipv4_shape(s, i, j, k)
}

/// The 32-bit big-endian value of a dotted quad split at `i < j < k`.
pub open spec fn ipv4_bits_at(s: Seq<char>, i: int, j: int, k: int) -> int {
    dec_val(s.subrange(0, i)) * 0x1000000 + dec_val(s.subrange(i + 1, j)) * 0x10000 + dec_val(
        s.subrange(j + 1, k),
    ) * 0x100 + dec_val(s.subrange(k + 1, s.len() as int))
}

/// The 32-bit big-endian value of dotted-quad text.
pub open spec fn ipv4_bits(s: Seq<char>) -> int {
    let (i, j, k) = choose|i: int, j: int, k: int| ipv4_shape(s, i, j, k);
    ipv4_bits_at(s, i, j, k)
}

/// In a dotted quad split at `i < j < k`, those are the only separators.
proof fn lemma_dot_is_one_of(s: Seq<char>, i: int, j: int, k: int, m: int)
    requires
        ipv4_shape(s, i, j, k),
        0 <= m < s.len(),
        s[m] == '.',
    ensures
        m == i || m == j || m == k,
{
    if m < i {
        assert(s.subrange(0, i)[m] == s[m]);
        assert(is_digit(s[m]));
    } else if i < m < j {
        assert(s.subrange(i + 1, j)[m - (i + 1)] == s[m]);
        assert(is_digit(s[m]));
    } else if j < m < k {
        assert(s.subrange(j + 1, k)[m - (j + 1)] == s[m]);
        assert(is_digit(s[m]));
    } else if k < m {
        assert(s.subrange(k + 1, s.len() as int)[m - (k + 1)] == s[m]);
        assert(is_digit(s[m]));
    }
}

/// A dotted quad splits at exactly one triple of separator positions.
proof fn lemma_shape_unique(s: Seq<char>, i: int, j: int, k: int, i2: int, j2: int, k2: int)
    requires
        ipv4_shape(s, i, j, k),
        ipv4_shape(s, i2, j2, k2),
    ensures
        i == i2 && j == j2 && k == k2,
{
    lemma_dot_is_one_of(s, i2, j2, k2, i);
    lemma_dot_is_one_of(s, i2, j2, k2, j);
    lemma_dot_is_one_of(s, i2, j2, k2, k);
    lemma_dot_is_one_of(s, i, j, k, i2);
    lemma_dot_is_one_of(s, i, j, k, j2);
    lemma_dot_is_one_of(s, i, j, k, k2);
}

/// Three separator positions pin the whole shape down.
proof fn lemma_dots_determine_shape(s: Seq<char>, d0: int, d1: int, d2: int)
    requires
        is_ipv4(s),
        0 <= d0 < d1 < d2 < s.len(),
        s[d0] == '.',
        s[d1] == '.',
        s[d2] == '.',
    ensures
        ipv4_shape(s, d0, d1, d2),
{
    let (i, j, k) = choose|i: int, j: int, k: int| ipv4_shape(s, i, j, k);
    lemma_dot_is_one_of(s, i, j, k, d0);
    lemma_dot_is_one_of(s, i, j, k, d1);
    lemma_dot_is_one_of(s, i, j, k, d2);
    assert(d0 == i && d1 == j && d2 == k);
}

proof fn lemma_dec1(s: Seq<char>)
    requires
        s.len() == 1,
    ensures
        dec_val(s) == digit_val(s[0]),
{
    assert(s.drop_last() =~= Seq::<char>::empty());
    assert(dec_val(s.drop_last()) == 0);
}

proof fn lemma_dec2(s: Seq<char>)
    requires
        s.len() == 2,
    ensures
        dec_val(s) == 10 * digit_val(s[0]) + digit_val(s[1]),
{
    lemma_dec1(s.drop_last());
    assert(s.drop_last()[0] == s[0]);
}

proof fn lemma_dec3(s: Seq<char>)
    requires
        s.len() == 3,
    ensures
        dec_val(s) == 100 * digit_val(s[0]) + 10 * digit_val(s[1]) + digit_val(s[2]),
{
    lemma_dec2(s.drop_last());
    assert(s.drop_last()[0] == s[0]);
    assert(s.drop_last()[1] == s[1]);
}

/// Whether `c` is a decimal digit.
fn digit_exec(c: char) -> (r: bool)
    ensures
        r == is_digit(c),
{
    let u = c as u32;
    48 <= u && u <= 57
}

/// The value of a decimal digit.
fn digit_value(c: char) -> (v: u32)
    requires
        is_digit(c),
    ensures
        v == digit_val(c),
        v <= 9,
{
    c as u32 - 48
}

/// Parses the characters of `s` between `start` and `end` as one octet.
fn parse_octet(s: &str, start: usize, end: usize) -> (r: Option<u32>)
    requires
        start <= end <= s@.len(),
    ensures
        r is Some <==> is_octet(s@.subrange(start as int, end as int)),
        r matches Some(v) ==> v == dec_val(s@.subrange(start as int, end as int)) && v <= 255,
{
    let ghost seg = s@.subrange(start as int, end as int);
    let len = end - start;
    if len < 1 || len > 3 {
        return None;
    }
    let c0 = s.get_char(start);
    proof {
        assert(seg[0] == s@[start as int]);
    }
    if !digit_exec(c0) {
        return None;
    }
    if len == 1 {
        proof {
            lemma_dec1(seg);
            assert(all_digits(seg));
        }
        Some(digit_value(c0))
    } else {
        if c0 == '0' {
            return None;
        }
        let c1 = s.get_char(start + 1);
        proof {
            assert(seg[1] == s@[start + 1]);
        }
        if !digit_exec(c1) {
            return None;
        }
        if len == 2 {
            proof {
                lemma_dec2(seg);
                assert(all_digits(seg));
            }
            Some(10 * digit_value(c0) + digit_value(c1))
        } else {
            let c2 = s.get_char(start + 2);
            proof {
                assert(seg[2] == s@[start + 2]);
            }
            if !digit_exec(c2) {
                return None;
            }
            let v = 100 * digit_value(c0) + 10 * digit_value(c1) + digit_value(c2);
            proof {
                lemma_dec3(seg);
                assert(all_digits(seg));
            }
            if v > 255 {
                return None;
            }
            Some(v)
        }
    }
}

/// Parses strict dotted-quad IPv4 text into its 32-bit big-endian value,
/// exactly when the text has that form.
pub fn parse_ipv4(s: &str) -> (r: Option<u32>)
    ensures
        r is Some <==> is_ipv4(s@),
        r matches Some(v) ==> v == ipv4_bits(s@),
{
    let n = s.unicode_len();
    let mut d0: usize = 0;
    let mut d1: usize = 0;
    let mut d2: usize = 0;
    let mut count: usize = 0;
    let mut idx: usize = 0;
    while idx < n
        invariant
            idx <= n,
            n == s@.len(),
            count <= 3,
            count >= 1 ==> d0 < idx && s@[d0 as int] == '.',
            count >= 2 ==> d0 < d1 && d1 < idx && s@[d1 as int] == '.',
            count >= 3 ==> d1 < d2 && d2 < idx && s@[d2 as int] == '.',
            forall|m: int|
                0 <= m < idx && s@[m] == '.' ==> ((count >= 1 && m == d0) || (count >= 2 && m == d1)
                    || (count >= 3 && m == d2)),
        decreases n - idx,
    {
        let c = s.get_char(idx);
        if c == '.' {
            if count == 3 {
                proof {
                    if is_ipv4(s@) {
                        let (i, j, k) = choose|i: int, j: int, k: int| ipv4_shape(s@, i, j, k);
                        lemma_dot_is_one_of(s@, i, j, k, d0 as int);
                        lemma_dot_is_one_of(s@, i, j, k, d1 as int);
                        lemma_dot_is_one_of(s@, i, j, k, d2 as int);
                        lemma_dot_is_one_of(s@, i, j, k, idx as int);
                    }
                }
                return None;
            }
            if count == 0 {
                d0 = idx;
            } else if count == 1 {
                d1 = idx;
            } else {
                d2 = idx;
            }
            count += 1;
        }
        idx += 1;
    }
    if count != 3 {
        proof {
            if is_ipv4(s@) {
                let (i, j, k) = choose|i: int, j: int, k: int| ipv4_shape(s@, i, j, k);
                assert(s@[i] == '.' && s@[j] == '.' && s@[k] == '.');
            }
        }
        return None;
    }
    let a = match parse_octet(s, 0, d0) {
        Some(v) => v,
        None => {
            proof {
                if is_ipv4(s@) {
                    lemma_dots_determine_shape(s@, d0 as int, d1 as int, d2 as int);
                }
            }
            return None;
        },
    };
    let b = match parse_octet(s, d0 + 1, d1) {
        Some(v) => v,
        None => {
            proof {
                if is_ipv4(s@) {
                    lemma_dots_determine_shape(s@, d0 as int, d1 as int, d2 as int);
                }
            }
            return None;
        },
    };
    let c = match parse_octet(s, d1 + 1, d2) {
        Some(v) => v,
        None => {
            proof {
                if is_ipv4(s@) {
                    lemma_dots_determine_shape(s@, d0 as int, d1 as int, d2 as int);
                }
            }
            return None;
        },
    };
    let d = match parse_octet(s, d2 + 1, n) {
        Some(v) => v,
        None => {
            proof {
                if is_ipv4(s@) {
                    lemma_dots_determine_shape(s@, d0 as int, d1 as int, d2 as int);
                }
            }
            return None;
        },
    };
    proof {
        assert(ipv4_shape(s@, d0 as int, d1 as int, d2 as int));
        let (i, j, k) = choose|i: int, j: int, k: int| ipv4_shape(s@, i, j, k);
        lemma_shape_unique(s@, i, j, k, d0 as int, d1 as int, d2 as int);
    }
    Some(a * 0x1000000 + b * 0x10000 + c * 0x100 + d)
}

} // verus!
