//! A verified dotted-quad parser. A valid address is four decimal octets
//! separated by single dots: each octet is one to three digits, has no
//! leading zero unless it is exactly "0", and is at most 255.

use crate::model::Ipv4Address;
use vstd::prelude::*;

verus! {

/// True when `c` is a decimal digit.
pub open spec fn is_digit(c: char) -> bool {
    48 <= c as u32 <= 57
}

/// Numeric value of a digit character.
pub open spec fn digit_val(c: char) -> int {
    c as u32 - 48
}

/// True when every character of `s` is a decimal digit.
pub open spec fn all_digits(s: Seq<char>) -> bool {
    forall|i: int| 0 <= i < s.len() ==> is_digit(s[i])
}

/// The decimal value of a digit sequence.
pub open spec fn dec_val(s: Seq<char>) -> int
    decreases s.len(),
{
    if s.len() == 0 {
        0
    } else {
        dec_val(s.drop_last()) * 10 + digit_val(s.last())
    }
}

/// One octet of a dotted quad: one to three digits, no leading zero unless
/// the octet is exactly "0", value at most 255.
pub open spec fn is_octet(s: Seq<char>) -> bool {
    &&& 1 <= s.len() <= 3
    &&& all_digits(s)
    &&& (s.len() > 1 ==> s[0] != '0')
    &&& dec_val(s) <= 255
}

/// `i < j < k` are dot positions splitting `s` into four octets.
pub open spec fn ipv4_split_at(s: Seq<char>, i: int, j: int, k: int) -> bool {
    &&& 0 <= i < j < k < s.len()
    &&& s[i] == '.'
    &&& s[j] == '.'
    &&& s[k] == '.'
    &&& is_octet(s.subrange(0, i))
    &&& is_octet(s.subrange(i + 1, j))
    &&& is_octet(s.subrange(j + 1, k))
    &&& is_octet(s.subrange(k + 1, s.len() as int))
}

/// `s` is a well-formed dotted-quad address.
pub open spec fn valid_ipv4(s: Seq<char>) -> bool {
    exists|i: int, j: int, k: int| ipv4_split_at(s, i, j, k)
}

/// The dot positions of a valid dotted quad (unique, by `lemma_split_unique`).
pub open spec fn ipv4_dots(s: Seq<char>) -> (int, int, int) {
    choose|i: int, j: int, k: int| ipv4_split_at(s, i, j, k)
}

/// The address a valid dotted quad denotes.
pub open spec fn ipv4_value(s: Seq<char>) -> Ipv4Address {
    let (i, j, k) = ipv4_dots(s);
    Ipv4Address {
        a: dec_val(s.subrange(0, i)) as u8,
        b: dec_val(s.subrange(i + 1, j)) as u8,
        c: dec_val(s.subrange(j + 1, k)) as u8,
        d: dec_val(s.subrange(k + 1, s.len() as int)) as u8,
    }
}

/// Every dot of a split string is one of the three separator positions:
/// the four octet segments consist of digits only.
proof fn lemma_dot_is_separator(s: Seq<char>, i: int, j: int, k: int, d: int)
    requires
        ipv4_split_at(s, i, j, k),
        0 <= d < s.len(),
        s[d] == '.',
    ensures
        d == i || d == j || d == k,
{
    if d < i {
        assert(is_digit(s.subrange(0, i)[d]));
    } else if i < d < j {
        assert(is_digit(s.subrange(i + 1, j)[d - (i + 1)]));
    } else if j < d < k {
        assert(is_digit(s.subrange(j + 1, k)[d - (j + 1)]));
    } else if k < d {
        assert(is_digit(s.subrange(k + 1, s.len() as int)[d - (k + 1)]));
    }
}

/// A dotted quad splits at exactly one triple of positions.
pub proof fn lemma_split_unique(s: Seq<char>, i1: int, j1: int, k1: int, i2: int, j2: int, k2: int)
    requires
        ipv4_split_at(s, i1, j1, k1),
        ipv4_split_at(s, i2, j2, k2),
    ensures
        i1 == i2,
        j1 == j2,
        k1 == k2,
{
    lemma_dot_is_separator(s, i2, j2, k2, i1);
    lemma_dot_is_separator(s, i2, j2, k2, j1);
    lemma_dot_is_separator(s, i2, j2, k2, k1);
    lemma_dot_is_separator(s, i1, j1, k1, i2);
    lemma_dot_is_separator(s, i1, j1, k1, j2);
    lemma_dot_is_separator(s, i1, j1, k1, k2);
}

/// If the dots of `s` are exactly `d0 < d1 < d2`, any split uses them.
proof fn lemma_split_uses_the_dots(s: Seq<char>, i: int, j: int, k: int, d0: int, d1: int, d2: int)
    requires
        ipv4_split_at(s, i, j, k),
        0 <= d0 < d1 < d2 < s.len(),
        s[d0] == '.',
        s[d1] == '.',
        s[d2] == '.',
        forall|t: int| 0 <= t < s.len() && s[t] == '.' ==> t == d0 || t == d1 || t == d2,
    ensures
        i == d0,
        j == d1,
        k == d2,
{
    lemma_dot_is_separator(s, i, j, k, d0);
    lemma_dot_is_separator(s, i, j, k, d1);
    lemma_dot_is_separator(s, i, j, k, d2);
}

/// Parses one octet out of `s[from..to]`.
fn parse_octet(s: &str, from: usize, to: usize) -> (r: Option<u8>)
    requires
        from <= to <= s@.len(),
    ensures
        r is Some <==> is_octet(s@.subrange(from as int, to as int)),
        r matches Some(v) ==> v as int == dec_val(s@.subrange(from as int, to as int)),
{
    let ghost seg = s@.subrange(from as int, to as int);
    let len = to - from;
    if len < 1 || len > 3 {
        return None;
    }
    if len > 1 {
        let c0 = s.get_char(from);
        if c0 == '0' {
            proof {
                assert(seg[0] == s@[from as int]);
            }
            return None;
        }
        proof {
            assert(seg[0] == s@[from as int]);
        }
    }
    let mut acc: u32 = 0;
    let mut i: usize = from;
    proof {
        assert(s@.subrange(from as int, from as int) =~= Seq::<char>::empty());
    }
    while i < to
        invariant
            from <= i <= to <= s@.len(),
            seg == s@.subrange(from as int, to as int),
            to - from <= 3,
            acc == dec_val(s@.subrange(from as int, i as int)),
            i - from == 0 ==> acc == 0,
            i - from == 1 ==> acc <= 9,
            i - from == 2 ==> acc <= 99,
            i - from == 3 ==> acc <= 999,
            forall|m: int| from <= m < i ==> is_digit(s@[m]),
        decreases to - i,
    {
        let c = s.get_char(i);
        let cv = c as u32;
        if cv < 48 || cv > 57 {
            proof {
                assert(seg.len() == to - from);
                assert(seg[i - from] == s@[i as int]);
            }
            return None;
        }
        proof {
            assert(s@.subrange(from as int, i as int + 1).drop_last() =~= s@.subrange(
                from as int,
                i as int,
            ));
            assert(s@.subrange(from as int, i as int + 1).last() == s@[i as int]);
        }
        acc = acc * 10 + (cv - 48);
        i += 1;
    }
    if acc > 255 {
        return None;
    }
    proof {
        assert(forall|m: int| 0 <= m < seg.len() ==> seg[m] == s@[from + m]);
        assert(is_octet(seg));
    }
    Some(acc as u8)
}

/// Parses a dotted-quad address; rejects everything `valid_ipv4` rejects.
pub fn parse_ipv4(s: &str) -> (r: Option<Ipv4Address>)
    ensures
        r is Some <==> valid_ipv4(s@),
        r matches Some(ip) ==> ip == ipv4_value(s@),
{
    let n = s.unicode_len();
    let mut n_dots: usize = 0;
    let mut d0: usize = 0;
    let mut d1: usize = 0;
    let mut d2: usize = 0;
    let mut idx: usize = 0;
    while idx < n
        invariant
            idx <= n,
            n == s@.len(),
            n_dots <= 3,
            n_dots == 0 ==> forall|t: int| 0 <= t < idx ==> s@[t] != '.',
            n_dots >= 1 ==> d0 < idx && s@[d0 as int] == '.',
            n_dots >= 2 ==> d0 < d1 < idx && s@[d1 as int] == '.',
            n_dots == 3 ==> d1 < d2 < idx && s@[d2 as int] == '.',
            n_dots == 1 ==> forall|t: int| 0 <= t < idx && s@[t] == '.' ==> t == d0,
            n_dots == 2 ==> forall|t: int| 0 <= t < idx && s@[t] == '.' ==> t == d0 || t == d1,
            n_dots == 3 ==> forall|t: int|
                0 <= t < idx && s@[t] == '.' ==> t == d0 || t == d1 || t == d2,
        decreases n - idx,
    {
        let c = s.get_char(idx);
        if c == '.' {
            if n_dots == 0 {
                d0 = idx;
            } else if n_dots == 1 {
                d1 = idx;
            } else if n_dots == 2 {
                d2 = idx;
            } else {
                proof {
                    if valid_ipv4(s@) {
                        let (i, j, k) = choose|i: int, j: int, k: int| ipv4_split_at(s@, i, j, k);
                        lemma_dot_is_separator(s@, i, j, k, d0 as int);
                        lemma_dot_is_separator(s@, i, j, k, d1 as int);
                        lemma_dot_is_separator(s@, i, j, k, d2 as int);
                        lemma_dot_is_separator(s@, i, j, k, idx as int);
                        assert(false);
                    }
                }
                return None;
            }
            n_dots += 1;
        }
        idx += 1;
    }
    if n_dots != 3 {
        proof {
            if valid_ipv4(s@) {
                let (i, j, k) = choose|i: int, j: int, k: int| ipv4_split_at(s@, i, j, k);
                assert(false);
            }
        }
        return None;
    }
    let o0 = parse_octet(s, 0, d0);
    let o1 = parse_octet(s, d0 + 1, d1);
    let o2 = parse_octet(s, d1 + 1, d2);
    let o3 = parse_octet(s, d2 + 1, n);
    match (o0, o1, o2, o3) {
        (Some(a), Some(b), Some(c), Some(d)) => {
            proof {
                assert(ipv4_split_at(s@, d0 as int, d1 as int, d2 as int));
                let (i, j, k) = ipv4_dots(s@);
                assert(ipv4_split_at(s@, i, j, k));
                lemma_split_unique(s@, i, j, k, d0 as int, d1 as int, d2 as int);
            }
            Some(Ipv4Address { a, b, c, d })
        },
        _ => {
            proof {
                if valid_ipv4(s@) {
                    let (i, j, k) = choose|i: int, j: int, k: int| ipv4_split_at(s@, i, j, k);
                    lemma_split_uses_the_dots(s@, i, j, k, d0 as int, d1 as int, d2 as int);
                    assert(false);
                }
            }
            None
        },
    }
}

} // verus!
