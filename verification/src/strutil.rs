//! Verified character-level string helpers: equality, prefix and suffix
//! tests, and locating the last dot of a name.

use vstd::prelude::*;

verus! {

/// Index of the last '.' in `s`, or -1 when no dot occurs.
pub open spec fn last_dot(s: Seq<char>) -> int
    decreases s.len(),
{
    if s.len() == 0 {
        -1
    } else if s[s.len() - 1] == '.' {
        s.len() - 1
    } else {
        last_dot(s.drop_last())
    }
}

/// What `last_dot` returns: a dot position with no dot after it, or -1 on a
/// dot-free sequence.
pub proof fn lemma_last_dot(s: Seq<char>)
    ensures
        last_dot(s) == -1 ==> forall|i: int| 0 <= i < s.len() ==> s[i] != '.',
        last_dot(s) >= 0 ==> {
            &&& last_dot(s) < s.len()
            &&& s[last_dot(s)] == '.'
            &&& forall|i: int| last_dot(s) < i < s.len() ==> s[i] != '.'
        },
    decreases s.len(),
{
    if s.len() == 0 {
    } else if s[s.len() - 1] == '.' {
    } else {
        lemma_last_dot(s.drop_last());
        assert(forall|i: int| 0 <= i < s.len() - 1 ==> s.drop_last()[i] == s[i]);
    }
}

/// Character-by-character string equality.
pub fn str_eq(a: &str, b: &str) -> (r: bool)
    ensures
        r == (a@ == b@),
{
    let n = a.unicode_len();
    if n != b.unicode_len() {
        return false;
    }
    let mut i: usize = 0;
    while i < n
        invariant
            i <= n,
            n == a@.len(),
            n == b@.len(),
            forall|j: int| 0 <= j < i ==> a@[j] == b@[j],
        decreases n - i,
    {
        if a.get_char(i) != b.get_char(i) {
            return false;
        }
        i += 1;
    }
    proof {
        assert(a@ =~= b@);
    }
    true
}

/// Whether `s` begins with `prefix`.
pub fn str_starts_with(s: &str, prefix: &str) -> (r: bool)
    ensures
        r == (prefix@.len() <= s@.len() && s@.subrange(0, prefix@.len() as int) == prefix@),
{
    let pn = prefix.unicode_len();
    let sn = s.unicode_len();
    if pn > sn {
        return false;
    }
    let mut i: usize = 0;
    while i < pn
        invariant
            i <= pn,
            pn <= sn,
            pn == prefix@.len(),
            sn == s@.len(),
            forall|j: int| 0 <= j < i ==> s@[j] == prefix@[j],
        decreases pn - i,
    {
        if s.get_char(i) != prefix.get_char(i) {
            proof {
                assert(s@.subrange(0, pn as int)[i as int] == s@[i as int]);
            }
            return false;
        }
        i += 1;
    }
    proof {
        assert(s@.subrange(0, pn as int) =~= prefix@);
    }
    true
}

/// Whether `s` ends with `sfx`.
pub fn str_ends_with(s: &str, sfx: &str) -> (r: bool)
    ensures
        r == (sfx@.len() <= s@.len() && s@.subrange(s@.len() - sfx@.len(), s@.len() as int)
            == sfx@),
{
    let xn = sfx.unicode_len();
    let sn = s.unicode_len();
    if xn > sn {
        return false;
    }
    let off = sn - xn;
    let mut i: usize = 0;
    while i < xn
        invariant
            i <= xn,
            off == sn - xn,
            xn == sfx@.len(),
            sn == s@.len(),
            forall|j: int| 0 <= j < i ==> s@[off + j] == sfx@[j],
        decreases xn - i,
    {
        if s.get_char(off + i) != sfx.get_char(i) {
            proof {
                assert(s@.subrange(off as int, sn as int)[i as int] == s@[off + i]);
            }
            return false;
        }
        i += 1;
    }
    proof {
        assert(s@.subrange(off as int, sn as int) =~= sfx@);
    }
    true
}

/// Position of the last '.' of `s`, when one exists.
pub fn find_last_dot(s: &str) -> (r: Option<usize>)
    ensures
        match r {
            Some(i) => i == last_dot(s@),
            None => last_dot(s@) == -1,
        },
{
    let n = s.unicode_len();
    proof {
        assert(s@.subrange(0, n as int) =~= s@);
    }
    let mut i: usize = n;
    while i > 0
        invariant
            i <= n,
            n == s@.len(),
            last_dot(s@) == last_dot(s@.subrange(0, i as int)),
        decreases i,
    {
        let c = s.get_char(i - 1);
        if c == '.' {
            proof {
                assert(s@.subrange(0, i as int)[i - 1] == s@[i - 1]);
            }
            return Some(i - 1);
        }
        proof {
            assert(s@.subrange(0, i as int)[i - 1] == s@[i - 1]);
            assert(s@.subrange(0, i as int).drop_last() =~= s@.subrange(0, i as int - 1));
        }
        i -= 1;
    }
    proof {
        assert(s@.subrange(0, 0) =~= Seq::<char>::empty());
    }
    None
}

} // verus!
