//! Container locator decisions. The registry round trips themselves happen
//! outside this crate; the functions here decide, from each round trip's
//! outcome, whether a record is authoritative, whether to try the token's
//! final label as a delegation parent, and whether that parent has opted in.

use crate::allow_label_spec;
use crate::model::ContainerRecord;
use crate::strutil::find_last_dot;
use crate::strutil::last_dot;
use crate::strutil::lemma_last_dot;
use crate::strutil::str_eq;
use crate::subdomains_allowed_label;
use vstd::prelude::*;

verus! {

/// First value bound to `key` in an association list of labels.
pub open spec fn label_lookup(m: Seq<(String, String)>, key: Seq<char>) -> Option<Seq<char>>
    decreases m.len(),
{
    if m.len() == 0 {
        None
    } else if m[0].0@ == key {
        Some(m[0].1@)
    } else {
        label_lookup(m.drop_first(), key)
    }
}

/// Finds `key` among a record's labels.
fn labels_get<'a>(labels: &'a Vec<(String, String)>, key: &str) -> (r: Option<&'a String>)
    ensures
        match r {
            Some(v) => label_lookup(labels@, key@) == Some(v@),
            None => label_lookup(labels@, key@) is None,
        },
{
    proof {
        assert(labels@.skip(0) =~= labels@);
    }
    let n = labels.len();
    let mut i: usize = 0;
    while i < n
        invariant
            i <= n,
            n == labels@.len(),
            label_lookup(labels@, key@) == label_lookup(labels@.skip(i as int), key@),
        decreases n - i,
    {
        proof {
            assert(labels@.skip(i as int)[0] == labels@[i as int]);
        }
        if str_eq(labels[i].0.as_str(), key) {
            return Some(&labels[i].1);
        }
        proof {
            assert(labels@.skip(i as int).drop_first() =~= labels@.skip(i as int + 1));
        }
        i += 1;
    }
    proof {
        assert(labels@.skip(n as int) =~= Seq::<(String, String)>::empty());
    }
    None
}

/// Delegation is opt-in: the well-known label must be present and its value
/// must equal "true", "True" or "1" case-sensitively.
pub open spec fn delegation_allowed(labels: Seq<(String, String)>) -> bool {
    match label_lookup(labels, allow_label_spec()) {
        Some(v) => v == "true"@ || v == "True"@ || v == "1"@,
        None => false,
    }
}

/// How to continue after the direct lookup of the stripped token.
#[derive(PartialEq, Eq, Debug)]
pub enum LocateStep {
    /// Resolution of the token is settled: a record, or "not found".
    Done(Option<ContainerRecord>),
    /// The direct lookup failed; look up this parent candidate next.
    TryParent(String),
}

/// Decides how to continue once the direct lookup of `token` has come back.
/// A found record is authoritative as it stands. On a failed lookup the
/// token's final dot-separated label becomes the parent candidate; a token
/// without a dot is simply not found.
pub fn locate_after_direct(token: &str, direct: Option<ContainerRecord>) -> (r: LocateStep)
    ensures
        direct matches Some(rec) ==> r == LocateStep::Done(Some(rec)),
        direct is None && last_dot(token@) < 0 ==> r == LocateStep::Done(None),
        direct is None && last_dot(token@) >= 0 ==> (r matches LocateStep::TryParent(p)
            && p@ == token@.subrange(last_dot(token@) + 1, token@.len() as int)),
{
    match direct {
        Some(rec) => LocateStep::Done(Some(rec)),
        None => {
            match find_last_dot(token) {
                Some(i) => {
                    proof {
                        lemma_last_dot(token@);
                    }
                    let n = token.unicode_len();
                    LocateStep::TryParent(String::from_str(token.substring_char(i + 1, n)))
                },
                None => LocateStep::Done(None),
            }
        },
    }
}

/// Decides delegation once the parent lookup has come back: the parent's
/// record is returned only when the parent exists and carries the opt-in
/// label; everything else is "not found".
pub fn locate_after_parent(parent: Option<ContainerRecord>) -> (r: Option<ContainerRecord>)
    ensures
        parent is None ==> r is None,
        parent matches Some(rec) ==> (if delegation_allowed(rec.labels@) {
            r == Some(rec)
        } else {
            r is None
        }),
{
    match parent {
        None => None,
        Some(rec) => {
            let allowed = match labels_get(&rec.labels, subdomains_allowed_label()) {
                Some(v) => str_eq(v.as_str(), "true") || str_eq(v.as_str(), "True") || str_eq(
                    v.as_str(),
                    "1",
                ),
                None => false,
            };
            if allowed {
                Some(rec)
            } else {
                None
            }
        },
    }
}

/// Delegation traverses only one level: the parent candidate proposed by
/// `locate_after_direct` is the token's final dot-separated label. It sits
/// flush against the end of the token and contains no dot of its own, no
/// matter how many labels precede it.
pub proof fn lemma_parent_candidate_is_final_label(token: Seq<char>)
    requires
        last_dot(token) >= 0,
    ensures
        ({
            let p = token.subrange(last_dot(token) + 1, token.len() as int);
            &&& forall|i: int| 0 <= i < p.len() ==> p[i] != '.'
            &&& p == token.subrange(token.len() - p.len(), token.len() as int)
        }),
{
    lemma_last_dot(token);
}

} // verus!
