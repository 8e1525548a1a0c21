//! Query classifier: gates a query on the suffix and the address family and
//! strips the suffix off the accepted ones.

use crate::model::AddressFamily;
use crate::strutil::str_ends_with;
use crate::suffix;
use crate::suffix_spec;
use vstd::prelude::*;

verus! {

/// A query is in scope exactly when the family is IPv4, the name is strictly
/// longer than the suffix, and it ends with the suffix.
pub open spec fn in_scope(q: Seq<char>, family: AddressFamily) -> bool {
    &&& family is IPv4
    &&& q.len() > suffix_spec().len()
    &&& q.subrange(q.len() - suffix_spec().len(), q.len() as int) == suffix_spec()
}

/// The accepted query with the suffix removed; no further normalization.
pub open spec fn stripped(q: Seq<char>) -> Seq<char> {
    q.subrange(0, q.len() - suffix_spec().len())
}

/// Decides whether a query is ours to answer. Returns the stripped token on
/// acceptance and `None` on every out-of-scope query, which the caller maps
/// to "not found" without consulting the registry.
pub fn classify(query: &str, family: AddressFamily) -> (r: Option<String>)
    ensures
        r is Some <==> in_scope(query@, family),
        r matches Some(t) ==> t@ == stripped(query@),
{
    match family {
        AddressFamily::IPv4 => {},
        _ => {
            return None;
        },
    }
    let n = query.unicode_len();
    if n <= 7 {
        return None;
    }
    if !str_ends_with(query, suffix()) {
        return None;
    }
    let token = query.substring_char(0, n - 7);
    Some(String::from_str(token))
}

/// Canonical names round-trip: a nonempty bare name with the suffix
/// appended is itself in scope for an IPv4 query, and stripping it gives
/// the bare name back unchanged.
pub proof fn lemma_canonical_name_round_trip(bare: Seq<char>)
    requires
        bare.len() > 0,
    ensures
        in_scope(bare + suffix_spec(), AddressFamily::IPv4),
        stripped(bare + suffix_spec()) == bare,
{
    let q = bare + suffix_spec();
    assert(q.subrange(q.len() - suffix_spec().len(), q.len() as int) =~= suffix_spec());
    assert(q.subrange(0, q.len() - suffix_spec().len()) =~= bare);
}

/// For an in-scope query, re-appending the suffix to the stripped token
/// gives the original query back: the alias recorded on a delegated
/// resolution is the caller's exact spelling.
pub proof fn lemma_alias_restores_query(q: Seq<char>, family: AddressFamily)
    requires
        in_scope(q, family),
    ensures
        stripped(q) + suffix_spec() == q,
{
    assert(stripped(q) + suffix_spec() =~= q);
}

} // verus!
