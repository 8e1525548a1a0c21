//! Resolution core for `<token>.docker` hostname queries.
//!
//! Given a queried name, an address family, and the container records that a
//! registry hands back, the functions here decide whether the query is in
//! scope, which container it names (directly or through subdomain
//! delegation), which network attachment is authoritative for the address,
//! and how the final host entry is shaped. All of it is plain computation on
//! plain values; the code that talks to the container engine lives outside
//! this crate and only feeds records in.

use vstd::prelude::*;

pub mod assemble;
pub mod classify;
pub mod ipv4;
pub mod locate;
pub mod model;
pub mod resolve;
pub mod select;
pub mod strutil;

verus! {

/// The fixed suffix that scopes a query to this resolver.
pub open spec fn suffix_spec() -> Seq<char> {
    seq!['.', 'd', 'o', 'c', 'k', 'e', 'r']
}

/// The suffix as a string slice, for stripping and for building names.
pub fn suffix() -> (r: &'static str)
    ensures
        r@ == suffix_spec(),
{
    let s = ".docker";
    proof {
        reveal_strlit(".docker");
        assert(s@ =~= suffix_spec());
    }
    s
}

/// The label key a parent container must set to opt in to subdomain
/// delegation.
pub open spec fn allow_label_spec() -> Seq<char> {
    "com.github.petski.nss-docker-ng.container-subdomains-allowed"@
}

/// The delegation opt-in label key as a string slice.
pub fn subdomains_allowed_label() -> (r: &'static str)
    ensures
        r@ == allow_label_spec(),
{
    "com.github.petski.nss-docker-ng.container-subdomains-allowed"
}

/// The default engine endpoint; transport code dials this address.
pub fn get_docker_uri() -> (r: String)
    ensures
        r@ == "unix:///var/run/docker.sock"@,
{
    String::from_str("unix:///var/run/docker.sock")
}

} // verus!
