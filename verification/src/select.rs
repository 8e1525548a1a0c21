//! Network selector: picks the authoritative network attachment of a record
//! under the network-mode semantics, and requires from it one well-formed
//! IPv4 address.

use crate::ipv4::ipv4_value;
use crate::ipv4::parse_ipv4;
use crate::ipv4::valid_ipv4;
use crate::model::ContainerRecord;
use crate::model::Ipv4Address;
use crate::model::NetworkAttachment;
use crate::model::ResolveError;
use crate::strutil::str_eq;
use crate::strutil::str_starts_with;
use vstd::prelude::*;

verus! {

/// Modes under which a container has no resolvable address of its own.
pub open spec fn no_address_mode(m: Seq<char>) -> bool {
    ||| m == "none"@
    ||| m == "host"@
    ||| ("container:"@.len() <= m.len() && m.subrange(0, "container:"@.len() as int)
        == "container:"@)
}

/// First attachment bound to `key` in a record's network mapping.
pub open spec fn net_lookup(m: Seq<(String, NetworkAttachment)>, key: Seq<char>) -> Option<
    NetworkAttachment,
>
    decreases m.len(),
{
    if m.len() == 0 {
        None
    } else if m[0].0@ == key {
        Some(m[0].1)
    } else {
        net_lookup(m.drop_first(), key)
    }
}

/// The network name to fetch: `network_mode` itself, except that mode
/// "default" with no entry literally named "default" falls back to "bridge".
pub open spec fn effective_key(m: Seq<char>, nets: Seq<(String, NetworkAttachment)>) -> Seq<
    char,
> {
    if m == "default"@ && net_lookup(nets, "default"@) is None {
        "bridge"@
    } else {
        m
    }
}

/// The selector's decision on a record, as a value: which failure it hits,
/// that the mode carries no address, or which address it selects.
pub enum SelectOutcome {
    NoMode,
    ModeWithoutAddress,
    NetworksAbsent,
    NetworksEmpty,
    NetworkMissing(Seq<char>),
    AddressAbsent,
    AddressEmpty,
    AddressUnparseable(Seq<char>),
    Address(Ipv4Address),
}

/// The selection decision, stated over the record alone.
pub open spec fn spec_select(r: ContainerRecord) -> SelectOutcome {
    match r.network_mode {
        None => SelectOutcome::NoMode,
        Some(m) => if no_address_mode(m@) {
            SelectOutcome::ModeWithoutAddress
        } else {
            match r.networks {
                None => SelectOutcome::NetworksAbsent,
                Some(nets) => if nets@.len() == 0 {
                    SelectOutcome::NetworksEmpty
                } else {
                    let key = effective_key(m@, nets@);
                    match net_lookup(nets@, key) {
                        None => SelectOutcome::NetworkMissing(key),
                        Some(att) => match att.ip_address {
                            None => SelectOutcome::AddressAbsent,
                            Some(ip) => if ip@.len() == 0 {
                                SelectOutcome::AddressEmpty
                            } else if !valid_ipv4(ip@) {
                                SelectOutcome::AddressUnparseable(ip@)
                            } else {
                                SelectOutcome::Address(ipv4_value(ip@))
                            },
                        },
                    }
                },
            }
        },
    }
}

/// How a selector result must reflect the decision `o`.
pub open spec fn select_result_ok(o: SelectOutcome, res: Result<
    Option<Ipv4Address>,
    ResolveError,
>) -> bool {
    match o {
        SelectOutcome::NoMode => res == Err::<Option<Ipv4Address>, ResolveError>(
            ResolveError::MissingNetworkMode,
        ),
        SelectOutcome::ModeWithoutAddress => res == Ok::<Option<Ipv4Address>, ResolveError>(None),
        SelectOutcome::NetworksAbsent => res == Err::<Option<Ipv4Address>, ResolveError>(
            ResolveError::NetworksAbsent,
        ),
        SelectOutcome::NetworksEmpty => res == Err::<Option<Ipv4Address>, ResolveError>(
            ResolveError::NetworksEmpty,
        ),
        SelectOutcome::NetworkMissing(k) => res matches Err(ResolveError::NetworkNotFound(s))
            && s@ == k,
        SelectOutcome::AddressAbsent => res == Err::<Option<Ipv4Address>, ResolveError>(
            ResolveError::MissingIpAddress,
        ),
        SelectOutcome::AddressEmpty => res == Err::<Option<Ipv4Address>, ResolveError>(
            ResolveError::EmptyIpAddress,
        ),
        SelectOutcome::AddressUnparseable(raw) => res matches Err(
            ResolveError::UnparseableIpAddress(s),
        ) && s@ == raw,
        SelectOutcome::Address(ip) => res == Ok::<Option<Ipv4Address>, ResolveError>(Some(ip)),
    }
}

/// Finds `key` in a record's network mapping.
fn networks_get<'a>(nets: &'a Vec<(String, NetworkAttachment)>, key: &str) -> (r: Option<
    &'a NetworkAttachment,
>)
    ensures
        match r {
            Some(a) => net_lookup(nets@, key@) == Some(*a),
            None => net_lookup(nets@, key@) is None,
        },
{
    proof {
        assert(nets@.skip(0) =~= nets@);
    }
    let n = nets.len();
    let mut i: usize = 0;
    while i < n
        invariant
            i <= n,
            n == nets@.len(),
            net_lookup(nets@, key@) == net_lookup(nets@.skip(i as int), key@),
        decreases n - i,
    {
        proof {
            assert(nets@.skip(i as int)[0] == nets@[i as int]);
        }
        if str_eq(nets[i].0.as_str(), key) {
            return Some(&nets[i].1);
        }
        proof {
            assert(nets@.skip(i as int).drop_first() =~= nets@.skip(i as int + 1));
        }
        i += 1;
    }
    proof {
        assert(nets@.skip(n as int) =~= Seq::<(String, NetworkAttachment)>::empty());
    }
    None
}

/// Picks the authoritative attachment and its address. `Ok(None)` means the
/// mode carries no address and the caller answers "not found"; every `Err`
/// is an integrity failure in the record.
pub fn select_network(record: &ContainerRecord) -> (res: Result<
    Option<Ipv4Address>,
    ResolveError,
>)
    ensures
        select_result_ok(spec_select(*record), res),
{
    let mode = match &record.network_mode {
        None => {
            return Err(ResolveError::MissingNetworkMode);
        },
        Some(m) => m,
    };
    if str_eq(mode.as_str(), "none") || str_eq(mode.as_str(), "host") || str_starts_with(
        mode.as_str(),
        "container:",
    ) {
        return Ok(None);
    }
    let nets = match &record.networks {
        None => {
            return Err(ResolveError::NetworksAbsent);
        },
        Some(nets) => nets,
    };
    if nets.len() == 0 {
        return Err(ResolveError::NetworksEmpty);
    }
    let key: &str = if str_eq(mode.as_str(), "default") && networks_get(
        nets,
        "default",
    ).is_none() {
        "bridge"
    } else {
        mode.as_str()
    };
    match networks_get(nets, key) {
        None => Err(ResolveError::NetworkNotFound(String::from_str(key))),
        Some(att) => match &att.ip_address {
            None => Err(ResolveError::MissingIpAddress),
            Some(ip_s) => {
                if ip_s.as_str().is_empty() {
                    return Err(ResolveError::EmptyIpAddress);
                }
                match parse_ipv4(ip_s.as_str()) {
                    None => Err(ResolveError::UnparseableIpAddress(ip_s.clone())),
                    Some(ip) => Ok(Some(ip)),
                }
            },
        },
    }
}

/// A network mode of "none", "host" or "container:..." always yields "no
/// address here" — never an error — whatever else the record holds.
pub proof fn lemma_mode_without_address(
    record: ContainerRecord,
    res: Result<Option<Ipv4Address>, ResolveError>,
)
    requires
        record.network_mode matches Some(m) && no_address_mode(m@),
        select_result_ok(spec_select(record), res),
    ensures
        res == Ok::<Option<Ipv4Address>, ResolveError>(None),
{
}

/// Mode "default" with no network literally named "default" substitutes the
/// key "bridge"; when "bridge" is absent as well, the outcome is the
/// "network not found" failure for "bridge".
pub proof fn lemma_default_substitutes_bridge(
    record: ContainerRecord,
    res: Result<Option<Ipv4Address>, ResolveError>,
)
    requires
        record.network_mode matches Some(m) && m@ == "default"@,
        record.networks matches Some(nets) && nets@.len() > 0 && net_lookup(nets@, "default"@)
            is None,
        select_result_ok(spec_select(record), res),
    ensures
        record.networks matches Some(nets) ==> effective_key("default"@, nets@) == "bridge"@,
        record.networks matches Some(nets) && net_lookup(nets@, "bridge"@) is None ==> (res
            matches Err(ResolveError::NetworkNotFound(s)) && s@ == "bridge"@),
{
    reveal_strlit("default");
    reveal_strlit("none");
    reveal_strlit("host");
    reveal_strlit("container:");
    assert("default"@.len() == 7);
    assert("none"@.len() == 4);
    assert(!no_address_mode("default"@));
}

/// A missing address field, an empty address string, and an unparseable
/// address are three distinct integrity failures — none of them is ever
/// folded into "not found".
pub proof fn lemma_address_failures_distinct(
    record: ContainerRecord,
    res: Result<Option<Ipv4Address>, ResolveError>,
)
    requires
        select_result_ok(spec_select(record), res),
    ensures
        spec_select(record) is AddressAbsent ==> res == Err::<Option<Ipv4Address>, ResolveError>(
            ResolveError::MissingIpAddress,
        ),
        spec_select(record) is AddressEmpty ==> res == Err::<Option<Ipv4Address>, ResolveError>(
            ResolveError::EmptyIpAddress,
        ),
        spec_select(record) matches SelectOutcome::AddressUnparseable(raw) ==> (res matches Err(
            ResolveError::UnparseableIpAddress(s),
        ) && s@ == raw),
{
}

/// An empty network mapping and a missing network key are distinct
/// integrity failures.
pub proof fn lemma_empty_networks_distinct_from_missing_key(
    record: ContainerRecord,
    res: Result<Option<Ipv4Address>, ResolveError>,
)
    requires
        select_result_ok(spec_select(record), res),
    ensures
        spec_select(record) is NetworksEmpty ==> res == Err::<Option<Ipv4Address>, ResolveError>(
            ResolveError::NetworksEmpty,
        ),
        spec_select(record) matches SelectOutcome::NetworkMissing(k) ==> (res matches Err(
            ResolveError::NetworkNotFound(s),
        ) && s@ == k),
{
}

} // verus!
