//! Plain-value data model: the query's address family, the container record
//! a registry hands back, and the shapes a resolution produces.

use vstd::prelude::*;

verus! {

/// Address family requested by a caller. Only IPv4 queries are serviceable.
#[derive(Clone, Copy, PartialEq, Eq, Structural, Debug)]
pub enum AddressFamily {
    IPv4,
    IPv6,
    Unspecified,
}

/// A parsed dotted-quad address, one octet per field.
#[derive(Clone, Copy, PartialEq, Eq, Structural, Debug)]
pub struct Ipv4Address {
    pub a: u8,
    pub b: u8,
    pub c: u8,
    pub d: u8,
}

/// One entry of a container's network membership: at most one address,
/// kept in string form exactly as the engine reported it.
#[derive(Clone, PartialEq, Eq, Debug)]
pub struct NetworkAttachment {
    pub ip_address: Option<String>,
}

/// Snapshot of one container's identity, network mode, labels and network
/// attachments at query time. Every field an engine may omit is an `Option`;
/// the mappings are association lists keyed by name.
#[derive(Clone, PartialEq, Eq, Debug)]
pub struct ContainerRecord {
    pub id: Option<String>,
    pub name: Option<String>,
    pub network_mode: Option<String>,
    pub labels: Vec<(String, String)>,
    pub networks: Option<Vec<(String, NetworkAttachment)>>,
}

/// A successful resolution: canonical name, address list, alias list.
/// This resolver always returns exactly one address.
#[derive(Clone, PartialEq, Eq, Debug)]
pub struct ResolvedHost {
    pub name: String,
    pub addresses: Vec<Ipv4Address>,
    pub aliases: Vec<String>,
}

/// The closed set of integrity failures: the registry returned a record the
/// resolver cannot trust. Each cause is its own variant so callers and logs
/// can tell them apart; all of them surface to the host as "unavailable".
#[derive(Clone, PartialEq, Eq, Debug)]
pub enum ResolveError {
    MissingName,
    MissingNetworkMode,
    NetworksAbsent,
    NetworksEmpty,
    NetworkNotFound(String),
    MissingIpAddress,
    EmptyIpAddress,
    UnparseableIpAddress(String),
    MissingId,
    IdTooShort,
}

/// The host-facing response vocabulary of a name-service backend.
#[derive(Clone, PartialEq, Eq, Debug)]
pub enum HostResponse {
    Success(ResolvedHost),
    NotFound,
    Unavail,
}

} // verus!
