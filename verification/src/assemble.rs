//! Result assembler: builds the canonical name, the alias list, and the
//! single-address list from a record's identity and the selected address.

use crate::model::ContainerRecord;
use crate::model::Ipv4Address;
use crate::model::ResolveError;
use crate::model::ResolvedHost;
use crate::strutil::str_eq;
use crate::suffix;
use crate::suffix_spec;
use vstd::prelude::*;

verus! {

/// The engine-assigned name with one leading '/' removed, if present.
pub open spec fn strip_slash(n: Seq<char>) -> Seq<char> {
    if n.len() > 0 && n[0] == '/' {
        n.subrange(1, n.len() as int)
    } else {
        n
    }
}

/// What the assembled host entry must hold for `record`, the requested
/// token, and the selected address: the canonical name is the bare name
/// plus the suffix, exactly one address is returned, the first alias is the
/// twelve-character short id plus the suffix, and — only when the bare name
/// differs from the requested token, i.e. delegation happened — the
/// caller's original query is kept as a second alias.
pub open spec fn host_matches(
    h: ResolvedHost,
    record: ContainerRecord,
    token: Seq<char>,
    ip: Ipv4Address,
) -> bool {
    let bare = strip_slash(record.name.unwrap()@);
    let short = record.id.unwrap()@.subrange(0, 12) + suffix_spec();
    &&& h.name@ == bare + suffix_spec()
    &&& h.addresses@.len() == 1
    &&& h.addresses@[0] == ip
    &&& h.aliases@.len() == (if bare == token {
        1int
    } else {
        2int
    })
    &&& h.aliases@[0]@ == short
    &&& (bare != token ==> h.aliases@[1]@ == token + suffix_spec())
}

/// Shapes the resolution result. A record without a name or an id is
/// malformed, as is an id shorter than the twelve characters the short-id
/// alias needs.
pub fn assemble(record: &ContainerRecord, token: &str, ip: Ipv4Address) -> (res: Result<
    ResolvedHost,
    ResolveError,
>)
    ensures
        record.name is None ==> res == Err::<ResolvedHost, ResolveError>(ResolveError::MissingName),
        record.name is Some && record.id is None ==> res == Err::<ResolvedHost, ResolveError>(
            ResolveError::MissingId,
        ),
        record.name is Some && (record.id matches Some(id) && id@.len() < 12) ==> res == Err::<
            ResolvedHost,
            ResolveError,
        >(ResolveError::IdTooShort),
        record.name is Some && (record.id matches Some(id) && id@.len() >= 12) ==> (res matches Ok(
            h,
        ) && host_matches(h, *record, token@, ip)),
{
    let name = match &record.name {
        None => {
            return Err(ResolveError::MissingName);
        },
        Some(n) => n,
    };
    let id = match &record.id {
        None => {
            return Err(ResolveError::MissingId);
        },
        Some(i) => i,
    };
    if id.as_str().unicode_len() < 12 {
        return Err(ResolveError::IdTooShort);
    }
    let nn = name.as_str().unicode_len();
    let bare: String = if nn > 0 && name.as_str().get_char(0) == '/' {
        String::from_str(name.as_str().substring_char(1, nn))
    } else {
        name.clone()
    };
    let is_direct = str_eq(bare.as_str(), token);
    let short_alias = String::from_str(id.as_str().substring_char(0, 12)).concat(suffix());
    let mut aliases: Vec<String> = Vec::new();
    aliases.push(short_alias);
    if !is_direct {
        aliases.push(String::from_str(token).concat(suffix()));
    }
    let mut addresses: Vec<Ipv4Address> = Vec::new();
    addresses.push(ip);
    Ok(ResolvedHost { name: bare.concat(suffix()), addresses, aliases })
}

} // verus!
