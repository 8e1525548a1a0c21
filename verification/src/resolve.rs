//! The record-level pipeline: from a located container record to the host
//! entry (or the failure) the caller answers with, and the mapping of every
//! outcome onto the host's response vocabulary.

use crate::assemble::assemble;
use crate::assemble::host_matches;
use crate::assemble::strip_slash;
use crate::classify::in_scope;
use crate::classify::lemma_alias_restores_query;
use crate::classify::stripped;
use crate::model::AddressFamily;
use crate::model::ContainerRecord;
use crate::model::HostResponse;
use crate::model::ResolveError;
use crate::model::ResolvedHost;
use crate::select::select_network;
use crate::select::spec_select;
use crate::select::SelectOutcome;
use vstd::prelude::*;

verus! {

/// How a record-level result must reflect the record and the token: the
/// name gate first, then the selector's decision, then the assembly.
pub open spec fn resolve_result_ok(
    record: ContainerRecord,
    token: Seq<char>,
    res: Result<Option<ResolvedHost>, ResolveError>,
) -> bool {
    if record.name is None {
        res == Err::<Option<ResolvedHost>, ResolveError>(ResolveError::MissingName)
    } else {
        match spec_select(record) {
            SelectOutcome::NoMode => res == Err::<Option<ResolvedHost>, ResolveError>(
                ResolveError::MissingNetworkMode,
            ),
            SelectOutcome::ModeWithoutAddress => res == Ok::<Option<ResolvedHost>, ResolveError>(
                None,
            ),
            SelectOutcome::NetworksAbsent => res == Err::<Option<ResolvedHost>, ResolveError>(
                ResolveError::NetworksAbsent,
            ),
            SelectOutcome::NetworksEmpty => res == Err::<Option<ResolvedHost>, ResolveError>(
                ResolveError::NetworksEmpty,
            ),
            SelectOutcome::NetworkMissing(k) => res matches Err(ResolveError::NetworkNotFound(s))
                && s@ == k,
            SelectOutcome::AddressAbsent => res == Err::<Option<ResolvedHost>, ResolveError>(
                ResolveError::MissingIpAddress,
            ),
            SelectOutcome::AddressEmpty => res == Err::<Option<ResolvedHost>, ResolveError>(
                ResolveError::EmptyIpAddress,
            ),
            SelectOutcome::AddressUnparseable(raw) => res matches Err(
                ResolveError::UnparseableIpAddress(s),
            ) && s@ == raw,
            SelectOutcome::Address(ip) => match record.id {
                None => res == Err::<Option<ResolvedHost>, ResolveError>(ResolveError::MissingId),
                Some(id) => if id@.len() < 12 {
                    res == Err::<Option<ResolvedHost>, ResolveError>(ResolveError::IdTooShort)
                } else {
                    res matches Ok(Some(h)) && host_matches(h, record, token, ip)
                },
            },
        }
    }
}

/// Resolves a located record against the requested token: gates on the
/// name, selects the authoritative attachment, and assembles the host
/// entry. `Ok(None)` is "not found"; every `Err` is an integrity failure.
pub fn resolve_record(record: ContainerRecord, token: &str) -> (res: Result<
    Option<ResolvedHost>,
    ResolveError,
>)
    ensures
        resolve_result_ok(record, token@, res),
{
    if record.name.is_none() {
        return Err(ResolveError::MissingName);
    }
    match select_network(&record) {
        Err(e) => Err(e),
        Ok(None) => Ok(None),
        Ok(Some(ip)) => match assemble(&record, token, ip) {
            Err(e) => Err(e),
            Ok(h) => Ok(Some(h)),
        },
    }
}

/// Maps a resolution outcome to the host's response vocabulary: a found
/// host is a success, a missing one is "not found", and every integrity
/// error — whichever cause it carries — surfaces uniformly as
/// "unavailable", never as a crash and never in detail.
pub fn to_response(res: Result<Option<ResolvedHost>, ResolveError>) -> (r: HostResponse)
    ensures
        res matches Ok(Some(h)) ==> r == HostResponse::Success(h),
        res matches Ok(o) && o is None ==> r == HostResponse::NotFound,
        res is Err ==> r == HostResponse::Unavail,
{
    match res {
        Ok(Some(h)) => HostResponse::Success(h),
        Ok(None) => HostResponse::NotFound,
        Err(_) => HostResponse::Unavail,
    }
}

/// When an in-scope query resolves to a record whose bare name differs from
/// the stripped token — that is, when delegation answered the query — the
/// host entry carries exactly two aliases and the second one is the
/// caller's original query, spelling preserved.
pub proof fn lemma_delegated_alias_is_the_query(
    q: Seq<char>,
    family: AddressFamily,
    record: ContainerRecord,
    res: Result<Option<ResolvedHost>, ResolveError>,
)
    requires
        in_scope(q, family),
        resolve_result_ok(record, stripped(q), res),
    ensures
        (res matches Ok(Some(h)) && strip_slash(record.name.unwrap()@) != stripped(q)) ==> (res
            matches Ok(Some(h)) && h.aliases@.len() == 2 && h.aliases@[1]@ == q),
{
    lemma_alias_restores_query(q, family);
}

} // verus!
