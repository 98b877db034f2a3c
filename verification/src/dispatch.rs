//! Resolving a clicked action against a freshly fetched snapshot. The menu a
//! click came from may be stale: the resource behind an identifier may have
//! disappeared. Resolution therefore answers from the fresh snapshot alone
//! and reports absence instead of failing.

use vstd::prelude::*;
use crate::model::{check_snapshot_wf, snapshot_wf, Network, NetworkView};
use crate::strings::str_eq;

verus! {

/// Why a snapshot could not be fetched.
#[derive(Clone, Copy, Debug, PartialEq, Eq)]
pub enum ProviderError {
    /// The client binary could not be invoked.
    Unavailable,
    /// The client's output did not parse into the snapshot shape.
    MalformedOutput,
    /// The client reported failure.
    NonZeroExit,
}

/// The parse step's final shape check: a decoded snapshot outside the data
/// model (a negative expiry stamp) is rejected as malformed output, exactly
/// as output that did not decode at all.
pub fn validate_snapshot(n: Network) -> (r: Result<Network, ProviderError>)
    ensures
        match r {
            Ok(m) => m == n && snapshot_wf(n@),
            Err(e) => e == ProviderError::MalformedOutput && !snapshot_wf(n@),
        },
{
    if check_snapshot_wf(&n) {
        Ok(n)
    } else {
        Err(ProviderError::MalformedOutput)
    }
}

/// The snapshot holds a resource with this id.
pub open spec fn has_resource(n: NetworkView, rid: Seq<char>) -> bool {
    exists|i: int| 0 <= i < n.resources.len() && (#[trigger] n.resources[i]).id == rid
}

/// `i` is the position of the first resource with this id.
pub open spec fn is_first_with_id(n: NetworkView, rid: Seq<char>, i: int) -> bool {
    &&& 0 <= i < n.resources.len()
    &&& n.resources[i].id == rid
    &&& forall|j: int| 0 <= j < i ==> (#[trigger] n.resources[j]).id != rid
}

/// Finds the first resource with the given id.
pub fn find_resource(n: &Network, rid: &str) -> (r: Option<usize>)
    ensures
        match r {
            Some(i) => is_first_with_id(n@, rid@, i as int),
            None => !has_resource(n@, rid@),
        },
{
    let mut i: usize = 0;
    while i < n.resources.len()
        invariant
            i <= n.resources.len(),
            n@.resources.len() == n.resources.len(),
            forall|j: int| 0 <= j < i ==> (#[trigger] n@.resources[j]).id != rid@,
        decreases n.resources.len() - i,
    {
        if str_eq(n.resources[i].id.as_str(), rid) {
            proof {
                assert(n@.resources[i as int].id == rid@);
            }
            return Some(i);
        }
        proof {
            assert(n@.resources[i as int].id != rid@);
        }
        i += 1;
    }
    None
}

/// Resolves a copy-address click: the address of the first resource with
/// this id, or nothing when the id is no longer present — in which case the
/// caller must not touch the clipboard.
pub fn resolve_copy_address(n: &Network, rid: &str) -> (r: Option<String>)
    ensures
        r is Some <==> has_resource(n@, rid@),
        match r {
            Some(addr) => exists|i: int|
                #[trigger] is_first_with_id(n@, rid@, i) && addr@ == n@.resources[i].address,
            None => !has_resource(n@, rid@),
        },
{
    match find_resource(n, rid) {
        Some(i) => {
            let addr = n.resources[i].address.clone();
            proof {
                assert(is_first_with_id(n@, rid@, i as int) && addr@ == n@.resources[
                    i as int
                ].address);
            }
            Some(addr)
        },
        None => None,
    }
}

/// Resolves an authenticate click: the name to hand to the client's auth
/// subcommand, or nothing when the id is no longer present — in which case
/// the caller must not spawn anything.
pub fn resolve_authenticate(n: &Network, rid: &str) -> (r: Option<String>)
    ensures
        r is Some <==> has_resource(n@, rid@),
        match r {
            Some(name) => exists|i: int|
                #[trigger] is_first_with_id(n@, rid@, i) && name@ == n@.resources[i].name,
            None => !has_resource(n@, rid@),
        },
{
    match find_resource(n, rid) {
        Some(i) => {
            let name = n.resources[i].name.clone();
            proof {
                assert(is_first_with_id(n@, rid@, i as int) && name@ == n@.resources[
                    i as int
                ].name);
            }
            Some(name)
        },
        None => None,
    }
}

/// The client's status line that asks for a start: the service reports
/// "not-running" and nothing else.
pub fn status_needs_start(status: &str) -> (r: bool)
    ensures
        r == (status@ == "not-running"@),
{
    str_eq(status, "not-running")
}

} // verus!
