//! The concurrent map that holds the cancellation handles, and the handles
//! themselves. Both come from outside crates; what is stated of them here is
//! taken on trust.

use dashmap::DashMap;
use tokio_util::sync::CancellationToken;
use vstd::prelude::*;

verus! {

/// `tokio_util::sync::CancellationToken`, a handle on a cancellation signal.
/// It is carried through without looking inside.
#[verifier::external_type_specification]
#[verifier::external_body]
pub struct ExCancellationToken(tokio_util::sync::CancellationToken);

/// `dashmap::DashMap`, the sharded concurrent hash map.
#[verifier::external_type_specification]
#[verifier::external_body]
#[verifier::reject_recursive_types(K)]
#[verifier::reject_recursive_types(V)]
#[verifier::reject_recursive_types(S)]
pub struct ExDashMap<K, V, S>(dashmap::DashMap<K, V, S>);

/// The entries that a handle map holds: each registered request identifier
/// with its handle.
pub uninterp spec fn handles(map: DashMap<usize, CancellationToken>) -> Map<usize, CancellationToken>;

/// `DashMap::new`: a map without entries.
#[verifier::external_body]
pub(crate) fn handles_new() -> (fresh: DashMap<usize, CancellationToken>)
    ensures
        handles(fresh) == (Map::<usize, CancellationToken>::empty()),
{
    DashMap::new()
}

/// `DashMap::insert`: afterwards `req_id` is bound to `handle` and every
/// other entry is as before. The handle that `req_id` was bound to before, if
/// there was one, is dropped. The exclusive borrow rules out a reference into
/// the map, with which the call could block.
#[verifier::external_body]
pub(crate) fn handles_insert(
    map: &mut DashMap<usize, CancellationToken>,
    req_id: usize,
    handle: CancellationToken,
)
    ensures
        handles(*final(map)) == handles(*old(map)).insert(req_id, handle),
{
    map.insert(req_id, handle);
}

/// `DashMap::remove`: afterwards `req_id` has no entry and every other entry
/// is as before. The result is the removed entry, if there was one. The
/// exclusive borrow rules out a reference into the map, with which the call
/// could block.
#[verifier::external_body]
pub(crate) fn handles_remove(map: &mut DashMap<usize, CancellationToken>, req_id: usize) -> (removed:
    Option<(usize, CancellationToken)>)
    ensures
        handles(*final(map)) == handles(*old(map)).remove(req_id),
        removed == (if handles(*old(map)).contains_key(req_id) {
            Some((req_id, handles(*old(map))[req_id]))
        } else {
            None
        }),
{
    map.remove(&req_id)
}

/// `CancellationToken::cancel`: raises the signal for every holder of the
/// handle. The signal lives behind the handle, where no contract reaches it.
#[verifier::external_body]
pub(crate) fn signal(handle: &CancellationToken) {
    handle.cancel()
}

} // verus!
