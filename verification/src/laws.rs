//! What holds of the session state whatever its history: how the slots admit
//! and retire credentials, and how the registry keeps count of its handles.
//! Each law is stated over the view that the contracts of `AppState` use.

use crate::clock::{lemma_before_is_total, Timestamp};
use crate::state::AppStateView;
use tokio_util::sync::CancellationToken;
use vstd::prelude::*;

verus! {

/// Once a passcode is set, it is admitted at every instant before its expiry
/// and at none from its expiry on, and no other candidate is admitted at any
/// instant.
pub proof fn lemma_otp_admitted_until_expiry(
    s: AppStateView,
    otp: Seq<char>,
    expiry: Timestamp,
    candidate: Seq<char>,
    at: Timestamp,
)
    ensures
        at.is_before(expiry) ==> s.set_otp(otp, expiry).validate_otp(otp, at),
        at == expiry || expiry.is_before(at) ==> !s.set_otp(otp, expiry).validate_otp(otp, at),
        candidate != otp ==> !s.set_otp(otp, expiry).validate_otp(candidate, at),
        s.set_otp(otp, expiry).validate_otp(candidate, at) <==> candidate == otp && at.is_before(
            expiry,
        ),
{
    lemma_before_is_total(at, expiry);
}

/// A passcode that another one has replaced is admitted at no instant, be it
/// before its own expiry or not.
pub proof fn lemma_second_otp_retires_first(
    s: AppStateView,
    first: Seq<char>,
    first_expiry: Timestamp,
    second: Seq<char>,
    second_expiry: Timestamp,
    at: Timestamp,
)
    requires
        first != second,
    ensures
        !s.set_otp(first, first_expiry).set_otp(second, second_expiry).validate_otp(first, at),
{
}

/// Once a session token is set, it is admitted at every instant before its
/// expiry and at none from its expiry on, and no other candidate is admitted
/// at any instant.
pub proof fn lemma_auth_token_admitted_until_expiry(
    s: AppStateView,
    token: Seq<char>,
    expiry: Timestamp,
    candidate: Seq<char>,
    at: Timestamp,
)
    ensures
        at.is_before(expiry) ==> s.set_auth_token(token, expiry).validate_auth_token(token, at),
        at == expiry || expiry.is_before(at) ==> !s.set_auth_token(
            token,
            expiry,
        ).validate_auth_token(token, at),
        candidate != token ==> !s.set_auth_token(token, expiry).validate_auth_token(candidate, at),
        s.set_auth_token(token, expiry).validate_auth_token(candidate, at) <==> candidate == token
            && at.is_before(expiry),
{
    lemma_before_is_total(at, expiry);
}

/// A session token that another one has replaced is admitted at no instant,
/// be it before its own expiry or not.
pub proof fn lemma_second_auth_token_retires_first(
    s: AppStateView,
    first: Seq<char>,
    first_expiry: Timestamp,
    second: Seq<char>,
    second_expiry: Timestamp,
    at: Timestamp,
)
    requires
        first != second,
    ensures
        !s.set_auth_token(first, first_expiry).set_auth_token(
            second,
            second_expiry,
        ).validate_auth_token(first, at),
{
}

/// After the session is revoked no candidate is admitted at any instant, the
/// revoked token no more than another.
pub proof fn lemma_cleared_auth_token_admits_nothing(
    s: AppStateView,
    candidate: Seq<char>,
    at: Timestamp,
)
    ensures
        !s.clear_auth_token().validate_auth_token(candidate, at),
{
}

/// The passcode slot and the session slot do not touch each other: what one
/// admits is the same before and after the other is set or cleared.
pub proof fn lemma_slots_are_independent(
    s: AppStateView,
    value: Seq<char>,
    expiry: Timestamp,
    candidate: Seq<char>,
    at: Timestamp,
)
    ensures
        s.set_otp(value, expiry).validate_auth_token(candidate, at) == s.validate_auth_token(
            candidate,
            at,
        ),
        s.set_auth_token(value, expiry).validate_otp(candidate, at) == s.validate_otp(
            candidate,
            at,
        ),
        s.clear_auth_token().validate_otp(candidate, at) == s.validate_otp(candidate, at),
{
}

/// The registry and the slots do not touch each other: what is registered is
/// the same before and after a slot is set or cleared, and what a slot admits
/// is the same before and after a handle is registered or removed.
pub proof fn lemma_registry_and_slots_are_independent(
    s: AppStateView,
    value: Seq<char>,
    expiry: Timestamp,
    candidate: Seq<char>,
    at: Timestamp,
    req_id: usize,
    handle: CancellationToken,
)
    ensures
        s.set_otp(value, expiry).registered(req_id) == s.registered(req_id),
        s.set_auth_token(value, expiry).registered(req_id) == s.registered(req_id),
        s.clear_auth_token().registered(req_id) == s.registered(req_id),
        s.set_registration_key(value).registered(req_id) == s.registered(req_id),
        s.add_cancellation_token(req_id, handle).validate_otp(candidate, at) == s.validate_otp(
            candidate,
            at,
        ),
        s.add_cancellation_token(req_id, handle).validate_auth_token(candidate, at)
            == s.validate_auth_token(candidate, at),
        s.remove_cancellation_token(req_id).validate_otp(candidate, at) == s.validate_otp(
            candidate,
            at,
        ),
        s.remove_cancellation_token(req_id).validate_auth_token(candidate, at)
            == s.validate_auth_token(candidate, at),
{
}

/// Removing the handle of a request that has none finds nothing and leaves
/// the state as it was.
pub proof fn lemma_remove_unregistered_changes_nothing(s: AppStateView, req_id: usize)
    requires
        !s.is_registered(req_id),
    ensures
        s.registered(req_id) is None,
        s.remove_cancellation_token(req_id) == s,
{
    assert(s.cancellation_tokens.remove(req_id) =~= s.cancellation_tokens);
}

/// Once the handle of a request was removed, removing it again finds nothing
/// and changes nothing.
pub proof fn lemma_remove_twice(s: AppStateView, req_id: usize)
    ensures
        !s.remove_cancellation_token(req_id).is_registered(req_id),
        s.remove_cancellation_token(req_id).registered(req_id) is None,
        s.remove_cancellation_token(req_id).remove_cancellation_token(req_id)
            == s.remove_cancellation_token(req_id),
{
    lemma_remove_unregistered_changes_nothing(s.remove_cancellation_token(req_id), req_id);
}

/// A handle that was registered is what removing finds, whatever was
/// registered under the identifier before.
pub proof fn lemma_remove_finds_what_was_added(
    s: AppStateView,
    req_id: usize,
    handle: CancellationToken,
)
    ensures
        s.add_cancellation_token(req_id, handle).registered(req_id) == Some((req_id, handle)),
        s.add_cancellation_token(req_id, handle).remove_cancellation_token(req_id)
            == s.remove_cancellation_token(req_id),
{
    assert(s.cancellation_tokens.insert(req_id, handle).remove(req_id)
        =~= s.cancellation_tokens.remove(req_id));
}

/// Registering and removing under different identifiers may happen in either
/// order: the state that results is the same.
pub proof fn lemma_distinct_ids_commute(
    s: AppStateView,
    a: usize,
    handle_a: CancellationToken,
    b: usize,
    handle_b: CancellationToken,
)
    requires
        a != b,
    ensures
        s.add_cancellation_token(a, handle_a).add_cancellation_token(b, handle_b)
            == s.add_cancellation_token(b, handle_b).add_cancellation_token(a, handle_a),
        s.add_cancellation_token(a, handle_a).remove_cancellation_token(b)
            == s.remove_cancellation_token(b).add_cancellation_token(a, handle_a),
        s.remove_cancellation_token(a).remove_cancellation_token(b) == s.remove_cancellation_token(
            b,
        ).remove_cancellation_token(a),
{
    let m = s.cancellation_tokens;
    assert(m.insert(a, handle_a).insert(b, handle_b) =~= m.insert(b, handle_b).insert(
        a,
        handle_a,
    ));
    assert(m.insert(a, handle_a).remove(b) =~= m.remove(b).insert(a, handle_a));
    assert(m.remove(a).remove(b) =~= m.remove(b).remove(a));
}

/// At start the registry is empty: no identifier is registered and the count
/// is zero.
pub proof fn lemma_empty_registry()
    ensures
        AppStateView::empty().wf(),
        AppStateView::empty().registered_count() == 0,
        forall|req_id: usize| !(#[trigger] AppStateView::empty().is_registered(req_id)),
{
}

/// Registering adds one to the count of registered handles where the
/// identifier was free, and leaves the count where it was taken.
pub proof fn lemma_add_counts(s: AppStateView, req_id: usize, handle: CancellationToken)
    requires
        s.wf(),
    ensures
        s.add_cancellation_token(req_id, handle).wf(),
        s.add_cancellation_token(req_id, handle).registered_count() == s.registered_count() + (
        if s.is_registered(req_id) {
            0nat
        } else {
            1nat
        }),
{
}

/// Removing takes one from the count of registered handles where the
/// identifier was taken, and leaves the count where it was free.
pub proof fn lemma_remove_counts(s: AppStateView, req_id: usize)
    requires
        s.wf(),
    ensures
        s.remove_cancellation_token(req_id).wf(),
        s.remove_cancellation_token(req_id).registered_count() == s.registered_count() - (
        if s.is_registered(req_id) {
            1nat
        } else {
            0nat
        }),
{
}

/// An identifier occurs in a sequence where it is the last one or occurs
/// among those before the last.
proof fn lemma_contains_last_or_earlier(ids: Seq<usize>, id: usize)
    requires
        ids.len() > 0,
    ensures
        ids.contains(id) <==> id == ids.last() || ids.drop_last().contains(id),
{
    if ids.contains(id) && id != ids.last() {
        let i = choose|i: int| 0 <= i < ids.len() && ids[i] == id;
        assert(ids.drop_last()[i] == id);
    }
    if ids.drop_last().contains(id) {
        let i = choose|i: int| 0 <= i < ids.drop_last().len() && ids.drop_last()[i] == id;
        assert(ids[i] == id);
    }
    if id == ids.last() {
        assert(ids[ids.len() - 1] == id);
    }
}

/// After handles were registered under identifiers that differ from each
/// other and were free before, exactly these and those registered before are
/// registered, and the count has grown by their number.
pub proof fn lemma_add_all_counts(
    s: AppStateView,
    ids: Seq<usize>,
    handles: Seq<CancellationToken>,
)
    requires
        s.wf(),
        ids.len() == handles.len(),
        ids.no_duplicates(),
        forall|i: int| 0 <= i < ids.len() ==> !s.is_registered(#[trigger] ids[i]),
    ensures
        s.add_all(ids, handles).wf(),
        forall|id: usize| #[trigger]
            s.add_all(ids, handles).is_registered(id) <==> s.is_registered(id) || ids.contains(id),
        s.add_all(ids, handles).registered_count() == s.registered_count() + ids.len(),
    decreases ids.len(),
{
    if ids.len() > 0 {
        let before = s.add_all(ids.drop_last(), handles.drop_last());
        lemma_add_all_counts(s, ids.drop_last(), handles.drop_last());
        assert(!ids.drop_last().contains(ids.last()));
        assert(!before.is_registered(ids.last()));
        lemma_add_counts(before, ids.last(), handles.last());
        assert forall|id: usize| #[trigger]
            s.add_all(ids, handles).is_registered(id) <==> s.is_registered(id) || ids.contains(
                id,
            ) by {
            assert(s.add_all(ids, handles).is_registered(id) <==> before.is_registered(id) || id
                == ids.last());
            lemma_contains_last_or_earlier(ids, id);
        }
    }
}

/// After the handles of identifiers that differ from each other and were all
/// registered were removed, exactly the others are still registered, and the
/// count has shrunk by their number.
pub proof fn lemma_remove_all_counts(s: AppStateView, ids: Seq<usize>)
    requires
        s.wf(),
        ids.no_duplicates(),
        forall|i: int| 0 <= i < ids.len() ==> s.is_registered(#[trigger] ids[i]),
    ensures
        s.remove_all(ids).wf(),
        forall|id: usize| #[trigger]
            s.remove_all(ids).is_registered(id) <==> s.is_registered(id) && !ids.contains(id),
        s.remove_all(ids).registered_count() == s.registered_count() - ids.len(),
    decreases ids.len(),
{
    if ids.len() > 0 {
        let before = s.remove_all(ids.drop_last());
        lemma_remove_all_counts(s, ids.drop_last());
        assert(!ids.drop_last().contains(ids.last()));
        assert(before.is_registered(ids.last()));
        lemma_remove_counts(before, ids.last());
        assert forall|id: usize| #[trigger]
            s.remove_all(ids).is_registered(id) <==> s.is_registered(id) && !ids.contains(id) by {
            assert(s.remove_all(ids).is_registered(id) <==> before.is_registered(id) && id
                != ids.last());
            lemma_contains_last_or_earlier(ids, id);
        }
    }
}

/// Of the requests that were registered in an empty registry under
/// identifiers that differ from each other, those that were not removed since
/// are registered, and no others: the registry holds as many handles as
/// requests are still running.
pub proof fn lemma_registry_counts_running_requests(
    ids: Seq<usize>,
    handles: Seq<CancellationToken>,
    finished: Seq<usize>,
)
    requires
        ids.len() == handles.len(),
        ids.no_duplicates(),
        finished.no_duplicates(),
        forall|i: int| 0 <= i < finished.len() ==> ids.contains(#[trigger] finished[i]),
    ensures
        forall|id: usize| #[trigger]
            AppStateView::empty().add_all(ids, handles).remove_all(finished).is_registered(id)
                <==> ids.contains(id) && !finished.contains(id),
        AppStateView::empty().add_all(ids, handles).remove_all(finished).registered_count()
            == ids.len() - finished.len(),
{
    let start = AppStateView::empty();
    lemma_empty_registry();
    lemma_add_all_counts(start, ids, handles);
    let full = start.add_all(ids, handles);
    assert forall|i: int| 0 <= i < finished.len() implies full.is_registered(
        #[trigger] finished[i],
    ) by {
        assert(ids.contains(finished[i]));
    }
    lemma_remove_all_counts(full, finished);
}

} // verus!
