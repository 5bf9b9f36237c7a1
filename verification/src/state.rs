//! The agent's session state: the pairing passcode, the session token, the
//! registration key and the registry of cancellation handles.

use crate::clock::{now, Timestamp};
use crate::registry::{handles, handles_insert, handles_new, handles_remove, signal};
use crate::text::str_eq;
use dashmap::DashMap;
use tokio_util::sync::CancellationToken;
use vstd::prelude::*;

verus! {

/// Whether the credential in `slot` admits `candidate` at the instant `at`:
/// the slot is filled, holds exactly `candidate`, and `at` lies strictly
/// before its expiry.
pub open spec fn admits(
    slot: Option<(Seq<char>, Timestamp)>,
    candidate: Seq<char>,
    at: Timestamp,
) -> bool {
    match slot {
        Some((value, expiry)) => value == candidate && at.is_before(expiry),
        None => false,
    }
}

/// What a credential slot holds, its secret taken as a sequence of characters.
pub open spec fn slot_view(slot: Option<(String, Timestamp)>) -> Option<(Seq<char>, Timestamp)> {
    match slot {
        Some((value, expiry)) => Some((value@, expiry)),
        None => None,
    }
}

/// The session state as a value: each slot with what it holds, and the
/// registry as a map from request identifier to handle.
pub struct AppStateView {
    pub auth_token: Option<(Seq<char>, Timestamp)>,
    pub registration_key: Option<Seq<char>>,
    pub cancellation_tokens: Map<usize, CancellationToken>,
    pub current_otp: Option<(Seq<char>, Timestamp)>,
}

impl AppStateView {
    /// The state at start: no credential, no key, no handle.
    pub open spec fn empty() -> AppStateView {
        AppStateView {
            auth_token: None,
            registration_key: None,
            cancellation_tokens: Map::empty(),
            current_otp: None,
        }
    }

    pub open spec fn set_otp(self, otp: Seq<char>, expiry: Timestamp) -> AppStateView {
        AppStateView { current_otp: Some((otp, expiry)), ..self }
    }

    pub open spec fn validate_otp(self, otp: Seq<char>, at: Timestamp) -> bool {
        admits(self.current_otp, otp, at)
    }

    pub open spec fn set_auth_token(self, token: Seq<char>, expiry: Timestamp) -> AppStateView {
        AppStateView { auth_token: Some((token, expiry)), ..self }
    }

    pub open spec fn validate_auth_token(self, token: Seq<char>, at: Timestamp) -> bool {
        admits(self.auth_token, token, at)
    }

    pub open spec fn clear_auth_token(self) -> AppStateView {
        AppStateView { auth_token: None, ..self }
    }

    pub open spec fn set_registration_key(self, reg_key: Seq<char>) -> AppStateView {
        AppStateView { registration_key: Some(reg_key), ..self }
    }

    pub open spec fn validate_registration_key(self, reg_key: Seq<char>) -> bool {
        self.registration_key == Some(reg_key)
    }

    /// Whether a handle is registered under `req_id`.
    pub open spec fn is_registered(self, req_id: usize) -> bool {
        self.cancellation_tokens.contains_key(req_id)
    }

    /// The entry registered under `req_id`, if there is one.
    pub open spec fn registered(self, req_id: usize) -> Option<(usize, CancellationToken)> {
        if self.is_registered(req_id) {
            Some((req_id, self.cancellation_tokens[req_id]))
        } else {
            None
        }
    }

    pub open spec fn add_cancellation_token(
        self,
        req_id: usize,
        handle: CancellationToken,
    ) -> AppStateView {
        AppStateView {
            cancellation_tokens: self.cancellation_tokens.insert(req_id, handle),
            ..self
        }
    }

    pub open spec fn remove_cancellation_token(self, req_id: usize) -> AppStateView {
        AppStateView { cancellation_tokens: self.cancellation_tokens.remove(req_id), ..self }
    }

    /// How many handles are registered.
    pub open spec fn registered_count(self) -> nat {
        self.cancellation_tokens.dom().len()
    }

    /// The registry holds finitely many handles. This holds at start, and
    /// every operation keeps it.
    pub open spec fn wf(self) -> bool {
        self.cancellation_tokens.dom().finite()
    }

    /// The state after `handles[i]` was registered under `ids[i]`, for each
    /// `i` in turn.
    pub open spec fn add_all(self, ids: Seq<usize>, handles: Seq<CancellationToken>) -> AppStateView
        decreases ids.len(),
    {
        if ids.len() == 0 {
            self
        } else {
            self.add_all(ids.drop_last(), handles.drop_last()).add_cancellation_token(
                ids.last(),
                handles.last(),
            )
        }
    }

    /// The state after the handle of each of `ids` was removed in turn.
    pub open spec fn remove_all(self, ids: Seq<usize>) -> AppStateView
        decreases ids.len(),
    {
        if ids.len() == 0 {
            self
        } else {
            self.remove_all(ids.drop_last()).remove_cancellation_token(ids.last())
        }
    }
}

/// The session authority and the cancellation registry of one agent.
///
/// Each of the three secrets sits in a slot of its own that holds at most one
/// value: setting a slot discards what it held. The registry holds at most
/// one handle for each request identifier.
pub struct AppState {
    auth_token: Option<(String, Timestamp)>,
    registration_key: Option<String>,
    cancellation_tokens: DashMap<usize, CancellationToken>,
    current_otp: Option<(String, Timestamp)>,
}

impl View for AppState {
    type V = AppStateView;

    closed spec fn view(&self) -> AppStateView {
        AppStateView {
            auth_token: slot_view(self.auth_token),
            registration_key: match self.registration_key {
                Some(key) => Some(key@),
                None => None,
            },
            cancellation_tokens: handles(self.cancellation_tokens),
            current_otp: slot_view(self.current_otp),
        }
    }
}

/// Whether `slot` admits `candidate` at the instant `at`.
pub fn slot_admits(slot: &Option<(String, Timestamp)>, candidate: &str, at: Timestamp) -> (valid:
    bool)
    ensures
        valid == admits(slot_view(*slot), candidate@, at),
{
    match slot {
        Some((value, expiry)) => str_eq(value.as_str(), candidate) && at.before(expiry),
        None => false,
    }
}

impl AppState {
    /// The state at start, with every slot and the registry empty.
    pub fn new() -> (state: AppState)
        ensures
            state@ == AppStateView::empty(),
    {
        AppState {
            auth_token: None,
            registration_key: None,
            cancellation_tokens: handles_new(),
            current_otp: None,
        }
    }

    /// Takes the handle of `req_id` out of the registry and returns it with
    /// its identifier. Where none is registered the state stays as it is and
    /// the result is `None`.
    pub fn remove_cancellation_token(&mut self, req_id: usize) -> (removed: Option<
        (usize, CancellationToken),
    >)
        ensures
            final(self)@ == old(self)@.remove_cancellation_token(req_id),
            removed == old(self)@.registered(req_id),
    {
        handles_remove(&mut self.cancellation_tokens, req_id)
    }

    /// Registers `handle` under `req_id`, in place of the handle that was
    /// registered under it, if there was one.
    pub fn add_cancellation_token(&mut self, req_id: usize, handle: CancellationToken)
        ensures
            final(self)@ == old(self)@.add_cancellation_token(req_id, handle),
    {
        handles_insert(&mut self.cancellation_tokens, req_id, handle);
    }

    /// Takes the handle of `req_id` out of the registry and raises its
    /// signal. The result tells whether a handle was registered; where none
    /// was, nothing changes.
    pub fn cancel(&mut self, req_id: usize) -> (found: bool)
        ensures
            final(self)@ == old(self)@.remove_cancellation_token(req_id),
            found == old(self)@.is_registered(req_id),
    {
        match self.remove_cancellation_token(req_id) {
            Some((_, handle)) => {
                signal(&handle);
                true
            },
            None => false,
        }
    }

    /// Puts `otp` into the passcode slot, to be admitted before `expiry`.
    pub fn set_otp(&mut self, otp: String, expiry: Timestamp)
        ensures
            final(self)@ == old(self)@.set_otp(otp@, expiry),
    {
        self.current_otp = Some((otp, expiry));
    }

    /// Whether the passcode slot admits `otp` at the instant `at`.
    pub fn validate_otp_at(&self, otp: &str, at: Timestamp) -> (valid: bool)
        ensures
            valid == self@.validate_otp(otp@, at),
    {
        slot_admits(&self.current_otp, otp, at)
    }

    /// Whether the passcode slot admits `otp` at the instant that the system
    /// clock shows during the call. Whatever the clock shows, a candidate
    /// that the slot does not hold is refused.
    pub fn validate_otp(&self, otp: &str) -> (valid: bool)
        ensures
            exists|at: Timestamp| valid == #[trigger] self@.validate_otp(otp@, at),
    {
        let at = now();
        self.validate_otp_at(otp, at)
    }

    /// Puts `token` into the session slot, to be admitted before `expiry`,
    /// and returns what the slot now holds.
    pub fn set_auth_token(&mut self, token: String, expiry: Timestamp) -> (stored: Option<
        (String, Timestamp),
    >)
        ensures
            final(self)@ == old(self)@.set_auth_token(token@, expiry),
            slot_view(stored) == final(self)@.auth_token,
    {
        let copy = token.clone();
        self.auth_token = Some((token, expiry));
        Some((copy, expiry))
    }

    /// Whether the session slot admits `token` at the instant `at`.
    pub fn validate_auth_token_at(&self, token: &str, at: Timestamp) -> (valid: bool)
        ensures
            valid == self@.validate_auth_token(token@, at),
    {
        slot_admits(&self.auth_token, token, at)
    }

    /// Whether the session slot admits `token` at the instant that the system
    /// clock shows during the call. Whatever the clock shows, a candidate
    /// that the slot does not hold is refused.
    pub fn validate_auth_token(&self, token: &str) -> (valid: bool)
        ensures
            exists|at: Timestamp| valid == #[trigger] self@.validate_auth_token(token@, at),
    {
        let at = now();
        self.validate_auth_token_at(token, at)
    }

    /// Puts `reg_key` into the registration-key slot.
    pub fn set_registration_key(&mut self, reg_key: String)
        ensures
            final(self)@ == old(self)@.set_registration_key(reg_key@),
    {
        self.registration_key = Some(reg_key);
    }

    /// Whether `reg_key` is the registration key that the agent holds. Without
    /// a key no candidate is.
    pub fn validate_registration_key(&self, reg_key: String) -> (valid: bool)
        ensures
            valid == self@.validate_registration_key(reg_key@),
    {
        match &self.registration_key {
            Some(key) => str_eq(key.as_str(), reg_key.as_str()),
            None => false,
        }
    }

    /// Empties the session slot: the session is revoked.
    pub fn clear_auth_token(&mut self)
        ensures
            final(self)@ == old(self)@.clear_auth_token(),
    {
        self.auth_token = None;
    }
}

impl Default for AppState {
    fn default() -> (state: AppState)
        ensures
            state@ == AppStateView::empty(),
    {
        AppState::new()
    }
}

} // verus!
