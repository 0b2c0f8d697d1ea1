//! The session store: one entry per user identity.
//!
//! Two tables, keyed by the user identity, hold each user's handshake state
//! and cached preferences. The surrounding program guards the store with an
//! exclusion mechanism; every operation here is non-blocking, so a coarse
//! guard over both tables is sound. Where one operation touches both tables
//! the state table always comes before the preferences table, so that a
//! finer, per-table guard keeps a single consistent acquisition order.
//! Entries of different users are independent: work on one user's entry
//! never touches another's.
//!
//! Advancing a handshake awaits external calls, which must not happen while
//! a table is held. The store therefore works check-out / check-in style: an
//! entry is taken out, the external work happens, and the resulting state is
//! committed back. Messages of a single user are handled one at a time, so
//! an entry is never checked out twice at once.

use vstd::prelude::*;
use std::collections::HashMap;
use crate::auth::{AuthStages, AuthStagesView};
use crate::messages::Language;

verus! {

broadcast use vstd::std_specs::hash::group_hash_axioms;

/// Per-user preferences: the language tag the user's chat reported, cached
/// the first time it is seen.
#[derive(Debug)]
pub struct UserData {
    /// The cached language tag, absent until a message carries one.
    pub language_code: Option<String>,
}

/// Mathematical value of a [`UserData`].
pub struct UserDataView {
    pub language_code: Option<Seq<char>>,
}

impl View for UserData {
    type V = UserDataView;

    open spec fn view(&self) -> UserDataView {
        UserDataView { language_code: self.language_code.deep_view() }
    }
}

/// The language the command path resolves a cached tag to: "ru" stays
/// Russian, anything else — another tag or none at all — falls to English.
pub open spec fn spec_command_language(code: Option<Seq<char>>) -> Language {
    match code {
        Some(tag) => if tag == "ru"@ {
            Language::Ru
        } else {
            Language::En
        },
        None => Language::En,
    }
}

/// The language the plain-message path resolves a cached tag to; unlike the
/// command path it falls back to Russian when no tag was ever cached.
pub open spec fn spec_message_language(code: Option<Seq<char>>) -> Language {
    match code {
        Some(tag) => if tag == "ru"@ {
            Language::Ru
        } else {
            Language::En
        },
        None => Language::Ru,
    }
}

impl UserData {
    /// Fresh preferences with nothing cached yet.
    pub fn new() -> (data: UserData)
        ensures
            data@.language_code is None,
    {
        UserData { language_code: None }
    }

    /// Resolves the user's language on the command path: caches the incoming
    /// tag if none was cached before, then maps the cached tag to a language.
    pub fn resolve_language(&mut self, incoming: Option<String>) -> (language: Language)
        ensures
            final(self)@.language_code == if old(self)@.language_code is Some {
                old(self)@.language_code
            } else {
                incoming.deep_view()
            },
            language == spec_command_language(final(self)@.language_code),
    {
        if self.language_code.is_none() {
            self.language_code = incoming;
        }
        let russian = String::from_str("ru");
        match &self.language_code {
            Some(tag) => if *tag == russian {
                Language::Ru
            } else {
                Language::En
            },
            None => Language::En,
        }
    }
}

/// The single source of mutable shared state: the handshake table and the
/// preferences table, both keyed by user identity.
pub struct AppState {
    /// Each user's handshake state. Acquired first when both tables are
    /// needed.
    pub user_state: HashMap<u64, AuthStages>,
    /// Each user's cached preferences. Acquired second.
    pub user_data: HashMap<u64, UserData>,
}

impl AppState {
    /// An empty store; a fresh process knows no users.
    pub fn new() -> (state: AppState)
        ensures
            state.user_state@ == Map::<u64, AuthStages>::empty(),
            state.user_data@ == Map::<u64, UserData>::empty(),
    {
        AppState { user_state: HashMap::new(), user_data: HashMap::new() }
    }

    /// Makes sure the user has an entry in both tables, inserting defaults
    /// where none exists. Creation is idempotent: an existing entry is left
    /// exactly as it was. The state table is touched before the preferences
    /// table, in the store's fixed acquisition order.
    pub fn ensure_user(&mut self, user_id: u64)
        ensures
            final(self).user_state@.dom() == old(self).user_state@.dom().insert(user_id),
            final(self).user_data@.dom() == old(self).user_data@.dom().insert(user_id),
            old(self).user_state@.contains_key(user_id) ==> final(self).user_state@ == old(
                self,
            ).user_state@,
            old(self).user_data@.contains_key(user_id) ==> final(self).user_data@ == old(
                self,
            ).user_data@,
            !old(self).user_state@.contains_key(user_id) ==> final(self).user_state@ == old(
                self,
            ).user_state@.insert(user_id, final(self).user_state@[user_id])
                && final(self).user_state@[user_id]@ == AuthStagesView::initial(),
            !old(self).user_data@.contains_key(user_id) ==> final(self).user_data@ == old(
                self,
            ).user_data@.insert(user_id, final(self).user_data@[user_id])
                && final(self).user_data@[user_id]@.language_code is None,
    {
        if !self.user_state.contains_key(&user_id) {
            self.user_state.insert(user_id, AuthStages::new());
        }
        if !self.user_data.contains_key(&user_id) {
            self.user_data.insert(user_id, UserData::new());
        }
        proof {
            assert(final(self).user_state@.dom() =~= old(self).user_state@.dom().insert(user_id));
            assert(final(self).user_data@.dom() =~= old(self).user_data@.dom().insert(user_id));
        }
    }

    /// Checks the user's handshake state out of the state table, so the
    /// external work it calls for can happen with no table held.
    pub fn take_state(&mut self, user_id: u64) -> (state: AuthStages)
        requires
            old(self).user_state@.contains_key(user_id),
        ensures
            state == old(self).user_state@[user_id],
            final(self).user_state@ == old(self).user_state@.remove(user_id),
            final(self).user_data@ == old(self).user_data@,
    {
        match self.user_state.remove(&user_id) {
            Some(state) => state,
            None => AuthStages::new(),
        }
    }

    /// Commits a handshake state back into the state table.
    pub fn put_state(&mut self, user_id: u64, state: AuthStages)
        ensures
            final(self).user_state@ == old(self).user_state@.insert(user_id, state),
            final(self).user_data@ == old(self).user_data@,
    {
        self.user_state.insert(user_id, state);
    }

    /// Checks the user's preferences out of the preferences table.
    pub fn take_data(&mut self, user_id: u64) -> (data: UserData)
        requires
            old(self).user_data@.contains_key(user_id),
        ensures
            data == old(self).user_data@[user_id],
            final(self).user_data@ == old(self).user_data@.remove(user_id),
            final(self).user_state@ == old(self).user_state@,
    {
        match self.user_data.remove(&user_id) {
            Some(data) => data,
            None => UserData::new(),
        }
    }

    /// Commits preferences back into the preferences table.
    pub fn put_data(&mut self, user_id: u64, data: UserData)
        ensures
            final(self).user_data@ == old(self).user_data@.insert(user_id, data),
            final(self).user_state@ == old(self).user_state@,
    {
        self.user_data.insert(user_id, data);
    }

    /// Whether a plain text message from this user must be routed to the
    /// handshake controller: true exactly when the user has an entry whose
    /// phase is one of the "awaiting" steps.
    pub fn handshake_active(&self, user_id: u64) -> (active: bool)
        ensures
            active == (self.user_state@.contains_key(user_id)
                && (self.user_state@[user_id]@.phase is AwaitingPhoneNumber
                || self.user_state@[user_id]@.phase is AwaitingCode
                || self.user_state@[user_id]@.phase is AwaitingSecondFactor)),
    {
        match self.user_state.get(&user_id) {
            Some(state) => state.in_handshake(),
            None => false,
        }
    }

    /// The language the plain-message path uses for this user.
    pub fn message_language(&self, user_id: u64) -> (language: Language)
        ensures
            language == spec_message_language(
                if self.user_data@.contains_key(user_id) {
                    self.user_data@[user_id]@.language_code
                } else {
                    None
                },
            ),
    {
        let russian = String::from_str("ru");
        match self.user_data.get(&user_id) {
            Some(data) => match &data.language_code {
                Some(tag) => if *tag == russian {
                    Language::Ru
                } else {
                    Language::En
                },
                None => Language::Ru,
            },
            None => Language::Ru,
        }
    }
}

/// Entries of different users are independent: checking one user's state out
/// and committing a new state back leaves every other user's entry exactly
/// as it was. Together with per-user serialization this is why two users'
/// messages never contend over state: each handler works on its own entry
/// while external calls run with no table held.
pub proof fn lemma_update_preserves_other_users(
    table: Map<u64, AuthStages>,
    updated_user: u64,
    other_user: u64,
    new_state: AuthStages,
)
    requires
        updated_user != other_user,
    ensures
        table.remove(updated_user).insert(updated_user, new_state).contains_key(other_user)
            == table.contains_key(other_user),
        table.contains_key(other_user) ==> table.remove(updated_user).insert(
            updated_user,
            new_state,
        )[other_user] == table[other_user],
{
}

} // verus!
