use vstd::prelude::*;
use crate::session::{Session, SessionStatus};
use crate::session_state::SessionState;

verus! {

/// The identifier under which a session's state is kept in a backing store.
pub struct SessionKey {
    value: String,
}

impl View for SessionKey {
    type V = Seq<char>;

    closed spec fn view(&self) -> Seq<char> {
        self.value@
    }
}

impl SessionKey {
    /// A key with the given text.
    pub fn new(value: String) -> (r: SessionKey)
        ensures
            r@ == value@,
    {
        SessionKey { value }
    }

    /// The text of the key, as a backing store looks it up.
    pub fn as_str(&self) -> (r: &str)
        ensures
            r@ == self@,
    {
        self.value.as_str()
    }
}

impl Clone for SessionKey {
    fn clone(&self) -> (r: SessionKey)
        ensures
            r@ == self@,
    {
        SessionKey { value: self.value.clone() }
    }
}

impl PartialEq for SessionKey {
    fn eq(&self, other: &SessionKey) -> (r: bool) {
        self.value == other.value
    }
}

impl vstd::std_specs::cmp::PartialEqSpecImpl for SessionKey {
    open spec fn obeys_eq_spec() -> bool {
        true
    }

    open spec fn eq_spec(&self, other: &SessionKey) -> bool {
        self@ == other@
    }
}

/// A backend that keeps session states by key.
pub trait SessionStore {
    /// The backend's own failure.
    type Error;

    /// A fresh key that no stored session uses.
    fn generate_key(&mut self) -> SessionKey;

    /// The state stored under `key`, or `None` when no session is stored there.
    fn load(&self, key: &SessionKey) -> Result<Option<SessionState>, Self::Error>;

    /// Stores `state` under `key`, replacing whatever was there.
    fn save(&mut self, key: &SessionKey, state: &SessionState) -> Result<(), Self::Error>;

    /// Deletes the entry under `key`; a missing entry is no error.
    fn remove(&mut self, key: &SessionKey) -> Result<(), Self::Error>;
}

/// What to do with the backend once a request is done with a session.
#[derive(Debug, Clone, Copy, PartialEq, Eq, Structural)]
pub enum StoreAction {
    /// Delete the stored entry: the session was destroyed.
    Remove,
    /// Write the state back: it changed.
    Save,
    /// Leave the backend alone: nothing changed.
    Skip,
}

/// The action owed to the backend for a session with the given status.
pub open spec fn action_for(status: SessionStatus) -> StoreAction {
    match status {
        SessionStatus::Destroyed => StoreAction::Remove,
        SessionStatus::Changed => StoreAction::Save,
        SessionStatus::Clean => StoreAction::Skip,
    }
}

/// The action owed to the backend for `session`: remove a destroyed session,
/// save a changed one, and skip the write for a clean one.
pub fn store_action(session: &Session) -> (r: StoreAction)
    ensures
        r == action_for(session.spec_status()),
{
    if !session.active() {
        StoreAction::Remove
    } else {
        match session.status() {
            SessionStatus::Changed => StoreAction::Save,
            _ => StoreAction::Skip,
        }
    }
}

/// The session for what a backend returned on a load: the stored state, or an
/// empty one when nothing was stored. Either way the session starts out clean.
pub fn session_from_loaded(loaded: Option<SessionState>) -> (r: Session)
    ensures
        r.spec_status() == SessionStatus::Clean,
        match loaded {
            Some(state) => r.data() == state@,
            None => r.data() == Map::<Seq<char>, Seq<char>>::empty(),
        },
{
    match loaded {
        Some(state) => Session::from_state(state),
        None => Session::new(),
    }
}

/// Loads the session stored under `key`, or an empty one when none is stored.
/// Either way the session starts out clean.
pub fn load_session<S: SessionStore>(store: &S, key: &SessionKey) -> (r: Result<Session, S::Error>)
    ensures
        r matches Ok(s) ==> s.spec_status() == SessionStatus::Clean,
{
    match store.load(key) {
        Ok(loaded) => Ok(session_from_loaded(loaded)),
        Err(e) => Err(e),
    }
}

/// Hands `session` back to the backend under `key` as `store_action` decides,
/// and returns the action taken.
pub fn finish_session<S: SessionStore>(store: &mut S, key: &SessionKey, session: Session) -> (r:
    Result<StoreAction, S::Error>)
    ensures
        r matches Ok(a) ==> a == action_for(session.spec_status()),
{
    let action = store_action(&session);
    match action {
        StoreAction::Remove => match store.remove(key) {
            Ok(()) => Ok(action),
            Err(e) => Err(e),
        },
        StoreAction::Save => {
            let state = session.into_state();
            match store.save(key, &state) {
                Ok(()) => Ok(action),
                Err(e) => Err(e),
            }
        },
        StoreAction::Skip => Ok(action),
    }
}

} // verus!
