use vstd::prelude::*;
use serde::de::DeserializeOwned;
use serde::Serialize;
use crate::session_state::SessionState;
use crate::storage::{get_value, insert_value, remove_value, StorageError};

verus! {

/// Where a session stands in its lifecycle.
#[derive(Debug, Clone, Copy, PartialEq, Eq, Structural)]
pub enum SessionStatus {
    /// Nothing was changed since the session was loaded.
    Clean,
    /// At least one insert or remove succeeded since the session was loaded.
    Changed,
    /// The session was ended; no further reads or writes are allowed.
    Destroyed,
}

/// A failure of a session operation.
#[derive(Debug, Clone, PartialEq, Eq)]
pub enum SessionError {
    /// The typed storage layer could not encode or decode a value.
    SessionStorageError(StorageError),
    /// The session was destroyed.
    SessionDestroyedError,
}

impl SessionError {
    /// A storage failure to encode a value for `key`.
    pub open spec fn is_insert_failure(self, key: Seq<char>) -> bool {
        match self {
            SessionError::SessionStorageError(se) => se is Insert && se.key_of() == key,
            SessionError::SessionDestroyedError => false,
        }
    }

    /// A storage failure to decode the value taken out under `key`.
    pub open spec fn is_remove_failure(self, key: Seq<char>) -> bool {
        match self {
            SessionError::SessionStorageError(se) => se is Remove && se.key_of() == key,
            SessionError::SessionDestroyedError => false,
        }
    }

    /// A storage failure to decode the value read under `key`.
    pub open spec fn is_get_failure(self, key: Seq<char>) -> bool {
        match self {
            SessionError::SessionStorageError(se) => se is Get && se.key_of() == key,
            SessionError::SessionDestroyedError => false,
        }
    }
}

/// One session: its key/value state and its lifecycle status.
pub struct Session {
    state: SessionState,
    status: SessionStatus,
}

impl Session {
    /// The key/value data the session holds.
    pub closed spec fn data(&self) -> Map<Seq<char>, Seq<char>> {
        self.state@
    }

    /// The lifecycle status of the session.
    pub closed spec fn spec_status(&self) -> SessionStatus {
        self.status
    }

    /// Whether the session may still be read and written.
    pub open spec fn spec_active(&self) -> bool {
        self.spec_status() != SessionStatus::Destroyed
    }

    /// A session freshly loaded from `state`.
    pub closed spec fn spec_from_state(state: SessionState) -> Session {
        Session { state, status: SessionStatus::Clean }
    }

    /// The state a session hands back for persistence.
    pub closed spec fn spec_into_state(self) -> SessionState {
        self.state
    }

    /// The session after it is ended: same data, status `Destroyed`.
    pub closed spec fn spec_destroyed(self) -> Session {
        Session { status: SessionStatus::Destroyed, ..self }
    }

    /// An empty, clean session.
    pub fn new() -> (r: Session)
        ensures
            r.data() == Map::<Seq<char>, Seq<char>>::empty(),
            r.spec_status() == SessionStatus::Clean,
    {
        Session { state: SessionState::new(), status: SessionStatus::Clean }
    }

    /// A session restored from `state`; it starts out clean, whatever the state holds.
    pub fn from_state(state: SessionState) -> (r: Session)
        ensures
            r == Session::spec_from_state(state),
            r.data() == state@,
            r.spec_status() == SessionStatus::Clean,
    {
        Session { state, status: SessionStatus::Clean }
    }

    /// The state of the session, ready to persist; the status is dropped.
    pub fn into_state(self) -> (r: SessionState)
        ensures
            r == self.spec_into_state(),
            r@ == self.data(),
    {
        self.state
    }

    /// The lifecycle status of the session.
    pub fn status(&self) -> (r: SessionStatus)
        ensures
            r == self.spec_status(),
    {
        self.status
    }

    /// Ends the session for good; the data is kept but can no longer be reached.
    pub fn destroy(&mut self)
        ensures
            *final(self) == old(self).spec_destroyed(),
            final(self).spec_status() == SessionStatus::Destroyed,
            final(self).data() == old(self).data(),
    {
        self.status = SessionStatus::Destroyed;
    }

    /// Whether the session has not been destroyed.
    pub fn active(&self) -> (r: bool)
        ensures
            r == self.spec_active(),
    {
        self.status != SessionStatus::Destroyed
    }

    /// Encodes `value` and stores it under `key`, replacing any earlier value, and
    /// marks the session changed. A destroyed session, or a value that cannot be
    /// encoded, leaves the session as it was.
    pub fn insert<T: Serialize>(&mut self, key: &str, value: &T) -> (r: Result<(), SessionError>)
        ensures
            !old(self).spec_active() ==> r matches Err(SessionError::SessionDestroyedError),
            old(self).spec_active() ==> match r {
                Ok(()) => final(self).spec_status() == SessionStatus::Changed && exists|
                    text: Seq<char>,
                | final(self).data() == old(self).data().insert(key@, text),
                Err(e) => e.is_insert_failure(key@),
            },
            r is Err ==> final(self).data() == old(self).data() && final(self).spec_status()
                == old(self).spec_status(),
    {
        let ghost before = self.data();
        if self.active() {
            match insert_value(&mut self.state, key, value) {
                Ok(()) => {
                    proof {
                        let text = choose|text: Seq<char>| self.state@ == before.insert(key@, text);
                        assert(self.data() == before.insert(key@, text));
                    }
                    self.status = SessionStatus::Changed;
                    Ok(())
                },
                Err(e) => Err(SessionError::SessionStorageError(e)),
            }
        } else {
            Err(SessionError::SessionDestroyedError)
        }
    }

    /// Takes the value stored under `key` out of the session and decodes it as `T`.
    /// The key is removed even when its value does not decode; the session is
    /// marked changed only when the call succeeds, also when nothing was stored.
    pub fn remove<T: DeserializeOwned>(&mut self, key: &str) -> (r: Result<Option<T>, SessionError>)
        ensures
            !old(self).spec_active() ==> (r matches Err(SessionError::SessionDestroyedError))
                && final(self).data() == old(self).data() && final(self).spec_status()
                == old(self).spec_status(),
            old(self).spec_active() ==> final(self).data() == old(self).data().remove(key@),
            old(self).spec_active() ==> match r {
                Ok(None) => !old(self).data().contains_key(key@) && final(self).spec_status()
                    == SessionStatus::Changed,
                Ok(Some(_)) => old(self).data().contains_key(key@) && final(self).spec_status()
                    == SessionStatus::Changed,
                Err(e) => old(self).data().contains_key(key@) && final(self).spec_status()
                    == old(self).spec_status() && e.is_remove_failure(key@),
            },
    {
        if self.active() {
            match remove_value::<T>(&mut self.state, key) {
                Ok(v) => {
                    self.status = SessionStatus::Changed;
                    Ok(v)
                },
                Err(e) => Err(SessionError::SessionStorageError(e)),
            }
        } else {
            Err(SessionError::SessionDestroyedError)
        }
    }

    /// Decodes the value stored under `key` as `T`, without changing the session.
    pub fn get<T: DeserializeOwned>(&self, key: &str) -> (r: Result<Option<T>, SessionError>)
        ensures
            !self.spec_active() ==> r matches Err(SessionError::SessionDestroyedError),
            self.spec_active() ==> match r {
                Ok(None) => !self.data().contains_key(key@),
                Ok(Some(_)) => self.data().contains_key(key@),
                Err(e) => self.data().contains_key(key@) && e.is_get_failure(key@),
            },
    {
        if self.active() {
            match get_value::<T>(&self.state, key) {
                Ok(v) => Ok(v),
                Err(e) => Err(SessionError::SessionStorageError(e)),
            }
        } else {
            Err(SessionError::SessionDestroyedError)
        }
    }
}

/// Turning a state into a session and back gives the same state, and a session
/// turned into its state and back holds the same data, whatever its status was;
/// a session made from a state starts out clean.
pub proof fn lemma_state_round_trip(state: SessionState, session: Session)
    ensures
        Session::spec_from_state(state).spec_into_state() == state,
        Session::spec_from_state(state).spec_status() == SessionStatus::Clean,
        Session::spec_from_state(state).data() == state@,
        Session::spec_from_state(session.spec_into_state()).data() == session.data(),
{
}

/// Destroying a session a second time changes nothing: the result equals that of
/// destroying it once, with status `Destroyed` and the data untouched.
pub proof fn lemma_destroy_idempotent(session: Session)
    ensures
        session.spec_destroyed().spec_destroyed() == session.spec_destroyed(),
        session.spec_destroyed().spec_status() == SessionStatus::Destroyed,
        session.spec_destroyed().data() == session.data(),
{
}

/// After an insert stored `text` under `key`, a read of `key` finds exactly that
/// text, and every other key keeps its value.
pub proof fn lemma_insert_then_get(before: Session, after: Session, key: Seq<char>, text: Seq<char>)
    requires
        after.data() == before.data().insert(key, text),
    ensures
        after.data().contains_key(key),
        after.data()[key] == text,
        forall|k: Seq<char>| k != key ==> (#[trigger] after.data().contains_key(k)
            == before.data().contains_key(k)),
        forall|k: Seq<char>| k != key && before.data().contains_key(k) ==> #[trigger] after.data()[k]
            == before.data()[k],
{
}

impl Default for Session {
    fn default() -> (r: Session)
        ensures
            r.data() == Map::<Seq<char>, Seq<char>>::empty(),
            r.spec_status() == SessionStatus::Clean,
    {
        Session::new()
    }
}

impl From<SessionState> for Session {
    fn from(state: SessionState) -> (r: Session) {
        Session::from_state(state)
    }
}

impl vstd::std_specs::convert::FromSpecImpl<SessionState> for Session {
    open spec fn obeys_from_spec() -> bool {
        true
    }

    open spec fn from_spec(state: SessionState) -> Session {
        Session::spec_from_state(state)
    }
}

impl From<Session> for SessionState {
    fn from(session: Session) -> (r: SessionState) {
        session.into_state()
    }
}

impl vstd::std_specs::convert::FromSpecImpl<Session> for SessionState {
    open spec fn obeys_from_spec() -> bool {
        true
    }

    open spec fn from_spec(session: Session) -> SessionState {
        session.spec_into_state()
    }
}

} // verus!
