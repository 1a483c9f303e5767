use vstd::prelude::*;
use serde::de::DeserializeOwned;
use serde::Serialize;
use crate::session_state::SessionState;

verus! {

#[verifier::external_type_specification]
#[verifier::external_body]
pub struct ExJsonError(serde_json::Error);

/// A value could not be encoded for storage under the key (first field); the
/// second field is the encoder's message.
#[derive(Debug, Clone, PartialEq, Eq)]
pub enum StorageInsertError {
    SerializeError(String, String),
}

/// A value taken out under the key (first field) could not be decoded as the
/// requested type; the second field is the decoder's message.
#[derive(Debug, Clone, PartialEq, Eq)]
pub enum StorageRemoveError {
    DeserializeError(String, String),
}

/// A value read under the key (first field) could not be decoded as the
/// requested type; the second field is the decoder's message.
#[derive(Debug, Clone, PartialEq, Eq)]
pub enum StorageGetError {
    DeserializeError(String, String),
}

/// A failure of the typed storage layer, by the operation that met it.
#[derive(Debug, Clone, PartialEq, Eq)]
pub enum StorageError {
    Insert(StorageInsertError),
    Remove(StorageRemoveError),
    Get(StorageGetError),
}

impl StorageError {
    /// The key of the failed operation.
    pub open spec fn key_of(self) -> Seq<char> {
        match self {
            StorageError::Insert(StorageInsertError::SerializeError(k, _)) => k@,
            StorageError::Remove(StorageRemoveError::DeserializeError(k, _)) => k@,
            StorageError::Get(StorageGetError::DeserializeError(k, _)) => k@,
        }
    }

    /// The cause reported by the encoder or decoder.
    pub open spec fn cause_of(self) -> Seq<char> {
        match self {
            StorageError::Insert(StorageInsertError::SerializeError(_, c)) => c@,
            StorageError::Remove(StorageRemoveError::DeserializeError(_, c)) => c@,
            StorageError::Get(StorageGetError::DeserializeError(_, c)) => c@,
        }
    }
}

/// Relies on serde_json::to_string: the JSON text of a value, or the encoder's error.
#[verifier::external_body]
fn encode_json<T: Serialize>(value: &T) -> (r: Result<String, serde_json::Error>) {
    serde_json::to_string(value)
}

/// Relies on serde_json::from_str: a value of type `T` read from JSON text, or the
/// decoder's error.
#[verifier::external_body]
fn decode_json<T: DeserializeOwned>(text: &str) -> (r: Result<T, serde_json::Error>) {
    serde_json::from_str(text)
}

/// Relies on serde_json::Error's Display impl: the error's message.
#[verifier::external_body]
fn json_error_text(e: &serde_json::Error) -> (r: String) {
    e.to_string()
}

/// Stores the outcome of encoding a value under `key`: the text on success, and
/// on failure a serialize error that leaves the state as it was.
pub fn insert_encoded(state: &mut SessionState, key: &str, encoded: Result<String, String>) -> (r:
    Result<(), StorageError>)
    ensures
        match encoded {
            Ok(text) => r is Ok && final(state)@ == old(state)@.insert(key@, text@),
            Err(cause) => r matches Err(StorageError::Insert(_)) && r->Err_0.key_of() == key@
                && r->Err_0.cause_of() == cause@ && final(state)@ == old(state)@,
        },
{
    match encoded {
        Ok(text) => {
            state.insert(key, text);
            Ok(())
        },
        Err(cause) => Err(StorageError::Insert(StorageInsertError::SerializeError(key.to_owned(), cause))),
    }
}

/// Encodes `value` and stores its text under `key`, replacing any earlier value.
/// When the value cannot be encoded the state is left as it was.
pub fn insert_value<T: Serialize>(state: &mut SessionState, key: &str, value: &T) -> (r: Result<
    (),
    StorageError,
>)
    ensures
        match r {
            Ok(()) => exists|text: Seq<char>| final(state)@ == old(state)@.insert(key@, text),
            Err(e) => e is Insert && e.key_of() == key@ && final(state)@ == old(state)@,
        },
{
    let encoded = match encode_json(value) {
        Ok(text) => Ok(text),
        Err(e) => Err(json_error_text(&e)),
    };
    let ghost enc = encoded;
    let r = insert_encoded(state, key, encoded);
    proof {
        if let Ok(text) = enc {
            assert(state@ == old(state)@.insert(key@, text@));
        }
    }
    r
}

/// Takes the value stored under `key` out of the state and decodes it. The key is
/// removed whether or not its value decodes as `T`.
pub fn remove_value<T: DeserializeOwned>(state: &mut SessionState, key: &str) -> (r: Result<
    Option<T>,
    StorageError,
>)
    ensures
        final(state)@ == old(state)@.remove(key@),
        match r {
            Ok(None) => !old(state)@.contains_key(key@),
            Ok(Some(_)) => old(state)@.contains_key(key@),
            Err(e) => old(state)@.contains_key(key@) && e is Remove && e.key_of() == key@,
        },
{
    match state.remove(key) {
        None => Ok(None),
        Some(text) => match decode_json::<T>(text.as_str()) {
            Ok(v) => Ok(Some(v)),
            Err(e) => Err(
                StorageError::Remove(
                    StorageRemoveError::DeserializeError(key.to_owned(), json_error_text(&e)),
                ),
            ),
        },
    }
}

/// Decodes the value stored under `key` without changing the state.
pub fn get_value<T: DeserializeOwned>(state: &SessionState, key: &str) -> (r: Result<
    Option<T>,
    StorageError,
>)
    ensures
        match r {
            Ok(None) => !state@.contains_key(key@),
            Ok(Some(_)) => state@.contains_key(key@),
            Err(e) => state@.contains_key(key@) && e is Get && e.key_of() == key@,
        },
{
    match state.get(key) {
        None => Ok(None),
        Some(text) => match decode_json::<T>(text.as_str()) {
            Ok(v) => Ok(Some(v)),
            Err(e) => Err(
                StorageError::Get(StorageGetError::DeserializeError(key.to_owned(), json_error_text(&e))),
            ),
        },
    }
}

} // verus!
