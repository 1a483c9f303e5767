use serde::de::{Deserializer, Error as DeError};
use serde::ser::{SerializeStruct, Serializer};
use serde::{Deserialize, Serialize};
use session_core::{
    Session, SessionError, SessionState, SessionStatus, StorageError, StorageGetError,
    StorageInsertError, StorageRemoveError,
};
use std::collections::{BTreeMap, HashMap};

#[derive(Debug, PartialEq, Eq)]
struct User {
    username: String,
    password: String,
}

impl Serialize for User {
    fn serialize<S: Serializer>(&self, serializer: S) -> Result<S::Ok, S::Error> {
        let mut st = serializer.serialize_struct("User", 2)?;
        st.serialize_field("username", &self.username)?;
        st.serialize_field("password", &self.password)?;
        st.end()
    }
}

impl<'de> Deserialize<'de> for User {
    fn deserialize<D: Deserializer<'de>>(deserializer: D) -> Result<Self, D::Error> {
        let mut fields = HashMap::<String, String>::deserialize(deserializer)?;
        let username = fields
            .remove("username")
            .ok_or_else(|| D::Error::missing_field("username"))?;
        let password = fields
            .remove("password")
            .ok_or_else(|| D::Error::missing_field("password"))?;
        Ok(User { username, password })
    }
}

fn brandon() -> User {
    User {
        username: "brandon".to_string(),
        password: "hunter2".to_string(),
    }
}

#[test]
fn insert_inserts_the_given_key_and_value() {
    let mut session = Session::default();
    let user = User {
        username: "brandon".to_string(),
        password: "hunter2".to_string(),
    };
    session
        .insert("user", &user)
        .expect("unable to insert User");
}

#[test]
fn remove_removes_the_value_for_the_given_key() {
    let mut session = Session::default();
    let user = User {
        username: "brandon".to_string(),
        password: "hunter2".to_string(),
    };
    session
        .insert("user", &user)
        .expect("expected insert \"user\" to insert User");

    session
        .remove::<User>("user")
        .expect("expected remove \"user\" to succeed")
        .expect("expected remove \"user\" to return a User");

    let user = session
        .remove::<User>("user")
        .expect("expected remove \"user\" to succeed");
    assert_eq!(user, None, "expected remove \"user\" to return None");
}

#[test]
fn get_returns_the_expected_value_for_the_given_key() {
    let mut session = Session::default();
    let user = User {
        username: "brandon".to_string(),
        password: "hunter2".to_string(),
    };
    session
        .insert("user", &user)
        .expect("unable to insert User");

    let user = session
        .get::<User>("user")
        .expect("expected get \"user\" to succeed")
        .expect("expected get \"user\" to return a User");
    assert_eq!(user.username, "brandon".to_string());
    assert_eq!(user.password, "hunter2".to_string());
}

#[test]
fn get_returns_session_destroyed_error_when_the_session_is_marked_destroyed() {
    let mut session = Session::default();
    let user = User {
        username: "brandon".to_string(),
        password: "hunter2".to_string(),
    };
    session
        .insert("user", &user)
        .expect("unable to insert User");

    session.destroy();

    let err = session
        .get::<User>("user")
        .expect_err("expected session to be destroyed");
    assert!(matches!(err, SessionError::SessionDestroyedError));
}

#[test]
fn new_session_is_clean_and_active() {
    let session = Session::default();
    assert_eq!(session.status(), SessionStatus::Clean);
    assert!(session.active());
    assert_eq!(SessionState::from(session), SessionState::default());
}

#[test]
fn insert_then_get_returns_the_value_and_marks_changed() {
    let mut session = Session::default();
    session.insert("n", &42i64).unwrap();
    assert_eq!(session.status(), SessionStatus::Changed);
    assert_eq!(session.get::<i64>("n").unwrap(), Some(42));
    assert_eq!(session.get::<i64>("missing").unwrap(), None);
}

#[test]
fn insert_overwrites_an_earlier_value() {
    let mut session = Session::default();
    session.insert("k", &1i64).unwrap();
    session.insert("k", &"two").unwrap();
    assert_eq!(session.get::<String>("k").unwrap(), Some("two".to_string()));
}

#[test]
fn insert_stores_the_json_text_of_the_value() {
    let mut session = Session::default();
    session.insert("n", &42i64).unwrap();
    session.insert("s", &"x").unwrap();
    session.insert("user", &brandon()).unwrap();
    let state = SessionState::from(session);
    assert_eq!(state.get("n"), Some(&"42".to_string()));
    assert_eq!(state.get("s"), Some(&"\"x\"".to_string()));
    assert_eq!(
        state.get("user"),
        Some(&"{\"username\":\"brandon\",\"password\":\"hunter2\"}".to_string())
    );
}

#[test]
fn get_decodes_stored_json_text() {
    let mut state = SessionState::default();
    state.insert("s", "\"hello\"".to_string());
    state.insert("v", "[1,2,3]".to_string());
    let session = Session::from(state);
    assert_eq!(session.get::<String>("s").unwrap(), Some("hello".to_string()));
    assert_eq!(session.get::<Vec<u8>>("v").unwrap(), Some(vec![1, 2, 3]));
    assert_eq!(session.status(), SessionStatus::Clean);
}

#[test]
fn insert_of_an_unencodable_value_is_a_serialize_error() {
    let mut session = Session::default();
    let mut bad: BTreeMap<(u8, u8), u8> = BTreeMap::new();
    bad.insert((1, 2), 3);
    let err = session.insert("bad", &bad).unwrap_err();
    match err {
        SessionError::SessionStorageError(StorageError::Insert(
            StorageInsertError::SerializeError(key, cause),
        )) => {
            assert_eq!(key, "bad");
            assert!(!cause.is_empty());
        }
        other => panic!("unexpected error {:?}", other),
    }
    assert_eq!(session.status(), SessionStatus::Clean);
    assert_eq!(session.get::<i64>("bad").unwrap(), None);
}

#[test]
fn get_with_the_wrong_type_is_a_deserialize_error_and_keeps_the_value() {
    let mut session = Session::default();
    session.insert("k", &42i64).unwrap();
    let err = session.get::<String>("k").unwrap_err();
    match err {
        SessionError::SessionStorageError(StorageError::Get(
            StorageGetError::DeserializeError(key, cause),
        )) => {
            assert_eq!(key, "k");
            assert!(!cause.is_empty());
        }
        other => panic!("unexpected error {:?}", other),
    }
    assert_eq!(session.get::<i64>("k").unwrap(), Some(42));
}

#[test]
fn remove_with_the_wrong_type_still_clears_the_slot() {
    let mut session = Session::default();
    session.insert("k", &42i64).unwrap();
    let err = session.remove::<String>("k").unwrap_err();
    match err {
        SessionError::SessionStorageError(StorageError::Remove(
            StorageRemoveError::DeserializeError(key, _),
        )) => assert_eq!(key, "k"),
        other => panic!("unexpected error {:?}", other),
    }
    assert_eq!(session.get::<i64>("k").unwrap(), None);
}

#[test]
fn remove_of_a_missing_key_returns_none_and_marks_changed() {
    let mut session = Session::default();
    assert_eq!(session.remove::<i64>("nothing").unwrap(), None);
    assert_eq!(session.status(), SessionStatus::Changed);
}

#[test]
fn destroyed_session_refuses_every_operation_and_keeps_its_state() {
    let mut session = Session::default();
    session.insert("k", &7i64).unwrap();
    session.destroy();
    assert!(!session.active());
    assert!(matches!(
        session.insert("k", &8i64),
        Err(SessionError::SessionDestroyedError)
    ));
    assert!(matches!(
        session.insert("other", &8i64),
        Err(SessionError::SessionDestroyedError)
    ));
    assert!(matches!(
        session.remove::<i64>("k"),
        Err(SessionError::SessionDestroyedError)
    ));
    assert!(matches!(
        session.get::<i64>("k"),
        Err(SessionError::SessionDestroyedError)
    ));
    assert_eq!(session.status(), SessionStatus::Destroyed);
    let state = SessionState::from(session);
    let mut expected = SessionState::default();
    expected.insert("k", "7".to_string());
    assert_eq!(state, expected);
}

#[test]
fn destroy_twice_is_the_same_as_once() {
    let mut once = Session::default();
    once.insert("k", &1i64).unwrap();
    once.destroy();
    let mut twice = Session::default();
    twice.insert("k", &1i64).unwrap();
    twice.destroy();
    twice.destroy();
    assert_eq!(once.status(), SessionStatus::Destroyed);
    assert_eq!(twice.status(), SessionStatus::Destroyed);
    assert_eq!(once.active(), twice.active());
    assert_eq!(SessionState::from(once), SessionState::from(twice));
}

#[test]
fn state_round_trips_through_a_session() {
    let mut state = SessionState::default();
    state.insert("a", "1".to_string());
    state.insert("b", "\"two\"".to_string());
    state.insert("c", "3".to_string());
    assert_eq!(state.remove("c"), Some("3".to_string()));
    let session = Session::from(state.clone());
    assert_eq!(session.status(), SessionStatus::Clean);
    assert_eq!(SessionState::from(session), state);

    let mut changed = Session::from(state.clone());
    changed.destroy();
    assert_eq!(SessionState::from(changed), state);
}

#[test]
fn end_to_end_user_scenario() {
    let mut session = Session::default();
    session.insert("user", &brandon()).unwrap();
    assert_eq!(session.get::<User>("user").unwrap(), Some(brandon()));
    assert_eq!(session.remove::<User>("user").unwrap(), Some(brandon()));
    assert_eq!(session.remove::<User>("user").unwrap(), None);
}
