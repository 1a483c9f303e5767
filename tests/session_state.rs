use session_core::SessionState;

#[test]
fn state_insert_get_and_remove() {
    let mut state = SessionState::default();
    assert_eq!(state.get("k"), None);
    state.insert("k", "1".to_string());
    assert_eq!(state.get("k"), Some(&"1".to_string()));
    state.insert("k", "2".to_string());
    assert_eq!(state.get("k"), Some(&"2".to_string()));
    assert_eq!(state.remove("k"), Some("2".to_string()));
    assert_eq!(state.remove("k"), None);
    assert_eq!(state.get("k"), None);
}

#[test]
fn state_equality_ignores_insertion_order() {
    let mut a = SessionState::default();
    a.insert("x", "1".to_string());
    a.insert("y", "2".to_string());
    let mut b = SessionState::default();
    b.insert("y", "2".to_string());
    b.insert("x", "1".to_string());
    assert_eq!(a, b);
    b.insert("x", "3".to_string());
    assert_ne!(a, b);
    b.insert("x", "1".to_string());
    b.insert("z", "0".to_string());
    assert_ne!(a, b);
    assert_ne!(b, a);
}

#[test]
fn state_clone_is_equal_and_independent() {
    let mut a = SessionState::default();
    a.insert("x", "1".to_string());
    let mut b = a.clone();
    assert_eq!(a, b);
    b.remove("x");
    assert_eq!(a.get("x"), Some(&"1".to_string()));
    assert_eq!(b.get("x"), None);
}

#[test]
fn state_keys_are_compared_whole() {
    let mut state = SessionState::default();
    state.insert("ab", "1".to_string());
    assert_eq!(state.get("a"), None);
    assert_eq!(state.get("abc"), None);
    state.insert("", "empty".to_string());
    assert_eq!(state.get(""), Some(&"empty".to_string()));
    assert_eq!(state.get("ab"), Some(&"1".to_string()));
}
