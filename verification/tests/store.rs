use axum_example::types::{AppState, Item, INITIAL_CAPACITY};

fn item(name: &str, id: u64) -> Item {
    Item::new(name.to_string(), id).unwrap()
}

#[test]
fn new_store_is_empty() {
    let state = AppState::new();
    assert_eq!(state.len(), 0);
    assert!(state.list_keys().is_empty());
    assert!(state.get("anything").is_none());
    assert!(!state.contains("anything"));
}

#[test]
fn new_store_reserves_room() {
    let state = AppState::new();
    assert_eq!(INITIAL_CAPACITY, 8192);
    assert!(state.capacity() >= state.len());
}

#[test]
fn insert_then_get() {
    let mut state = AppState::new();
    assert!(state.insert(item("a", 1000)).is_none());
    assert_eq!(state.len(), 1);
    assert!(state.contains("a"));
    assert_eq!(state.get("a"), Some(item("a", 1000)));
    assert!(state.get("b").is_none());
}

#[test]
fn insert_replaces_and_returns_previous() {
    let mut state = AppState::new();
    assert!(state.insert(item("a", 1000)).is_none());
    assert_eq!(state.insert(item("a", 2000)), Some(item("a", 1000)));
    assert_eq!(state.len(), 1);
    assert_eq!(state.get("a"), Some(item("a", 2000)));
}

#[test]
fn insert_if_absent_keeps_first() {
    let mut state = AppState::new();
    assert!(state.insert_if_absent(item("a", 1000)));
    assert!(!state.insert_if_absent(item("a", 2000)));
    assert_eq!(state.get("a"), Some(item("a", 1000)));
    assert_eq!(state.len(), 1);
}

#[test]
fn remove_returns_item_once() {
    let mut state = AppState::new();
    state.insert(item("a", 1000));
    state.insert(item("b", 1001));
    assert_eq!(state.remove("a"), Some(item("a", 1000)));
    assert_eq!(state.remove("a"), None);
    assert!(!state.contains("a"));
    assert!(state.contains("b"));
    assert_eq!(state.len(), 1);
}

#[test]
fn same_id_under_two_names_is_accepted() {
    let mut state = AppState::new();
    state.insert(item("a", 1000));
    state.insert(item("b", 1000));
    assert_eq!(state.len(), 2);
}

#[test]
fn list_keys_holds_each_name_once() {
    let mut state = AppState::new();
    state.insert(item("a", 1000));
    state.insert(item("b", 1001));
    state.insert(item("c", 1002));
    state.insert(item("b", 1003));
    let mut names = state.list_keys();
    names.sort();
    assert_eq!(names, vec!["a".to_string(), "b".to_string(), "c".to_string()]);
}

#[test]
fn clear_empties_the_store() {
    let mut state = AppState::new();
    state.insert(item("a", 1000));
    state.insert(item("b", 1001));
    state.clear();
    assert_eq!(state.len(), 0);
    assert!(state.list_keys().is_empty());
    assert!(state.get("a").is_none());
    assert!(state.insert_if_absent(item("a", 1000)));
}

#[test]
fn capacity_is_never_below_len() {
    let mut state = AppState::new();
    for i in 0..200u64 {
        state.insert(item(&format!("n{}", i), 1000 + i));
        assert!(state.capacity() >= state.len());
    }
    assert_eq!(state.len(), 200);
}
