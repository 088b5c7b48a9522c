use terminal_sessions::registry::Registry;

fn sorted(mut ids: Vec<String>) -> Vec<String> {
    ids.sort();
    ids
}

#[test]
fn a_new_registry_is_empty() {
    let registry: Registry<u32> = Registry::new();
    assert_eq!(registry.len(), 0);
    assert_eq!(registry.list(), Vec::<String>::new());
    assert!(!registry.contains("a"));
    assert_eq!(registry.get("a"), None);
}

#[test]
fn inserted_sessions_are_found_and_listed() {
    let mut registry: Registry<u32> = Registry::new();
    assert_eq!(registry.insert(String::from("a"), 1), None);
    assert_eq!(registry.insert(String::from("b"), 2), None);
    assert_eq!(registry.len(), 2);
    assert!(registry.contains("a"));
    assert_eq!(registry.get("a"), Some(&1));
    assert_eq!(registry.get("b"), Some(&2));
    assert_eq!(registry.get("c"), None);
    assert_eq!(sorted(registry.list()), vec![String::from("a"), String::from("b")]);
}

#[test]
fn inserting_under_a_used_identifier_replaces_the_handles() {
    let mut registry: Registry<u32> = Registry::new();
    registry.insert(String::from("a"), 1);
    registry.insert(String::from("b"), 2);
    assert_eq!(registry.insert(String::from("a"), 3), Some(1));
    assert_eq!(registry.len(), 2);
    assert_eq!(registry.get("a"), Some(&3));
    assert_eq!(registry.get("b"), Some(&2));
    assert_eq!(sorted(registry.list()), vec![String::from("a"), String::from("b")]);
}

#[test]
fn removing_hands_out_the_handles_once() {
    let mut registry: Registry<u32> = Registry::new();
    registry.insert(String::from("a"), 1);
    registry.insert(String::from("b"), 2);
    registry.insert(String::from("c"), 3);
    assert_eq!(registry.remove("b"), Some(2));
    assert_eq!(registry.remove("b"), None);
    assert_eq!(registry.len(), 2);
    assert!(!registry.contains("b"));
    assert_eq!(registry.get("a"), Some(&1));
    assert_eq!(registry.get("c"), Some(&3));
    assert_eq!(sorted(registry.list()), vec![String::from("a"), String::from("c")]);
}

#[test]
fn removing_an_unknown_identifier_changes_nothing() {
    let mut registry: Registry<u32> = Registry::new();
    registry.insert(String::from("a"), 1);
    assert_eq!(registry.remove("zzz"), None);
    assert_eq!(registry.remove(""), None);
    assert_eq!(registry.len(), 1);
    assert_eq!(registry.get("a"), Some(&1));
}

#[test]
fn identifiers_are_compared_exactly() {
    let mut registry: Registry<u32> = Registry::new();
    registry.insert(String::from("Session"), 1);
    assert!(!registry.contains("session"));
    assert!(!registry.contains("Session "));
    assert!(!registry.contains("Sessio"));
    assert!(registry.contains("Session"));
}

#[test]
fn the_empty_identifier_is_an_identifier() {
    let mut registry: Registry<u32> = Registry::new();
    registry.insert(String::new(), 9);
    assert_eq!(registry.get(""), Some(&9));
    assert_eq!(registry.list(), vec![String::new()]);
}

#[test]
fn many_sessions_are_all_kept() {
    let mut registry: Registry<usize> = Registry::new();
    for i in 0..200 {
        assert_eq!(registry.insert(format!("session-{i}"), i), None);
    }
    assert_eq!(registry.len(), 200);
    for i in (0..200).step_by(2) {
        assert_eq!(registry.remove(&format!("session-{i}")), Some(i));
    }
    assert_eq!(registry.len(), 100);
    for i in 0..200 {
        let found = registry.get(&format!("session-{i}")).copied();
        assert_eq!(found, if i % 2 == 1 { Some(i) } else { None });
    }
    let listed = registry.list();
    assert_eq!(listed.len(), 100);
    let mut unique = listed.clone();
    unique.sort();
    unique.dedup();
    assert_eq!(unique.len(), 100);
}
