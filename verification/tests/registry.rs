use turkcode::registry::Registry;

#[test]
fn new_registry_is_empty() {
    let registry: Registry<u32> = Registry::new();
    assert_eq!(registry.len(), 0);
    assert!(!registry.contains_key("a"));
    assert_eq!(registry.get("a"), None);
}

#[test]
fn insert_then_lookup() {
    let mut registry: Registry<u32> = Registry::new();
    registry.insert("a".to_string(), 1);
    registry.insert("b".to_string(), 2);
    assert_eq!(registry.len(), 2);
    assert_eq!(registry.get("a"), Some(&1));
    assert_eq!(registry.get("b"), Some(&2));
    assert_eq!(registry.get("c"), None);
    assert!(registry.contains_key("b"));
}

#[test]
fn insert_replaces_and_keeps_the_place() {
    let mut registry: Registry<u32> = Registry::new();
    registry.insert("a".to_string(), 1);
    registry.insert("b".to_string(), 2);
    registry.insert("a".to_string(), 3);
    assert_eq!(registry.len(), 2);
    assert_eq!(registry.get("a"), Some(&3));
    assert_eq!(registry.key_at(0), "a");
    assert_eq!(registry.value_at(0), &3);
    assert_eq!(registry.key_at(1), "b");
    assert_eq!(registry.value_at(1), &2);
}

#[test]
fn remove_returns_the_value_and_keeps_the_order() {
    let mut registry: Registry<u32> = Registry::new();
    registry.insert("a".to_string(), 1);
    registry.insert("b".to_string(), 2);
    registry.insert("c".to_string(), 3);
    assert_eq!(registry.remove("b"), Some(2));
    assert_eq!(registry.remove("b"), None);
    assert_eq!(registry.len(), 2);
    assert_eq!(registry.key_at(0), "a");
    assert_eq!(registry.key_at(1), "c");
    assert!(!registry.contains_key("b"));
}

#[test]
fn keys_are_compared_exactly() {
    let mut registry: Registry<u32> = Registry::new();
    registry.insert("Rust".to_string(), 1);
    assert!(!registry.contains_key("rust"));
    assert!(!registry.contains_key("Rust "));
    assert!(!registry.contains_key(""));
    registry.insert(String::new(), 2);
    assert_eq!(registry.get(""), Some(&2));
}
