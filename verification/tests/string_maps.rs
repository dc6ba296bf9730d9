use mc_launcher::string_map::StringMap;

#[test]
fn a_new_map_is_empty() {
    let m: StringMap<u32> = StringMap::new();
    assert_eq!(m.len(), 0);
    assert!(m.get("a").is_none());
    assert!(!m.contains_key("a"));
}

#[test]
fn insert_binds_and_rebinds_in_place() {
    let mut m: StringMap<u32> = StringMap::new();
    assert_eq!(m.insert("linux".to_string(), 1), None);
    assert_eq!(m.insert("osx".to_string(), 2), None);
    assert_eq!(m.insert("linux".to_string(), 3), Some(1));
    assert_eq!(m.len(), 2);
    assert_eq!(m.get("linux"), Some(&3));
    assert_eq!(m.get("osx"), Some(&2));
    assert_eq!(m.key_at(0), "linux");
    assert_eq!(m.key_at(1), "osx");
    assert_eq!(*m.value_at(0), 3);
}

#[test]
fn remove_unbinds_one_key_only() {
    let mut m: StringMap<u32> = StringMap::new();
    m.insert("a".to_string(), 1);
    m.insert("b".to_string(), 2);
    m.insert("c".to_string(), 3);
    assert_eq!(m.remove("b"), Some(2));
    assert_eq!(m.remove("b"), None);
    assert_eq!(m.len(), 2);
    assert_eq!(m.get("a"), Some(&1));
    assert_eq!(m.get("c"), Some(&3));
    assert_eq!(m.key_at(1), "c");
}

#[test]
fn a_clone_has_the_same_bindings() {
    let mut m: StringMap<String> = StringMap::new();
    m.insert("windows".to_string(), "natives-windows".to_string());
    let c = m.clone();
    assert_eq!(c.len(), 1);
    assert_eq!(c.get("windows").map(|s| s.as_str()), Some("natives-windows"));
}
