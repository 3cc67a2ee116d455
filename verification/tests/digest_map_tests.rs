use progress_hashing::DigestMap;

#[test]
fn empty_map_has_no_entries() {
    let m = DigestMap::new();
    assert_eq!(m.len(), 0);
    assert!(m.get(&"anything".to_string()).is_none());
}

#[test]
fn insert_then_get_back() {
    let mut m = DigestMap::new();
    m.insert("a".to_string(), "1".to_string());
    m.insert("b".to_string(), "2".to_string());

    assert_eq!(m.len(), 2);
    assert_eq!(m.get(&"a".to_string()).unwrap().as_str(), "1");
    assert_eq!(m.get(&"b".to_string()).unwrap().as_str(), "2");
    assert!(m.get(&"c".to_string()).is_none());
}

#[test]
fn entries_keep_insertion_order() {
    let mut m = DigestMap::new();
    m.insert("first".to_string(), "d1".to_string());
    m.insert("second".to_string(), "d2".to_string());

    let (p0, d0) = m.entry_at(0);
    assert_eq!(p0.as_str(), "first");
    assert_eq!(d0.as_str(), "d1");
    let (p1, d1) = m.entry_at(1);
    assert_eq!(p1.as_str(), "second");
    assert_eq!(d1.as_str(), "d2");
}
