use sd_reader::registry::Registry;

#[test]
fn empty_registry_holds_nothing() {
    let r: Registry<u32> = Registry::new();
    assert_eq!(r.len(), 0);
    assert_eq!(r.get(0), None);
    assert!(!r.contains(0));
}

#[test]
fn insert_get_and_remove() {
    let mut r: Registry<u32> = Registry::new();
    r.insert(5, 50);
    r.insert(9, 90);
    r.insert(2, 20);
    assert_eq!(r.len(), 3);
    assert_eq!(r.get(9), Some(90));
    assert_eq!(r.get(5), Some(50));
    assert_eq!(r.get(7), None);
    assert!(r.contains(2));
    assert_eq!(r.entry(0), (5, 50));
    assert_eq!(r.entry(2), (2, 20));
    assert_eq!(r.remove(5), Some(50));
    assert_eq!(r.remove(5), None);
    assert_eq!(r.len(), 2);
    assert_eq!(r.get(5), None);
    assert_eq!(r.get(9), Some(90));
    assert_eq!(r.get(2), Some(20));
    assert_eq!(r.entry(0), (9, 90));
}

#[test]
fn insert_under_a_key_that_is_there_replaces() {
    let mut r: Registry<u32> = Registry::new();
    r.insert(1, 10);
    r.insert(2, 20);
    r.insert(1, 11);
    assert_eq!(r.len(), 2);
    assert_eq!(r.get(1), Some(11));
    assert_eq!(r.get(2), Some(20));
}
