use dumpsys_rs::error::Error;
use dumpsys_rs::service_map::ServiceMap;
use dumpsys_rs::Dumpsys;

#[test]
fn fresh_registry_is_empty() {
    let m: ServiceMap<u64> = ServiceMap::new();
    assert_eq!(m.len(), 0);
    assert!(m.get(&"activity".to_owned()).is_none());
}

#[test]
fn insert_reports_replacement_and_keeps_newer_value() {
    let mut m: ServiceMap<u64> = ServiceMap::new();
    assert!(!m.insert("activity".to_owned(), 1));
    assert!(m.insert("activity".to_owned(), 2));
    assert_eq!(m.get(&"activity".to_owned()), Some(&2));
    assert_eq!(m.len(), 1);
}

#[test]
fn names_are_case_sensitive_unique_keys() {
    let mut m: ServiceMap<u64> = ServiceMap::new();
    assert!(!m.insert("power".to_owned(), 1));
    assert!(!m.insert("Power".to_owned(), 2));
    assert_eq!(m.len(), 2);
    assert_eq!(m.get(&"power".to_owned()), Some(&1));
    assert_eq!(m.get(&"Power".to_owned()), Some(&2));
}

#[test]
fn removed_name_is_absent_afterwards() {
    let mut m: ServiceMap<u64> = ServiceMap::new();
    m.insert("power".to_owned(), 9);
    assert_eq!(m.remove(&"power".to_owned()), Some(9));
    assert_eq!(m.remove(&"power".to_owned()), None);
    assert!(m.get(&"power".to_owned()).is_none());
    assert_eq!(m.len(), 0);
}

#[test]
fn remove_leaves_other_names_in_place() {
    let mut m: ServiceMap<u64> = ServiceMap::new();
    m.insert("activity".to_owned(), 1);
    m.insert("power".to_owned(), 2);
    m.insert("window".to_owned(), 3);
    assert_eq!(m.remove(&"power".to_owned()), Some(2));
    assert_eq!(m.get(&"activity".to_owned()), Some(&1));
    assert_eq!(m.get(&"window".to_owned()), Some(&3));
    assert_eq!(m.len(), 2);
}

#[test]
fn dump_on_never_inserted_name_fails_with_no_entry() {
    let mut cache = Dumpsys::new().unwrap();
    match cache.dump("activity", &["recents"]) {
        Err(Error::NoEntryFound) => {}
        _ => panic!("a name that was never inserted must fail with NoEntryFound"),
    }
    match cache.dump("activity", &[]) {
        Err(Error::NoEntryFound) => {}
        _ => panic!("the arguments must not matter for a cache miss"),
    }
}

#[test]
fn remove_on_fresh_cache_fails_with_no_entry() {
    let mut cache = Dumpsys::new().unwrap();
    match cache.remove_service("activity") {
        Err(Error::NoEntryFound) => {}
        _ => panic!("removing a name that was never inserted must fail with NoEntryFound"),
    }
}

#[test]
fn dropping_a_cache_with_no_dump_in_flight_returns() {
    for _ in 0..3 {
        let cache = Dumpsys::new().unwrap();
        drop(cache);
    }
}
