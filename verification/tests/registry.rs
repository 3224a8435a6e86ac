use mqtt_session::locality::Locality;
use mqtt_session::registry::SubscriptionRegistry;

#[test]
fn new_registry_is_empty() {
    let registry: SubscriptionRegistry<u32> = SubscriptionRegistry::new();
    assert_eq!(registry.len(), 0);
    assert!(!registry.contains("home/temp"));
    assert!(registry.get("home/temp").is_none());
}

#[test]
fn insert_records_a_new_topic() {
    let mut registry: SubscriptionRegistry<u32> = SubscriptionRegistry::new();
    assert_eq!(registry.insert("home/temp", Locality::Any, 7), None);
    assert_eq!(registry.len(), 1);
    assert!(registry.contains("home/temp"));
    assert!(!registry.contains("home"));
    assert!(!registry.contains("home/temp/x"));
    let found = registry.get("home/temp").unwrap();
    assert_eq!(found.topic, "home/temp");
    assert_eq!(found.visibility, Locality::Any);
    assert_eq!(found.handle, 7);
}

#[test]
fn insert_gives_back_the_handle_of_a_duplicate() {
    let mut registry: SubscriptionRegistry<u32> = SubscriptionRegistry::new();
    assert_eq!(registry.insert("home/temp", Locality::Any, 7), None);
    assert_eq!(registry.insert("home/temp", Locality::SessionLocal, 8), Some(8));
    assert_eq!(registry.len(), 1);
    let found = registry.get("home/temp").unwrap();
    assert_eq!(found.visibility, Locality::Any);
    assert_eq!(found.handle, 7);
}

#[test]
fn insert_keeps_topics_apart() {
    let mut registry: SubscriptionRegistry<u32> = SubscriptionRegistry::new();
    assert_eq!(registry.insert("a", Locality::Any, 1), None);
    assert_eq!(registry.insert("b", Locality::SessionLocal, 2), None);
    assert_eq!(registry.insert("a/b", Locality::Any, 3), None);
    assert_eq!(registry.insert("b", Locality::Any, 4), Some(4));
    assert_eq!(registry.len(), 3);
    assert_eq!(registry.get("a").unwrap().handle, 1);
    assert_eq!(registry.get("b").unwrap().handle, 2);
    assert_eq!(registry.get("b").unwrap().visibility, Locality::SessionLocal);
    assert_eq!(registry.get("a/b").unwrap().handle, 3);
    assert!(registry.get("c").is_none());
}
