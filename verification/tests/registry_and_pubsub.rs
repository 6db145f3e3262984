use speare::speare::lifecycle::CtxCore;
use speare::speare::pubsub::{PubSub, PubSubError};
use speare::speare::registry::{Registry, RegistryError};
use std::any::TypeId;

#[test]
fn spawn_named_registers_and_returns_handle() {
    let mut reg: Registry<u32> = Registry::new();
    let h = reg.spawn_named("worker".to_string(), || ("handle", 7u32)).unwrap();
    assert_eq!(h, "handle");
    assert!(reg.contains(&"worker".to_string()));
    assert_eq!(reg.get(&"worker".to_string()), Some(&7));
}

#[test]
fn spawn_named_refuses_taken_name_without_spawning() {
    let mut reg: Registry<u32> = Registry::new();
    reg.spawn_named("worker".to_string(), || ((), 1u32)).unwrap();
    let mut spawned = false;
    let r = reg.spawn_named("worker".to_string(), || {
        spawned = true;
        ((), 2u32)
    });
    match r {
        Err(RegistryError::NameTaken(n)) => assert_eq!(n, "worker"),
        _ => panic!("expected NameTaken"),
    }
    assert!(!spawned);
    assert_eq!(reg.get(&"worker".to_string()), Some(&1));
}

#[test]
fn different_names_coexist() {
    let mut reg: Registry<u32> = Registry::new();
    reg.spawn_named("worker-a".to_string(), || ((), 1u32)).unwrap();
    reg.spawn_named("worker-b".to_string(), || ((), 2u32)).unwrap();
    assert_eq!(reg.get(&"worker-a".to_string()), Some(&1));
    assert_eq!(reg.get(&"worker-b".to_string()), Some(&2));
}

#[test]
fn lookup_reports_not_found_for_missing_or_wrong_type() {
    let mut reg: Registry<u32> = Registry::new();
    reg.spawn_named("my-worker".to_string(), || ((), 10u32)).unwrap();
    let found = reg.lookup(&"my-worker".to_string(), |v: &u32| Some(*v + 1));
    assert_eq!(found.unwrap(), 11);
    match reg.lookup(&"my-worker".to_string(), |_: &u32| None::<u32>) {
        Err(RegistryError::NotFound(n)) => assert_eq!(n, "my-worker"),
        _ => panic!("wrong type should be NotFound"),
    }
    match reg.lookup(&"nonexistent".to_string(), |v: &u32| Some(*v)) {
        Err(RegistryError::NotFound(n)) => assert_eq!(n, "nonexistent"),
        _ => panic!("missing should be NotFound"),
    }
}

#[test]
fn deregistered_name_can_be_taken_again() {
    let mut reg: Registry<u32> = Registry::new();
    reg.spawn_named("worker".to_string(), || ((), 1u32)).unwrap();
    assert_eq!(reg.deregister(&"worker".to_string()), Some(1));
    assert!(!reg.contains(&"worker".to_string()));
    assert!(reg.spawn_named("worker".to_string(), || ((), 3u32)).is_ok());
}

#[test]
fn registry_error_messages() {
    assert_eq!(RegistryError::NameTaken("x".to_string()).message(), "registry name already taken: x");
    assert_eq!(RegistryError::NotFound("y".to_string()).message(), "no actor registered under: y");
    assert_eq!(RegistryError::PoisonErr.message(), "registry lock poisoned");
}

#[test]
fn publish_to_empty_topic_finds_nobody() {
    let ps: PubSub<u8> = PubSub::new();
    assert!(ps.subscribers_for("nobody-listens", &TypeId::of::<u32>()).unwrap().is_none());
}

#[test]
fn subscribe_then_publish_reaches_each_subscriber() {
    let mut ps: PubSub<&'static str> = PubSub::new();
    let a = ps.subscribe("orders", TypeId::of::<u32>(), "a").unwrap();
    let b = ps.subscribe("orders", TypeId::of::<u32>(), "b").unwrap();
    assert_eq!((a, b), (0, 1));
    let subs = ps.subscribers_for("orders", &TypeId::of::<u32>()).unwrap().unwrap();
    let names: Vec<&str> = subs.iter().map(|s| s.send_fn).collect();
    assert_eq!(names, vec!["a", "b"]);
}

#[test]
fn type_mismatch_is_refused_both_ways() {
    let mut ps: PubSub<u8> = PubSub::new();
    ps.subscribe("orders", TypeId::of::<u32>(), 1).unwrap();
    match ps.subscribe("orders", TypeId::of::<String>(), 2) {
        Err(PubSubError::TypeMismatch { topic }) => assert_eq!(topic, "orders"),
        _ => panic!("expected TypeMismatch"),
    }
    match ps.subscribers_for("orders", &TypeId::of::<String>()) {
        Err(PubSubError::TypeMismatch { topic }) => assert_eq!(topic, "orders"),
        _ => panic!("expected TypeMismatch"),
    }
    assert_eq!(ps.next_sub_id(), 1);
}

#[test]
fn actor_subscriptions_are_cleaned_up() {
    let mut ps: PubSub<&'static str> = PubSub::new();
    let mut mine: CtxCore<()> = CtxCore::root();
    let mut other: CtxCore<()> = CtxCore::root();
    ps.subscribe_actor(&mut mine, "orders", TypeId::of::<u32>(), "mine-1").unwrap();
    ps.subscribe_actor(&mut mine, "orders", TypeId::of::<u32>(), "mine-2").unwrap();
    ps.subscribe_actor(&mut mine, "payments", TypeId::of::<u64>(), "mine-3").unwrap();
    ps.subscribe_actor(&mut other, "orders", TypeId::of::<u32>(), "other").unwrap();
    assert_eq!(mine.subscription_ids.len(), 3);
    ps.unsubscribe_actor(&mut mine);
    assert!(mine.subscription_ids.is_empty());
    let orders: Vec<&str> =
        ps.subscribers_for("orders", &TypeId::of::<u32>()).unwrap().unwrap().iter().map(|s| s.send_fn).collect();
    assert_eq!(orders, vec!["other"]);
    let payments = ps.subscribers_for("payments", &TypeId::of::<u64>()).unwrap().unwrap();
    assert!(payments.is_empty());
}

#[test]
fn retain_delivered_drops_dead_subscribers() {
    let mut ps: PubSub<&'static str> = PubSub::new();
    ps.subscribe("numbers", TypeId::of::<u32>(), "dead").unwrap();
    ps.subscribe("numbers", TypeId::of::<u32>(), "alive").unwrap();
    ps.retain_delivered("numbers", &vec![false, true]);
    let left: Vec<&str> =
        ps.subscribers_for("numbers", &TypeId::of::<u32>()).unwrap().unwrap().iter().map(|s| s.send_fn).collect();
    assert_eq!(left, vec!["alive"]);
}

#[test]
fn pubsub_error_messages() {
    assert_eq!(
        PubSubError::TypeMismatch { topic: "t".to_string() }.message(),
        "pub/sub topic type mismatch for topic: t"
    );
    assert_eq!(PubSubError::PoisonErr.message(), "pub/sub lock poisoned");
}
