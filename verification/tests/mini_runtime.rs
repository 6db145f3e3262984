use speare::speare::mini::{after_task_error, publish_targets, subscribe, OnErr, SpeareErr, TaskNext, TaskTable};
use speare::speare::pubsub::PubSub;
use speare::speare::restart::{Backoff, Limit};
use std::any::TypeId;

#[test]
fn task_ids_count_up_from_one() {
    let mut t: TaskTable<&'static str> = TaskTable::new();
    let a = t.next_id();
    assert_eq!(a.value(), 1);
    t.insert(a, "a");
    let b = t.next_id();
    assert_eq!(b.value(), 2);
    t.insert(b, "b");
    assert_eq!(t.abort_child(a), Some("a"));
    assert_eq!(t.abort_child(a), None);
    assert_eq!(t.next_id().value(), 3);
    assert_eq!(t.abort_children(), vec!["b"]);
    assert_eq!(t.next_id().value(), 1);
}

#[test]
fn stop_policy_stops_at_first_error() {
    assert!(matches!(after_task_error(OnErr::Stop, 0), TaskNext::Stop));
}

#[test]
fn restart_policy_stops_after_max_restarts() {
    let on_err = OnErr::Restart { max: 2u64.into(), backoff: Backoff::Immediate };
    assert!(matches!(after_task_error(on_err, 0), TaskNext::RetryAfter(0)));
    assert!(matches!(after_task_error(on_err, 1), TaskNext::RetryAfter(0)));
    assert!(matches!(after_task_error(on_err, 2), TaskNext::Stop));
}

#[test]
fn unlimited_restart_policy_keeps_retrying() {
    let on_err = OnErr::Restart { max: Limit::Unlimited, backoff: Backoff::Static(5) };
    for k in 0..10 {
        assert!(matches!(after_task_error(on_err, k), TaskNext::RetryAfter(5)));
    }
}

#[test]
fn mini_publish_and_subscribe() {
    let mut ps: PubSub<u8> = PubSub::new();
    subscribe(&mut ps, "numbers", TypeId::of::<u32>(), 1).unwrap();
    subscribe(&mut ps, "numbers", TypeId::of::<u32>(), 2).unwrap();
    assert_eq!(publish_targets(&ps, "numbers", &TypeId::of::<u32>()).unwrap().unwrap().len(), 2);
    assert!(publish_targets(&ps, "nobody-listens", &TypeId::of::<u32>()).unwrap().is_none());
    assert_eq!(
        subscribe(&mut ps, "numbers", TypeId::of::<String>(), 3),
        Err(SpeareErr::TypeMismatch { topic: "numbers".to_string() })
    );
    assert_eq!(
        publish_targets(&ps, "numbers", &TypeId::of::<String>()).map(|_| ()),
        Err(SpeareErr::TypeMismatch { topic: "numbers".to_string() })
    );
}

#[test]
fn speare_err_messages() {
    assert_eq!(
        SpeareErr::TypeMismatch { topic: "numbers".to_string() }.message(),
        "pub/sub topic type mismatch for topic: numbers"
    );
    assert_eq!(SpeareErr::LockPoisonErr.message(), "internal RwLock poisoned");
}
