use speare::children::ChildTable;
use speare::process_api::exit::SharedErr;
use speare::process_api::lifecycle::{restart_after_failed_init, ControlStep, ProcAction, ProcMsg, ProcRun};
use speare::process_api::exit::ExitReason;
use speare::process_api::node::{allocate_pid, exit_step, prune_disconnected, ExitMessage, ExitStep, TypeSubscribers};
use std::any::TypeId;
use speare::process_api::process::{ask_outcome, noreply, reply, sends_reply, AskErr};
use speare::process_api::stream::{source_step, SourceStep};
use speare::process_api::supervision::{Backoff, Directive, IntoLimit, Limit, RestartCount};
use speare::process_api::supervisor::{choose_directive, plan_for_error, ErrPlan, Strategy, Supervision};

const SEC: u128 = 1_000_000_000;

#[test]
fn amount_limit_allows_exactly_that_many_restarts() {
    let mut c = RestartCount::starting_at(0);
    let max = Some(Limit::Amount(3));
    for _ in 0..3 {
        assert_eq!(c.get_backoff_duration(max, None, 0), Some(0));
    }
    assert_eq!(c.get_backoff_duration(max, None, 0), None);
    assert_eq!(c.count, 3);
}

#[test]
fn within_limit_resets_after_timespan() {
    let mut c = RestartCount::starting_at(0);
    let max = Some(Limit::Within { amount: 2, timespan: 10 * SEC });
    assert!(c.get_backoff_duration(max, None, SEC).is_some());
    assert!(c.get_backoff_duration(max, None, 2 * SEC).is_some());
    assert!(c.get_backoff_duration(max, None, 3 * SEC).is_none());
    // long after the last restart the count starts afresh
    assert!(c.get_backoff_duration(max, None, 20 * SEC).is_some());
    assert_eq!(c.count, 1);
    assert_eq!(c.last_restart, 20 * SEC);
}

#[test]
fn incremental_backoff_uses_earlier_count() {
    let mut c = RestartCount::starting_at(0);
    let b = Some(Backoff::Incremental { steps: SEC, max: 3 * SEC });
    let delays: Vec<Option<u128>> = (0..5).map(|_| c.get_backoff_duration(None, b, 0)).collect();
    assert_eq!(delays, vec![Some(0), Some(SEC), Some(2 * SEC), Some(3 * SEC), Some(3 * SEC)]);
}

#[test]
fn limits_from_values() {
    assert!(matches!(3u32.into_limit(), Limit::Amount(3)));
    assert!(matches!((3u32, 60 * SEC).into_limit(), Limit::Within { amount: 3, timespan: t } if t == 60 * SEC));
    assert!(matches!((60 * SEC, 3u32).into_limit(), Limit::Within { amount: 3, timespan: t } if t == 60 * SEC));
}

#[test]
fn first_decider_with_an_opinion_wins() {
    let ops = vec![None, Some(Directive::Stop), Some(Directive::Resume)];
    assert!(matches!(choose_directive(&ops, Directive::Restart), Directive::Stop));
    assert!(matches!(choose_directive(&vec![None, None], Directive::Escalate), Directive::Escalate));
}

#[test]
fn one_for_one_restarts_then_stops_failing_child_only() {
    let mut sup: Supervision<()> = Supervision::one_for_one().max_restarts(1u32);
    let mut kids: ChildTable<&'static str> = ChildTable::new();
    let a = kids.add_child("a");
    let b = kids.add_child("b");
    assert!(matches!(plan_for_error(&mut sup, &mut kids, Directive::Restart, a, 0, 0), ErrPlan::RestartChild { delay: 0 }));
    match plan_for_error(&mut sup, &mut kids, Directive::Restart, a, 0, 0) {
        ErrPlan::StopChild { child } => assert_eq!(child, "a"),
        _ => panic!("expected the child to be stopped"),
    }
    assert!(kids.get(a).is_none());
    assert_eq!(kids.get(b), Some(&"b"));
    assert!(matches!(plan_for_error(&mut sup, &mut kids, Directive::Restart, a, 0, 0), ErrPlan::Ignore));
}

#[test]
fn one_for_all_stop_takes_every_child() {
    let mut sup: Supervision<()> = Supervision::one_for_all(0).directive(Directive::Stop);
    let mut kids: ChildTable<&'static str> = ChildTable::new();
    kids.add_child("a");
    kids.add_child("b");
    match plan_for_error(&mut sup, &mut kids, Directive::Stop, 1, 0, 0) {
        ErrPlan::StopAll { children, ack } => {
            assert_eq!(children, vec!["a", "b"]);
            assert!(ack);
        }
        _ => panic!("expected StopAll"),
    }
    assert_eq!(kids.len(), 0);
}

#[test]
fn one_for_all_restart_counts_once_for_all() {
    let mut sup: Supervision<()> =
        Supervision::one_for_all(0).backoff(Backoff::Static(5)).max_restarts(Limit::Amount(1));
    let mut kids: ChildTable<&'static str> = ChildTable::new();
    kids.add_child("a");
    assert!(matches!(plan_for_error(&mut sup, &mut kids, Directive::Restart, 1, 0, 0), ErrPlan::RestartAll { delay: 5 }));
    match &sup.strategy {
        Strategy::OneForAll { counter } => assert_eq!(counter.count, 1),
        _ => panic!("strategy changed"),
    }
    match plan_for_error(&mut sup, &mut kids, Directive::Restart, 1, 0, 0) {
        ErrPlan::StopAll { children, ack } => {
            assert_eq!(children, vec!["a"]);
            assert!(!ack);
        }
        _ => panic!("expected StopAll"),
    }
}

#[test]
fn escalate_and_resume() {
    let mut sup: Supervision<()> = Supervision::one_for_one();
    let mut kids: ChildTable<u8> = ChildTable::new();
    assert!(matches!(plan_for_error(&mut sup, &mut kids, Directive::Escalate, 3, 9, 0), ErrPlan::Escalate { id: 9 }));
    assert!(matches!(plan_for_error(&mut sup, &mut kids, Directive::Resume, 3, 9, 0), ErrPlan::Resume));
}

#[test]
fn supervision_builders() {
    let sup: Supervision<u8> = Supervision::one_for_one().with_decider(1).with_decider(2);
    assert_eq!(sup.deciders, vec![1, 2]);
    assert!(matches!(sup.directive, Directive::Restart));
    assert!(sup.max_restarts.is_none());
}

#[test]
fn process_run_reasons() {
    let mut run: ProcRun<String, u8> = ProcRun::new();
    let report = run.handler_failed(SharedErr::new("bad".to_string()));
    assert_eq!(report.get(), "bad");
    assert!(!run.ended);
    let step = run.control(ProcMsg::<(), (), u8>::FromParent(ProcAction::Restart(4)));
    assert!(matches!(step, ControlStep::Continue));
    let (reason, restart) = run.finish();
    assert!(matches!(reason, ExitReason::Error(_)));
    assert_eq!(restart, Some(4));

    let mut run: ProcRun<String, u8> = ProcRun::new();
    run.handler_failed(SharedErr::new("bad".to_string()));
    run.control(ProcMsg::<(), (), u8>::FromHandle(ProcAction::Stop));
    assert!(matches!(run.finish().0, ExitReason::Handle));

    let mut run: ProcRun<String, u8> = ProcRun::new();
    match run.control(ProcMsg::<&str, u8, u8>::FromChild { child_id: 2, err: "e", ack: 1 }) {
        ControlStep::ChildFailed { child_id, err, ack } => assert_eq!((child_id, err, ack), (2, "e", 1)),
        ControlStep::Continue => panic!("child error lost"),
    }
    assert!(!run.ended);
    assert_eq!(restart_after_failed_init(ProcAction::Restart(3u8)), Some(3));
    assert_eq!(restart_after_failed_init(ProcAction::<u8>::Stop), None);
}

#[test]
fn shared_errors_are_shared() {
    let e = SharedErr::new(10u32);
    let f = e.clone();
    assert_eq!(*f, 10);
    assert_eq!(*e.as_ref(), 10);
}

#[test]
fn ask_results() {
    assert!(matches!(ask_outcome::<u32, ()>(false, None), Err(AskErr::Exited)));
    assert!(matches!(ask_outcome::<u32, ()>(true, None), Err(AskErr::NoReply)));
    assert!(matches!(ask_outcome::<u32, &str>(true, Some(Err("x"))), Err(AskErr::Handler("x"))));
    assert!(matches!(ask_outcome::<u32, ()>(true, Some(Ok(Some(10)))), Ok(10)));
    assert_eq!(reply::<u8, ()>(3), Ok(Some(3)));
    assert_eq!(noreply::<u8, ()>(), Ok(None));
    assert!(!sends_reply::<u8, ()>(&Ok(None)));
    assert!(sends_reply::<u8, ()>(&Err(())));
}

#[test]
fn node_pids_and_pruning() {
    let mut count = 0u32;
    assert_eq!(allocate_pid(&mut count), 0);
    assert_eq!(allocate_pid(&mut count), 1);
    let mut subs = vec!["a", "b", "c", "d"];
    prune_disconnected(&mut subs, &vec![false, true, false, true]);
    assert_eq!(subs, vec!["a", "c"]);
}

#[test]
fn stream_items() {
    assert!(matches!(source_step::<u8, ()>(None), SourceStep::Finished));
    assert!(matches!(source_step::<u8, ()>(Some(Ok(3))), SourceStep::Deliver(3)));
    assert!(matches!(source_step::<u8, &str>(Some(Err("e"))), SourceStep::Fail("e")));
}

#[test]
fn exit_channel_stores_monitors_then_exits_with_them() {
    let mut monitors: Vec<&str> = Vec::new();
    assert!(matches!(exit_step::<u8, &str>(&mut monitors, None), ExitStep::Continue));
    assert!(monitors.is_empty());
    assert!(matches!(exit_step::<u8, &str>(&mut monitors, Some(ExitMessage::StoreMonitor("a"))), ExitStep::Continue));
    assert!(matches!(exit_step::<u8, &str>(&mut monitors, Some(ExitMessage::StoreMonitor("b"))), ExitStep::Continue));
    assert_eq!(monitors, vec!["a", "b"]);
    match exit_step::<u8, &str>(&mut monitors, Some(ExitMessage::Exit(7))) {
        ExitStep::Exit { signal, monitors: handed } => {
            assert_eq!(signal, 7);
            assert_eq!(handed, vec!["a", "b"]);
        }
        ExitStep::Continue => panic!("an exit signal ends the process"),
    }
    assert!(monitors.is_empty());
}

#[test]
fn root_process_is_never_restarted() {
    let mut run: ProcRun<(), u8> = ProcRun::new();
    run.root_control::<(), ()>(ProcMsg::FromParent(ProcAction::Restart(3)));
    run.root_control::<(), ()>(ProcMsg::FromHandle(ProcAction::Restart(4)));
    run.root_handler_failed(SharedErr::new(()));
    let (reason, restart) = run.finish();
    assert!(matches!(reason, ExitReason::Error(_)));
    assert_eq!(restart, None);
}

#[test]
fn subscribers_are_kept_per_message_type() {
    let mut subs: TypeSubscribers<&str> = TypeSubscribers::new();
    let num = TypeId::of::<u32>();
    let text = TypeId::of::<String>();
    assert!(subs.get(&num).is_none());
    subs.subscribe(num, "a");
    subs.subscribe(text, "b");
    subs.subscribe(num, "c");
    assert_eq!(subs.get(&num).unwrap(), &vec!["a", "c"]);
    assert_eq!(subs.get(&text).unwrap(), &vec!["b"]);
    subs.prune(&num, &vec![true, false]);
    assert_eq!(subs.get(&num).unwrap(), &vec!["c"]);
    assert_eq!(subs.get(&text).unwrap(), &vec!["b"]);
}
