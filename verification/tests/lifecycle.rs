use speare::speare::exit::ExitReason;
use speare::speare::lifecycle::{AfterExit, CtxCore, Exit, ExitAction, ProcAction, ProcMsg, Run};
use speare::speare::restart::{Backoff, Limit, Supervision};

fn child_core(sup: Supervision) -> CtxCore<&'static str> {
    CtxCore::child(7, sup, Some("worker".to_string()))
}

#[test]
fn handle_stop_ends_with_handle_reason_and_ack() {
    let mut core = child_core(Supervision::Stop);
    let mut run: Run<String, u8> = Run::new();
    run.start();
    run.control(ProcMsg::FromHandle(ProcAction::Stop(42u8)), &mut core);
    assert!(run.ended);
    let exit = run.finish(&mut core);
    assert!(matches!(exit.reason, ExitReason::Handle));
    assert_eq!(exit.stop_ack, Some(42));
    assert!(!exit.notify_watch);
    assert!(exit.with_actor);
    match exit.after {
        AfterExit::Terminate { deregister, notify_parent } => {
            assert_eq!(deregister, Some("worker".to_string()));
            assert_eq!(notify_parent, Some(7));
        }
        AfterExit::RestartIn(_) => panic!("should not restart"),
    }
    assert_eq!(core.restarts, 0);
    assert!(core.registry_key.is_none());
}

#[test]
fn stop_supervision_fires_watch_on_failure() {
    let mut core = child_core(Supervision::Stop);
    let mut run: Run<String, u8> = Run::new();
    run.start();
    run.handled(Err("child failed".to_string()), &core);
    assert!(run.ended);
    let exit = run.finish(&mut core);
    assert!(exit.notify_watch);
    match exit.reason {
        ExitReason::Error(e) => assert_eq!(e, "child failed"),
        _ => panic!("expected an error"),
    }
    assert_eq!(core.restarts, 1);
    assert!(matches!(exit.after, AfterExit::Terminate { notify_parent: Some(7), .. }));
}

#[test]
fn resume_keeps_running_after_failure() {
    let core = child_core(Supervision::Resume);
    let mut run: Run<String, u8> = Run::new();
    run.start();
    run.handled(Err("oops".to_string()), &core);
    assert!(!run.ended);
    assert!(run.exit_reason.is_none());
}

#[test]
fn restart_until_max_then_watch_fires() {
    // max 2: first failure restarts silently, second is final
    let mut core = child_core(Supervision::Restart { max: 2u64.into(), backoff: Backoff::Immediate });
    let mut run: Run<String, u8> = Run::new();
    run.start();
    run.handled(Err("child failed".to_string()), &core);
    let exit = run.finish(&mut core);
    assert!(!exit.notify_watch);
    assert!(matches!(exit.after, AfterExit::RestartIn(0)));
    assert_eq!(core.restarts, 1);
    assert_eq!(core.registry_key, Some("worker".to_string()));

    let mut run: Run<String, u8> = Run::new();
    run.start();
    run.handled(Err("child failed".to_string()), &core);
    let exit = run.finish(&mut core);
    assert!(exit.notify_watch);
    assert!(matches!(exit.after, AfterExit::Terminate { .. }));
    assert_eq!(core.restarts, 2);
}

#[test]
fn restart_request_restarts_now_without_watch() {
    let mut core = child_core(Supervision::Stop);
    let mut run: Run<String, u8> = Run::new();
    run.start();
    run.control(ProcMsg::FromHandle(ProcAction::Restart), &mut core);
    let exit = run.finish(&mut core);
    assert!(matches!(exit.reason, ExitReason::Handle));
    assert!(matches!(exit.after, AfterExit::RestartIn(0)));
    assert!(!exit.notify_watch);
    assert_eq!(core.registry_key, Some("worker".to_string()));
}

#[test]
fn parent_stop_reports_parent() {
    let mut core = child_core(Supervision::Stop);
    let mut run: Run<String, u8> = Run::new();
    run.control(ProcMsg::FromParent(ProcAction::Stop(1u8)), &mut core);
    let exit = run.finish(&mut core);
    assert!(matches!(exit.reason, ExitReason::Parent));
    assert!(!exit.with_actor);
}

#[test]
fn failed_init_under_resume_terminates() {
    let mut core = child_core(Supervision::Resume);
    let mut run: Run<String, u8> = Run::new();
    run.fail("init".to_string(), &core);
    let exit = run.finish(&mut core);
    assert!(!exit.with_actor);
    assert!(exit.notify_watch);
}

#[test]
fn finishing_stops_children_and_resets_counter() {
    let mut core: CtxCore<&'static str> = CtxCore::root();
    let a = core.children.add_child("a");
    let b = core.children.add_child("b");
    assert_eq!((a, b), (1, 2));
    let run: Run<String, u8> = Run::new();
    let exit = run.finish(&mut core);
    assert_eq!(exit.stop_children, vec!["a", "b"]);
    assert_eq!(core.children.total_children(), 0);
    assert_eq!(core.children.len(), 0);
    assert!(matches!(exit.after, AfterExit::Terminate { deregister: None, notify_parent: None }));
}

#[test]
fn child_termination_keeps_running_and_forgets_child() {
    let mut core: CtxCore<&'static str> = CtxCore::root();
    core.children.add_child("a");
    core.children.add_child("b");
    let mut run: Run<String, u8> = Run::new();
    run.control(ProcMsg::ChildTerminated { child_id: 1 }, &mut core);
    assert!(!run.ended);
    assert_eq!(core.children.total_children(), 1);
    assert!(core.children.get(1).is_none());
    assert_eq!(core.children.get(2), Some(&"b"));
    run.control(ProcMsg::ChildTerminated { child_id: 9 }, &mut core);
    assert_eq!(core.children.total_children(), 1);
}

#[test]
fn exit_reason_descriptions() {
    assert_eq!(ExitReason::<()>::Handle.description(), Some("manual exit through Handle::stop"));
    assert_eq!(ExitReason::<()>::Parent.description(), Some("exit request from parent supervision strategy"));
    assert_eq!(ExitReason::Error(()).description(), None);
}

#[test]
fn limit_conversion_in_supervision() {
    let sup = Supervision::Restart { max: Limit::from(0u64), backoff: Backoff::Immediate };
    assert!(matches!(sup, Supervision::Restart { max: Limit::Unlimited, .. }));
}

#[test]
fn exit_steps_stop_children_before_exit() {
    let exit: Exit<(), (), u8> = Exit {
        stop_children: vec![1, 2],
        reason: ExitReason::Error(()),
        notify_watch: true,
        with_actor: true,
        stop_ack: Some(()),
        after: AfterExit::Terminate { deregister: None, notify_parent: None },
    };
    let steps = exit.steps();
    assert_eq!(steps.len(), 4);
    assert!(matches!(steps[0], ExitAction::StopChildren));
    assert!(matches!(steps[1], ExitAction::NotifyWatch));
    assert!(matches!(steps[2], ExitAction::CallExit));
    assert!(matches!(steps[3], ExitAction::AckStop));

    let quiet: Exit<(), (), u8> = Exit { notify_watch: false, stop_ack: None, ..exit };
    let steps = quiet.steps();
    assert_eq!(steps.len(), 2);
    assert!(matches!(steps[0], ExitAction::StopChildren));
    assert!(matches!(steps[1], ExitAction::CallExit));
}
