use speare::children::ChildTable;
use speare::id_map::IdMap;
use speare::simple_api::{
    calc_backoff, calc_backoff_fits, choose_directive, loop_step, plan_for_error, response_outcome, AskErr, Backoff,
    Directive, LoopStep, ProcAction, ProcMsg, SimplePlan, Strategy, Supervision,
};

#[test]
fn calc_backoff_follows_limit_and_growth() {
    assert_eq!(calc_backoff(None, None, 5), Some(0));
    assert_eq!(calc_backoff(Some(2), None, 1), Some(0));
    assert_eq!(calc_backoff(Some(2), None, 2), None);
    assert_eq!(calc_backoff(None, Some(Backoff::Static(7)), 9), Some(7));
    let inc = Some(Backoff::Incremental { steps: 10, max: 25 });
    assert_eq!(calc_backoff(None, inc, 0), Some(0));
    assert_eq!(calc_backoff(None, inc, 2), Some(20));
    assert_eq!(calc_backoff(None, inc, 3), Some(25));
    assert!(!calc_backoff_fits(None, Some(Backoff::Incremental { steps: u128::MAX, max: 1 }), 2));
}

#[test]
fn simple_one_for_all_is_per_child() {
    let sup: Supervision<()> = Supervision::one_for_all();
    assert!(matches!(sup.strategy, Strategy::OneForOne { .. }));
}

#[test]
fn simple_restart_counts_per_child() {
    let mut sup: Supervision<()> = Supervision::one_for_one().max_restarts(1).backoff(Backoff::Static(3));
    let mut kids: ChildTable<&'static str> = ChildTable::new();
    let a = kids.add_child("a");
    assert!(matches!(plan_for_error(&mut sup, &mut kids, Directive::Restart, a), SimplePlan::RestartChild { delay: 3 }));
    // the limit is reached: nothing is done
    assert!(matches!(plan_for_error(&mut sup, &mut kids, Directive::Restart, a), SimplePlan::Nothing));
    match plan_for_error(&mut sup, &mut kids, Directive::Stop, a) {
        SimplePlan::StopChild { child } => assert_eq!(child, "a"),
        _ => panic!("expected StopChild"),
    }
    assert!(matches!(plan_for_error(&mut sup, &mut kids, Directive::Resume, a), SimplePlan::Nothing));
}

#[test]
fn simple_deciders_and_loop() {
    assert!(matches!(choose_directive(&vec![None, Some(Directive::Resume)], Directive::Stop), Directive::Resume));
    assert!(matches!(loop_step::<(), ()>(ProcMsg::FromHandle(ProcAction::Stop)), LoopStep::Stop));
    assert!(matches!(loop_step::<(), ()>(ProcMsg::FromParent(ProcAction::RestartIn(4))), LoopStep::RestartAfter(4)));
    assert!(matches!(loop_step::<(), ()>(ProcMsg::FromHandle(ProcAction::RestartIn(4))), LoopStep::Continue));
}

#[test]
fn simple_response_outcomes() {
    assert!(matches!(response_outcome(false, Some(1)), Err(AskErr::Timeout)));
    assert!(matches!(response_outcome::<u8>(true, None), Err(AskErr::Failure)));
    assert!(matches!(response_outcome(true, Some(1)), Ok(1)));
}

#[test]
fn exhausted_restarts_give_no_restart_even_with_a_full_counter() {
    let mut kids: ChildTable<u8> = ChildTable::new();
    let a = kids.add_child(1);
    let mut counter = IdMap::new();
    counter.insert(a, u32::MAX);
    let mut sup: Supervision<()> = Supervision::one_for_one().max_restarts(3);
    sup.strategy = Strategy::OneForOne { counter };
    assert!(matches!(plan_for_error(&mut sup, &mut kids, Directive::Restart, a), SimplePlan::Nothing));

    let mut all: Supervision<()> = Supervision::one_for_one().max_restarts(3);
    all.strategy = Strategy::OneForAll { counter: u32::MAX };
    assert!(matches!(plan_for_error(&mut all, &mut kids, Directive::Restart, a), SimplePlan::Nothing));

    let mut unlimited: Supervision<()> = Supervision::one_for_one();
    unlimited.strategy = Strategy::OneForAll { counter: u32::MAX };
    assert!(matches!(plan_for_error(&mut unlimited, &mut kids, Directive::Restart, a), SimplePlan::CounterOverflow));
}
