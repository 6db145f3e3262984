use speare::speare::restart::{Backoff, Limit, Restart, Supervision};

const MS: u128 = 1_000_000;

fn wait(r: Restart) -> Option<u128> {
    match r {
        Restart::No => None,
        Restart::In(d) => Some(d),
    }
}

#[test]
fn limit_from_zero_is_unlimited() {
    assert!(matches!(Limit::from(0u64), Limit::Unlimited));
    assert!(matches!(Limit::from(3u64), Limit::Amount(3)));
}

#[test]
fn limit_equals_only_its_amount() {
    assert!(Limit::Amount(3) == 3u64);
    assert!(Limit::Amount(3) != 2u64);
    assert!(Limit::Unlimited != 0u64);
    assert!(Limit::Unlimited != 3u64);
}

#[test]
fn stop_and_resume_never_restart() {
    assert!(wait(Restart::from_supervision(Supervision::Stop, 0)).is_none());
    assert!(wait(Restart::from_supervision(Supervision::Resume, 5)).is_none());
}

#[test]
fn amount_three_runs_three_times() {
    // initial run + 2 restarts, then the third failure is final
    let sup = Supervision::Restart { max: Limit::from(3u64), backoff: Backoff::Immediate };
    assert_eq!(wait(Restart::from_supervision(sup, 0)), Some(0));
    assert_eq!(wait(Restart::from_supervision(sup, 1)), Some(0));
    assert_eq!(wait(Restart::from_supervision(sup, 2)), None);
}

#[test]
fn unlimited_restarts_forever() {
    let sup = Supervision::Restart { max: Limit::Unlimited, backoff: Backoff::Immediate };
    for k in 0..100u64 {
        assert_eq!(wait(Restart::from_supervision(sup, k)), Some(0));
    }
}

#[test]
fn static_backoff_gaps_are_fixed() {
    let sup = Supervision::Restart { max: Limit::Amount(4), backoff: Backoff::Static(1000 * MS) };
    let gaps: Vec<Option<u128>> = (0..4).map(|k| wait(Restart::from_supervision(sup, k))).collect();
    assert_eq!(gaps, vec![Some(1000 * MS), Some(1000 * MS), Some(1000 * MS), None]);
}

#[test]
fn incremental_backoff_gaps_grow_linearly() {
    let sup = Supervision::Restart {
        max: Limit::Amount(5),
        backoff: Backoff::Incremental { min: 50 * MS, max: 1000 * MS, step: 100 * MS },
    };
    let gaps: Vec<Option<u128>> = (0..5).map(|k| wait(Restart::from_supervision(sup, k))).collect();
    assert_eq!(gaps, vec![Some(100 * MS), Some(200 * MS), Some(300 * MS), Some(400 * MS), None]);
}

#[test]
fn incremental_backoff_gaps_clamp_to_max() {
    let sup = Supervision::Restart {
        max: Limit::Amount(5),
        backoff: Backoff::Incremental { min: 100 * MS, max: 800 * MS, step: 500 * MS },
    };
    let gaps: Vec<Option<u128>> = (0..5).map(|k| wait(Restart::from_supervision(sup, k))).collect();
    assert_eq!(gaps, vec![Some(500 * MS), Some(800 * MS), Some(800 * MS), Some(800 * MS), None]);
}

#[test]
fn incremental_backoff_raises_to_min() {
    let sup = Supervision::Restart {
        max: Limit::Unlimited,
        backoff: Backoff::Incremental { min: 300 * MS, max: 1000 * MS, step: 100 * MS },
    };
    assert_eq!(wait(Restart::from_supervision(sup, 0)), Some(300 * MS));
    assert_eq!(wait(Restart::from_supervision(sup, 3)), Some(400 * MS));
}

#[test]
fn incremental_backoff_survives_huge_products() {
    let sup = Supervision::Restart {
        max: Limit::Unlimited,
        backoff: Backoff::Incremental { min: 0, max: 7, step: u128::MAX },
    };
    assert_eq!(wait(Restart::from_supervision(sup, u64::MAX - 1)), Some(7));
}
