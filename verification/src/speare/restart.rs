//! Supervision strategies, restart limits and backoff delays.
//!
//! Durations are counted in nanoseconds (`u128`), which holds every value of
//! `std::time::Duration` exactly.
use vstd::prelude::*;

verus! {

/// Defines how a parent reacts when a child actor fails.
#[derive(Debug, Clone, Copy)]
pub enum Supervision {
    /// Actor terminates on error.
    Stop,
    /// Actor continues processing the next message after an error.
    Resume,
    /// Actor is restarted on error, up to `max` times with optional `backoff`.
    Restart { max: Limit, backoff: Backoff },
}

/// Delay strategy between restart attempts, in nanoseconds.
#[derive(Debug, Clone, Copy)]
pub enum Backoff {
    /// Restart immediately with no delay.
    Immediate,
    /// Wait a fixed duration between restarts.
    Static(u128),
    /// Linearly increase delay from `min` to `max` by `step` per restart.
    Incremental { min: u128, max: u128, step: u128 },
}

/// Maximum number of restarts allowed.
#[derive(Debug, Clone, Copy)]
pub enum Limit {
    /// No limit on restarts.
    Unlimited,
    /// Restart at most this many times.
    Amount(u64),
}

/// The limit that a count converts to: `0` means no limit.
pub open spec fn limit_from_count(value: u64) -> Limit {
    if value == 0 {
        Limit::Unlimited
    } else {
        Limit::Amount(value)
    }
}

/// Whether a limit equals a count: only an `Amount` can, and only its own.
pub open spec fn limit_equals(limit: Limit, count: int) -> bool {
    match limit {
        Limit::Unlimited => false,
        Limit::Amount(n) => n == count,
    }
}

/// **Note**: `0` maps to [`Limit::Unlimited`] (unlimited), not zero restarts.
/// If you want zero restarts (i.e., never restart), use [`Supervision::Stop`] instead.
impl From<u64> for Limit {
    fn from(value: u64) -> (r: Limit) {
        if value == 0 {
            Limit::Unlimited
        } else {
            Limit::Amount(value)
        }
    }
}

impl vstd::std_specs::convert::FromSpecImpl<u64> for Limit {
    open spec fn obeys_from_spec() -> bool {
        true
    }

    open spec fn from_spec(v: u64) -> Limit {
        limit_from_count(v)
    }
}

impl PartialEq<u64> for Limit {
    fn eq(&self, other: &u64) -> (r: bool) {
        match self {
            Limit::Unlimited => false,
            Limit::Amount(n) => *n == *other,
        }
    }
}

impl vstd::std_specs::cmp::PartialEqSpecImpl<u64> for Limit {
    open spec fn obeys_eq_spec() -> bool {
        true
    }

    open spec fn eq_spec(&self, other: &u64) -> bool {
        limit_equals(*self, *other as int)
    }
}

/// What follows the failure of an actor: stay down, or start again after a delay.
#[derive(Debug, Clone, Copy)]
pub enum Restart {
    No,
    In(u128),
}

/// The incremental delay after `restarts` earlier restarts:
/// `step * (restarts + 1)`, capped at `max`, then raised to at least `min`.
pub open spec fn incremental_wait(min: u128, max: u128, step: u128, restarts: int) -> int {
    let raw = step * (restarts + 1);
    let capped = if max <= raw { max as int } else { raw };
    if capped <= min { min as int } else { capped }
}

/// The delay that a backoff strategy asks for after `restarts` earlier restarts.
pub open spec fn backoff_wait(backoff: Backoff, restarts: int) -> int {
    match backoff {
        Backoff::Immediate => 0,
        Backoff::Static(d) => d as int,
        Backoff::Incremental { min, max, step } => incremental_wait(min, max, step, restarts),
    }
}

/// The decision after a failure, given how many times the actor restarted before.
pub open spec fn restart_after(supervision: Supervision, restarts: int) -> Restart {
    match supervision {
        Supervision::Stop => Restart::No,
        Supervision::Resume => Restart::No,
        Supervision::Restart { max, backoff } => {
            if limit_equals(max, restarts + 1) {
                Restart::No
            } else {
                Restart::In(backoff_wait(backoff, restarts) as u128)
            }
        },
    }
}

/// Every delay a backoff produces fits in a `u128`.
pub proof fn lemma_backoff_wait_bounded(backoff: Backoff, restarts: int)
    requires
        restarts >= 0,
    ensures
        0 <= backoff_wait(backoff, restarts) <= u128::MAX,
{
    match backoff {
        Backoff::Incremental { min, max, step } => {
            assert(step * (restarts + 1) >= 0) by (nonlinear_arith)
                requires
                    restarts >= 0,
                    step >= 0,
            ;
        },
        _ => {},
    }
}

fn incremental_delay(min: u128, max: u128, step: u128, restarts: u64) -> (r: u128)
    requires
        restarts < u64::MAX,
    ensures
        r == incremental_wait(min, max, step, restarts as int),
{
    let factor: u128 = restarts as u128 + 1;
    let capped: u128 = match step.checked_mul(factor) {
        Some(w) => if max <= w {
            max
        } else {
            w
        },
        None => max,
    };
    if capped <= min {
        min
    } else {
        capped
    }
}

impl Restart {
    /// Decides whether a failed actor starts again, and after how long.
    pub fn from_supervision(supervision: Supervision, current_restarts: u64) -> (r: Restart)
        requires
            supervision is Restart ==> current_restarts < u64::MAX,
        ensures
            r == restart_after(supervision, current_restarts as int),
    {
        match supervision {
            Supervision::Stop => Restart::No,
            Supervision::Resume => Restart::No,
            Supervision::Restart { max, backoff } => {
                if max == current_restarts + 1 {
                    Restart::No
                } else {
                    let wait: u128 = match backoff {
                        Backoff::Immediate => 0,
                        Backoff::Static(duration) => duration,
                        Backoff::Incremental { min, max, step } => incremental_delay(
                            min,
                            max,
                            step,
                            current_restarts,
                        ),
                    };
                    Restart::In(wait)
                }
            },
        }
    }
}

/// With `Restart { max: Amount(n), .. }` and `n >= 1`, an actor that fails every
/// time it runs is started exactly `n` times: after its `k`-th earlier restart it
/// starts again while `k + 1 < n`, and stays down at `k + 1 == n`.
pub proof fn law_amount_limits_runs(n: u64, backoff: Backoff, k: int)
    requires
        n >= 1,
        0 <= k < n,
    ensures
        (k + 1 < n) ==> restart_after(Supervision::Restart { max: Limit::Amount(n), backoff }, k) is In,
        (k + 1 == n) ==> restart_after(Supervision::Restart { max: Limit::Amount(n), backoff }, k) is No,
{
}

/// Without a limit, a failed actor always starts again.
pub proof fn law_unlimited_always_restarts(backoff: Backoff, k: int)
    requires
        k >= 0,
    ensures
        restart_after(Supervision::Restart { max: Limit::Unlimited, backoff }, k)
            == Restart::In(backoff_wait(backoff, k) as u128),
{
}

/// `Stop` and `Resume` never restart an actor.
pub proof fn law_stop_and_resume_never_restart(k: int)
    ensures
        restart_after(Supervision::Stop, k) is No,
        restart_after(Supervision::Resume, k) is No,
{
}

/// A static backoff waits the same duration before every restart.
pub proof fn law_static_backoff_is_constant(d: u128, k1: int, k2: int)
    ensures
        backoff_wait(Backoff::Static(d), k1) == backoff_wait(Backoff::Static(d), k2),
        backoff_wait(Backoff::Static(d), k1) == d,
{
}

/// When `min <= max`, an incremental backoff always waits between `min` and `max`.
pub proof fn law_incremental_within_bounds(min: u128, max: u128, step: u128, k: int)
    requires
        min <= max,
        k >= 0,
    ensures
        min <= incremental_wait(min, max, step, k) <= max,
{
}

/// An incremental backoff never waits less after more restarts.
pub proof fn law_incremental_monotone(min: u128, max: u128, step: u128, k1: int, k2: int)
    requires
        0 <= k1 <= k2,
    ensures
        incremental_wait(min, max, step, k1) <= incremental_wait(min, max, step, k2),
{
    assert(step * (k1 + 1) <= step * (k2 + 1)) by (nonlinear_arith)
        requires
            0 <= k1 <= k2,
            step >= 0,
    ;
}

/// Between its bounds, an incremental backoff grows linearly: `step * (k + 1)`.
pub proof fn law_incremental_linear_between_bounds(min: u128, max: u128, step: u128, k: int)
    requires
        k >= 0,
        min <= step * (k + 1) <= max,
    ensures
        incremental_wait(min, max, step, k) == step * (k + 1),
{
}

/// When a restart is granted, a static backoff waits its duration and no
/// backoff waits nothing, however many restarts came before.
pub proof fn law_granted_restart_waits(max: Limit, backoff: Backoff, k: int)
    requires
        k >= 0,
        restart_after(Supervision::Restart { max, backoff }, k) is In,
    ensures
        backoff matches Backoff::Static(d) ==> restart_after(Supervision::Restart { max, backoff }, k) == Restart::In(d),
        backoff is Immediate ==> restart_after(Supervision::Restart { max, backoff }, k) == Restart::In(0),
{
}

} // verus!
