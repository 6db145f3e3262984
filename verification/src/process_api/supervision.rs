//! Supervision strategies: which directive applies to a failed child, how many
//! restarts are allowed (in all, or within a time span), and how long to wait.
//!
//! Durations and instants are counted in nanoseconds (`u128`); an instant is the
//! time elapsed since a fixed origin.
use vstd::prelude::*;

verus! {

/// The largest number of nanoseconds a `std::time::Duration` can hold.
pub const DURATION_MAX_NANOS: u128 = 18446744073709551615u128 * 1000000000u128 + 999999999u128;

/// Specifies limits for restarts in [`Supervision`] strategies.
#[derive(Clone, Copy, Debug)]
pub enum Limit {
    /// At most this many restarts in all.
    Amount(u32),
    /// At most `amount` restarts, counted afresh once `timespan` has passed
    /// since the last one.
    Within { amount: u32, timespan: u128 },
}

/// Values that read as a restart limit.
pub trait IntoLimit {
    /// The limit the value reads as.
    spec fn as_limit(&self) -> Limit;

    fn into_limit(self) -> (r: Limit)
        ensures
            r == self.as_limit(),
    ;
}

impl IntoLimit for Limit {
    open spec fn as_limit(&self) -> Limit {
        *self
    }

    fn into_limit(self) -> (r: Limit) {
        self
    }
}

impl IntoLimit for u32 {
    open spec fn as_limit(&self) -> Limit {
        Limit::Amount(*self)
    }

    fn into_limit(self) -> (r: Limit) {
        Limit::Amount(self)
    }
}

impl IntoLimit for (u32, u128) {
    open spec fn as_limit(&self) -> Limit {
        Limit::Within { amount: self.0, timespan: self.1 }
    }

    fn into_limit(self) -> (r: Limit) {
        Limit::Within { amount: self.0, timespan: self.1 }
    }
}

impl IntoLimit for (u128, u32) {
    open spec fn as_limit(&self) -> Limit {
        Limit::Within { amount: self.1, timespan: self.0 }
    }

    fn into_limit(self) -> (r: Limit) {
        Limit::Within { amount: self.1, timespan: self.0 }
    }
}

/// Action to take after a process errors.
#[derive(Clone, Copy, Debug)]
pub enum Directive {
    /// Resumes the process(es) as if nothing happened.
    Resume,
    /// Gracefully stops the process(es).
    Stop,
    /// Restarts the process(es), calling `exit` and subsequently `init`.
    Restart,
    /// Escalates the error to the parent process.
    Escalate,
}

/// How long to wait before restarting a process that errored.
#[derive(Clone, Copy, Debug)]
pub enum Backoff {
    /// The same backoff for every restart.
    Static(u128),
    /// A backoff that grows with each restart, up to `max`.
    Incremental { steps: u128, max: u128 },
}

/// How many restarts happened, and when the last one did.
#[derive(Clone, Copy, Debug)]
pub struct RestartCount {
    pub count: u32,
    pub last_restart: u128,
}

/// Whether a restart is allowed, and the count it leaves.
pub open spec fn restart_gate(c: RestartCount, max: Option<Limit>, now: u128) -> (bool, int) {
    match max {
        None => (true, c.count + 1),
        Some(Limit::Amount(m)) => (c.count < m, c.count + 1),
        Some(Limit::Within { amount, timespan }) => if c.last_restart + timespan > now {
            (c.count < amount, c.count + 1)
        } else {
            (true, 1)
        },
    }
}

/// The wait before a restart, given the number of earlier restarts.
pub open spec fn backoff_delay(backoff: Option<Backoff>, count: u32) -> int {
    match backoff {
        None => 0,
        Some(Backoff::Static(d)) => d as int,
        Some(Backoff::Incremental { steps, max }) => {
            let grown = steps * count;
            if max <= grown {
                max as int
            } else {
                grown
            }
        },
    }
}

/// The inputs on which counting a restart does not overflow: the count can grow,
/// the end of the time span is an instant, and a grown backoff is a duration.
pub open spec fn counting_fits(c: RestartCount, max: Option<Limit>, backoff: Option<Backoff>, now: u128) -> bool {
    &&& c.count < u32::MAX
    &&& match max {
        Some(Limit::Within { timespan, .. }) => c.last_restart + timespan <= u128::MAX,
        _ => true,
    }
    &&& (restart_gate(c, max, now).0 ==> match backoff {
        Some(Backoff::Incremental { steps, .. }) => steps * c.count <= DURATION_MAX_NANOS,
        _ => true,
    })
}

impl RestartCount {
    /// No restarts yet; the clock starts at `now`.
    pub fn starting_at(now: u128) -> (r: Self)
        ensures
            r.count == 0,
            r.last_restart == now,
    {
        RestartCount { count: 0, last_restart: now }
    }

    /// Whether [`RestartCount::get_backoff_duration`] can run on these inputs.
    pub fn counting_fits(&self, max: Option<Limit>, backoff: Option<Backoff>, now: u128) -> (r: bool)
        ensures
            r == counting_fits(*self, max, backoff, now),
    {
        if self.count == u32::MAX {
            return false;
        }
        let mut gate = true;
        if let Some(Limit::Within { amount, timespan }) = max {
            if self.last_restart > u128::MAX - timespan {
                return false;
            }
            if self.last_restart + timespan > now {
                gate = self.count < amount;
            }
        }
        if let Some(Limit::Amount(m)) = max {
            gate = self.count < m;
        }
        if let Some(Backoff::Incremental { steps, .. }) = backoff {
            if gate {
                let c = self.count as u128;
                match steps.checked_mul(c) {
                    None => {
                        return false;
                    },
                    Some(p) => {
                        if p > DURATION_MAX_NANOS {
                            return false;
                        }
                    },
                }
            }
        }
        true
    }

    /// Counts a restart if the limit allows one, and returns the wait before it;
    /// `None` means that the limit is reached and the process stays down.
    pub fn get_backoff_duration(&mut self, max: Option<Limit>, backoff: Option<Backoff>, now: u128) -> (r: Option<u128>)
        requires
            counting_fits(*old(self), max, backoff, now),
        ensures
            restart_gate(*old(self), max, now).0 ==> {
                &&& r == Some(backoff_delay(backoff, old(self).count) as u128)
                &&& final(self).count == restart_gate(*old(self), max, now).1
                &&& final(self).last_restart == now
            },
            !restart_gate(*old(self), max, now).0 ==> r is None && *final(self) == *old(self),
    {
        let (should_restart, new_count) = match max {
            None => (true, self.count + 1),
            Some(Limit::Amount(m)) => (self.count < m, self.count + 1),
            Some(Limit::Within { amount, timespan }) => {
                if self.last_restart + timespan > now {
                    (self.count < amount, self.count + 1)
                } else {
                    (true, 1)
                }
            },
        };
        if should_restart {
            let dur: u128 = match backoff {
                None => 0,
                Some(Backoff::Static(dur)) => dur,
                Some(Backoff::Incremental { steps, max }) => {
                    let grown = steps * (self.count as u128);
                    if max <= grown {
                        max
                    } else {
                        grown
                    }
                },
            };
            self.count = new_count;
            self.last_restart = now;
            Some(dur)
        } else {
            None
        }
    }
}

/// With `Amount(m)`, exactly `m` restarts are allowed: counted restarts go on
/// while fewer than `m` happened, and the next failure is refused.
pub proof fn law_amount_allows_m_restarts(c: RestartCount, m: u32, now: u128)
    ensures
        restart_gate(c, Some(Limit::Amount(m)), now).0 <==> c.count < m,
        restart_gate(c, Some(Limit::Amount(m)), now).1 == c.count + 1,
{
}

/// With `Within { amount, timespan }`, a restart more than `timespan` after the
/// last one is always allowed and starts the count afresh.
pub proof fn law_within_resets_after_timespan(c: RestartCount, amount: u32, timespan: u128, now: u128)
    requires
        c.last_restart + timespan <= now,
    ensures
        restart_gate(c, Some(Limit::Within { amount, timespan }), now) == (true, 1int),
{
}

/// With `Within { amount, timespan }`, restarts close together are limited like
/// `Amount(amount)`.
pub proof fn law_within_limits_bursts(c: RestartCount, amount: u32, timespan: u128, now: u128)
    requires
        now < c.last_restart + timespan,
    ensures
        restart_gate(c, Some(Limit::Within { amount, timespan }), now) == restart_gate(c, Some(Limit::Amount(amount)), now),
{
}

/// Without a limit, every failure is restarted.
pub proof fn law_no_limit_always_restarts(c: RestartCount, now: u128)
    ensures
        restart_gate(c, None, now).0,
{
}

/// A static backoff waits the same duration before every restart, whatever the
/// count; without a backoff every restart happens at once; an incremental
/// backoff waits `steps` times the count until it reaches `max`.
pub proof fn law_backoff_delays(d: u128, steps: u128, max: u128, c1: u32, c2: u32)
    ensures
        backoff_delay(Some(Backoff::Static(d)), c1) == d,
        backoff_delay(Some(Backoff::Static(d)), c1) == backoff_delay(Some(Backoff::Static(d)), c2),
        backoff_delay(None, c1) == 0,
        steps * c1 <= max ==> backoff_delay(Some(Backoff::Incremental { steps, max }), c1) == steps * c1,
        steps * c1 >= max ==> backoff_delay(Some(Backoff::Incremental { steps, max }), c1) == max,
{
}

/// An incremental backoff never exceeds its `max` and never shrinks as restarts add up.
pub proof fn law_incremental_backoff(steps: u128, max: u128, c1: u32, c2: u32)
    requires
        c1 <= c2,
    ensures
        backoff_delay(Some(Backoff::Incremental { steps, max }), c1) <= max,
        backoff_delay(Some(Backoff::Incremental { steps, max }), c1) <= backoff_delay(
            Some(Backoff::Incremental { steps, max }),
            c2,
        ),
{
    assert(steps * c1 <= steps * c2) by (nonlinear_arith)
        requires
            c1 <= c2,
            steps >= 0,
    ;
}

} // verus!
