//! Deadlines for searches that think against the clock.

use vstd::prelude::*;
use std::time::{Duration, Instant};

verus! {

#[verifier::external_type_specification]
#[verifier::external_body]
pub struct ExInstant(std::time::Instant);

/// The duration of a number of whole seconds.
pub uninterp spec fn whole_seconds(n: u64) -> Duration;

/// The instant a duration after another one, or `None` where it cannot be
/// represented.
pub uninterp spec fn instant_after(t: Instant, d: Duration) -> Option<Instant>;

/// A duration of whole seconds (`Duration::from_secs`).
#[verifier::external_body]
fn seconds(n: u64) -> (r: Duration)
    ensures
        r == whole_seconds(n),
{
    Duration::from_secs(n)
}

/// The current time (`Instant::now`). What it returns depends on the clock.
#[verifier::external_body]
fn now() -> Instant {
    Instant::now()
}

/// The instant a duration after another one, or `None` where it cannot be
/// represented (`Instant::checked_add`).
#[verifier::external_body]
fn checked_after(t: Instant, d: Duration) -> (r: Option<Instant>)
    ensures
        r == instant_after(t, d),
{
    t.checked_add(d)
}

/// Whether an instant is at or after another one (`>=` on `Instant`).
#[verifier::external_body]
fn at_or_after(a: &Instant, b: &Instant) -> bool {
    *a >= *b
}

/// The time budget of a search: the one given, five seconds when none is.
pub open spec fn budget_of(time_budget: Option<Duration>) -> Duration {
    match time_budget {
        Some(b) => b,
        None => whole_seconds(5),
    }
}

/// A deadline; `None` stands for one too far away to represent, which never passes.
pub struct Deadline {
    pub at: Option<Instant>,
}

impl Deadline {
    /// The deadline for a time budget, five seconds when none is given: the
    /// budget after the current time (which instant that is, the clock decides).
    pub fn from_budget(time_budget: Option<Duration>) -> (r: Deadline)
        ensures
            exists|t: Instant| r.at == #[trigger] instant_after(t, budget_of(time_budget)),
    {
        let budget = match time_budget {
            Some(b) => b,
            None => seconds(5),
        };
        let start = now();
        let r = Deadline { at: checked_after(start, budget) };
        assert(r.at == instant_after(start, budget_of(time_budget)));
        r
    }

    /// Whether the deadline has passed; one too far away to represent never has.
    pub fn expired(&self) -> (r: bool)
        ensures
            self.at is None ==> !r,
    {
        match &self.at {
            Some(t) => {
                let current = now();
                at_or_after(&current, t)
            },
            None => false,
        }
    }
}

} // verus!
