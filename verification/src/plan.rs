//! The declarative trigger configuration and the decisions that depend on
//! it alone.

use crate::clock::{Moment, Period};
use vstd::prelude::*;

verus! {

/// The cadence, in milliseconds, of a plan that names no interval.
pub const DEFAULT_TICK_MILLIS: u64 = 1000;

/// What triggers the action and how often it may run.
///
/// `interval` is the time between two ticks. `date_time` is a target whose
/// time of day gates each tick; its date is carried but never compared.
/// `count` bounds the number of executions of one run.
#[derive(Clone, Copy, Debug)]
pub struct Plan {
    pub interval: Option<Period>,
    pub date_time: Option<Moment>,
    pub count: Option<usize>,
}

impl Plan {
    /// The time between two ticks: the configured interval, or one second
    /// where none is configured.
    pub open spec fn spec_tick_period(&self) -> Period {
        match self.interval {
            Some(period) => period,
            None => Period::spec_from_millis(DEFAULT_TICK_MILLIS),
        }
    }

    /// Whether a tick at `now` is passed over: only where a target is set
    /// and the time of day of `now` differs from the target's.
    pub open spec fn spec_skips(&self, now: &Moment) -> bool {
        match self.date_time {
            Some(target) => !now.same_time_of_day(&target),
            None => false,
        }
    }

    /// Whether `executed` executions complete the run: only where a bound is
    /// set and `executed` equals it.
    pub open spec fn spec_reached(&self, executed: nat) -> bool {
        match self.count {
            Some(bound) => bound == executed,
            None => false,
        }
    }

    /// The plan with nothing configured: it ticks once a second, skips no
    /// tick and never ends.
    pub fn new() -> (plan: Plan)
        ensures
            plan.interval.is_none(),
            plan.date_time.is_none(),
            plan.count.is_none(),
    {
        Plan { interval: None, date_time: None, count: None }
    }

    /// The time between two ticks.
    pub fn tick_period(&self) -> (period: Period)
        ensures
            period == self.spec_tick_period(),
            self.interval.is_some() ==> period == self.interval.unwrap(),
            self.interval.is_none() ==> period == (Period { secs: 1, nanos: 0 }),
    {
        match self.interval {
            Some(period) => period,
            None => Period::from_millis(DEFAULT_TICK_MILLIS),
        }
    }

    /// Decides whether a tick at `now` is passed over.
    pub fn skips(&self, now: &Moment) -> (skip: bool)
        ensures
            skip == self.spec_skips(now),
            self.date_time.is_none() ==> !skip,
            self.date_time.is_some() ==> (!skip <==> now.time_of_day()
                == self.date_time.unwrap().time_of_day()),
    {
        match &self.date_time {
            Some(target) => !now.matches_time_of_day(target),
            None => false,
        }
    }

    /// Decides whether `executed` executions complete the run.
    pub fn reached(&self, executed: usize) -> (done: bool)
        ensures
            done == self.spec_reached(executed as nat),
    {
        match self.count {
            Some(bound) => bound == executed,
            None => false,
        }
    }
}

impl Default for Plan {
    fn default() -> (plan: Plan)
        ensures
            plan.interval.is_none(),
            plan.date_time.is_none(),
            plan.count.is_none(),
    {
        Plan::new()
    }
}

/// The skip decision depends on the target's time of day alone: two plans
/// whose targets show the same hour, minute and second decide alike at every
/// instant, whatever dates the targets carry.
pub proof fn lemma_skip_ignores_target_date(a: Plan, b: Plan, now: Moment)
    requires
        a.date_time.is_some(),
        b.date_time.is_some(),
        a.date_time.unwrap().same_time_of_day(&b.date_time.unwrap()),
    ensures
        a.spec_skips(&now) == b.spec_skips(&now),
{
}

/// The skip decision depends on the time of day of the tick alone: two
/// instants that show the same hour, minute and second are treated alike.
pub proof fn lemma_skip_ignores_tick_date(plan: Plan, first: Moment, second: Moment)
    requires
        first.same_time_of_day(&second),
    ensures
        plan.spec_skips(&first) == plan.spec_skips(&second),
{
}

} // verus!
