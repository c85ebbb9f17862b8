//! A trigger that fires in one minute of the day, and not again until a
//! cooldown has passed.

use crate::clock::Moment;
use vstd::prelude::*;

verus! {

/// The last-fire value of a trigger that has never fired: the earliest
/// instant there is.
pub const NEVER_FIRED: i64 = i64::MIN;

/// Whether a trigger for the minute `target_hour`:`target_minute` fires at
/// `now`: the clock shows that minute, and more than `cooldown_millis`
/// milliseconds have passed since `last_fire_millis`.
pub open spec fn spec_should_fire(
    now: &Moment,
    last_fire_millis: i64,
    target_hour: u32,
    target_minute: u32,
    cooldown_millis: u64,
) -> bool {
    &&& now.in_minute(target_hour, target_minute)
    &&& now.stamp_millis - last_fire_millis > cooldown_millis
}

/// Decides whether a trigger for the minute `target_hour`:`target_minute`
/// fires at `now`.
pub fn should_fire(
    now: &Moment,
    last_fire_millis: i64,
    target_hour: u32,
    target_minute: u32,
    cooldown_millis: u64,
) -> (fire: bool)
    ensures
        fire == spec_should_fire(now, last_fire_millis, target_hour, target_minute, cooldown_millis),
{
    let elapsed: i128 = (now.stamp_millis as i128) - (last_fire_millis as i128);
    now.is_in_minute(target_hour, target_minute) && elapsed > (cooldown_millis as i128)
}

/// The state of one cooldown-gated daily trigger.
#[derive(Clone, Copy, Debug, PartialEq, Eq, Structural)]
pub struct DailyTrigger {
    pub target_hour: u32,
    pub target_minute: u32,
    pub cooldown_millis: u64,
    pub last_fire_millis: i64,
}

impl DailyTrigger {
    /// Whether the trigger fires at `now`.
    pub open spec fn fires_at(&self, now: &Moment) -> bool {
        spec_should_fire(
            now,
            self.last_fire_millis,
            self.target_hour,
            self.target_minute,
            self.cooldown_millis,
        )
    }

    /// The trigger after it was asked at `now`: where it fires, `now` is its
    /// new last-fire time; otherwise it is unchanged.
    pub open spec fn after(&self, now: &Moment) -> DailyTrigger {
        if self.fires_at(now) {
            DailyTrigger { last_fire_millis: now.stamp_millis, ..*self }
        } else {
            *self
        }
    }

    /// How often the trigger fires when it is asked at each of `ticks` in
    /// turn.
    pub open spec fn fire_count(&self, ticks: Seq<Moment>) -> nat
        decreases ticks.len(),
    {
        if ticks.len() == 0 {
            0
        } else {
            let fired: nat = if self.fires_at(&ticks[0]) {
                1
            } else {
                0
            };
            fired + self.after(&ticks[0]).fire_count(ticks.drop_first())
        }
    }

    /// A trigger for the minute `target_hour`:`target_minute` that has never
    /// fired.
    pub fn new(target_hour: u32, target_minute: u32, cooldown_millis: u64) -> (trigger:
        DailyTrigger)
        ensures
            trigger == (DailyTrigger {
                target_hour,
                target_minute,
                cooldown_millis,
                last_fire_millis: NEVER_FIRED,
            }),
    {
        DailyTrigger { target_hour, target_minute, cooldown_millis, last_fire_millis: NEVER_FIRED }
    }

    /// Asks the trigger at `now`. Where it fires, its last-fire time is
    /// `now` from this call on, so the caller dispatches the action with the
    /// trigger already updated.
    pub fn poll(&mut self, now: &Moment) -> (fire: bool)
        ensures
            fire == old(self).fires_at(now),
            *final(self) == old(self).after(now),
    {
        let fire = should_fire(
            now,
            self.last_fire_millis,
            self.target_hour,
            self.target_minute,
            self.cooldown_millis,
        );
        if fire {
            self.last_fire_millis = now.stamp_millis;
        }
        fire
    }
}

/// A trigger that has never fired fires at the first tick inside its minute:
/// no instant at or after the epoch is within a cooldown of the earliest
/// instant, as long as the cooldown itself fits in a timestamp.
pub proof fn lemma_first_match_fires(trigger: DailyTrigger, now: Moment)
    requires
        trigger.last_fire_millis == NEVER_FIRED,
        trigger.cooldown_millis <= i64::MAX,
        now.stamp_millis >= 0,
    ensures
        trigger.fires_at(&now) == now.in_minute(trigger.target_hour, trigger.target_minute),
{
}

/// A trigger whose last fire lies in a stretch of time no longer than its
/// cooldown does not fire at any tick of that stretch.
pub proof fn lemma_no_fire_within_cooldown(trigger: DailyTrigger, ticks: Seq<Moment>, start: int)
    requires
        start <= trigger.last_fire_millis <= start + trigger.cooldown_millis,
        forall|i: int|
            0 <= i < ticks.len() ==> start <= (#[trigger] ticks[i]).stamp_millis <= start
                + trigger.cooldown_millis,
    ensures
        trigger.fire_count(ticks) == 0,
    decreases ticks.len(),
{
    if ticks.len() > 0 {
        assert(!trigger.fires_at(&ticks[0]));
        let rest = ticks.drop_first();
        assert forall|i: int| 0 <= i < rest.len() implies start <= (#[trigger] rest[i]).stamp_millis
            <= start + trigger.cooldown_millis by {
            assert(rest[i] == ticks[i + 1]);
        }
        lemma_no_fire_within_cooldown(trigger, rest, start);
    }
}

/// A trigger fires at most once among ticks that all lie in one stretch of
/// time no longer than its cooldown. One occurrence of the target minute is
/// such a stretch whenever the cooldown is at least as long as the minute
/// stays on the clock.
pub proof fn lemma_fires_at_most_once_per_window(
    trigger: DailyTrigger,
    ticks: Seq<Moment>,
    start: int,
)
    requires
        forall|i: int|
            0 <= i < ticks.len() ==> start <= (#[trigger] ticks[i]).stamp_millis <= start
                + trigger.cooldown_millis,
    ensures
        trigger.fire_count(ticks) <= 1,
    decreases ticks.len(),
{
    if ticks.len() > 0 {
        let rest = ticks.drop_first();
        assert forall|i: int| 0 <= i < rest.len() implies start <= (#[trigger] rest[i]).stamp_millis
            <= start + trigger.cooldown_millis by {
            assert(rest[i] == ticks[i + 1]);
        }
        let next = trigger.after(&ticks[0]);
        if trigger.fires_at(&ticks[0]) {
            lemma_no_fire_within_cooldown(next, rest, start);
        } else {
            lemma_fires_at_most_once_per_window(next, rest, start);
        }
    }
}

} // verus!
