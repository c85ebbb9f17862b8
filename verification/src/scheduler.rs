//! The scheduler: one plan, one history, and the decisions of the loop that
//! drives them.

use crate::clock::{local_now, Moment};
use crate::history::{copies_of, History};
use crate::plan::Plan;
use vstd::prelude::*;

verus! {

/// What the driver of a scheduler does next.
///
/// Between two calls of the library the driver is waiting for a tick
/// (`AwaitTick`), executing the action (`Dispatch`) or done (`Return`). It
/// starts out waiting for a tick. A tick is evaluated by
/// [`Scheduler::on_tick`], which answers `AwaitTick` or `Dispatch`; a
/// completed execution is recorded by [`Scheduler::on_completion`], which
/// answers `AwaitTick` or `Return`. So a run ends only after an execution,
/// and only by the plan's count.
#[derive(Debug)]
pub enum Command<R> {
    /// Wait for the next tick and report it.
    AwaitTick,
    /// Invoke the action and report its result.
    Dispatch,
    /// The run is over; these are its results, in call order.
    Return(Vec<R>),
}

/// A plan together with the history of its executions.
///
/// The history is private, which hides the whole struct from verified code
/// of other modules: there the plan is read with [`Scheduler::plan`] and
/// replaced with [`Scheduler::set_plan`], and contracts speak of it as
/// `spec_plan()`.
pub struct Scheduler<R> {
    pub plan: Plan,
    history: History<R>,
}

impl<R> Scheduler<R> {
    /// The instants of the recorded executions, oldest first.
    pub closed spec fn timestamps(&self) -> Seq<Moment> {
        self.history.timestamps()
    }

    /// The results of the recorded executions, oldest first.
    pub closed spec fn results(&self) -> Seq<R> {
        self.history.results()
    }

    /// The plan that the scheduler holds in its field `plan`.
    pub closed spec fn spec_plan(&self) -> Plan {
        self.plan
    }

    /// Every execution has both its instant and its result.
    pub open spec fn wf(&self) -> bool {
        self.timestamps().len() == self.results().len()
    }

    /// Whether the run is over: a bound is set and the number of recorded
    /// executions equals it.
    pub open spec fn spec_finished(&self) -> bool {
        self.spec_plan().spec_reached(self.results().len())
    }

    /// Whether this scheduler has the history of `earlier` with records
    /// added at its end.
    pub open spec fn extends(&self, earlier: &Scheduler<R>) -> bool {
        &&& earlier.timestamps().is_prefix_of(self.timestamps())
        &&& earlier.results().is_prefix_of(self.results())
    }

    /// A scheduler for `plan` that has executed nothing.
    pub fn new(plan: Plan) -> (scheduler: Scheduler<R>)
        ensures
            scheduler.spec_plan() == plan,
            scheduler.timestamps() == Seq::<Moment>::empty(),
            scheduler.results() == Seq::<R>::empty(),
            scheduler.wf(),
    {
        Scheduler { plan, history: History::new() }
    }

    /// The plan in force.
    pub fn plan(&self) -> (plan: Plan)
        ensures
            plan == self.spec_plan(),
    {
        self.plan
    }

    /// Replaces the plan and leaves the history as it is.
    pub fn set_plan(&mut self, plan: Plan)
        ensures
            final(self).spec_plan() == plan,
            final(self).timestamps() == old(self).timestamps(),
            final(self).results() == old(self).results(),
    {
        self.plan = plan;
    }

    /// The number of recorded executions.
    pub fn executed(&self) -> (n: usize)
        ensures
            n == self.results().len(),
            self.wf() ==> n == self.timestamps().len(),
    {
        self.history.len()
    }

    /// The instant at which the execution with the given index, counted
    /// from zero, was recorded; nothing where there is no such execution.
    pub fn recorded_at(&self, index: usize) -> (at: Option<Moment>)
        ensures
            index < self.timestamps().len() ==> at == Some(self.timestamps()[index as int]),
            index >= self.timestamps().len() ==> at.is_none(),
    {
        self.history.timestamp(index)
    }

    /// Tells whether the run is over.
    pub fn finished(&self) -> (done: bool)
        ensures
            done == self.spec_finished(),
    {
        self.plan.reached(self.history.len())
    }

    /// Decides whether a tick at `now` is passed over.
    pub fn skip_at(&self, now: &Moment) -> (skip: bool)
        ensures
            skip == self.spec_plan().spec_skips(now),
    {
        self.plan.skips(now)
    }

    /// Decides whether the tick that is happening now, by the local clock,
    /// is passed over. A plan without a target never skips; with a target
    /// the answer is that of [`Scheduler::skip_at`] for the instant read.
    pub fn skip(&self) -> (skip: bool)
        ensures
            self.spec_plan().date_time.is_none() ==> !skip,
            exists|now: Moment| now.wf() && skip == #[trigger] self.spec_plan().spec_skips(&now),
    {
        let now = local_now();
        self.skip_at(&now)
    }

    /// The decision on a tick at `now`: wait for the next one where the tick
    /// is skipped, dispatch the action otherwise.
    pub fn on_tick_at(&self, now: &Moment) -> (command: Command<R>)
        ensures
            self.spec_plan().spec_skips(now) ==> command is AwaitTick,
            !self.spec_plan().spec_skips(now) ==> command is Dispatch,
    {
        if self.skip_at(now) {
            Command::AwaitTick
        } else {
            Command::Dispatch
        }
    }

    /// The decision on the tick that is happening now, by the local clock.
    /// Nothing is ever returned but to wait or to dispatch, and a plan
    /// without a target always dispatches.
    pub fn on_tick(&self) -> (command: Command<R>)
        ensures
            command is AwaitTick || command is Dispatch,
            self.spec_plan().date_time.is_none() ==> command is Dispatch,
            exists|now: Moment|
                now.wf() && (command is AwaitTick) == #[trigger] self.spec_plan().spec_skips(&now),
    {
        let now = local_now();
        self.on_tick_at(&now)
    }
}

impl<R: Clone> Scheduler<R> {
    /// Whether this scheduler is `before` after one execution was recorded:
    /// the plan is the same, `now` was added at the end of the instants and
    /// a duplicate of `result` at the end of the results.
    pub open spec fn follows(&self, before: &Scheduler<R>, now: Moment, result: R) -> bool {
        &&& self.spec_plan() == before.spec_plan()
        &&& self.timestamps() == before.timestamps().push(now)
        &&& self.results().len() == before.results().len() + 1
        &&& self.results().drop_last() == before.results()
        &&& cloned::<R>(result, self.results().last())
    }

    /// A duplicate of every recorded result, oldest first.
    pub fn results_so_far(&self) -> (copy: Vec<R>)
        ensures
            copies_of(self.results(), copy@),
    {
        self.history.duplicate_results()
    }

    /// Records that the action completed at `now` with `result`: a duplicate
    /// of the result goes into the history, the result itself goes back to
    /// the caller.
    pub fn record(&mut self, now: Moment, result: R) -> (same: R)
        requires
            old(self).wf(),
        ensures
            same == result,
            final(self).follows(old(self), now, result),
            final(self).extends(old(self)),
            final(self).wf(),
    {
        let copy = result.clone();
        self.history.append(now, copy);
        proof {
            assert(self.results().drop_last() =~= old(self).results());
        }
        result
    }

    /// Records that the action has just completed with `result`, at the
    /// instant that the local clock shows.
    pub fn execute(&mut self, result: R) -> (same: R)
        requires
            old(self).wf(),
        ensures
            same == result,
            exists|now: Moment| now.wf() && #[trigger] final(self).follows(old(self), now, result),
            final(self).extends(old(self)),
            final(self).wf(),
    {
        let now = local_now();
        self.record(now, result)
    }

    /// The decision after the action completed at `now` with `result`: the
    /// execution is recorded; then the run is over where the bound is
    /// reached, and goes on with the next tick otherwise.
    pub fn on_completion_at(&mut self, now: Moment, result: R) -> (command: Command<R>)
        requires
            old(self).wf(),
        ensures
            final(self).follows(old(self), now, result),
            final(self).extends(old(self)),
            final(self).wf(),
            final(self).spec_finished() ==> command is Return && copies_of(
                final(self).results(),
                command->Return_0@,
            ),
            !final(self).spec_finished() ==> command is AwaitTick,
    {
        let _ = self.record(now, result);
        if self.finished() {
            Command::Return(self.results_so_far())
        } else {
            Command::AwaitTick
        }
    }

    /// The decision after the action has just completed with `result`, at
    /// the instant that the local clock shows.
    pub fn on_completion(&mut self, result: R) -> (command: Command<R>)
        requires
            old(self).wf(),
        ensures
            exists|now: Moment| now.wf() && #[trigger] final(self).follows(old(self), now, result),
            final(self).extends(old(self)),
            final(self).wf(),
            final(self).spec_finished() ==> command is Return && copies_of(
                final(self).results(),
                command->Return_0@,
            ),
            !final(self).spec_finished() ==> command is AwaitTick,
    {
        let now = local_now();
        self.on_completion_at(now, result)
    }
}

impl<R> Default for Scheduler<R> {
    fn default() -> (scheduler: Scheduler<R>)
        ensures
            scheduler.spec_plan().interval.is_none(),
            scheduler.spec_plan().date_time.is_none(),
            scheduler.spec_plan().count.is_none(),
            scheduler.timestamps() == Seq::<Moment>::empty(),
            scheduler.results() == Seq::<R>::empty(),
            scheduler.wf(),
    {
        Scheduler::new(Plan::new())
    }
}

/// Whether `states` are the states of one scheduler in the course of a run
/// that started with an empty history: `states[i + 1]` is `states[i]` after
/// the execution that completed at `nows[i]` with `outs[i]` was recorded.
pub open spec fn is_run<R: Clone>(
    states: Seq<Scheduler<R>>,
    nows: Seq<Moment>,
    outs: Seq<R>,
) -> bool {
    &&& nows.len() == outs.len()
    &&& states.len() == outs.len() + 1
    &&& states[0].results().len() == 0
    &&& forall|i: int|
        0 <= i < outs.len() ==> states[i + 1].follows(&states[i], #[trigger] nows[i], outs[i])
}

/// After `k` executions of a run the scheduler still has its plan, and its
/// history holds a duplicate of each of the first `k` results, in call
/// order, with the instants at which they were recorded.
pub proof fn lemma_run_history<R: Clone>(
    states: Seq<Scheduler<R>>,
    nows: Seq<Moment>,
    outs: Seq<R>,
    k: int,
)
    requires
        is_run(states, nows, outs),
        0 <= k <= outs.len(),
    ensures
        states[k].spec_plan() == states[0].spec_plan(),
        states[k].results().len() == k,
        copies_of(outs.take(k), states[k].results()),
        states[k].timestamps() == states[0].timestamps() + nows.take(k),
    decreases k,
{
    if k == 0 {
        assert(states[0].timestamps() =~= states[0].timestamps() + nows.take(0));
    } else {
        lemma_run_history(states, nows, outs, k - 1);
        let i = k - 1;
        assert(states[i + 1].follows(&states[i], nows[i], outs[i]));
        let now_results = states[k].results();
        let before_results = states[i].results();
        assert forall|j: int| 0 <= j < k implies cloned::<R>(
            #[trigger] outs.take(k)[j],
            now_results[j],
        ) by {
            if j < i {
                assert(now_results[j] == now_results.drop_last()[j]);
                assert(outs.take(k)[j] == outs.take(i)[j]);
            }
        }
        assert(states[k].timestamps() =~= states[0].timestamps() + nows.take(k));
    }
}

/// In the course of a run the history only grows at its end, and at every
/// point it holds as many instants as results: each later state of the
/// scheduler extends each earlier one.
pub proof fn lemma_run_is_append_only<R: Clone>(
    states: Seq<Scheduler<R>>,
    nows: Seq<Moment>,
    outs: Seq<R>,
    j: int,
    k: int,
)
    requires
        is_run(states, nows, outs),
        states[0].wf(),
        0 <= j <= k <= outs.len(),
    ensures
        states[k].wf(),
        states[k].extends(&states[j]),
    decreases k - j,
{
    lemma_run_history(states, nows, outs, k);
    if j < k {
        lemma_run_is_append_only(states, nows, outs, j, k - 1);
        let i = k - 1;
        assert(states[i + 1].follows(&states[i], nows[i], outs[i]));
        assert(states[i].results() == states[k].results().drop_last());
    }
}

/// A run with the bound `bound` and without a target skips no tick, and the
/// only state after an execution in which it is finished is the one after
/// `bound` executions. What is handed out then, a duplicate of the history's
/// results, has exactly `bound` elements, and its element `i` goes back to
/// the result of execution `i` by two duplications: one into the history,
/// one out of it.
pub proof fn lemma_bounded_run<R: Clone>(
    states: Seq<Scheduler<R>>,
    nows: Seq<Moment>,
    outs: Seq<R>,
    bound: usize,
    k: int,
    tick: Moment,
    returned: Seq<R>,
)
    requires
        is_run(states, nows, outs),
        states[0].spec_plan().count == Some(bound),
        states[0].spec_plan().date_time.is_none(),
        0 <= k <= outs.len(),
        copies_of(states[k].results(), returned),
    ensures
        !states[k].spec_plan().spec_skips(&tick),
        states[k].spec_finished() <==> k == bound,
        states[k].spec_finished() ==> returned.len() == bound,
        states[k].spec_finished() ==> forall|i: int|
            0 <= i < bound ==> cloned::<R>(outs[i], #[trigger] states[k].results()[i]) && cloned::<
                R,
            >(states[k].results()[i], returned[i]),
{
    lemma_run_history(states, nows, outs, k);
    assert forall|i: int| 0 <= i < k implies cloned::<R>(
        outs[i],
        #[trigger] states[k].results()[i],
    ) by {
        assert(outs.take(k)[i] == outs[i]);
    }
}

} // verus!
