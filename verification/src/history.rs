//! The append-only log of what a scheduler has executed.

use crate::clock::Moment;
use vstd::prelude::*;

verus! {

/// Whether `copy` holds, position by position, a duplicate of what `orig`
/// holds.
pub open spec fn copies_of<R: Clone>(orig: Seq<R>, copy: Seq<R>) -> bool {
    &&& orig.len() == copy.len()
    &&& forall|i: int| 0 <= i < orig.len() ==> cloned::<R>(#[trigger] orig[i], copy[i])
}

/// Two parallel sequences, in insertion order: when each execution was
/// recorded, and what it produced.
pub struct History<R> {
    runtime: Vec<Moment>,
    results: Vec<R>,
}

impl<R> History<R> {
    /// The instants of the recorded executions, oldest first.
    pub closed spec fn timestamps(&self) -> Seq<Moment> {
        self.runtime@
    }

    /// The results of the recorded executions, oldest first.
    pub closed spec fn results(&self) -> Seq<R> {
        self.results@
    }

    /// Every execution has both its instant and its result.
    pub open spec fn wf(&self) -> bool {
        self.timestamps().len() == self.results().len()
    }

    /// Whether this history is `earlier` with records added at its end:
    /// nothing that `earlier` holds was removed, changed or moved.
    pub open spec fn extends(&self, earlier: &History<R>) -> bool {
        &&& earlier.timestamps().is_prefix_of(self.timestamps())
        &&& earlier.results().is_prefix_of(self.results())
    }

    /// The history of a scheduler that has executed nothing.
    pub fn new() -> (history: History<R>)
        ensures
            history.timestamps() == Seq::<Moment>::empty(),
            history.results() == Seq::<R>::empty(),
            history.wf(),
    {
        History { runtime: Vec::new(), results: Vec::new() }
    }

    /// The number of recorded executions.
    pub fn len(&self) -> (n: usize)
        ensures
            n == self.results().len(),
            self.wf() ==> n == self.timestamps().len(),
    {
        self.results.len()
    }

    /// The instant of the record with the given index, counted from zero;
    /// nothing where there is no such record.
    pub fn timestamp(&self, index: usize) -> (at: Option<Moment>)
        ensures
            index < self.timestamps().len() ==> at == Some(self.timestamps()[index as int]),
            index >= self.timestamps().len() ==> at.is_none(),
    {
        if index < self.runtime.len() {
            Some(self.runtime[index])
        } else {
            None
        }
    }

    /// Adds one record at the end.
    pub fn append(&mut self, now: Moment, result: R)
        requires
            old(self).wf(),
        ensures
            final(self).timestamps() == old(self).timestamps().push(now),
            final(self).results() == old(self).results().push(result),
            final(self).wf(),
            final(self).extends(old(self)),
    {
        self.runtime.push(now);
        self.results.push(result);
    }
}

impl<R: Clone> History<R> {
    /// A duplicate of every recorded result, oldest first.
    pub fn duplicate_results(&self) -> (copy: Vec<R>)
        ensures
            copies_of(self.results(), copy@),
    {
        self.results.clone()
    }
}

} // verus!
