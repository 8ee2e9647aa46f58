//! Execution contexts: the environment of one evaluation.
//!
//! A [`Context`] holds one record. A [`BatchContext`] holds a batch of them,
//! with one outcome slot per record: slot `i` belongs to record `i`, and
//! neither the number nor the order of the slots ever changes.

use vstd::prelude::*;
use crate::expression::error::{resolved_view, resolved_views, Resolved, ResolvedView};
use crate::value::{Value, ValueView};

verus! {

/// The environment in which an expression is evaluated against one record.
#[derive(Debug, PartialEq, Eq)]
pub struct Context {
    record: Value,
}

/// The model of a [`Context`].
pub struct ContextView {
    pub record: ValueView,
}

impl View for Context {
    type V = ContextView;

    closed spec fn view(&self) -> ContextView {
        ContextView { record: self.record@ }
    }
}

impl Context {
    /// The context of `record`.
    pub fn new(record: Value) -> (ctx: Context)
        ensures
            ctx@.record == record@,
    {
        Context { record }
    }

    /// The record under transformation.
    pub fn record(&self) -> (record: &Value)
        ensures
            record@ == self@.record,
    {
        &self.record
    }

    /// The record, when evaluation is over.
    pub fn into_record(self) -> (record: Value)
        ensures
            record@ == self@.record,
    {
        self.record
    }
}

/// The environment in which an expression is evaluated against a batch of
/// records at once.
#[derive(Debug, PartialEq, Eq)]
pub struct BatchContext {
    records: Vec<Value>,
    resolved: Vec<Resolved>,
}

/// The model of a [`BatchContext`]: the records, and the outcome that each
/// slot holds.
pub struct BatchContextView {
    pub records: Seq<ValueView>,
    pub resolved: Seq<ResolvedView>,
}

impl BatchContextView {
    /// The model after slot `index` was overwritten with `outcome`.
    pub open spec fn with_slot(self, index: int, outcome: ResolvedView) -> BatchContextView {
        BatchContextView { records: self.records, resolved: self.resolved.update(index, outcome) }
    }
}

/// The models of a sequence of records.
pub open spec fn record_views(records: Seq<Value>) -> Seq<ValueView> {
    records.map_values(|record: Value| record@)
}

/// The outcome that a slot holds before anything was evaluated, and while
/// its outcome is taken out.
pub open spec fn placeholder() -> ResolvedView {
    Ok(ValueView::Null)
}

impl View for BatchContext {
    type V = BatchContextView;

    closed spec fn view(&self) -> BatchContextView {
        BatchContextView {
            records: record_views(self.records@),
            resolved: resolved_views(self.resolved@),
        }
    }
}

impl BatchContext {
    #[verifier::type_invariant]
    spec fn one_slot_per_record(self) -> bool {
        self.records@.len() == self.resolved@.len()
    }

    /// The context of a batch of records. Each slot starts with the
    /// placeholder.
    pub fn new(records: Vec<Value>) -> (ctx: BatchContext)
        ensures
            ctx@.records == record_views(records@),
            ctx@.resolved == Seq::new(records@.len(), |i: int| placeholder()),
    {
        let mut resolved: Vec<Resolved> = Vec::new();
        let mut i: usize = 0;
        while i < records.len()
            invariant
                i <= records.len(),
                resolved@.len() == i,
                forall|j: int| 0 <= j < i ==> resolved_view(#[trigger] resolved@[j]) == placeholder(),
            decreases records.len() - i,
        {
            resolved.push(Ok(Value::Null));
            i = i + 1;
        }
        assert(resolved_views(resolved@) =~= Seq::new(records@.len(), |i: int| placeholder()));
        BatchContext { records, resolved }
    }

    /// The number of records, which is the number of slots.
    pub fn len(&self) -> (len: usize)
        ensures
            len == self@.records.len(),
            len == self@.resolved.len(),
    {
        proof {
            use_type_invariant(self);
        }
        self.records.len()
    }

    /// Whether the batch holds no record.
    pub fn is_empty(&self) -> (empty: bool)
        ensures
            empty == (self@.records.len() == 0),
            empty == (self@.resolved.len() == 0),
    {
        self.len() == 0
    }

    /// Record `index`.
    pub fn record(&self, index: usize) -> (record: &Value)
        requires
            index < self@.records.len(),
        ensures
            record@ == self@.records[index as int],
    {
        &self.records[index]
    }

    /// The outcome in slot `index`.
    pub fn resolved(&self, index: usize) -> (outcome: &Resolved)
        requires
            index < self@.resolved.len(),
        ensures
            resolved_view(*outcome) == self@.resolved[index as int],
    {
        &self.resolved[index]
    }

    /// Takes the outcome out of slot `index` and leaves the placeholder in
    /// it, until [`BatchContext::put`] writes the slot again.
    pub fn take(&mut self, index: usize) -> (outcome: Resolved)
        requires
            index < old(self)@.resolved.len(),
        ensures
            resolved_view(outcome) == old(self)@.resolved[index as int],
            final(self)@ == old(self)@.with_slot(index as int, placeholder()),
    {
        proof {
            use_type_invariant(&*self);
        }
        let mut outcome: Resolved = Ok(Value::Null);
        core::mem::swap(&mut self.resolved[index], &mut outcome);
        assert(resolved_views(self.resolved@) =~= resolved_views(old(self).resolved@).update(
            index as int,
            placeholder(),
        ));
        outcome
    }

    /// Writes `outcome` to slot `index`.
    pub fn put(&mut self, index: usize, outcome: Resolved)
        requires
            index < old(self)@.resolved.len(),
        ensures
            final(self)@ == old(self)@.with_slot(index as int, resolved_view(outcome)),
    {
        proof {
            use_type_invariant(&*self);
        }
        self.resolved[index] = outcome;
        assert(resolved_views(self.resolved@) =~= resolved_views(old(self).resolved@).update(
            index as int,
            resolved_view(outcome),
        ));
    }

    /// The outcomes, one per record and in the order of the records, when
    /// evaluation is over.
    pub fn into_resolved(self) -> (resolved: Vec<Resolved>)
        ensures
            resolved_views(resolved@) == self@.resolved,
    {
        self.resolved
    }
}

} // verus!
