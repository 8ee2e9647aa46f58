//! Expressions and the contract that every kind of them meets.
//!
//! A tree is built once, through the constructors of its nodes, which reject
//! what the static rules forbid. A built tree is immutable. It can be asked
//! for its type, evaluated against one record ([`Expr::resolve`]) or against
//! a batch of records ([`Expr::resolve_batch`]). What an expression means is
//! given by [`ExprView::eval`]; both ways of evaluating are specified by it,
//! so they agree.

pub mod abort;
pub mod error;

use vstd::prelude::*;
use vstd::string::StringExecFns;
use crate::context::{BatchContext, BatchContextView, Context, ContextView};
use crate::expression::abort::{Abort, AbortView};
use crate::expression::error::{resolved_view, Resolved, ResolvedView};
use crate::kind::{only, Shape};
use crate::state::{ExternalEnv, ExternalEnvView};
use crate::type_def::{TypeDef, TypeDefView};
use crate::value::{Value, ValueView};

verus! {

/// An expression: one variant per kind of construct.
#[derive(Debug, PartialEq, Eq)]
pub enum Expr {
    /// A constant.
    Literal(Value),
    /// The expression that does nothing and yields null.
    Noop,
    /// The record under transformation.
    Record,
    /// The intended end of evaluation.
    Abort(Abort),
}

/// The model of an [`Expr`].
pub enum ExprView {
    Literal(ValueView),
    Noop,
    Record,
    Abort(AbortView),
}

impl Expr {
    /// The model of the expression.
    pub open spec fn model(&self) -> ExprView
        decreases self,
    {
        match self {
            Expr::Literal(value) => ExprView::Literal(value@),
            Expr::Noop => ExprView::Noop,
            Expr::Record => ExprView::Record,
            Expr::Abort(abort) => ExprView::Abort(abort.model()),
        }
    }
}

impl Clone for Expr {
    fn clone(&self) -> (copy: Expr)
        ensures
            copy@ == self@,
        decreases self,
    {
        match self {
            Expr::Literal(value) => Expr::Literal(value.clone()),
            Expr::Noop => Expr::Noop,
            Expr::Record => Expr::Record,
            Expr::Abort(abort) => Expr::Abort(abort.clone()),
        }
    }
}

impl View for Expr {
    type V = ExprView;

    open spec fn view(&self) -> ExprView {
        self.model()
    }
}

impl ExprView {
    /// The static type of the expression in the environment `env`.
    pub open spec fn type_def(self, env: ExternalEnvView) -> TypeDefView {
        match self {
            ExprView::Literal(value) => TypeDefView::exact(value.shape()),
            ExprView::Noop => TypeDefView::exact(Shape::Null),
            ExprView::Record => env.record,
            ExprView::Abort(abort) => abort.type_def(env),
        }
    }

    /// The outcome of evaluating the expression in the context `ctx`.
    pub open spec fn eval(self, ctx: ContextView) -> ResolvedView
        decreases self,
    {
        match self {
            ExprView::Literal(value) => Ok(value),
            ExprView::Noop => Ok(ValueView::Null),
            ExprView::Record => Ok(ctx.record),
            ExprView::Abort(abort) => abort.eval(ctx),
        }
    }

    /// The source text of the expression.
    pub open spec fn text(self) -> Seq<char> {
        match self {
            ExprView::Literal(value) => value.text(),
            ExprView::Noop => "null"@,
            ExprView::Record => "."@,
            ExprView::Abort(_) => "abort"@,
        }
    }

    /// The outcomes of evaluating the expression against each of `records`:
    /// slot `i` holds what [`ExprView::eval`] gives for record `i`.
    pub open spec fn eval_batch(self, records: Seq<ValueView>) -> Seq<ResolvedView> {
        Seq::new(records.len(), |i: int| self.eval(ContextView { record: records[i] }))
    }

    /// The batch after the expression was evaluated against it: the same
    /// records, and in each slot the outcome for its record.
    pub open spec fn after_batch(self, batch: BatchContextView) -> BatchContextView {
        BatchContextView { records: batch.records, resolved: self.eval_batch(batch.records) }
    }
}

impl Expr {
    /// The static type of the expression.
    pub fn type_def(&self, state: &ExternalEnv) -> (def: TypeDef)
        ensures
            def@ == self@.type_def(state@),
    {
        match self {
            Expr::Literal(value) => TypeDef::exact(value.shape()),
            Expr::Noop => TypeDef::null(),
            Expr::Record => state.record(),
            Expr::Abort(abort) => abort.type_def(state),
        }
    }

    /// The source text of the expression, for messages to the user.
    pub fn display(&self) -> (text: String)
        ensures
            text@ == self@.text(),
    {
        match self {
            Expr::Literal(value) => value.display(),
            Expr::Noop => String::from_str("null"),
            Expr::Record => String::from_str("."),
            Expr::Abort(abort) => abort.display(),
        }
    }

    /// Evaluates an expression without children against `record`.
    fn resolve_leaf(&self, record: &Value) -> (resolved: Resolved)
        requires
            !(self is Abort),
        ensures
            resolved_view(resolved) == self@.eval(ContextView { record: record@ }),
    {
        match self {
            Expr::Literal(value) => Ok(value.clone()),
            Expr::Record => Ok(record.clone()),
            _ => Ok(Value::Null),
        }
    }

    /// Evaluates the expression against the record of `ctx`.
    pub fn resolve(&self, ctx: &mut Context) -> (resolved: Resolved)
        ensures
            resolved_view(resolved) == self@.eval(old(ctx)@),
            final(ctx)@ == old(ctx)@,
        decreases self,
    {
        match self {
            Expr::Abort(abort) => abort.resolve(ctx),
            _ => self.resolve_leaf(ctx.record()),
        }
    }

    /// Evaluates the expression against every record of the batch, and
    /// leaves in each slot the outcome for its record.
    pub fn resolve_batch(&self, ctx: &mut BatchContext)
        ensures
            final(ctx)@ == self@.after_batch(old(ctx)@),
        decreases self,
    {
        match self {
            Expr::Abort(abort) => {
                abort.resolve_batch(ctx);
                assert(self@.eval_batch(old(ctx)@.records) =~= abort@.eval_batch(
                    old(ctx)@.records,
                ));
            },
            _ => {
                let len: usize = ctx.len();
                let mut i: usize = 0;
                while i < len
                    invariant
                        i <= len,
                        len == old(ctx)@.records.len(),
                        !(self is Abort),
                        ctx@.records == old(ctx)@.records,
                        ctx@.resolved.len() == len,
                        forall|j: int|
                            0 <= j < i ==> #[trigger] ctx@.resolved[j] == self@.eval(
                                ContextView { record: ctx@.records[j] },
                            ),
                    decreases len - i,
                {
                    let outcome = self.resolve_leaf(ctx.record(i));
                    ctx.put(i, outcome);
                    i = i + 1;
                }
                assert(ctx@.resolved =~= self@.eval_batch(old(ctx)@.records));
            },
        }
    }
}

/// Batch evaluation agrees with evaluation of one record at a time: a batch
/// gives one outcome per record, and the outcome in slot `i` is what
/// evaluating against record `i` alone gives.
pub proof fn lemma_batch_agrees_with_scalar(expr: ExprView, records: Seq<ValueView>, i: int)
    requires
        0 <= i < records.len(),
    ensures
        expr.eval_batch(records).len() == records.len(),
        expr.eval_batch(records)[i] == expr.eval(ContextView { record: records[i] }),
{
}

/// Evaluating again gives the same: the outcome is a function of the
/// expression and of what the context holds, so contexts that hold the same
/// give the same outcome.
pub proof fn lemma_resolve_is_repeatable(expr: ExprView, first: ContextView, second: ContextView)
    requires
        first.record == second.record,
    ensures
        expr.eval(first) == expr.eval(second),
{
}

/// Evaluating a batch again changes nothing: a second run over the batch
/// that a first run has left gives that batch again. What the slots hold
/// before a run does not matter to it, so two batches of the same records
/// come out the same.
pub proof fn lemma_resolve_batch_is_repeatable(
    expr: ExprView,
    first: BatchContextView,
    second: BatchContextView,
)
    ensures
        expr.after_batch(expr.after_batch(first)) == expr.after_batch(first),
        first.records == second.records ==> expr.after_batch(first) == expr.after_batch(second),
        expr.after_batch(first).resolved.len() == first.records.len(),
{
}

/// Evaluation respects the static type. Against a record that has a shape
/// that the environment declares, an expression either yields a value of a
/// shape that its type admits, or it is an abort and ends in the abort
/// outcome. So an expression of type "never" yields no value, and no
/// expression here fails in any other way.
pub proof fn lemma_eval_respects_type(expr: ExprView, env: ExternalEnvView, ctx: ContextView)
    requires
        env.record.kind.contains(ctx.record.shape()),
    ensures
        match expr.eval(ctx) {
            Ok(value) => expr.type_def(env).kind.contains(value.shape()),
            Err(error) => expr is Abort && error is Abort,
        },
{
    match expr {
        ExprView::Literal(value) => {
        },
        ExprView::Noop => {
        },
        ExprView::Record => {},
        ExprView::Abort(_) => {},
    }
}

} // verus!
