//! Runtime outcomes: what evaluating an expression against one record gives.

use vstd::prelude::*;
use crate::span::Span;
use crate::value::{Value, ValueView};

verus! {

/// A runtime failure. Failures are reported once per record and are never
/// retried.
#[derive(Clone, Debug, PartialEq, Eq)]
#[allow(inconsistent_fields)]
pub enum ExpressionError {
    /// The program asked for evaluation of this record to end. This is an
    /// intended outcome, kept apart from every other failure.
    Abort { span: Span, message: Option<String> },
    /// Any other failure, with its description.
    Error { message: String },
}

/// The model of an [`ExpressionError`].
#[allow(inconsistent_fields)]
pub enum ExpressionErrorView {
    Abort { span: Span, message: Option<Seq<char>> },
    Error { message: Seq<char> },
}

impl View for ExpressionError {
    type V = ExpressionErrorView;

    open spec fn view(&self) -> ExpressionErrorView {
        match self {
            ExpressionError::Abort { span, message } => ExpressionErrorView::Abort {
                span: *span,
                message: match message {
                    Some(text) => Some(text@),
                    None => None,
                },
            },
            ExpressionError::Error { message } => ExpressionErrorView::Error {
                message: message@,
            },
        }
    }
}

/// The outcome of evaluating an expression against one record.
pub type Resolved = Result<Value, ExpressionError>;

/// The model of a [`Resolved`].
pub type ResolvedView = Result<ValueView, ExpressionErrorView>;

/// The model of an outcome.
pub open spec fn resolved_view(resolved: Resolved) -> ResolvedView {
    match resolved {
        Ok(value) => Ok(value@),
        Err(error) => Err(error@),
    }
}

/// The models of a sequence of outcomes.
pub open spec fn resolved_views(resolved: Seq<Resolved>) -> Seq<ResolvedView> {
    resolved.map_values(|outcome: Resolved| resolved_view(outcome))
}

impl ExpressionError {
    /// Whether this is the intended end of evaluation, not a fault.
    pub fn is_abort(&self) -> (abort: bool)
        ensures
            abort == (self@ is Abort),
    {
        match self {
            ExpressionError::Abort { .. } => true,
            ExpressionError::Error { .. } => false,
        }
    }
}

} // verus!
