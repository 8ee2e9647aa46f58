//! The abort expression: the intended end of evaluation for one record.
//!
//! An abort may carry a message expression. The message must be a string and
//! must not be able to fail; a tree that breaks either rule is rejected when
//! it is built. At runtime the message is best effort: where it cannot be
//! computed for a record, that record's abort carries no message. The inner
//! failure is then discarded, not reported; a host that wants to see it has
//! to evaluate the message expression itself.

use vstd::prelude::*;
use vstd::string::StringExecFns;
use crate::context::{BatchContext, BatchContextView, Context, ContextView};
use crate::diagnostic::{
    label_views,
    note_views,
    Diagnostic,
    DiagnosticView,
    Label,
    LabelView,
    Note,
    NoteView,
    Rule,
    Urls,
};
use crate::expression::error::{
    resolved_view,
    ExpressionError,
    ExpressionErrorView,
    Resolved,
    ResolvedView,
};
use crate::expression::{Expr, ExprView};
use crate::kind::{kind_text, only, Kind, Shape};
use crate::node::Node;
use crate::span::Span;
use crate::state::{ExternalEnv, ExternalEnvView};
use crate::type_def::{TypeDef, TypeDefView};
use crate::value::{lossy_text, Value, ValueView};

verus! {

/// An abort expression.
#[derive(Debug, PartialEq, Eq)]
pub struct Abort {
    span: Span,
    message: Option<Box<Expr>>,
}

/// The model of an [`Abort`].
pub struct AbortView {
    pub span: Span,
    pub message: Option<Box<ExprView>>,
}

/// Why an abort was rejected when it was built.
#[derive(Clone, Copy, Debug, PartialEq, Eq, Structural)]
pub struct Error {
    variant: ErrorVariant,
    expr_span: Span,
}

/// The rule that a rejected abort broke.
#[derive(Clone, Copy, Debug, PartialEq, Eq, Structural)]
pub enum ErrorVariant {
    /// The message expression can fail.
    FallibleExpr,
    /// The message expression is not a string, or not only a string; the
    /// kind is what it is instead.
    NonString(Kind),
}

/// The model of an [`ErrorVariant`].
pub enum ErrorVariantView {
    FallibleExpr,
    NonString(Set<Shape>),
}

/// The model of an [`Error`]: the broken rule and the span of the message
/// expression that broke it.
pub struct ErrorView {
    pub variant: ErrorVariantView,
    pub expr_span: Span,
}

impl View for ErrorVariant {
    type V = ErrorVariantView;

    open spec fn view(&self) -> ErrorVariantView {
        match self {
            ErrorVariant::FallibleExpr => ErrorVariantView::FallibleExpr,
            ErrorVariant::NonString(kind) => ErrorVariantView::NonString(kind@),
        }
    }
}

impl View for Error {
    type V = ErrorView;

    closed spec fn view(&self) -> ErrorView {
        ErrorView { variant: self.variant@, expr_span: self.expr_span }
    }
}

/// The rule on the message expression of an abort, applied to its static
/// type: the rule that the type breaks, if it breaks one. A type that can
/// fail breaks the first rule, whatever its shapes.
pub open spec fn violation(message: TypeDefView) -> Option<ErrorVariantView> {
    if message.fallible {
        Some(ErrorVariantView::FallibleExpr)
    } else if !message.is_bytes() {
        Some(ErrorVariantView::NonString(message.kind))
    } else {
        None
    }
}

impl ErrorView {
    /// The rule that was broken.
    pub open spec fn rule(self) -> Rule {
        match self.variant {
            ErrorVariantView::FallibleExpr => Rule::FallibleAbortMessage,
            ErrorVariantView::NonString(_) => Rule::NonStringAbortMessage,
        }
    }

    /// The stable code under which the rule is documented.
    pub open spec fn code(self) -> usize {
        self.rule().spec_code()
    }

    /// What went wrong, in a few words.
    pub open spec fn message(self) -> Seq<char> {
        self.rule().spec_description()
    }

    /// The labels: the violation first, then where or how to mend it. Both
    /// stand on the message expression.
    pub open spec fn labels(self) -> Seq<LabelView> {
        match self.variant {
            ErrorVariantView::FallibleExpr => seq![
                LabelView {
                    message: "abort only accepts an infallible expression argument"@,
                    primary: true,
                    span: self.expr_span,
                },
                LabelView {
                    message: "handle errors before using the expression as an abort message"@,
                    primary: false,
                    span: self.expr_span,
                },
            ],
            ErrorVariantView::NonString(kind) => seq![
                LabelView {
                    message: "abort only accepts an expression argument resolving to a string"@,
                    primary: true,
                    span: self.expr_span,
                },
                LabelView {
                    message: "this expression resolves to "@ + kind_text(kind),
                    primary: false,
                    span: self.expr_span,
                },
            ],
        }
    }

    /// The notes: where to read on.
    pub open spec fn notes(self) -> Seq<NoteView> {
        match self.variant {
            ErrorVariantView::FallibleExpr => seq![NoteView::SeeErrorDocs],
            ErrorVariantView::NonString(_) => seq![
                NoteView::CoerceValue,
                NoteView::SeeDocs("type coercion"@, Urls::spec_func_docs("#coerce-functions"@)),
            ],
        }
    }

    /// The whole diagnostic.
    pub open spec fn diagnostic(self) -> DiagnosticView {
        DiagnosticView {
            code: self.code(),
            message: self.message(),
            labels: self.labels(),
            notes: self.notes(),
        }
    }
}

impl Error {
    /// The error that says that the expression at `expr_span` broke the
    /// rule `variant`.
    pub fn new(variant: ErrorVariant, expr_span: Span) -> (error: Error)
        ensures
            error@ == (ErrorView { variant: variant@, expr_span }),
    {
        Error { variant, expr_span }
    }

    /// The rule that was broken.
    pub fn variant(&self) -> (variant: ErrorVariant)
        ensures
            variant@ == self@.variant,
    {
        self.variant
    }

    /// The span of the message expression that broke the rule.
    pub fn expr_span(&self) -> (span: Span)
        ensures
            span == self@.expr_span,
    {
        self.expr_span
    }

    /// The rule that was broken, as the diagnostics know it.
    pub fn rule(&self) -> (rule: Rule)
        ensures
            rule == self@.rule(),
    {
        match self.variant {
            ErrorVariant::FallibleExpr => Rule::FallibleAbortMessage,
            ErrorVariant::NonString(_) => Rule::NonStringAbortMessage,
        }
    }

    /// The stable code under which the rule is documented.
    pub fn code(&self) -> (code: usize)
        ensures
            code == self@.code(),
    {
        self.rule().code()
    }

    /// What went wrong, in a few words.
    pub fn message(&self) -> (message: String)
        ensures
            message@ == self@.message(),
    {
        self.rule().description()
    }

    /// The labels on the source text.
    pub fn labels(&self) -> (labels: Vec<Label>)
        ensures
            label_views(labels@) == self@.labels(),
    {
        let labels = match self.variant {
            ErrorVariant::FallibleExpr => vec![
                Label::primary(
                    "abort only accepts an infallible expression argument",
                    self.expr_span,
                ),
                Label::context(
                    "handle errors before using the expression as an abort message",
                    self.expr_span,
                ),
            ],
            ErrorVariant::NonString(kind) => {
                let resolves_to = String::from_str("this expression resolves to ").concat(
                    kind.text().as_str(),
                );
                vec![
                    Label::primary(
                        "abort only accepts an expression argument resolving to a string",
                        self.expr_span,
                    ),
                    Label::context(resolves_to.as_str(), self.expr_span),
                ]
            },
        };
        assert(label_views(labels@) =~= self@.labels());
        labels
    }

    /// The notes that accompany the labels.
    pub fn notes(&self) -> (notes: Vec<Note>)
        ensures
            note_views(notes@) == self@.notes(),
    {
        let notes = match self.variant {
            ErrorVariant::FallibleExpr => vec![Note::SeeErrorDocs],
            ErrorVariant::NonString(_) => vec![
                Note::CoerceValue,
                Note::SeeDocs(
                    String::from_str("type coercion"),
                    Urls::func_docs("#coerce-functions"),
                ),
            ],
        };
        assert(note_views(notes@) =~= self@.notes());
        notes
    }

    /// The whole diagnostic, as data for a renderer.
    pub fn diagnostic(&self) -> (diagnostic: Diagnostic)
        ensures
            diagnostic@ == self@.diagnostic(),
            diagnostic@.well_formed(),
    {
        Diagnostic {
            code: self.code(),
            message: self.message(),
            labels: self.labels(),
            notes: self.notes(),
        }
    }
}

impl Abort {
    /// The model of the abort.
    pub closed spec fn model(&self) -> AbortView
        decreases self,
    {
        AbortView {
            span: self.span,
            message: match self.message {
                Some(expr) => Some(Box::new(expr.model())),
                None => None,
            },
        }
    }
}

impl Clone for Abort {
    fn clone(&self) -> (copy: Abort)
        ensures
            copy@ == self@,
        decreases self,
    {
        Abort {
            span: self.span,
            message: match &self.message {
                Some(expr) => Some(Box::new((&**expr).clone())),
                None => None,
            },
        }
    }
}

impl View for Abort {
    type V = AbortView;

    open spec fn view(&self) -> AbortView {
        self.model()
    }
}

/// The model of an optional message node: its span and the model of its
/// expression.
pub open spec fn node_view(message: Option<Node<Expr>>) -> Option<Node<ExprView>> {
    match message {
        Some(node) => Some(Node { span: node.span, node: node.node@ }),
        None => None,
    }
}

impl AbortView {
    /// What building an abort at `span` comes to in the environment `env`:
    /// the node, or the rule that the message expression breaks.
    pub open spec fn construct(
        span: Span,
        message: Option<Node<ExprView>>,
        env: ExternalEnvView,
    ) -> Result<AbortView, ErrorView> {
        match message {
            None => Ok(AbortView { span, message: None }),
            Some(node) => match violation(node.node.type_def(env)) {
                Some(variant) => Err(ErrorView { variant, expr_span: node.span }),
                None => Ok(AbortView { span, message: Some(Box::new(node.node)) }),
            },
        }
    }

    /// The static type of an abort: no value, and no failure for the
    /// surrounding tree to handle.
    pub open spec fn type_def(self, env: ExternalEnvView) -> TypeDefView {
        TypeDefView::never()
    }

    /// The message that an abort carries when its message expression came
    /// to `inner`: the text of a string, and nothing for any other outcome.
    pub open spec fn message_text(inner: ResolvedView) -> Option<Seq<char>> {
        match inner {
            Ok(ValueView::Bytes(bytes)) => Some(lossy_text(bytes)),
            _ => None,
        }
    }

    /// The outcome of an abort at `span` with `message`.
    pub open spec fn outcome(span: Span, message: Option<Seq<char>>) -> ResolvedView {
        Err(ExpressionErrorView::Abort { span, message })
    }

    /// The outcomes of evaluating the abort against each of `records`.
    pub open spec fn eval_batch(self, records: Seq<ValueView>) -> Seq<ResolvedView> {
        Seq::new(records.len(), |i: int| self.eval(ContextView { record: records[i] }))
    }

    /// The batch after the abort was evaluated against it: the same records,
    /// and in each slot the abort outcome for its record.
    pub open spec fn after_batch(self, batch: BatchContextView) -> BatchContextView {
        BatchContextView { records: batch.records, resolved: self.eval_batch(batch.records) }
    }

    /// The outcome of evaluating the abort in the context `ctx`.
    pub open spec fn eval(self, ctx: ContextView) -> ResolvedView
        decreases self,
    {
        AbortView::outcome(
            self.span,
            match self.message {
                Some(expr) => AbortView::message_text(expr.eval(ctx)),
                None => None,
            },
        )
    }
}

/// The text of an optional string.
pub open spec fn text_view(text: Option<String>) -> Option<Seq<char>> {
    match text {
        Some(text) => Some(text@),
        None => None,
    }
}

impl Abort {
    /// Builds an abort at `span`, with or without a message expression.
    ///
    /// A message expression is accepted if its static type cannot fail and
    /// admits strings only. One that can fail is rejected as
    /// [`ErrorVariant::FallibleExpr`]; one that cannot fail and is not
    /// exactly a string, as [`ErrorVariant::NonString`] with its kind. A
    /// rejected tree is dropped: it never becomes part of a node.
    pub fn new(span: Span, message: Option<Node<Expr>>, state: &ExternalEnv) -> (made: Result<
        Abort,
        Error,
    >)
        ensures
            match AbortView::construct(span, node_view(message), state@) {
                Ok(model) => made matches Ok(abort) && abort@ == model,
                Err(reason) => made matches Err(error) && error@ == reason,
            },
    {
        match message {
            None => Ok(Abort { span, message: None }),
            Some(node) => {
                let (expr_span, expr) = node.take();
                let type_def = expr.type_def(state);
                if type_def.is_fallible() {
                    Err(Error { variant: ErrorVariant::FallibleExpr, expr_span })
                } else if !type_def.is_bytes() {
                    Err(Error { variant: ErrorVariant::NonString(type_def.kind()), expr_span })
                } else {
                    Ok(Abort { span, message: Some(Box::new(expr)) })
                }
            },
        }
    }

    /// Where the abort stands in the source.
    pub fn span(&self) -> (span: Span)
        ensures
            span == self@.span,
    {
        self.span
    }

    /// The message expression, if there is one.
    pub fn message(&self) -> (message: Option<&Expr>)
        ensures
            match message {
                Some(expr) => self@.message == Some(Box::new(expr@)),
                None => self@.message is None,
            },
    {
        match &self.message {
            Some(expr) => Some(&**expr),
            None => None,
        }
    }

    /// The source text of the construct.
    pub fn display(&self) -> (text: String)
        ensures
            text@ == "abort"@,
    {
        String::from_str("abort")
    }

    /// The static type of the abort.
    pub fn type_def(&self, state: &ExternalEnv) -> (def: TypeDef)
        ensures
            def@ == self@.type_def(state@),
            def@ == TypeDefView::never(),
    {
        TypeDef::never().infallible()
    }

    /// The message for an abort whose message expression came to `inner`.
    pub fn message_of(inner: Resolved) -> (message: Option<String>)
        ensures
            text_view(message) == AbortView::message_text(resolved_view(inner)),
    {
        match inner {
            Ok(value) => match value.try_bytes_utf8_lossy() {
                Ok(text) => Some(text),
                Err(_) => None,
            },
            Err(_) => None,
        }
    }

    /// The outcome of this abort with `message`.
    pub fn outcome(&self, message: Option<String>) -> (resolved: Resolved)
        ensures
            resolved_view(resolved) == AbortView::outcome(self@.span, text_view(message)),
    {
        Err(ExpressionError::Abort { span: self.span, message })
    }

    /// Evaluates the abort against the record of `ctx`.
    pub fn resolve(&self, ctx: &mut Context) -> (resolved: Resolved)
        ensures
            resolved_view(resolved) == self@.eval(old(ctx)@),
            final(ctx)@ == old(ctx)@,
        decreases self,
    {
        let message = match &self.message {
            Some(expr) => Abort::message_of(expr.resolve(ctx)),
            None => None,
        };
        self.outcome(message)
    }

    /// Evaluates the abort against every record of the batch.
    pub fn resolve_batch(&self, ctx: &mut BatchContext)
        ensures
            final(ctx)@ == self@.after_batch(old(ctx)@),
        decreases self,
    {
        if let Some(expr) = &self.message {
            expr.resolve_batch(ctx);
        }
        let ghost inner = ctx@.resolved;
        let len: usize = ctx.len();
        let mut i: usize = 0;
        while i < len
            invariant
                i <= len,
                len == old(ctx)@.records.len(),
                ctx@.records == old(ctx)@.records,
                ctx@.resolved.len() == len,
                inner.len() == len,
                self@.message is Some ==> inner == self@.message->0.eval_batch(
                    old(ctx)@.records,
                ),
                forall|j: int| i <= j < len ==> #[trigger] ctx@.resolved[j] == inner[j],
                forall|j: int|
                    0 <= j < i ==> #[trigger] ctx@.resolved[j] == self@.eval(
                        ContextView { record: ctx@.records[j] },
                    ),
            decreases len - i,
        {
            let taken = ctx.take(i);
            let message = match &self.message {
                Some(_) => Abort::message_of(taken),
                None => None,
            };
            ctx.put(i, self.outcome(message));
            i = i + 1;
        }
        assert(ctx@.resolved =~= self@.eval_batch(old(ctx)@.records));
    }
}

/// A message expression whose static type can fail is never accepted,
/// whatever its shapes: building the abort fails with
/// [`ErrorVariant::FallibleExpr`] on the span of the expression, and no node
/// is built.
pub proof fn lemma_fallible_message_is_rejected(
    span: Span,
    message: Node<ExprView>,
    env: ExternalEnvView,
)
    requires
        message.node.type_def(env).fallible,
    ensures
        AbortView::construct(span, Some(message), env) == Err::<AbortView, ErrorView>(
            ErrorView { variant: ErrorVariantView::FallibleExpr, expr_span: message.span },
        ),
        AbortView::construct(span, Some(message), env)->Err_0.code() == 631,
{
}

/// A message expression that cannot fail and whose static type does not
/// admit strings, or admits another shape beside them, is never accepted:
/// building the abort fails with [`ErrorVariant::NonString`], which carries
/// the shapes of the expression, and no node is built.
pub proof fn lemma_non_string_message_is_rejected(
    span: Span,
    message: Node<ExprView>,
    env: ExternalEnvView,
    other: Shape,
)
    requires
        !message.node.type_def(env).fallible,
        !message.node.type_def(env).kind.contains(Shape::Bytes) || (other != Shape::Bytes
            && message.node.type_def(env).kind.contains(other)),
    ensures
        AbortView::construct(span, Some(message), env) == Err::<AbortView, ErrorView>(
            ErrorView {
                variant: ErrorVariantView::NonString(message.node.type_def(env).kind),
                expr_span: message.span,
            },
        ),
        AbortView::construct(span, Some(message), env)->Err_0.code() == 300,
{
}

/// An abort is built exactly when it has no message expression, or one that
/// cannot fail and admits strings only; the node then holds the span and the
/// expression that it was given.
pub proof fn lemma_accepted_message(
    span: Span,
    message: Option<Node<ExprView>>,
    env: ExternalEnvView,
)
    ensures
        AbortView::construct(span, message, env) is Ok <==> (message matches Some(node) ==> {
            &&& !node.node.type_def(env).fallible
            &&& node.node.type_def(env).kind == only(Shape::Bytes)
        }),
        AbortView::construct(span, message, env) matches Ok(abort) ==> {
            &&& abort.span == span
            &&& abort.message is Some <==> message is Some
            &&& message matches Some(node) ==> *abort.message->0 == node.node
        },
{
}

/// The static type of an abort is "never" and infallible, whatever its
/// message expression and whatever the environment.
pub proof fn lemma_abort_type_is_never(abort: AbortView, env: ExternalEnvView)
    ensures
        abort.type_def(env) == TypeDefView::never(),
        ExprView::Abort(abort).type_def(env) == TypeDefView::never(),
        abort.type_def(env).is_never(),
        !abort.type_def(env).fallible,
{
}

/// Evaluating an abort always ends in the abort outcome, at the span of the
/// abort. No other failure and no value ever comes out, whatever the message
/// expression does.
pub proof fn lemma_abort_always_aborts(abort: AbortView, ctx: ContextView)
    ensures
        abort.eval(ctx) matches Err(ExpressionErrorView::Abort { span, .. }) && span == abort.span,
        ExprView::Abort(abort).eval(ctx) == abort.eval(ctx),
{
}

/// Where the message expression evaluates to a string, the abort carries the
/// lossy conversion of its bytes, valid UTF-8 or not.
pub proof fn lemma_abort_carries_text(abort: AbortView, ctx: ContextView, bytes: Seq<u8>)
    requires
        abort.message matches Some(expr) && expr.eval(ctx) == Ok::<
            ValueView,
            ExpressionErrorView,
        >(ValueView::Bytes(bytes)),
    ensures
        abort.eval(ctx) == AbortView::outcome(abort.span, Some(lossy_text(bytes))),
{
}

/// Where there is no message expression, or where it fails or evaluates to
/// something that is not a string, the abort carries no message; the inner
/// failure does not come out in its place.
pub proof fn lemma_abort_without_text(abort: AbortView, ctx: ContextView)
    requires
        abort.message matches Some(expr) ==> !(expr.eval(ctx) matches Ok(ValueView::Bytes(_))),
    ensures
        abort.eval(ctx) == AbortView::outcome(abort.span, None),
{
}

/// A message expression that was accepted yields a message for every record
/// that has the shape that the environment declares.
pub proof fn lemma_accepted_message_yields_text(
    span: Span,
    message: Node<ExprView>,
    env: ExternalEnvView,
    ctx: ContextView,
)
    requires
        AbortView::construct(span, Some(message), env) is Ok,
        env.record.kind.contains(ctx.record.shape()),
    ensures
        message.node.eval(ctx) matches Ok(ValueView::Bytes(bytes)) && AbortView::construct(
            span,
            Some(message),
            env,
        )->Ok_0.eval(ctx) == AbortView::outcome(span, Some(lossy_text(bytes))),
{
    match message.node {
        ExprView::Literal(value) => {
            assert(only(value.shape()).contains(value.shape()));
        },
        ExprView::Noop => {
            assert(only(Shape::Null).contains(Shape::Null));
        },
        ExprView::Record => {},
        ExprView::Abort(_) => {
            assert(!Set::<Shape>::empty().contains(Shape::Bytes));
        },
    }
}

/// A batch of N records gives N outcomes, slot `i` for record `i`. Each is
/// the abort outcome that evaluating against that record alone gives: with
/// the message of that record, or with none where that record's message
/// could not be computed.
pub proof fn lemma_batch_aborts_every_record(abort: AbortView, records: Seq<ValueView>, i: int)
    requires
        0 <= i < records.len(),
    ensures
        abort.eval_batch(records).len() == records.len(),
        abort.eval_batch(records)[i] == abort.eval(ContextView { record: records[i] }),
        abort.eval_batch(records)[i] == AbortView::outcome(
            abort.span,
            match abort.message {
                Some(expr) => AbortView::message_text(
                    expr.eval(ContextView { record: records[i] }),
                ),
                None => None,
            },
        ),
        ExprView::Abort(abort).eval_batch(records) == abort.eval_batch(records),
{
    assert(ExprView::Abort(abort).eval_batch(records) =~= abort.eval_batch(records));
}

/// No record's outcome depends on another record: two batches that hold the
/// same record in some slot give the same outcome in it, whatever else they
/// hold and wherever the slot is.
pub proof fn lemma_batch_slots_are_independent(
    abort: AbortView,
    first: Seq<ValueView>,
    i: int,
    second: Seq<ValueView>,
    j: int,
)
    requires
        0 <= i < first.len(),
        0 <= j < second.len(),
        first[i] == second[j],
    ensures
        abort.eval_batch(first)[i] == abort.eval_batch(second)[j],
{
}

} // verus!
