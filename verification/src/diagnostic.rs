//! Diagnostics: what is reported when a tree is rejected at construction.
//!
//! A diagnostic is data for a renderer: a stable numeric code, a message,
//! labels on source spans and notes. It speaks of source text and of static
//! shapes only, never of runtime values.

use vstd::prelude::*;
use vstd::string::StringExecFns;
use crate::numeral::{decimal_string, decimal_text};
use crate::span::Span;

verus! {

/// A remark attached to a region of the source text.
#[derive(Clone, Debug, PartialEq, Eq)]
pub struct Label {
    pub message: String,
    pub primary: bool,
    pub span: Span,
}

/// The model of a [`Label`].
pub struct LabelView {
    pub message: Seq<char>,
    pub primary: bool,
    pub span: Span,
}

impl View for Label {
    type V = LabelView;

    open spec fn view(&self) -> LabelView {
        LabelView { message: self.message@, primary: self.primary, span: self.span }
    }
}

impl Label {
    /// The label that marks where the violation is.
    pub fn primary(message: &str, span: Span) -> (label: Label)
        ensures
            label@ == (LabelView { message: message@, primary: true, span }),
    {
        Label { message: String::from_str(message), primary: true, span }
    }

    /// A label that adds context to the primary one, such as where a remedy
    /// would go.
    pub fn context(message: &str, span: Span) -> (label: Label)
        ensures
            label@ == (LabelView { message: message@, primary: false, span }),
    {
        Label { message: String::from_str(message), primary: false, span }
    }
}

/// Guidance that accompanies a diagnostic.
#[derive(Clone, Debug, PartialEq, Eq)]
pub enum Note {
    /// Advice to coerce the value to the type that is needed.
    CoerceValue,
    /// A pointer to the documentation on error handling.
    SeeErrorDocs,
    /// A pointer to the documentation on a topic: the topic, then the URL.
    SeeDocs(String, String),
}

/// The model of a [`Note`].
pub enum NoteView {
    CoerceValue,
    SeeErrorDocs,
    SeeDocs(Seq<char>, Seq<char>),
}

impl View for Note {
    type V = NoteView;

    open spec fn view(&self) -> NoteView {
        match self {
            Note::CoerceValue => NoteView::CoerceValue,
            Note::SeeErrorDocs => NoteView::SeeErrorDocs,
            Note::SeeDocs(topic, url) => NoteView::SeeDocs(topic@, url@),
        }
    }
}

/// The models of a sequence of labels.
pub open spec fn label_views(labels: Seq<Label>) -> Seq<LabelView> {
    labels.map_values(|label: Label| label@)
}

/// The models of a sequence of notes.
pub open spec fn note_views(notes: Seq<Note>) -> Seq<NoteView> {
    notes.map_values(|note: Note| note@)
}

/// Where the documentation lives.
pub struct Urls;

impl Urls {
    /// The address of the function documentation at `anchor`.
    pub open spec fn spec_func_docs(anchor: Seq<char>) -> Seq<char> {
        "https://functions.vrl.dev/"@ + anchor
    }

    /// The address of the documentation of the rule with the code `code`.
    pub open spec fn spec_error_code_url(code: usize) -> Seq<char> {
        "https://errors.vrl.dev/"@ + decimal_text(code as nat)
    }

    /// The address of the function documentation at `anchor`.
    pub fn func_docs(anchor: &str) -> (url: String)
        ensures
            url@ == Urls::spec_func_docs(anchor@),
    {
        String::from_str("https://functions.vrl.dev/").concat(anchor)
    }

    /// The address of the documentation of the rule with the code `code`.
    pub fn error_code_url(code: usize) -> (url: String)
        ensures
            url@ == Urls::spec_error_code_url(code),
    {
        String::from_str("https://errors.vrl.dev/").concat(decimal_string(code as u64).as_str())
    }
}

/// A rule that construction enforces. Each rule is documented under a code
/// of its own, which never changes.
#[derive(Clone, Copy, Debug, PartialEq, Eq, Structural)]
pub enum Rule {
    /// The message of an abort is a string.
    NonStringAbortMessage,
    /// The message of an abort cannot fail.
    FallibleAbortMessage,
}

impl Rule {
    /// The code of the rule.
    pub open spec fn spec_code(self) -> usize {
        match self {
            Rule::NonStringAbortMessage => 300,
            Rule::FallibleAbortMessage => 631,
        }
    }

    /// What breaking the rule is called.
    pub open spec fn spec_description(self) -> Seq<char> {
        match self {
            Rule::NonStringAbortMessage => "non-string abort message"@,
            Rule::FallibleAbortMessage => "unhandled fallible expression"@,
        }
    }

    /// The rule that is documented under `code`, if there is one.
    pub open spec fn spec_from_code(code: usize) -> Option<Rule> {
        if code == 300 {
            Some(Rule::NonStringAbortMessage)
        } else if code == 631 {
            Some(Rule::FallibleAbortMessage)
        } else {
            None
        }
    }

    /// The code of the rule.
    pub fn code(self) -> (code: usize)
        ensures
            code == self.spec_code(),
    {
        match self {
            Rule::NonStringAbortMessage => 300,
            Rule::FallibleAbortMessage => 631,
        }
    }

    /// What breaking the rule is called.
    pub fn description(self) -> (description: String)
        ensures
            description@ == self.spec_description(),
    {
        match self {
            Rule::NonStringAbortMessage => String::from_str("non-string abort message"),
            Rule::FallibleAbortMessage => String::from_str("unhandled fallible expression"),
        }
    }

    /// The rule that is documented under `code`, if there is one.
    pub fn from_code(code: usize) -> (rule: Option<Rule>)
        ensures
            rule == Rule::spec_from_code(code),
    {
        if code == 300 {
            Some(Rule::NonStringAbortMessage)
        } else if code == 631 {
            Some(Rule::FallibleAbortMessage)
        } else {
            None
        }
    }

    /// Where the rule is documented.
    pub fn docs_url(self) -> (url: String)
        ensures
            url@ == Urls::spec_error_code_url(self.spec_code()),
    {
        Urls::error_code_url(self.code())
    }

    /// Codes and rules correspond one to one: a code names the rule that has
    /// it and no other, and no two rules share a code.
    pub proof fn lemma_code_names_rule(self, other: Rule, code: usize)
        ensures
            Rule::spec_from_code(self.spec_code()) == Some(self),
            Rule::spec_from_code(code) == Some(self) <==> self.spec_code() == code,
            self.spec_code() == other.spec_code() ==> self == other,
    {
    }
}

/// A rejected construction as structured data.
#[derive(Clone, Debug, PartialEq, Eq)]
pub struct Diagnostic {
    pub code: usize,
    pub message: String,
    pub labels: Vec<Label>,
    pub notes: Vec<Note>,
}

/// The model of a [`Diagnostic`].
pub struct DiagnosticView {
    pub code: usize,
    pub message: Seq<char>,
    pub labels: Seq<LabelView>,
    pub notes: Seq<NoteView>,
}

impl View for Diagnostic {
    type V = DiagnosticView;

    open spec fn view(&self) -> DiagnosticView {
        DiagnosticView {
            code: self.code,
            message: self.message@,
            labels: label_views(self.labels@),
            notes: note_views(self.notes@),
        }
    }
}

impl DiagnosticView {
    /// A diagnostic points at the violation first: its first label is
    /// primary, and the labels after it add context.
    pub open spec fn well_formed(self) -> bool {
        &&& self.labels.len() >= 1
        &&& self.labels[0].primary
        &&& forall|i: int| 1 <= i < self.labels.len() ==> !(#[trigger] self.labels[i]).primary
    }
}

} // verus!
