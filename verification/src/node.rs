//! Syntax nodes: a parsed construct together with its place in the source.

use vstd::prelude::*;
use crate::span::Span;

verus! {

/// A parsed construct and the span of source text that it was read from.
#[derive(Clone, Debug, PartialEq, Eq)]
pub struct Node<T> {
    pub span: Span,
    pub node: T,
}

impl<T> Node<T> {
    /// The node that holds `node`, read from `span`.
    pub fn new(span: Span, node: T) -> (made: Node<T>)
        ensures
            made.span == span,
            made.node == node,
    {
        Node { span, node }
    }

    /// Where the construct stands in the source.
    pub fn span(&self) -> (span: Span)
        ensures
            span == self.span,
    {
        self.span
    }

    /// The construct.
    pub fn inner(&self) -> (node: &T)
        ensures
            *node == self.node,
    {
        &self.node
    }

    /// The construct, without its span.
    pub fn into_inner(self) -> (node: T)
        ensures
            node == self.node,
    {
        self.node
    }

    /// The span and the construct, taken apart.
    pub fn take(self) -> (parts: (Span, T))
        ensures
            parts.0 == self.span,
            parts.1 == self.node,
    {
        (self.span, self.node)
    }
}

} // verus!
