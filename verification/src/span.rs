//! Source positions.

use vstd::prelude::*;

verus! {

/// A half-open byte range `[start, end)` of the source text.
#[derive(Clone, Copy, Debug, PartialEq, Eq, Structural)]
pub struct Span {
    pub start: usize,
    pub end: usize,
}

impl Span {
    pub fn new(start: usize, end: usize) -> (span: Span)
        ensures
            span == (Span { start, end }),
    {
        Span { start, end }
    }

    pub fn start(&self) -> (start: usize)
        ensures
            start == self.start,
    {
        self.start
    }

    pub fn end(&self) -> (end: usize)
        ensures
            end == self.end,
    {
        self.end
    }
}

/// A syntax tree value together with the place it was read from.
#[derive(Debug, PartialEq, Eq)]
pub struct Node<T> {
    pub span: Span,
    pub node: T,
}

impl<T> Node<T> {
    pub fn new(span: Span, node: T) -> (n: Node<T>)
        ensures
            n == (Node { span, node }),
    {
        Node { span, node }
    }

    pub fn span(&self) -> (span: Span)
        ensures
            span == self.span,
    {
        self.span
    }

    pub fn start(&self) -> (start: usize)
        ensures
            start == self.span.start,
    {
        self.span.start
    }

    pub fn end(&self) -> (end: usize)
        ensures
            end == self.span.end,
    {
        self.span.end
    }

    pub fn inner(&self) -> (inner: &T)
        ensures
            *inner == self.node,
    {
        &self.node
    }

    pub fn into_inner(self) -> (inner: T)
        ensures
            inner == self.node,
    {
        self.node
    }

    pub fn take(self) -> (parts: (Span, T))
        ensures
            parts == (self.span, self.node),
    {
        (self.span, self.node)
    }
}

} // verus!
