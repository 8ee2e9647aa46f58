//! Static type descriptors.
//!
//! A [`TypeDef`] says of an expression which shapes its value may have and
//! whether evaluating it can fail. Descriptors are plain data: they are
//! computed when a tree is built and never change afterwards. Whether a node
//! can fail is for the node to say; it is not derived from its children by
//! [`TypeDef::union`] unless the node chooses to.

use vstd::prelude::*;
use crate::kind::{every_shape, only, Kind, Shape};

verus! {

/// The static descriptor of an expression: its permitted shapes and whether
/// its evaluation can fail.
#[derive(Clone, Copy, Debug, PartialEq, Eq, Structural)]
pub struct TypeDef {
    kind: Kind,
    fallible: bool,
}

/// The model of a [`TypeDef`].
pub struct TypeDefView {
    pub kind: Set<Shape>,
    pub fallible: bool,
}

impl TypeDefView {
    /// The infallible descriptor with the given shapes.
    pub open spec fn of(kind: Set<Shape>) -> TypeDefView {
        TypeDefView { kind, fallible: false }
    }

    /// The descriptor of an expression that yields no value and does not
    /// fail.
    pub open spec fn never() -> TypeDefView {
        TypeDefView::of(Set::<Shape>::empty())
    }

    /// The infallible descriptor of one shape.
    pub open spec fn exact(shape: Shape) -> TypeDefView {
        TypeDefView::of(only(shape))
    }

    /// The same shapes with the given fallibility.
    pub open spec fn with_fallibility(self, fallible: bool) -> TypeDefView {
        TypeDefView { kind: self.kind, fallible }
    }

    /// The union of the shape sets; fallible if either side is.
    pub open spec fn union(self, other: TypeDefView) -> TypeDefView {
        TypeDefView {
            kind: self.kind.union(other.kind),
            fallible: self.fallible || other.fallible,
        }
    }

    /// Whether the descriptor admits strings and nothing else.
    pub open spec fn is_bytes(self) -> bool {
        self.kind == only(Shape::Bytes)
    }

    /// Whether the descriptor admits no value.
    pub open spec fn is_never(self) -> bool {
        self.kind == Set::<Shape>::empty()
    }
}

impl View for TypeDef {
    type V = TypeDefView;

    closed spec fn view(&self) -> TypeDefView {
        TypeDefView { kind: self.kind@, fallible: self.fallible }
    }
}

impl TypeDef {
    /// Two descriptors with the same model are the same descriptor.
    pub proof fn lemma_same_model(self, other: TypeDef)
        requires
            self@ == other@,
        ensures
            self == other,
    {
        self.kind.lemma_same_members(other.kind);
    }

    /// The infallible descriptor of `kind`.
    pub fn new(kind: Kind) -> (def: TypeDef)
        ensures
            def@ == TypeDefView::of(kind@),
    {
        TypeDef { kind, fallible: false }
    }

    /// The descriptor of an expression that yields no value: no shape, no
    /// failure.
    pub fn never() -> (def: TypeDef)
        ensures
            def@ == TypeDefView::never(),
    {
        TypeDef::new(Kind::never())
    }

    /// The infallible descriptor of any value.
    pub fn any() -> (def: TypeDef)
        ensures
            def@ == TypeDefView::of(every_shape()),
    {
        TypeDef::new(Kind::any())
    }

    /// The infallible descriptor of the values of one shape.
    pub fn exact(shape: Shape) -> (def: TypeDef)
        ensures
            def@ == TypeDefView::exact(shape),
    {
        TypeDef::new(Kind::exact(shape))
    }

    /// The infallible descriptor of a string.
    pub fn bytes() -> (def: TypeDef)
        ensures
            def@ == TypeDefView::exact(Shape::Bytes),
    {
        TypeDef::exact(Shape::Bytes)
    }

    /// The infallible descriptor of an integer.
    pub fn integer() -> (def: TypeDef)
        ensures
            def@ == TypeDefView::exact(Shape::Integer),
    {
        TypeDef::exact(Shape::Integer)
    }

    /// The infallible descriptor of a boolean.
    pub fn boolean() -> (def: TypeDef)
        ensures
            def@ == TypeDefView::exact(Shape::Boolean),
    {
        TypeDef::exact(Shape::Boolean)
    }

    /// The infallible descriptor of null.
    pub fn null() -> (def: TypeDef)
        ensures
            def@ == TypeDefView::exact(Shape::Null),
    {
        TypeDef::exact(Shape::Null)
    }

    /// The same shapes, marked as able to fail.
    pub fn fallible(self) -> (def: TypeDef)
        ensures
            def@ == self@.with_fallibility(true),
    {
        TypeDef { kind: self.kind, fallible: true }
    }

    /// The same shapes, marked as unable to fail.
    pub fn infallible(self) -> (def: TypeDef)
        ensures
            def@ == self@.with_fallibility(false),
    {
        TypeDef { kind: self.kind, fallible: false }
    }

    /// The same shapes with the given fallibility.
    pub fn with_fallibility(self, fallible: bool) -> (def: TypeDef)
        ensures
            def@ == self@.with_fallibility(fallible),
    {
        TypeDef { kind: self.kind, fallible }
    }

    /// Whether evaluation can fail.
    pub fn is_fallible(&self) -> (fallible: bool)
        ensures
            fallible == self@.fallible,
    {
        self.fallible
    }

    /// Whether evaluation cannot fail.
    pub fn is_infallible(&self) -> (infallible: bool)
        ensures
            infallible == !self@.fallible,
    {
        !self.fallible
    }

    /// The permitted shapes.
    pub fn kind(&self) -> (kind: Kind)
        ensures
            kind@ == self@.kind,
    {
        self.kind
    }

    /// Whether the value is a string, and can be nothing else.
    pub fn is_bytes(&self) -> (exact: bool)
        ensures
            exact == self@.is_bytes(),
    {
        self.kind.is_bytes()
    }

    /// Whether the expression yields no value.
    pub fn is_never(&self) -> (never: bool)
        ensures
            never == self@.is_never(),
    {
        self.kind.is_never()
    }

    /// The descriptor of an expression that behaves as this one or as
    /// `other`: the union of the shape sets, fallible if either is.
    pub fn union(self, other: TypeDef) -> (def: TypeDef)
        ensures
            def@ == self@.union(other@),
    {
        TypeDef { kind: self.kind.union(other.kind), fallible: self.fallible || other.fallible }
    }
}

/// "Never" adds no shape to a union and leaves the fallibility to the flags:
/// a union with an infallible "never" is the other descriptor, and a union of
/// two "never" descriptors is "never" again.
pub proof fn lemma_union_with_never(def: TypeDefView, never: TypeDefView)
    requires
        never.is_never(),
    ensures
        def.union(never).kind == def.kind,
        never.union(def).kind == def.kind,
        def.union(never).fallible == (def.fallible || never.fallible),
        !never.fallible ==> def.union(never) == def,
        def.is_never() ==> def.union(never).is_never(),
{
}

/// Union does not depend on the order or the grouping of its operands, and
/// the union of a descriptor with itself is that descriptor.
pub proof fn lemma_union_laws(a: TypeDefView, b: TypeDefView, c: TypeDefView)
    ensures
        a.union(b) == b.union(a),
        a.union(b).union(c) == a.union(b.union(c)),
        a.union(a) == a,
{
    assert(a.kind.union(b.kind) =~= b.kind.union(a.kind));
    assert(a.kind.union(b.kind).union(c.kind) =~= a.kind.union(b.kind.union(c.kind)));
    assert(a.kind.union(a.kind) =~= a.kind);
}

/// Clearing the fallibility flag changes no shape, and doing it twice is
/// doing it once.
pub proof fn lemma_infallible(def: TypeDefView)
    ensures
        !def.with_fallibility(false).fallible,
        def.with_fallibility(false).kind == def.kind,
        def.with_fallibility(false).with_fallibility(false) == def.with_fallibility(false),
{
}

} // verus!
