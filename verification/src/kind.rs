//! Value shapes and sets of them.
//!
//! A [`Kind`] is the set of shapes that an expression may produce. Its model
//! is a `Set<Shape>`; the empty set is "never", the shape of an expression
//! that produces no value at all.

use vstd::prelude::*;
use vstd::string::StringExecFns;

verus! {

/// One primitive value shape.
#[derive(Clone, Copy, Debug, PartialEq, Eq, Structural)]
pub enum Shape {
    /// A string of bytes.
    Bytes,
    /// A signed 64-bit integer.
    Integer,
    /// A boolean.
    Boolean,
    /// The absence of a value.
    Null,
}

/// A set of value shapes.
#[derive(Clone, Copy, Debug, PartialEq, Eq, Structural)]
pub struct Kind {
    bytes: bool,
    integer: bool,
    boolean: bool,
    null: bool,
}

impl View for Kind {
    type V = Set<Shape>;

    closed spec fn view(&self) -> Set<Shape> {
        Set::new(
            |shape: Shape|
                match shape {
                    Shape::Bytes => self.bytes,
                    Shape::Integer => self.integer,
                    Shape::Boolean => self.boolean,
                    Shape::Null => self.null,
                },
        )
    }
}

/// The set that holds `shape` and nothing else.
pub open spec fn only(shape: Shape) -> Set<Shape> {
    Set::<Shape>::empty().insert(shape)
}

/// The set of all shapes.
pub open spec fn every_shape() -> Set<Shape> {
    Set::new(|shape: Shape| true)
}

/// The word by which a shape is shown to the user.
pub open spec fn shape_name(shape: Shape) -> Seq<char> {
    match shape {
        Shape::Bytes => "string"@,
        Shape::Integer => "integer"@,
        Shape::Boolean => "boolean"@,
        Shape::Null => "null"@,
    }
}

/// `[shape]` if `shapes` holds it, else nothing.
pub open spec fn listed_if(shapes: Set<Shape>, shape: Shape) -> Seq<Shape> {
    if shapes.contains(shape) {
        seq![shape]
    } else {
        Seq::<Shape>::empty()
    }
}

/// The members of `shapes` in the order in which they are shown:
/// string, integer, boolean, null.
pub open spec fn listed(shapes: Set<Shape>) -> Seq<Shape> {
    listed_if(shapes, Shape::Bytes) + listed_if(shapes, Shape::Integer) + listed_if(
        shapes,
        Shape::Boolean,
    ) + listed_if(shapes, Shape::Null)
}

/// The names of `shapes` as an enumeration: `a`, `a or b`, `a, b or c`.
pub open spec fn joined(shapes: Seq<Shape>) -> Seq<char>
    decreases shapes.len(),
{
    if shapes.len() == 0 {
        Seq::<char>::empty()
    } else if shapes.len() == 1 {
        shape_name(shapes[0])
    } else if shapes.len() == 2 {
        shape_name(shapes[0]) + " or "@ + shape_name(shapes[1])
    } else {
        shape_name(shapes[0]) + ", "@ + joined(shapes.skip(1))
    }
}

/// The text that describes a set of shapes: `any` for all of them, `never`
/// for none, else the enumeration of its members.
pub open spec fn kind_text(shapes: Set<Shape>) -> Seq<char> {
    if shapes == every_shape() {
        "any"@
    } else if shapes == Set::<Shape>::empty() {
        "never"@
    } else {
        joined(listed(shapes))
    }
}

/// The word for `shape`.
fn name_of(shape: Shape) -> (name: &'static str)
    ensures
        name@ == shape_name(shape),
{
    match shape {
        Shape::Bytes => "string",
        Shape::Integer => "integer",
        Shape::Boolean => "boolean",
        Shape::Null => "null",
    }
}

impl Kind {
    /// Two kinds with the same members are the same kind.
    pub proof fn lemma_same_members(self, other: Kind)
        requires
            self@ == other@,
        ensures
            self == other,
    {
        assert(self.bytes == self@.contains(Shape::Bytes) && other.bytes == other@.contains(
            Shape::Bytes,
        ));
        assert(self.integer == self@.contains(Shape::Integer) && other.integer
            == other@.contains(Shape::Integer));
        assert(self.boolean == self@.contains(Shape::Boolean) && other.boolean
            == other@.contains(Shape::Boolean));
        assert(self.null == self@.contains(Shape::Null) && other.null == other@.contains(
            Shape::Null,
        ));
    }

    /// The empty kind: no value has it.
    pub fn never() -> (kind: Kind)
        ensures
            kind@ == Set::<Shape>::empty(),
    {
        let kind = Kind { bytes: false, integer: false, boolean: false, null: false };
        assert(kind@ =~= Set::<Shape>::empty());
        kind
    }

    /// The kind of every value.
    pub fn any() -> (kind: Kind)
        ensures
            kind@ == every_shape(),
    {
        let kind = Kind { bytes: true, integer: true, boolean: true, null: true };
        assert(kind@ =~= every_shape());
        kind
    }

    /// The kind of the values of one shape.
    pub fn exact(shape: Shape) -> (kind: Kind)
        ensures
            kind@ == only(shape),
    {
        let kind = match shape {
            Shape::Bytes => Kind { bytes: true, integer: false, boolean: false, null: false },
            Shape::Integer => Kind { bytes: false, integer: true, boolean: false, null: false },
            Shape::Boolean => Kind { bytes: false, integer: false, boolean: true, null: false },
            Shape::Null => Kind { bytes: false, integer: false, boolean: false, null: true },
        };
        assert(kind@ =~= only(shape));
        kind
    }

    /// The kind of strings.
    pub fn bytes() -> (kind: Kind)
        ensures
            kind@ == only(Shape::Bytes),
    {
        Kind::exact(Shape::Bytes)
    }

    /// The kind of integers.
    pub fn integer() -> (kind: Kind)
        ensures
            kind@ == only(Shape::Integer),
    {
        Kind::exact(Shape::Integer)
    }

    /// The kind of booleans.
    pub fn boolean() -> (kind: Kind)
        ensures
            kind@ == only(Shape::Boolean),
    {
        Kind::exact(Shape::Boolean)
    }

    /// The kind of null.
    pub fn null() -> (kind: Kind)
        ensures
            kind@ == only(Shape::Null),
    {
        Kind::exact(Shape::Null)
    }

    /// Whether values of `shape` belong to this kind.
    pub fn contains(&self, shape: Shape) -> (found: bool)
        ensures
            found == self@.contains(shape),
    {
        match shape {
            Shape::Bytes => self.bytes,
            Shape::Integer => self.integer,
            Shape::Boolean => self.boolean,
            Shape::Null => self.null,
        }
    }

    /// Whether no value has this kind.
    pub fn is_never(&self) -> (never: bool)
        ensures
            never == (self@ == Set::<Shape>::empty()),
    {
        let never = !self.bytes && !self.integer && !self.boolean && !self.null;
        proof {
            if never {
                assert(self@ =~= Set::<Shape>::empty());
            } else {
                assert(self@.contains(Shape::Bytes) || self@.contains(Shape::Integer)
                    || self@.contains(Shape::Boolean) || self@.contains(Shape::Null));
            }
        }
        never
    }

    /// Whether every value has this kind.
    pub fn is_any(&self) -> (any: bool)
        ensures
            any == (self@ == every_shape()),
    {
        let any = self.bytes && self.integer && self.boolean && self.null;
        proof {
            if any {
                assert(self@ =~= every_shape());
            } else {
                assert(!self@.contains(Shape::Bytes) || !self@.contains(Shape::Integer)
                    || !self@.contains(Shape::Boolean) || !self@.contains(Shape::Null));
            }
        }
        any
    }

    /// Whether this kind holds `shape` and nothing else.
    pub fn is_exact(&self, shape: Shape) -> (exact: bool)
        ensures
            exact == (self@ == only(shape)),
    {
        let wanted = Kind::exact(shape);
        let exact = self.bytes == wanted.bytes && self.integer == wanted.integer && self.boolean
            == wanted.boolean && self.null == wanted.null;
        proof {
            if self@ == only(shape) {
                self.lemma_same_members(wanted);
            }
        }
        exact
    }

    /// Whether this is the kind of strings, and of nothing else.
    pub fn is_bytes(&self) -> (exact: bool)
        ensures
            exact == (self@ == only(Shape::Bytes)),
    {
        self.is_exact(Shape::Bytes)
    }

    /// The kind of the values that have this kind or `other`.
    pub fn union(self, other: Kind) -> (kind: Kind)
        ensures
            kind@ == self@.union(other@),
    {
        let kind = Kind {
            bytes: self.bytes || other.bytes,
            integer: self.integer || other.integer,
            boolean: self.boolean || other.boolean,
            null: self.null || other.null,
        };
        assert(kind@ =~= self@.union(other@));
        kind
    }

    /// The members of this kind, in the order in which they are shown.
    fn members(&self) -> (shapes: Vec<Shape>)
        ensures
            shapes@ == listed(self@),
    {
        let mut shapes: Vec<Shape> = Vec::new();
        if self.bytes {
            shapes.push(Shape::Bytes);
        }
        if self.integer {
            shapes.push(Shape::Integer);
        }
        if self.boolean {
            shapes.push(Shape::Boolean);
        }
        if self.null {
            shapes.push(Shape::Null);
        }
        shapes
    }

    /// The text that describes this kind to the user.
    pub fn text(&self) -> (text: String)
        ensures
            text@ == kind_text(self@),
    {
        if self.is_any() {
            return String::from_str("any");
        }
        if self.is_never() {
            return String::from_str("never");
        }
        let shapes = self.members();
        let mut text = String::new();
        let mut i: usize = 0;
        assert(shapes@.skip(0) =~= shapes@);
        while i < shapes.len()
            invariant
                i <= shapes.len(),
                text@ + joined(shapes@.skip(i as int)) == joined(shapes@),
            decreases shapes.len() - i,
        {
            let left: usize = shapes.len() - i;
            text.append(name_of(shapes[i]));
            if left == 2 {
                text.append(" or ");
            } else if left > 2 {
                text.append(", ");
                assert(shapes@.skip(i as int).skip(1) =~= shapes@.skip(i + 1));
            }
            i = i + 1;
        }
        text
    }
}

} // verus!
