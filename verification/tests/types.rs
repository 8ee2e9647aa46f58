use vrl_compiler::kind::{Kind, Shape};
use vrl_compiler::node::Node;
use vrl_compiler::span::Span;
use vrl_compiler::state::ExternalEnv;
use vrl_compiler::type_def::TypeDef;

#[test]
fn span_keeps_its_bounds() {
    let span = Span::new(3, 9);
    assert_eq!(span.start(), 3);
    assert_eq!(span.end(), 9);
    assert_eq!(span, Span { start: 3, end: 9 });
}

#[test]
fn node_comes_apart_into_span_and_construct() {
    let node = Node::new(Span::new(1, 4), 17u8);
    assert_eq!(node.span(), Span::new(1, 4));
    assert_eq!(*node.inner(), 17);
    assert_eq!(node.clone().into_inner(), 17);
    assert_eq!(node.take(), (Span::new(1, 4), 17));
}

#[test]
fn kind_membership() {
    assert!(Kind::bytes().contains(Shape::Bytes));
    assert!(!Kind::bytes().contains(Shape::Integer));
    assert!(Kind::exact(Shape::Null).contains(Shape::Null));
    for shape in [Shape::Bytes, Shape::Integer, Shape::Boolean, Shape::Null] {
        assert!(Kind::any().contains(shape));
        assert!(!Kind::never().contains(shape));
        assert!(Kind::exact(shape).is_exact(shape));
        assert_eq!(Kind::exact(shape).is_bytes(), shape == Shape::Bytes);
    }
    assert!(Kind::never().is_never());
    assert!(!Kind::null().is_never());
    assert!(Kind::any().is_any());
    assert!(!Kind::bytes().is_any());
    assert!(!Kind::any().is_bytes());
    assert!(!Kind::never().is_bytes());
    assert_eq!(Kind::integer(), Kind::exact(Shape::Integer));
    assert_eq!(Kind::boolean(), Kind::exact(Shape::Boolean));
}

#[test]
fn kind_union_is_set_union() {
    let joined = Kind::bytes().union(Kind::integer());
    assert!(joined.contains(Shape::Bytes));
    assert!(joined.contains(Shape::Integer));
    assert!(!joined.contains(Shape::Boolean));
    assert!(!joined.is_bytes());
    assert_eq!(joined, Kind::integer().union(Kind::bytes()));
    assert_eq!(Kind::bytes().union(Kind::never()), Kind::bytes());
    assert_eq!(Kind::never().union(Kind::never()), Kind::never());
    assert_eq!(
        Kind::bytes().union(Kind::integer()).union(Kind::boolean()).union(Kind::null()),
        Kind::any()
    );
}

#[test]
fn kind_text_enumerates_the_shapes() {
    assert_eq!(Kind::bytes().text(), "string");
    assert_eq!(Kind::integer().text(), "integer");
    assert_eq!(Kind::boolean().text(), "boolean");
    assert_eq!(Kind::null().text(), "null");
    assert_eq!(Kind::any().text(), "any");
    assert_eq!(Kind::never().text(), "never");
    assert_eq!(Kind::integer().union(Kind::bytes()).text(), "string or integer");
    assert_eq!(Kind::null().union(Kind::boolean()).text(), "boolean or null");
    assert_eq!(
        Kind::null().union(Kind::bytes()).union(Kind::integer()).text(),
        "string, integer or null"
    );
    assert_eq!(
        Kind::null().union(Kind::boolean()).union(Kind::integer()).text(),
        "integer, boolean or null"
    );
}

#[test]
fn type_def_constructors() {
    assert_eq!(TypeDef::never().kind(), Kind::never());
    assert_eq!(TypeDef::any().kind(), Kind::any());
    assert_eq!(TypeDef::bytes().kind(), Kind::bytes());
    assert_eq!(TypeDef::integer().kind(), Kind::integer());
    assert_eq!(TypeDef::boolean().kind(), Kind::boolean());
    assert_eq!(TypeDef::null().kind(), Kind::null());
    assert_eq!(TypeDef::exact(Shape::Integer), TypeDef::integer());
    assert_eq!(TypeDef::new(Kind::bytes()), TypeDef::bytes());
    for def in [TypeDef::never(), TypeDef::any(), TypeDef::bytes(), TypeDef::null()] {
        assert!(def.is_infallible());
        assert!(!def.is_fallible());
    }
    assert!(TypeDef::bytes().is_bytes());
    assert!(!TypeDef::any().is_bytes());
    assert!(TypeDef::never().is_never());
    assert!(!TypeDef::null().is_never());
}

#[test]
fn type_def_fallibility_is_a_flag() {
    let def = TypeDef::bytes().fallible();
    assert!(def.is_fallible());
    assert!(def.is_bytes());
    assert_eq!(def.kind(), Kind::bytes());
    assert_eq!(def.infallible(), TypeDef::bytes());
    assert_eq!(def.infallible().infallible(), TypeDef::bytes());
    assert_eq!(TypeDef::bytes().with_fallibility(true), def);
    assert_eq!(def.with_fallibility(false), TypeDef::bytes());
    assert!(TypeDef::never().fallible().is_never());
    assert!(TypeDef::never().fallible().is_fallible());
}

#[test]
fn type_def_union_joins_shapes_and_flags() {
    let joined = TypeDef::bytes().union(TypeDef::integer().fallible());
    assert_eq!(joined.kind(), Kind::bytes().union(Kind::integer()));
    assert!(joined.is_fallible());
    let joined = TypeDef::bytes().union(TypeDef::integer());
    assert!(joined.is_infallible());
    assert_eq!(TypeDef::bytes().union(TypeDef::never()), TypeDef::bytes());
    assert_eq!(TypeDef::never().union(TypeDef::bytes()), TypeDef::bytes());
    assert_eq!(TypeDef::never().union(TypeDef::never()), TypeDef::never());
    assert_eq!(TypeDef::bytes().union(TypeDef::never().fallible()), TypeDef::bytes().fallible());
    assert_eq!(TypeDef::null().union(TypeDef::null()), TypeDef::null());
}

#[test]
fn environment_declares_the_record() {
    let env = ExternalEnv::new(TypeDef::integer().fallible());
    assert_eq!(env.record(), TypeDef::integer().fallible());
}
