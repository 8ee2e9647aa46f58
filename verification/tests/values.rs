use vrl_compiler::context::Context;
use vrl_compiler::expression::Expr;
use vrl_compiler::kind::{Kind, Shape};
use vrl_compiler::state::ExternalEnv;
use vrl_compiler::type_def::TypeDef;
use vrl_compiler::numeral::{decimal_string, integer_string};
use vrl_compiler::value::{Value, ValueError};

#[test]
fn value_shapes_and_kinds() {
    assert_eq!(Value::from_text("a").shape(), Shape::Bytes);
    assert_eq!(Value::Integer(1).shape(), Shape::Integer);
    assert_eq!(Value::Boolean(true).shape(), Shape::Boolean);
    assert_eq!(Value::Null.shape(), Shape::Null);
    assert_eq!(Value::Bytes(Vec::new()).kind(), Kind::bytes());
    assert_eq!(Value::Integer(1).kind(), Kind::integer());
    assert_eq!(Value::Boolean(false).kind(), Kind::boolean());
    assert_eq!(Value::Null.kind(), Kind::null());
}

#[test]
fn from_text_holds_the_utf8_bytes() {
    assert_eq!(Value::from_text("bye"), Value::Bytes(vec![0x62, 0x79, 0x65]));
    assert_eq!(Value::from_text("\u{e9}"), Value::Bytes(vec![0xc3, 0xa9]));
    assert_eq!(Value::from_text(""), Value::Bytes(Vec::new()));
}

#[test]
fn value_clone_is_equal() {
    for value in [Value::from_text("abc"), Value::Integer(-4), Value::Boolean(true), Value::Null] {
        assert_eq!(value.clone(), value);
    }
}

#[test]
fn lossy_text_of_valid_bytes_is_the_text() {
    assert_eq!(Value::from_text("hello").try_bytes_utf8_lossy(), Ok("hello".to_string()));
    assert_eq!(Value::from_text("").try_bytes_utf8_lossy(), Ok(String::new()));
    assert_eq!(
        Value::Bytes(vec![0xe2, 0x82, 0xac]).try_bytes_utf8_lossy(),
        Ok("\u{20ac}".to_string())
    );
}

#[test]
fn lossy_text_replaces_invalid_bytes() {
    assert_eq!(
        Value::Bytes(vec![0x48, 0x69, 0xff]).try_bytes_utf8_lossy(),
        Ok("Hi\u{fffd}".to_string())
    );
    assert_eq!(
        Value::Bytes(vec![0xe2, 0x82]).try_bytes_utf8_lossy(),
        Ok("\u{fffd}".to_string())
    );
    assert_eq!(
        Value::Bytes(vec![0x80, 0x41, 0x80]).try_bytes_utf8_lossy(),
        Ok("\u{fffd}A\u{fffd}".to_string())
    );
}

#[test]
fn lossy_text_refuses_other_shapes() {
    assert_eq!(
        Value::Integer(3).try_bytes_utf8_lossy(),
        Err(ValueError::Expected { got: Kind::integer(), expected: Kind::bytes() })
    );
    assert_eq!(
        Value::Boolean(true).try_bytes_utf8_lossy(),
        Err(ValueError::Expected { got: Kind::boolean(), expected: Kind::bytes() })
    );
    assert_eq!(
        Value::Null.try_bytes_utf8_lossy(),
        Err(ValueError::Expected { got: Kind::null(), expected: Kind::bytes() })
    );
}

#[test]
fn integer_numerals() {
    assert_eq!(integer_string(0), "0");
    assert_eq!(integer_string(7), "7");
    assert_eq!(integer_string(10), "10");
    assert_eq!(integer_string(1234567890), "1234567890");
    assert_eq!(integer_string(-1), "-1");
    assert_eq!(integer_string(-905), "-905");
    assert_eq!(integer_string(i64::MAX), "9223372036854775807");
    assert_eq!(integer_string(i64::MIN), "-9223372036854775808");
    assert_eq!(decimal_string(0), "0");
    assert_eq!(decimal_string(300), "300");
    assert_eq!(decimal_string(u64::MAX), "18446744073709551615");
}

#[test]
fn value_display() {
    assert_eq!(Value::from_text("a b").display(), "\"a b\"");
    assert_eq!(Value::Bytes(vec![0xff]).display(), "\"\u{fffd}\"");
    assert_eq!(Value::Integer(-12).display(), "-12");
    assert_eq!(Value::Boolean(true).display(), "true");
    assert_eq!(Value::Boolean(false).display(), "false");
    assert_eq!(Value::Null.display(), "null");
}

#[test]
fn expression_display() {
    assert_eq!(Expr::Literal(Value::Integer(40)).display(), "40");
    assert_eq!(Expr::Literal(Value::from_text("x")).display(), "\"x\"");
    assert_eq!(Expr::Noop.display(), "null");
    assert_eq!(Expr::Record.display(), ".");
}

#[test]
fn expression_types() {
    let env = ExternalEnv::new(TypeDef::integer().fallible());
    assert_eq!(Expr::Literal(Value::from_text("x")).type_def(&env), TypeDef::bytes());
    assert_eq!(Expr::Literal(Value::Integer(1)).type_def(&env), TypeDef::integer());
    assert_eq!(Expr::Literal(Value::Boolean(true)).type_def(&env), TypeDef::boolean());
    assert_eq!(Expr::Literal(Value::Null).type_def(&env), TypeDef::null());
    assert_eq!(Expr::Noop.type_def(&env), TypeDef::null());
    assert_eq!(Expr::Record.type_def(&env), TypeDef::integer().fallible());
}

#[test]
fn expression_resolve() {
    let mut ctx = Context::new(Value::from_text("rec"));
    assert_eq!(Expr::Literal(Value::Integer(9)).resolve(&mut ctx), Ok(Value::Integer(9)));
    assert_eq!(Expr::Noop.resolve(&mut ctx), Ok(Value::Null));
    assert_eq!(Expr::Record.resolve(&mut ctx), Ok(Value::from_text("rec")));
    assert_eq!(ctx.record(), &Value::from_text("rec"));
    let expr = Expr::Literal(Value::from_text("same"));
    assert_eq!(expr.clone(), expr);
}
