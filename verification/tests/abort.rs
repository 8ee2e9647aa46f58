use vrl_compiler::context::Context;
use vrl_compiler::expression::abort::{Abort, ErrorVariant};
use vrl_compiler::expression::error::ExpressionError;
use vrl_compiler::expression::Expr;
use vrl_compiler::kind::Kind;
use vrl_compiler::node::Node;
use vrl_compiler::span::Span;
use vrl_compiler::state::ExternalEnv;
use vrl_compiler::type_def::TypeDef;
use vrl_compiler::value::Value;

fn any_record() -> ExternalEnv {
    ExternalEnv::new(TypeDef::any())
}

fn message(expr: Expr) -> Option<Node<Expr>> {
    Some(Node::new(Span::new(6, 11), expr))
}

#[test]
fn abort_without_message_carries_none() {
    let abort = Abort::new(Span::new(0, 5), None, &any_record()).unwrap();
    for record in [Value::Null, Value::Integer(3), Value::from_text("x"), Value::Boolean(true)] {
        let mut ctx = Context::new(record);
        assert_eq!(
            abort.resolve(&mut ctx),
            Err(ExpressionError::Abort { span: Span::new(0, 5), message: None })
        );
    }
}

#[test]
fn abort_with_literal_message_carries_it() {
    let abort =
        Abort::new(Span::new(0, 11), message(Expr::Literal(Value::from_text("bye"))), &any_record())
            .unwrap();
    let mut ctx = Context::new(Value::Null);
    assert_eq!(
        abort.resolve(&mut ctx),
        Err(ExpressionError::Abort { span: Span::new(0, 11), message: Some("bye".to_string()) })
    );
}

#[test]
fn abort_with_integer_message_is_rejected_with_code_300() {
    let error =
        Abort::new(Span::new(0, 7), message(Expr::Literal(Value::Integer(1))), &any_record())
            .unwrap_err();
    assert_eq!(error.code(), 300);
    assert_eq!(error.variant(), ErrorVariant::NonString(Kind::integer()));
    assert_eq!(error.expr_span(), Span::new(6, 11));
    assert_eq!(error.message(), "non-string abort message");
}

#[test]
fn abort_with_boolean_or_null_message_is_rejected() {
    let error =
        Abort::new(Span::new(0, 7), message(Expr::Literal(Value::Boolean(false))), &any_record())
            .unwrap_err();
    assert_eq!(error.variant(), ErrorVariant::NonString(Kind::boolean()));
    let error = Abort::new(Span::new(0, 7), message(Expr::Noop), &any_record()).unwrap_err();
    assert_eq!(error.variant(), ErrorVariant::NonString(Kind::null()));
    assert_eq!(error.code(), 300);
}

#[test]
fn abort_with_record_of_unknown_shape_is_rejected() {
    let error = Abort::new(Span::new(0, 7), message(Expr::Record), &any_record()).unwrap_err();
    assert_eq!(error.variant(), ErrorVariant::NonString(Kind::any()));
    let mixed = ExternalEnv::new(TypeDef::new(Kind::bytes().union(Kind::integer())));
    let error = Abort::new(Span::new(0, 7), message(Expr::Record), &mixed).unwrap_err();
    assert_eq!(error.variant(), ErrorVariant::NonString(Kind::bytes().union(Kind::integer())));
}

#[test]
fn abort_with_nested_abort_message_is_rejected_as_never() {
    let inner = Abort::new(Span::new(6, 11), None, &any_record()).unwrap();
    let error = Abort::new(Span::new(0, 11), message(Expr::Abort(inner)), &any_record())
        .unwrap_err();
    assert_eq!(error.variant(), ErrorVariant::NonString(Kind::never()));
}

#[test]
fn abort_with_fallible_message_is_rejected_with_code_631() {
    let fallible = ExternalEnv::new(TypeDef::bytes().fallible());
    let error = Abort::new(Span::new(0, 7), message(Expr::Record), &fallible).unwrap_err();
    assert_eq!(error.variant(), ErrorVariant::FallibleExpr);
    assert_eq!(error.code(), 631);
    assert_eq!(error.expr_span(), Span::new(6, 11));
    assert_eq!(error.message(), "unhandled fallible expression");
}

#[test]
fn fallible_rule_comes_before_the_shape_rule() {
    let fallible = ExternalEnv::new(TypeDef::integer().fallible());
    let error = Abort::new(Span::new(0, 7), message(Expr::Record), &fallible).unwrap_err();
    assert_eq!(error.variant(), ErrorVariant::FallibleExpr);
}

#[test]
fn abort_type_is_never_and_infallible() {
    let env = ExternalEnv::new(TypeDef::bytes());
    let plain = Abort::new(Span::new(0, 5), None, &env).unwrap();
    let with_literal =
        Abort::new(Span::new(0, 9), message(Expr::Literal(Value::from_text("x"))), &env).unwrap();
    let with_record = Abort::new(Span::new(0, 7), message(Expr::Record), &env).unwrap();
    for abort in [plain, with_literal, with_record] {
        let def = abort.type_def(&env);
        assert!(def.is_never());
        assert!(!def.is_fallible());
        assert!(def.is_infallible());
        assert_eq!(def, TypeDef::never());
        assert_eq!(Expr::Abort(abort).type_def(&any_record()), TypeDef::never());
    }
}

#[test]
fn abort_message_is_the_lossy_text_of_the_record() {
    let env = ExternalEnv::new(TypeDef::bytes());
    let abort = Abort::new(Span::new(2, 9), message(Expr::Record), &env).unwrap();
    let mut ctx = Context::new(Value::Bytes(vec![0x66, 0xff, 0x6f]));
    assert_eq!(
        abort.resolve(&mut ctx),
        Err(ExpressionError::Abort {
            span: Span::new(2, 9),
            message: Some("f\u{fffd}o".to_string()),
        })
    );
    let mut ctx = Context::new(Value::Bytes("gr\u{fc}n".as_bytes().to_vec()));
    assert_eq!(
        abort.resolve(&mut ctx),
        Err(ExpressionError::Abort {
            span: Span::new(2, 9),
            message: Some("gr\u{fc}n".to_string()),
        })
    );
}

#[test]
fn abort_folds_a_message_of_the_wrong_shape_into_no_message() {
    let env = ExternalEnv::new(TypeDef::bytes());
    let abort = Abort::new(Span::new(2, 9), message(Expr::Record), &env).unwrap();
    for record in [Value::Integer(7), Value::Boolean(true), Value::Null] {
        let mut ctx = Context::new(record);
        assert_eq!(
            abort.resolve(&mut ctx),
            Err(ExpressionError::Abort { span: Span::new(2, 9), message: None })
        );
    }
}

#[test]
fn resolve_leaves_the_record_and_repeats_itself() {
    let env = ExternalEnv::new(TypeDef::bytes());
    let abort = Abort::new(Span::new(2, 9), message(Expr::Record), &env).unwrap();
    let mut ctx = Context::new(Value::from_text("stop"));
    let first = abort.resolve(&mut ctx);
    let second = abort.resolve(&mut ctx);
    assert_eq!(first, second);
    assert_eq!(ctx.record(), &Value::from_text("stop"));
    let mut other = Context::new(Value::from_text("stop"));
    assert_eq!(abort.resolve(&mut other), first);
    assert_eq!(ctx.into_record(), Value::from_text("stop"));
}

#[test]
fn message_of_folds_every_outcome() {
    assert_eq!(Abort::message_of(Ok(Value::from_text("a"))), Some("a".to_string()));
    assert_eq!(Abort::message_of(Ok(Value::Bytes(vec![0xc0]))), Some("\u{fffd}".to_string()));
    assert_eq!(Abort::message_of(Ok(Value::Integer(1))), None);
    assert_eq!(Abort::message_of(Ok(Value::Null)), None);
    assert_eq!(
        Abort::message_of(Err(ExpressionError::Error { message: "failed".to_string() })),
        None
    );
    assert_eq!(
        Abort::message_of(Err(ExpressionError::Abort {
            span: Span::new(0, 1),
            message: Some("inner".to_string()),
        })),
        None
    );
}

#[test]
fn outcome_is_the_abort_at_the_span() {
    let abort = Abort::new(Span::new(4, 9), None, &any_record()).unwrap();
    assert_eq!(abort.span(), Span::new(4, 9));
    assert_eq!(
        abort.outcome(Some("m".to_string())),
        Err(ExpressionError::Abort { span: Span::new(4, 9), message: Some("m".to_string()) })
    );
    assert_eq!(
        abort.outcome(None),
        Err(ExpressionError::Abort { span: Span::new(4, 9), message: None })
    );
    assert!(abort.outcome(None).unwrap_err().is_abort());
    assert!(!ExpressionError::Error { message: String::new() }.is_abort());
}

#[test]
fn abort_displays_as_its_keyword() {
    let abort =
        Abort::new(Span::new(0, 9), message(Expr::Literal(Value::from_text("x"))), &any_record())
            .unwrap();
    assert_eq!(abort.display(), "abort");
    assert_eq!(Expr::Abort(abort.clone()).display(), "abort");
    assert_eq!(abort.clone(), abort);
}

#[test]
fn abort_keeps_its_message_expression() {
    let abort = Abort::new(Span::new(0, 7), message(Expr::Record), &ExternalEnv::new(TypeDef::bytes()))
        .unwrap();
    assert_eq!(abort.message(), Some(&Expr::Record));
    let plain = Abort::new(Span::new(0, 5), None, &any_record()).unwrap();
    assert_eq!(plain.message(), None);
}

#[test]
fn crate_root_names_the_main_types() {
    let env = vrl_compiler::ExternalEnv::new(vrl_compiler::TypeDef::any());
    let abort = vrl_compiler::Abort::new(vrl_compiler::Span::new(0, 5), None, &env).unwrap();
    let mut ctx = vrl_compiler::BatchContext::new(vec![vrl_compiler::Value::Null]);
    vrl_compiler::Expr::Abort(abort).resolve_batch(&mut ctx);
    let resolved: Vec<vrl_compiler::Resolved> = ctx.into_resolved();
    assert_eq!(
        resolved,
        vec![Err(vrl_compiler::ExpressionError::Abort {
            span: vrl_compiler::Span::new(0, 5),
            message: None,
        })]
    );
}
