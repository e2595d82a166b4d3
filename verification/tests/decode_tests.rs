use ripper_tree::ast::ArgNode;
use ripper_tree::ast::CallExpr;
use ripper_tree::ast::Dot;
use ripper_tree::ast::DotType;
use ripper_tree::ast::DotTypeOrOp;
use ripper_tree::ast::Expression;
use ripper_tree::ast::Ident;
use ripper_tree::ast::LineCol;
use ripper_tree::ast::StringContentPart;
use ripper_tree::decode::decode_expression;
use ripper_tree::decode::decode_ident;
use ripper_tree::decode::decode_if_node;
use ripper_tree::decode::decode_int;
use ripper_tree::decode::decode_method_add_arg;
use ripper_tree::decode::decode_program;
use ripper_tree::decode::decode_string_content;
use ripper_tree::decode::decode_string_literal;
use ripper_tree::decode::decode_args_add_star;
use ripper_tree::decode::decode_dtoo;
use ripper_tree::tag::DecodeError;
use ripper_tree::tag::Tag;
use ripper_tree::value::Value;

fn txt(s: &str) -> Value {
    Value::Text(s.to_string())
}

fn list(items: Vec<Value>) -> Value {
    Value::List(items)
}

fn pos(line: u64, col: u64) -> Value {
    list(vec![Value::Num(line), Value::Num(col)])
}

fn ident(name: &str, line: u64, col: u64) -> Value {
    list(vec![txt("@ident"), txt(name), pos(line, col)])
}

fn int_node(digits: &str, line: u64, col: u64) -> Value {
    list(vec![txt("@int"), txt(digits), pos(line, col)])
}

fn string_content(parts: Vec<Value>) -> Value {
    let mut items = vec![txt("string_content")];
    items.extend(parts);
    list(items)
}

fn tstring(textv: &str) -> Value {
    list(vec![txt("@tstring_content"), txt(textv), pos(1, 0)])
}

fn heredoc(open: &str, close: &str) -> Value {
    list(vec![
        txt("heredoc_string_literal"),
        list(vec![txt(open), txt(close)]),
    ])
}

#[test]
fn tag_fidelity_rejects_wrong_tag() {
    let v = list(vec![txt("prog"), list(vec![])]);
    let r = decode_program(&v);
    assert_eq!(
        r,
        Err(DecodeError::TagMismatch {
            expected: Tag::Program,
            actual: Some("prog".to_string()),
        })
    );
}

#[test]
fn tag_fidelity_rejects_missing_tag() {
    let r = decode_program(&list(vec![]));
    assert_eq!(
        r,
        Err(DecodeError::TagMismatch { expected: Tag::Program, actual: None })
    );
    let r2 = decode_program(&Value::Num(3));
    assert_eq!(
        r2,
        Err(DecodeError::TagMismatch { expected: Tag::Program, actual: None })
    );
}

#[test]
fn tag_fidelity_accepts_correct_tag() {
    let v = list(vec![txt("program"), list(vec![ident("a", 1, 0)])]);
    let p = decode_program(&v).unwrap();
    assert_eq!(p.0.len(), 1);
    assert_eq!(
        p.0[0],
        Expression::Ident(Ident("a".to_string(), LineCol(1, 0)))
    );
}

#[test]
fn tag_fidelity_holds_for_other_node_kinds() {
    let bad_if = list(vec![txt("fi"), ident("c", 1, 0), list(vec![]), Value::Null]);
    assert_eq!(
        decode_if_node(&bad_if),
        Err(DecodeError::TagMismatch { expected: Tag::If, actual: Some("fi".to_string()) })
    );
    let bad_int = list(vec![txt("@float"), txt("1"), pos(1, 0)]);
    assert_eq!(
        decode_int(&bad_int),
        Err(DecodeError::TagMismatch { expected: Tag::Int, actual: Some("@float".to_string()) })
    );
}

#[test]
fn missing_field_reports_first_absent_index() {
    let v = list(vec![txt("if"), ident("c", 1, 0)]);
    assert_eq!(
        decode_if_node(&v),
        Err(DecodeError::MissingField { kind: Tag::If, index: 2 })
    );
}

#[test]
fn extra_fields_are_rejected() {
    let v = list(vec![txt("@int"), txt("1"), pos(1, 0), txt("junk")]);
    assert_eq!(
        decode_int(&v),
        Err(DecodeError::ExtraFields { kind: Tag::Int, len: 4 })
    );
}

#[test]
fn unknown_tag_exhausts_the_expression_union() {
    let v = list(vec![txt("no_such_node"), txt("x")]);
    assert_eq!(decode_expression(&v), Err(DecodeError::UnionExhausted));
}

#[test]
fn line_and_column_are_preserved() {
    let v = ident("reader", 41, 7);
    let i = decode_ident(&v).unwrap();
    assert_eq!(i, Ident("reader".to_string(), LineCol(41, 7)));
    assert_eq!(i.line_number(), 41);
}

#[test]
fn dot_call_and_call_share_a_tag_but_differ_by_arity() {
    let lone = list(vec![txt("call")]);
    assert_eq!(decode_expression(&lone).unwrap(), Expression::DotCall(ripper_tree::ast::DotCall));

    let full = list(vec![txt("call"), ident("a", 1, 0), list(vec![txt(".")]), ident("b", 1, 2)]);
    match decode_expression(&full).unwrap() {
        Expression::Call(c) => {
            assert_eq!(*c.0, Expression::Ident(Ident("a".to_string(), LineCol(1, 0))));
            assert_eq!(c.1, DotTypeOrOp::DotType(DotType::Dot(Dot)));
            assert_eq!(*c.2, Expression::Ident(Ident("b".to_string(), LineCol(1, 2))));
        },
        other => panic!("expected a call node, got {:?}", other),
    }
}

#[test]
fn union_priority_prefers_call_over_plain_expression() {
    // The callable position of this node is valid both as the dedicated
    // call alternative and as the later plain-expression alternative; the
    // first-listed one must win.
    let v = list(vec![
        txt("method_add_arg"),
        list(vec![txt("call"), ident("a", 1, 0), list(vec![txt(".")]), ident("b", 1, 2)]),
        list(vec![txt("arg_paren"), Value::Null]),
    ]);
    let maa = decode_method_add_arg(&v).unwrap();
    match maa.0 {
        CallExpr::Call(_) => {},
        other => panic!("priority violated: decoded as {:?}", other),
    }
}

#[test]
fn arg_node_priority_prefers_expression_list_over_bare_ident() {
    // A bare token node fails the list alternative (its elements are not
    // expressions) and lands on the identifier alternative; an actual list
    // of expression nodes takes the earlier list alternative.
    let v = list(vec![txt("method_add_arg"), list(vec![txt("fcall"), ident("f", 1, 0)]), ident("a", 1, 2)]);
    let maa = decode_method_add_arg(&v).unwrap();
    match maa.1 {
        ArgNode::Ident(i) => assert_eq!(i, Ident("a".to_string(), LineCol(1, 2))),
        other => panic!("expected the identifier alternative, got {:?}", other),
    }

    let v2 = list(vec![
        txt("method_add_arg"),
        list(vec![txt("fcall"), ident("f", 1, 0)]),
        list(vec![ident("a", 1, 2)]),
    ]);
    let maa2 = decode_method_add_arg(&v2).unwrap();
    match maa2.1 {
        ArgNode::Exprs(es) => assert_eq!(es.len(), 1),
        other => panic!("expected the expression-list alternative, got {:?}", other),
    }
}

#[test]
fn heredoc_without_content_is_malformed() {
    let v = list(vec![txt("string_literal"), heredoc("<<~FOO", "FOO")]);
    assert_eq!(decode_string_literal(&v), Err(DecodeError::MalformedHeredoc));
}

#[test]
fn heredoc_with_content_preserves_the_delimiter_pair() {
    let v = list(vec![
        txt("string_literal"),
        heredoc("<<~FOO", "FOO"),
        string_content(vec![tstring("body")]),
    ]);
    let sl = decode_string_literal(&v).unwrap();
    let h = sl.0.expect("heredoc metadata must be kept");
    assert_eq!(h.0 .0, "<<~FOO".to_string());
    assert_eq!(h.0 .1, "FOO".to_string());
    assert_eq!(sl.1 .0.len(), 1);
    match &sl.1 .0[0] {
        StringContentPart::TStringContent(t) => assert_eq!(t.0, "body".to_string()),
        other => panic!("expected literal text, got {:?}", other),
    }
}

#[test]
fn plain_string_literal_has_no_heredoc() {
    let v = list(vec![txt("string_literal"), string_content(vec![tstring("hi")])]);
    let sl = decode_string_literal(&v).unwrap();
    assert!(sl.0.is_none());
    assert_eq!(sl.1 .0.len(), 1);
}

#[test]
fn string_literal_without_body_is_missing_a_field() {
    let v = list(vec![txt("string_literal")]);
    assert_eq!(
        decode_string_literal(&v),
        Err(DecodeError::MissingField { kind: Tag::StringLiteral, index: 1 })
    );
}

#[test]
fn string_content_collects_parts_greedily() {
    let v = string_content(vec![tstring("a"), tstring("b"), tstring("c")]);
    let sc = decode_string_content(&v).unwrap();
    assert_eq!(sc.0.len(), 3);
}

#[test]
fn args_add_star_collects_trailing_expressions() {
    let v = list(vec![
        txt("args_add_star"),
        list(vec![ident("x", 1, 0)]),
        ident("spl", 1, 3),
        ident("y", 1, 8),
        ident("z", 1, 10),
    ]);
    let aas = decode_args_add_star(&v).unwrap();
    assert_eq!(*aas.1, Expression::Ident(Ident("spl".to_string(), LineCol(1, 3))));
    assert_eq!(aas.2.len(), 2);
}

#[test]
fn args_add_star_needs_its_two_fixed_fields() {
    let v = list(vec![txt("args_add_star"), list(vec![])]);
    assert_eq!(
        decode_args_add_star(&v),
        Err(DecodeError::MissingField { kind: Tag::ArgsAddStar, index: 2 })
    );
}

#[test]
fn separators_decode_in_both_bare_and_wrapped_form() {
    assert_eq!(decode_dtoo(&txt(".")).unwrap(), DotTypeOrOp::DotType(DotType::Dot(Dot)));
    assert_eq!(
        decode_dtoo(&list(vec![txt(".")])).unwrap(),
        DotTypeOrOp::DotType(DotType::Dot(Dot))
    );
    assert_eq!(
        decode_dtoo(&txt("::")).unwrap(),
        DotTypeOrOp::ColonColon(ripper_tree::ast::ColonColon)
    );
    assert_eq!(
        decode_dtoo(&txt("&.")).unwrap(),
        DotTypeOrOp::DotType(DotType::LonelyOperator(ripper_tree::ast::LonelyOperator))
    );
    match decode_dtoo(&list(vec![txt("@period"), txt("."), pos(2, 5)])).unwrap() {
        DotTypeOrOp::Period(p) => {
            assert_eq!(p.0, ".".to_string());
            assert_eq!(p.1, LineCol(2, 5));
        },
        other => panic!("expected a period token, got {:?}", other),
    }
}

#[test]
fn nested_field_errors_surface_from_the_failing_node() {
    // the condition slot of the `if` node carries a wrong tag
    let v = list(vec![
        txt("program"),
        list(vec![list(vec![
            txt("if"),
            list(vec![txt("no_such_node")]),
            list(vec![]),
            Value::Null,
        ])]),
    ]);
    assert!(decode_program(&v).is_err());
}
