use ripper_tree::ast::ConstPathRefOrConstRef;
use ripper_tree::ast::DotOrColon;
use ripper_tree::ast::Expression;
use ripper_tree::ast::IdentOrConst;
use ripper_tree::ast::MRHSNewFromArgsOrEmpty;
use ripper_tree::ast::Operator;
use ripper_tree::ast::SingleOrMRHSNewFromArgsOrMRHSAddStar;
use ripper_tree::ast::StringContentOrStringContentParts;
use ripper_tree::ast::StringContentPart;
use ripper_tree::ast::UnaryType;
use ripper_tree::decode::decode_alias;
use ripper_tree::decode::decode_begin;
use ripper_tree::decode::decode_class;
use ripper_tree::decode::decode_command;
use ripper_tree::decode::decode_defs;
use ripper_tree::decode::decode_dyna_symbol;
use ripper_tree::decode::decode_expression;
use ripper_tree::decode::decode_massign;
use ripper_tree::decode::decode_mrhs_add_star;
use ripper_tree::decode::decode_op;
use ripper_tree::decode::decode_rescue;
use ripper_tree::decode::decode_symbol;
use ripper_tree::decode::decode_unary;
use ripper_tree::tag::DecodeError;
use ripper_tree::tag::Tag;
use ripper_tree::value::Value;

fn txt(s: &str) -> Value {
    Value::Text(s.to_string())
}

fn list(items: Vec<Value>) -> Value {
    Value::List(items)
}

fn pos(line: u64, col: u64) -> Value {
    list(vec![Value::Num(line), Value::Num(col)])
}

fn ident(name: &str) -> Value {
    list(vec![txt("@ident"), txt(name), pos(1, 0)])
}

fn konst(name: &str) -> Value {
    list(vec![txt("@const"), txt(name), pos(1, 0)])
}

fn body_of(stmt: Value) -> Value {
    list(vec![txt("bodystmt"), list(vec![stmt]), Value::Null, Value::Null, Value::Null])
}

fn symbol_literal(name: &str) -> Value {
    list(vec![txt("symbol_literal"), ident(name)])
}

#[test]
fn unary_accepts_only_the_not_marker() {
    let good = list(vec![txt("unary"), txt("not"), ident("x")]);
    let u = decode_unary(&good).unwrap();
    assert_eq!(u.0, UnaryType::Not);

    let bad = list(vec![txt("unary"), txt("minus"), ident("x")]);
    assert_eq!(
        decode_unary(&bad),
        Err(DecodeError::TagMismatch { expected: Tag::Not, actual: Some("minus".to_string()) })
    );
}

#[test]
fn class_with_superclass_and_body() {
    let v = list(vec![
        txt("class"),
        list(vec![txt("const_ref"), konst("Widget")]),
        list(vec![txt("var_ref"), konst("Base")]),
        body_of(ident("stmt")),
    ]);
    let c = decode_class(&v).unwrap();
    match c.0 {
        ConstPathRefOrConstRef::ConstRef(r) => assert_eq!(r.0 .0, "Widget".to_string()),
        other => panic!("expected a plain constant reference, got {:?}", other),
    }
    assert!(c.1.is_some());
    assert_eq!(c.2 .0.len(), 1);
}

#[test]
fn defs_takes_a_singleton_and_a_separator() {
    let v = list(vec![
        txt("defs"),
        list(vec![txt("var_ref"), kw_self()]),
        list(vec![txt("@period"), txt("."), pos(2, 8)]),
        ident("run"),
        list(vec![
            txt("params"),
            Value::Null,
            Value::Null,
            Value::Null,
            Value::Null,
            Value::Null,
            Value::Null,
            Value::Null,
        ]),
        body_of(ident("stmt")),
    ]);
    let d = decode_defs(&v).unwrap();
    match d.1 {
        DotOrColon::Period(p) => assert_eq!(p.0, ".".to_string()),
        other => panic!("expected a period separator, got {:?}", other),
    }
    assert_eq!(d.2 .0, "run".to_string());
}

fn kw_self() -> Value {
    list(vec![txt("@kw"), txt("self"), pos(2, 0)])
}

#[test]
fn begin_wraps_a_body_with_a_rescue() {
    let rescue = list(vec![
        txt("rescue"),
        list(vec![list(vec![txt("var_ref"), konst("Error")])]),
        Value::Null,
        list(vec![ident("handler")]),
        Value::Null,
    ]);
    let v = list(vec![
        txt("begin"),
        list(vec![txt("bodystmt"), list(vec![ident("work")]), rescue, Value::Null, Value::Null]),
    ]);
    let b = decode_begin(&v).unwrap();
    let r = b.0 .1.expect("the rescue clause is kept");
    match r.0.expect("the rescued classes are kept") {
        SingleOrMRHSNewFromArgsOrMRHSAddStar::Single(es) => assert_eq!(es.len(), 1),
        other => panic!("expected the single-list alternative, got {:?}", other),
    }
    assert_eq!(r.2.expect("the handler body is kept").len(), 1);
    assert!(r.3.is_none());
}

#[test]
fn nested_rescue_chains_decode() {
    let inner = list(vec![txt("rescue"), Value::Null, Value::Null, Value::Null, Value::Null]);
    let outer = list(vec![txt("rescue"), Value::Null, Value::Null, Value::Null, inner]);
    let r = decode_rescue(&outer).unwrap();
    assert!(r.3.is_some());
}

#[test]
fn alias_pairs_two_symbol_literals() {
    let v = list(vec![txt("alias"), symbol_literal("new_name"), symbol_literal("old_name")]);
    let a = decode_alias(&v).unwrap();
    match (&a.0 .0, &a.1 .0) {
        (
            ripper_tree::ast::SymbolOrBare::Ident(x),
            ripper_tree::ast::SymbolOrBare::Ident(y),
        ) => {
            assert_eq!(x.0, "new_name".to_string());
            assert_eq!(y.0, "old_name".to_string());
        },
        other => panic!("expected two bare identifiers, got {:?}", other),
    }
}

#[test]
fn symbol_takes_an_identifier_or_a_constant() {
    let v = list(vec![txt("symbol"), konst("Up")]);
    match decode_symbol(&v).unwrap().0 {
        IdentOrConst::Const(c) => assert_eq!(c.0, "Up".to_string()),
        other => panic!("expected the constant alternative, got {:?}", other),
    }
}

#[test]
fn op_node_carries_a_positioned_operator() {
    let v = list(vec![txt("@op"), txt("=="), pos(4, 2)]);
    let o = decode_op(&v).unwrap();
    assert!(matches!(o.0, Operator::Equals(_)));
    assert_eq!(o.1, ripper_tree::ast::LineCol(4, 2));
}

#[test]
fn dyna_symbol_takes_bare_parts_or_string_content() {
    let parts = list(vec![
        txt("dyna_symbol"),
        list(vec![list(vec![txt("@tstring_content"), txt("x"), pos(1, 2)])]),
    ]);
    match decode_dyna_symbol(&parts).unwrap().0 {
        StringContentOrStringContentParts::StringContentParts(p) => {
            assert_eq!(p.len(), 1);
            assert!(matches!(p[0], StringContentPart::TStringContent(_)));
        },
        other => panic!("expected bare parts, got {:?}", other),
    }

    let content = list(vec![
        txt("dyna_symbol"),
        list(vec![txt("string_content"), list(vec![txt("@tstring_content"), txt("y"), pos(1, 2)])]),
    ]);
    match decode_dyna_symbol(&content).unwrap().0 {
        StringContentOrStringContentParts::StringContent(sc) => assert_eq!(sc.0.len(), 1),
        other => panic!("expected tagged string content, got {:?}", other),
    }
}

#[test]
fn mrhs_add_star_accepts_the_empty_left_side() {
    let v = list(vec![txt("mrhs_add_star"), list(vec![]), ident("rest")]);
    let m = decode_mrhs_add_star(&v).unwrap();
    match m.0 {
        MRHSNewFromArgsOrEmpty::Empty(es) => assert!(es.is_empty()),
        other => panic!("expected the empty alternative, got {:?}", other),
    }
}

#[test]
fn massign_collects_its_targets() {
    let v = list(vec![
        txt("massign"),
        list(vec![
            list(vec![txt("var_field"), ident("a")]),
            list(vec![txt("var_field"), ident("b")]),
        ]),
        ident("rhs"),
    ]);
    let m = decode_massign(&v).unwrap();
    assert_eq!(m.0.len(), 2);
}

#[test]
fn command_keeps_the_bare_expression_list_form() {
    let v = list(vec![txt("command"), ident("puts"), list(vec![ident("x")])]);
    let c = decode_command(&v).unwrap();
    let mc = c.to_method_call();
    assert_eq!(mc.2, false);
}

#[test]
fn deeply_nested_expressions_decode() {
    // defined?(!(a)) spelled through paren, unary and var levels
    let v = list(vec![
        txt("defined"),
        list(vec![txt("paren"), list(vec![list(vec![txt("unary"), txt("not"), ident("a")])])]),
    ]);
    match decode_expression(&v).unwrap() {
        Expression::Defined(d) => match *d.0 {
            Expression::Paren(p) => assert_eq!(p.0.len(), 1),
            other => panic!("expected a parenthesized body, got {:?}", other),
        },
        other => panic!("expected a defined node, got {:?}", other),
    }
}
