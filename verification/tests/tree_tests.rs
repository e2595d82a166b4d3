use ripper_tree::ast::ArgsAddStarOrExpressionList;
use ripper_tree::ast::Assignable;
use ripper_tree::ast::ElsifOrElse;
use ripper_tree::ast::Expression;
use ripper_tree::ast::ExpressionOrFalse;
use ripper_tree::ast::Ident;
use ripper_tree::ast::LineCol;
use ripper_tree::ast::MaybeBlock;
use ripper_tree::ast::SimpleArrayOrPercentArray;
use ripper_tree::ast::SymbolOrBare;
use ripper_tree::ast::VarRefType;
use ripper_tree::decode::decode_array;
use ripper_tree::decode::decode_assign;
use ripper_tree::decode::decode_bodystmt;
use ripper_tree::decode::decode_dot2;
use ripper_tree::decode::decode_expression;
use ripper_tree::decode::decode_if_node;
use ripper_tree::decode::decode_params;
use ripper_tree::decode::decode_symbol_literal;
use ripper_tree::decode::decode_var_ref;
use ripper_tree::decode::decode_args_add_block;
use ripper_tree::tag::DecodeError;
use ripper_tree::value::Value;

fn txt(s: &str) -> Value {
    Value::Text(s.to_string())
}

fn list(items: Vec<Value>) -> Value {
    Value::List(items)
}

fn pos(line: u64, col: u64) -> Value {
    list(vec![Value::Num(line), Value::Num(col)])
}

fn ident(name: &str) -> Value {
    list(vec![txt("@ident"), txt(name), pos(1, 0)])
}

fn kw(name: &str) -> Value {
    list(vec![txt("@kw"), txt(name), pos(1, 0)])
}

#[test]
fn if_with_elsif_and_else_decodes() {
    let v = list(vec![
        txt("if"),
        ident("cond"),
        list(vec![ident("a")]),
        list(vec![
            txt("elsif"),
            ident("cond2"),
            list(vec![ident("b")]),
            list(vec![txt("else"), list(vec![ident("c")])]),
        ]),
    ]);
    let node = decode_if_node(&v).unwrap();
    match node.2 {
        Some(ElsifOrElse::Elsif(e)) => match *e.2.expect("the elsif has a tail") {
            ElsifOrElse::Else(el) => assert_eq!(el.0.len(), 1),
            other => panic!("expected the final else, got {:?}", other),
        },
        other => panic!("expected an elsif, got {:?}", other),
    }
}

#[test]
fn if_without_tail_takes_null() {
    let v = list(vec![txt("if"), ident("cond"), list(vec![ident("a")]), Value::Null]);
    let node = decode_if_node(&v).unwrap();
    assert!(node.2.is_none());
}

#[test]
fn var_ref_selects_the_matching_token_kind() {
    let g = list(vec![txt("var_ref"), list(vec![txt("@gvar"), txt("$g"), pos(1, 0)])]);
    match decode_var_ref(&g).unwrap().0 {
        VarRefType::GVar(x) => assert_eq!(x.0, "$g".to_string()),
        other => panic!("expected a global, got {:?}", other),
    }
    let k = list(vec![txt("var_ref"), kw("nil")]);
    match decode_var_ref(&k).unwrap().0 {
        VarRefType::Kw(x) => assert_eq!(x.0, "nil".to_string()),
        other => panic!("expected a keyword, got {:?}", other),
    }
}

#[test]
fn assign_decodes_a_var_field_target() {
    let v = list(vec![
        txt("assign"),
        list(vec![txt("var_field"), ident("x")]),
        ident("y"),
    ]);
    let a = decode_assign(&v).unwrap();
    match a.0 {
        Assignable::VarField(f) => match f.0 {
            VarRefType::Ident(i) => assert_eq!(i, Ident("x".to_string(), LineCol(1, 0))),
            other => panic!("expected an identifier target, got {:?}", other),
        },
        other => panic!("expected a var field, got {:?}", other),
    }
}

#[test]
fn params_keep_their_positional_and_keyword_groups() {
    let v = list(vec![
        txt("params"),
        list(vec![ident("a"), ident("b")]),
        list(vec![list(vec![ident("c"), ident("d")])]),
        Value::Null,
        Value::Null,
        list(vec![list(vec![
            list(vec![txt("@label"), txt("key:"), pos(1, 9)]),
            Value::Bool(false),
        ])]),
        Value::Null,
        list(vec![txt("blockarg"), ident("blk")]),
    ]);
    let p = decode_params(&v).unwrap();
    assert_eq!(p.0.as_ref().map(|v| v.len()), Some(2));
    let defaults = p.1.expect("one defaulted parameter");
    assert_eq!(defaults.len(), 1);
    assert_eq!(defaults[0].0, Ident("c".to_string(), LineCol(1, 0)));
    assert!(matches!(defaults[0].1, Expression::Ident(_)));
    let kwargs = p.4.expect("one keyword parameter");
    assert_eq!(kwargs[0].0 .0, "key:".to_string());
    assert!(matches!(kwargs[0].1, ExpressionOrFalse::False(false)));
    assert_eq!(p.6.expect("a block parameter").0 .0, "blk".to_string());
}

#[test]
fn bodystmt_keeps_optional_rescue_clauses_absent() {
    let v = list(vec![
        txt("bodystmt"),
        list(vec![ident("stmt")]),
        Value::Null,
        Value::Null,
        Value::Null,
    ]);
    let b = decode_bodystmt(&v).unwrap();
    assert_eq!(b.0.len(), 1);
    assert!(b.1.is_none());
    assert!(b.2.is_none());
    assert!(b.3.is_none());
}

#[test]
fn dot2_accepts_open_endpoints() {
    let v = list(vec![txt("dot2"), Value::Null, ident("hi")]);
    let d = decode_dot2(&v).unwrap();
    assert!(d.0.is_none());
    assert!(d.1.is_some());
}

#[test]
fn array_distinguishes_plain_null_and_percent_forms() {
    let empty = list(vec![txt("array"), Value::Null]);
    match decode_array(&empty).unwrap().0 {
        SimpleArrayOrPercentArray::SimpleArray(None) => {},
        other => panic!("expected the absent body, got {:?}", other),
    }

    let plain = list(vec![txt("array"), list(vec![ident("x")])]);
    match decode_array(&plain).unwrap().0 {
        SimpleArrayOrPercentArray::SimpleArray(Some(
            ArgsAddStarOrExpressionList::ExpressionList(el),
        )) => assert_eq!(el.len(), 1),
        other => panic!("expected a flat body, got {:?}", other),
    }

    let percent = list(vec![
        txt("array"),
        list(vec![
            txt("%w["),
            list(vec![list(vec![txt("@tstring_content"), txt("word"), pos(1, 3)])]),
            pos(1, 0),
        ]),
    ]);
    match decode_array(&percent).unwrap().0 {
        SimpleArrayOrPercentArray::PercentArray(p) => {
            assert_eq!(p.0, "%w[".to_string());
            assert_eq!(p.1.len(), 1);
            assert_eq!(p.2, LineCol(1, 0));
        },
        other => panic!("expected the percent form, got {:?}", other),
    }
}

#[test]
fn symbol_literal_takes_a_bare_identifier() {
    let v = list(vec![txt("symbol_literal"), ident("sym")]);
    match decode_symbol_literal(&v).unwrap().0 {
        SymbolOrBare::Ident(i) => assert_eq!(i.0, "sym".to_string()),
        other => panic!("expected a bare identifier, got {:?}", other),
    }
}

#[test]
fn args_add_block_keeps_the_boolean_marker_shape() {
    let v = list(vec![txt("args_add_block"), list(vec![ident("x")]), Value::Bool(false)]);
    let aab = decode_args_add_block(&v).unwrap();
    assert!(matches!(aab.1, MaybeBlock::NoBlock(false)));

    let with_block = list(vec![txt("args_add_block"), list(vec![]), ident("blk")]);
    let aab2 = decode_args_add_block(&with_block).unwrap();
    assert!(matches!(aab2.1, MaybeBlock::ToProcExpr(_)));
}

#[test]
fn expression_rejects_a_bare_scalar() {
    assert_eq!(decode_expression(&txt("oops")), Err(DecodeError::UnionExhausted));
    assert_eq!(decode_expression(&Value::Bool(true)), Err(DecodeError::UnionExhausted));
}
