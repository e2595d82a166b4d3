use ripper_tree::ast::ArgNode;
use ripper_tree::ast::ArgParen;
use ripper_tree::ast::ArgsAddBlock;
use ripper_tree::ast::ArgsAddStar;
use ripper_tree::ast::ArgsAddStarOrExpressionList;
use ripper_tree::ast::Call;
use ripper_tree::ast::CallChainElement;
use ripper_tree::ast::Command;
use ripper_tree::ast::CommandCall;
use ripper_tree::ast::ArgsAddBlockOrExpressionList;
use ripper_tree::ast::Dot;
use ripper_tree::ast::DotType;
use ripper_tree::ast::DotTypeOrOp;
use ripper_tree::ast::DynaSymbol;
use ripper_tree::ast::Expression;
use ripper_tree::ast::Ident;
use ripper_tree::ast::Int;
use ripper_tree::ast::LineCol;
use ripper_tree::ast::MaybeBlock;
use ripper_tree::ast::StringContent;
use ripper_tree::ast::StringContentOrStringContentParts;
use ripper_tree::ast::Super;
use ripper_tree::decode::decode_method_add_arg;
use ripper_tree::norm::normalize_arg_paren;
use ripper_tree::norm::normalize_args;
use ripper_tree::norm::normalize_args_add_block;
use ripper_tree::value::Value;

fn txt(s: &str) -> Value {
    Value::Text(s.to_string())
}

fn list(items: Vec<Value>) -> Value {
    Value::List(items)
}

fn pos(line: u64, col: u64) -> Value {
    list(vec![Value::Num(line), Value::Num(col)])
}

fn ident_value(name: &str, line: u64, col: u64) -> Value {
    list(vec![txt("@ident"), txt(name), pos(line, col)])
}

fn ident(name: &str, line: u64, col: u64) -> Ident {
    Ident(name.to_string(), LineCol(line, col))
}

fn expr_ident(name: &str) -> Expression {
    Expression::Ident(ident(name, 1, 0))
}

fn dot() -> DotTypeOrOp {
    DotTypeOrOp::DotType(DotType::Dot(Dot))
}

#[test]
fn flat_lists_round_trip_unchanged() {
    let exprs = vec![expr_ident("a"), expr_ident("b"), expr_ident("c")];
    let expected = vec![expr_ident("a"), expr_ident("b"), expr_ident("c")];
    match normalize_args(ArgNode::Exprs(exprs)) {
        ArgsAddStarOrExpressionList::ExpressionList(el) => assert_eq!(el, expected),
        other => panic!("expected the flat form, got {:?}", other),
    }
}

#[test]
fn chain_flattening_lists_receivers_in_source_order() {
    // a.b.c.d
    let c = Call(
        Box::new(Expression::Call(Call(
            Box::new(Expression::Call(Call(
                Box::new(expr_ident("a")),
                dot(),
                Box::new(expr_ident("b")),
            ))),
            dot(),
            Box::new(expr_ident("c")),
        ))),
        dot(),
        Box::new(expr_ident("d")),
    );
    let mc = c.to_method_call();
    assert_eq!(mc.0.len(), 6);
    assert_eq!(
        mc.0,
        vec![
            CallChainElement::Expression(Box::new(expr_ident("a"))),
            CallChainElement::Dot(dot()),
            CallChainElement::Expression(Box::new(expr_ident("b"))),
            CallChainElement::Dot(dot()),
            CallChainElement::Expression(Box::new(expr_ident("c"))),
            CallChainElement::Dot(dot()),
        ]
    );
    assert_eq!(*mc.1, expr_ident("d"));
    assert_eq!(mc.2, false);
    match mc.3 {
        ArgsAddStarOrExpressionList::ExpressionList(el) => assert!(el.is_empty()),
        other => panic!("a bare chain takes no arguments, got {:?}", other),
    }
}

#[test]
fn splat_between_groups_is_preserved_exactly() {
    let star = ArgsAddStar(
        Box::new(ArgsAddStarOrExpressionList::ExpressionList(vec![
            expr_ident("p1"),
            expr_ident("p2"),
        ])),
        Box::new(expr_ident("rest")),
        vec![expr_ident("q1"), expr_ident("q2")],
    );
    let aab = ArgsAddBlock(
        ArgsAddStarOrExpressionList::ArgsAddStar(star),
        MaybeBlock::NoBlock(false),
    );
    match normalize_args_add_block(aab) {
        ArgsAddStarOrExpressionList::ArgsAddStar(s) => {
            match *s.0 {
                ArgsAddStarOrExpressionList::ExpressionList(pre) => {
                    assert_eq!(pre, vec![expr_ident("p1"), expr_ident("p2")]);
                },
                other => panic!("expected a flat pre-splat group, got {:?}", other),
            }
            assert_eq!(*s.1, expr_ident("rest"));
            assert_eq!(s.2, vec![expr_ident("q1"), expr_ident("q2")]);
        },
        other => panic!("the splat form must survive, got {:?}", other),
    }
}

#[test]
fn end_to_end_scenario_parenthesized_call() {
    // ["method_add_arg",
    //   ["call", ["@ident","a",[1,0]], ["."], ["@ident","b",[1,2]]],
    //   ["arg_paren", ["args_add_block", [["@int","1",[1,5]]], false]]]
    let v = list(vec![
        txt("method_add_arg"),
        list(vec![
            txt("call"),
            ident_value("a", 1, 0),
            list(vec![txt(".")]),
            ident_value("b", 1, 2),
        ]),
        list(vec![
            txt("arg_paren"),
            list(vec![
                txt("args_add_block"),
                list(vec![list(vec![txt("@int"), txt("1"), pos(1, 5)])]),
                Value::Bool(false),
            ]),
        ]),
    ]);
    let maa = decode_method_add_arg(&v).unwrap();
    let mc = maa.to_method_call();
    assert_eq!(
        mc.0,
        vec![
            CallChainElement::Expression(Box::new(Expression::Ident(ident("a", 1, 0)))),
            CallChainElement::Dot(dot()),
        ]
    );
    assert_eq!(*mc.1, Expression::Ident(ident("b", 1, 2)));
    assert_eq!(mc.2, true);
    match mc.3 {
        ArgsAddStarOrExpressionList::ExpressionList(el) => {
            assert_eq!(el, vec![Expression::Int(Int("1".to_string(), LineCol(1, 5)))]);
        },
        other => panic!("expected one flat integer argument, got {:?}", other),
    }
}

#[test]
fn empty_parenthesized_call_yields_the_empty_flat_list() {
    let ap = ArgParen(Box::new(ArgNode::Null(None)));
    match normalize_arg_paren(ap) {
        ArgsAddStarOrExpressionList::ExpressionList(el) => assert!(el.is_empty()),
        other => panic!("expected the empty flat list, got {:?}", other),
    }
}

#[test]
fn trailing_to_proc_conversion_becomes_the_single_argument() {
    let aab = ArgsAddBlock(
        ArgsAddStarOrExpressionList::ExpressionList(vec![expr_ident("dropped")]),
        MaybeBlock::ToProcExpr(Box::new(expr_ident("blk"))),
    );
    match normalize_args_add_block(aab) {
        ArgsAddStarOrExpressionList::ExpressionList(el) => {
            assert_eq!(el, vec![expr_ident("blk")]);
        },
        other => panic!("expected a one-element flat list, got {:?}", other),
    }
}

#[test]
fn lone_constant_and_identifier_arguments_become_singleton_lists() {
    let c = ripper_tree::ast::Const("K".to_string(), LineCol(2, 2));
    match normalize_args(ArgNode::Const(c)) {
        ArgsAddStarOrExpressionList::ExpressionList(el) => {
            assert_eq!(el, vec![Expression::Const(ripper_tree::ast::Const("K".to_string(), LineCol(2, 2)))]);
        },
        other => panic!("expected a singleton list, got {:?}", other),
    }
    match normalize_args(ArgNode::Ident(ident("i", 3, 1))) {
        ArgsAddStarOrExpressionList::ExpressionList(el) => {
            assert_eq!(el, vec![Expression::Ident(ident("i", 3, 1))]);
        },
        other => panic!("expected a singleton list, got {:?}", other),
    }
}

#[test]
fn command_call_builds_a_one_link_chain_without_parens() {
    let cc = CommandCall(
        Box::new(expr_ident("recv")),
        dot(),
        ident("meth", 1, 5),
        ArgNode::Exprs(vec![expr_ident("x")]),
    );
    let mc = cc.to_method_call();
    assert_eq!(
        mc.0,
        vec![
            CallChainElement::Expression(Box::new(expr_ident("recv"))),
            CallChainElement::Dot(dot()),
        ]
    );
    assert_eq!(*mc.1, Expression::Ident(ident("meth", 1, 5)));
    assert_eq!(mc.2, false);
}

#[test]
fn command_normalizes_through_the_uniform_argument_path() {
    let cmd = Command(
        ident("puts", 1, 0),
        ArgsAddBlockOrExpressionList::ExpressionList(vec![expr_ident("x")]),
    );
    let mc = cmd.to_method_call();
    assert!(mc.0.is_empty());
    assert_eq!(*mc.1, Expression::Ident(ident("puts", 1, 0)));
    assert_eq!(mc.2, false);
    match mc.3 {
        ArgsAddStarOrExpressionList::ExpressionList(el) => {
            assert_eq!(el, vec![expr_ident("x")]);
        },
        other => panic!("expected the flat form, got {:?}", other),
    }
}

#[test]
fn super_gets_a_synthetic_method_identifier() {
    let s = Super(ArgNode::Exprs(vec![expr_ident("x")]));
    let mc = s.to_method_call();
    assert!(mc.0.is_empty());
    assert_eq!(*mc.1, Expression::Ident(Ident("super".to_string(), LineCol(0, 0))));
    assert_eq!(mc.2, true);
}

#[test]
fn dyna_symbol_reads_as_a_string_literal() {
    let ds = DynaSymbol(StringContentOrStringContentParts::StringContent(StringContent(vec![])));
    let sl = ds.to_string_literal();
    assert!(sl.0.is_none());
    assert!(sl.1 .0.is_empty());
}

#[test]
fn is_empty_distinguishes_the_empty_flat_list() {
    let empty = ArgsAddStarOrExpressionList::ExpressionList(vec![]);
    assert!(empty.is_empty());
    let nonempty = ArgsAddStarOrExpressionList::ExpressionList(vec![expr_ident("a")]);
    assert!(!nonempty.is_empty());
    let star = ArgsAddStarOrExpressionList::ArgsAddStar(ArgsAddStar(
        Box::new(ArgsAddStarOrExpressionList::ExpressionList(vec![])),
        Box::new(expr_ident("s")),
        vec![],
    ));
    assert!(!star.is_empty());
}
