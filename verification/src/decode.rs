//! The validating decoder: untyped tagged sequences in, typed nodes out.
//!
//! Each node kind has a validity spec (`valid_*`), a relation tying an
//! input to the node it decodes to (`decoded_*`), and an executable decoder
//! whose contract states that it succeeds exactly on valid input, that its
//! result is the related node, and — for tagged nodes — that a wrong
//! leading tag yields exactly the tag-mismatch error.  When a nested field
//! is rejected, the decoder reports the field's own error; the contracts
//! pin the error value down at the node whose own shape was at fault.
//!
//! Ordered-alternative unions try their candidates in a fixed priority
//! order; the first structural success wins, and the order below is a
//! deliberate, load-bearing part of the format.
//!
//! Decoding recurses over the input tree, so its stack depth is
//! proportional to the nesting of the input; machine-generated input of
//! pathological depth can exhaust the call stack.

use vstd::prelude::*;
use crate::value::Value;
use crate::tag::Tag;
use crate::tag::DecodeError;
use crate::tag::spec_check_tag;
use crate::tag::has_tag;
use crate::tag::tagged_elems;
use crate::ast::Alias;
use crate::ast::ArgNode;
use crate::ast::ArgParen;
use crate::ast::ArgsAddBlock;
use crate::ast::ArgsAddBlockOrExpressionList;
use crate::ast::ArgsAddStar;
use crate::ast::ArgsAddStarOrExpressionList;
use crate::ast::Array;
use crate::ast::Assign;
use crate::ast::Assignable;
use crate::ast::AssocNew;
use crate::ast::AssocNewOrAssocSplat;
use crate::ast::AssocSplat;
use crate::ast::BareAssocHash;
use crate::ast::Begin;
use crate::ast::Binary;
use crate::ast::BlockArg;
use crate::ast::BodyStmt;
use crate::ast::Call;
use crate::ast::CallChainElement;
use crate::ast::CallExpr;
use crate::ast::Class;
use crate::ast::ColonColon;
use crate::ast::Command;
use crate::ast::CommandCall;
use crate::ast::Const;
use crate::ast::ConstPathField;
use crate::ast::ConstPathRef;
use crate::ast::ConstPathRefOrConstRef;
use crate::ast::ConstRef;
use crate::ast::CVar;
use crate::ast::Def;
use crate::ast::Defined;
use crate::ast::Defs;
use crate::ast::Dot;
use crate::ast::Dot2;
use crate::ast::Dot3;
use crate::ast::DotCall;
use crate::ast::DotOrColon;
use crate::ast::DotType;
use crate::ast::DotTypeOrOp;
use crate::ast::DynaSymbol;
use crate::ast::Else;
use crate::ast::Elsif;
use crate::ast::ElsifOrElse;
use crate::ast::Ensure;
use crate::ast::Equals;
use crate::ast::Expression;
use crate::ast::ExpressionOrFalse;
use crate::ast::FCall;
use crate::ast::Float;
use crate::ast::GVar;
use crate::ast::HeredocStringLiteral;
use crate::ast::Ident;
use crate::ast::IdentOrConst;
use crate::ast::IdentOrVarField;
use crate::ast::If;
use crate::ast::IfMod;
use crate::ast::Int;
use crate::ast::IVar;
use crate::ast::Kw;
use crate::ast::KwRestParam;
use crate::ast::Label;
use crate::ast::LabelOrSymbolLiteralOrDynaSymbol;
use crate::ast::LineCol;
use crate::ast::LonelyOperator;
use crate::ast::MAssign;
use crate::ast::MaybeBlock;
use crate::ast::MethodAddArg;
use crate::ast::MethodCall;
use crate::ast::MRHSAddStar;
use crate::ast::MRHSNewFromArgs;
use crate::ast::MRHSNewFromArgsOrEmpty;
use crate::ast::Next;
use crate::ast::Op;
use crate::ast::Operator;
use crate::ast::Paren;
use crate::ast::ParenExpr;
use crate::ast::ParenOrParams;
use crate::ast::Params;
use crate::ast::Period;
use crate::ast::Program;
use crate::ast::Rescue;
use crate::ast::RescueElse;
use crate::ast::RescueMod;
use crate::ast::RestParam;
use crate::ast::SimpleArrayOrPercentArray;
use crate::ast::SingleOrMRHSNewFromArgsOrMRHSAddStar;
use crate::ast::Singleton;
use crate::ast::StringConcat;
use crate::ast::StringConcatOrStringLiteral;
use crate::ast::StringContent;
use crate::ast::StringContentOrStringContentParts;
use crate::ast::StringContentPart;
use crate::ast::StringDVar;
use crate::ast::StringEmbexpr;
use crate::ast::StringLiteral;
use crate::ast::Super;
use crate::ast::Symbol;
use crate::ast::SymbolLiteral;
use crate::ast::SymbolOrBare;
use crate::ast::TopConstField;
use crate::ast::TopConstRef;
use crate::ast::TStringContent;
use crate::ast::Unary;
use crate::ast::UnaryType;
use crate::ast::Undef;
use crate::ast::VarField;
use crate::ast::VarRef;
use crate::ast::VarRefType;
use crate::ast::VCall;
use crate::ast::VoidStmt;
use crate::ast::XStringLiteral;

verus! {

broadcast use vstd::seq::axiom_seq_index_decreases;

// ------------------------------------------------------------------
// Shared shapes
// ------------------------------------------------------------------

/// What holding a fixed-arity node of kind `t` to length `n` yields.
pub open spec fn spec_arity(t: Tag, items: Seq<Value>, n: nat) -> Result<(), DecodeError> {
    if items.len() < n {
        Err(DecodeError::MissingField { kind: t, index: items.len() as u64 })
    } else if items.len() > n {
        Err(DecodeError::ExtraFields { kind: t, len: items.len() as u64 })
    } else {
        Ok(())
    }
}

fn check_arity(t: Tag, items: &Vec<Value>, n: usize) -> (r: Result<(), DecodeError>)
    ensures r == spec_arity(t, items@, n as nat),
{
    if items.len() < n {
        Err(DecodeError::MissingField { kind: t, index: items.len() as u64 })
    } else if items.len() > n {
        Err(DecodeError::ExtraFields { kind: t, len: items.len() as u64 })
    } else {
        Ok(())
    }
}

fn is_null(v: &Value) -> (b: bool)
    ensures b == (*v is Null),
{
    match v {
        Value::Null => true,
        _ => false,
    }
}

/// A source position: a two-element sequence of numbers.
pub open spec fn valid_line_col(v: Value) -> bool {
    match v {
        Value::List(items) => items@.len() == 2 && items@[0] is Num && items@[1] is Num,
        _ => false,
    }
}

/// The position a valid position value decodes to.
pub open spec fn spec_line_col(v: Value) -> LineCol {
    LineCol(v->List_0@[0]->Num_0, v->List_0@[1]->Num_0)
}

pub fn decode_line_col(v: &Value) -> (r: Result<LineCol, DecodeError>)
    ensures
        r is Ok <==> valid_line_col(*v),
        r matches Ok(x) ==> x == spec_line_col(*v),
{
    match v {
        Value::List(items) => {
            if items.len() != 2 {
                return Err(DecodeError::UnionExhausted);
            }
            let a = match &items[0] {
                Value::Num(n) => *n,
                _ => return Err(DecodeError::UnionExhausted),
            };
            let b = match &items[1] {
                Value::Num(n) => *n,
                _ => return Err(DecodeError::UnionExhausted),
            };
            Ok(LineCol(a, b))
        },
        _ => Err(DecodeError::UnionExhausted),
    }
}

/// A leaf token node: its tag, its text, its position.
pub open spec fn valid_token(v: Value, t: Tag) -> bool {
    match v {
        Value::List(items) => has_tag(v, t) && items@.len() == 3 && items@[1] is Text
            && valid_line_col(items@[2]),
        _ => false,
    }
}

/// The text a valid token carries.
pub open spec fn token_text(v: Value) -> String {
    v->List_0@[1]->Text_0
}

/// The position a valid token carries.
pub open spec fn token_pos(v: Value) -> LineCol {
    spec_line_col(v->List_0@[2])
}

fn decode_token(v: &Value, t: Tag) -> (r: Result<(String, LineCol), DecodeError>)
    ensures
        r is Ok <==> valid_token(*v, t),
        r matches Ok(p) ==> p.0 == token_text(*v) && p.1 == token_pos(*v),
        spec_check_tag(*v, t) matches Err(e) ==> r == Err::<(String, LineCol), DecodeError>(e),
        has_tag(*v, t) ==> (spec_arity(t, v->List_0@, 3) matches Err(e2)
            ==> r == Err::<(String, LineCol), DecodeError>(e2)),
{
    let items = tagged_elems(v, t)?;
    check_arity(t, items, 3)?;
    let s = match &items[1] {
        Value::Text(s) => s.clone(),
        _ => return Err(DecodeError::UnionExhausted),
    };
    let lc = decode_line_col(&items[2])?;
    Ok((s, lc))
}

// ------------------------------------------------------------------
// Leaf tokens
// ------------------------------------------------------------------

pub fn decode_ident(v: &Value) -> (r: Result<Ident, DecodeError>)
    ensures
        r is Ok <==> valid_token(*v, Tag::Ident),
        r matches Ok(x) ==> x == Ident(token_text(*v), token_pos(*v)),
        spec_check_tag(*v, Tag::Ident) matches Err(e) ==> r == Err::<Ident, DecodeError>(e),
        has_tag(*v, Tag::Ident) ==> (spec_arity(Tag::Ident, v->List_0@, 3) matches Err(e2)
            ==> r == Err::<Ident, DecodeError>(e2)),
{
    match decode_token(v, Tag::Ident) {
        Ok(p) => Ok(Ident(p.0, p.1)),
        Err(e) => Err(e),
    }
}

pub fn decode_const(v: &Value) -> (r: Result<Const, DecodeError>)
    ensures
        r is Ok <==> valid_token(*v, Tag::Const),
        r matches Ok(x) ==> x == Const(token_text(*v), token_pos(*v)),
        spec_check_tag(*v, Tag::Const) matches Err(e) ==> r == Err::<Const, DecodeError>(e),
        has_tag(*v, Tag::Const) ==> (spec_arity(Tag::Const, v->List_0@, 3) matches Err(e2)
            ==> r == Err::<Const, DecodeError>(e2)),
{
    match decode_token(v, Tag::Const) {
        Ok(p) => Ok(Const(p.0, p.1)),
        Err(e) => Err(e),
    }
}

pub fn decode_gvar(v: &Value) -> (r: Result<GVar, DecodeError>)
    ensures
        r is Ok <==> valid_token(*v, Tag::Gvar),
        r matches Ok(x) ==> x == GVar(token_text(*v), token_pos(*v)),
        spec_check_tag(*v, Tag::Gvar) matches Err(e) ==> r == Err::<GVar, DecodeError>(e),
        has_tag(*v, Tag::Gvar) ==> (spec_arity(Tag::Gvar, v->List_0@, 3) matches Err(e2)
            ==> r == Err::<GVar, DecodeError>(e2)),
{
    match decode_token(v, Tag::Gvar) {
        Ok(p) => Ok(GVar(p.0, p.1)),
        Err(e) => Err(e),
    }
}

pub fn decode_ivar(v: &Value) -> (r: Result<IVar, DecodeError>)
    ensures
        r is Ok <==> valid_token(*v, Tag::Ivar),
        r matches Ok(x) ==> x == IVar(token_text(*v), token_pos(*v)),
        spec_check_tag(*v, Tag::Ivar) matches Err(e) ==> r == Err::<IVar, DecodeError>(e),
        has_tag(*v, Tag::Ivar) ==> (spec_arity(Tag::Ivar, v->List_0@, 3) matches Err(e2)
            ==> r == Err::<IVar, DecodeError>(e2)),
{
    match decode_token(v, Tag::Ivar) {
        Ok(p) => Ok(IVar(p.0, p.1)),
        Err(e) => Err(e),
    }
}

pub fn decode_cvar(v: &Value) -> (r: Result<CVar, DecodeError>)
    ensures
        r is Ok <==> valid_token(*v, Tag::Cvar),
        r matches Ok(x) ==> x == CVar(token_text(*v), token_pos(*v)),
        spec_check_tag(*v, Tag::Cvar) matches Err(e) ==> r == Err::<CVar, DecodeError>(e),
        has_tag(*v, Tag::Cvar) ==> (spec_arity(Tag::Cvar, v->List_0@, 3) matches Err(e2)
            ==> r == Err::<CVar, DecodeError>(e2)),
{
    match decode_token(v, Tag::Cvar) {
        Ok(p) => Ok(CVar(p.0, p.1)),
        Err(e) => Err(e),
    }
}

pub fn decode_kw(v: &Value) -> (r: Result<Kw, DecodeError>)
    ensures
        r is Ok <==> valid_token(*v, Tag::Kw),
        r matches Ok(x) ==> x == Kw(token_text(*v), token_pos(*v)),
        spec_check_tag(*v, Tag::Kw) matches Err(e) ==> r == Err::<Kw, DecodeError>(e),
        has_tag(*v, Tag::Kw) ==> (spec_arity(Tag::Kw, v->List_0@, 3) matches Err(e2)
            ==> r == Err::<Kw, DecodeError>(e2)),
{
    match decode_token(v, Tag::Kw) {
        Ok(p) => Ok(Kw(p.0, p.1)),
        Err(e) => Err(e),
    }
}

pub fn decode_label(v: &Value) -> (r: Result<Label, DecodeError>)
    ensures
        r is Ok <==> valid_token(*v, Tag::Label),
        r matches Ok(x) ==> x == Label(token_text(*v), token_pos(*v)),
        spec_check_tag(*v, Tag::Label) matches Err(e) ==> r == Err::<Label, DecodeError>(e),
        has_tag(*v, Tag::Label) ==> (spec_arity(Tag::Label, v->List_0@, 3) matches Err(e2)
            ==> r == Err::<Label, DecodeError>(e2)),
{
    match decode_token(v, Tag::Label) {
        Ok(p) => Ok(Label(p.0, p.1)),
        Err(e) => Err(e),
    }
}

pub fn decode_int(v: &Value) -> (r: Result<Int, DecodeError>)
    ensures
        r is Ok <==> valid_token(*v, Tag::Int),
        r matches Ok(x) ==> x == Int(token_text(*v), token_pos(*v)),
        spec_check_tag(*v, Tag::Int) matches Err(e) ==> r == Err::<Int, DecodeError>(e),
        has_tag(*v, Tag::Int) ==> (spec_arity(Tag::Int, v->List_0@, 3) matches Err(e2)
            ==> r == Err::<Int, DecodeError>(e2)),
{
    match decode_token(v, Tag::Int) {
        Ok(p) => Ok(Int(p.0, p.1)),
        Err(e) => Err(e),
    }
}

pub fn decode_float(v: &Value) -> (r: Result<Float, DecodeError>)
    ensures
        r is Ok <==> valid_token(*v, Tag::Float),
        r matches Ok(x) ==> x == Float(token_text(*v), token_pos(*v)),
        spec_check_tag(*v, Tag::Float) matches Err(e) ==> r == Err::<Float, DecodeError>(e),
        has_tag(*v, Tag::Float) ==> (spec_arity(Tag::Float, v->List_0@, 3) matches Err(e2)
            ==> r == Err::<Float, DecodeError>(e2)),
{
    match decode_token(v, Tag::Float) {
        Ok(p) => Ok(Float(p.0, p.1)),
        Err(e) => Err(e),
    }
}

pub fn decode_tstring_content(v: &Value) -> (r: Result<TStringContent, DecodeError>)
    ensures
        r is Ok <==> valid_token(*v, Tag::TstringContent),
        r matches Ok(x) ==> x == TStringContent(token_text(*v), token_pos(*v)),
        spec_check_tag(*v, Tag::TstringContent) matches Err(e)
            ==> r == Err::<TStringContent, DecodeError>(e),
        has_tag(*v, Tag::TstringContent) ==> (spec_arity(Tag::TstringContent, v->List_0@, 3) matches Err(e2)
            ==> r == Err::<TStringContent, DecodeError>(e2)),
{
    match decode_token(v, Tag::TstringContent) {
        Ok(p) => Ok(TStringContent(p.0, p.1)),
        Err(e) => Err(e),
    }
}

pub fn decode_period(v: &Value) -> (r: Result<Period, DecodeError>)
    ensures
        r is Ok <==> valid_token(*v, Tag::Period),
        r matches Ok(x) ==> x == Period(token_text(*v), token_pos(*v)),
        spec_check_tag(*v, Tag::Period) matches Err(e) ==> r == Err::<Period, DecodeError>(e),
        has_tag(*v, Tag::Period) ==> (spec_arity(Tag::Period, v->List_0@, 3) matches Err(e2)
            ==> r == Err::<Period, DecodeError>(e2)),
{
    match decode_token(v, Tag::Period) {
        Ok(p) => Ok(Period(p.0, p.1)),
        Err(e) => Err(e),
    }
}

// ------------------------------------------------------------------
// Heredoc metadata
// ------------------------------------------------------------------

/// Heredoc metadata: the tag, then the start/end delimiter pair.
pub open spec fn valid_heredoc(v: Value) -> bool {
    match v {
        Value::List(items) => has_tag(v, Tag::HeredocStringLiteral) && items@.len() == 2
            && (match items@[1] {
                Value::List(pair) => pair@.len() == 2 && pair@[0] is Text && pair@[1] is Text,
                _ => false,
            }),
        _ => false,
    }
}

/// The delimiter pair a valid heredoc carries.
pub open spec fn heredoc_pair(v: Value) -> (String, String) {
    (v->List_0@[1]->List_0@[0]->Text_0, v->List_0@[1]->List_0@[1]->Text_0)
}

pub fn decode_heredoc(v: &Value) -> (r: Result<HeredocStringLiteral, DecodeError>)
    ensures
        r is Ok <==> valid_heredoc(*v),
        r matches Ok(x) ==> x == HeredocStringLiteral(heredoc_pair(*v)),
        spec_check_tag(*v, Tag::HeredocStringLiteral) matches Err(e)
            ==> r == Err::<HeredocStringLiteral, DecodeError>(e),
        has_tag(*v, Tag::HeredocStringLiteral) ==> (spec_arity(Tag::HeredocStringLiteral,
            v->List_0@, 2) matches Err(e2) ==> r == Err::<HeredocStringLiteral, DecodeError>(e2)),
{
    let items = tagged_elems(v, Tag::HeredocStringLiteral)?;
    check_arity(Tag::HeredocStringLiteral, items, 2)?;
    match &items[1] {
        Value::List(pair) => {
            if pair.len() != 2 {
                return Err(DecodeError::UnionExhausted);
            }
            let a = match &pair[0] {
                Value::Text(s) => s.clone(),
                _ => return Err(DecodeError::UnionExhausted),
            };
            let b = match &pair[1] {
                Value::Text(s) => s.clone(),
                _ => return Err(DecodeError::UnionExhausted),
            };
            Ok(HeredocStringLiteral((a, b)))
        },
        _ => Err(DecodeError::UnionExhausted),
    }
}

// ------------------------------------------------------------------
// Separator and operator shapes
// ------------------------------------------------------------------

/// The text of an operator written either bare or as a one-element
/// sequence.
pub open spec fn op_text(v: Value) -> Option<String> {
    match v {
        Value::Text(s) => Some(s),
        Value::List(items) => {
            if items@.len() == 1 {
                match items@[0] {
                    Value::Text(s) => Some(s),
                    _ => None,
                }
            } else {
                None
            }
        },
        _ => None,
    }
}

fn operator_text(v: &Value) -> (r: Option<String>)
    ensures r == op_text(*v),
{
    match v {
        Value::Text(s) => Some(s.clone()),
        Value::List(items) => {
            if items.len() == 1 {
                match &items[0] {
                    Value::Text(s) => Some(s.clone()),
                    _ => None,
                }
            } else {
                None
            }
        },
        _ => None,
    }
}

pub open spec fn valid_operator(v: Value) -> bool {
    match op_text(v) {
        Some(s) => s@ == "=="@ || s@ == "."@ || s@ == "&."@,
        None => false,
    }
}

pub open spec fn decoded_operator(v: Value, x: Operator) -> bool {
    match op_text(v) {
        Some(s) => {
            if s@ == "=="@ {
                x == Operator::Equals(Equals)
            } else if s@ == "."@ {
                x == Operator::Dot(Dot)
            } else if s@ == "&."@ {
                x == Operator::LonelyOperator(LonelyOperator)
            } else {
                false
            }
        },
        None => false,
    }
}

pub fn decode_operator(v: &Value) -> (r: Result<Operator, DecodeError>)
    ensures
        r is Ok <==> valid_operator(*v),
        r matches Ok(x) ==> decoded_operator(*v, x),
{
    match operator_text(v) {
        Some(s) => {
            if s == String::from_str("==") {
                Ok(Operator::Equals(Equals))
            } else if s == String::from_str(".") {
                Ok(Operator::Dot(Dot))
            } else if s == String::from_str("&.") {
                Ok(Operator::LonelyOperator(LonelyOperator))
            } else {
                Err(DecodeError::UnionExhausted)
            }
        },
        None => Err(DecodeError::UnionExhausted),
    }
}

pub open spec fn valid_dot_type(v: Value) -> bool {
    match op_text(v) {
        Some(s) => s@ == "."@ || s@ == "&."@,
        None => false,
    }
}

pub open spec fn decoded_dot_type(v: Value, x: DotType) -> bool {
    match op_text(v) {
        Some(s) => {
            if s@ == "."@ {
                x == DotType::Dot(Dot)
            } else if s@ == "&."@ {
                x == DotType::LonelyOperator(LonelyOperator)
            } else {
                false
            }
        },
        None => false,
    }
}

pub fn decode_dot_type(v: &Value) -> (r: Result<DotType, DecodeError>)
    ensures
        r is Ok <==> valid_dot_type(*v),
        r matches Ok(x) ==> decoded_dot_type(*v, x),
{
    match operator_text(v) {
        Some(s) => {
            if s == String::from_str(".") {
                Ok(DotType::Dot(Dot))
            } else if s == String::from_str("&.") {
                Ok(DotType::LonelyOperator(LonelyOperator))
            } else {
                Err(DecodeError::UnionExhausted)
            }
        },
        None => Err(DecodeError::UnionExhausted),
    }
}

/// True when the value is the double-colon separator.
pub open spec fn valid_colon_colon(v: Value) -> bool {
    match op_text(v) {
        Some(s) => s@ == "::"@,
        None => false,
    }
}

fn is_colon_colon(v: &Value) -> (b: bool)
    ensures b == valid_colon_colon(*v),
{
    match operator_text(v) {
        Some(s) => s == String::from_str("::"),
        None => false,
    }
}



// ------------------------------------------------------------------
// Element sequences, decoded from a starting index to the end
// ------------------------------------------------------------------

pub open spec fn valid_expr_elems(items: Seq<Value>, k: int) -> bool
    decreases items, 1int,
{
    forall|i: int| 0 <= k <= i < items.len() ==> valid_expression(#[trigger] items[i])
}

pub open spec fn decoded_expr_elems(items: Seq<Value>, k: int, xs: Seq<Expression>) -> bool
    decreases items, 1int,
{
    xs.len() == items.len() - k && forall|i: int|
        0 <= k <= i < items.len() ==> decoded_expression(#[trigger] items[i], xs[i - k])
}

pub fn decode_expr_elems(items: &Vec<Value>, start: usize) -> (r: Result<Vec<Expression>, DecodeError>)
    requires start <= items@.len(),
    ensures
        r is Ok <==> valid_expr_elems(items@, start as int),
        r matches Ok(xs) ==> decoded_expr_elems(items@, start as int, xs@),
    decreases items@, 1int,
{
    let mut xs: Vec<Expression> = Vec::new();
    let mut k = start;
    while k < items.len()
        invariant
            start <= k <= items@.len(),
            xs@.len() == k - start,
            forall|i: int| start <= i < k ==> valid_expression(#[trigger] items@[i]),
            forall|i: int| start <= i < k ==> decoded_expression(#[trigger] items@[i], xs@[i - start]),
        decreases items@.len() - k,
    {
        match decode_expression(&items[k]) {
            Ok(x) => xs.push(x),
            Err(e) => return Err(e),
        }
        k = k + 1;
    }
    Ok(xs)
}


pub open spec fn valid_symbol_literal_elems(items: Seq<Value>, k: int) -> bool
    decreases items, 1int,
{
    forall|i: int| 0 <= k <= i < items.len() ==> valid_symbol_literal(#[trigger] items[i])
}

pub open spec fn decoded_symbol_literal_elems(items: Seq<Value>, k: int, xs: Seq<SymbolLiteral>) -> bool
    decreases items, 1int,
{
    xs.len() == items.len() - k && forall|i: int|
        0 <= k <= i < items.len() ==> decoded_symbol_literal(#[trigger] items[i], xs[i - k])
}

pub fn decode_symbol_literal_elems(items: &Vec<Value>, start: usize) -> (r: Result<Vec<SymbolLiteral>, DecodeError>)
    requires start <= items@.len(),
    ensures
        r is Ok <==> valid_symbol_literal_elems(items@, start as int),
        r matches Ok(xs) ==> decoded_symbol_literal_elems(items@, start as int, xs@),
    decreases items@, 1int,
{
    let mut xs: Vec<SymbolLiteral> = Vec::new();
    let mut k = start;
    while k < items.len()
        invariant
            start <= k <= items@.len(),
            xs@.len() == k - start,
            forall|i: int| start <= i < k ==> valid_symbol_literal(#[trigger] items@[i]),
            forall|i: int| start <= i < k ==> decoded_symbol_literal(#[trigger] items@[i], xs@[i - start]),
        decreases items@.len() - k,
    {
        match decode_symbol_literal(&items[k]) {
            Ok(x) => xs.push(x),
            Err(e) => return Err(e),
        }
        k = k + 1;
    }
    Ok(xs)
}


pub open spec fn valid_assignable_elems(items: Seq<Value>, k: int) -> bool
    decreases items, 1int,
{
    forall|i: int| 0 <= k <= i < items.len() ==> valid_assignable(#[trigger] items[i])
}

pub open spec fn decoded_assignable_elems(items: Seq<Value>, k: int, xs: Seq<Assignable>) -> bool
    decreases items, 1int,
{
    xs.len() == items.len() - k && forall|i: int|
        0 <= k <= i < items.len() ==> decoded_assignable(#[trigger] items[i], xs[i - k])
}

pub fn decode_assignable_elems(items: &Vec<Value>, start: usize) -> (r: Result<Vec<Assignable>, DecodeError>)
    requires start <= items@.len(),
    ensures
        r is Ok <==> valid_assignable_elems(items@, start as int),
        r matches Ok(xs) ==> decoded_assignable_elems(items@, start as int, xs@),
    decreases items@, 1int,
{
    let mut xs: Vec<Assignable> = Vec::new();
    let mut k = start;
    while k < items.len()
        invariant
            start <= k <= items@.len(),
            xs@.len() == k - start,
            forall|i: int| start <= i < k ==> valid_assignable(#[trigger] items@[i]),
            forall|i: int| start <= i < k ==> decoded_assignable(#[trigger] items@[i], xs@[i - start]),
        decreases items@.len() - k,
    {
        match decode_assignable(&items[k]) {
            Ok(x) => xs.push(x),
            Err(e) => return Err(e),
        }
        k = k + 1;
    }
    Ok(xs)
}


pub open spec fn valid_scp_elems(items: Seq<Value>, k: int) -> bool
    decreases items, 1int,
{
    forall|i: int| 0 <= k <= i < items.len() ==> valid_string_content_part(#[trigger] items[i])
}

pub open spec fn decoded_scp_elems(items: Seq<Value>, k: int, xs: Seq<StringContentPart>) -> bool
    decreases items, 1int,
{
    xs.len() == items.len() - k && forall|i: int|
        0 <= k <= i < items.len() ==> decoded_string_content_part(#[trigger] items[i], xs[i - k])
}

pub fn decode_scp_elems(items: &Vec<Value>, start: usize) -> (r: Result<Vec<StringContentPart>, DecodeError>)
    requires start <= items@.len(),
    ensures
        r is Ok <==> valid_scp_elems(items@, start as int),
        r matches Ok(xs) ==> decoded_scp_elems(items@, start as int, xs@),
    decreases items@, 1int,
{
    let mut xs: Vec<StringContentPart> = Vec::new();
    let mut k = start;
    while k < items.len()
        invariant
            start <= k <= items@.len(),
            xs@.len() == k - start,
            forall|i: int| start <= i < k ==> valid_string_content_part(#[trigger] items@[i]),
            forall|i: int| start <= i < k ==> decoded_string_content_part(#[trigger] items@[i], xs@[i - start]),
        decreases items@.len() - k,
    {
        match decode_string_content_part(&items[k]) {
            Ok(x) => xs.push(x),
            Err(e) => return Err(e),
        }
        k = k + 1;
    }
    Ok(xs)
}


pub open spec fn valid_ident_elems(items: Seq<Value>, k: int) -> bool
    decreases items, 1int,
{
    forall|i: int| 0 <= k <= i < items.len() ==> valid_token(#[trigger] items[i], Tag::Ident)
}

pub open spec fn decoded_ident_elems(items: Seq<Value>, k: int, xs: Seq<Ident>) -> bool
    decreases items, 1int,
{
    xs.len() == items.len() - k && forall|i: int|
        0 <= k <= i < items.len() ==> xs[i - k] == Ident(token_text(#[trigger] items[i]), token_pos(#[trigger] items[i]))
}

pub fn decode_ident_elems(items: &Vec<Value>, start: usize) -> (r: Result<Vec<Ident>, DecodeError>)
    requires start <= items@.len(),
    ensures
        r is Ok <==> valid_ident_elems(items@, start as int),
        r matches Ok(xs) ==> decoded_ident_elems(items@, start as int, xs@),
    decreases items@, 1int,
{
    let mut xs: Vec<Ident> = Vec::new();
    let mut k = start;
    while k < items.len()
        invariant
            start <= k <= items@.len(),
            xs@.len() == k - start,
            forall|i: int| start <= i < k ==> valid_token(#[trigger] items@[i], Tag::Ident),
            forall|i: int| start <= i < k ==> xs@[i - start] == Ident(token_text(#[trigger] items@[i]), token_pos(#[trigger] items@[i])),
        decreases items@.len() - k,
    {
        match decode_ident(&items[k]) {
            Ok(x) => xs.push(x),
            Err(e) => return Err(e),
        }
        k = k + 1;
    }
    Ok(xs)
}


pub open spec fn valid_ie_pair_elems(items: Seq<Value>, k: int) -> bool
    decreases items, 1int,
{
    forall|i: int| 0 <= k <= i < items.len() ==> valid_ie_pair(#[trigger] items[i])
}

pub open spec fn decoded_ie_pair_elems(items: Seq<Value>, k: int, xs: Seq<(Ident, Expression)>) -> bool
    decreases items, 1int,
{
    xs.len() == items.len() - k && forall|i: int|
        0 <= k <= i < items.len() ==> decoded_ie_pair(#[trigger] items[i], xs[i - k])
}

pub fn decode_ie_pair_elems(items: &Vec<Value>, start: usize) -> (r: Result<Vec<(Ident, Expression)>, DecodeError>)
    requires start <= items@.len(),
    ensures
        r is Ok <==> valid_ie_pair_elems(items@, start as int),
        r matches Ok(xs) ==> decoded_ie_pair_elems(items@, start as int, xs@),
    decreases items@, 1int,
{
    let mut xs: Vec<(Ident, Expression)> = Vec::new();
    let mut k = start;
    while k < items.len()
        invariant
            start <= k <= items@.len(),
            xs@.len() == k - start,
            forall|i: int| start <= i < k ==> valid_ie_pair(#[trigger] items@[i]),
            forall|i: int| start <= i < k ==> decoded_ie_pair(#[trigger] items@[i], xs@[i - start]),
        decreases items@.len() - k,
    {
        match decode_ie_pair(&items[k]) {
            Ok(x) => xs.push(x),
            Err(e) => return Err(e),
        }
        k = k + 1;
    }
    Ok(xs)
}


pub open spec fn valid_le_pair_elems(items: Seq<Value>, k: int) -> bool
    decreases items, 1int,
{
    forall|i: int| 0 <= k <= i < items.len() ==> valid_le_pair(#[trigger] items[i])
}

pub open spec fn decoded_le_pair_elems(items: Seq<Value>, k: int, xs: Seq<(Label, ExpressionOrFalse)>) -> bool
    decreases items, 1int,
{
    xs.len() == items.len() - k && forall|i: int|
        0 <= k <= i < items.len() ==> decoded_le_pair(#[trigger] items[i], xs[i - k])
}

pub fn decode_le_pair_elems(items: &Vec<Value>, start: usize) -> (r: Result<Vec<(Label, ExpressionOrFalse)>, DecodeError>)
    requires start <= items@.len(),
    ensures
        r is Ok <==> valid_le_pair_elems(items@, start as int),
        r matches Ok(xs) ==> decoded_le_pair_elems(items@, start as int, xs@),
    decreases items@, 1int,
{
    let mut xs: Vec<(Label, ExpressionOrFalse)> = Vec::new();
    let mut k = start;
    while k < items.len()
        invariant
            start <= k <= items@.len(),
            xs@.len() == k - start,
            forall|i: int| start <= i < k ==> valid_le_pair(#[trigger] items@[i]),
            forall|i: int| start <= i < k ==> decoded_le_pair(#[trigger] items@[i], xs@[i - start]),
        decreases items@.len() - k,
    {
        match decode_le_pair(&items[k]) {
            Ok(x) => xs.push(x),
            Err(e) => return Err(e),
        }
        k = k + 1;
    }
    Ok(xs)
}


pub open spec fn valid_assoc_elems(items: Seq<Value>, k: int) -> bool
    decreases items, 1int,
{
    forall|i: int| 0 <= k <= i < items.len() ==> valid_assoc(#[trigger] items[i])
}

pub open spec fn decoded_assoc_elems(items: Seq<Value>, k: int, xs: Seq<AssocNewOrAssocSplat>) -> bool
    decreases items, 1int,
{
    xs.len() == items.len() - k && forall|i: int|
        0 <= k <= i < items.len() ==> decoded_assoc(#[trigger] items[i], xs[i - k])
}

pub fn decode_assoc_elems(items: &Vec<Value>, start: usize) -> (r: Result<Vec<AssocNewOrAssocSplat>, DecodeError>)
    requires start <= items@.len(),
    ensures
        r is Ok <==> valid_assoc_elems(items@, start as int),
        r matches Ok(xs) ==> decoded_assoc_elems(items@, start as int, xs@),
    decreases items@, 1int,
{
    let mut xs: Vec<AssocNewOrAssocSplat> = Vec::new();
    let mut k = start;
    while k < items.len()
        invariant
            start <= k <= items@.len(),
            xs@.len() == k - start,
            forall|i: int| start <= i < k ==> valid_assoc(#[trigger] items@[i]),
            forall|i: int| start <= i < k ==> decoded_assoc(#[trigger] items@[i], xs@[i - start]),
        decreases items@.len() - k,
    {
        match decode_assoc(&items[k]) {
            Ok(x) => xs.push(x),
            Err(e) => return Err(e),
        }
        k = k + 1;
    }
    Ok(xs)
}


pub open spec fn valid_cce_elems(items: Seq<Value>, k: int) -> bool
    decreases items, 1int,
{
    forall|i: int| 0 <= k <= i < items.len() ==> valid_call_chain_element(#[trigger] items[i])
}

pub open spec fn decoded_cce_elems(items: Seq<Value>, k: int, xs: Seq<CallChainElement>) -> bool
    decreases items, 1int,
{
    xs.len() == items.len() - k && forall|i: int|
        0 <= k <= i < items.len() ==> decoded_call_chain_element(#[trigger] items[i], xs[i - k])
}

pub fn decode_cce_elems(items: &Vec<Value>, start: usize) -> (r: Result<Vec<CallChainElement>, DecodeError>)
    requires start <= items@.len(),
    ensures
        r is Ok <==> valid_cce_elems(items@, start as int),
        r matches Ok(xs) ==> decoded_cce_elems(items@, start as int, xs@),
    decreases items@, 1int,
{
    let mut xs: Vec<CallChainElement> = Vec::new();
    let mut k = start;
    while k < items.len()
        invariant
            start <= k <= items@.len(),
            xs@.len() == k - start,
            forall|i: int| start <= i < k ==> valid_call_chain_element(#[trigger] items@[i]),
            forall|i: int| start <= i < k ==> decoded_call_chain_element(#[trigger] items@[i], xs@[i - start]),
        decreases items@.len() - k,
    {
        match decode_call_chain_element(&items[k]) {
            Ok(x) => xs.push(x),
            Err(e) => return Err(e),
        }
        k = k + 1;
    }
    Ok(xs)
}


// ------------------------------------------------------------------
// Whole values that are lists of elements
// ------------------------------------------------------------------

pub open spec fn valid_expr_list(v: Value) -> bool
    decreases v, 1int,
{
    match v {
        Value::List(items) => valid_expr_elems(items@, 0),
        _ => false,
    }
}

pub open spec fn decoded_expr_list(v: Value, xs: Seq<Expression>) -> bool
    decreases v, 1int,
{
    match v {
        Value::List(items) => decoded_expr_elems(items@, 0, xs),
        _ => false,
    }
}

pub fn decode_expr_list(v: &Value) -> (r: Result<Vec<Expression>, DecodeError>)
    ensures
        r is Ok <==> valid_expr_list(*v),
        r matches Ok(xs) ==> decoded_expr_list(*v, xs@),
    decreases v, 1int,
{
    match v {
        Value::List(items) => decode_expr_elems(items, 0),
        _ => Err(DecodeError::UnionExhausted),
    }
}


pub open spec fn valid_symbol_literal_list(v: Value) -> bool
    decreases v, 1int,
{
    match v {
        Value::List(items) => valid_symbol_literal_elems(items@, 0),
        _ => false,
    }
}

pub open spec fn decoded_symbol_literal_list(v: Value, xs: Seq<SymbolLiteral>) -> bool
    decreases v, 1int,
{
    match v {
        Value::List(items) => decoded_symbol_literal_elems(items@, 0, xs),
        _ => false,
    }
}

pub fn decode_symbol_literal_list(v: &Value) -> (r: Result<Vec<SymbolLiteral>, DecodeError>)
    ensures
        r is Ok <==> valid_symbol_literal_list(*v),
        r matches Ok(xs) ==> decoded_symbol_literal_list(*v, xs@),
    decreases v, 1int,
{
    match v {
        Value::List(items) => decode_symbol_literal_elems(items, 0),
        _ => Err(DecodeError::UnionExhausted),
    }
}


pub open spec fn valid_assignable_list(v: Value) -> bool
    decreases v, 1int,
{
    match v {
        Value::List(items) => valid_assignable_elems(items@, 0),
        _ => false,
    }
}

pub open spec fn decoded_assignable_list(v: Value, xs: Seq<Assignable>) -> bool
    decreases v, 1int,
{
    match v {
        Value::List(items) => decoded_assignable_elems(items@, 0, xs),
        _ => false,
    }
}

pub fn decode_assignable_list(v: &Value) -> (r: Result<Vec<Assignable>, DecodeError>)
    ensures
        r is Ok <==> valid_assignable_list(*v),
        r matches Ok(xs) ==> decoded_assignable_list(*v, xs@),
    decreases v, 1int,
{
    match v {
        Value::List(items) => decode_assignable_elems(items, 0),
        _ => Err(DecodeError::UnionExhausted),
    }
}


pub open spec fn valid_scp_list(v: Value) -> bool
    decreases v, 1int,
{
    match v {
        Value::List(items) => valid_scp_elems(items@, 0),
        _ => false,
    }
}

pub open spec fn decoded_scp_list(v: Value, xs: Seq<StringContentPart>) -> bool
    decreases v, 1int,
{
    match v {
        Value::List(items) => decoded_scp_elems(items@, 0, xs),
        _ => false,
    }
}

pub fn decode_scp_list(v: &Value) -> (r: Result<Vec<StringContentPart>, DecodeError>)
    ensures
        r is Ok <==> valid_scp_list(*v),
        r matches Ok(xs) ==> decoded_scp_list(*v, xs@),
    decreases v, 1int,
{
    match v {
        Value::List(items) => decode_scp_elems(items, 0),
        _ => Err(DecodeError::UnionExhausted),
    }
}


pub open spec fn valid_ident_list(v: Value) -> bool
    decreases v, 1int,
{
    match v {
        Value::List(items) => valid_ident_elems(items@, 0),
        _ => false,
    }
}

pub open spec fn decoded_ident_list(v: Value, xs: Seq<Ident>) -> bool
    decreases v, 1int,
{
    match v {
        Value::List(items) => decoded_ident_elems(items@, 0, xs),
        _ => false,
    }
}

pub fn decode_ident_list(v: &Value) -> (r: Result<Vec<Ident>, DecodeError>)
    ensures
        r is Ok <==> valid_ident_list(*v),
        r matches Ok(xs) ==> decoded_ident_list(*v, xs@),
    decreases v, 1int,
{
    match v {
        Value::List(items) => decode_ident_elems(items, 0),
        _ => Err(DecodeError::UnionExhausted),
    }
}


pub open spec fn valid_ie_pair_list(v: Value) -> bool
    decreases v, 1int,
{
    match v {
        Value::List(items) => valid_ie_pair_elems(items@, 0),
        _ => false,
    }
}

pub open spec fn decoded_ie_pair_list(v: Value, xs: Seq<(Ident, Expression)>) -> bool
    decreases v, 1int,
{
    match v {
        Value::List(items) => decoded_ie_pair_elems(items@, 0, xs),
        _ => false,
    }
}

pub fn decode_ie_pair_list(v: &Value) -> (r: Result<Vec<(Ident, Expression)>, DecodeError>)
    ensures
        r is Ok <==> valid_ie_pair_list(*v),
        r matches Ok(xs) ==> decoded_ie_pair_list(*v, xs@),
    decreases v, 1int,
{
    match v {
        Value::List(items) => decode_ie_pair_elems(items, 0),
        _ => Err(DecodeError::UnionExhausted),
    }
}


pub open spec fn valid_le_pair_list(v: Value) -> bool
    decreases v, 1int,
{
    match v {
        Value::List(items) => valid_le_pair_elems(items@, 0),
        _ => false,
    }
}

pub open spec fn decoded_le_pair_list(v: Value, xs: Seq<(Label, ExpressionOrFalse)>) -> bool
    decreases v, 1int,
{
    match v {
        Value::List(items) => decoded_le_pair_elems(items@, 0, xs),
        _ => false,
    }
}

pub fn decode_le_pair_list(v: &Value) -> (r: Result<Vec<(Label, ExpressionOrFalse)>, DecodeError>)
    ensures
        r is Ok <==> valid_le_pair_list(*v),
        r matches Ok(xs) ==> decoded_le_pair_list(*v, xs@),
    decreases v, 1int,
{
    match v {
        Value::List(items) => decode_le_pair_elems(items, 0),
        _ => Err(DecodeError::UnionExhausted),
    }
}


pub open spec fn valid_assoc_list(v: Value) -> bool
    decreases v, 1int,
{
    match v {
        Value::List(items) => valid_assoc_elems(items@, 0),
        _ => false,
    }
}

pub open spec fn decoded_assoc_list(v: Value, xs: Seq<AssocNewOrAssocSplat>) -> bool
    decreases v, 1int,
{
    match v {
        Value::List(items) => decoded_assoc_elems(items@, 0, xs),
        _ => false,
    }
}

pub fn decode_assoc_list(v: &Value) -> (r: Result<Vec<AssocNewOrAssocSplat>, DecodeError>)
    ensures
        r is Ok <==> valid_assoc_list(*v),
        r matches Ok(xs) ==> decoded_assoc_list(*v, xs@),
    decreases v, 1int,
{
    match v {
        Value::List(items) => decode_assoc_elems(items, 0),
        _ => Err(DecodeError::UnionExhausted),
    }
}


pub open spec fn valid_cce_list(v: Value) -> bool
    decreases v, 1int,
{
    match v {
        Value::List(items) => valid_cce_elems(items@, 0),
        _ => false,
    }
}

pub open spec fn decoded_cce_list(v: Value, xs: Seq<CallChainElement>) -> bool
    decreases v, 1int,
{
    match v {
        Value::List(items) => decoded_cce_elems(items@, 0, xs),
        _ => false,
    }
}

pub fn decode_cce_list(v: &Value) -> (r: Result<Vec<CallChainElement>, DecodeError>)
    ensures
        r is Ok <==> valid_cce_list(*v),
        r matches Ok(xs) ==> decoded_cce_list(*v, xs@),
    decreases v, 1int,
{
    match v {
        Value::List(items) => decode_cce_elems(items, 0),
        _ => Err(DecodeError::UnionExhausted),
    }
}


// ------------------------------------------------------------------
// Ordered-alternative unions
// ------------------------------------------------------------------

pub open spec fn valid_elsif_or_else(v: Value) -> bool
    decreases v, 1int,
{
    valid_elsif(v)
    || valid_else_node(v)
}

pub open spec fn decoded_elsif_or_else(v: Value, x: ElsifOrElse) -> bool
    decreases v, 1int,
{
    if valid_elsif(v) {
        x matches ElsifOrElse::Elsif(y) && decoded_elsif(v, y)
    } else if valid_else_node(v) {
        x matches ElsifOrElse::Else(y) && decoded_else_node(v, y)
    } else {
        false
    }
}

pub fn decode_elsif_or_else(v: &Value) -> (r: Result<ElsifOrElse, DecodeError>)
    ensures
        r is Ok <==> valid_elsif_or_else(*v),
        r matches Ok(x) ==> decoded_elsif_or_else(*v, x),
    decreases v, 1int,
{
    match decode_elsif(v) { Ok(y) => return Ok(ElsifOrElse::Elsif(y)), Err(_) => {}, }
    match decode_else_node(v) { Ok(y) => return Ok(ElsifOrElse::Else(y)), Err(_) => {}, }
    Err(DecodeError::UnionExhausted)
}


pub open spec fn valid_sc_or_sl(v: Value) -> bool
    decreases v, 1int,
{
    valid_string_concat(v)
    || valid_string_literal(v)
}

pub open spec fn decoded_sc_or_sl(v: Value, x: StringConcatOrStringLiteral) -> bool
    decreases v, 1int,
{
    if valid_string_concat(v) {
        x matches StringConcatOrStringLiteral::StringConcat(y) && decoded_string_concat(v, *y)
    } else if valid_string_literal(v) {
        x matches StringConcatOrStringLiteral::StringLiteral(y) && decoded_string_literal(v, y)
    } else {
        false
    }
}

pub fn decode_sc_or_sl(v: &Value) -> (r: Result<StringConcatOrStringLiteral, DecodeError>)
    ensures
        r is Ok <==> valid_sc_or_sl(*v),
        r matches Ok(x) ==> decoded_sc_or_sl(*v, x),
    decreases v, 1int,
{
    match decode_string_concat(v) { Ok(y) => return Ok(StringConcatOrStringLiteral::StringConcat(Box::new(y))), Err(_) => {}, }
    match decode_string_literal(v) { Ok(y) => return Ok(StringConcatOrStringLiteral::StringLiteral(y)), Err(_) => {}, }
    Err(DecodeError::UnionExhausted)
}


pub open spec fn valid_mrhs_or_empty(v: Value) -> bool
    decreases v, 2int,
{
    valid_mrhs_new_from_args(v)
    || valid_expr_list(v)
}

pub open spec fn decoded_mrhs_or_empty(v: Value, x: MRHSNewFromArgsOrEmpty) -> bool
    decreases v, 2int,
{
    if valid_mrhs_new_from_args(v) {
        x matches MRHSNewFromArgsOrEmpty::MRHSNewFromArgs(y) && decoded_mrhs_new_from_args(v, y)
    } else if valid_expr_list(v) {
        x matches MRHSNewFromArgsOrEmpty::Empty(y) && decoded_expr_list(v, y@)
    } else {
        false
    }
}

pub fn decode_mrhs_or_empty(v: &Value) -> (r: Result<MRHSNewFromArgsOrEmpty, DecodeError>)
    ensures
        r is Ok <==> valid_mrhs_or_empty(*v),
        r matches Ok(x) ==> decoded_mrhs_or_empty(*v, x),
    decreases v, 2int,
{
    match decode_mrhs_new_from_args(v) { Ok(y) => return Ok(MRHSNewFromArgsOrEmpty::MRHSNewFromArgs(y)), Err(_) => {}, }
    match decode_expr_list(v) { Ok(y) => return Ok(MRHSNewFromArgsOrEmpty::Empty(y)), Err(_) => {}, }
    Err(DecodeError::UnionExhausted)
}


pub open spec fn valid_aabo_el(v: Value) -> bool
    decreases v, 2int,
{
    valid_args_add_block(v)
    || valid_expr_list(v)
}

pub open spec fn decoded_aabo_el(v: Value, x: ArgsAddBlockOrExpressionList) -> bool
    decreases v, 2int,
{
    if valid_args_add_block(v) {
        x matches ArgsAddBlockOrExpressionList::ArgsAddBlock(y) && decoded_args_add_block(v, y)
    } else if valid_expr_list(v) {
        x matches ArgsAddBlockOrExpressionList::ExpressionList(y) && decoded_expr_list(v, y@)
    } else {
        false
    }
}

pub fn decode_aabo_el(v: &Value) -> (r: Result<ArgsAddBlockOrExpressionList, DecodeError>)
    ensures
        r is Ok <==> valid_aabo_el(*v),
        r matches Ok(x) ==> decoded_aabo_el(*v, x),
    decreases v, 2int,
{
    match decode_args_add_block(v) { Ok(y) => return Ok(ArgsAddBlockOrExpressionList::ArgsAddBlock(y)), Err(_) => {}, }
    match decode_expr_list(v) { Ok(y) => return Ok(ArgsAddBlockOrExpressionList::ExpressionList(y)), Err(_) => {}, }
    Err(DecodeError::UnionExhausted)
}


pub open spec fn valid_ident_or_var_field(v: Value) -> bool
    decreases v, 1int,
{
    valid_token(v, Tag::Ident)
    || valid_var_field(v)
}

pub open spec fn decoded_ident_or_var_field(v: Value, x: IdentOrVarField) -> bool
    decreases v, 1int,
{
    if valid_token(v, Tag::Ident) {
        x matches IdentOrVarField::Ident(y) && y == Ident(token_text(v), token_pos(v))
    } else if valid_var_field(v) {
        x matches IdentOrVarField::VarField(y) && decoded_var_field(v, y)
    } else {
        false
    }
}

pub fn decode_ident_or_var_field(v: &Value) -> (r: Result<IdentOrVarField, DecodeError>)
    ensures
        r is Ok <==> valid_ident_or_var_field(*v),
        r matches Ok(x) ==> decoded_ident_or_var_field(*v, x),
    decreases v, 1int,
{
    match decode_ident(v) { Ok(y) => return Ok(IdentOrVarField::Ident(y)), Err(_) => {}, }
    match decode_var_field(v) { Ok(y) => return Ok(IdentOrVarField::VarField(y)), Err(_) => {}, }
    Err(DecodeError::UnionExhausted)
}


pub open spec fn valid_assignable(v: Value) -> bool
    decreases v, 1int,
{
    valid_var_field(v)
    || valid_const_path_field(v)
    || valid_rest_param(v)
    || valid_top_const_field(v)
}

pub open spec fn decoded_assignable(v: Value, x: Assignable) -> bool
    decreases v, 1int,
{
    if valid_var_field(v) {
        x matches Assignable::VarField(y) && decoded_var_field(v, y)
    } else if valid_const_path_field(v) {
        x matches Assignable::ConstPathField(y) && decoded_const_path_field(v, y)
    } else if valid_rest_param(v) {
        x matches Assignable::RestParam(y) && decoded_rest_param(v, y)
    } else if valid_top_const_field(v) {
        x matches Assignable::TopConstField(y) && decoded_top_const_field(v, y)
    } else {
        false
    }
}

pub fn decode_assignable(v: &Value) -> (r: Result<Assignable, DecodeError>)
    ensures
        r is Ok <==> valid_assignable(*v),
        r matches Ok(x) ==> decoded_assignable(*v, x),
    decreases v, 1int,
{
    match decode_var_field(v) { Ok(y) => return Ok(Assignable::VarField(y)), Err(_) => {}, }
    match decode_const_path_field(v) { Ok(y) => return Ok(Assignable::ConstPathField(y)), Err(_) => {}, }
    match decode_rest_param(v) { Ok(y) => return Ok(Assignable::RestParam(y)), Err(_) => {}, }
    match decode_top_const_field(v) { Ok(y) => return Ok(Assignable::TopConstField(y)), Err(_) => {}, }
    Err(DecodeError::UnionExhausted)
}


pub open spec fn valid_var_ref_type(v: Value) -> bool
    decreases v, 1int,
{
    valid_token(v, Tag::Gvar)
    || valid_token(v, Tag::Ivar)
    || valid_token(v, Tag::Cvar)
    || valid_token(v, Tag::Ident)
    || valid_token(v, Tag::Const)
    || valid_token(v, Tag::Kw)
}

pub open spec fn decoded_var_ref_type(v: Value, x: VarRefType) -> bool
    decreases v, 1int,
{
    if valid_token(v, Tag::Gvar) {
        x matches VarRefType::GVar(y) && y == GVar(token_text(v), token_pos(v))
    } else if valid_token(v, Tag::Ivar) {
        x matches VarRefType::IVar(y) && y == IVar(token_text(v), token_pos(v))
    } else if valid_token(v, Tag::Cvar) {
        x matches VarRefType::CVar(y) && y == CVar(token_text(v), token_pos(v))
    } else if valid_token(v, Tag::Ident) {
        x matches VarRefType::Ident(y) && y == Ident(token_text(v), token_pos(v))
    } else if valid_token(v, Tag::Const) {
        x matches VarRefType::Const(y) && y == Const(token_text(v), token_pos(v))
    } else if valid_token(v, Tag::Kw) {
        x matches VarRefType::Kw(y) && y == Kw(token_text(v), token_pos(v))
    } else {
        false
    }
}

pub fn decode_var_ref_type(v: &Value) -> (r: Result<VarRefType, DecodeError>)
    ensures
        r is Ok <==> valid_var_ref_type(*v),
        r matches Ok(x) ==> decoded_var_ref_type(*v, x),
    decreases v, 1int,
{
    match decode_gvar(v) { Ok(y) => return Ok(VarRefType::GVar(y)), Err(_) => {}, }
    match decode_ivar(v) { Ok(y) => return Ok(VarRefType::IVar(y)), Err(_) => {}, }
    match decode_cvar(v) { Ok(y) => return Ok(VarRefType::CVar(y)), Err(_) => {}, }
    match decode_ident(v) { Ok(y) => return Ok(VarRefType::Ident(y)), Err(_) => {}, }
    match decode_const(v) { Ok(y) => return Ok(VarRefType::Const(y)), Err(_) => {}, }
    match decode_kw(v) { Ok(y) => return Ok(VarRefType::Kw(y)), Err(_) => {}, }
    Err(DecodeError::UnionExhausted)
}


pub open spec fn valid_sc_or_parts(v: Value) -> bool
    decreases v, 2int,
{
    valid_string_content(v)
    || valid_scp_list(v)
}

pub open spec fn decoded_sc_or_parts(v: Value, x: StringContentOrStringContentParts) -> bool
    decreases v, 2int,
{
    if valid_string_content(v) {
        x matches StringContentOrStringContentParts::StringContent(y) && decoded_string_content(v, y)
    } else if valid_scp_list(v) {
        x matches StringContentOrStringContentParts::StringContentParts(y) && decoded_scp_list(v, y@)
    } else {
        false
    }
}

pub fn decode_sc_or_parts(v: &Value) -> (r: Result<StringContentOrStringContentParts, DecodeError>)
    ensures
        r is Ok <==> valid_sc_or_parts(*v),
        r matches Ok(x) ==> decoded_sc_or_parts(*v, x),
    decreases v, 2int,
{
    match decode_string_content(v) { Ok(y) => return Ok(StringContentOrStringContentParts::StringContent(y)), Err(_) => {}, }
    match decode_scp_list(v) { Ok(y) => return Ok(StringContentOrStringContentParts::StringContentParts(y)), Err(_) => {}, }
    Err(DecodeError::UnionExhausted)
}


pub open spec fn valid_string_content_part(v: Value) -> bool
    decreases v, 1int,
{
    valid_token(v, Tag::TstringContent)
    || valid_string_embexpr(v)
    || valid_string_dvar(v)
}

pub open spec fn decoded_string_content_part(v: Value, x: StringContentPart) -> bool
    decreases v, 1int,
{
    if valid_token(v, Tag::TstringContent) {
        x matches StringContentPart::TStringContent(y) && y == TStringContent(token_text(v), token_pos(v))
    } else if valid_string_embexpr(v) {
        x matches StringContentPart::StringEmbexpr(y) && decoded_string_embexpr(v, y)
    } else if valid_string_dvar(v) {
        x matches StringContentPart::StringDVar(y) && decoded_string_dvar(v, y)
    } else {
        false
    }
}

pub fn decode_string_content_part(v: &Value) -> (r: Result<StringContentPart, DecodeError>)
    ensures
        r is Ok <==> valid_string_content_part(*v),
        r matches Ok(x) ==> decoded_string_content_part(*v, x),
    decreases v, 1int,
{
    match decode_tstring_content(v) { Ok(y) => return Ok(StringContentPart::TStringContent(y)), Err(_) => {}, }
    match decode_string_embexpr(v) { Ok(y) => return Ok(StringContentPart::StringEmbexpr(y)), Err(_) => {}, }
    match decode_string_dvar(v) { Ok(y) => return Ok(StringContentPart::StringDVar(y)), Err(_) => {}, }
    Err(DecodeError::UnionExhausted)
}


pub open spec fn valid_aasoel(v: Value) -> bool
    decreases v, 2int,
{
    valid_expr_list(v)
    || valid_args_add_star(v)
}

pub open spec fn decoded_aasoel(v: Value, x: ArgsAddStarOrExpressionList) -> bool
    decreases v, 2int,
{
    if valid_expr_list(v) {
        x matches ArgsAddStarOrExpressionList::ExpressionList(y) && decoded_expr_list(v, y@)
    } else if valid_args_add_star(v) {
        x matches ArgsAddStarOrExpressionList::ArgsAddStar(y) && decoded_args_add_star(v, y)
    } else {
        false
    }
}

pub fn decode_aasoel(v: &Value) -> (r: Result<ArgsAddStarOrExpressionList, DecodeError>)
    ensures
        r is Ok <==> valid_aasoel(*v),
        r matches Ok(x) ==> decoded_aasoel(*v, x),
    decreases v, 2int,
{
    match decode_expr_list(v) { Ok(y) => return Ok(ArgsAddStarOrExpressionList::ExpressionList(y)), Err(_) => {}, }
    match decode_args_add_star(v) { Ok(y) => return Ok(ArgsAddStarOrExpressionList::ArgsAddStar(y)), Err(_) => {}, }
    Err(DecodeError::UnionExhausted)
}


pub open spec fn valid_paren_or_params(v: Value) -> bool
    decreases v, 1int,
{
    valid_paren(v)
    || valid_params(v)
}

pub open spec fn decoded_paren_or_params(v: Value, x: ParenOrParams) -> bool
    decreases v, 1int,
{
    if valid_paren(v) {
        x matches ParenOrParams::Paren(y) && decoded_paren(v, y)
    } else if valid_params(v) {
        x matches ParenOrParams::Params(y) && decoded_params(v, y)
    } else {
        false
    }
}

pub fn decode_paren_or_params(v: &Value) -> (r: Result<ParenOrParams, DecodeError>)
    ensures
        r is Ok <==> valid_paren_or_params(*v),
        r matches Ok(x) ==> decoded_paren_or_params(*v, x),
    decreases v, 1int,
{
    match decode_paren(v) { Ok(y) => return Ok(ParenOrParams::Paren(y)), Err(_) => {}, }
    match decode_params(v) { Ok(y) => return Ok(ParenOrParams::Params(y)), Err(_) => {}, }
    Err(DecodeError::UnionExhausted)
}


pub open spec fn valid_call_expr(v: Value) -> bool
    decreases v, 4int,
{
    valid_fcall(v)
    || valid_call(v)
    || valid_expression(v)
}

pub open spec fn decoded_call_expr(v: Value, x: CallExpr) -> bool
    decreases v, 4int,
{
    if valid_fcall(v) {
        x matches CallExpr::FCall(y) && decoded_fcall(v, y)
    } else if valid_call(v) {
        x matches CallExpr::Call(y) && decoded_call(v, y)
    } else if valid_expression(v) {
        x matches CallExpr::Expression(y) && decoded_expression(v, *y)
    } else {
        false
    }
}

pub fn decode_call_expr(v: &Value) -> (r: Result<CallExpr, DecodeError>)
    ensures
        r is Ok <==> valid_call_expr(*v),
        r matches Ok(x) ==> decoded_call_expr(*v, x),
    decreases v, 4int,
{
    match decode_fcall(v) { Ok(y) => return Ok(CallExpr::FCall(y)), Err(_) => {}, }
    match decode_call(v) { Ok(y) => return Ok(CallExpr::Call(y)), Err(_) => {}, }
    match decode_expression(v) { Ok(y) => return Ok(CallExpr::Expression(Box::new(y))), Err(_) => {}, }
    Err(DecodeError::UnionExhausted)
}


pub open spec fn valid_call_chain_element(v: Value) -> bool
    decreases v, 4int,
{
    valid_expression(v)
    || valid_dtoo(v)
}

pub open spec fn decoded_call_chain_element(v: Value, x: CallChainElement) -> bool
    decreases v, 4int,
{
    if valid_expression(v) {
        x matches CallChainElement::Expression(y) && decoded_expression(v, *y)
    } else if valid_dtoo(v) {
        x matches CallChainElement::Dot(y) && decoded_dtoo(v, y)
    } else {
        false
    }
}

pub fn decode_call_chain_element(v: &Value) -> (r: Result<CallChainElement, DecodeError>)
    ensures
        r is Ok <==> valid_call_chain_element(*v),
        r matches Ok(x) ==> decoded_call_chain_element(*v, x),
    decreases v, 4int,
{
    match decode_expression(v) { Ok(y) => return Ok(CallChainElement::Expression(Box::new(y))), Err(_) => {}, }
    match decode_dtoo(v) { Ok(y) => return Ok(CallChainElement::Dot(y)), Err(_) => {}, }
    Err(DecodeError::UnionExhausted)
}


pub open spec fn valid_assoc(v: Value) -> bool
    decreases v, 1int,
{
    valid_assoc_new(v)
    || valid_assoc_splat(v)
}

pub open spec fn decoded_assoc(v: Value, x: AssocNewOrAssocSplat) -> bool
    decreases v, 1int,
{
    if valid_assoc_new(v) {
        x matches AssocNewOrAssocSplat::AssocNew(y) && decoded_assoc_new(v, y)
    } else if valid_assoc_splat(v) {
        x matches AssocNewOrAssocSplat::AssocSplat(y) && decoded_assoc_splat(v, y)
    } else {
        false
    }
}

pub fn decode_assoc(v: &Value) -> (r: Result<AssocNewOrAssocSplat, DecodeError>)
    ensures
        r is Ok <==> valid_assoc(*v),
        r matches Ok(x) ==> decoded_assoc(*v, x),
    decreases v, 1int,
{
    match decode_assoc_new(v) { Ok(y) => return Ok(AssocNewOrAssocSplat::AssocNew(y)), Err(_) => {}, }
    match decode_assoc_splat(v) { Ok(y) => return Ok(AssocNewOrAssocSplat::AssocSplat(y)), Err(_) => {}, }
    Err(DecodeError::UnionExhausted)
}


pub open spec fn valid_lsd(v: Value) -> bool
    decreases v, 1int,
{
    valid_token(v, Tag::Label)
    || valid_symbol_literal(v)
    || valid_dyna_symbol(v)
}

pub open spec fn decoded_lsd(v: Value, x: LabelOrSymbolLiteralOrDynaSymbol) -> bool
    decreases v, 1int,
{
    if valid_token(v, Tag::Label) {
        x matches LabelOrSymbolLiteralOrDynaSymbol::Label(y) && y == Label(token_text(v), token_pos(v))
    } else if valid_symbol_literal(v) {
        x matches LabelOrSymbolLiteralOrDynaSymbol::SymbolLiteral(y) && decoded_symbol_literal(v, y)
    } else if valid_dyna_symbol(v) {
        x matches LabelOrSymbolLiteralOrDynaSymbol::DynaSymbol(y) && decoded_dyna_symbol(v, y)
    } else {
        false
    }
}

pub fn decode_lsd(v: &Value) -> (r: Result<LabelOrSymbolLiteralOrDynaSymbol, DecodeError>)
    ensures
        r is Ok <==> valid_lsd(*v),
        r matches Ok(x) ==> decoded_lsd(*v, x),
    decreases v, 1int,
{
    match decode_label(v) { Ok(y) => return Ok(LabelOrSymbolLiteralOrDynaSymbol::Label(y)), Err(_) => {}, }
    match decode_symbol_literal(v) { Ok(y) => return Ok(LabelOrSymbolLiteralOrDynaSymbol::SymbolLiteral(y)), Err(_) => {}, }
    match decode_dyna_symbol(v) { Ok(y) => return Ok(LabelOrSymbolLiteralOrDynaSymbol::DynaSymbol(y)), Err(_) => {}, }
    Err(DecodeError::UnionExhausted)
}


pub open spec fn valid_symbol_or_bare(v: Value) -> bool
    decreases v, 1int,
{
    valid_token(v, Tag::Ident)
    || valid_op(v)
    || valid_symbol(v)
}

pub open spec fn decoded_symbol_or_bare(v: Value, x: SymbolOrBare) -> bool
    decreases v, 1int,
{
    if valid_token(v, Tag::Ident) {
        x matches SymbolOrBare::Ident(y) && y == Ident(token_text(v), token_pos(v))
    } else if valid_op(v) {
        x matches SymbolOrBare::Op(y) && decoded_op(v, y)
    } else if valid_symbol(v) {
        x matches SymbolOrBare::Symbol(y) && decoded_symbol(v, y)
    } else {
        false
    }
}

pub fn decode_symbol_or_bare(v: &Value) -> (r: Result<SymbolOrBare, DecodeError>)
    ensures
        r is Ok <==> valid_symbol_or_bare(*v),
        r matches Ok(x) ==> decoded_symbol_or_bare(*v, x),
    decreases v, 1int,
{
    match decode_ident(v) { Ok(y) => return Ok(SymbolOrBare::Ident(y)), Err(_) => {}, }
    match decode_op(v) { Ok(y) => return Ok(SymbolOrBare::Op(y)), Err(_) => {}, }
    match decode_symbol(v) { Ok(y) => return Ok(SymbolOrBare::Symbol(y)), Err(_) => {}, }
    Err(DecodeError::UnionExhausted)
}


pub open spec fn valid_ident_or_const(v: Value) -> bool
    decreases v, 1int,
{
    valid_token(v, Tag::Ident)
    || valid_token(v, Tag::Const)
}

pub open spec fn decoded_ident_or_const(v: Value, x: IdentOrConst) -> bool
    decreases v, 1int,
{
    if valid_token(v, Tag::Ident) {
        x matches IdentOrConst::Ident(y) && y == Ident(token_text(v), token_pos(v))
    } else if valid_token(v, Tag::Const) {
        x matches IdentOrConst::Const(y) && y == Const(token_text(v), token_pos(v))
    } else {
        false
    }
}

pub fn decode_ident_or_const(v: &Value) -> (r: Result<IdentOrConst, DecodeError>)
    ensures
        r is Ok <==> valid_ident_or_const(*v),
        r matches Ok(x) ==> decoded_ident_or_const(*v, x),
    decreases v, 1int,
{
    match decode_ident(v) { Ok(y) => return Ok(IdentOrConst::Ident(y)), Err(_) => {}, }
    match decode_const(v) { Ok(y) => return Ok(IdentOrConst::Const(y)), Err(_) => {}, }
    Err(DecodeError::UnionExhausted)
}


pub open spec fn valid_cpr_or_cr(v: Value) -> bool
    decreases v, 1int,
{
    valid_const_path_ref(v)
    || valid_const_ref(v)
}

pub open spec fn decoded_cpr_or_cr(v: Value, x: ConstPathRefOrConstRef) -> bool
    decreases v, 1int,
{
    if valid_const_path_ref(v) {
        x matches ConstPathRefOrConstRef::ConstPathRef(y) && decoded_const_path_ref(v, y)
    } else if valid_const_ref(v) {
        x matches ConstPathRefOrConstRef::ConstRef(y) && decoded_const_ref(v, y)
    } else {
        false
    }
}

pub fn decode_cpr_or_cr(v: &Value) -> (r: Result<ConstPathRefOrConstRef, DecodeError>)
    ensures
        r is Ok <==> valid_cpr_or_cr(*v),
        r matches Ok(x) ==> decoded_cpr_or_cr(*v, x),
    decreases v, 1int,
{
    match decode_const_path_ref(v) { Ok(y) => return Ok(ConstPathRefOrConstRef::ConstPathRef(y)), Err(_) => {}, }
    match decode_const_ref(v) { Ok(y) => return Ok(ConstPathRefOrConstRef::ConstRef(y)), Err(_) => {}, }
    Err(DecodeError::UnionExhausted)
}


pub open spec fn valid_singleton(v: Value) -> bool
    decreases v, 1int,
{
    valid_var_ref(v)
    || valid_paren_expr(v)
}

pub open spec fn decoded_singleton(v: Value, x: Singleton) -> bool
    decreases v, 1int,
{
    if valid_var_ref(v) {
        x matches Singleton::VarRef(y) && decoded_var_ref(v, y)
    } else if valid_paren_expr(v) {
        x matches Singleton::Paren(y) && decoded_paren_expr(v, y)
    } else {
        false
    }
}

pub fn decode_singleton(v: &Value) -> (r: Result<Singleton, DecodeError>)
    ensures
        r is Ok <==> valid_singleton(*v),
        r matches Ok(x) ==> decoded_singleton(*v, x),
    decreases v, 1int,
{
    match decode_var_ref(v) { Ok(y) => return Ok(Singleton::VarRef(y)), Err(_) => {}, }
    match decode_paren_expr(v) { Ok(y) => return Ok(Singleton::Paren(y)), Err(_) => {}, }
    Err(DecodeError::UnionExhausted)
}


pub open spec fn valid_dot_or_colon(v: Value) -> bool
    decreases v, 1int,
{
    valid_token(v, Tag::Period)
    || valid_operator(v)
}

pub open spec fn decoded_dot_or_colon(v: Value, x: DotOrColon) -> bool
    decreases v, 1int,
{
    if valid_token(v, Tag::Period) {
        x matches DotOrColon::Period(y) && y == Period(token_text(v), token_pos(v))
    } else if valid_operator(v) {
        x matches DotOrColon::Op(y) && decoded_operator(v, y)
    } else {
        false
    }
}

pub fn decode_dot_or_colon(v: &Value) -> (r: Result<DotOrColon, DecodeError>)
    ensures
        r is Ok <==> valid_dot_or_colon(*v),
        r matches Ok(x) ==> decoded_dot_or_colon(*v, x),
    decreases v, 1int,
{
    match decode_period(v) { Ok(y) => return Ok(DotOrColon::Period(y)), Err(_) => {}, }
    match decode_operator(v) { Ok(y) => return Ok(DotOrColon::Op(y)), Err(_) => {}, }
    Err(DecodeError::UnionExhausted)
}


pub open spec fn valid_single_or_mrhs(v: Value) -> bool
    decreases v, 2int,
{
    valid_expr_list(v)
    || valid_mrhs_new_from_args(v)
    || valid_mrhs_add_star(v)
}

pub open spec fn decoded_single_or_mrhs(v: Value, x: SingleOrMRHSNewFromArgsOrMRHSAddStar) -> bool
    decreases v, 2int,
{
    if valid_expr_list(v) {
        x matches SingleOrMRHSNewFromArgsOrMRHSAddStar::Single(y) && decoded_expr_list(v, y@)
    } else if valid_mrhs_new_from_args(v) {
        x matches SingleOrMRHSNewFromArgsOrMRHSAddStar::MRHSNewFromArgs(y) && decoded_mrhs_new_from_args(v, y)
    } else if valid_mrhs_add_star(v) {
        x matches SingleOrMRHSNewFromArgsOrMRHSAddStar::MRHSAddStar(y) && decoded_mrhs_add_star(v, y)
    } else {
        false
    }
}

pub fn decode_single_or_mrhs(v: &Value) -> (r: Result<SingleOrMRHSNewFromArgsOrMRHSAddStar, DecodeError>)
    ensures
        r is Ok <==> valid_single_or_mrhs(*v),
        r matches Ok(x) ==> decoded_single_or_mrhs(*v, x),
    decreases v, 2int,
{
    match decode_expr_list(v) { Ok(y) => return Ok(SingleOrMRHSNewFromArgsOrMRHSAddStar::Single(y)), Err(_) => {}, }
    match decode_mrhs_new_from_args(v) { Ok(y) => return Ok(SingleOrMRHSNewFromArgsOrMRHSAddStar::MRHSNewFromArgs(y)), Err(_) => {}, }
    match decode_mrhs_add_star(v) { Ok(y) => return Ok(SingleOrMRHSNewFromArgsOrMRHSAddStar::MRHSAddStar(y)), Err(_) => {}, }
    Err(DecodeError::UnionExhausted)
}


// ------------------------------------------------------------------
// Fixed-arity tagged nodes
// ------------------------------------------------------------------

/// The top-level node: the `program` tag wrapping the statement list.
pub open spec fn valid_program(v: Value) -> bool
    decreases v, 0int,
{
    match v {
        Value::List(items) => has_tag(v, Tag::Program) && items@.len() == 2
            && valid_expr_list(items@[1]),
        _ => false,
    }
}

pub open spec fn decoded_program(v: Value, x: Program) -> bool
    decreases v, 0int,
{
    match v {
        Value::List(items) => {
            &&& items@.len() == 2
            &&& (decoded_expr_list(items@[1], x.0@))
        },
        _ => false,
    }
}

/// The decoding entry point: checks the root value against the
/// top-level `program` tag and decodes the whole tree beneath it.
pub fn decode_program(v: &Value) -> (r: Result<Program, DecodeError>)
    ensures
        r is Ok <==> valid_program(*v),
        r matches Ok(x) ==> decoded_program(*v, x),
        spec_check_tag(*v, Tag::Program) matches Err(e) ==> r == Err::<Program, DecodeError>(e),
        has_tag(*v, Tag::Program) ==> (spec_arity(Tag::Program, v->List_0@, 2) matches Err(e2)
            ==> r == Err::<Program, DecodeError>(e2)),
    decreases v, 0int,
{
    let items = tagged_elems(v, Tag::Program)?;
    check_arity(Tag::Program, items, 2)?;
    let f0 = decode_expr_list(&items[1])?;
    Ok(Program(f0))
}


pub open spec fn valid_if_node(v: Value) -> bool
    decreases v, 0int,
{
    match v {
        Value::List(items) => has_tag(v, Tag::If) && items@.len() == 4
            && valid_expression(items@[1])
            && valid_expr_list(items@[2])
            && (items@[3] is Null || valid_elsif_or_else(items@[3])),
        _ => false,
    }
}

pub open spec fn decoded_if_node(v: Value, x: If) -> bool
    decreases v, 0int,
{
    match v {
        Value::List(items) => {
            &&& items@.len() == 4
            &&& (decoded_expression(items@[1], *x.0))
            &&& (decoded_expr_list(items@[2], x.1@))
            &&& (match x.2 { Option::None => items@[3] is Null, Option::Some(y) => !(items@[3] is Null) && decoded_elsif_or_else(items@[3], y) })
        },
        _ => false,
    }
}

pub fn decode_if_node(v: &Value) -> (r: Result<If, DecodeError>)
    ensures
        r is Ok <==> valid_if_node(*v),
        r matches Ok(x) ==> decoded_if_node(*v, x),
        spec_check_tag(*v, Tag::If) matches Err(e) ==> r == Err::<If, DecodeError>(e),
        has_tag(*v, Tag::If) ==> (spec_arity(Tag::If, v->List_0@, 4) matches Err(e2)
            ==> r == Err::<If, DecodeError>(e2)),
    decreases v, 0int,
{
    let items = tagged_elems(v, Tag::If)?;
    check_arity(Tag::If, items, 4)?;
    let f0 = decode_expression(&items[1])?;
    let f1 = decode_expr_list(&items[2])?;
    let f2 = if is_null(&items[3]) { None } else { Some(decode_elsif_or_else(&items[3])?) };
    Ok(If(Box::new(f0), f1, f2))
}


pub open spec fn valid_elsif(v: Value) -> bool
    decreases v, 0int,
{
    match v {
        Value::List(items) => has_tag(v, Tag::Elsif) && items@.len() == 4
            && valid_expression(items@[1])
            && valid_expr_list(items@[2])
            && (items@[3] is Null || valid_elsif_or_else(items@[3])),
        _ => false,
    }
}

pub open spec fn decoded_elsif(v: Value, x: Elsif) -> bool
    decreases v, 0int,
{
    match v {
        Value::List(items) => {
            &&& items@.len() == 4
            &&& (decoded_expression(items@[1], *x.0))
            &&& (decoded_expr_list(items@[2], x.1@))
            &&& (match x.2 { Option::None => items@[3] is Null, Option::Some(y) => !(items@[3] is Null) && decoded_elsif_or_else(items@[3], *y) })
        },
        _ => false,
    }
}

pub fn decode_elsif(v: &Value) -> (r: Result<Elsif, DecodeError>)
    ensures
        r is Ok <==> valid_elsif(*v),
        r matches Ok(x) ==> decoded_elsif(*v, x),
        spec_check_tag(*v, Tag::Elsif) matches Err(e) ==> r == Err::<Elsif, DecodeError>(e),
        has_tag(*v, Tag::Elsif) ==> (spec_arity(Tag::Elsif, v->List_0@, 4) matches Err(e2)
            ==> r == Err::<Elsif, DecodeError>(e2)),
    decreases v, 0int,
{
    let items = tagged_elems(v, Tag::Elsif)?;
    check_arity(Tag::Elsif, items, 4)?;
    let f0 = decode_expression(&items[1])?;
    let f1 = decode_expr_list(&items[2])?;
    let f2 = if is_null(&items[3]) { None } else { Some(Box::new(decode_elsif_or_else(&items[3])?)) };
    Ok(Elsif(Box::new(f0), f1, f2))
}


pub open spec fn valid_else_node(v: Value) -> bool
    decreases v, 0int,
{
    match v {
        Value::List(items) => has_tag(v, Tag::Else) && items@.len() == 2
            && valid_expr_list(items@[1]),
        _ => false,
    }
}

pub open spec fn decoded_else_node(v: Value, x: Else) -> bool
    decreases v, 0int,
{
    match v {
        Value::List(items) => {
            &&& items@.len() == 2
            &&& (decoded_expr_list(items@[1], x.0@))
        },
        _ => false,
    }
}

pub fn decode_else_node(v: &Value) -> (r: Result<Else, DecodeError>)
    ensures
        r is Ok <==> valid_else_node(*v),
        r matches Ok(x) ==> decoded_else_node(*v, x),
        spec_check_tag(*v, Tag::Else) matches Err(e) ==> r == Err::<Else, DecodeError>(e),
        has_tag(*v, Tag::Else) ==> (spec_arity(Tag::Else, v->List_0@, 2) matches Err(e2)
            ==> r == Err::<Else, DecodeError>(e2)),
    decreases v, 0int,
{
    let items = tagged_elems(v, Tag::Else)?;
    check_arity(Tag::Else, items, 2)?;
    let f0 = decode_expr_list(&items[1])?;
    Ok(Else(f0))
}


pub open spec fn valid_undef(v: Value) -> bool
    decreases v, 0int,
{
    match v {
        Value::List(items) => has_tag(v, Tag::Undef) && items@.len() == 2
            && valid_symbol_literal_list(items@[1]),
        _ => false,
    }
}

pub open spec fn decoded_undef(v: Value, x: Undef) -> bool
    decreases v, 0int,
{
    match v {
        Value::List(items) => {
            &&& items@.len() == 2
            &&& (decoded_symbol_literal_list(items@[1], x.0@))
        },
        _ => false,
    }
}

pub fn decode_undef(v: &Value) -> (r: Result<Undef, DecodeError>)
    ensures
        r is Ok <==> valid_undef(*v),
        r matches Ok(x) ==> decoded_undef(*v, x),
        spec_check_tag(*v, Tag::Undef) matches Err(e) ==> r == Err::<Undef, DecodeError>(e),
        has_tag(*v, Tag::Undef) ==> (spec_arity(Tag::Undef, v->List_0@, 2) matches Err(e2)
            ==> r == Err::<Undef, DecodeError>(e2)),
    decreases v, 0int,
{
    let items = tagged_elems(v, Tag::Undef)?;
    check_arity(Tag::Undef, items, 2)?;
    let f0 = decode_symbol_literal_list(&items[1])?;
    Ok(Undef(f0))
}


pub open spec fn valid_string_concat(v: Value) -> bool
    decreases v, 0int,
{
    match v {
        Value::List(items) => has_tag(v, Tag::StringConcat) && items@.len() == 3
            && valid_sc_or_sl(items@[1])
            && valid_string_literal(items@[2]),
        _ => false,
    }
}

pub open spec fn decoded_string_concat(v: Value, x: StringConcat) -> bool
    decreases v, 0int,
{
    match v {
        Value::List(items) => {
            &&& items@.len() == 3
            &&& (decoded_sc_or_sl(items@[1], x.0))
            &&& (decoded_string_literal(items@[2], x.1))
        },
        _ => false,
    }
}

pub fn decode_string_concat(v: &Value) -> (r: Result<StringConcat, DecodeError>)
    ensures
        r is Ok <==> valid_string_concat(*v),
        r matches Ok(x) ==> decoded_string_concat(*v, x),
        spec_check_tag(*v, Tag::StringConcat) matches Err(e) ==> r == Err::<StringConcat, DecodeError>(e),
        has_tag(*v, Tag::StringConcat) ==> (spec_arity(Tag::StringConcat, v->List_0@, 3) matches Err(e2)
            ==> r == Err::<StringConcat, DecodeError>(e2)),
    decreases v, 0int,
{
    let items = tagged_elems(v, Tag::StringConcat)?;
    check_arity(Tag::StringConcat, items, 3)?;
    let f0 = decode_sc_or_sl(&items[1])?;
    let f1 = decode_string_literal(&items[2])?;
    Ok(StringConcat(f0, f1))
}


pub open spec fn valid_mrhs_add_star(v: Value) -> bool
    decreases v, 0int,
{
    match v {
        Value::List(items) => has_tag(v, Tag::MrhsAddStar) && items@.len() == 3
            && valid_mrhs_or_empty(items@[1])
            && valid_expression(items@[2]),
        _ => false,
    }
}

pub open spec fn decoded_mrhs_add_star(v: Value, x: MRHSAddStar) -> bool
    decreases v, 0int,
{
    match v {
        Value::List(items) => {
            &&& items@.len() == 3
            &&& (decoded_mrhs_or_empty(items@[1], x.0))
            &&& (decoded_expression(items@[2], *x.1))
        },
        _ => false,
    }
}

pub fn decode_mrhs_add_star(v: &Value) -> (r: Result<MRHSAddStar, DecodeError>)
    ensures
        r is Ok <==> valid_mrhs_add_star(*v),
        r matches Ok(x) ==> decoded_mrhs_add_star(*v, x),
        spec_check_tag(*v, Tag::MrhsAddStar) matches Err(e) ==> r == Err::<MRHSAddStar, DecodeError>(e),
        has_tag(*v, Tag::MrhsAddStar) ==> (spec_arity(Tag::MrhsAddStar, v->List_0@, 3) matches Err(e2)
            ==> r == Err::<MRHSAddStar, DecodeError>(e2)),
    decreases v, 0int,
{
    let items = tagged_elems(v, Tag::MrhsAddStar)?;
    check_arity(Tag::MrhsAddStar, items, 3)?;
    let f0 = decode_mrhs_or_empty(&items[1])?;
    let f1 = decode_expression(&items[2])?;
    Ok(MRHSAddStar(f0, Box::new(f1)))
}


pub open spec fn valid_mrhs_new_from_args(v: Value) -> bool
    decreases v, 0int,
{
    match v {
        Value::List(items) => has_tag(v, Tag::MrhsNewFromArgs) && items@.len() == 2
            && valid_aasoel(items@[1]),
        _ => false,
    }
}

pub open spec fn decoded_mrhs_new_from_args(v: Value, x: MRHSNewFromArgs) -> bool
    decreases v, 0int,
{
    match v {
        Value::List(items) => {
            &&& items@.len() == 2
            &&& (decoded_aasoel(items@[1], x.0))
        },
        _ => false,
    }
}

pub fn decode_mrhs_new_from_args(v: &Value) -> (r: Result<MRHSNewFromArgs, DecodeError>)
    ensures
        r is Ok <==> valid_mrhs_new_from_args(*v),
        r matches Ok(x) ==> decoded_mrhs_new_from_args(*v, x),
        spec_check_tag(*v, Tag::MrhsNewFromArgs) matches Err(e) ==> r == Err::<MRHSNewFromArgs, DecodeError>(e),
        has_tag(*v, Tag::MrhsNewFromArgs) ==> (spec_arity(Tag::MrhsNewFromArgs, v->List_0@, 2) matches Err(e2)
            ==> r == Err::<MRHSNewFromArgs, DecodeError>(e2)),
    decreases v, 0int,
{
    let items = tagged_elems(v, Tag::MrhsNewFromArgs)?;
    check_arity(Tag::MrhsNewFromArgs, items, 2)?;
    let f0 = decode_aasoel(&items[1])?;
    Ok(MRHSNewFromArgs(f0))
}


pub open spec fn valid_rescue_mod(v: Value) -> bool
    decreases v, 0int,
{
    match v {
        Value::List(items) => has_tag(v, Tag::RescueMod) && items@.len() == 3
            && valid_expression(items@[1])
            && valid_expression(items@[2]),
        _ => false,
    }
}

pub open spec fn decoded_rescue_mod(v: Value, x: RescueMod) -> bool
    decreases v, 0int,
{
    match v {
        Value::List(items) => {
            &&& items@.len() == 3
            &&& (decoded_expression(items@[1], *x.0))
            &&& (decoded_expression(items@[2], *x.1))
        },
        _ => false,
    }
}

pub fn decode_rescue_mod(v: &Value) -> (r: Result<RescueMod, DecodeError>)
    ensures
        r is Ok <==> valid_rescue_mod(*v),
        r matches Ok(x) ==> decoded_rescue_mod(*v, x),
        spec_check_tag(*v, Tag::RescueMod) matches Err(e) ==> r == Err::<RescueMod, DecodeError>(e),
        has_tag(*v, Tag::RescueMod) ==> (spec_arity(Tag::RescueMod, v->List_0@, 3) matches Err(e2)
            ==> r == Err::<RescueMod, DecodeError>(e2)),
    decreases v, 0int,
{
    let items = tagged_elems(v, Tag::RescueMod)?;
    check_arity(Tag::RescueMod, items, 3)?;
    let f0 = decode_expression(&items[1])?;
    let f1 = decode_expression(&items[2])?;
    Ok(RescueMod(Box::new(f0), Box::new(f1)))
}


pub open spec fn valid_defined(v: Value) -> bool
    decreases v, 0int,
{
    match v {
        Value::List(items) => has_tag(v, Tag::Defined) && items@.len() == 2
            && valid_expression(items@[1]),
        _ => false,
    }
}

pub open spec fn decoded_defined(v: Value, x: Defined) -> bool
    decreases v, 0int,
{
    match v {
        Value::List(items) => {
            &&& items@.len() == 2
            &&& (decoded_expression(items@[1], *x.0))
        },
        _ => false,
    }
}

pub fn decode_defined(v: &Value) -> (r: Result<Defined, DecodeError>)
    ensures
        r is Ok <==> valid_defined(*v),
        r matches Ok(x) ==> decoded_defined(*v, x),
        spec_check_tag(*v, Tag::Defined) matches Err(e) ==> r == Err::<Defined, DecodeError>(e),
        has_tag(*v, Tag::Defined) ==> (spec_arity(Tag::Defined, v->List_0@, 2) matches Err(e2)
            ==> r == Err::<Defined, DecodeError>(e2)),
    decreases v, 0int,
{
    let items = tagged_elems(v, Tag::Defined)?;
    check_arity(Tag::Defined, items, 2)?;
    let f0 = decode_expression(&items[1])?;
    Ok(Defined(Box::new(f0)))
}


pub open spec fn valid_top_const_ref(v: Value) -> bool
    decreases v, 0int,
{
    match v {
        Value::List(items) => has_tag(v, Tag::TopConstRef) && items@.len() == 2
            && valid_token(items@[1], Tag::Const),
        _ => false,
    }
}

pub open spec fn decoded_top_const_ref(v: Value, x: TopConstRef) -> bool
    decreases v, 0int,
{
    match v {
        Value::List(items) => {
            &&& items@.len() == 2
            &&& (x.0 == Const(token_text(items@[1]), token_pos(items@[1])))
        },
        _ => false,
    }
}

pub fn decode_top_const_ref(v: &Value) -> (r: Result<TopConstRef, DecodeError>)
    ensures
        r is Ok <==> valid_top_const_ref(*v),
        r matches Ok(x) ==> decoded_top_const_ref(*v, x),
        spec_check_tag(*v, Tag::TopConstRef) matches Err(e) ==> r == Err::<TopConstRef, DecodeError>(e),
        has_tag(*v, Tag::TopConstRef) ==> (spec_arity(Tag::TopConstRef, v->List_0@, 2) matches Err(e2)
            ==> r == Err::<TopConstRef, DecodeError>(e2)),
    decreases v, 0int,
{
    let items = tagged_elems(v, Tag::TopConstRef)?;
    check_arity(Tag::TopConstRef, items, 2)?;
    let f0 = decode_const(&items[1])?;
    Ok(TopConstRef(f0))
}


pub open spec fn valid_top_const_field(v: Value) -> bool
    decreases v, 0int,
{
    match v {
        Value::List(items) => has_tag(v, Tag::TopConstField) && items@.len() == 2
            && valid_token(items@[1], Tag::Const),
        _ => false,
    }
}

pub open spec fn decoded_top_const_field(v: Value, x: TopConstField) -> bool
    decreases v, 0int,
{
    match v {
        Value::List(items) => {
            &&& items@.len() == 2
            &&& (x.0 == Const(token_text(items@[1]), token_pos(items@[1])))
        },
        _ => false,
    }
}

pub fn decode_top_const_field(v: &Value) -> (r: Result<TopConstField, DecodeError>)
    ensures
        r is Ok <==> valid_top_const_field(*v),
        r matches Ok(x) ==> decoded_top_const_field(*v, x),
        spec_check_tag(*v, Tag::TopConstField) matches Err(e) ==> r == Err::<TopConstField, DecodeError>(e),
        has_tag(*v, Tag::TopConstField) ==> (spec_arity(Tag::TopConstField, v->List_0@, 2) matches Err(e2)
            ==> r == Err::<TopConstField, DecodeError>(e2)),
    decreases v, 0int,
{
    let items = tagged_elems(v, Tag::TopConstField)?;
    check_arity(Tag::TopConstField, items, 2)?;
    let f0 = decode_const(&items[1])?;
    Ok(TopConstField(f0))
}


pub open spec fn valid_const_path_ref(v: Value) -> bool
    decreases v, 0int,
{
    match v {
        Value::List(items) => has_tag(v, Tag::ConstPathRef) && items@.len() == 3
            && valid_expression(items@[1])
            && valid_token(items@[2], Tag::Const),
        _ => false,
    }
}

pub open spec fn decoded_const_path_ref(v: Value, x: ConstPathRef) -> bool
    decreases v, 0int,
{
    match v {
        Value::List(items) => {
            &&& items@.len() == 3
            &&& (decoded_expression(items@[1], *x.0))
            &&& (x.1 == Const(token_text(items@[2]), token_pos(items@[2])))
        },
        _ => false,
    }
}

pub fn decode_const_path_ref(v: &Value) -> (r: Result<ConstPathRef, DecodeError>)
    ensures
        r is Ok <==> valid_const_path_ref(*v),
        r matches Ok(x) ==> decoded_const_path_ref(*v, x),
        spec_check_tag(*v, Tag::ConstPathRef) matches Err(e) ==> r == Err::<ConstPathRef, DecodeError>(e),
        has_tag(*v, Tag::ConstPathRef) ==> (spec_arity(Tag::ConstPathRef, v->List_0@, 3) matches Err(e2)
            ==> r == Err::<ConstPathRef, DecodeError>(e2)),
    decreases v, 0int,
{
    let items = tagged_elems(v, Tag::ConstPathRef)?;
    check_arity(Tag::ConstPathRef, items, 3)?;
    let f0 = decode_expression(&items[1])?;
    let f1 = decode_const(&items[2])?;
    Ok(ConstPathRef(Box::new(f0), f1))
}


pub open spec fn valid_const_ref(v: Value) -> bool
    decreases v, 0int,
{
    match v {
        Value::List(items) => has_tag(v, Tag::ConstRef) && items@.len() == 2
            && valid_token(items@[1], Tag::Const),
        _ => false,
    }
}

pub open spec fn decoded_const_ref(v: Value, x: ConstRef) -> bool
    decreases v, 0int,
{
    match v {
        Value::List(items) => {
            &&& items@.len() == 2
            &&& (x.0 == Const(token_text(items@[1]), token_pos(items@[1])))
        },
        _ => false,
    }
}

pub fn decode_const_ref(v: &Value) -> (r: Result<ConstRef, DecodeError>)
    ensures
        r is Ok <==> valid_const_ref(*v),
        r matches Ok(x) ==> decoded_const_ref(*v, x),
        spec_check_tag(*v, Tag::ConstRef) matches Err(e) ==> r == Err::<ConstRef, DecodeError>(e),
        has_tag(*v, Tag::ConstRef) ==> (spec_arity(Tag::ConstRef, v->List_0@, 2) matches Err(e2)
            ==> r == Err::<ConstRef, DecodeError>(e2)),
    decreases v, 0int,
{
    let items = tagged_elems(v, Tag::ConstRef)?;
    check_arity(Tag::ConstRef, items, 2)?;
    let f0 = decode_const(&items[1])?;
    Ok(ConstRef(f0))
}


/// A receiver-less command-style invocation.
pub open spec fn valid_command(v: Value) -> bool
    decreases v, 0int,
{
    match v {
        Value::List(items) => has_tag(v, Tag::Command) && items@.len() == 3
            && valid_token(items@[1], Tag::Ident)
            && valid_aabo_el(items@[2]),
        _ => false,
    }
}

pub open spec fn decoded_command(v: Value, x: Command) -> bool
    decreases v, 0int,
{
    match v {
        Value::List(items) => {
            &&& items@.len() == 3
            &&& (x.0 == Ident(token_text(items@[1]), token_pos(items@[1])))
            &&& (decoded_aabo_el(items@[2], x.1))
        },
        _ => false,
    }
}

pub fn decode_command(v: &Value) -> (r: Result<Command, DecodeError>)
    ensures
        r is Ok <==> valid_command(*v),
        r matches Ok(x) ==> decoded_command(*v, x),
        spec_check_tag(*v, Tag::Command) matches Err(e) ==> r == Err::<Command, DecodeError>(e),
        has_tag(*v, Tag::Command) ==> (spec_arity(Tag::Command, v->List_0@, 3) matches Err(e2)
            ==> r == Err::<Command, DecodeError>(e2)),
    decreases v, 0int,
{
    let items = tagged_elems(v, Tag::Command)?;
    check_arity(Tag::Command, items, 3)?;
    let f0 = decode_ident(&items[1])?;
    let f1 = decode_aabo_el(&items[2])?;
    Ok(Command(f0, f1))
}


pub open spec fn valid_assign(v: Value) -> bool
    decreases v, 0int,
{
    match v {
        Value::List(items) => has_tag(v, Tag::Assign) && items@.len() == 3
            && valid_assignable(items@[1])
            && valid_expression(items@[2]),
        _ => false,
    }
}

pub open spec fn decoded_assign(v: Value, x: Assign) -> bool
    decreases v, 0int,
{
    match v {
        Value::List(items) => {
            &&& items@.len() == 3
            &&& (decoded_assignable(items@[1], x.0))
            &&& (decoded_expression(items@[2], *x.1))
        },
        _ => false,
    }
}

pub fn decode_assign(v: &Value) -> (r: Result<Assign, DecodeError>)
    ensures
        r is Ok <==> valid_assign(*v),
        r matches Ok(x) ==> decoded_assign(*v, x),
        spec_check_tag(*v, Tag::Assign) matches Err(e) ==> r == Err::<Assign, DecodeError>(e),
        has_tag(*v, Tag::Assign) ==> (spec_arity(Tag::Assign, v->List_0@, 3) matches Err(e2)
            ==> r == Err::<Assign, DecodeError>(e2)),
    decreases v, 0int,
{
    let items = tagged_elems(v, Tag::Assign)?;
    check_arity(Tag::Assign, items, 3)?;
    let f0 = decode_assignable(&items[1])?;
    let f1 = decode_expression(&items[2])?;
    Ok(Assign(f0, Box::new(f1)))
}


pub open spec fn valid_massign(v: Value) -> bool
    decreases v, 0int,
{
    match v {
        Value::List(items) => has_tag(v, Tag::Massign) && items@.len() == 3
            && valid_assignable_list(items@[1])
            && valid_expression(items@[2]),
        _ => false,
    }
}

pub open spec fn decoded_massign(v: Value, x: MAssign) -> bool
    decreases v, 0int,
{
    match v {
        Value::List(items) => {
            &&& items@.len() == 3
            &&& (decoded_assignable_list(items@[1], x.0@))
            &&& (decoded_expression(items@[2], *x.1))
        },
        _ => false,
    }
}

pub fn decode_massign(v: &Value) -> (r: Result<MAssign, DecodeError>)
    ensures
        r is Ok <==> valid_massign(*v),
        r matches Ok(x) ==> decoded_massign(*v, x),
        spec_check_tag(*v, Tag::Massign) matches Err(e) ==> r == Err::<MAssign, DecodeError>(e),
        has_tag(*v, Tag::Massign) ==> (spec_arity(Tag::Massign, v->List_0@, 3) matches Err(e2)
            ==> r == Err::<MAssign, DecodeError>(e2)),
    decreases v, 0int,
{
    let items = tagged_elems(v, Tag::Massign)?;
    check_arity(Tag::Massign, items, 3)?;
    let f0 = decode_assignable_list(&items[1])?;
    let f1 = decode_expression(&items[2])?;
    Ok(MAssign(f0, Box::new(f1)))
}


pub open spec fn valid_const_path_field(v: Value) -> bool
    decreases v, 0int,
{
    match v {
        Value::List(items) => has_tag(v, Tag::ConstPathField) && items@.len() == 3
            && valid_expression(items@[1])
            && valid_token(items@[2], Tag::Const),
        _ => false,
    }
}

pub open spec fn decoded_const_path_field(v: Value, x: ConstPathField) -> bool
    decreases v, 0int,
{
    match v {
        Value::List(items) => {
            &&& items@.len() == 3
            &&& (decoded_expression(items@[1], *x.0))
            &&& (x.1 == Const(token_text(items@[2]), token_pos(items@[2])))
        },
        _ => false,
    }
}

pub fn decode_const_path_field(v: &Value) -> (r: Result<ConstPathField, DecodeError>)
    ensures
        r is Ok <==> valid_const_path_field(*v),
        r matches Ok(x) ==> decoded_const_path_field(*v, x),
        spec_check_tag(*v, Tag::ConstPathField) matches Err(e) ==> r == Err::<ConstPathField, DecodeError>(e),
        has_tag(*v, Tag::ConstPathField) ==> (spec_arity(Tag::ConstPathField, v->List_0@, 3) matches Err(e2)
            ==> r == Err::<ConstPathField, DecodeError>(e2)),
    decreases v, 0int,
{
    let items = tagged_elems(v, Tag::ConstPathField)?;
    check_arity(Tag::ConstPathField, items, 3)?;
    let f0 = decode_expression(&items[1])?;
    let f1 = decode_const(&items[2])?;
    Ok(ConstPathField(Box::new(f0), f1))
}


pub open spec fn valid_var_field(v: Value) -> bool
    decreases v, 0int,
{
    match v {
        Value::List(items) => has_tag(v, Tag::VarField) && items@.len() == 2
            && valid_var_ref_type(items@[1]),
        _ => false,
    }
}

pub open spec fn decoded_var_field(v: Value, x: VarField) -> bool
    decreases v, 0int,
{
    match v {
        Value::List(items) => {
            &&& items@.len() == 2
            &&& (decoded_var_ref_type(items@[1], x.0))
        },
        _ => false,
    }
}

pub fn decode_var_field(v: &Value) -> (r: Result<VarField, DecodeError>)
    ensures
        r is Ok <==> valid_var_field(*v),
        r matches Ok(x) ==> decoded_var_field(*v, x),
        spec_check_tag(*v, Tag::VarField) matches Err(e) ==> r == Err::<VarField, DecodeError>(e),
        has_tag(*v, Tag::VarField) ==> (spec_arity(Tag::VarField, v->List_0@, 2) matches Err(e2)
            ==> r == Err::<VarField, DecodeError>(e2)),
    decreases v, 0int,
{
    let items = tagged_elems(v, Tag::VarField)?;
    check_arity(Tag::VarField, items, 2)?;
    let f0 = decode_var_ref_type(&items[1])?;
    Ok(VarField(f0))
}


pub open spec fn valid_var_ref(v: Value) -> bool
    decreases v, 0int,
{
    match v {
        Value::List(items) => has_tag(v, Tag::VarRef) && items@.len() == 2
            && valid_var_ref_type(items@[1]),
        _ => false,
    }
}

pub open spec fn decoded_var_ref(v: Value, x: VarRef) -> bool
    decreases v, 0int,
{
    match v {
        Value::List(items) => {
            &&& items@.len() == 2
            &&& (decoded_var_ref_type(items@[1], x.0))
        },
        _ => false,
    }
}

pub fn decode_var_ref(v: &Value) -> (r: Result<VarRef, DecodeError>)
    ensures
        r is Ok <==> valid_var_ref(*v),
        r matches Ok(x) ==> decoded_var_ref(*v, x),
        spec_check_tag(*v, Tag::VarRef) matches Err(e) ==> r == Err::<VarRef, DecodeError>(e),
        has_tag(*v, Tag::VarRef) ==> (spec_arity(Tag::VarRef, v->List_0@, 2) matches Err(e2)
            ==> r == Err::<VarRef, DecodeError>(e2)),
    decreases v, 0int,
{
    let items = tagged_elems(v, Tag::VarRef)?;
    check_arity(Tag::VarRef, items, 2)?;
    let f0 = decode_var_ref_type(&items[1])?;
    Ok(VarRef(f0))
}


pub open spec fn valid_xstring_literal(v: Value) -> bool
    decreases v, 0int,
{
    match v {
        Value::List(items) => has_tag(v, Tag::XstringLiteral) && items@.len() == 2
            && valid_scp_list(items@[1]),
        _ => false,
    }
}

pub open spec fn decoded_xstring_literal(v: Value, x: XStringLiteral) -> bool
    decreases v, 0int,
{
    match v {
        Value::List(items) => {
            &&& items@.len() == 2
            &&& (decoded_scp_list(items@[1], x.0@))
        },
        _ => false,
    }
}

pub fn decode_xstring_literal(v: &Value) -> (r: Result<XStringLiteral, DecodeError>)
    ensures
        r is Ok <==> valid_xstring_literal(*v),
        r matches Ok(x) ==> decoded_xstring_literal(*v, x),
        spec_check_tag(*v, Tag::XstringLiteral) matches Err(e) ==> r == Err::<XStringLiteral, DecodeError>(e),
        has_tag(*v, Tag::XstringLiteral) ==> (spec_arity(Tag::XstringLiteral, v->List_0@, 2) matches Err(e2)
            ==> r == Err::<XStringLiteral, DecodeError>(e2)),
    decreases v, 0int,
{
    let items = tagged_elems(v, Tag::XstringLiteral)?;
    check_arity(Tag::XstringLiteral, items, 2)?;
    let f0 = decode_scp_list(&items[1])?;
    Ok(XStringLiteral(f0))
}


pub open spec fn valid_dyna_symbol(v: Value) -> bool
    decreases v, 0int,
{
    match v {
        Value::List(items) => has_tag(v, Tag::DynaSymbol) && items@.len() == 2
            && valid_sc_or_parts(items@[1]),
        _ => false,
    }
}

pub open spec fn decoded_dyna_symbol(v: Value, x: DynaSymbol) -> bool
    decreases v, 0int,
{
    match v {
        Value::List(items) => {
            &&& items@.len() == 2
            &&& (decoded_sc_or_parts(items@[1], x.0))
        },
        _ => false,
    }
}

pub fn decode_dyna_symbol(v: &Value) -> (r: Result<DynaSymbol, DecodeError>)
    ensures
        r is Ok <==> valid_dyna_symbol(*v),
        r matches Ok(x) ==> decoded_dyna_symbol(*v, x),
        spec_check_tag(*v, Tag::DynaSymbol) matches Err(e) ==> r == Err::<DynaSymbol, DecodeError>(e),
        has_tag(*v, Tag::DynaSymbol) ==> (spec_arity(Tag::DynaSymbol, v->List_0@, 2) matches Err(e2)
            ==> r == Err::<DynaSymbol, DecodeError>(e2)),
    decreases v, 0int,
{
    let items = tagged_elems(v, Tag::DynaSymbol)?;
    check_arity(Tag::DynaSymbol, items, 2)?;
    let f0 = decode_sc_or_parts(&items[1])?;
    Ok(DynaSymbol(f0))
}


pub open spec fn valid_string_embexpr(v: Value) -> bool
    decreases v, 0int,
{
    match v {
        Value::List(items) => has_tag(v, Tag::StringEmbexpr) && items@.len() == 2
            && valid_expr_list(items@[1]),
        _ => false,
    }
}

pub open spec fn decoded_string_embexpr(v: Value, x: StringEmbexpr) -> bool
    decreases v, 0int,
{
    match v {
        Value::List(items) => {
            &&& items@.len() == 2
            &&& (decoded_expr_list(items@[1], x.0@))
        },
        _ => false,
    }
}

pub fn decode_string_embexpr(v: &Value) -> (r: Result<StringEmbexpr, DecodeError>)
    ensures
        r is Ok <==> valid_string_embexpr(*v),
        r matches Ok(x) ==> decoded_string_embexpr(*v, x),
        spec_check_tag(*v, Tag::StringEmbexpr) matches Err(e) ==> r == Err::<StringEmbexpr, DecodeError>(e),
        has_tag(*v, Tag::StringEmbexpr) ==> (spec_arity(Tag::StringEmbexpr, v->List_0@, 2) matches Err(e2)
            ==> r == Err::<StringEmbexpr, DecodeError>(e2)),
    decreases v, 0int,
{
    let items = tagged_elems(v, Tag::StringEmbexpr)?;
    check_arity(Tag::StringEmbexpr, items, 2)?;
    let f0 = decode_expr_list(&items[1])?;
    Ok(StringEmbexpr(f0))
}


pub open spec fn valid_string_dvar(v: Value) -> bool
    decreases v, 0int,
{
    match v {
        Value::List(items) => has_tag(v, Tag::StringDvar) && items@.len() == 2
            && valid_expression(items@[1]),
        _ => false,
    }
}

pub open spec fn decoded_string_dvar(v: Value, x: StringDVar) -> bool
    decreases v, 0int,
{
    match v {
        Value::List(items) => {
            &&& items@.len() == 2
            &&& (decoded_expression(items@[1], *x.0))
        },
        _ => false,
    }
}

pub fn decode_string_dvar(v: &Value) -> (r: Result<StringDVar, DecodeError>)
    ensures
        r is Ok <==> valid_string_dvar(*v),
        r matches Ok(x) ==> decoded_string_dvar(*v, x),
        spec_check_tag(*v, Tag::StringDvar) matches Err(e) ==> r == Err::<StringDVar, DecodeError>(e),
        has_tag(*v, Tag::StringDvar) ==> (spec_arity(Tag::StringDvar, v->List_0@, 2) matches Err(e2)
            ==> r == Err::<StringDVar, DecodeError>(e2)),
    decreases v, 0int,
{
    let items = tagged_elems(v, Tag::StringDvar)?;
    check_arity(Tag::StringDvar, items, 2)?;
    let f0 = decode_expression(&items[1])?;
    Ok(StringDVar(Box::new(f0)))
}


pub open spec fn valid_array(v: Value) -> bool
    decreases v, 0int,
{
    match v {
        Value::List(items) => has_tag(v, Tag::Array) && items@.len() == 2
            && valid_sapa(items@[1]),
        _ => false,
    }
}

pub open spec fn decoded_array(v: Value, x: Array) -> bool
    decreases v, 0int,
{
    match v {
        Value::List(items) => {
            &&& items@.len() == 2
            &&& (decoded_sapa(items@[1], x.0))
        },
        _ => false,
    }
}

pub fn decode_array(v: &Value) -> (r: Result<Array, DecodeError>)
    ensures
        r is Ok <==> valid_array(*v),
        r matches Ok(x) ==> decoded_array(*v, x),
        spec_check_tag(*v, Tag::Array) matches Err(e) ==> r == Err::<Array, DecodeError>(e),
        has_tag(*v, Tag::Array) ==> (spec_arity(Tag::Array, v->List_0@, 2) matches Err(e2)
            ==> r == Err::<Array, DecodeError>(e2)),
    decreases v, 0int,
{
    let items = tagged_elems(v, Tag::Array)?;
    check_arity(Tag::Array, items, 2)?;
    let f0 = decode_sapa(&items[1])?;
    Ok(Array(f0))
}


pub open spec fn valid_alias(v: Value) -> bool
    decreases v, 0int,
{
    match v {
        Value::List(items) => has_tag(v, Tag::Alias) && items@.len() == 3
            && valid_symbol_literal(items@[1])
            && valid_symbol_literal(items@[2]),
        _ => false,
    }
}

pub open spec fn decoded_alias(v: Value, x: Alias) -> bool
    decreases v, 0int,
{
    match v {
        Value::List(items) => {
            &&& items@.len() == 3
            &&& (decoded_symbol_literal(items@[1], x.0))
            &&& (decoded_symbol_literal(items@[2], x.1))
        },
        _ => false,
    }
}

pub fn decode_alias(v: &Value) -> (r: Result<Alias, DecodeError>)
    ensures
        r is Ok <==> valid_alias(*v),
        r matches Ok(x) ==> decoded_alias(*v, x),
        spec_check_tag(*v, Tag::Alias) matches Err(e) ==> r == Err::<Alias, DecodeError>(e),
        has_tag(*v, Tag::Alias) ==> (spec_arity(Tag::Alias, v->List_0@, 3) matches Err(e2)
            ==> r == Err::<Alias, DecodeError>(e2)),
    decreases v, 0int,
{
    let items = tagged_elems(v, Tag::Alias)?;
    check_arity(Tag::Alias, items, 3)?;
    let f0 = decode_symbol_literal(&items[1])?;
    let f1 = decode_symbol_literal(&items[2])?;
    Ok(Alias(f0, f1))
}


pub open spec fn valid_paren_expr(v: Value) -> bool
    decreases v, 0int,
{
    match v {
        Value::List(items) => has_tag(v, Tag::Paren) && items@.len() == 2
            && valid_expr_list(items@[1]),
        _ => false,
    }
}

pub open spec fn decoded_paren_expr(v: Value, x: ParenExpr) -> bool
    decreases v, 0int,
{
    match v {
        Value::List(items) => {
            &&& items@.len() == 2
            &&& (decoded_expr_list(items@[1], x.0@))
        },
        _ => false,
    }
}

pub fn decode_paren_expr(v: &Value) -> (r: Result<ParenExpr, DecodeError>)
    ensures
        r is Ok <==> valid_paren_expr(*v),
        r matches Ok(x) ==> decoded_paren_expr(*v, x),
        spec_check_tag(*v, Tag::Paren) matches Err(e) ==> r == Err::<ParenExpr, DecodeError>(e),
        has_tag(*v, Tag::Paren) ==> (spec_arity(Tag::Paren, v->List_0@, 2) matches Err(e2)
            ==> r == Err::<ParenExpr, DecodeError>(e2)),
    decreases v, 0int,
{
    let items = tagged_elems(v, Tag::Paren)?;
    check_arity(Tag::Paren, items, 2)?;
    let f0 = decode_expr_list(&items[1])?;
    Ok(ParenExpr(f0))
}


pub open spec fn valid_paren(v: Value) -> bool
    decreases v, 0int,
{
    match v {
        Value::List(items) => has_tag(v, Tag::Paren) && items@.len() == 2
            && valid_params(items@[1]),
        _ => false,
    }
}

pub open spec fn decoded_paren(v: Value, x: Paren) -> bool
    decreases v, 0int,
{
    match v {
        Value::List(items) => {
            &&& items@.len() == 2
            &&& (decoded_params(items@[1], x.0))
        },
        _ => false,
    }
}

pub fn decode_paren(v: &Value) -> (r: Result<Paren, DecodeError>)
    ensures
        r is Ok <==> valid_paren(*v),
        r matches Ok(x) ==> decoded_paren(*v, x),
        spec_check_tag(*v, Tag::Paren) matches Err(e) ==> r == Err::<Paren, DecodeError>(e),
        has_tag(*v, Tag::Paren) ==> (spec_arity(Tag::Paren, v->List_0@, 2) matches Err(e2)
            ==> r == Err::<Paren, DecodeError>(e2)),
    decreases v, 0int,
{
    let items = tagged_elems(v, Tag::Paren)?;
    check_arity(Tag::Paren, items, 2)?;
    let f0 = decode_params(&items[1])?;
    Ok(Paren(f0))
}


pub open spec fn valid_dot2(v: Value) -> bool
    decreases v, 0int,
{
    match v {
        Value::List(items) => has_tag(v, Tag::Dot2) && items@.len() == 3
            && (items@[1] is Null || valid_expression(items@[1]))
            && (items@[2] is Null || valid_expression(items@[2])),
        _ => false,
    }
}

pub open spec fn decoded_dot2(v: Value, x: Dot2) -> bool
    decreases v, 0int,
{
    match v {
        Value::List(items) => {
            &&& items@.len() == 3
            &&& (match x.0 { Option::None => items@[1] is Null, Option::Some(y) => !(items@[1] is Null) && decoded_expression(items@[1], *y) })
            &&& (match x.1 { Option::None => items@[2] is Null, Option::Some(y) => !(items@[2] is Null) && decoded_expression(items@[2], *y) })
        },
        _ => false,
    }
}

pub fn decode_dot2(v: &Value) -> (r: Result<Dot2, DecodeError>)
    ensures
        r is Ok <==> valid_dot2(*v),
        r matches Ok(x) ==> decoded_dot2(*v, x),
        spec_check_tag(*v, Tag::Dot2) matches Err(e) ==> r == Err::<Dot2, DecodeError>(e),
        has_tag(*v, Tag::Dot2) ==> (spec_arity(Tag::Dot2, v->List_0@, 3) matches Err(e2)
            ==> r == Err::<Dot2, DecodeError>(e2)),
    decreases v, 0int,
{
    let items = tagged_elems(v, Tag::Dot2)?;
    check_arity(Tag::Dot2, items, 3)?;
    let f0 = if is_null(&items[1]) { None } else { Some(Box::new(decode_expression(&items[1])?)) };
    let f1 = if is_null(&items[2]) { None } else { Some(Box::new(decode_expression(&items[2])?)) };
    Ok(Dot2(f0, f1))
}


pub open spec fn valid_dot3(v: Value) -> bool
    decreases v, 0int,
{
    match v {
        Value::List(items) => has_tag(v, Tag::Dot3) && items@.len() == 3
            && (items@[1] is Null || valid_expression(items@[1]))
            && (items@[2] is Null || valid_expression(items@[2])),
        _ => false,
    }
}

pub open spec fn decoded_dot3(v: Value, x: Dot3) -> bool
    decreases v, 0int,
{
    match v {
        Value::List(items) => {
            &&& items@.len() == 3
            &&& (match x.0 { Option::None => items@[1] is Null, Option::Some(y) => !(items@[1] is Null) && decoded_expression(items@[1], *y) })
            &&& (match x.1 { Option::None => items@[2] is Null, Option::Some(y) => !(items@[2] is Null) && decoded_expression(items@[2], *y) })
        },
        _ => false,
    }
}

pub fn decode_dot3(v: &Value) -> (r: Result<Dot3, DecodeError>)
    ensures
        r is Ok <==> valid_dot3(*v),
        r matches Ok(x) ==> decoded_dot3(*v, x),
        spec_check_tag(*v, Tag::Dot3) matches Err(e) ==> r == Err::<Dot3, DecodeError>(e),
        has_tag(*v, Tag::Dot3) ==> (spec_arity(Tag::Dot3, v->List_0@, 3) matches Err(e2)
            ==> r == Err::<Dot3, DecodeError>(e2)),
    decreases v, 0int,
{
    let items = tagged_elems(v, Tag::Dot3)?;
    check_arity(Tag::Dot3, items, 3)?;
    let f0 = if is_null(&items[1]) { None } else { Some(Box::new(decode_expression(&items[1])?)) };
    let f1 = if is_null(&items[2]) { None } else { Some(Box::new(decode_expression(&items[2])?)) };
    Ok(Dot3(f0, f1))
}


pub open spec fn valid_method_call(v: Value) -> bool
    decreases v, 0int,
{
    match v {
        Value::List(items) => has_tag(v, Tag::MethodCall) && items@.len() == 5
            && valid_cce_list(items@[1])
            && valid_expression(items@[2])
            && items@[3] is Bool
            && valid_aasoel(items@[4]),
        _ => false,
    }
}

pub open spec fn decoded_method_call(v: Value, x: MethodCall) -> bool
    decreases v, 0int,
{
    match v {
        Value::List(items) => {
            &&& items@.len() == 5
            &&& (decoded_cce_list(items@[1], x.0@))
            &&& (decoded_expression(items@[2], *x.1))
            &&& (x.2 == items@[3]->Bool_0)
            &&& (decoded_aasoel(items@[4], x.3))
        },
        _ => false,
    }
}

pub fn decode_method_call(v: &Value) -> (r: Result<MethodCall, DecodeError>)
    ensures
        r is Ok <==> valid_method_call(*v),
        r matches Ok(x) ==> decoded_method_call(*v, x),
        spec_check_tag(*v, Tag::MethodCall) matches Err(e) ==> r == Err::<MethodCall, DecodeError>(e),
        has_tag(*v, Tag::MethodCall) ==> (spec_arity(Tag::MethodCall, v->List_0@, 5) matches Err(e2)
            ==> r == Err::<MethodCall, DecodeError>(e2)),
    decreases v, 0int,
{
    let items = tagged_elems(v, Tag::MethodCall)?;
    check_arity(Tag::MethodCall, items, 5)?;
    let f0 = decode_cce_list(&items[1])?;
    let f1 = decode_expression(&items[2])?;
    let f2 = (match &items[3] { Value::Bool(b) => *b, _ => return Err(DecodeError::UnionExhausted) });
    let f3 = decode_aasoel(&items[4])?;
    Ok(MethodCall(f0, Box::new(f1), f2, f3))
}


pub open spec fn valid_def_node(v: Value) -> bool
    decreases v, 0int,
{
    match v {
        Value::List(items) => has_tag(v, Tag::Def) && items@.len() == 4
            && valid_token(items@[1], Tag::Ident)
            && valid_paren_or_params(items@[2])
            && valid_bodystmt(items@[3]),
        _ => false,
    }
}

pub open spec fn decoded_def_node(v: Value, x: Def) -> bool
    decreases v, 0int,
{
    match v {
        Value::List(items) => {
            &&& items@.len() == 4
            &&& (x.0 == Ident(token_text(items@[1]), token_pos(items@[1])))
            &&& (decoded_paren_or_params(items@[2], x.1))
            &&& (decoded_bodystmt(items@[3], x.2))
        },
        _ => false,
    }
}

pub fn decode_def_node(v: &Value) -> (r: Result<Def, DecodeError>)
    ensures
        r is Ok <==> valid_def_node(*v),
        r matches Ok(x) ==> decoded_def_node(*v, x),
        spec_check_tag(*v, Tag::Def) matches Err(e) ==> r == Err::<Def, DecodeError>(e),
        has_tag(*v, Tag::Def) ==> (spec_arity(Tag::Def, v->List_0@, 4) matches Err(e2)
            ==> r == Err::<Def, DecodeError>(e2)),
    decreases v, 0int,
{
    let items = tagged_elems(v, Tag::Def)?;
    check_arity(Tag::Def, items, 4)?;
    let f0 = decode_ident(&items[1])?;
    let f1 = decode_paren_or_params(&items[2])?;
    let f2 = decode_bodystmt(&items[3])?;
    Ok(Def(f0, f1, f2))
}


pub open spec fn valid_begin(v: Value) -> bool
    decreases v, 0int,
{
    match v {
        Value::List(items) => has_tag(v, Tag::Begin) && items@.len() == 2
            && valid_bodystmt(items@[1]),
        _ => false,
    }
}

pub open spec fn decoded_begin(v: Value, x: Begin) -> bool
    decreases v, 0int,
{
    match v {
        Value::List(items) => {
            &&& items@.len() == 2
            &&& (decoded_bodystmt(items@[1], x.0))
        },
        _ => false,
    }
}

pub fn decode_begin(v: &Value) -> (r: Result<Begin, DecodeError>)
    ensures
        r is Ok <==> valid_begin(*v),
        r matches Ok(x) ==> decoded_begin(*v, x),
        spec_check_tag(*v, Tag::Begin) matches Err(e) ==> r == Err::<Begin, DecodeError>(e),
        has_tag(*v, Tag::Begin) ==> (spec_arity(Tag::Begin, v->List_0@, 2) matches Err(e2)
            ==> r == Err::<Begin, DecodeError>(e2)),
    decreases v, 0int,
{
    let items = tagged_elems(v, Tag::Begin)?;
    check_arity(Tag::Begin, items, 2)?;
    let f0 = decode_bodystmt(&items[1])?;
    Ok(Begin(f0))
}


pub open spec fn valid_bodystmt(v: Value) -> bool
    decreases v, 0int,
{
    match v {
        Value::List(items) => has_tag(v, Tag::Bodystmt) && items@.len() == 5
            && valid_expr_list(items@[1])
            && (items@[2] is Null || valid_rescue(items@[2]))
            && (items@[3] is Null || valid_rescue_else(items@[3]))
            && (items@[4] is Null || valid_ensure_node(items@[4])),
        _ => false,
    }
}

pub open spec fn decoded_bodystmt(v: Value, x: BodyStmt) -> bool
    decreases v, 0int,
{
    match v {
        Value::List(items) => {
            &&& items@.len() == 5
            &&& (decoded_expr_list(items@[1], x.0@))
            &&& (match x.1 { Option::None => items@[2] is Null, Option::Some(y) => !(items@[2] is Null) && decoded_rescue(items@[2], y) })
            &&& (match x.2 { Option::None => items@[3] is Null, Option::Some(y) => !(items@[3] is Null) && decoded_rescue_else(items@[3], y) })
            &&& (match x.3 { Option::None => items@[4] is Null, Option::Some(y) => !(items@[4] is Null) && decoded_ensure_node(items@[4], y) })
        },
        _ => false,
    }
}

pub fn decode_bodystmt(v: &Value) -> (r: Result<BodyStmt, DecodeError>)
    ensures
        r is Ok <==> valid_bodystmt(*v),
        r matches Ok(x) ==> decoded_bodystmt(*v, x),
        spec_check_tag(*v, Tag::Bodystmt) matches Err(e) ==> r == Err::<BodyStmt, DecodeError>(e),
        has_tag(*v, Tag::Bodystmt) ==> (spec_arity(Tag::Bodystmt, v->List_0@, 5) matches Err(e2)
            ==> r == Err::<BodyStmt, DecodeError>(e2)),
    decreases v, 0int,
{
    let items = tagged_elems(v, Tag::Bodystmt)?;
    check_arity(Tag::Bodystmt, items, 5)?;
    let f0 = decode_expr_list(&items[1])?;
    let f1 = if is_null(&items[2]) { None } else { Some(decode_rescue(&items[2])?) };
    let f2 = if is_null(&items[3]) { None } else { Some(decode_rescue_else(&items[3])?) };
    let f3 = if is_null(&items[4]) { None } else { Some(decode_ensure_node(&items[4])?) };
    Ok(BodyStmt(f0, f1, f2, f3))
}


pub open spec fn valid_rescue(v: Value) -> bool
    decreases v, 0int,
{
    match v {
        Value::List(items) => has_tag(v, Tag::Rescue) && items@.len() == 5
            && (items@[1] is Null || valid_single_or_mrhs(items@[1]))
            && (items@[2] is Null || valid_assignable(items@[2]))
            && (items@[3] is Null || valid_expr_list(items@[3]))
            && (items@[4] is Null || valid_rescue(items@[4])),
        _ => false,
    }
}

pub open spec fn decoded_rescue(v: Value, x: Rescue) -> bool
    decreases v, 0int,
{
    match v {
        Value::List(items) => {
            &&& items@.len() == 5
            &&& (match x.0 { Option::None => items@[1] is Null, Option::Some(y) => !(items@[1] is Null) && decoded_single_or_mrhs(items@[1], y) })
            &&& (match x.1 { Option::None => items@[2] is Null, Option::Some(y) => !(items@[2] is Null) && decoded_assignable(items@[2], y) })
            &&& (match x.2 { Option::None => items@[3] is Null, Option::Some(y) => !(items@[3] is Null) && decoded_expr_list(items@[3], y@) })
            &&& (match x.3 { Option::None => items@[4] is Null, Option::Some(y) => !(items@[4] is Null) && decoded_rescue(items@[4], *y) })
        },
        _ => false,
    }
}

pub fn decode_rescue(v: &Value) -> (r: Result<Rescue, DecodeError>)
    ensures
        r is Ok <==> valid_rescue(*v),
        r matches Ok(x) ==> decoded_rescue(*v, x),
        spec_check_tag(*v, Tag::Rescue) matches Err(e) ==> r == Err::<Rescue, DecodeError>(e),
        has_tag(*v, Tag::Rescue) ==> (spec_arity(Tag::Rescue, v->List_0@, 5) matches Err(e2)
            ==> r == Err::<Rescue, DecodeError>(e2)),
    decreases v, 0int,
{
    let items = tagged_elems(v, Tag::Rescue)?;
    check_arity(Tag::Rescue, items, 5)?;
    let f0 = if is_null(&items[1]) { None } else { Some(decode_single_or_mrhs(&items[1])?) };
    let f1 = if is_null(&items[2]) { None } else { Some(decode_assignable(&items[2])?) };
    let f2 = if is_null(&items[3]) { None } else { Some(decode_expr_list(&items[3])?) };
    let f3 = if is_null(&items[4]) { None } else { Some(Box::new(decode_rescue(&items[4])?)) };
    Ok(Rescue(f0, f1, f2, f3))
}


pub open spec fn valid_rescue_else(v: Value) -> bool
    decreases v, 0int,
{
    match v {
        Value::List(items) => has_tag(v, Tag::Else) && items@.len() == 2
            && (items@[1] is Null || valid_expr_list(items@[1])),
        _ => false,
    }
}

pub open spec fn decoded_rescue_else(v: Value, x: RescueElse) -> bool
    decreases v, 0int,
{
    match v {
        Value::List(items) => {
            &&& items@.len() == 2
            &&& (match x.0 { Option::None => items@[1] is Null, Option::Some(y) => !(items@[1] is Null) && decoded_expr_list(items@[1], y@) })
        },
        _ => false,
    }
}

pub fn decode_rescue_else(v: &Value) -> (r: Result<RescueElse, DecodeError>)
    ensures
        r is Ok <==> valid_rescue_else(*v),
        r matches Ok(x) ==> decoded_rescue_else(*v, x),
        spec_check_tag(*v, Tag::Else) matches Err(e) ==> r == Err::<RescueElse, DecodeError>(e),
        has_tag(*v, Tag::Else) ==> (spec_arity(Tag::Else, v->List_0@, 2) matches Err(e2)
            ==> r == Err::<RescueElse, DecodeError>(e2)),
    decreases v, 0int,
{
    let items = tagged_elems(v, Tag::Else)?;
    check_arity(Tag::Else, items, 2)?;
    let f0 = if is_null(&items[1]) { None } else { Some(decode_expr_list(&items[1])?) };
    Ok(RescueElse(f0))
}


pub open spec fn valid_ensure_node(v: Value) -> bool
    decreases v, 0int,
{
    match v {
        Value::List(items) => has_tag(v, Tag::Ensure) && items@.len() == 2
            && (items@[1] is Null || valid_expr_list(items@[1])),
        _ => false,
    }
}

pub open spec fn decoded_ensure_node(v: Value, x: Ensure) -> bool
    decreases v, 0int,
{
    match v {
        Value::List(items) => {
            &&& items@.len() == 2
            &&& (match x.0 { Option::None => items@[1] is Null, Option::Some(y) => !(items@[1] is Null) && decoded_expr_list(items@[1], y@) })
        },
        _ => false,
    }
}

pub fn decode_ensure_node(v: &Value) -> (r: Result<Ensure, DecodeError>)
    ensures
        r is Ok <==> valid_ensure_node(*v),
        r matches Ok(x) ==> decoded_ensure_node(*v, x),
        spec_check_tag(*v, Tag::Ensure) matches Err(e) ==> r == Err::<Ensure, DecodeError>(e),
        has_tag(*v, Tag::Ensure) ==> (spec_arity(Tag::Ensure, v->List_0@, 2) matches Err(e2)
            ==> r == Err::<Ensure, DecodeError>(e2)),
    decreases v, 0int,
{
    let items = tagged_elems(v, Tag::Ensure)?;
    check_arity(Tag::Ensure, items, 2)?;
    let f0 = if is_null(&items[1]) { None } else { Some(decode_expr_list(&items[1])?) };
    Ok(Ensure(f0))
}


pub open spec fn valid_vcall(v: Value) -> bool
    decreases v, 0int,
{
    match v {
        Value::List(items) => has_tag(v, Tag::Vcall) && items@.len() == 2
            && valid_expression(items@[1]),
        _ => false,
    }
}

pub open spec fn decoded_vcall(v: Value, x: VCall) -> bool
    decreases v, 0int,
{
    match v {
        Value::List(items) => {
            &&& items@.len() == 2
            &&& (decoded_expression(items@[1], *x.0))
        },
        _ => false,
    }
}

pub fn decode_vcall(v: &Value) -> (r: Result<VCall, DecodeError>)
    ensures
        r is Ok <==> valid_vcall(*v),
        r matches Ok(x) ==> decoded_vcall(*v, x),
        spec_check_tag(*v, Tag::Vcall) matches Err(e) ==> r == Err::<VCall, DecodeError>(e),
        has_tag(*v, Tag::Vcall) ==> (spec_arity(Tag::Vcall, v->List_0@, 2) matches Err(e2)
            ==> r == Err::<VCall, DecodeError>(e2)),
    decreases v, 0int,
{
    let items = tagged_elems(v, Tag::Vcall)?;
    check_arity(Tag::Vcall, items, 2)?;
    let f0 = decode_expression(&items[1])?;
    Ok(VCall(Box::new(f0)))
}


/// A command-style invocation on an explicit receiver.
pub open spec fn valid_command_call(v: Value) -> bool
    decreases v, 0int,
{
    match v {
        Value::List(items) => has_tag(v, Tag::CommandCall) && items@.len() == 5
            && valid_expression(items@[1])
            && valid_dtoo(items@[2])
            && valid_token(items@[3], Tag::Ident)
            && valid_arg_node(items@[4]),
        _ => false,
    }
}

pub open spec fn decoded_command_call(v: Value, x: CommandCall) -> bool
    decreases v, 0int,
{
    match v {
        Value::List(items) => {
            &&& items@.len() == 5
            &&& (decoded_expression(items@[1], *x.0))
            &&& (decoded_dtoo(items@[2], x.1))
            &&& (x.2 == Ident(token_text(items@[3]), token_pos(items@[3])))
            &&& (decoded_arg_node(items@[4], x.3))
        },
        _ => false,
    }
}

pub fn decode_command_call(v: &Value) -> (r: Result<CommandCall, DecodeError>)
    ensures
        r is Ok <==> valid_command_call(*v),
        r matches Ok(x) ==> decoded_command_call(*v, x),
        spec_check_tag(*v, Tag::CommandCall) matches Err(e) ==> r == Err::<CommandCall, DecodeError>(e),
        has_tag(*v, Tag::CommandCall) ==> (spec_arity(Tag::CommandCall, v->List_0@, 5) matches Err(e2)
            ==> r == Err::<CommandCall, DecodeError>(e2)),
    decreases v, 0int,
{
    let items = tagged_elems(v, Tag::CommandCall)?;
    check_arity(Tag::CommandCall, items, 5)?;
    let f0 = decode_expression(&items[1])?;
    let f1 = decode_dtoo(&items[2])?;
    let f2 = decode_ident(&items[3])?;
    let f3 = decode_arg_node(&items[4])?;
    Ok(CommandCall(Box::new(f0), f1, f2, f3))
}


pub open spec fn valid_params(v: Value) -> bool
    decreases v, 0int,
{
    match v {
        Value::List(items) => has_tag(v, Tag::Params) && items@.len() == 8
            && (items@[1] is Null || valid_ident_list(items@[1]))
            && (items@[2] is Null || valid_ie_pair_list(items@[2]))
            && (items@[3] is Null || valid_rest_param(items@[3]))
            && (items@[4] is Null || valid_ident_list(items@[4]))
            && (items@[5] is Null || valid_le_pair_list(items@[5]))
            && (items@[6] is Null || valid_kwrest_param(items@[6]))
            && (items@[7] is Null || valid_blockarg(items@[7])),
        _ => false,
    }
}

pub open spec fn decoded_params(v: Value, x: Params) -> bool
    decreases v, 0int,
{
    match v {
        Value::List(items) => {
            &&& items@.len() == 8
            &&& (match x.0 { Option::None => items@[1] is Null, Option::Some(y) => !(items@[1] is Null) && decoded_ident_list(items@[1], y@) })
            &&& (match x.1 { Option::None => items@[2] is Null, Option::Some(y) => !(items@[2] is Null) && decoded_ie_pair_list(items@[2], y@) })
            &&& (match x.2 { Option::None => items@[3] is Null, Option::Some(y) => !(items@[3] is Null) && decoded_rest_param(items@[3], y) })
            &&& (match x.3 { Option::None => items@[4] is Null, Option::Some(y) => !(items@[4] is Null) && decoded_ident_list(items@[4], y@) })
            &&& (match x.4 { Option::None => items@[5] is Null, Option::Some(y) => !(items@[5] is Null) && decoded_le_pair_list(items@[5], y@) })
            &&& (match x.5 { Option::None => items@[6] is Null, Option::Some(y) => !(items@[6] is Null) && decoded_kwrest_param(items@[6], y) })
            &&& (match x.6 { Option::None => items@[7] is Null, Option::Some(y) => !(items@[7] is Null) && decoded_blockarg(items@[7], y) })
        },
        _ => false,
    }
}

pub fn decode_params(v: &Value) -> (r: Result<Params, DecodeError>)
    ensures
        r is Ok <==> valid_params(*v),
        r matches Ok(x) ==> decoded_params(*v, x),
        spec_check_tag(*v, Tag::Params) matches Err(e) ==> r == Err::<Params, DecodeError>(e),
        has_tag(*v, Tag::Params) ==> (spec_arity(Tag::Params, v->List_0@, 8) matches Err(e2)
            ==> r == Err::<Params, DecodeError>(e2)),
    decreases v, 0int,
{
    let items = tagged_elems(v, Tag::Params)?;
    check_arity(Tag::Params, items, 8)?;
    let f0 = if is_null(&items[1]) { None } else { Some(decode_ident_list(&items[1])?) };
    let f1 = if is_null(&items[2]) { None } else { Some(decode_ie_pair_list(&items[2])?) };
    let f2 = if is_null(&items[3]) { None } else { Some(decode_rest_param(&items[3])?) };
    let f3 = if is_null(&items[4]) { None } else { Some(decode_ident_list(&items[4])?) };
    let f4 = if is_null(&items[5]) { None } else { Some(decode_le_pair_list(&items[5])?) };
    let f5 = if is_null(&items[6]) { None } else { Some(decode_kwrest_param(&items[6])?) };
    let f6 = if is_null(&items[7]) { None } else { Some(decode_blockarg(&items[7])?) };
    Ok(Params(f0, f1, f2, f3, f4, f5, f6))
}


pub open spec fn valid_rest_param(v: Value) -> bool
    decreases v, 0int,
{
    match v {
        Value::List(items) => has_tag(v, Tag::RestParam) && items@.len() == 2
            && (items@[1] is Null || valid_ident_or_var_field(items@[1])),
        _ => false,
    }
}

pub open spec fn decoded_rest_param(v: Value, x: RestParam) -> bool
    decreases v, 0int,
{
    match v {
        Value::List(items) => {
            &&& items@.len() == 2
            &&& (match x.0 { Option::None => items@[1] is Null, Option::Some(y) => !(items@[1] is Null) && decoded_ident_or_var_field(items@[1], y) })
        },
        _ => false,
    }
}

pub fn decode_rest_param(v: &Value) -> (r: Result<RestParam, DecodeError>)
    ensures
        r is Ok <==> valid_rest_param(*v),
        r matches Ok(x) ==> decoded_rest_param(*v, x),
        spec_check_tag(*v, Tag::RestParam) matches Err(e) ==> r == Err::<RestParam, DecodeError>(e),
        has_tag(*v, Tag::RestParam) ==> (spec_arity(Tag::RestParam, v->List_0@, 2) matches Err(e2)
            ==> r == Err::<RestParam, DecodeError>(e2)),
    decreases v, 0int,
{
    let items = tagged_elems(v, Tag::RestParam)?;
    check_arity(Tag::RestParam, items, 2)?;
    let f0 = if is_null(&items[1]) { None } else { Some(decode_ident_or_var_field(&items[1])?) };
    Ok(RestParam(f0))
}


pub open spec fn valid_kwrest_param(v: Value) -> bool
    decreases v, 0int,
{
    match v {
        Value::List(items) => has_tag(v, Tag::KwrestParam) && items@.len() == 2
            && (items@[1] is Null || valid_token(items@[1], Tag::Ident)),
        _ => false,
    }
}

pub open spec fn decoded_kwrest_param(v: Value, x: KwRestParam) -> bool
    decreases v, 0int,
{
    match v {
        Value::List(items) => {
            &&& items@.len() == 2
            &&& (match x.0 { Option::None => items@[1] is Null, Option::Some(y) => !(items@[1] is Null) && y == Ident(token_text(items@[1]), token_pos(items@[1])) })
        },
        _ => false,
    }
}

pub fn decode_kwrest_param(v: &Value) -> (r: Result<KwRestParam, DecodeError>)
    ensures
        r is Ok <==> valid_kwrest_param(*v),
        r matches Ok(x) ==> decoded_kwrest_param(*v, x),
        spec_check_tag(*v, Tag::KwrestParam) matches Err(e) ==> r == Err::<KwRestParam, DecodeError>(e),
        has_tag(*v, Tag::KwrestParam) ==> (spec_arity(Tag::KwrestParam, v->List_0@, 2) matches Err(e2)
            ==> r == Err::<KwRestParam, DecodeError>(e2)),
    decreases v, 0int,
{
    let items = tagged_elems(v, Tag::KwrestParam)?;
    check_arity(Tag::KwrestParam, items, 2)?;
    let f0 = if is_null(&items[1]) { None } else { Some(decode_ident(&items[1])?) };
    Ok(KwRestParam(f0))
}


pub open spec fn valid_blockarg(v: Value) -> bool
    decreases v, 0int,
{
    match v {
        Value::List(items) => has_tag(v, Tag::Blockarg) && items@.len() == 2
            && valid_token(items@[1], Tag::Ident),
        _ => false,
    }
}

pub open spec fn decoded_blockarg(v: Value, x: BlockArg) -> bool
    decreases v, 0int,
{
    match v {
        Value::List(items) => {
            &&& items@.len() == 2
            &&& (x.0 == Ident(token_text(items@[1]), token_pos(items@[1])))
        },
        _ => false,
    }
}

pub fn decode_blockarg(v: &Value) -> (r: Result<BlockArg, DecodeError>)
    ensures
        r is Ok <==> valid_blockarg(*v),
        r matches Ok(x) ==> decoded_blockarg(*v, x),
        spec_check_tag(*v, Tag::Blockarg) matches Err(e) ==> r == Err::<BlockArg, DecodeError>(e),
        has_tag(*v, Tag::Blockarg) ==> (spec_arity(Tag::Blockarg, v->List_0@, 2) matches Err(e2)
            ==> r == Err::<BlockArg, DecodeError>(e2)),
    decreases v, 0int,
{
    let items = tagged_elems(v, Tag::Blockarg)?;
    check_arity(Tag::Blockarg, items, 2)?;
    let f0 = decode_ident(&items[1])?;
    Ok(BlockArg(f0))
}


/// A call with an argument encoding attached.
pub open spec fn valid_method_add_arg(v: Value) -> bool
    decreases v, 0int,
{
    match v {
        Value::List(items) => has_tag(v, Tag::MethodAddArg) && items@.len() == 3
            && valid_call_expr(items@[1])
            && valid_arg_node(items@[2]),
        _ => false,
    }
}

pub open spec fn decoded_method_add_arg(v: Value, x: MethodAddArg) -> bool
    decreases v, 0int,
{
    match v {
        Value::List(items) => {
            &&& items@.len() == 3
            &&& (decoded_call_expr(items@[1], x.0))
            &&& (decoded_arg_node(items@[2], x.1))
        },
        _ => false,
    }
}

pub fn decode_method_add_arg(v: &Value) -> (r: Result<MethodAddArg, DecodeError>)
    ensures
        r is Ok <==> valid_method_add_arg(*v),
        r matches Ok(x) ==> decoded_method_add_arg(*v, x),
        spec_check_tag(*v, Tag::MethodAddArg) matches Err(e) ==> r == Err::<MethodAddArg, DecodeError>(e),
        has_tag(*v, Tag::MethodAddArg) ==> (spec_arity(Tag::MethodAddArg, v->List_0@, 3) matches Err(e2)
            ==> r == Err::<MethodAddArg, DecodeError>(e2)),
    decreases v, 0int,
{
    let items = tagged_elems(v, Tag::MethodAddArg)?;
    check_arity(Tag::MethodAddArg, items, 3)?;
    let f0 = decode_call_expr(&items[1])?;
    let f1 = decode_arg_node(&items[2])?;
    Ok(MethodAddArg(f0, f1))
}


pub open spec fn valid_fcall(v: Value) -> bool
    decreases v, 0int,
{
    match v {
        Value::List(items) => has_tag(v, Tag::Fcall) && items@.len() == 2
            && valid_token(items@[1], Tag::Ident),
        _ => false,
    }
}

pub open spec fn decoded_fcall(v: Value, x: FCall) -> bool
    decreases v, 0int,
{
    match v {
        Value::List(items) => {
            &&& items@.len() == 2
            &&& (x.0 == Ident(token_text(items@[1]), token_pos(items@[1])))
        },
        _ => false,
    }
}

pub fn decode_fcall(v: &Value) -> (r: Result<FCall, DecodeError>)
    ensures
        r is Ok <==> valid_fcall(*v),
        r matches Ok(x) ==> decoded_fcall(*v, x),
        spec_check_tag(*v, Tag::Fcall) matches Err(e) ==> r == Err::<FCall, DecodeError>(e),
        has_tag(*v, Tag::Fcall) ==> (spec_arity(Tag::Fcall, v->List_0@, 2) matches Err(e2)
            ==> r == Err::<FCall, DecodeError>(e2)),
    decreases v, 0int,
{
    let items = tagged_elems(v, Tag::Fcall)?;
    check_arity(Tag::Fcall, items, 2)?;
    let f0 = decode_ident(&items[1])?;
    Ok(FCall(f0))
}


/// A parenthesized argument encoding.
pub open spec fn valid_arg_paren(v: Value) -> bool
    decreases v, 0int,
{
    match v {
        Value::List(items) => has_tag(v, Tag::ArgParen) && items@.len() == 2
            && valid_arg_node(items@[1]),
        _ => false,
    }
}

pub open spec fn decoded_arg_paren(v: Value, x: ArgParen) -> bool
    decreases v, 0int,
{
    match v {
        Value::List(items) => {
            &&& items@.len() == 2
            &&& (decoded_arg_node(items@[1], *x.0))
        },
        _ => false,
    }
}

pub fn decode_arg_paren(v: &Value) -> (r: Result<ArgParen, DecodeError>)
    ensures
        r is Ok <==> valid_arg_paren(*v),
        r matches Ok(x) ==> decoded_arg_paren(*v, x),
        spec_check_tag(*v, Tag::ArgParen) matches Err(e) ==> r == Err::<ArgParen, DecodeError>(e),
        has_tag(*v, Tag::ArgParen) ==> (spec_arity(Tag::ArgParen, v->List_0@, 2) matches Err(e2)
            ==> r == Err::<ArgParen, DecodeError>(e2)),
    decreases v, 0int,
{
    let items = tagged_elems(v, Tag::ArgParen)?;
    check_arity(Tag::ArgParen, items, 2)?;
    let f0 = decode_arg_node(&items[1])?;
    Ok(ArgParen(Box::new(f0)))
}


/// An argument list with a trailing block slot.
pub open spec fn valid_args_add_block(v: Value) -> bool
    decreases v, 0int,
{
    match v {
        Value::List(items) => has_tag(v, Tag::ArgsAddBlock) && items@.len() == 3
            && valid_aasoel(items@[1])
            && valid_maybe_block(items@[2]),
        _ => false,
    }
}

pub open spec fn decoded_args_add_block(v: Value, x: ArgsAddBlock) -> bool
    decreases v, 0int,
{
    match v {
        Value::List(items) => {
            &&& items@.len() == 3
            &&& (decoded_aasoel(items@[1], x.0))
            &&& (decoded_maybe_block(items@[2], x.1))
        },
        _ => false,
    }
}

pub fn decode_args_add_block(v: &Value) -> (r: Result<ArgsAddBlock, DecodeError>)
    ensures
        r is Ok <==> valid_args_add_block(*v),
        r matches Ok(x) ==> decoded_args_add_block(*v, x),
        spec_check_tag(*v, Tag::ArgsAddBlock) matches Err(e) ==> r == Err::<ArgsAddBlock, DecodeError>(e),
        has_tag(*v, Tag::ArgsAddBlock) ==> (spec_arity(Tag::ArgsAddBlock, v->List_0@, 3) matches Err(e2)
            ==> r == Err::<ArgsAddBlock, DecodeError>(e2)),
    decreases v, 0int,
{
    let items = tagged_elems(v, Tag::ArgsAddBlock)?;
    check_arity(Tag::ArgsAddBlock, items, 3)?;
    let f0 = decode_aasoel(&items[1])?;
    let f1 = decode_maybe_block(&items[2])?;
    Ok(ArgsAddBlock(f0, f1))
}


pub open spec fn valid_bare_assoc_hash(v: Value) -> bool
    decreases v, 0int,
{
    match v {
        Value::List(items) => has_tag(v, Tag::BareAssocHash) && items@.len() == 2
            && valid_assoc_list(items@[1]),
        _ => false,
    }
}

pub open spec fn decoded_bare_assoc_hash(v: Value, x: BareAssocHash) -> bool
    decreases v, 0int,
{
    match v {
        Value::List(items) => {
            &&& items@.len() == 2
            &&& (decoded_assoc_list(items@[1], x.0@))
        },
        _ => false,
    }
}

pub fn decode_bare_assoc_hash(v: &Value) -> (r: Result<BareAssocHash, DecodeError>)
    ensures
        r is Ok <==> valid_bare_assoc_hash(*v),
        r matches Ok(x) ==> decoded_bare_assoc_hash(*v, x),
        spec_check_tag(*v, Tag::BareAssocHash) matches Err(e) ==> r == Err::<BareAssocHash, DecodeError>(e),
        has_tag(*v, Tag::BareAssocHash) ==> (spec_arity(Tag::BareAssocHash, v->List_0@, 2) matches Err(e2)
            ==> r == Err::<BareAssocHash, DecodeError>(e2)),
    decreases v, 0int,
{
    let items = tagged_elems(v, Tag::BareAssocHash)?;
    check_arity(Tag::BareAssocHash, items, 2)?;
    let f0 = decode_assoc_list(&items[1])?;
    Ok(BareAssocHash(f0))
}


pub open spec fn valid_assoc_new(v: Value) -> bool
    decreases v, 0int,
{
    match v {
        Value::List(items) => has_tag(v, Tag::AssocNew) && items@.len() == 3
            && valid_lsd(items@[1])
            && valid_expression(items@[2]),
        _ => false,
    }
}

pub open spec fn decoded_assoc_new(v: Value, x: AssocNew) -> bool
    decreases v, 0int,
{
    match v {
        Value::List(items) => {
            &&& items@.len() == 3
            &&& (decoded_lsd(items@[1], x.0))
            &&& (decoded_expression(items@[2], x.1))
        },
        _ => false,
    }
}

pub fn decode_assoc_new(v: &Value) -> (r: Result<AssocNew, DecodeError>)
    ensures
        r is Ok <==> valid_assoc_new(*v),
        r matches Ok(x) ==> decoded_assoc_new(*v, x),
        spec_check_tag(*v, Tag::AssocNew) matches Err(e) ==> r == Err::<AssocNew, DecodeError>(e),
        has_tag(*v, Tag::AssocNew) ==> (spec_arity(Tag::AssocNew, v->List_0@, 3) matches Err(e2)
            ==> r == Err::<AssocNew, DecodeError>(e2)),
    decreases v, 0int,
{
    let items = tagged_elems(v, Tag::AssocNew)?;
    check_arity(Tag::AssocNew, items, 3)?;
    let f0 = decode_lsd(&items[1])?;
    let f1 = decode_expression(&items[2])?;
    Ok(AssocNew(f0, f1))
}


pub open spec fn valid_assoc_splat(v: Value) -> bool
    decreases v, 0int,
{
    match v {
        Value::List(items) => has_tag(v, Tag::AssocSplat) && items@.len() == 2
            && valid_expression(items@[1]),
        _ => false,
    }
}

pub open spec fn decoded_assoc_splat(v: Value, x: AssocSplat) -> bool
    decreases v, 0int,
{
    match v {
        Value::List(items) => {
            &&& items@.len() == 2
            &&& (decoded_expression(items@[1], x.0))
        },
        _ => false,
    }
}

pub fn decode_assoc_splat(v: &Value) -> (r: Result<AssocSplat, DecodeError>)
    ensures
        r is Ok <==> valid_assoc_splat(*v),
        r matches Ok(x) ==> decoded_assoc_splat(*v, x),
        spec_check_tag(*v, Tag::AssocSplat) matches Err(e) ==> r == Err::<AssocSplat, DecodeError>(e),
        has_tag(*v, Tag::AssocSplat) ==> (spec_arity(Tag::AssocSplat, v->List_0@, 2) matches Err(e2)
            ==> r == Err::<AssocSplat, DecodeError>(e2)),
    decreases v, 0int,
{
    let items = tagged_elems(v, Tag::AssocSplat)?;
    check_arity(Tag::AssocSplat, items, 2)?;
    let f0 = decode_expression(&items[1])?;
    Ok(AssocSplat(f0))
}


pub open spec fn valid_symbol_literal(v: Value) -> bool
    decreases v, 0int,
{
    match v {
        Value::List(items) => has_tag(v, Tag::SymbolLiteral) && items@.len() == 2
            && valid_symbol_or_bare(items@[1]),
        _ => false,
    }
}

pub open spec fn decoded_symbol_literal(v: Value, x: SymbolLiteral) -> bool
    decreases v, 0int,
{
    match v {
        Value::List(items) => {
            &&& items@.len() == 2
            &&& (decoded_symbol_or_bare(items@[1], x.0))
        },
        _ => false,
    }
}

pub fn decode_symbol_literal(v: &Value) -> (r: Result<SymbolLiteral, DecodeError>)
    ensures
        r is Ok <==> valid_symbol_literal(*v),
        r matches Ok(x) ==> decoded_symbol_literal(*v, x),
        spec_check_tag(*v, Tag::SymbolLiteral) matches Err(e) ==> r == Err::<SymbolLiteral, DecodeError>(e),
        has_tag(*v, Tag::SymbolLiteral) ==> (spec_arity(Tag::SymbolLiteral, v->List_0@, 2) matches Err(e2)
            ==> r == Err::<SymbolLiteral, DecodeError>(e2)),
    decreases v, 0int,
{
    let items = tagged_elems(v, Tag::SymbolLiteral)?;
    check_arity(Tag::SymbolLiteral, items, 2)?;
    let f0 = decode_symbol_or_bare(&items[1])?;
    Ok(SymbolLiteral(f0))
}


pub open spec fn valid_symbol(v: Value) -> bool
    decreases v, 0int,
{
    match v {
        Value::List(items) => has_tag(v, Tag::Symbol) && items@.len() == 2
            && valid_ident_or_const(items@[1]),
        _ => false,
    }
}

pub open spec fn decoded_symbol(v: Value, x: Symbol) -> bool
    decreases v, 0int,
{
    match v {
        Value::List(items) => {
            &&& items@.len() == 2
            &&& (decoded_ident_or_const(items@[1], x.0))
        },
        _ => false,
    }
}

pub fn decode_symbol(v: &Value) -> (r: Result<Symbol, DecodeError>)
    ensures
        r is Ok <==> valid_symbol(*v),
        r matches Ok(x) ==> decoded_symbol(*v, x),
        spec_check_tag(*v, Tag::Symbol) matches Err(e) ==> r == Err::<Symbol, DecodeError>(e),
        has_tag(*v, Tag::Symbol) ==> (spec_arity(Tag::Symbol, v->List_0@, 2) matches Err(e2)
            ==> r == Err::<Symbol, DecodeError>(e2)),
    decreases v, 0int,
{
    let items = tagged_elems(v, Tag::Symbol)?;
    check_arity(Tag::Symbol, items, 2)?;
    let f0 = decode_ident_or_const(&items[1])?;
    Ok(Symbol(f0))
}


pub open spec fn valid_op(v: Value) -> bool
    decreases v, 0int,
{
    match v {
        Value::List(items) => has_tag(v, Tag::Op) && items@.len() == 3
            && valid_operator(items@[1])
            && valid_line_col(items@[2]),
        _ => false,
    }
}

pub open spec fn decoded_op(v: Value, x: Op) -> bool
    decreases v, 0int,
{
    match v {
        Value::List(items) => {
            &&& items@.len() == 3
            &&& (decoded_operator(items@[1], x.0))
            &&& (x.1 == spec_line_col(items@[2]))
        },
        _ => false,
    }
}

pub fn decode_op(v: &Value) -> (r: Result<Op, DecodeError>)
    ensures
        r is Ok <==> valid_op(*v),
        r matches Ok(x) ==> decoded_op(*v, x),
        spec_check_tag(*v, Tag::Op) matches Err(e) ==> r == Err::<Op, DecodeError>(e),
        has_tag(*v, Tag::Op) ==> (spec_arity(Tag::Op, v->List_0@, 3) matches Err(e2)
            ==> r == Err::<Op, DecodeError>(e2)),
    decreases v, 0int,
{
    let items = tagged_elems(v, Tag::Op)?;
    check_arity(Tag::Op, items, 3)?;
    let f0 = decode_operator(&items[1])?;
    let f1 = decode_line_col(&items[2])?;
    Ok(Op(f0, f1))
}


pub open spec fn valid_next(v: Value) -> bool
    decreases v, 0int,
{
    match v {
        Value::List(items) => has_tag(v, Tag::Next) && items@.len() == 2
            && valid_aabo_el(items@[1]),
        _ => false,
    }
}

pub open spec fn decoded_next(v: Value, x: Next) -> bool
    decreases v, 0int,
{
    match v {
        Value::List(items) => {
            &&& items@.len() == 2
            &&& (decoded_aabo_el(items@[1], x.0))
        },
        _ => false,
    }
}

pub fn decode_next(v: &Value) -> (r: Result<Next, DecodeError>)
    ensures
        r is Ok <==> valid_next(*v),
        r matches Ok(x) ==> decoded_next(*v, x),
        spec_check_tag(*v, Tag::Next) matches Err(e) ==> r == Err::<Next, DecodeError>(e),
        has_tag(*v, Tag::Next) ==> (spec_arity(Tag::Next, v->List_0@, 2) matches Err(e2)
            ==> r == Err::<Next, DecodeError>(e2)),
    decreases v, 0int,
{
    let items = tagged_elems(v, Tag::Next)?;
    check_arity(Tag::Next, items, 2)?;
    let f0 = decode_aabo_el(&items[1])?;
    Ok(Next(f0))
}


pub open spec fn valid_if_mod(v: Value) -> bool
    decreases v, 0int,
{
    match v {
        Value::List(items) => has_tag(v, Tag::IfMod) && items@.len() == 3
            && valid_expression(items@[1])
            && valid_expression(items@[2]),
        _ => false,
    }
}

pub open spec fn decoded_if_mod(v: Value, x: IfMod) -> bool
    decreases v, 0int,
{
    match v {
        Value::List(items) => {
            &&& items@.len() == 3
            &&& (decoded_expression(items@[1], *x.0))
            &&& (decoded_expression(items@[2], *x.1))
        },
        _ => false,
    }
}

pub fn decode_if_mod(v: &Value) -> (r: Result<IfMod, DecodeError>)
    ensures
        r is Ok <==> valid_if_mod(*v),
        r matches Ok(x) ==> decoded_if_mod(*v, x),
        spec_check_tag(*v, Tag::IfMod) matches Err(e) ==> r == Err::<IfMod, DecodeError>(e),
        has_tag(*v, Tag::IfMod) ==> (spec_arity(Tag::IfMod, v->List_0@, 3) matches Err(e2)
            ==> r == Err::<IfMod, DecodeError>(e2)),
    decreases v, 0int,
{
    let items = tagged_elems(v, Tag::IfMod)?;
    check_arity(Tag::IfMod, items, 3)?;
    let f0 = decode_expression(&items[1])?;
    let f1 = decode_expression(&items[2])?;
    Ok(IfMod(Box::new(f0), Box::new(f1)))
}


/// A `super` invocation with its argument encoding.
pub open spec fn valid_super_node(v: Value) -> bool
    decreases v, 0int,
{
    match v {
        Value::List(items) => has_tag(v, Tag::Super) && items@.len() == 2
            && valid_arg_node(items@[1]),
        _ => false,
    }
}

pub open spec fn decoded_super_node(v: Value, x: Super) -> bool
    decreases v, 0int,
{
    match v {
        Value::List(items) => {
            &&& items@.len() == 2
            &&& (decoded_arg_node(items@[1], x.0))
        },
        _ => false,
    }
}

pub fn decode_super_node(v: &Value) -> (r: Result<Super, DecodeError>)
    ensures
        r is Ok <==> valid_super_node(*v),
        r matches Ok(x) ==> decoded_super_node(*v, x),
        spec_check_tag(*v, Tag::Super) matches Err(e) ==> r == Err::<Super, DecodeError>(e),
        has_tag(*v, Tag::Super) ==> (spec_arity(Tag::Super, v->List_0@, 2) matches Err(e2)
            ==> r == Err::<Super, DecodeError>(e2)),
    decreases v, 0int,
{
    let items = tagged_elems(v, Tag::Super)?;
    check_arity(Tag::Super, items, 2)?;
    let f0 = decode_arg_node(&items[1])?;
    Ok(Super(f0))
}


pub open spec fn valid_class(v: Value) -> bool
    decreases v, 0int,
{
    match v {
        Value::List(items) => has_tag(v, Tag::Class) && items@.len() == 4
            && valid_cpr_or_cr(items@[1])
            && (items@[2] is Null || valid_expression(items@[2]))
            && valid_bodystmt(items@[3]),
        _ => false,
    }
}

pub open spec fn decoded_class(v: Value, x: Class) -> bool
    decreases v, 0int,
{
    match v {
        Value::List(items) => {
            &&& items@.len() == 4
            &&& (decoded_cpr_or_cr(items@[1], x.0))
            &&& (match x.1 { Option::None => items@[2] is Null, Option::Some(y) => !(items@[2] is Null) && decoded_expression(items@[2], *y) })
            &&& (decoded_bodystmt(items@[3], x.2))
        },
        _ => false,
    }
}

pub fn decode_class(v: &Value) -> (r: Result<Class, DecodeError>)
    ensures
        r is Ok <==> valid_class(*v),
        r matches Ok(x) ==> decoded_class(*v, x),
        spec_check_tag(*v, Tag::Class) matches Err(e) ==> r == Err::<Class, DecodeError>(e),
        has_tag(*v, Tag::Class) ==> (spec_arity(Tag::Class, v->List_0@, 4) matches Err(e2)
            ==> r == Err::<Class, DecodeError>(e2)),
    decreases v, 0int,
{
    let items = tagged_elems(v, Tag::Class)?;
    check_arity(Tag::Class, items, 4)?;
    let f0 = decode_cpr_or_cr(&items[1])?;
    let f1 = if is_null(&items[2]) { None } else { Some(Box::new(decode_expression(&items[2])?)) };
    let f2 = decode_bodystmt(&items[3])?;
    Ok(Class(f0, f1, f2))
}


pub open spec fn valid_defs(v: Value) -> bool
    decreases v, 0int,
{
    match v {
        Value::List(items) => has_tag(v, Tag::Defs) && items@.len() == 6
            && valid_singleton(items@[1])
            && valid_dot_or_colon(items@[2])
            && valid_token(items@[3], Tag::Ident)
            && valid_paren_or_params(items@[4])
            && valid_bodystmt(items@[5]),
        _ => false,
    }
}

pub open spec fn decoded_defs(v: Value, x: Defs) -> bool
    decreases v, 0int,
{
    match v {
        Value::List(items) => {
            &&& items@.len() == 6
            &&& (decoded_singleton(items@[1], x.0))
            &&& (decoded_dot_or_colon(items@[2], x.1))
            &&& (x.2 == Ident(token_text(items@[3]), token_pos(items@[3])))
            &&& (decoded_paren_or_params(items@[4], x.3))
            &&& (decoded_bodystmt(items@[5], x.4))
        },
        _ => false,
    }
}

pub fn decode_defs(v: &Value) -> (r: Result<Defs, DecodeError>)
    ensures
        r is Ok <==> valid_defs(*v),
        r matches Ok(x) ==> decoded_defs(*v, x),
        spec_check_tag(*v, Tag::Defs) matches Err(e) ==> r == Err::<Defs, DecodeError>(e),
        has_tag(*v, Tag::Defs) ==> (spec_arity(Tag::Defs, v->List_0@, 6) matches Err(e2)
            ==> r == Err::<Defs, DecodeError>(e2)),
    decreases v, 0int,
{
    let items = tagged_elems(v, Tag::Defs)?;
    check_arity(Tag::Defs, items, 6)?;
    let f0 = decode_singleton(&items[1])?;
    let f1 = decode_dot_or_colon(&items[2])?;
    let f2 = decode_ident(&items[3])?;
    let f3 = decode_paren_or_params(&items[4])?;
    let f4 = decode_bodystmt(&items[5])?;
    Ok(Defs(f0, f1, f2, f3, f4))
}


pub open spec fn valid_binary(v: Value) -> bool
    decreases v, 0int,
{
    match v {
        Value::List(items) => has_tag(v, Tag::Binary) && items@.len() == 4
            && valid_expression(items@[1])
            && items@[2] is Text
            && valid_expression(items@[3]),
        _ => false,
    }
}

pub open spec fn decoded_binary(v: Value, x: Binary) -> bool
    decreases v, 0int,
{
    match v {
        Value::List(items) => {
            &&& items@.len() == 4
            &&& (decoded_expression(items@[1], *x.0))
            &&& (x.1 == items@[2]->Text_0)
            &&& (decoded_expression(items@[3], *x.2))
        },
        _ => false,
    }
}

pub fn decode_binary(v: &Value) -> (r: Result<Binary, DecodeError>)
    ensures
        r is Ok <==> valid_binary(*v),
        r matches Ok(x) ==> decoded_binary(*v, x),
        spec_check_tag(*v, Tag::Binary) matches Err(e) ==> r == Err::<Binary, DecodeError>(e),
        has_tag(*v, Tag::Binary) ==> (spec_arity(Tag::Binary, v->List_0@, 4) matches Err(e2)
            ==> r == Err::<Binary, DecodeError>(e2)),
    decreases v, 0int,
{
    let items = tagged_elems(v, Tag::Binary)?;
    check_arity(Tag::Binary, items, 4)?;
    let f0 = decode_expression(&items[1])?;
    let f1 = (match &items[2] { Value::Text(s) => s.clone(), _ => return Err(DecodeError::UnionExhausted) });
    let f2 = decode_expression(&items[3])?;
    Ok(Binary(Box::new(f0), f1, Box::new(f2)))
}


/// A dotted call link: receiver, separator, message.
pub open spec fn valid_call(v: Value) -> bool
    decreases v, 0int,
{
    match v {
        Value::List(items) => has_tag(v, Tag::Call) && items@.len() == 4
            && valid_expression(items@[1])
            && valid_dtoo(items@[2])
            && valid_expression(items@[3]),
        _ => false,
    }
}

pub open spec fn decoded_call(v: Value, x: Call) -> bool
    decreases v, 0int,
{
    match v {
        Value::List(items) => {
            &&& items@.len() == 4
            &&& (decoded_expression(items@[1], *x.0))
            &&& (decoded_dtoo(items@[2], x.1))
            &&& (decoded_expression(items@[3], *x.2))
        },
        _ => false,
    }
}

pub fn decode_call(v: &Value) -> (r: Result<Call, DecodeError>)
    ensures
        r is Ok <==> valid_call(*v),
        r matches Ok(x) ==> decoded_call(*v, x),
        spec_check_tag(*v, Tag::Call) matches Err(e) ==> r == Err::<Call, DecodeError>(e),
        has_tag(*v, Tag::Call) ==> (spec_arity(Tag::Call, v->List_0@, 4) matches Err(e2)
            ==> r == Err::<Call, DecodeError>(e2)),
    decreases v, 0int,
{
    let items = tagged_elems(v, Tag::Call)?;
    check_arity(Tag::Call, items, 4)?;
    let f0 = decode_expression(&items[1])?;
    let f1 = decode_dtoo(&items[2])?;
    let f2 = decode_expression(&items[3])?;
    Ok(Call(Box::new(f0), f1, Box::new(f2)))
}


// ------------------------------------------------------------------
// Pair elements of the parameter lists
// ------------------------------------------------------------------

pub open spec fn valid_ie_pair(v: Value) -> bool
    decreases v, 0int,
{
    match v {
        Value::List(items) => items@.len() == 2 && valid_token(items@[0], Tag::Ident)
            && valid_expression(items@[1]),
        _ => false,
    }
}

pub open spec fn decoded_ie_pair(v: Value, x: (Ident, Expression)) -> bool
    decreases v, 0int,
{
    match v {
        Value::List(items) => items@.len() == 2
            && x.0 == Ident(token_text(items@[0]), token_pos(items@[0]))
            && decoded_expression(items@[1], x.1),
        _ => false,
    }
}

pub fn decode_ie_pair(v: &Value) -> (r: Result<(Ident, Expression), DecodeError>)
    ensures
        r is Ok <==> valid_ie_pair(*v),
        r matches Ok(x) ==> decoded_ie_pair(*v, x),
    decreases v, 0int,
{
    match v {
        Value::List(items) => {
            if items.len() != 2 {
                return Err(DecodeError::UnionExhausted);
            }
            let a = decode_ident(&items[0])?;
            let b = decode_expression(&items[1])?;
            Ok((a, b))
        },
        _ => Err(DecodeError::UnionExhausted),
    }
}

pub open spec fn valid_le_pair(v: Value) -> bool
    decreases v, 0int,
{
    match v {
        Value::List(items) => items@.len() == 2 && valid_token(items@[0], Tag::Label)
            && valid_expression_or_false(items@[1]),
        _ => false,
    }
}

pub open spec fn decoded_le_pair(v: Value, x: (Label, ExpressionOrFalse)) -> bool
    decreases v, 0int,
{
    match v {
        Value::List(items) => items@.len() == 2
            && x.0 == Label(token_text(items@[0]), token_pos(items@[0]))
            && decoded_expression_or_false(items@[1], x.1),
        _ => false,
    }
}

pub fn decode_le_pair(v: &Value) -> (r: Result<(Label, ExpressionOrFalse), DecodeError>)
    ensures
        r is Ok <==> valid_le_pair(*v),
        r matches Ok(x) ==> decoded_le_pair(*v, x),
    decreases v, 0int,
{
    match v {
        Value::List(items) => {
            if items.len() != 2 {
                return Err(DecodeError::UnionExhausted);
            }
            let a = decode_label(&items[0])?;
            let b = decode_expression_or_false(&items[1])?;
            Ok((a, b))
        },
        _ => Err(DecodeError::UnionExhausted),
    }
}

// ------------------------------------------------------------------
// Unions with untagged alternatives
// ------------------------------------------------------------------

/// A block slot is a bare boolean marker or a to-proc expression.
pub open spec fn valid_maybe_block(v: Value) -> bool
    decreases v, 4int,
{
    v is Bool || valid_expression(v)
}

pub open spec fn decoded_maybe_block(v: Value, x: MaybeBlock) -> bool
    decreases v, 4int,
{
    if v is Bool {
        x == MaybeBlock::NoBlock(v->Bool_0)
    } else if valid_expression(v) {
        x matches MaybeBlock::ToProcExpr(y) && decoded_expression(v, *y)
    } else {
        false
    }
}

pub fn decode_maybe_block(v: &Value) -> (r: Result<MaybeBlock, DecodeError>)
    ensures
        r is Ok <==> valid_maybe_block(*v),
        r matches Ok(x) ==> decoded_maybe_block(*v, x),
    decreases v, 4int,
{
    match v {
        Value::Bool(b) => return Ok(MaybeBlock::NoBlock(*b)),
        _ => {},
    }
    match decode_expression(v) {
        Ok(y) => Ok(MaybeBlock::ToProcExpr(Box::new(y))),
        Err(_) => Err(DecodeError::UnionExhausted),
    }
}

pub open spec fn valid_expression_or_false(v: Value) -> bool
    decreases v, 4int,
{
    valid_expression(v) || v is Bool
}

pub open spec fn decoded_expression_or_false(v: Value, x: ExpressionOrFalse) -> bool
    decreases v, 4int,
{
    if valid_expression(v) {
        x matches ExpressionOrFalse::Expression(y) && decoded_expression(v, y)
    } else if v is Bool {
        x == ExpressionOrFalse::False(v->Bool_0)
    } else {
        false
    }
}

pub fn decode_expression_or_false(v: &Value) -> (r: Result<ExpressionOrFalse, DecodeError>)
    ensures
        r is Ok <==> valid_expression_or_false(*v),
        r matches Ok(x) ==> decoded_expression_or_false(*v, x),
    decreases v, 4int,
{
    match decode_expression(v) {
        Ok(y) => return Ok(ExpressionOrFalse::Expression(y)),
        Err(_) => {},
    }
    match v {
        Value::Bool(b) => Ok(ExpressionOrFalse::False(*b)),
        _ => Err(DecodeError::UnionExhausted),
    }
}

/// The uniform argument-node union.  Order matters: a parenthesized or
/// block-bearing encoding wins over a bare list, a bare list over a lone
/// constant or identifier, and the null encoding comes last.
pub open spec fn valid_arg_node(v: Value) -> bool
    decreases v, 2int,
{
    valid_arg_paren(v) || valid_args_add_block(v) || valid_expr_list(v)
        || valid_token(v, Tag::Const) || valid_token(v, Tag::Ident)
        || v is Null || v is Text
}

pub open spec fn decoded_arg_node(v: Value, x: ArgNode) -> bool
    decreases v, 2int,
{
    if valid_arg_paren(v) {
        x matches ArgNode::ArgParen(y) && decoded_arg_paren(v, y)
    } else if valid_args_add_block(v) {
        x matches ArgNode::ArgsAddBlock(y) && decoded_args_add_block(v, y)
    } else if valid_expr_list(v) {
        x matches ArgNode::Exprs(y) && decoded_expr_list(v, y@)
    } else if valid_token(v, Tag::Const) {
        x matches ArgNode::Const(y) && y == Const(token_text(v), token_pos(v))
    } else if valid_token(v, Tag::Ident) {
        x matches ArgNode::Ident(y) && y == Ident(token_text(v), token_pos(v))
    } else if v is Null {
        x == ArgNode::Null(None::<String>)
    } else if v is Text {
        x == ArgNode::Null(Some(v->Text_0))
    } else {
        false
    }
}

pub fn decode_arg_node(v: &Value) -> (r: Result<ArgNode, DecodeError>)
    ensures
        r is Ok <==> valid_arg_node(*v),
        r matches Ok(x) ==> decoded_arg_node(*v, x),
    decreases v, 2int,
{
    match decode_arg_paren(v) {
        Ok(y) => return Ok(ArgNode::ArgParen(y)),
        Err(_) => {},
    }
    match decode_args_add_block(v) {
        Ok(y) => return Ok(ArgNode::ArgsAddBlock(y)),
        Err(_) => {},
    }
    match decode_expr_list(v) {
        Ok(y) => return Ok(ArgNode::Exprs(y)),
        Err(_) => {},
    }
    match decode_const(v) {
        Ok(y) => return Ok(ArgNode::Const(y)),
        Err(_) => {},
    }
    match decode_ident(v) {
        Ok(y) => return Ok(ArgNode::Ident(y)),
        Err(_) => {},
    }
    match v {
        Value::Null => Ok(ArgNode::Null(None)),
        Value::Text(s) => Ok(ArgNode::Null(Some(s.clone()))),
        _ => Err(DecodeError::UnionExhausted),
    }
}

/// A percent-literal array: its sigil text, its word parts, its position.
pub open spec fn valid_percent(v: Value) -> bool
    decreases v, 0int,
{
    match v {
        Value::List(items) => items@.len() == 3 && items@[0] is Text
            && valid_scp_list(items@[1]) && valid_line_col(items@[2]),
        _ => false,
    }
}

pub open spec fn decoded_percent(v: Value, x: (String, Vec<StringContentPart>, LineCol)) -> bool
    decreases v, 0int,
{
    match v {
        Value::List(items) => items@.len() == 3 && x.0 == items@[0]->Text_0
            && decoded_scp_list(items@[1], x.1@)
            && x.2 == spec_line_col(items@[2]),
        _ => false,
    }
}

fn decode_percent(v: &Value) -> (r: Result<(String, Vec<StringContentPart>, LineCol), DecodeError>)
    ensures
        r is Ok <==> valid_percent(*v),
        r matches Ok(x) ==> decoded_percent(*v, x),
    decreases v, 0int,
{
    match v {
        Value::List(items) => {
            if items.len() != 3 {
                return Err(DecodeError::UnionExhausted);
            }
            let a = match &items[0] {
                Value::Text(s) => s.clone(),
                _ => return Err(DecodeError::UnionExhausted),
            };
            let b = decode_scp_list(&items[1])?;
            let c = decode_line_col(&items[2])?;
            Ok((a, b, c))
        },
        _ => Err(DecodeError::UnionExhausted),
    }
}

/// An array body: null or an argument list (a plain array), or a percent
/// literal.  The plain form is tried first.
pub open spec fn valid_sapa(v: Value) -> bool
    decreases v, 3int,
{
    v is Null || valid_aasoel(v) || valid_percent(v)
}

pub open spec fn decoded_sapa(v: Value, x: SimpleArrayOrPercentArray) -> bool
    decreases v, 3int,
{
    if v is Null {
        x == SimpleArrayOrPercentArray::SimpleArray(None::<ArgsAddStarOrExpressionList>)
    } else if valid_aasoel(v) {
        x matches SimpleArrayOrPercentArray::SimpleArray(y) && y matches Some(z)
            && decoded_aasoel(v, z)
    } else if valid_percent(v) {
        x matches SimpleArrayOrPercentArray::PercentArray(y) && decoded_percent(v, y)
    } else {
        false
    }
}

pub fn decode_sapa(v: &Value) -> (r: Result<SimpleArrayOrPercentArray, DecodeError>)
    ensures
        r is Ok <==> valid_sapa(*v),
        r matches Ok(x) ==> decoded_sapa(*v, x),
    decreases v, 3int,
{
    if is_null(v) {
        return Ok(SimpleArrayOrPercentArray::SimpleArray(None));
    }
    match decode_aasoel(v) {
        Ok(y) => return Ok(SimpleArrayOrPercentArray::SimpleArray(Some(y))),
        Err(_) => {},
    }
    match decode_percent(v) {
        Ok(y) => Ok(SimpleArrayOrPercentArray::PercentArray(y)),
        Err(_) => Err(DecodeError::UnionExhausted),
    }
}

/// A call-chain separator: a bare dot shape first, then a positioned
/// period, the double colon, and a positioned operator node.
pub open spec fn valid_dtoo(v: Value) -> bool
    decreases v, 1int,
{
    valid_dot_type(v) || valid_token(v, Tag::Period) || valid_colon_colon(v) || valid_op(v)
}

pub open spec fn decoded_dtoo(v: Value, x: DotTypeOrOp) -> bool
    decreases v, 1int,
{
    if valid_dot_type(v) {
        x matches DotTypeOrOp::DotType(y) && decoded_dot_type(v, y)
    } else if valid_token(v, Tag::Period) {
        x matches DotTypeOrOp::Period(y) && y == Period(token_text(v), token_pos(v))
    } else if valid_colon_colon(v) {
        x == DotTypeOrOp::ColonColon(ColonColon)
    } else if valid_op(v) {
        x matches DotTypeOrOp::Op(y) && decoded_op(v, y)
    } else {
        false
    }
}

pub fn decode_dtoo(v: &Value) -> (r: Result<DotTypeOrOp, DecodeError>)
    ensures
        r is Ok <==> valid_dtoo(*v),
        r matches Ok(x) ==> decoded_dtoo(*v, x),
    decreases v, 1int,
{
    match decode_dot_type(v) {
        Ok(y) => return Ok(DotTypeOrOp::DotType(y)),
        Err(_) => {},
    }
    match decode_period(v) {
        Ok(y) => return Ok(DotTypeOrOp::Period(y)),
        Err(_) => {},
    }
    if is_colon_colon(v) {
        return Ok(DotTypeOrOp::ColonColon(ColonColon));
    }
    match decode_op(v) {
        Ok(y) => Ok(DotTypeOrOp::Op(y)),
        Err(_) => Err(DecodeError::UnionExhausted),
    }
}

// ------------------------------------------------------------------
// Nodes with probed or greedy shapes
// ------------------------------------------------------------------

/// An empty-statement marker: the tag alone.
pub open spec fn valid_void_stmt(v: Value) -> bool {
    has_tag(v, Tag::VoidStmt) && v->List_0@.len() == 1
}

pub fn decode_void_stmt(v: &Value) -> (r: Result<VoidStmt, DecodeError>)
    ensures
        r is Ok <==> valid_void_stmt(*v),
        spec_check_tag(*v, Tag::VoidStmt) matches Err(e) ==> r == Err::<VoidStmt, DecodeError>(e),
        has_tag(*v, Tag::VoidStmt) ==> (spec_arity(Tag::VoidStmt, v->List_0@, 1) matches Err(e2)
            ==> r == Err::<VoidStmt, DecodeError>(e2)),
{
    let items = tagged_elems(v, Tag::VoidStmt)?;
    check_arity(Tag::VoidStmt, items, 1)?;
    Ok(VoidStmt)
}

/// A negation: the tag, the fixed `not` marker, the operand.
pub open spec fn valid_unary(v: Value) -> bool
    decreases v, 0int,
{
    match v {
        Value::List(items) => has_tag(v, Tag::Unary) && items@.len() == 3
            && (items@[1] matches Value::Text(s) && s@ == Tag::Not.lit())
            && valid_expression(items@[2]),
        _ => false,
    }
}

pub open spec fn decoded_unary(v: Value, x: Unary) -> bool
    decreases v, 0int,
{
    match v {
        Value::List(items) => items@.len() == 3
            && x.0 == UnaryType::Not && decoded_expression(items@[2], *x.1),
        _ => false,
    }
}

pub fn decode_unary(v: &Value) -> (r: Result<Unary, DecodeError>)
    ensures
        r is Ok <==> valid_unary(*v),
        r matches Ok(x) ==> decoded_unary(*v, x),
        spec_check_tag(*v, Tag::Unary) matches Err(e) ==> r == Err::<Unary, DecodeError>(e),
        has_tag(*v, Tag::Unary) ==> (spec_arity(Tag::Unary, v->List_0@, 3) matches Err(e2)
            ==> r == Err::<Unary, DecodeError>(e2)),
    decreases v, 0int,
{
    let items = tagged_elems(v, Tag::Unary)?;
    check_arity(Tag::Unary, items, 3)?;
    match &items[1] {
        Value::Text(s) => {
            if !(*s == Tag::Not.literal()) {
                return Err(DecodeError::TagMismatch { expected: Tag::Not, actual: Some(s.clone()) });
            }
        },
        _ => return Err(DecodeError::TagMismatch { expected: Tag::Not, actual: None }),
    }
    let e = decode_expression(&items[2])?;
    Ok(Unary(UnaryType::Not, Box::new(e)))
}

/// String content: the tag, then any number of parts, collected greedily.
pub open spec fn valid_string_content(v: Value) -> bool
    decreases v, 0int,
{
    match v {
        Value::List(items) => has_tag(v, Tag::StringContent) && valid_scp_elems(items@, 1),
        _ => false,
    }
}

pub open spec fn decoded_string_content(v: Value, x: StringContent) -> bool
    decreases v, 0int,
{
    match v {
        Value::List(items) => decoded_scp_elems(items@, 1, x.0@),
        _ => false,
    }
}

pub fn decode_string_content(v: &Value) -> (r: Result<StringContent, DecodeError>)
    ensures
        r is Ok <==> valid_string_content(*v),
        r matches Ok(x) ==> decoded_string_content(*v, x),
        spec_check_tag(*v, Tag::StringContent) matches Err(e)
            ==> r == Err::<StringContent, DecodeError>(e),
    decreases v, 0int,
{
    let items = tagged_elems(v, Tag::StringContent)?;
    let parts = decode_scp_elems(items, 1)?;
    Ok(StringContent(parts))
}

/// Star arguments: the tag, the pre-splat encoding, the splat expression,
/// then any number of post-splat expressions, collected greedily.
pub open spec fn valid_args_add_star(v: Value) -> bool
    decreases v, 0int,
{
    match v {
        Value::List(items) => has_tag(v, Tag::ArgsAddStar) && items@.len() >= 3
            && valid_aasoel(items@[1]) && valid_expression(items@[2])
            && valid_expr_elems(items@, 3),
        _ => false,
    }
}

pub open spec fn decoded_args_add_star(v: Value, x: ArgsAddStar) -> bool
    decreases v, 0int,
{
    match v {
        Value::List(items) => {
            &&& items@.len() >= 3
            &&& decoded_aasoel(items@[1], *x.0)
            &&& decoded_expression(items@[2], *x.1)
            &&& decoded_expr_elems(items@, 3, x.2@)
        },
        _ => false,
    }
}

pub fn decode_args_add_star(v: &Value) -> (r: Result<ArgsAddStar, DecodeError>)
    ensures
        r is Ok <==> valid_args_add_star(*v),
        r matches Ok(x) ==> decoded_args_add_star(*v, x),
        spec_check_tag(*v, Tag::ArgsAddStar) matches Err(e)
            ==> r == Err::<ArgsAddStar, DecodeError>(e),
        has_tag(*v, Tag::ArgsAddStar) && v->List_0@.len() < 3
            ==> r == Err::<ArgsAddStar, DecodeError>(DecodeError::MissingField {
                kind: Tag::ArgsAddStar,
                index: v->List_0@.len() as u64,
            }),
    decreases v, 0int,
{
    let items = tagged_elems(v, Tag::ArgsAddStar)?;
    if items.len() < 3 {
        return Err(DecodeError::MissingField {
            kind: Tag::ArgsAddStar,
            index: items.len() as u64,
        });
    }
    let left = decode_aasoel(&items[1])?;
    let star = decode_expression(&items[2])?;
    let rest = decode_expr_elems(items, 3)?;
    Ok(ArgsAddStar(Box::new(left), Box::new(star), rest))
}

/// A string literal: the tag, optional heredoc metadata probed first, then
/// the content.  Heredoc metadata without content is malformed.
pub open spec fn valid_string_literal(v: Value) -> bool
    decreases v, 0int,
{
    match v {
        Value::List(items) => has_tag(v, Tag::StringLiteral) && items@.len() >= 2
            && (if valid_heredoc(items@[1]) {
                items@.len() == 3 && valid_string_content(items@[2])
            } else {
                items@.len() == 2 && valid_string_content(items@[1])
            }),
        _ => false,
    }
}

pub open spec fn decoded_string_literal(v: Value, x: StringLiteral) -> bool
    decreases v, 0int,
{
    match v {
        Value::List(items) => {
            if items@.len() >= 2 && valid_heredoc(items@[1]) {
                items@.len() == 3 && (x.0 matches Some(h)
                    && h == HeredocStringLiteral(heredoc_pair(items@[1]))
                    && decoded_string_content(items@[2], x.1))
            } else {
                items@.len() == 2 && x.0 is None && decoded_string_content(items@[1], x.1)
            }
        },
        _ => false,
    }
}

pub fn decode_string_literal(v: &Value) -> (r: Result<StringLiteral, DecodeError>)
    ensures
        r is Ok <==> valid_string_literal(*v),
        r matches Ok(x) ==> decoded_string_literal(*v, x),
        spec_check_tag(*v, Tag::StringLiteral) matches Err(e)
            ==> r == Err::<StringLiteral, DecodeError>(e),
        has_tag(*v, Tag::StringLiteral) && v->List_0@.len() == 1
            ==> r == Err::<StringLiteral, DecodeError>(DecodeError::MissingField {
                kind: Tag::StringLiteral,
                index: 1,
            }),
        has_tag(*v, Tag::StringLiteral) && v->List_0@.len() == 2 && valid_heredoc(v->List_0@[1])
            ==> r == Err::<StringLiteral, DecodeError>(DecodeError::MalformedHeredoc),
    decreases v, 0int,
{
    let items = tagged_elems(v, Tag::StringLiteral)?;
    if items.len() < 2 {
        return Err(DecodeError::MissingField { kind: Tag::StringLiteral, index: 1 });
    }
    match decode_heredoc(&items[1]) {
        Ok(h) => {
            if items.len() == 2 {
                return Err(DecodeError::MalformedHeredoc);
            }
            check_arity(Tag::StringLiteral, items, 3)?;
            let sc = decode_string_content(&items[2])?;
            Ok(StringLiteral(Some(h), sc))
        },
        Err(_) => {
            check_arity(Tag::StringLiteral, items, 2)?;
            let sc = decode_string_content(&items[1])?;
            Ok(StringLiteral(None, sc))
        },
    }
}

/// The expression union: which node kind the leading tag selects, tried in
/// the fixed priority order of the grammar.
pub open spec fn valid_expression(v: Value) -> bool
    decreases v, 3int,
{
    match v {
        Value::List(items) => {
            if items@.len() == 0 {
                false
            } else {
                match items@[0] {
                    Value::Text(s) => {
                        if s@ == Tag::Class.lit() {
                            valid_class(v)
                        } else if s@ == Tag::If.lit() {
                            valid_if_node(v)
                        } else if s@ == Tag::IfMod.lit() {
                            valid_if_mod(v)
                        } else if s@ == Tag::Unary.lit() {
                            valid_unary(v)
                        } else if s@ == Tag::VoidStmt.lit() {
                            valid_void_stmt(v)
                        } else if s@ == Tag::Def.lit() {
                            valid_def_node(v)
                        } else if s@ == Tag::Defs.lit() {
                            valid_defs(v)
                        } else if s@ == Tag::Vcall.lit() {
                            valid_vcall(v)
                        } else if s@ == Tag::Ident.lit() {
                            valid_token(v, Tag::Ident)
                        } else if s@ == Tag::Params.lit() {
                            valid_params(v)
                        } else if s@ == Tag::MethodCall.lit() {
                            valid_method_call(v)
                        } else if s@ == Tag::Call.lit() {
                            items@.len() == 1 || valid_call(v)
                        } else if s@ == Tag::CommandCall.lit() {
                            valid_command_call(v)
                        } else if s@ == Tag::MethodAddArg.lit() {
                            valid_method_add_arg(v)
                        } else if s@ == Tag::Int.lit() {
                            valid_token(v, Tag::Int)
                        } else if s@ == Tag::BareAssocHash.lit() {
                            valid_bare_assoc_hash(v)
                        } else if s@ == Tag::Symbol.lit() {
                            valid_symbol(v)
                        } else if s@ == Tag::SymbolLiteral.lit() {
                            valid_symbol_literal(v)
                        } else if s@ == Tag::DynaSymbol.lit() {
                            valid_dyna_symbol(v)
                        } else if s@ == Tag::Begin.lit() {
                            valid_begin(v)
                        } else if s@ == Tag::Paren.lit() {
                            valid_paren_expr(v)
                        } else if s@ == Tag::Dot2.lit() {
                            valid_dot2(v)
                        } else if s@ == Tag::Dot3.lit() {
                            valid_dot3(v)
                        } else if s@ == Tag::Alias.lit() {
                            valid_alias(v)
                        } else if s@ == Tag::Array.lit() {
                            valid_array(v)
                        } else if s@ == Tag::StringLiteral.lit() {
                            valid_string_literal(v)
                        } else if s@ == Tag::XstringLiteral.lit() {
                            valid_xstring_literal(v)
                        } else if s@ == Tag::VarRef.lit() {
                            valid_var_ref(v)
                        } else if s@ == Tag::Assign.lit() {
                            valid_assign(v)
                        } else if s@ == Tag::Massign.lit() {
                            valid_massign(v)
                        } else if s@ == Tag::Const.lit() {
                            valid_token(v, Tag::Const)
                        } else if s@ == Tag::Command.lit() {
                            valid_command(v)
                        } else if s@ == Tag::ConstPathRef.lit() {
                            valid_const_path_ref(v)
                        } else if s@ == Tag::Defined.lit() {
                            valid_defined(v)
                        } else if s@ == Tag::TopConstRef.lit() {
                            valid_top_const_ref(v)
                        } else if s@ == Tag::RescueMod.lit() {
                            valid_rescue_mod(v)
                        } else if s@ == Tag::MrhsAddStar.lit() {
                            valid_mrhs_add_star(v)
                        } else if s@ == Tag::Next.lit() {
                            valid_next(v)
                        } else if s@ == Tag::StringConcat.lit() {
                            valid_string_concat(v)
                        } else if s@ == Tag::Super.lit() {
                            valid_super_node(v)
                        } else if s@ == Tag::Kw.lit() {
                            valid_token(v, Tag::Kw)
                        } else if s@ == Tag::Undef.lit() {
                            valid_undef(v)
                        } else if s@ == Tag::Binary.lit() {
                            valid_binary(v)
                        } else if s@ == Tag::Float.lit() {
                            valid_token(v, Tag::Float)
                        } else {
                            false
                        }
                    },
                    _ => false,
                }
            }
        },
        _ => false,
    }
}

pub open spec fn decoded_expression(v: Value, e: Expression) -> bool
    decreases v, 3int,
{
    match v {
        Value::List(items) => {
            if items@.len() == 0 {
                false
            } else {
                match items@[0] {
                    Value::Text(s) => {
                        if s@ == Tag::Class.lit() {
                            e matches Expression::Class(y) && decoded_class(v, y)
                        } else if s@ == Tag::If.lit() {
                            e matches Expression::If(y) && decoded_if_node(v, y)
                        } else if s@ == Tag::IfMod.lit() {
                            e matches Expression::IfMod(y) && decoded_if_mod(v, y)
                        } else if s@ == Tag::Unary.lit() {
                            e matches Expression::Unary(y) && decoded_unary(v, y)
                        } else if s@ == Tag::VoidStmt.lit() {
                            e == Expression::VoidStmt(VoidStmt)
                        } else if s@ == Tag::Def.lit() {
                            e matches Expression::Def(y) && decoded_def_node(v, y)
                        } else if s@ == Tag::Defs.lit() {
                            e matches Expression::Defs(y) && decoded_defs(v, y)
                        } else if s@ == Tag::Vcall.lit() {
                            e matches Expression::VCall(y) && decoded_vcall(v, y)
                        } else if s@ == Tag::Ident.lit() {
                            e matches Expression::Ident(y) && y == Ident(token_text(v), token_pos(v))
                        } else if s@ == Tag::Params.lit() {
                            e matches Expression::Params(y) && decoded_params(v, y)
                        } else if s@ == Tag::MethodCall.lit() {
                            e matches Expression::MethodCall(y) && decoded_method_call(v, y)
                        } else if s@ == Tag::Call.lit() {
                            if items@.len() == 1 { e == Expression::DotCall(DotCall) } else { e matches Expression::Call(y) && decoded_call(v, y) }
                        } else if s@ == Tag::CommandCall.lit() {
                            e matches Expression::CommandCall(y) && decoded_command_call(v, y)
                        } else if s@ == Tag::MethodAddArg.lit() {
                            e matches Expression::MethodAddArg(y) && decoded_method_add_arg(v, y)
                        } else if s@ == Tag::Int.lit() {
                            e matches Expression::Int(y) && y == Int(token_text(v), token_pos(v))
                        } else if s@ == Tag::BareAssocHash.lit() {
                            e matches Expression::BareAssocHash(y) && decoded_bare_assoc_hash(v, y)
                        } else if s@ == Tag::Symbol.lit() {
                            e matches Expression::Symbol(y) && decoded_symbol(v, y)
                        } else if s@ == Tag::SymbolLiteral.lit() {
                            e matches Expression::SymbolLiteral(y) && decoded_symbol_literal(v, y)
                        } else if s@ == Tag::DynaSymbol.lit() {
                            e matches Expression::DynaSymbol(y) && decoded_dyna_symbol(v, y)
                        } else if s@ == Tag::Begin.lit() {
                            e matches Expression::Begin(y) && decoded_begin(v, y)
                        } else if s@ == Tag::Paren.lit() {
                            e matches Expression::Paren(y) && decoded_paren_expr(v, y)
                        } else if s@ == Tag::Dot2.lit() {
                            e matches Expression::Dot2(y) && decoded_dot2(v, y)
                        } else if s@ == Tag::Dot3.lit() {
                            e matches Expression::Dot3(y) && decoded_dot3(v, y)
                        } else if s@ == Tag::Alias.lit() {
                            e matches Expression::Alias(y) && decoded_alias(v, y)
                        } else if s@ == Tag::Array.lit() {
                            e matches Expression::Array(y) && decoded_array(v, y)
                        } else if s@ == Tag::StringLiteral.lit() {
                            e matches Expression::StringLiteral(y) && decoded_string_literal(v, y)
                        } else if s@ == Tag::XstringLiteral.lit() {
                            e matches Expression::XStringLiteral(y) && decoded_xstring_literal(v, y)
                        } else if s@ == Tag::VarRef.lit() {
                            e matches Expression::VarRef(y) && decoded_var_ref(v, y)
                        } else if s@ == Tag::Assign.lit() {
                            e matches Expression::Assign(y) && decoded_assign(v, y)
                        } else if s@ == Tag::Massign.lit() {
                            e matches Expression::MAssign(y) && decoded_massign(v, y)
                        } else if s@ == Tag::Const.lit() {
                            e matches Expression::Const(y) && y == Const(token_text(v), token_pos(v))
                        } else if s@ == Tag::Command.lit() {
                            e matches Expression::Command(y) && decoded_command(v, y)
                        } else if s@ == Tag::ConstPathRef.lit() {
                            e matches Expression::ConstPathRef(y) && decoded_const_path_ref(v, y)
                        } else if s@ == Tag::Defined.lit() {
                            e matches Expression::Defined(y) && decoded_defined(v, y)
                        } else if s@ == Tag::TopConstRef.lit() {
                            e matches Expression::TopConstRef(y) && decoded_top_const_ref(v, y)
                        } else if s@ == Tag::RescueMod.lit() {
                            e matches Expression::RescueMod(y) && decoded_rescue_mod(v, y)
                        } else if s@ == Tag::MrhsAddStar.lit() {
                            e matches Expression::MRHSAddStar(y) && decoded_mrhs_add_star(v, y)
                        } else if s@ == Tag::Next.lit() {
                            e matches Expression::Next(y) && decoded_next(v, y)
                        } else if s@ == Tag::StringConcat.lit() {
                            e matches Expression::StringConcat(y) && decoded_string_concat(v, y)
                        } else if s@ == Tag::Super.lit() {
                            e matches Expression::Super(y) && decoded_super_node(v, y)
                        } else if s@ == Tag::Kw.lit() {
                            e matches Expression::Kw(y) && y == Kw(token_text(v), token_pos(v))
                        } else if s@ == Tag::Undef.lit() {
                            e matches Expression::Undef(y) && decoded_undef(v, y)
                        } else if s@ == Tag::Binary.lit() {
                            e matches Expression::Binary(y) && decoded_binary(v, y)
                        } else if s@ == Tag::Float.lit() {
                            e matches Expression::Float(y) && y == Float(token_text(v), token_pos(v))
                        } else {
                            false
                        }
                    },
                    _ => false,
                }
            }
        },
        _ => false,
    }
}

#[verifier::rlimit(100)]
pub fn decode_expression(v: &Value) -> (r: Result<Expression, DecodeError>)
    ensures
        r is Ok <==> valid_expression(*v),
        r matches Ok(x) ==> decoded_expression(*v, x),
    decreases v, 3int,
{
    let items: &Vec<Value> = match v {
        Value::List(items) => items,
        _ => return Err(DecodeError::UnionExhausted),
    };
    if items.len() == 0 {
        return Err(DecodeError::UnionExhausted);
    }
    let s: &String = match &items[0] {
        Value::Text(s) => s,
        _ => return Err(DecodeError::UnionExhausted),
    };
    if *s == Tag::Class.literal() {
                            match decode_class(v) { Ok(x) => Ok(Expression::Class(x)), Err(e) => Err(e) }
                        } else if *s == Tag::If.literal() {
                            match decode_if_node(v) { Ok(x) => Ok(Expression::If(x)), Err(e) => Err(e) }
                        } else if *s == Tag::IfMod.literal() {
                            match decode_if_mod(v) { Ok(x) => Ok(Expression::IfMod(x)), Err(e) => Err(e) }
                        } else if *s == Tag::Unary.literal() {
                            match decode_unary(v) { Ok(x) => Ok(Expression::Unary(x)), Err(e) => Err(e) }
                        } else if *s == Tag::VoidStmt.literal() {
                            match decode_void_stmt(v) { Ok(_) => Ok(Expression::VoidStmt(VoidStmt)), Err(e) => Err(e) }
                        } else if *s == Tag::Def.literal() {
                            match decode_def_node(v) { Ok(x) => Ok(Expression::Def(x)), Err(e) => Err(e) }
                        } else if *s == Tag::Defs.literal() {
                            match decode_defs(v) { Ok(x) => Ok(Expression::Defs(x)), Err(e) => Err(e) }
                        } else if *s == Tag::Vcall.literal() {
                            match decode_vcall(v) { Ok(x) => Ok(Expression::VCall(x)), Err(e) => Err(e) }
                        } else if *s == Tag::Ident.literal() {
                            match decode_ident(v) { Ok(x) => Ok(Expression::Ident(x)), Err(e) => Err(e) }
                        } else if *s == Tag::Params.literal() {
                            match decode_params(v) { Ok(x) => Ok(Expression::Params(x)), Err(e) => Err(e) }
                        } else if *s == Tag::MethodCall.literal() {
                            match decode_method_call(v) { Ok(x) => Ok(Expression::MethodCall(x)), Err(e) => Err(e) }
                        } else if *s == Tag::Call.literal() {
                            if items.len() == 1 { Ok(Expression::DotCall(DotCall)) } else { match decode_call(v) { Ok(x) => Ok(Expression::Call(x)), Err(e) => Err(e) } }
                        } else if *s == Tag::CommandCall.literal() {
                            match decode_command_call(v) { Ok(x) => Ok(Expression::CommandCall(x)), Err(e) => Err(e) }
                        } else if *s == Tag::MethodAddArg.literal() {
                            match decode_method_add_arg(v) { Ok(x) => Ok(Expression::MethodAddArg(x)), Err(e) => Err(e) }
                        } else if *s == Tag::Int.literal() {
                            match decode_int(v) { Ok(x) => Ok(Expression::Int(x)), Err(e) => Err(e) }
                        } else if *s == Tag::BareAssocHash.literal() {
                            match decode_bare_assoc_hash(v) { Ok(x) => Ok(Expression::BareAssocHash(x)), Err(e) => Err(e) }
                        } else if *s == Tag::Symbol.literal() {
                            match decode_symbol(v) { Ok(x) => Ok(Expression::Symbol(x)), Err(e) => Err(e) }
                        } else if *s == Tag::SymbolLiteral.literal() {
                            match decode_symbol_literal(v) { Ok(x) => Ok(Expression::SymbolLiteral(x)), Err(e) => Err(e) }
                        } else if *s == Tag::DynaSymbol.literal() {
                            match decode_dyna_symbol(v) { Ok(x) => Ok(Expression::DynaSymbol(x)), Err(e) => Err(e) }
                        } else if *s == Tag::Begin.literal() {
                            match decode_begin(v) { Ok(x) => Ok(Expression::Begin(x)), Err(e) => Err(e) }
                        } else if *s == Tag::Paren.literal() {
                            match decode_paren_expr(v) { Ok(x) => Ok(Expression::Paren(x)), Err(e) => Err(e) }
                        } else if *s == Tag::Dot2.literal() {
                            match decode_dot2(v) { Ok(x) => Ok(Expression::Dot2(x)), Err(e) => Err(e) }
                        } else if *s == Tag::Dot3.literal() {
                            match decode_dot3(v) { Ok(x) => Ok(Expression::Dot3(x)), Err(e) => Err(e) }
                        } else if *s == Tag::Alias.literal() {
                            match decode_alias(v) { Ok(x) => Ok(Expression::Alias(x)), Err(e) => Err(e) }
                        } else if *s == Tag::Array.literal() {
                            match decode_array(v) { Ok(x) => Ok(Expression::Array(x)), Err(e) => Err(e) }
                        } else if *s == Tag::StringLiteral.literal() {
                            match decode_string_literal(v) { Ok(x) => Ok(Expression::StringLiteral(x)), Err(e) => Err(e) }
                        } else if *s == Tag::XstringLiteral.literal() {
                            match decode_xstring_literal(v) { Ok(x) => Ok(Expression::XStringLiteral(x)), Err(e) => Err(e) }
                        } else if *s == Tag::VarRef.literal() {
                            match decode_var_ref(v) { Ok(x) => Ok(Expression::VarRef(x)), Err(e) => Err(e) }
                        } else if *s == Tag::Assign.literal() {
                            match decode_assign(v) { Ok(x) => Ok(Expression::Assign(x)), Err(e) => Err(e) }
                        } else if *s == Tag::Massign.literal() {
                            match decode_massign(v) { Ok(x) => Ok(Expression::MAssign(x)), Err(e) => Err(e) }
                        } else if *s == Tag::Const.literal() {
                            match decode_const(v) { Ok(x) => Ok(Expression::Const(x)), Err(e) => Err(e) }
                        } else if *s == Tag::Command.literal() {
                            match decode_command(v) { Ok(x) => Ok(Expression::Command(x)), Err(e) => Err(e) }
                        } else if *s == Tag::ConstPathRef.literal() {
                            match decode_const_path_ref(v) { Ok(x) => Ok(Expression::ConstPathRef(x)), Err(e) => Err(e) }
                        } else if *s == Tag::Defined.literal() {
                            match decode_defined(v) { Ok(x) => Ok(Expression::Defined(x)), Err(e) => Err(e) }
                        } else if *s == Tag::TopConstRef.literal() {
                            match decode_top_const_ref(v) { Ok(x) => Ok(Expression::TopConstRef(x)), Err(e) => Err(e) }
                        } else if *s == Tag::RescueMod.literal() {
                            match decode_rescue_mod(v) { Ok(x) => Ok(Expression::RescueMod(x)), Err(e) => Err(e) }
                        } else if *s == Tag::MrhsAddStar.literal() {
                            match decode_mrhs_add_star(v) { Ok(x) => Ok(Expression::MRHSAddStar(x)), Err(e) => Err(e) }
                        } else if *s == Tag::Next.literal() {
                            match decode_next(v) { Ok(x) => Ok(Expression::Next(x)), Err(e) => Err(e) }
                        } else if *s == Tag::StringConcat.literal() {
                            match decode_string_concat(v) { Ok(x) => Ok(Expression::StringConcat(x)), Err(e) => Err(e) }
                        } else if *s == Tag::Super.literal() {
                            match decode_super_node(v) { Ok(x) => Ok(Expression::Super(x)), Err(e) => Err(e) }
                        } else if *s == Tag::Kw.literal() {
                            match decode_kw(v) { Ok(x) => Ok(Expression::Kw(x)), Err(e) => Err(e) }
                        } else if *s == Tag::Undef.literal() {
                            match decode_undef(v) { Ok(x) => Ok(Expression::Undef(x)), Err(e) => Err(e) }
                        } else if *s == Tag::Binary.literal() {
                            match decode_binary(v) { Ok(x) => Ok(Expression::Binary(x)), Err(e) => Err(e) }
                        } else if *s == Tag::Float.literal() {
                            match decode_float(v) { Ok(x) => Ok(Expression::Float(x)), Err(e) => Err(e) }
                        } else {
                            Err(DecodeError::UnionExhausted)
                        }
}


// ------------------------------------------------------------------
// Laws
// ------------------------------------------------------------------

/// True when `v` is a sequence whose first element is the string `t.lit()`.
pub open spec fn tagged_with(v: Value, t: Tag) -> bool {
    match v {
        Value::List(items) => items@.len() > 0 && (items@[0] matches Value::Text(s)
            && s@ == t.lit()),
        _ => false,
    }
}

/// Law: checking a node kind's tag succeeds exactly when the value is a
/// sequence led by the expected literal; any other input yields the
/// tag-mismatch error naming the expected kind, carrying the leading
/// string when one was found.
pub proof fn lemma_tag_fidelity(v: Value, t: Tag)
    ensures
        spec_check_tag(v, t) is Ok <==> tagged_with(v, t),
        has_tag(v, t) == tagged_with(v, t),
        spec_check_tag(v, t) matches Err(e) ==> (e matches DecodeError::TagMismatch {
            expected,
            actual,
        } && expected == t),
        match v {
            Value::List(items) => items@.len() > 0 ==> match items@[0] {
                Value::Text(s) => s@ != t.lit() ==> spec_check_tag(v, t) == Err::<(),
                    DecodeError,
                >(DecodeError::TagMismatch { expected: t, actual: Some(s) }),
                _ => true,
            },
            _ => true,
        },
{
}

/// Law: heredoc metadata is always paired with content.  A string-literal
/// node carrying heredoc metadata with nothing after it has no decoding,
/// and its decoder rejects it as malformed; when content follows, the
/// decoded node keeps the delimiter pair unchanged beside that content.
pub proof fn lemma_heredoc_pairing(v: Value, x: StringLiteral)
    requires
        has_tag(v, Tag::StringLiteral),
        v->List_0@.len() >= 2,
        valid_heredoc(v->List_0@[1]),
    ensures
        v->List_0@.len() == 2 ==> !valid_string_literal(v),
        decoded_string_literal(v, x) ==> (x.0 matches Some(h)
            && h == HeredocStringLiteral(heredoc_pair(v->List_0@[1]))),
{
}

/// Law: an input structurally valid under two or more alternatives of an
/// ordered union decodes as the first-listed alternative.  A full dotted
/// call node is valid both as the `Call` alternative and as the later
/// plain-expression alternative of the callable-position union; the
/// `Call` alternative wins.
pub proof fn lemma_union_priority(v: Value, x: CallExpr)
    requires
        valid_call(v),
        decoded_call_expr(v, x),
    ensures
        valid_expression(v),
        x is Call,
{
    reveal_strlit("class");
    reveal_strlit("if");
    reveal_strlit("if_mod");
    reveal_strlit("unary");
    reveal_strlit("void_stmt");
    reveal_strlit("def");
    reveal_strlit("defs");
    reveal_strlit("vcall");
    reveal_strlit("@ident");
    reveal_strlit("params");
    reveal_strlit("method_call");
    reveal_strlit("call");
    reveal_strlit("fcall");
    assert(!valid_fcall(v));
    assert(has_tag(v, Tag::Call));
    assert(v->List_0@.len() == 4);
    let hs = v->List_0@[0]->Text_0;
    assert(hs@ == Tag::Call.lit());
    assert(hs@ != Tag::Class.lit());
    assert(hs@ != Tag::If.lit());
    assert(hs@ != Tag::IfMod.lit());
    assert(hs@ != Tag::Unary.lit());
    assert(hs@ != Tag::VoidStmt.lit());
    assert(hs@ != Tag::Def.lit());
    assert(hs@[0] == 'c' && Tag::Defs.lit()[0] == 'd');
    assert(hs@ != Tag::Defs.lit());
    assert(hs@ != Tag::Vcall.lit());
    assert(hs@ != Tag::Ident.lit());
    assert(hs@ != Tag::Params.lit());
    assert(hs@ != Tag::MethodCall.lit());
}

} // verus!
