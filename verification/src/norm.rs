//! Call normalization: the single transform that maps every call-shaped
//! node onto the canonical `MethodCall`.
//!
//! Chain flattening walks a nested receiver chain and lists its receivers
//! outer-to-inner, each paired with the separator that follows it; argument
//! normalization funnels every argument encoding into the canonical flat or
//! split list.  Both build new nodes and leave their input shapes behind.

use vstd::prelude::*;
use vstd::pervasive::unreached;
use crate::ast::ArgNode;
use crate::ast::ArgParen;
use crate::ast::ArgsAddBlock;
use crate::ast::ArgsAddBlockOrExpressionList;
use crate::ast::ArgsAddStarOrExpressionList;
use crate::ast::Call;
use crate::ast::CallChainElement;
use crate::ast::CallExpr;
use crate::ast::Command;
use crate::ast::CommandCall;
use crate::ast::DotTypeOrOp;
use crate::ast::Expression;
use crate::ast::Ident;
use crate::ast::LineCol;
use crate::ast::MaybeBlock;
use crate::ast::MethodAddArg;
use crate::ast::MethodCall;
use crate::ast::Super;

verus! {

// ------------------------------------------------------------------
// Chain flattening
// ------------------------------------------------------------------

/// What flattening a dotted call yields: the chain of receivers, each
/// followed by its separator, and the final message expression.
pub open spec fn spec_normalize_call(c: Call) -> (Seq<CallChainElement>, Expression)
    decreases c,
{
    let rec = spec_flatten_receiver(*c.0);
    (
        rec.0.push(CallChainElement::Expression(Box::new(rec.1))).push(
            CallChainElement::Dot(c.1),
        ),
        *c.2,
    )
}

/// Flattens a receiver expression: a nested dotted call opens up into its
/// own chain and method; anything else is a chain of its own only.
pub open spec fn spec_flatten_receiver(e: Expression) -> (Seq<CallChainElement>, Expression)
    decreases e,
{
    match e {
        Expression::Call(c) => spec_normalize_call(c),
        _ => (Seq::<CallChainElement>::empty(), e),
    }
}

/// What normalizing the callable position of a call node yields.
pub open spec fn spec_normalize_inner_call(call_expr: CallExpr) -> (
    Seq<CallChainElement>,
    Expression,
)
    decreases call_expr,
{
    match call_expr {
        CallExpr::FCall(f) => (Seq::<CallChainElement>::empty(), Expression::Ident(f.0)),
        CallExpr::Call(c) => spec_normalize_call(c),
        CallExpr::Expression(e) => spec_flatten_receiver(*e),
    }
}

fn normalize_call_rec(c: Call) -> (r: (Vec<CallChainElement>, Box<Expression>))
    ensures
        r.0@ == spec_normalize_call(c).0,
        *r.1 == spec_normalize_call(c).1,
    decreases c,
{
    let Call(receiver, dot, message) = c;
    let (mut chain, method) = match *receiver {
        Expression::Call(inner) => normalize_call_rec(inner),
        other => (Vec::<CallChainElement>::new(), Box::new(other)),
    };
    chain.push(CallChainElement::Expression(method));
    chain.push(CallChainElement::Dot(dot));
    (chain, message)
}

/// Flattens the callable position of a call node into its chain and its
/// method expression.
pub fn normalize_inner_call(call_expr: CallExpr) -> (r: (Vec<CallChainElement>, Box<Expression>))
    ensures
        r.0@ == spec_normalize_inner_call(call_expr).0,
        *r.1 == spec_normalize_inner_call(call_expr).1,
{
    match call_expr {
        CallExpr::FCall(f) => (Vec::<CallChainElement>::new(), Box::new(Expression::Ident(f.0))),
        CallExpr::Call(c) => normalize_call_rec(c),
        CallExpr::Expression(e) => match *e {
            Expression::Call(c) => normalize_call_rec(c),
            other => (Vec::<CallChainElement>::new(), Box::new(other)),
        },
    }
}

// ------------------------------------------------------------------
// Argument normalization
// ------------------------------------------------------------------

/// Relates an arguments-with-block encoding to its canonical list: an
/// absent block marker is dropped, a to-proc conversion replaces the list
/// with that single expression.
pub open spec fn args_add_block_normalized(
    aab: ArgsAddBlock,
    r: ArgsAddStarOrExpressionList,
) -> bool {
    match aab.1 {
        MaybeBlock::NoBlock(_) => r == aab.0,
        MaybeBlock::ToProcExpr(e) => r matches ArgsAddStarOrExpressionList::ExpressionList(el)
            && el@ == seq![*e],
    }
}

/// Relates a parenthesized argument encoding to its canonical list: an
/// explicitly empty call yields the empty flat list, anything else
/// normalizes as its inner encoding does.
pub open spec fn arg_paren_normalized(ap: ArgParen, r: ArgsAddStarOrExpressionList) -> bool
    decreases ap,
{
    match *ap.0 {
        ArgNode::Null(_) => r matches ArgsAddStarOrExpressionList::ExpressionList(el)
            && el@ == Seq::<Expression>::empty(),
        inner => args_normalized(inner, r),
    }
}

/// Relates an argument encoding to its canonical list.  A bare expression
/// list and a star-argument encoding already are canonical; a lone constant
/// or identifier becomes a one-element flat list.  The null encoding has no
/// canonical form: normalization is never defined on it.
pub open spec fn args_normalized(arg_node: ArgNode, r: ArgsAddStarOrExpressionList) -> bool
    decreases arg_node,
{
    match arg_node {
        ArgNode::ArgParen(ap) => arg_paren_normalized(ap, r),
        ArgNode::ArgsAddBlock(aab) => args_add_block_normalized(aab, r),
        ArgNode::Exprs(exprs) => r == ArgsAddStarOrExpressionList::ExpressionList(exprs),
        ArgNode::Const(c) => r matches ArgsAddStarOrExpressionList::ExpressionList(el)
            && el@ == seq![Expression::Const(c)],
        ArgNode::Ident(i) => r matches ArgsAddStarOrExpressionList::ExpressionList(el)
            && el@ == seq![Expression::Ident(i)],
        ArgNode::Null(_) => false,
    }
}

/// Unwraps a parenthesized argument encoding to its canonical list.
pub fn normalize_arg_paren(ap: ArgParen) -> (r: ArgsAddStarOrExpressionList)
    ensures arg_paren_normalized(ap, r),
    decreases ap,
{
    match *ap.0 {
        ArgNode::Null(_) => ArgsAddStarOrExpressionList::ExpressionList(Vec::<Expression>::new()),
        ae => normalize_args(ae),
    }
}

/// Drops an absent block marker, or keeps a trailing to-proc conversion as
/// the single argument.
pub fn normalize_args_add_block(aab: ArgsAddBlock) -> (r: ArgsAddStarOrExpressionList)
    ensures args_add_block_normalized(aab, r),
{
    let ArgsAddBlock(args, block) = aab;
    match block {
        MaybeBlock::NoBlock(_) => args,
        MaybeBlock::ToProcExpr(e) => {
            let el = vec![*e];
            proof {
                assert(el@ =~= seq![*aab.1->ToProcExpr_0]);
            }
            ArgsAddStarOrExpressionList::ExpressionList(el)
        },
    }
}

/// Maps any defined argument encoding to its canonical list.
pub fn normalize_args(arg_node: ArgNode) -> (r: ArgsAddStarOrExpressionList)
    requires !(arg_node matches ArgNode::Null(_)),
    ensures args_normalized(arg_node, r),
    decreases arg_node,
{
    match arg_node {
        ArgNode::ArgParen(ap) => normalize_arg_paren(ap),
        ArgNode::ArgsAddBlock(aab) => normalize_args_add_block(aab),
        ArgNode::Exprs(exprs) => ArgsAddStarOrExpressionList::ExpressionList(exprs),
        ArgNode::Const(c) => {
            let el = vec![Expression::Const(c)];
            proof {
                assert(el@ =~= seq![Expression::Const(arg_node->Const_0)]);
            }
            ArgsAddStarOrExpressionList::ExpressionList(el)
        },
        ArgNode::Ident(i) => {
            let el = vec![Expression::Ident(i)];
            proof {
                assert(el@ =~= seq![Expression::Ident(arg_node->Ident_0)]);
            }
            ArgsAddStarOrExpressionList::ExpressionList(el)
        },
        ArgNode::Null(_) => unreached(),
    }
}

// ------------------------------------------------------------------
// The five call shapes
// ------------------------------------------------------------------

impl MethodCall {
    pub fn new(
        chain: Vec<CallChainElement>,
        method: Box<Expression>,
        use_parens: bool,
        args: ArgsAddStarOrExpressionList,
    ) -> (r: Self)
        ensures r == MethodCall(chain, method, use_parens, args),
    {
        MethodCall(chain, method, use_parens, args)
    }
}

/// Lifts the command argument alternatives into the uniform argument node.
pub open spec fn arg_node_of_list(a: ArgsAddBlockOrExpressionList) -> ArgNode {
    match a {
        ArgsAddBlockOrExpressionList::ArgsAddBlock(n) => ArgNode::ArgsAddBlock(n),
        ArgsAddBlockOrExpressionList::ExpressionList(es) => ArgNode::Exprs(es),
    }
}

impl Command {
    /// A receiver-less command call: empty chain, no parentheses, its
    /// arguments normalized through the uniform argument path.
    pub fn to_method_call(self) -> (r: MethodCall)
        ensures
            r.0@ == Seq::<CallChainElement>::empty(),
            *r.1 == Expression::Ident(self.0),
            r.2 == false,
            args_normalized(arg_node_of_list(self.1), r.3),
    {
        let Command(name, args) = self;
        let arg_node = match args {
            ArgsAddBlockOrExpressionList::ArgsAddBlock(n) => ArgNode::ArgsAddBlock(n),
            ArgsAddBlockOrExpressionList::ExpressionList(es) => ArgNode::Exprs(es),
        };
        MethodCall::new(
            Vec::<CallChainElement>::new(),
            Box::new(Expression::Ident(name)),
            false,
            normalize_args(arg_node),
        )
    }
}

impl CommandCall {
    /// A command call on an explicit receiver: a one-link chain of that
    /// receiver and its separator, no parentheses.
    pub fn to_method_call(self) -> (r: MethodCall)
        requires !(self.3 matches ArgNode::Null(_)),
        ensures
            r.0@ == seq![
                CallChainElement::Expression(self.0),
                CallChainElement::Dot(self.1),
            ],
            *r.1 == Expression::Ident(self.2),
            r.2 == false,
            args_normalized(self.3, r.3),
    {
        let CommandCall(receiver, dot, name, args) = self;
        MethodCall::new(
            vec![CallChainElement::Expression(receiver), CallChainElement::Dot(dot)],
            Box::new(Expression::Ident(name)),
            false,
            normalize_args(args),
        )
    }
}

impl MethodAddArg {
    /// A call with an argument encoding: the callable position flattens
    /// into chain and method, the arguments normalize, and parentheses are
    /// recorded as used.
    pub fn to_method_call(self) -> (r: MethodCall)
        requires !(self.1 matches ArgNode::Null(_)),
        ensures
            r.0@ == spec_normalize_inner_call(self.0).0,
            *r.1 == spec_normalize_inner_call(self.0).1,
            r.2 == true,
            args_normalized(self.1, r.3),
    {
        let MethodAddArg(call_expr, arg_node) = self;
        let (chain, name) = normalize_inner_call(call_expr);
        let args = normalize_args(arg_node);
        MethodCall::new(chain, name, true, args)
    }
}

impl Call {
    /// A bare dotted chain with no arguments: the chain flattens and the
    /// argument list is the canonical empty flat list.
    pub fn to_method_call(self) -> (r: MethodCall)
        ensures
            r.0@ == spec_normalize_call(self).0,
            *r.1 == spec_normalize_call(self).1,
            r.2 == false,
            r.3 matches ArgsAddStarOrExpressionList::ExpressionList(el)
                && el@ == Seq::<Expression>::empty(),
    {
        let (chain, method) = normalize_call_rec(self);
        MethodCall::new(
            chain,
            method,
            false,
            ArgsAddStarOrExpressionList::ExpressionList(Vec::<Expression>::new()),
        )
    }
}

impl Super {
    /// A `super` invocation: empty chain, a synthetic `super` identifier as
    /// the method, parentheses recorded as used.
    pub fn to_method_call(self) -> (r: MethodCall)
        requires !(self.0 matches ArgNode::Null(_)),
        ensures
            r.0@ == Seq::<CallChainElement>::empty(),
            *r.1 matches Expression::Ident(i) && i.0@ == "super"@ && i.1 == LineCol(0, 0),
            r.2 == true,
            args_normalized(self.0, r.3),
    {
        let Super(args) = self;
        MethodCall::new(
            Vec::<CallChainElement>::new(),
            Box::new(Expression::Ident(Ident::new(String::from_str("super")))),
            true,
            normalize_args(args),
        )
    }
}

// ------------------------------------------------------------------
// Laws
// ------------------------------------------------------------------

/// The receivers of a dotted call in left-to-right source order, each
/// paired with the separator that follows it.
pub open spec fn chain_pairs(c: Call) -> Seq<(Expression, DotTypeOrOp)>
    decreases c,
{
    match *c.0 {
        Expression::Call(c2) => chain_pairs(c2).push((spec_normalize_call(c2).1, c.1)),
        _ => seq![(*c.0, c.1)],
    }
}

/// Lays receiver/separator pairs out as the alternating chain.
pub open spec fn interleaved(ps: Seq<(Expression, DotTypeOrOp)>) -> Seq<CallChainElement>
    decreases ps.len(),
{
    if ps.len() == 0 {
        Seq::<CallChainElement>::empty()
    } else {
        interleaved(ps.drop_last()).push(
            CallChainElement::Expression(Box::new(ps.last().0)),
        ).push(CallChainElement::Dot(ps.last().1))
    }
}

/// Law: flattening a dotted call lists its receivers in left-to-right
/// source order, each immediately followed by its own separator; the method
/// is the final message, and the chain is exactly twice as long as the
/// number of links.
pub proof fn lemma_chain_flattening(c: Call)
    ensures
        spec_normalize_call(c).0 == interleaved(chain_pairs(c)),
        spec_normalize_call(c).0.len() == 2 * chain_pairs(c).len(),
        spec_normalize_call(c).1 == *c.2,
    decreases c,
{
    match *c.0 {
        Expression::Call(c2) => {
            lemma_chain_flattening(c2);
            assert(chain_pairs(c).drop_last() =~= chain_pairs(c2));
            assert(interleaved(chain_pairs(c)) == interleaved(chain_pairs(c2)).push(
                CallChainElement::Expression(Box::new(spec_normalize_call(c2).1)),
            ).push(CallChainElement::Dot(c.1)));
            assert(spec_normalize_call(c).0 =~= interleaved(chain_pairs(c)));
        },
        _ => {
            let ps = chain_pairs(c);
            assert(ps.last() == (*c.0, c.1));
            assert(ps.drop_last() =~= Seq::<(Expression, DotTypeOrOp)>::empty());
            assert(interleaved(ps.drop_last()) == Seq::<CallChainElement>::empty());
            assert(interleaved(ps) == Seq::<CallChainElement>::empty().push(
                CallChainElement::Expression(Box::new(*c.0)),
            ).push(CallChainElement::Dot(c.1)));
            assert(spec_normalize_call(c).0 =~= interleaved(chain_pairs(c)));
        },
    }
}

/// Law: normalizing an argument encoding that is already a bare expression
/// list yields the flat canonical form holding the same expressions in the
/// same order.
pub proof fn lemma_flat_list_round_trip(exprs: Vec<Expression>, r: ArgsAddStarOrExpressionList)
    requires args_normalized(ArgNode::Exprs(exprs), r),
    ensures r matches ArgsAddStarOrExpressionList::ExpressionList(el) && el@ == exprs@,
{
}

/// Law: a splat between two expression groups survives normalization
/// unchanged: the canonical result is the very split form that was given,
/// pre-splat group, splat expression and post-splat group in order.
pub proof fn lemma_splat_preserved(aab: ArgsAddBlock, r: ArgsAddStarOrExpressionList)
    requires
        aab.1 matches MaybeBlock::NoBlock(_),
        aab.0 matches ArgsAddStarOrExpressionList::ArgsAddStar(_),
        args_normalized(ArgNode::ArgsAddBlock(aab), r),
    ensures
        r == aab.0,
        r matches ArgsAddStarOrExpressionList::ArgsAddStar(s) && s == aab.0->ArgsAddStar_0,
{
}

} // verus!
