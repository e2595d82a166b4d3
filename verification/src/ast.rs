//! The typed node catalog of the source grammar.
//!
//! Each type mirrors one tagged node kind of the input format, minus the tag
//! itself: the tag is verified at decode time and discarded, so a node's
//! runtime type is the only — and always correct — record of its kind.
//! Positions within a tuple struct follow the field order of the encoded
//! sequence after the tag.

use vstd::prelude::*;

verus! {

/// A one-based source line number.
pub type LineNumber = u64;

/// A source position: line, then column.
#[derive(Debug, PartialEq)]
pub struct LineCol(pub LineNumber, pub u64);

/// The decoded top-level node: a sequence of statements.
#[derive(Debug, PartialEq)]
pub struct Program(pub Vec<Expression>);

/// The universal sum over every statement- and expression-level node kind.
#[derive(Debug, PartialEq)]
pub enum Expression {
    Class(Class),
    If(If),
    IfMod(IfMod),
    Unary(Unary),
    VoidStmt(VoidStmt),
    Def(Def),
    Defs(Defs),
    VCall(VCall),
    Ident(Ident),
    Params(Params),
    MethodCall(MethodCall),
    DotCall(DotCall),
    Call(Call),
    CommandCall(CommandCall),
    MethodAddArg(MethodAddArg),
    Int(Int),
    BareAssocHash(BareAssocHash),
    Symbol(Symbol),
    SymbolLiteral(SymbolLiteral),
    DynaSymbol(DynaSymbol),
    Begin(Begin),
    Paren(ParenExpr),
    Dot2(Dot2),
    Dot3(Dot3),
    Alias(Alias),
    Array(Array),
    StringLiteral(StringLiteral),
    XStringLiteral(XStringLiteral),
    VarRef(VarRef),
    Assign(Assign),
    MAssign(MAssign),
    Const(Const),
    Command(Command),
    ConstPathRef(ConstPathRef),
    Defined(Defined),
    TopConstRef(TopConstRef),
    RescueMod(RescueMod),
    MRHSAddStar(MRHSAddStar),
    Next(Next),
    StringConcat(StringConcat),
    Super(Super),
    Kw(Kw),
    Undef(Undef),
    Binary(Binary),
    Float(Float),
}

#[derive(Debug, PartialEq)]
pub struct If(pub Box<Expression>, pub Vec<Expression>, pub Option<ElsifOrElse>);

#[derive(Debug, PartialEq)]
pub enum ElsifOrElse {
    Elsif(Elsif),
    Else(Else),
}

#[derive(Debug, PartialEq)]
pub struct Elsif(
    pub Box<Expression>,
    pub Vec<Expression>,
    pub Option<Box<ElsifOrElse>>,
);

#[derive(Debug, PartialEq)]
pub struct Else(pub Vec<Expression>);

#[derive(Debug, PartialEq)]
pub struct Undef(pub Vec<SymbolLiteral>);

#[derive(Debug, PartialEq)]
pub struct StringConcat(pub StringConcatOrStringLiteral, pub StringLiteral);

#[derive(Debug, PartialEq)]
pub enum StringConcatOrStringLiteral {
    StringConcat(Box<StringConcat>),
    StringLiteral(StringLiteral),
}

#[derive(Debug, PartialEq)]
pub struct MRHSAddStar(pub MRHSNewFromArgsOrEmpty, pub Box<Expression>);

#[derive(Debug, PartialEq)]
pub enum MRHSNewFromArgsOrEmpty {
    MRHSNewFromArgs(MRHSNewFromArgs),
    Empty(Vec<Expression>),
}

#[derive(Debug, PartialEq)]
pub struct MRHSNewFromArgs(pub ArgsAddStarOrExpressionList);

#[derive(Debug, PartialEq)]
pub struct RescueMod(pub Box<Expression>, pub Box<Expression>);

#[derive(Debug, PartialEq)]
pub struct Defined(pub Box<Expression>);

#[derive(Debug, PartialEq)]
pub struct TopConstRef(pub Const);

#[derive(Debug, PartialEq)]
pub struct TopConstField(pub Const);

#[derive(Debug, PartialEq)]
pub struct ConstPathRef(pub Box<Expression>, pub Const);

#[derive(Debug, PartialEq)]
pub struct ConstRef(pub Const);

#[derive(Debug, PartialEq)]
pub struct Command(pub Ident, pub ArgsAddBlockOrExpressionList);

#[derive(Debug, PartialEq)]
pub enum ArgsAddBlockOrExpressionList {
    ArgsAddBlock(ArgsAddBlock),
    ExpressionList(Vec<Expression>),
}

#[derive(Debug, PartialEq)]
pub struct Assign(pub Assignable, pub Box<Expression>);

#[derive(Debug, PartialEq)]
pub struct MAssign(pub Vec<Assignable>, pub Box<Expression>);

#[derive(Debug, PartialEq)]
pub enum IdentOrVarField {
    Ident(Ident),
    VarField(VarField),
}

#[derive(Debug, PartialEq)]
pub enum Assignable {
    VarField(VarField),
    ConstPathField(ConstPathField),
    RestParam(RestParam),
    TopConstField(TopConstField),
}

#[derive(Debug, PartialEq)]
pub struct ConstPathField(pub Box<Expression>, pub Const);

#[derive(Debug, PartialEq)]
pub struct VarField(pub VarRefType);

#[derive(Debug, PartialEq)]
pub struct VarRef(pub VarRefType);

#[derive(Debug, PartialEq)]
pub enum VarRefType {
    GVar(GVar),
    IVar(IVar),
    CVar(CVar),
    Ident(Ident),
    Const(Const),
    Kw(Kw),
}

#[derive(Debug, PartialEq)]
pub struct GVar(pub String, pub LineCol);

#[derive(Debug, PartialEq)]
pub struct IVar(pub String, pub LineCol);

#[derive(Debug, PartialEq)]
pub struct CVar(pub String, pub LineCol);

/// A heredoc's start and end delimiter pair.
#[derive(Debug, PartialEq)]
pub struct HeredocStringLiteral(pub (String, String));

/// A string literal: optional heredoc metadata, then its content.  Heredoc
/// metadata never stands without content; the decoder rejects such input.
#[derive(Debug, PartialEq)]
pub struct StringLiteral(pub Option<HeredocStringLiteral>, pub StringContent);

#[derive(Debug, PartialEq)]
pub struct XStringLiteral(pub Vec<StringContentPart>);

#[derive(Debug, PartialEq)]
pub struct DynaSymbol(pub StringContentOrStringContentParts);

#[derive(Debug, PartialEq)]
pub enum StringContentOrStringContentParts {
    StringContent(StringContent),
    StringContentParts(Vec<StringContentPart>),
}

#[derive(Debug, PartialEq)]
pub struct TStringContent(pub String, pub LineCol);

#[derive(Debug, PartialEq)]
pub struct StringEmbexpr(pub Vec<Expression>);

#[derive(Debug, PartialEq)]
pub struct StringDVar(pub Box<Expression>);

/// One piece of string content: literal text, an embedded expression, or a
/// dynamic-variable interpolation.
#[derive(Debug, PartialEq)]
pub enum StringContentPart {
    TStringContent(TStringContent),
    StringEmbexpr(StringEmbexpr),
    StringDVar(StringDVar),
}

#[derive(Debug, PartialEq)]
pub struct StringContent(pub Vec<StringContentPart>);

#[derive(Debug, PartialEq)]
pub struct Array(pub SimpleArrayOrPercentArray);

#[derive(Debug, PartialEq)]
pub enum SimpleArrayOrPercentArray {
    SimpleArray(Option<ArgsAddStarOrExpressionList>),
    PercentArray((String, Vec<StringContentPart>, LineCol)),
}

/// The canonical argument list: a flat expression sequence, or the split
/// form around a single explicit splat.
#[derive(Debug, PartialEq)]
pub enum ArgsAddStarOrExpressionList {
    ExpressionList(Vec<Expression>),
    ArgsAddStar(ArgsAddStar),
}

/// The split argument form: expressions before the splat, the splat
/// expression, expressions after it.
#[derive(Debug, PartialEq)]
pub struct ArgsAddStar(
    pub Box<ArgsAddStarOrExpressionList>,
    pub Box<Expression>,
    pub Vec<Expression>,
);

#[derive(Debug, PartialEq)]
pub struct Alias(pub SymbolLiteral, pub SymbolLiteral);

#[derive(Debug, PartialEq)]
pub struct ParenExpr(pub Vec<Expression>);

#[derive(Debug, PartialEq)]
pub struct Dot2(pub Option<Box<Expression>>, pub Option<Box<Expression>>);

#[derive(Debug, PartialEq)]
pub struct Dot3(pub Option<Box<Expression>>, pub Option<Box<Expression>>);

#[derive(Debug, PartialEq)]
pub struct VoidStmt;

/// The canonical method call every call-shaped node normalizes into.
#[derive(Debug, PartialEq)]
pub struct MethodCall(
    pub Vec<CallChainElement>,
    pub Box<Expression>,
    pub bool,
    pub ArgsAddStarOrExpressionList,
);

#[derive(Debug, PartialEq)]
pub struct Def(pub Ident, pub ParenOrParams, pub BodyStmt);

#[derive(Debug, PartialEq)]
pub struct Begin(pub BodyStmt);

#[derive(Debug, PartialEq)]
pub struct BodyStmt(
    pub Vec<Expression>,
    pub Option<Rescue>,
    pub Option<RescueElse>,
    pub Option<Ensure>,
);

#[derive(Debug, PartialEq)]
pub struct Rescue(
    pub Option<SingleOrMRHSNewFromArgsOrMRHSAddStar>,
    pub Option<Assignable>,
    pub Option<Vec<Expression>>,
    pub Option<Box<Rescue>>,
);

#[derive(Debug, PartialEq)]
pub enum SingleOrMRHSNewFromArgsOrMRHSAddStar {
    Single(Vec<Expression>),
    MRHSNewFromArgs(MRHSNewFromArgs),
    MRHSAddStar(MRHSAddStar),
}

#[derive(Debug, PartialEq)]
pub struct RescueElse(pub Option<Vec<Expression>>);

#[derive(Debug, PartialEq)]
pub struct Ensure(pub Option<Vec<Expression>>);

#[derive(Debug, PartialEq)]
pub struct VCall(pub Box<Expression>);

#[derive(Debug, PartialEq)]
pub struct CommandCall(
    pub Box<Expression>,
    pub DotTypeOrOp,
    pub Ident,
    pub ArgNode,
);

#[derive(Debug, PartialEq)]
pub struct Const(pub String, pub LineCol);

impl Const {
    pub fn line_number(&self) -> (r: LineNumber)
        ensures r == self.1.0,
    {
        self.1.0
    }
}

#[derive(Debug, PartialEq)]
pub struct Ident(pub String, pub LineCol);

impl Ident {
    /// A synthetic identifier, placed at the zero position.
    pub fn new(s: String) -> (r: Self)
        ensures r == Ident(s, LineCol(0, 0)),
    {
        Ident(s, LineCol(0, 0))
    }

    pub fn line_number(&self) -> (r: LineNumber)
        ensures r == self.1.0,
    {
        self.1.0
    }
}

#[derive(Debug, PartialEq)]
pub enum ParenOrParams {
    Paren(Paren),
    Params(Params),
}

#[derive(Debug, PartialEq)]
pub struct Paren(pub Params);

#[derive(Debug, PartialEq)]
pub struct Params(
    pub Option<Vec<Ident>>,
    pub Option<Vec<(Ident, Expression)>>,
    pub Option<RestParam>,
    pub Option<Vec<Ident>>,
    pub Option<Vec<(Label, ExpressionOrFalse)>>,
    pub Option<KwRestParam>,
    pub Option<BlockArg>,
);

#[derive(Debug, PartialEq)]
pub enum ExpressionOrFalse {
    Expression(Expression),
    False(bool),
}

#[derive(Debug, PartialEq)]
pub struct RestParam(pub Option<IdentOrVarField>);

#[derive(Debug, PartialEq)]
pub struct KwRestParam(pub Option<Ident>);

#[derive(Debug, PartialEq)]
pub struct BlockArg(pub Ident);

/// A receiver-less dotted call written with a leading dot.
#[derive(Debug, PartialEq)]
pub struct DotCall;

/// The callable position of an argument-taking call node.
#[derive(Debug, PartialEq)]
pub enum CallExpr {
    FCall(FCall),
    Call(Call),
    Expression(Box<Expression>),
}

/// One element of a flattened call chain: a receiver expression or the
/// separator that follows it.
#[derive(Debug, PartialEq)]
pub enum CallChainElement {
    Expression(Box<Expression>),
    Dot(DotTypeOrOp),
}

#[derive(Debug, PartialEq)]
pub struct MethodAddArg(pub CallExpr, pub ArgNode);

#[derive(Debug, PartialEq)]
pub struct FCall(pub Ident);

/// The uniform argument-encoding alternative set every call shape routes
/// its arguments through.
#[derive(Debug, PartialEq)]
pub enum ArgNode {
    ArgParen(ArgParen),
    ArgsAddBlock(ArgsAddBlock),
    Exprs(Vec<Expression>),
    Const(Const),
    Ident(Ident),
    Null(Option<String>),
}

#[derive(Debug, PartialEq)]
pub struct ArgParen(pub Box<ArgNode>);

/// A trailing block argument slot: absent, or a to-proc conversion.
#[derive(Debug, PartialEq)]
pub enum MaybeBlock {
    NoBlock(bool),
    ToProcExpr(Box<Expression>),
}

#[derive(Debug, PartialEq)]
pub struct ArgsAddBlock(pub ArgsAddStarOrExpressionList, pub MaybeBlock);

#[derive(Debug, PartialEq)]
pub struct Int(pub String, pub LineCol);

#[derive(Debug, PartialEq)]
pub struct BareAssocHash(pub Vec<AssocNewOrAssocSplat>);

#[derive(Debug, PartialEq)]
pub enum AssocNewOrAssocSplat {
    AssocNew(AssocNew),
    AssocSplat(AssocSplat),
}

#[derive(Debug, PartialEq)]
pub struct AssocNew(pub LabelOrSymbolLiteralOrDynaSymbol, pub Expression);

#[derive(Debug, PartialEq)]
pub struct AssocSplat(pub Expression);

#[derive(Debug, PartialEq)]
pub enum LabelOrSymbolLiteralOrDynaSymbol {
    Label(Label),
    SymbolLiteral(SymbolLiteral),
    DynaSymbol(DynaSymbol),
}

#[derive(Debug, PartialEq)]
pub struct Label(pub String, pub LineCol);

#[derive(Debug, PartialEq)]
pub struct SymbolLiteral(pub SymbolOrBare);

#[derive(Debug, PartialEq)]
pub enum SymbolOrBare {
    Ident(Ident),
    Op(Op),
    Symbol(Symbol),
}

#[derive(Debug, PartialEq)]
pub enum IdentOrConst {
    Ident(Ident),
    Const(Const),
}

#[derive(Debug, PartialEq)]
pub struct Symbol(pub IdentOrConst);

/// A dotted call link: receiver, separator, message.
#[derive(Debug, PartialEq)]
pub struct Call(pub Box<Expression>, pub DotTypeOrOp, pub Box<Expression>);

#[derive(Debug, PartialEq)]
pub enum Operator {
    Equals(Equals),
    Dot(Dot),
    LonelyOperator(LonelyOperator),
}

#[derive(Debug, PartialEq)]
pub enum DotType {
    Dot(Dot),
    LonelyOperator(LonelyOperator),
}

/// A call-chain separator: member access, safe navigation, double colon, or
/// a positioned operator node.  The kinds differ in nil-propagation
/// semantics downstream and are preserved verbatim through normalization.
#[derive(Debug, PartialEq)]
pub enum DotTypeOrOp {
    DotType(DotType),
    Period(Period),
    ColonColon(ColonColon),
    Op(Op),
}

#[derive(Debug, PartialEq)]
pub struct Period(pub String, pub LineCol);

#[derive(Debug, PartialEq)]
pub struct Equals;

#[derive(Debug, PartialEq)]
pub struct Dot;

#[derive(Debug, PartialEq)]
pub struct ColonColon;

#[derive(Debug, PartialEq)]
pub struct LonelyOperator;

#[derive(Debug, PartialEq)]
pub struct Op(pub Operator, pub LineCol);

#[derive(Debug, PartialEq)]
pub struct Next(pub ArgsAddBlockOrExpressionList);

#[derive(Debug, PartialEq)]
pub struct IfMod(pub Box<Expression>, pub Box<Expression>);

#[derive(Debug, PartialEq)]
pub enum UnaryType {
    Not,
}

#[derive(Debug, PartialEq)]
pub struct Unary(pub UnaryType, pub Box<Expression>);

#[derive(Debug, PartialEq)]
pub struct Super(pub ArgNode);

#[derive(Debug, PartialEq)]
pub struct Kw(pub String, pub LineCol);

#[derive(Debug, PartialEq)]
pub enum ConstPathRefOrConstRef {
    ConstPathRef(ConstPathRef),
    ConstRef(ConstRef),
}

#[derive(Debug, PartialEq)]
pub struct Class(
    pub ConstPathRefOrConstRef,
    pub Option<Box<Expression>>,
    pub BodyStmt,
);

#[derive(Debug, PartialEq)]
pub struct Defs(
    pub Singleton,
    pub DotOrColon,
    pub Ident,
    pub ParenOrParams,
    pub BodyStmt,
);

#[derive(Debug, PartialEq)]
pub enum Singleton {
    VarRef(VarRef),
    Paren(ParenExpr),
}

#[derive(Debug, PartialEq)]
pub enum DotOrColon {
    Period(Period),
    Op(Operator),
}

#[derive(Debug, PartialEq)]
pub struct Binary(pub Box<Expression>, pub String, pub Box<Expression>);

#[derive(Debug, PartialEq)]
pub struct Float(pub String, pub LineCol);

impl ArgsAddStarOrExpressionList {
    /// True exactly for the empty flat list: a split form is never empty,
    /// because it always holds its splat expression.
    pub fn is_empty(&self) -> (r: bool)
        ensures
            r == (self matches ArgsAddStarOrExpressionList::ExpressionList(el) && el@.len() == 0),
    {
        match self {
            ArgsAddStarOrExpressionList::ExpressionList(el) => el.len() == 0,
            _ => false,
        }
    }
}

impl DynaSymbol {
    /// What this dynamic symbol reads as when treated as a string literal.
    pub open spec fn as_string_literal(self) -> StringLiteral {
        match self.0 {
            StringContentOrStringContentParts::StringContent(sc) => StringLiteral(None, sc),
            StringContentOrStringContentParts::StringContentParts(scp) => StringLiteral(
                None,
                StringContent(scp),
            ),
        }
    }

    pub fn to_string_literal(self) -> (r: StringLiteral)
        ensures r == self.as_string_literal(),
    {
        match self.0 {
            StringContentOrStringContentParts::StringContent(sc) => StringLiteral(None, sc),
            StringContentOrStringContentParts::StringContentParts(scp) => StringLiteral(
                None,
                StringContent(scp),
            ),
        }
    }
}

} // verus!
