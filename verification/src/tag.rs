//! Node-kind tags and decode errors.
//!
//! Every tagged node of the input format begins with a string literal naming
//! its kind.  `Tag` enumerates the kinds; a tag is checked once at decode
//! time and never stored in the decoded tree, so a decoded node's type always
//! matches its grammar kind.

use vstd::prelude::*;
use crate::value::Value;

verus! {

/// The node kinds of the input grammar, identified by their leading string.
#[derive(Clone, Copy, Debug, PartialEq, Eq, Structural)]
pub enum Tag {
    Program,
    If,
    Elsif,
    Else,
    Undef,
    StringConcat,
    MrhsAddStar,
    MrhsNewFromArgs,
    RescueMod,
    Defined,
    TopConstRef,
    TopConstField,
    ConstPathRef,
    ConstRef,
    Command,
    Assign,
    Massign,
    ConstPathField,
    VarField,
    VarRef,
    Gvar,
    Ivar,
    Cvar,
    HeredocStringLiteral,
    StringLiteral,
    XstringLiteral,
    DynaSymbol,
    TstringContent,
    StringEmbexpr,
    StringDvar,
    StringContent,
    Array,
    ArgsAddStar,
    Alias,
    Paren,
    Dot2,
    Dot3,
    VoidStmt,
    MethodCall,
    Def,
    Begin,
    Bodystmt,
    Rescue,
    Ensure,
    Vcall,
    CommandCall,
    Const,
    Ident,
    Params,
    RestParam,
    KwrestParam,
    Blockarg,
    Call,
    MethodAddArg,
    Fcall,
    ArgParen,
    ArgsAddBlock,
    Int,
    BareAssocHash,
    AssocNew,
    AssocSplat,
    Label,
    SymbolLiteral,
    Symbol,
    Period,
    Op,
    Next,
    IfMod,
    Unary,
    Super,
    Kw,
    Class,
    Defs,
    Binary,
    Float,
    Not,
}

impl Tag {
    /// The exact string literal that introduces a node of this kind.
    pub open spec fn lit(self) -> Seq<char> {
        match self {
            Tag::Program => "program"@,
            Tag::If => "if"@,
            Tag::Elsif => "elsif"@,
            Tag::Else => "else"@,
            Tag::Undef => "undef"@,
            Tag::StringConcat => "string_concat"@,
            Tag::MrhsAddStar => "mrhs_add_star"@,
            Tag::MrhsNewFromArgs => "mrhs_new_from_args"@,
            Tag::RescueMod => "rescue_mod"@,
            Tag::Defined => "defined"@,
            Tag::TopConstRef => "top_const_ref"@,
            Tag::TopConstField => "top_const_field"@,
            Tag::ConstPathRef => "const_path_ref"@,
            Tag::ConstRef => "const_ref"@,
            Tag::Command => "command"@,
            Tag::Assign => "assign"@,
            Tag::Massign => "massign"@,
            Tag::ConstPathField => "const_path_field"@,
            Tag::VarField => "var_field"@,
            Tag::VarRef => "var_ref"@,
            Tag::Gvar => "@gvar"@,
            Tag::Ivar => "@ivar"@,
            Tag::Cvar => "@cvar"@,
            Tag::HeredocStringLiteral => "heredoc_string_literal"@,
            Tag::StringLiteral => "string_literal"@,
            Tag::XstringLiteral => "xstring_literal"@,
            Tag::DynaSymbol => "dyna_symbol"@,
            Tag::TstringContent => "@tstring_content"@,
            Tag::StringEmbexpr => "string_embexpr"@,
            Tag::StringDvar => "string_dvar"@,
            Tag::StringContent => "string_content"@,
            Tag::Array => "array"@,
            Tag::ArgsAddStar => "args_add_star"@,
            Tag::Alias => "alias"@,
            Tag::Paren => "paren"@,
            Tag::Dot2 => "dot2"@,
            Tag::Dot3 => "dot3"@,
            Tag::VoidStmt => "void_stmt"@,
            Tag::MethodCall => "method_call"@,
            Tag::Def => "def"@,
            Tag::Begin => "begin"@,
            Tag::Bodystmt => "bodystmt"@,
            Tag::Rescue => "rescue"@,
            Tag::Ensure => "ensure"@,
            Tag::Vcall => "vcall"@,
            Tag::CommandCall => "command_call"@,
            Tag::Const => "@const"@,
            Tag::Ident => "@ident"@,
            Tag::Params => "params"@,
            Tag::RestParam => "rest_param"@,
            Tag::KwrestParam => "kwrest_param"@,
            Tag::Blockarg => "blockarg"@,
            Tag::Call => "call"@,
            Tag::MethodAddArg => "method_add_arg"@,
            Tag::Fcall => "fcall"@,
            Tag::ArgParen => "arg_paren"@,
            Tag::ArgsAddBlock => "args_add_block"@,
            Tag::Int => "@int"@,
            Tag::BareAssocHash => "bare_assoc_hash"@,
            Tag::AssocNew => "assoc_new"@,
            Tag::AssocSplat => "assoc_splat"@,
            Tag::Label => "@label"@,
            Tag::SymbolLiteral => "symbol_literal"@,
            Tag::Symbol => "symbol"@,
            Tag::Period => "@period"@,
            Tag::Op => "@op"@,
            Tag::Next => "next"@,
            Tag::IfMod => "if_mod"@,
            Tag::Unary => "unary"@,
            Tag::Super => "super"@,
            Tag::Kw => "@kw"@,
            Tag::Class => "class"@,
            Tag::Defs => "defs"@,
            Tag::Binary => "binary"@,
            Tag::Float => "@float"@,
            Tag::Not => "not"@,
        }
    }

    /// The literal as an owned string, for error reports and comparisons.
    pub fn literal(self) -> (r: String)
        ensures r@ == self.lit(),
    {
        match self {
            Tag::Program => String::from_str("program"),
            Tag::If => String::from_str("if"),
            Tag::Elsif => String::from_str("elsif"),
            Tag::Else => String::from_str("else"),
            Tag::Undef => String::from_str("undef"),
            Tag::StringConcat => String::from_str("string_concat"),
            Tag::MrhsAddStar => String::from_str("mrhs_add_star"),
            Tag::MrhsNewFromArgs => String::from_str("mrhs_new_from_args"),
            Tag::RescueMod => String::from_str("rescue_mod"),
            Tag::Defined => String::from_str("defined"),
            Tag::TopConstRef => String::from_str("top_const_ref"),
            Tag::TopConstField => String::from_str("top_const_field"),
            Tag::ConstPathRef => String::from_str("const_path_ref"),
            Tag::ConstRef => String::from_str("const_ref"),
            Tag::Command => String::from_str("command"),
            Tag::Assign => String::from_str("assign"),
            Tag::Massign => String::from_str("massign"),
            Tag::ConstPathField => String::from_str("const_path_field"),
            Tag::VarField => String::from_str("var_field"),
            Tag::VarRef => String::from_str("var_ref"),
            Tag::Gvar => String::from_str("@gvar"),
            Tag::Ivar => String::from_str("@ivar"),
            Tag::Cvar => String::from_str("@cvar"),
            Tag::HeredocStringLiteral => String::from_str("heredoc_string_literal"),
            Tag::StringLiteral => String::from_str("string_literal"),
            Tag::XstringLiteral => String::from_str("xstring_literal"),
            Tag::DynaSymbol => String::from_str("dyna_symbol"),
            Tag::TstringContent => String::from_str("@tstring_content"),
            Tag::StringEmbexpr => String::from_str("string_embexpr"),
            Tag::StringDvar => String::from_str("string_dvar"),
            Tag::StringContent => String::from_str("string_content"),
            Tag::Array => String::from_str("array"),
            Tag::ArgsAddStar => String::from_str("args_add_star"),
            Tag::Alias => String::from_str("alias"),
            Tag::Paren => String::from_str("paren"),
            Tag::Dot2 => String::from_str("dot2"),
            Tag::Dot3 => String::from_str("dot3"),
            Tag::VoidStmt => String::from_str("void_stmt"),
            Tag::MethodCall => String::from_str("method_call"),
            Tag::Def => String::from_str("def"),
            Tag::Begin => String::from_str("begin"),
            Tag::Bodystmt => String::from_str("bodystmt"),
            Tag::Rescue => String::from_str("rescue"),
            Tag::Ensure => String::from_str("ensure"),
            Tag::Vcall => String::from_str("vcall"),
            Tag::CommandCall => String::from_str("command_call"),
            Tag::Const => String::from_str("@const"),
            Tag::Ident => String::from_str("@ident"),
            Tag::Params => String::from_str("params"),
            Tag::RestParam => String::from_str("rest_param"),
            Tag::KwrestParam => String::from_str("kwrest_param"),
            Tag::Blockarg => String::from_str("blockarg"),
            Tag::Call => String::from_str("call"),
            Tag::MethodAddArg => String::from_str("method_add_arg"),
            Tag::Fcall => String::from_str("fcall"),
            Tag::ArgParen => String::from_str("arg_paren"),
            Tag::ArgsAddBlock => String::from_str("args_add_block"),
            Tag::Int => String::from_str("@int"),
            Tag::BareAssocHash => String::from_str("bare_assoc_hash"),
            Tag::AssocNew => String::from_str("assoc_new"),
            Tag::AssocSplat => String::from_str("assoc_splat"),
            Tag::Label => String::from_str("@label"),
            Tag::SymbolLiteral => String::from_str("symbol_literal"),
            Tag::Symbol => String::from_str("symbol"),
            Tag::Period => String::from_str("@period"),
            Tag::Op => String::from_str("@op"),
            Tag::Next => String::from_str("next"),
            Tag::IfMod => String::from_str("if_mod"),
            Tag::Unary => String::from_str("unary"),
            Tag::Super => String::from_str("super"),
            Tag::Kw => String::from_str("@kw"),
            Tag::Class => String::from_str("class"),
            Tag::Defs => String::from_str("defs"),
            Tag::Binary => String::from_str("binary"),
            Tag::Float => String::from_str("@float"),
            Tag::Not => String::from_str("not"),
        }
    }
}

/// Why a decode rejected its input.
#[derive(Debug, PartialEq)]
pub enum DecodeError {
    /// The leading element of a tagged node was a string other than the
    /// expected literal (`actual` holds it), or was no string at all
    /// (`actual` is `None`).
    TagMismatch { expected: Tag, actual: Option<String> },
    /// A fixed-arity node's sequence was shorter than required; `index` is
    /// the position of the first absent field.
    MissingField { kind: Tag, index: u64 },
    /// A fixed-arity node's sequence had elements beyond its last field;
    /// `len` is the length found.
    ExtraFields { kind: Tag, len: u64 },
    /// No structural alternative matched the value at this position.
    UnionExhausted,
    /// Heredoc metadata without the content that must follow it.
    MalformedHeredoc,
}

/// What checking value `v` for tag `t` yields: `Ok` exactly when `v` is a
/// sequence whose first element is the string `t.lit()`.
pub open spec fn spec_check_tag(v: Value, t: Tag) -> Result<(), DecodeError> {
    match v {
        Value::List(items) => {
            if items@.len() == 0 {
                Err(DecodeError::TagMismatch { expected: t, actual: None })
            } else {
                match items@[0] {
                    Value::Text(s) => {
                        if s@ == t.lit() {
                            Ok(())
                        } else {
                            Err(DecodeError::TagMismatch { expected: t, actual: Some(s) })
                        }
                    },
                    _ => Err(DecodeError::TagMismatch { expected: t, actual: None }),
                }
            }
        },
        _ => Err(DecodeError::TagMismatch { expected: t, actual: None }),
    }
}

/// True when `v` is a sequence led by the string `t.lit()`.
pub open spec fn has_tag(v: Value, t: Tag) -> bool {
    spec_check_tag(v, t) is Ok
}

/// Checks the tag of `v` and hands back its elements.
pub fn tagged_elems<'a>(v: &'a Value, t: Tag) -> (r: Result<&'a Vec<Value>, DecodeError>)
    ensures
        match r {
            Ok(items) => *v == Value::List(*items) && has_tag(*v, t),
            Err(e) => spec_check_tag(*v, t) == Err::<(), DecodeError>(e),
        },
{
    match v {
        Value::List(items) => {
            if items.len() == 0 {
                Err(DecodeError::TagMismatch { expected: t, actual: None })
            } else {
                match &items[0] {
                    Value::Text(s) => {
                        if *s == t.literal() {
                            Ok(items)
                        } else {
                            Err(DecodeError::TagMismatch { expected: t, actual: Some(s.clone()) })
                        }
                    },
                    _ => Err(DecodeError::TagMismatch { expected: t, actual: None }),
                }
            }
        },
        _ => Err(DecodeError::TagMismatch { expected: t, actual: None }),
    }
}

} // verus!
