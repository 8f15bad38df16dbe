//! Tokens: a kind, and for every kind but the end marker a span.

#![allow(non_camel_case_types)]

use crate::decimal::{decimal, decimal_string};
use crate::source_span::{SourceSpan, SpanView};
use vstd::prelude::*;
use vstd::string::StringExecFns;

verus! {

/// A classified lexeme, or the marker of the end of input.
#[derive(Eq, PartialEq, Copy, Clone, Debug)]
pub enum Token<'a> {
    // Catch-all for text that no rule names.
    Unknown(SourceSpan<'a>),
    // Valid symbols that are not in use yet.
    Reserved(SourceSpan<'a>),
    // Names that the user defines.
    Identifier(SourceSpan<'a>),
    IdentifierGeneric(SourceSpan<'a>),
    Operator(SourceSpan<'a>),
    // Literals.
    LIT_Int(SourceSpan<'a>),
    LIT_Real(SourceSpan<'a>),
    LIT_String(SourceSpan<'a>),
    LIT_RawString(SourceSpan<'a>),
    // Documentation comment.
    DocComment(SourceSpan<'a>),
    // Punctuation.
    NewLine(SourceSpan<'a>),
    LParen(SourceSpan<'a>),
    RParen(SourceSpan<'a>),
    LSquare(SourceSpan<'a>),
    RSquare(SourceSpan<'a>),
    LCurly(SourceSpan<'a>),
    RCurly(SourceSpan<'a>),
    Comma(SourceSpan<'a>),
    Colon(SourceSpan<'a>),
    At(SourceSpan<'a>),
    Period(SourceSpan<'a>),
    BackTick(SourceSpan<'a>),
    Dollar(SourceSpan<'a>),
    // Keywords.
    KEY_Namespace(SourceSpan<'a>),
    KEY_Pub(SourceSpan<'a>),
    KEY_Unsafe(SourceSpan<'a>),
    KEY_Const(SourceSpan<'a>),
    KEY_Val(SourceSpan<'a>),
    KEY_Var(SourceSpan<'a>),
    KEY_Mut(SourceSpan<'a>),
    KEY_Ref(SourceSpan<'a>),
    KEY_Fn(SourceSpan<'a>),
    KEY_Struct(SourceSpan<'a>),
    KEY_Enum(SourceSpan<'a>),
    KEY_Union(SourceSpan<'a>),
    KEY_Trait(SourceSpan<'a>),
    KEY_Is(SourceSpan<'a>),
    KEY_If(SourceSpan<'a>),
    KEY_Else(SourceSpan<'a>),
    KEY_Loop(SourceSpan<'a>),
    KEY_While(SourceSpan<'a>),
    KEY_Until(SourceSpan<'a>),
    KEY_For(SourceSpan<'a>),
    KEY_In(SourceSpan<'a>),
    KEY_Break(SourceSpan<'a>),
    KEY_Continue(SourceSpan<'a>),
    KEY_Return(SourceSpan<'a>),
    KEY_As(SourceSpan<'a>),
    KEY_Alias(SourceSpan<'a>),
    KEY_Type(SourceSpan<'a>),
    // End of input.
    EOF,
}

/// The kinds of token: the variants of [`Token`] without their spans.
#[derive(Eq, PartialEq, Copy, Clone, Debug)]
pub enum TokenKind {
    // Catch-all for text that no rule names.
    Unknown,
    // Valid symbols that are not in use yet.
    Reserved,
    // Names that the user defines.
    Identifier,
    IdentifierGeneric,
    Operator,
    // Literals.
    LIT_Int,
    LIT_Real,
    LIT_String,
    LIT_RawString,
    // Documentation comment.
    DocComment,
    // Punctuation.
    NewLine,
    LParen,
    RParen,
    LSquare,
    RSquare,
    LCurly,
    RCurly,
    Comma,
    Colon,
    At,
    Period,
    BackTick,
    Dollar,
    // Keywords.
    KEY_Namespace,
    KEY_Pub,
    KEY_Unsafe,
    KEY_Const,
    KEY_Val,
    KEY_Var,
    KEY_Mut,
    KEY_Ref,
    KEY_Fn,
    KEY_Struct,
    KEY_Enum,
    KEY_Union,
    KEY_Trait,
    KEY_Is,
    KEY_If,
    KEY_Else,
    KEY_Loop,
    KEY_While,
    KEY_Until,
    KEY_For,
    KEY_In,
    KEY_Break,
    KEY_Continue,
    KEY_Return,
    KEY_As,
    KEY_Alias,
    KEY_Type,
    // End of input.
    EOF,
}

impl TokenKind {
    /// The name of the kind: that of its variant.
    pub open spec fn name(self) -> Seq<char> {
        match self {
            TokenKind::Unknown => "Unknown"@,
            TokenKind::Reserved => "Reserved"@,
            TokenKind::Identifier => "Identifier"@,
            TokenKind::IdentifierGeneric => "IdentifierGeneric"@,
            TokenKind::Operator => "Operator"@,
            TokenKind::LIT_Int => "LIT_Int"@,
            TokenKind::LIT_Real => "LIT_Real"@,
            TokenKind::LIT_String => "LIT_String"@,
            TokenKind::LIT_RawString => "LIT_RawString"@,
            TokenKind::DocComment => "DocComment"@,
            TokenKind::NewLine => "NewLine"@,
            TokenKind::LParen => "LParen"@,
            TokenKind::RParen => "RParen"@,
            TokenKind::LSquare => "LSquare"@,
            TokenKind::RSquare => "RSquare"@,
            TokenKind::LCurly => "LCurly"@,
            TokenKind::RCurly => "RCurly"@,
            TokenKind::Comma => "Comma"@,
            TokenKind::Colon => "Colon"@,
            TokenKind::At => "At"@,
            TokenKind::Period => "Period"@,
            TokenKind::BackTick => "BackTick"@,
            TokenKind::Dollar => "Dollar"@,
            TokenKind::KEY_Namespace => "KEY_Namespace"@,
            TokenKind::KEY_Pub => "KEY_Pub"@,
            TokenKind::KEY_Unsafe => "KEY_Unsafe"@,
            TokenKind::KEY_Const => "KEY_Const"@,
            TokenKind::KEY_Val => "KEY_Val"@,
            TokenKind::KEY_Var => "KEY_Var"@,
            TokenKind::KEY_Mut => "KEY_Mut"@,
            TokenKind::KEY_Ref => "KEY_Ref"@,
            TokenKind::KEY_Fn => "KEY_Fn"@,
            TokenKind::KEY_Struct => "KEY_Struct"@,
            TokenKind::KEY_Enum => "KEY_Enum"@,
            TokenKind::KEY_Union => "KEY_Union"@,
            TokenKind::KEY_Trait => "KEY_Trait"@,
            TokenKind::KEY_Is => "KEY_Is"@,
            TokenKind::KEY_If => "KEY_If"@,
            TokenKind::KEY_Else => "KEY_Else"@,
            TokenKind::KEY_Loop => "KEY_Loop"@,
            TokenKind::KEY_While => "KEY_While"@,
            TokenKind::KEY_Until => "KEY_Until"@,
            TokenKind::KEY_For => "KEY_For"@,
            TokenKind::KEY_In => "KEY_In"@,
            TokenKind::KEY_Break => "KEY_Break"@,
            TokenKind::KEY_Continue => "KEY_Continue"@,
            TokenKind::KEY_Return => "KEY_Return"@,
            TokenKind::KEY_As => "KEY_As"@,
            TokenKind::KEY_Alias => "KEY_Alias"@,
            TokenKind::KEY_Type => "KEY_Type"@,
            TokenKind::EOF => "EOF"@,
        }
    }

    /// The name of the kind.
    pub fn label(self) -> (r: &'static str)
        ensures
            r@ == self.name(),
    {
        match self {
            TokenKind::Unknown => "Unknown",
            TokenKind::Reserved => "Reserved",
            TokenKind::Identifier => "Identifier",
            TokenKind::IdentifierGeneric => "IdentifierGeneric",
            TokenKind::Operator => "Operator",
            TokenKind::LIT_Int => "LIT_Int",
            TokenKind::LIT_Real => "LIT_Real",
            TokenKind::LIT_String => "LIT_String",
            TokenKind::LIT_RawString => "LIT_RawString",
            TokenKind::DocComment => "DocComment",
            TokenKind::NewLine => "NewLine",
            TokenKind::LParen => "LParen",
            TokenKind::RParen => "RParen",
            TokenKind::LSquare => "LSquare",
            TokenKind::RSquare => "RSquare",
            TokenKind::LCurly => "LCurly",
            TokenKind::RCurly => "RCurly",
            TokenKind::Comma => "Comma",
            TokenKind::Colon => "Colon",
            TokenKind::At => "At",
            TokenKind::Period => "Period",
            TokenKind::BackTick => "BackTick",
            TokenKind::Dollar => "Dollar",
            TokenKind::KEY_Namespace => "KEY_Namespace",
            TokenKind::KEY_Pub => "KEY_Pub",
            TokenKind::KEY_Unsafe => "KEY_Unsafe",
            TokenKind::KEY_Const => "KEY_Const",
            TokenKind::KEY_Val => "KEY_Val",
            TokenKind::KEY_Var => "KEY_Var",
            TokenKind::KEY_Mut => "KEY_Mut",
            TokenKind::KEY_Ref => "KEY_Ref",
            TokenKind::KEY_Fn => "KEY_Fn",
            TokenKind::KEY_Struct => "KEY_Struct",
            TokenKind::KEY_Enum => "KEY_Enum",
            TokenKind::KEY_Union => "KEY_Union",
            TokenKind::KEY_Trait => "KEY_Trait",
            TokenKind::KEY_Is => "KEY_Is",
            TokenKind::KEY_If => "KEY_If",
            TokenKind::KEY_Else => "KEY_Else",
            TokenKind::KEY_Loop => "KEY_Loop",
            TokenKind::KEY_While => "KEY_While",
            TokenKind::KEY_Until => "KEY_Until",
            TokenKind::KEY_For => "KEY_For",
            TokenKind::KEY_In => "KEY_In",
            TokenKind::KEY_Break => "KEY_Break",
            TokenKind::KEY_Continue => "KEY_Continue",
            TokenKind::KEY_Return => "KEY_Return",
            TokenKind::KEY_As => "KEY_As",
            TokenKind::KEY_Alias => "KEY_Alias",
            TokenKind::KEY_Type => "KEY_Type",
            TokenKind::EOF => "EOF",
        }
    }
}

/// What a token stands for: its kind and, but for the end marker, what its
/// span stands for.
pub struct TokenView {
    pub kind: TokenKind,
    pub span: Option<SpanView>,
}

impl TokenView {
    /// The end marker.
    pub open spec fn eof() -> TokenView {
        TokenView { kind: TokenKind::EOF, span: None }
    }

    /// A token of `kind` over `span`.
    pub open spec fn spanned(kind: TokenKind, span: SpanView) -> TokenView {
        TokenView { kind, span: Some(span) }
    }
}

impl<'a> View for Token<'a> {
    type V = TokenView;

    open spec fn view(&self) -> TokenView {
        TokenView {
            kind: self.kind_of(),
            span: match self.span_of() {
                Some(span) => Some(span@),
                None => None,
            },
        }
    }
}

impl<'a> DeepView for Token<'a> {
    type V = TokenView;

    open spec fn deep_view(&self) -> TokenView {
        self@
    }
}

impl<'a> Token<'a> {
    /// The kind of the token.
    pub open spec fn kind_of(&self) -> TokenKind {
        match self {
            Token::Unknown(_) => TokenKind::Unknown,
            Token::Reserved(_) => TokenKind::Reserved,
            Token::Identifier(_) => TokenKind::Identifier,
            Token::IdentifierGeneric(_) => TokenKind::IdentifierGeneric,
            Token::Operator(_) => TokenKind::Operator,
            Token::LIT_Int(_) => TokenKind::LIT_Int,
            Token::LIT_Real(_) => TokenKind::LIT_Real,
            Token::LIT_String(_) => TokenKind::LIT_String,
            Token::LIT_RawString(_) => TokenKind::LIT_RawString,
            Token::DocComment(_) => TokenKind::DocComment,
            Token::NewLine(_) => TokenKind::NewLine,
            Token::LParen(_) => TokenKind::LParen,
            Token::RParen(_) => TokenKind::RParen,
            Token::LSquare(_) => TokenKind::LSquare,
            Token::RSquare(_) => TokenKind::RSquare,
            Token::LCurly(_) => TokenKind::LCurly,
            Token::RCurly(_) => TokenKind::RCurly,
            Token::Comma(_) => TokenKind::Comma,
            Token::Colon(_) => TokenKind::Colon,
            Token::At(_) => TokenKind::At,
            Token::Period(_) => TokenKind::Period,
            Token::BackTick(_) => TokenKind::BackTick,
            Token::Dollar(_) => TokenKind::Dollar,
            Token::KEY_Namespace(_) => TokenKind::KEY_Namespace,
            Token::KEY_Pub(_) => TokenKind::KEY_Pub,
            Token::KEY_Unsafe(_) => TokenKind::KEY_Unsafe,
            Token::KEY_Const(_) => TokenKind::KEY_Const,
            Token::KEY_Val(_) => TokenKind::KEY_Val,
            Token::KEY_Var(_) => TokenKind::KEY_Var,
            Token::KEY_Mut(_) => TokenKind::KEY_Mut,
            Token::KEY_Ref(_) => TokenKind::KEY_Ref,
            Token::KEY_Fn(_) => TokenKind::KEY_Fn,
            Token::KEY_Struct(_) => TokenKind::KEY_Struct,
            Token::KEY_Enum(_) => TokenKind::KEY_Enum,
            Token::KEY_Union(_) => TokenKind::KEY_Union,
            Token::KEY_Trait(_) => TokenKind::KEY_Trait,
            Token::KEY_Is(_) => TokenKind::KEY_Is,
            Token::KEY_If(_) => TokenKind::KEY_If,
            Token::KEY_Else(_) => TokenKind::KEY_Else,
            Token::KEY_Loop(_) => TokenKind::KEY_Loop,
            Token::KEY_While(_) => TokenKind::KEY_While,
            Token::KEY_Until(_) => TokenKind::KEY_Until,
            Token::KEY_For(_) => TokenKind::KEY_For,
            Token::KEY_In(_) => TokenKind::KEY_In,
            Token::KEY_Break(_) => TokenKind::KEY_Break,
            Token::KEY_Continue(_) => TokenKind::KEY_Continue,
            Token::KEY_Return(_) => TokenKind::KEY_Return,
            Token::KEY_As(_) => TokenKind::KEY_As,
            Token::KEY_Alias(_) => TokenKind::KEY_Alias,
            Token::KEY_Type(_) => TokenKind::KEY_Type,
            Token::EOF => TokenKind::EOF,
        }
    }

    /// The span of the token; the end marker has none.
    pub open spec fn span_of(&self) -> Option<SourceSpan<'a>> {
        match self {
            Token::Unknown(ss) => Some(*ss),
            Token::Reserved(ss) => Some(*ss),
            Token::Identifier(ss) => Some(*ss),
            Token::IdentifierGeneric(ss) => Some(*ss),
            Token::Operator(ss) => Some(*ss),
            Token::LIT_Int(ss) => Some(*ss),
            Token::LIT_Real(ss) => Some(*ss),
            Token::LIT_String(ss) => Some(*ss),
            Token::LIT_RawString(ss) => Some(*ss),
            Token::DocComment(ss) => Some(*ss),
            Token::NewLine(ss) => Some(*ss),
            Token::LParen(ss) => Some(*ss),
            Token::RParen(ss) => Some(*ss),
            Token::LSquare(ss) => Some(*ss),
            Token::RSquare(ss) => Some(*ss),
            Token::LCurly(ss) => Some(*ss),
            Token::RCurly(ss) => Some(*ss),
            Token::Comma(ss) => Some(*ss),
            Token::Colon(ss) => Some(*ss),
            Token::At(ss) => Some(*ss),
            Token::Period(ss) => Some(*ss),
            Token::BackTick(ss) => Some(*ss),
            Token::Dollar(ss) => Some(*ss),
            Token::KEY_Namespace(ss) => Some(*ss),
            Token::KEY_Pub(ss) => Some(*ss),
            Token::KEY_Unsafe(ss) => Some(*ss),
            Token::KEY_Const(ss) => Some(*ss),
            Token::KEY_Val(ss) => Some(*ss),
            Token::KEY_Var(ss) => Some(*ss),
            Token::KEY_Mut(ss) => Some(*ss),
            Token::KEY_Ref(ss) => Some(*ss),
            Token::KEY_Fn(ss) => Some(*ss),
            Token::KEY_Struct(ss) => Some(*ss),
            Token::KEY_Enum(ss) => Some(*ss),
            Token::KEY_Union(ss) => Some(*ss),
            Token::KEY_Trait(ss) => Some(*ss),
            Token::KEY_Is(ss) => Some(*ss),
            Token::KEY_If(ss) => Some(*ss),
            Token::KEY_Else(ss) => Some(*ss),
            Token::KEY_Loop(ss) => Some(*ss),
            Token::KEY_While(ss) => Some(*ss),
            Token::KEY_Until(ss) => Some(*ss),
            Token::KEY_For(ss) => Some(*ss),
            Token::KEY_In(ss) => Some(*ss),
            Token::KEY_Break(ss) => Some(*ss),
            Token::KEY_Continue(ss) => Some(*ss),
            Token::KEY_Return(ss) => Some(*ss),
            Token::KEY_As(ss) => Some(*ss),
            Token::KEY_Alias(ss) => Some(*ss),
            Token::KEY_Type(ss) => Some(*ss),
            Token::EOF => None,
        }
    }

    /// The token's span, if it has one, lies in its source as it says.
    pub open spec fn wf(&self) -> bool {
        match self.span_of() {
            Some(span) => span.wf(),
            None => true,
        }
    }

    /// The token of `kind` over `span`. The end marker carries no span, so
    /// for that kind `span` is dropped.
    pub fn new(kind: TokenKind, span: SourceSpan<'a>) -> (t: Token<'a>)
        ensures
            t.kind_of() == kind,
            t.span_of() == if kind is EOF {
                None
            } else {
                Some(span)
            },
    {
        match kind {
            TokenKind::Unknown => Token::Unknown(span),
            TokenKind::Reserved => Token::Reserved(span),
            TokenKind::Identifier => Token::Identifier(span),
            TokenKind::IdentifierGeneric => Token::IdentifierGeneric(span),
            TokenKind::Operator => Token::Operator(span),
            TokenKind::LIT_Int => Token::LIT_Int(span),
            TokenKind::LIT_Real => Token::LIT_Real(span),
            TokenKind::LIT_String => Token::LIT_String(span),
            TokenKind::LIT_RawString => Token::LIT_RawString(span),
            TokenKind::DocComment => Token::DocComment(span),
            TokenKind::NewLine => Token::NewLine(span),
            TokenKind::LParen => Token::LParen(span),
            TokenKind::RParen => Token::RParen(span),
            TokenKind::LSquare => Token::LSquare(span),
            TokenKind::RSquare => Token::RSquare(span),
            TokenKind::LCurly => Token::LCurly(span),
            TokenKind::RCurly => Token::RCurly(span),
            TokenKind::Comma => Token::Comma(span),
            TokenKind::Colon => Token::Colon(span),
            TokenKind::At => Token::At(span),
            TokenKind::Period => Token::Period(span),
            TokenKind::BackTick => Token::BackTick(span),
            TokenKind::Dollar => Token::Dollar(span),
            TokenKind::KEY_Namespace => Token::KEY_Namespace(span),
            TokenKind::KEY_Pub => Token::KEY_Pub(span),
            TokenKind::KEY_Unsafe => Token::KEY_Unsafe(span),
            TokenKind::KEY_Const => Token::KEY_Const(span),
            TokenKind::KEY_Val => Token::KEY_Val(span),
            TokenKind::KEY_Var => Token::KEY_Var(span),
            TokenKind::KEY_Mut => Token::KEY_Mut(span),
            TokenKind::KEY_Ref => Token::KEY_Ref(span),
            TokenKind::KEY_Fn => Token::KEY_Fn(span),
            TokenKind::KEY_Struct => Token::KEY_Struct(span),
            TokenKind::KEY_Enum => Token::KEY_Enum(span),
            TokenKind::KEY_Union => Token::KEY_Union(span),
            TokenKind::KEY_Trait => Token::KEY_Trait(span),
            TokenKind::KEY_Is => Token::KEY_Is(span),
            TokenKind::KEY_If => Token::KEY_If(span),
            TokenKind::KEY_Else => Token::KEY_Else(span),
            TokenKind::KEY_Loop => Token::KEY_Loop(span),
            TokenKind::KEY_While => Token::KEY_While(span),
            TokenKind::KEY_Until => Token::KEY_Until(span),
            TokenKind::KEY_For => Token::KEY_For(span),
            TokenKind::KEY_In => Token::KEY_In(span),
            TokenKind::KEY_Break => Token::KEY_Break(span),
            TokenKind::KEY_Continue => Token::KEY_Continue(span),
            TokenKind::KEY_Return => Token::KEY_Return(span),
            TokenKind::KEY_As => Token::KEY_As(span),
            TokenKind::KEY_Alias => Token::KEY_Alias(span),
            TokenKind::KEY_Type => Token::KEY_Type(span),
            TokenKind::EOF => Token::EOF,
        }
    }

    /// The kind of the token.
    pub fn kind(&self) -> (k: TokenKind)
        ensures
            k == self.kind_of(),
    {
        match self {
            Token::Unknown(_) => TokenKind::Unknown,
            Token::Reserved(_) => TokenKind::Reserved,
            Token::Identifier(_) => TokenKind::Identifier,
            Token::IdentifierGeneric(_) => TokenKind::IdentifierGeneric,
            Token::Operator(_) => TokenKind::Operator,
            Token::LIT_Int(_) => TokenKind::LIT_Int,
            Token::LIT_Real(_) => TokenKind::LIT_Real,
            Token::LIT_String(_) => TokenKind::LIT_String,
            Token::LIT_RawString(_) => TokenKind::LIT_RawString,
            Token::DocComment(_) => TokenKind::DocComment,
            Token::NewLine(_) => TokenKind::NewLine,
            Token::LParen(_) => TokenKind::LParen,
            Token::RParen(_) => TokenKind::RParen,
            Token::LSquare(_) => TokenKind::LSquare,
            Token::RSquare(_) => TokenKind::RSquare,
            Token::LCurly(_) => TokenKind::LCurly,
            Token::RCurly(_) => TokenKind::RCurly,
            Token::Comma(_) => TokenKind::Comma,
            Token::Colon(_) => TokenKind::Colon,
            Token::At(_) => TokenKind::At,
            Token::Period(_) => TokenKind::Period,
            Token::BackTick(_) => TokenKind::BackTick,
            Token::Dollar(_) => TokenKind::Dollar,
            Token::KEY_Namespace(_) => TokenKind::KEY_Namespace,
            Token::KEY_Pub(_) => TokenKind::KEY_Pub,
            Token::KEY_Unsafe(_) => TokenKind::KEY_Unsafe,
            Token::KEY_Const(_) => TokenKind::KEY_Const,
            Token::KEY_Val(_) => TokenKind::KEY_Val,
            Token::KEY_Var(_) => TokenKind::KEY_Var,
            Token::KEY_Mut(_) => TokenKind::KEY_Mut,
            Token::KEY_Ref(_) => TokenKind::KEY_Ref,
            Token::KEY_Fn(_) => TokenKind::KEY_Fn,
            Token::KEY_Struct(_) => TokenKind::KEY_Struct,
            Token::KEY_Enum(_) => TokenKind::KEY_Enum,
            Token::KEY_Union(_) => TokenKind::KEY_Union,
            Token::KEY_Trait(_) => TokenKind::KEY_Trait,
            Token::KEY_Is(_) => TokenKind::KEY_Is,
            Token::KEY_If(_) => TokenKind::KEY_If,
            Token::KEY_Else(_) => TokenKind::KEY_Else,
            Token::KEY_Loop(_) => TokenKind::KEY_Loop,
            Token::KEY_While(_) => TokenKind::KEY_While,
            Token::KEY_Until(_) => TokenKind::KEY_Until,
            Token::KEY_For(_) => TokenKind::KEY_For,
            Token::KEY_In(_) => TokenKind::KEY_In,
            Token::KEY_Break(_) => TokenKind::KEY_Break,
            Token::KEY_Continue(_) => TokenKind::KEY_Continue,
            Token::KEY_Return(_) => TokenKind::KEY_Return,
            Token::KEY_As(_) => TokenKind::KEY_As,
            Token::KEY_Alias(_) => TokenKind::KEY_Alias,
            Token::KEY_Type(_) => TokenKind::KEY_Type,
            Token::EOF => TokenKind::EOF,
        }
    }

    /// The span of the token; the end marker has none.
    pub fn source_span(&self) -> (r: Option<SourceSpan<'a>>)
        ensures
            r == self.span_of(),
    {
        match *self {
            // Catch-all for text that no rule names.
            Token::Unknown(ss) => Some(ss),
            // Valid symbols that are not in use yet.
            Token::Reserved(ss) => Some(ss),
            // Names that the user defines.
            Token::Identifier(ss) => Some(ss),
            Token::IdentifierGeneric(ss) => Some(ss),
            Token::Operator(ss) => Some(ss),
            // Literals.
            Token::LIT_Int(ss) => Some(ss),
            Token::LIT_Real(ss) => Some(ss),
            Token::LIT_String(ss) => Some(ss),
            Token::LIT_RawString(ss) => Some(ss),
            // Documentation comment.
            Token::DocComment(ss) => Some(ss),
            // Punctuation.
            Token::NewLine(ss) => Some(ss),
            Token::LParen(ss) => Some(ss),
            Token::RParen(ss) => Some(ss),
            Token::LSquare(ss) => Some(ss),
            Token::RSquare(ss) => Some(ss),
            Token::LCurly(ss) => Some(ss),
            Token::RCurly(ss) => Some(ss),
            Token::Comma(ss) => Some(ss),
            Token::Colon(ss) => Some(ss),
            Token::At(ss) => Some(ss),
            Token::Period(ss) => Some(ss),
            Token::BackTick(ss) => Some(ss),
            Token::Dollar(ss) => Some(ss),
            // Keywords.
            Token::KEY_Namespace(ss) => Some(ss),
            Token::KEY_Pub(ss) => Some(ss),
            Token::KEY_Unsafe(ss) => Some(ss),
            Token::KEY_Const(ss) => Some(ss),
            Token::KEY_Val(ss) => Some(ss),
            Token::KEY_Var(ss) => Some(ss),
            Token::KEY_Mut(ss) => Some(ss),
            Token::KEY_Ref(ss) => Some(ss),
            Token::KEY_Fn(ss) => Some(ss),
            Token::KEY_Struct(ss) => Some(ss),
            Token::KEY_Enum(ss) => Some(ss),
            Token::KEY_Union(ss) => Some(ss),
            Token::KEY_Trait(ss) => Some(ss),
            Token::KEY_Is(ss) => Some(ss),
            Token::KEY_If(ss) => Some(ss),
            Token::KEY_Else(ss) => Some(ss),
            Token::KEY_Loop(ss) => Some(ss),
            Token::KEY_While(ss) => Some(ss),
            Token::KEY_Until(ss) => Some(ss),
            Token::KEY_For(ss) => Some(ss),
            Token::KEY_In(ss) => Some(ss),
            Token::KEY_Break(ss) => Some(ss),
            Token::KEY_Continue(ss) => Some(ss),
            Token::KEY_Return(ss) => Some(ss),
            Token::KEY_As(ss) => Some(ss),
            Token::KEY_Alias(ss) => Some(ss),
            Token::KEY_Type(ss) => Some(ss),
            // End of input.
            Token::EOF => None,
        }
    }

    /// The token as a line of text: the name of its kind and, where it has a
    /// span, the line and column of the span in square brackets and its text.
    pub open spec fn rendered(&self) -> Seq<char> {
        match self.span_of() {
            Some(ss) => self.kind_of().name() + ": ["@ + decimal(ss.line as nat) + ":"@ + decimal(
                ss.column as nat,
            ) + "]  \t"@ + ss.span@,
            None => self.kind_of().name(),
        }
    }

    /// Writes the token as a line of text.
    pub fn to_string(&self) -> (r: String)
        ensures
            r@ == self.rendered(),
    {
        let mut r = self.kind().label().to_owned();
        if let Some(ss) = self.source_span() {
            r.append(": [");
            r.append(decimal_string(ss.line as u128).as_str());
            r.append(":");
            r.append(decimal_string(ss.column as u128).as_str());
            r.append("]  \t");
            r.append(ss.span);
        }
        r
    }
}

} // verus!
