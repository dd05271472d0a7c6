use vstd::prelude::*;

verus! {

/// An interned name handed out by the lexer's symbol table. Rendering a
/// symbol back into source text is the diagnostic layer's concern.
pub type Symbol = u64;

/// A source position attached to every token and produced node.
#[derive(Clone, Copy, PartialEq, Eq, Structural, Debug)]
pub struct Span {
    pub line: usize,
    pub column: usize,
}

/// The kinds of token the lexer produces that this parser reads.
#[derive(Clone, Copy, PartialEq, Eq, Structural, Debug)]
pub enum TokenKind {
    /// A bare identifier such as a constant, case, or method name.
    Identifier(Symbol),
    /// A namespace-qualified identifier, usable wherever a trait name is.
    QualifiedIdentifier(Symbol),
    /// A variable: the property name form `$x`.
    Variable(Symbol),
    /// An integer literal.
    Integer(u64),
    /// One whole attribute group gathered by the lexer.
    Attribute(Symbol),
    Function,
    Const,
    Case,
    Use,
    As,
    Insteadof,
    Public,
    Protected,
    Private,
    Static,
    Abstract,
    Final,
    Readonly,
    /// The callable type keyword, forbidden as a property type.
    Callable,
    /// The bottom type keyword, forbidden as a property type.
    Never,
    True,
    False,
    Null,
    Equals,
    SemiColon,
    Comma,
    LeftBrace,
    RightBrace,
    LeftParen,
    RightParen,
    DoubleColon,
    Eof,
}

/// One lexed token: its kind and where it stands in the source.
#[derive(Clone, Copy, PartialEq, Eq, Structural, Debug)]
pub struct Token {
    pub kind: TokenKind,
    pub span: Span,
}

/// The token a cursor reports once the input is exhausted.
pub open spec fn eof_token() -> Token {
    Token { kind: TokenKind::Eof, span: Span { line: 0, column: 0 } }
}

/// The token at position `i`, with the end-of-input token past either end.
pub open spec fn tok(toks: Seq<Token>, i: int) -> Token {
    if 0 <= i < toks.len() {
        toks[i]
    } else {
        eof_token()
    }
}

} // verus!
