use vstd::prelude::*;

use crate::token::Span;
use crate::token::Symbol;
use crate::token::Token;
use crate::token::TokenKind;
use crate::token::tok;

verus! {

/// The scalar backing of a backed enum.
#[derive(Clone, Copy, PartialEq, Eq, Structural, Debug)]
pub enum BackingType {
    Int,
    Str,
}

/// One frame of the scope stack: the class-like construct whose body is
/// currently being parsed. Pushed by the outer header parser on entering a
/// body and popped on leaving it; this parser only reads the innermost frame.
pub enum Scope {
    Class { name: Symbol, extends: Option<Symbol>, implements: Vec<Symbol> },
    Trait { name: Symbol },
    Enum { name: Symbol, backing: Option<BackingType> },
    AnonymousClass { id: u64 },
}

/// The owner a diagnostic names: a named construct, or the fixed rendering
/// used for anonymous classes.
#[derive(Clone, Copy, PartialEq, Eq, Structural, Debug)]
pub enum OwnerName {
    Named(Symbol),
    Anonymous,
}

/// The diagnostic owner name of a class-like scope frame.
pub open spec fn spec_owner_name(s: Scope) -> OwnerName {
    match s {
        Scope::Class { name, .. } => OwnerName::Named(name),
        Scope::Trait { name } => OwnerName::Named(name),
        Scope::Enum { name, .. } => OwnerName::Named(name),
        Scope::AnonymousClass { .. } => OwnerName::Anonymous,
    }
}

/// The name of an enum scope frame.
pub open spec fn spec_enum_name(s: Scope) -> Symbol
    recommends
        s is Enum,
{
    match s {
        Scope::Enum { name, .. } => name,
        _ => arbitrary(),
    }
}

/// The position after consuming the token at `i`: one step, never past the
/// end of the stream.
pub open spec fn spec_next(toks: Seq<Token>, i: int) -> int {
    if 0 <= i < toks.len() {
        i + 1
    } else {
        i
    }
}

/// The parser state: the lexed token stream, a cursor into it, and the stack
/// of enclosing class-like scopes. The scope stack is read-only here.
pub struct State {
    pub tokens: Vec<Token>,
    pub position: usize,
    pub scopes: Vec<Scope>,
}

impl State {
    /// The token under the cursor.
    pub open spec fn spec_current(self) -> Token {
        tok(self.tokens@, self.position as int)
    }

    /// The single lookahead token.
    pub open spec fn spec_peek(self) -> Token {
        tok(self.tokens@, self.position as int + 1)
    }

    /// The innermost scope frame, if any.
    pub open spec fn spec_innermost(self) -> Option<Scope> {
        if self.scopes@.len() > 0 {
            Some(self.scopes@.last())
        } else {
            None
        }
    }

    /// A cursor standing at the first token of `tokens`.
    pub fn new(tokens: Vec<Token>, scopes: Vec<Scope>) -> (s: State)
        ensures
            s.tokens == tokens,
            s.position == 0usize,
            s.scopes == scopes,
    {
        State { tokens, position: 0, scopes }
    }

    pub fn current(&self) -> (t: Token)
        ensures
            t == self.spec_current(),
    {
        if self.position < self.tokens.len() {
            self.tokens[self.position]
        } else {
            Token { kind: TokenKind::Eof, span: Span { line: 0, column: 0 } }
        }
    }

    pub fn peek(&self) -> (t: Token)
        ensures
            t == self.spec_peek(),
    {
        if self.position < self.tokens.len() {
            let next_pos = self.position + 1;
            if next_pos < self.tokens.len() {
                self.tokens[next_pos]
            } else {
                Token { kind: TokenKind::Eof, span: Span { line: 0, column: 0 } }
            }
        } else {
            Token { kind: TokenKind::Eof, span: Span { line: 0, column: 0 } }
        }
    }

    /// The name of the enclosing enum. Standing inside an enum body is the
    /// caller's contract, not a user-facing parse condition.
    pub fn enum_scope_name(&self) -> (name: Symbol)
        requires
            self.scopes@.len() > 0,
            self.scopes@.last() is Enum,
        ensures
            name == spec_enum_name(self.scopes@.last()),
    {
        let i = self.scopes.len() - 1;
        match &self.scopes[i] {
            Scope::Enum { name, .. } => *name,
            _ => unreached(),
        }
    }

    /// The diagnostic owner name of the enclosing scope.
    pub fn owner_name(&self) -> (o: OwnerName)
        requires
            self.scopes@.len() > 0,
        ensures
            o == spec_owner_name(self.scopes@.last()),
    {
        let i = self.scopes.len() - 1;
        match &self.scopes[i] {
            Scope::Class { name, .. } => OwnerName::Named(*name),
            Scope::Trait { name } => OwnerName::Named(*name),
            Scope::Enum { name, .. } => OwnerName::Named(*name),
            Scope::AnonymousClass { .. } => OwnerName::Anonymous,
        }
    }

    /// Advance past the current token; at the end of the stream, stay put.
    pub fn advance(&mut self)
        ensures
            final(self).tokens == old(self).tokens,
            final(self).scopes == old(self).scopes,
            final(self).position == spec_next(old(self).tokens@, old(self).position as int),
    {
        if self.position < self.tokens.len() {
            self.position = self.position + 1;
        }
    }
}

} // verus!
