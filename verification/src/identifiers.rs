use vstd::prelude::*;

use crate::ast::Identifier;
use crate::error::ExpectedSet;
use crate::error::ParseError;
use crate::error::ParseResult;
use crate::state::State;
use crate::state::spec_next;
use crate::token::Token;
use crate::token::TokenKind;
use crate::token::tok;

verus! {

/// What parsing a bare identifier at position `i` yields.
pub open spec fn spec_ident(toks: Seq<Token>, i: int) -> (ParseResult<Identifier>, int) {
    let t = tok(toks, i);
    match t.kind {
        TokenKind::Identifier(name) => (
            Ok(Identifier { span: t.span, name }),
            spec_next(toks, i),
        ),
        _ => (
            Err(ParseError::UnexpectedToken { expected: ExpectedSet::Identifier, found: t.kind, span: t.span }),
            i,
        ),
    }
}

/// What parsing a variable name at position `i` yields.
pub open spec fn spec_var(toks: Seq<Token>, i: int) -> (ParseResult<Identifier>, int) {
    let t = tok(toks, i);
    match t.kind {
        TokenKind::Variable(name) => (
            Ok(Identifier { span: t.span, name }),
            spec_next(toks, i),
        ),
        _ => (
            Err(ParseError::UnexpectedToken { expected: ExpectedSet::Variable, found: t.kind, span: t.span }),
            i,
        ),
    }
}

/// What parsing a possibly-qualified name at position `i` yields.
pub open spec fn spec_full_name(toks: Seq<Token>, i: int) -> (ParseResult<Identifier>, int) {
    let t = tok(toks, i);
    match t.kind {
        TokenKind::Identifier(name) => (
            Ok(Identifier { span: t.span, name }),
            spec_next(toks, i),
        ),
        TokenKind::QualifiedIdentifier(name) => (
            Ok(Identifier { span: t.span, name }),
            spec_next(toks, i),
        ),
        _ => (
            Err(ParseError::UnexpectedToken { expected: ExpectedSet::FullName, found: t.kind, span: t.span }),
            i,
        ),
    }
}

/// Parse a bare identifier: a constant, case, method, or alias name.
pub fn ident(state: &mut State) -> (r: ParseResult<Identifier>)
    ensures
        final(state).tokens == old(state).tokens,
        final(state).scopes == old(state).scopes,
        (r, final(state).position as int) == spec_ident(old(state).tokens@, old(state).position as int),
        final(state).position >= old(state).position,
        r is Ok ==> final(state).position > old(state).position,
{
    let t = state.current();
    match t.kind {
        TokenKind::Identifier(name) => {
            state.advance();
            Ok(Identifier { span: t.span, name })
        },
        _ => Err(
            ParseError::UnexpectedToken { expected: ExpectedSet::Identifier, found: t.kind, span: t.span },
        ),
    }
}

/// Parse a variable name: the `$x` form a property is declared with.
pub fn var(state: &mut State) -> (r: ParseResult<Identifier>)
    ensures
        final(state).tokens == old(state).tokens,
        final(state).scopes == old(state).scopes,
        (r, final(state).position as int) == spec_var(old(state).tokens@, old(state).position as int),
        final(state).position >= old(state).position,
        r is Ok ==> final(state).position > old(state).position,
{
    let t = state.current();
    match t.kind {
        TokenKind::Variable(name) => {
            state.advance();
            Ok(Identifier { span: t.span, name })
        },
        _ => Err(
            ParseError::UnexpectedToken { expected: ExpectedSet::Variable, found: t.kind, span: t.span },
        ),
    }
}

/// Parse a possibly-qualified name: a trait name in a use list.
pub fn full_name(state: &mut State) -> (r: ParseResult<Identifier>)
    ensures
        final(state).tokens == old(state).tokens,
        final(state).scopes == old(state).scopes,
        (r, final(state).position as int) == spec_full_name(old(state).tokens@, old(state).position as int),
        final(state).position >= old(state).position,
        r is Ok ==> final(state).position > old(state).position,
{
    let t = state.current();
    match t.kind {
        TokenKind::Identifier(name) => {
            state.advance();
            Ok(Identifier { span: t.span, name })
        },
        TokenKind::QualifiedIdentifier(name) => {
            state.advance();
            Ok(Identifier { span: t.span, name })
        },
        _ => Err(
            ParseError::UnexpectedToken { expected: ExpectedSet::FullName, found: t.kind, span: t.span },
        ),
    }
}

} // verus!
