use vstd::prelude::*;

use crate::error::ExpectedSet;
use crate::error::ParseError;
use crate::error::ParseResult;
use crate::state::State;
use crate::state::spec_next;
use crate::token::Span;
use crate::token::Token;
use crate::token::TokenKind;
use crate::token::tok;

verus! {

/// What expecting `kind` at position `i` yields: the span of the consumed
/// token, or the shared unexpected-token diagnostic, and the next position.
pub open spec fn spec_skip(toks: Seq<Token>, i: int, kind: TokenKind) -> (ParseResult<Span>, int) {
    let t = tok(toks, i);
    if t.kind == kind {
        (Ok(t.span), spec_next(toks, i))
    } else {
        (
            Err(ParseError::UnexpectedToken { expected: ExpectedSet::Token(kind), found: t.kind, span: t.span }),
            i,
        )
    }
}

/// Consume exactly the token kind `kind`, or fail at the current token.
pub fn skip(state: &mut State, kind: TokenKind) -> (r: ParseResult<Span>)
    ensures
        final(state).tokens == old(state).tokens,
        final(state).scopes == old(state).scopes,
        (r, final(state).position as int) == spec_skip(
            old(state).tokens@,
            old(state).position as int,
            kind,
        ),
        final(state).position >= old(state).position,
        r is Ok && kind != TokenKind::Eof ==> final(state).position > old(state).position,
{
    let t = state.current();
    if t.kind == kind {
        state.advance();
        Ok(t.span)
    } else {
        Err(ParseError::UnexpectedToken { expected: ExpectedSet::Token(kind), found: t.kind, span: t.span })
    }
}

/// Consume the statement terminator.
pub fn skip_semicolon(state: &mut State) -> (r: ParseResult<Span>)
    ensures
        final(state).tokens == old(state).tokens,
        final(state).scopes == old(state).scopes,
        (r, final(state).position as int) == spec_skip(
            old(state).tokens@,
            old(state).position as int,
            TokenKind::SemiColon,
        ),
        final(state).position >= old(state).position,
        r is Ok ==> final(state).position > old(state).position,
{
    skip(state, TokenKind::SemiColon)
}

/// Consume the opening brace of a block.
pub fn skip_left_brace(state: &mut State) -> (r: ParseResult<Span>)
    ensures
        final(state).tokens == old(state).tokens,
        final(state).scopes == old(state).scopes,
        (r, final(state).position as int) == spec_skip(
            old(state).tokens@,
            old(state).position as int,
            TokenKind::LeftBrace,
        ),
        final(state).position >= old(state).position,
        r is Ok ==> final(state).position > old(state).position,
{
    skip(state, TokenKind::LeftBrace)
}

/// Consume the closing brace of a block.
pub fn skip_right_brace(state: &mut State) -> (r: ParseResult<Span>)
    ensures
        final(state).tokens == old(state).tokens,
        final(state).scopes == old(state).scopes,
        (r, final(state).position as int) == spec_skip(
            old(state).tokens@,
            old(state).position as int,
            TokenKind::RightBrace,
        ),
        final(state).position >= old(state).position,
        r is Ok ==> final(state).position > old(state).position,
{
    skip(state, TokenKind::RightBrace)
}

} // verus!
