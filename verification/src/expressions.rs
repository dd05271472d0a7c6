use vstd::prelude::*;

use crate::ast::Expression;
use crate::error::ExpectedSet;
use crate::error::ParseError;
use crate::error::ParseResult;
use crate::state::State;
use crate::state::spec_next;
use crate::token::Token;
use crate::token::TokenKind;
use crate::token::tok;

verus! {

/// What parsing one literal expression at position `i` yields. This stands
/// for the expression grammar at lowest precedence: defaults, constant
/// values, and enum backing values are literals here; the full operator
/// grammar belongs to the surrounding front-end.
pub open spec fn spec_expression(toks: Seq<Token>, i: int) -> (ParseResult<Expression>, int) {
    let t = tok(toks, i);
    match t.kind {
        TokenKind::Integer(value) => (
            Ok(Expression::Integer { value, span: t.span }),
            spec_next(toks, i),
        ),
        TokenKind::True => (Ok(Expression::Bool { value: true, span: t.span }), spec_next(toks, i)),
        TokenKind::False => (
            Ok(Expression::Bool { value: false, span: t.span }),
            spec_next(toks, i),
        ),
        TokenKind::Null => (Ok(Expression::Null { span: t.span }), spec_next(toks, i)),
        _ => (
            Err(ParseError::UnexpectedToken { expected: ExpectedSet::Expression, found: t.kind, span: t.span }),
            i,
        ),
    }
}

/// Parse one expression at lowest precedence.
pub fn expression(state: &mut State) -> (r: ParseResult<Expression>)
    ensures
        final(state).tokens == old(state).tokens,
        final(state).scopes == old(state).scopes,
        (r, final(state).position as int) == spec_expression(
            old(state).tokens@,
            old(state).position as int,
        ),
        final(state).position >= old(state).position,
        r is Ok ==> final(state).position > old(state).position,
{
    let t = state.current();
    match t.kind {
        TokenKind::Integer(value) => {
            state.advance();
            Ok(Expression::Integer { value, span: t.span })
        },
        TokenKind::True => {
            state.advance();
            Ok(Expression::Bool { value: true, span: t.span })
        },
        TokenKind::False => {
            state.advance();
            Ok(Expression::Bool { value: false, span: t.span })
        },
        TokenKind::Null => {
            state.advance();
            Ok(Expression::Null { span: t.span })
        },
        _ => Err(
            ParseError::UnexpectedToken { expected: ExpectedSet::Expression, found: t.kind, span: t.span },
        ),
    }
}

} // verus!
