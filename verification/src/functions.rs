use vstd::prelude::*;

use crate::ast::Attribute;
use crate::ast::Method;
use crate::ast::ModifierGroup;
use crate::ast::SpecMethod;
use crate::error::ParseResult;
use crate::identifiers;
use crate::identifiers::spec_ident;
use crate::state::State;
use crate::token::Span;
use crate::token::Token;
use crate::token::TokenKind;
use crate::utils;
use crate::utils::spec_skip;

verus! {

/// What parsing one method at position `i` yields, given the already
/// validated modifiers, the gathered attributes, and the span the member
/// started at. The shape parsed here is the empty one, `function name() {}`;
/// parameter lists and statement bodies belong to the function sub-parser of
/// the surrounding front-end.
pub open spec fn spec_method(
    toks: Seq<Token>,
    i: int,
    modifiers: ModifierGroup,
    attributes: Seq<Attribute>,
    start: Span,
) -> (ParseResult<SpecMethod>, int) {
    let (kw, i1) = spec_skip(toks, i, TokenKind::Function);
    match kw {
        Err(e) => (Err(e), i1),
        Ok(_) => {
            let (nr, i2) = spec_ident(toks, i1);
            match nr {
                Err(e) => (Err(e), i2),
                Ok(name) => {
                    let (lp, i3) = spec_skip(toks, i2, TokenKind::LeftParen);
                    match lp {
                        Err(e) => (Err(e), i3),
                        Ok(_) => {
                            let (rp, i4) = spec_skip(toks, i3, TokenKind::RightParen);
                            match rp {
                                Err(e) => (Err(e), i4),
                                Ok(_) => {
                                    let (lb, i5) = spec_skip(toks, i4, TokenKind::LeftBrace);
                                    match lb {
                                        Err(e) => (Err(e), i5),
                                        Ok(_) => {
                                            let (rb, i6) = spec_skip(toks, i5, TokenKind::RightBrace);
                                            match rb {
                                                Err(e) => (Err(e), i6),
                                                Ok(end) => (
                                                    Ok(
                                                        SpecMethod {
                                                            name,
                                                            modifiers,
                                                            attributes,
                                                            start,
                                                            end,
                                                        },
                                                    ),
                                                    i6,
                                                ),
                                            }
                                        },
                                    }
                                },
                            }
                        },
                    }
                },
            }
        },
    }
}

/// Parse one method with the given validated modifiers and attributes.
pub fn method(
    state: &mut State,
    modifiers: ModifierGroup,
    attributes: Vec<Attribute>,
    start: Span,
) -> (r: ParseResult<Method>)
    ensures
        final(state).tokens == old(state).tokens,
        final(state).scopes == old(state).scopes,
        (crate::ast::res_view(r), final(state).position as int) == spec_method(
            old(state).tokens@,
            old(state).position as int,
            modifiers,
            attributes@,
            start,
        ),
        final(state).position >= old(state).position,
        r is Ok ==> final(state).position > old(state).position,
{
    match utils::skip(state, TokenKind::Function) {
        Err(e) => return Err(e),
        Ok(_) => {},
    }
    let name = match identifiers::ident(state) {
        Err(e) => return Err(e),
        Ok(n) => n,
    };
    match utils::skip(state, TokenKind::LeftParen) {
        Err(e) => return Err(e),
        Ok(_) => {},
    }
    match utils::skip(state, TokenKind::RightParen) {
        Err(e) => return Err(e),
        Ok(_) => {},
    }
    match utils::skip(state, TokenKind::LeftBrace) {
        Err(e) => return Err(e),
        Ok(_) => {},
    }
    let end = match utils::skip(state, TokenKind::RightBrace) {
        Err(e) => return Err(e),
        Ok(s) => s,
    };
    Ok(Method { name, modifiers, attributes, start, end })
}

} // verus!
