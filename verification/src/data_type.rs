use vstd::prelude::*;

use crate::ast::DataType;
use crate::ast::spec_includes_callable;
use crate::ast::spec_is_bottom;
use crate::state::State;
use crate::state::spec_next;
use crate::token::Token;
use crate::token::TokenKind;
use crate::token::tok;

verus! {

/// What parsing zero or one type annotation at position `i` yields. A token
/// that cannot start a type is simply not consumed.
pub open spec fn spec_optional_data_type(toks: Seq<Token>, i: int) -> (Option<DataType>, int) {
    let t = tok(toks, i);
    match t.kind {
        TokenKind::Identifier(name) => (
            Some(DataType::Named { name, span: t.span }),
            spec_next(toks, i),
        ),
        TokenKind::Callable => (Some(DataType::Callable { span: t.span }), spec_next(toks, i)),
        TokenKind::Never => (Some(DataType::Never { span: t.span }), spec_next(toks, i)),
        _ => (None, i),
    }
}

/// Parse an optional type annotation in front of a property name.
pub fn optional_data_type(state: &mut State) -> (r: Option<DataType>)
    ensures
        final(state).tokens == old(state).tokens,
        final(state).scopes == old(state).scopes,
        (r, final(state).position as int) == spec_optional_data_type(
            old(state).tokens@,
            old(state).position as int,
        ),
        final(state).position >= old(state).position,
{
    let t = state.current();
    match t.kind {
        TokenKind::Identifier(name) => {
            state.advance();
            Some(DataType::Named { name, span: t.span })
        },
        TokenKind::Callable => {
            state.advance();
            Some(DataType::Callable { span: t.span })
        },
        TokenKind::Never => {
            state.advance();
            Some(DataType::Never { span: t.span })
        },
        _ => None,
    }
}

/// Whether a declared type has a callable shape.
pub fn includes_callable(t: &DataType) -> (r: bool)
    ensures
        r == spec_includes_callable(*t),
{
    match t {
        DataType::Callable { .. } => true,
        _ => false,
    }
}

/// Whether a declared type is the bottom type.
pub fn is_bottom(t: &DataType) -> (r: bool)
    ensures
        r == spec_is_bottom(*t),
{
    match t {
        DataType::Never { .. } => true,
        _ => false,
    }
}

} // verus!
