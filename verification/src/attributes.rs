use vstd::prelude::*;

use crate::ast::Attribute;
use crate::state::State;
use crate::token::Token;
use crate::token::TokenKind;
use crate::token::tok;

verus! {

/// The first position at or after `i` that holds no attribute token.
pub open spec fn spec_attrs_end(toks: Seq<Token>, i: int) -> int
    decreases toks.len() - i,
{
    if tok(toks, i).kind matches TokenKind::Attribute(_) {
        spec_attrs_end(toks, i + 1)
    } else {
        i
    }
}

/// The attributes standing at `i`, in source order.
pub open spec fn spec_gathered_attrs(toks: Seq<Token>, i: int) -> Seq<Attribute>
    decreases toks.len() - i,
{
    let t = tok(toks, i);
    match t.kind {
        TokenKind::Attribute(name) => seq![Attribute { name, span: t.span }] + spec_gathered_attrs(
            toks,
            i + 1,
        ),
        _ => Seq::empty(),
    }
}

/// Gathering never steps backwards.
pub proof fn lemma_attrs_end_ge(toks: Seq<Token>, i: int)
    ensures
        spec_attrs_end(toks, i) >= i,
    decreases toks.len() - i,
{
    if tok(toks, i).kind matches TokenKind::Attribute(_) {
        lemma_attrs_end_ge(toks, i + 1);
    }
}

/// The gathered list is empty exactly when gathering consumed nothing.
pub proof fn lemma_gathered_attrs_len(toks: Seq<Token>, i: int)
    ensures
        spec_gathered_attrs(toks, i).len() > 0 <==> spec_attrs_end(toks, i) > i,
{
    if tok(toks, i).kind matches TokenKind::Attribute(_) {
        lemma_attrs_end_ge(toks, i + 1);
    }
}

/// Consume every attribute group in front of the coming declaration and hand
/// the list back to be threaded into the node it belongs to. The list is
/// empty exactly when no attribute stood here.
pub fn gather_attributes(state: &mut State) -> (attrs: Vec<Attribute>)
    ensures
        final(state).tokens == old(state).tokens,
        final(state).scopes == old(state).scopes,
        final(state).position as int == spec_attrs_end(old(state).tokens@, old(state).position as int),
        attrs@ == spec_gathered_attrs(old(state).tokens@, old(state).position as int),
        final(state).position >= old(state).position,
    decreases state.tokens@.len() - state.position,
{
    let t = state.current();
    match t.kind {
        TokenKind::Attribute(name) => {
            state.advance();
            let mut rest = gather_attributes(state);
            let mut attrs: Vec<Attribute> = Vec::new();
            attrs.push(Attribute { name, span: t.span });
            attrs.append(&mut rest);
            proof {
                assert(attrs@ == spec_gathered_attrs(old(state).tokens@, old(state).position as int));
            }
            attrs
        },
        _ => Vec::new(),
    }
}

} // verus!
