use vstd::prelude::*;

use crate::ast::ModifierGroup;
use crate::ast::ModifierKind;
use crate::ast::RawModifier;
use crate::ast::Visibility;
use crate::error::ParseError;
use crate::error::ParseResult;
use crate::state::State;
use crate::token::Token;
use crate::token::TokenKind;
use crate::token::tok;

verus! {

/// The modifier keyword a token spells, if any.
pub open spec fn spec_modifier_kind(k: TokenKind) -> Option<ModifierKind> {
    match k {
        TokenKind::Public => Some(ModifierKind::Public),
        TokenKind::Protected => Some(ModifierKind::Protected),
        TokenKind::Private => Some(ModifierKind::Private),
        TokenKind::Static => Some(ModifierKind::Static),
        TokenKind::Abstract => Some(ModifierKind::Abstract),
        TokenKind::Final => Some(ModifierKind::Final),
        TokenKind::Readonly => Some(ModifierKind::Readonly),
        _ => None,
    }
}

/// The first position at or after `i` that holds no modifier keyword.
pub open spec fn spec_mods_end(toks: Seq<Token>, i: int) -> int
    decreases toks.len() - i,
{
    if spec_modifier_kind(tok(toks, i).kind) is Some {
        spec_mods_end(toks, i + 1)
    } else {
        i
    }
}

/// The raw modifiers standing at `i`, in source order.
pub open spec fn spec_collected_mods(toks: Seq<Token>, i: int) -> Seq<RawModifier>
    decreases toks.len() - i,
{
    let t = tok(toks, i);
    match spec_modifier_kind(t.kind) {
        Some(kind) => seq![RawModifier { kind, span: t.span }] + spec_collected_mods(toks, i + 1),
        None => Seq::empty(),
    }
}

/// Collect every modifier keyword in front of the coming member. Legality of
/// the combination is the validators' concern, not the collector's.
pub fn collect(state: &mut State) -> (mods: Vec<RawModifier>)
    ensures
        final(state).tokens == old(state).tokens,
        final(state).scopes == old(state).scopes,
        final(state).position as int == spec_mods_end(old(state).tokens@, old(state).position as int),
        mods@ == spec_collected_mods(old(state).tokens@, old(state).position as int),
        final(state).position >= old(state).position,
    decreases state.tokens@.len() - state.position,
{
    let t = state.current();
    let kind_opt = match t.kind {
        TokenKind::Public => Some(ModifierKind::Public),
        TokenKind::Protected => Some(ModifierKind::Protected),
        TokenKind::Private => Some(ModifierKind::Private),
        TokenKind::Static => Some(ModifierKind::Static),
        TokenKind::Abstract => Some(ModifierKind::Abstract),
        TokenKind::Final => Some(ModifierKind::Final),
        TokenKind::Readonly => Some(ModifierKind::Readonly),
        _ => None,
    };
    match kind_opt {
        Some(kind) => {
            state.advance();
            let mut rest = collect(state);
            let mut mods: Vec<RawModifier> = Vec::new();
            mods.push(RawModifier { kind, span: t.span });
            mods.append(&mut rest);
            proof {
                assert(mods@ == spec_collected_mods(old(state).tokens@, old(state).position as int));
            }
            mods
        },
        None => Vec::new(),
    }
}

/// Which modifier keywords one construct accepts.
#[derive(Clone, Copy, PartialEq, Eq, Debug)]
pub struct ModifierPolicy {
    pub allows_visibility: bool,
    pub allows_static: bool,
    pub allows_abstract: bool,
    pub allows_final: bool,
    pub allows_readonly: bool,
}

/// A group with nothing set: what a bare declaration carries.
pub open spec fn spec_empty_group() -> ModifierGroup {
    ModifierGroup {
        visibility: None,
        is_static: false,
        is_abstract: false,
        is_final: false,
        is_readonly: false,
    }
}

/// Fold one raw modifier into a group under a policy: refuse a modifier the
/// construct does not accept, a second visibility, or a repeated keyword.
pub open spec fn spec_apply_modifier(
    policy: ModifierPolicy,
    acc: ModifierGroup,
    m: RawModifier,
) -> ParseResult<ModifierGroup> {
    match m.kind {
        ModifierKind::Public => spec_apply_visibility(policy, acc, Visibility::Public, m),
        ModifierKind::Protected => spec_apply_visibility(policy, acc, Visibility::Protected, m),
        ModifierKind::Private => spec_apply_visibility(policy, acc, Visibility::Private, m),
        ModifierKind::Static => if !policy.allows_static {
            Err(ParseError::CannotUseModifier { modifier: m.kind, span: m.span })
        } else if acc.is_static {
            Err(ParseError::DuplicateModifier { modifier: m.kind, span: m.span })
        } else {
            Ok(ModifierGroup { is_static: true, ..acc })
        },
        ModifierKind::Abstract => if !policy.allows_abstract {
            Err(ParseError::CannotUseModifier { modifier: m.kind, span: m.span })
        } else if acc.is_abstract {
            Err(ParseError::DuplicateModifier { modifier: m.kind, span: m.span })
        } else {
            Ok(ModifierGroup { is_abstract: true, ..acc })
        },
        ModifierKind::Final => if !policy.allows_final {
            Err(ParseError::CannotUseModifier { modifier: m.kind, span: m.span })
        } else if acc.is_final {
            Err(ParseError::DuplicateModifier { modifier: m.kind, span: m.span })
        } else {
            Ok(ModifierGroup { is_final: true, ..acc })
        },
        ModifierKind::Readonly => if !policy.allows_readonly {
            Err(ParseError::CannotUseModifier { modifier: m.kind, span: m.span })
        } else if acc.is_readonly {
            Err(ParseError::DuplicateModifier { modifier: m.kind, span: m.span })
        } else {
            Ok(ModifierGroup { is_readonly: true, ..acc })
        },
    }
}

/// Fold one visibility keyword into a group: at most one may appear.
pub open spec fn spec_apply_visibility(
    policy: ModifierPolicy,
    acc: ModifierGroup,
    v: Visibility,
    m: RawModifier,
) -> ParseResult<ModifierGroup> {
    if !policy.allows_visibility {
        Err(ParseError::CannotUseModifier { modifier: m.kind, span: m.span })
    } else if acc.visibility is Some {
        Err(ParseError::MultipleVisibilityModifiers { span: m.span })
    } else {
        Ok(ModifierGroup { visibility: Some(v), ..acc })
    }
}

/// The left fold of a raw modifier list under a policy, from position `i`.
pub open spec fn spec_validate_from(
    policy: ModifierPolicy,
    mods: Seq<RawModifier>,
    i: int,
    acc: ModifierGroup,
) -> ParseResult<ModifierGroup>
    decreases mods.len() - i,
{
    if i < 0 || i >= mods.len() {
        Ok(acc)
    } else {
        match spec_apply_modifier(policy, acc, mods[i]) {
            Ok(next) => spec_validate_from(policy, mods, i + 1, next),
            Err(e) => Err(e),
        }
    }
}

/// The validated group a raw modifier list yields under a policy.
pub open spec fn spec_validate(policy: ModifierPolicy, mods: Seq<RawModifier>) -> ParseResult<
    ModifierGroup,
> {
    spec_validate_from(policy, mods, 0, spec_empty_group())
}

fn apply_modifier(policy: ModifierPolicy, acc: ModifierGroup, m: RawModifier) -> (r: ParseResult<
    ModifierGroup,
>)
    ensures
        r == spec_apply_modifier(policy, acc, m),
{
    let visibility = match m.kind {
        ModifierKind::Public => Some(Visibility::Public),
        ModifierKind::Protected => Some(Visibility::Protected),
        ModifierKind::Private => Some(Visibility::Private),
        _ => None,
    };
    match visibility {
        Some(v) => {
            if !policy.allows_visibility {
                Err(ParseError::CannotUseModifier { modifier: m.kind, span: m.span })
            } else if acc.visibility.is_some() {
                Err(ParseError::MultipleVisibilityModifiers { span: m.span })
            } else {
                Ok(ModifierGroup { visibility: Some(v), ..acc })
            }
        },
        None => {
            let allowed = match m.kind {
                ModifierKind::Static => policy.allows_static,
                ModifierKind::Abstract => policy.allows_abstract,
                ModifierKind::Final => policy.allows_final,
                _ => policy.allows_readonly,
            };
            let already = match m.kind {
                ModifierKind::Static => acc.is_static,
                ModifierKind::Abstract => acc.is_abstract,
                ModifierKind::Final => acc.is_final,
                _ => acc.is_readonly,
            };
            if !allowed {
                Err(ParseError::CannotUseModifier { modifier: m.kind, span: m.span })
            } else if already {
                Err(ParseError::DuplicateModifier { modifier: m.kind, span: m.span })
            } else {
                match m.kind {
                    ModifierKind::Static => Ok(ModifierGroup { is_static: true, ..acc }),
                    ModifierKind::Abstract => Ok(ModifierGroup { is_abstract: true, ..acc }),
                    ModifierKind::Final => Ok(ModifierGroup { is_final: true, ..acc }),
                    _ => Ok(ModifierGroup { is_readonly: true, ..acc }),
                }
            }
        },
    }
}

/// Validate a raw modifier list under one construct's policy.
fn validate(policy: ModifierPolicy, mods: &Vec<RawModifier>) -> (r: ParseResult<ModifierGroup>)
    ensures
        r == spec_validate(policy, mods@),
{
    let mut acc = ModifierGroup {
        visibility: None,
        is_static: false,
        is_abstract: false,
        is_final: false,
        is_readonly: false,
    };
    let mut i: usize = 0;
    while i < mods.len()
        invariant
            0 <= i <= mods@.len(),
            spec_validate(policy, mods@) == spec_validate_from(policy, mods@, i as int, acc),
        decreases mods@.len() - i,
    {
        match apply_modifier(policy, acc, mods[i]) {
            Ok(next) => {
                acc = next;
            },
            Err(e) => {
                return Err(e);
            },
        }
        i = i + 1;
    }
    Ok(acc)
}

/// Validate modifiers for an interface method: visibility and static.
pub fn interface_method_group(mods: Vec<RawModifier>) -> (r: ParseResult<ModifierGroup>)
    ensures
        r == spec_interface_method_group(mods@),
{
    validate(
        ModifierPolicy {
            allows_visibility: true,
            allows_static: true,
            allows_abstract: false,
            allows_final: false,
            allows_readonly: false,
        },
        &mods,
    )
}

/// What interface-method validation yields.
pub open spec fn spec_interface_method_group(mods: Seq<RawModifier>) -> ParseResult<ModifierGroup> {
    spec_validate(
        ModifierPolicy {
            allows_visibility: true,
            allows_static: true,
            allows_abstract: false,
            allows_final: false,
            allows_readonly: false,
        },
        mods,
    )
}

/// Validate modifiers for an interface constant: visibility and final.
pub fn interface_constant_group(mods: Vec<RawModifier>) -> (r: ParseResult<ModifierGroup>)
    ensures
        r == spec_interface_constant_group(mods@),
{
    validate(
        ModifierPolicy {
            allows_visibility: true,
            allows_static: false,
            allows_abstract: false,
            allows_final: true,
            allows_readonly: false,
        },
        &mods,
    )
}

/// What interface-constant validation yields.
pub open spec fn spec_interface_constant_group(mods: Seq<RawModifier>) -> ParseResult<
    ModifierGroup,
> {
    spec_validate(
        ModifierPolicy {
            allows_visibility: true,
            allows_static: false,
            allows_abstract: false,
            allows_final: true,
            allows_readonly: false,
        },
        mods,
    )
}

/// Validate modifiers for an enum method: visibility, static, and final.
pub fn enum_method_group(mods: Vec<RawModifier>) -> (r: ParseResult<ModifierGroup>)
    ensures
        r == spec_enum_method_group(mods@),
{
    validate(
        ModifierPolicy {
            allows_visibility: true,
            allows_static: true,
            allows_abstract: false,
            allows_final: true,
            allows_readonly: false,
        },
        &mods,
    )
}

/// What enum-method validation yields.
pub open spec fn spec_enum_method_group(mods: Seq<RawModifier>) -> ParseResult<ModifierGroup> {
    spec_validate(
        ModifierPolicy {
            allows_visibility: true,
            allows_static: true,
            allows_abstract: false,
            allows_final: true,
            allows_readonly: false,
        },
        mods,
    )
}

/// Validate modifiers for a class or enum constant: visibility and final.
pub fn constant_group(mods: Vec<RawModifier>) -> (r: ParseResult<ModifierGroup>)
    ensures
        r == spec_constant_group(mods@),
{
    validate(
        ModifierPolicy {
            allows_visibility: true,
            allows_static: false,
            allows_abstract: false,
            allows_final: true,
            allows_readonly: false,
        },
        &mods,
    )
}

/// What generic-constant validation yields.
pub open spec fn spec_constant_group(mods: Seq<RawModifier>) -> ParseResult<ModifierGroup> {
    spec_validate(
        ModifierPolicy {
            allows_visibility: true,
            allows_static: false,
            allows_abstract: false,
            allows_final: true,
            allows_readonly: false,
        },
        mods,
    )
}

/// Validate modifiers for a class method: visibility, static, abstract, final.
pub fn method_group(mods: Vec<RawModifier>) -> (r: ParseResult<ModifierGroup>)
    ensures
        r == spec_method_group(mods@),
{
    validate(
        ModifierPolicy {
            allows_visibility: true,
            allows_static: true,
            allows_abstract: true,
            allows_final: true,
            allows_readonly: false,
        },
        &mods,
    )
}

/// What class-method validation yields.
pub open spec fn spec_method_group(mods: Seq<RawModifier>) -> ParseResult<ModifierGroup> {
    spec_validate(
        ModifierPolicy {
            allows_visibility: true,
            allows_static: true,
            allows_abstract: true,
            allows_final: true,
            allows_readonly: false,
        },
        mods,
    )
}

/// Validate modifiers for a property: visibility, static, and readonly. The
/// readonly/static conflict is the member parser's own check, made after the
/// declaration is parsed far enough to name the property.
pub fn property_group(mods: Vec<RawModifier>) -> (r: ParseResult<ModifierGroup>)
    ensures
        r == spec_property_group(mods@),
{
    validate(
        ModifierPolicy {
            allows_visibility: true,
            allows_static: true,
            allows_abstract: false,
            allows_final: false,
            allows_readonly: true,
        },
        &mods,
    )
}

/// What property validation yields.
pub open spec fn spec_property_group(mods: Seq<RawModifier>) -> ParseResult<ModifierGroup> {
    spec_validate(
        ModifierPolicy {
            allows_visibility: true,
            allows_static: true,
            allows_abstract: false,
            allows_final: false,
            allows_readonly: true,
        },
        mods,
    )
}

} // verus!
