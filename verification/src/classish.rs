use vstd::prelude::*;

use crate::ast::Attribute;
use crate::ast::BackedEnumCase;
use crate::ast::BackedEnumMember;
use crate::ast::ClassishConstant;
use crate::ast::Expression;
use crate::ast::Identifier;
use crate::ast::ModifierGroup;
use crate::ast::RawModifier;
use crate::ast::SpecBackedEnumMember;
use crate::ast::SpecStatement;
use crate::ast::SpecTraitAdaptation;
use crate::ast::SpecUnitEnumMember;
use crate::ast::Statement;
use crate::ast::TraitAdaptation;
use crate::ast::UnitEnumCase;
use crate::ast::UnitEnumMember;
use crate::ast::VisibilityModifier;
use crate::ast::DataType;
use crate::ast::res_view;
use crate::ast::spec_includes_callable;
use crate::ast::spec_is_bottom;
use crate::attributes;
use crate::data_type;
use crate::data_type::spec_optional_data_type;
use crate::attributes::spec_attrs_end;
use crate::attributes::spec_gathered_attrs;
use crate::error::ExpectedSet;
use crate::error::ParseError;
use crate::error::ParseResult;
use crate::expressions;
use crate::expressions::spec_expression;
use crate::functions;
use crate::functions::spec_method;
use crate::identifiers;
use crate::identifiers::spec_full_name;
use crate::identifiers::spec_ident;
use crate::identifiers::spec_var;
use crate::modifiers;
use crate::modifiers::spec_collected_mods;
use crate::modifiers::spec_constant_group;
use crate::modifiers::spec_enum_method_group;
use crate::modifiers::spec_interface_constant_group;
use crate::modifiers::spec_interface_method_group;
use crate::modifiers::spec_method_group;
use crate::modifiers::spec_mods_end;
use crate::modifiers::spec_property_group;
use crate::state::OwnerName;
use crate::state::Scope;
use crate::state::State;
use crate::state::spec_enum_name;
use crate::state::spec_owner_name;
use crate::state::spec_next;
use crate::token::Span;
use crate::token::Symbol;
use crate::token::Token;
use crate::token::TokenKind;
use crate::token::tok;
use crate::utils;
use crate::utils::spec_skip;

verus! {

/// What the shared constant helper yields at position `i`: the keyword under
/// the cursor is consumed, then exactly one name, `=`, one expression at
/// lowest precedence, and the terminator. The node's span runs from the
/// member's first token through the terminator.
pub open spec fn spec_constant(
    toks: Seq<Token>,
    i: int,
    modifiers: ModifierGroup,
    start: Span,
) -> (ParseResult<ClassishConstant>, int) {
    let i1 = spec_next(toks, i);
    let (nr, i2) = spec_ident(toks, i1);
    match nr {
        Err(e) => (Err(e), i2),
        Ok(name) => {
            let (eq, i3) = spec_skip(toks, i2, TokenKind::Equals);
            match eq {
                Err(e) => (Err(e), i3),
                Ok(_) => {
                    let (vr, i4) = spec_expression(toks, i3);
                    match vr {
                        Err(e) => (Err(e), i4),
                        Ok(value) => {
                            let (sr, i5) = spec_skip(toks, i4, TokenKind::SemiColon);
                            match sr {
                                Err(e) => (Err(e), i5),
                                Ok(end) => (
                                    Ok(ClassishConstant { start, end, name, value, modifiers }),
                                    i5,
                                ),
                            }
                        },
                    }
                },
            }
        },
    }
}

/// Parse one class-like constant with its already validated modifiers.
/// Multi-name constant lists are the caller's loop, not this helper's.
pub fn constant(state: &mut State, modifiers: ModifierGroup, start: Span) -> (r: ParseResult<
    ClassishConstant,
>)
    ensures
        final(state).tokens == old(state).tokens,
        final(state).scopes == old(state).scopes,
        (r, final(state).position as int) == spec_constant(
            old(state).tokens@,
            old(state).position as int,
            modifiers,
            start,
        ),
        final(state).position >= old(state).position,
{
    state.advance();
    let name = match identifiers::ident(state) {
        Err(e) => return Err(e),
        Ok(n) => n,
    };
    match utils::skip(state, TokenKind::Equals) {
        Err(e) => return Err(e),
        Ok(_) => {},
    }
    let value = match expressions::expression(state) {
        Err(e) => return Err(e),
        Ok(v) => v,
    };
    let end = match utils::skip_semicolon(state) {
        Err(e) => return Err(e),
        Ok(s) => s,
    };
    Ok(ClassishConstant { start, end, name, value, modifiers })
}

/// The interface method branch: the interface-method modifier rules
/// applied, then the method sub-parser, its result wrapped as a member.
pub open spec fn spec_method_path(
    toks: Seq<Token>,
    i: int,
    raw: Seq<RawModifier>,
    attrs: Seq<Attribute>,
    start: Span,
) -> (ParseResult<SpecStatement>, int) {
    match spec_interface_method_group(raw) {
        Err(e) => (Err(e), i),
        Ok(group) => {
            let (mr, n) = spec_method(toks, i, group, attrs, start);
            match mr {
                Err(e) => (Err(e), n),
                Ok(m) => (Ok(SpecStatement::Method(m)), n),
            }
        },
    }
}

/// What parsing one interface member at position `i` yields. Attributes are
/// consumed either way; a member with attributes, or one whose keyword after
/// the modifiers introduces a function, is a method under interface-method
/// modifier rules, and anything else is a constant under interface-constant
/// rules.
pub open spec fn spec_interface_statement(toks: Seq<Token>, i: int) -> (ParseResult<
    SpecStatement,
>, int) {
    let attrs = spec_gathered_attrs(toks, i);
    let a_end = spec_attrs_end(toks, i);
    let has_attributes = a_end > i;
    let start = tok(toks, a_end).span;
    let raw = spec_collected_mods(toks, a_end);
    let m_end = spec_mods_end(toks, a_end);
    if has_attributes || tok(toks, m_end).kind == TokenKind::Function {
        spec_method_path(toks, m_end, raw, attrs, start)
    } else {
        match spec_interface_constant_group(raw) {
            Err(e) => (Err(e), m_end),
            Ok(group) => {
                let (cr, n) = spec_constant(toks, m_end, group, start);
                match cr {
                    Err(e) => (Err(e), n),
                    Ok(c) => (Ok(SpecStatement::ClassishConstant(c)), n),
                }
            },
        }
    }
}

/// Parse one interface member: a method or a constant.
pub fn interface_statement(state: &mut State) -> (r: ParseResult<Statement>)
    ensures
        final(state).tokens == old(state).tokens,
        final(state).scopes == old(state).scopes,
        (res_view(r), final(state).position as int) == spec_interface_statement(
            old(state).tokens@,
            old(state).position as int,
        ),
        final(state).position >= old(state).position,
{
    let attrs = attributes::gather_attributes(state);
    proof {
        attributes::lemma_gathered_attrs_len(old(state).tokens@, old(state).position as int);
    }
    let has_attributes = attrs.len() > 0;
    let start = state.current().span;
    let raw = modifiers::collect(state);

    // a member with attributes is a method even where a constant keyword follows
    if has_attributes || state.current().kind == TokenKind::Function {
        let group = match modifiers::interface_method_group(raw) {
            Err(e) => return Err(e),
            Ok(g) => g,
        };
        match functions::method(state, group, attrs, start) {
            Err(e) => Err(e),
            Ok(m) => Ok(Statement::Method(m)),
        }
    } else {
        let group = match modifiers::interface_constant_group(raw) {
            Err(e) => return Err(e),
            Ok(g) => g,
        };
        match constant(state, group, start) {
            Err(e) => Err(e),
            Ok(c) => Ok(Statement::ClassishConstant(c)),
        }
    }
}

/// Whether the cases of the enclosing enum must or must never carry a value.
#[derive(Clone, Copy, PartialEq, Eq, Debug)]
pub enum CaseValuePolicy {
    /// A unit enum: an explicit value is a grammar violation.
    Forbidden,
    /// A backed enum: a missing value is a grammar violation.
    Required,
}

/// What one parsed `case` declaration carries before it is wrapped into the
/// member union of its enum flavour.
#[derive(Clone, Copy, PartialEq, Eq, Debug)]
pub struct EnumCaseParts {
    pub start: Span,
    pub end: Span,
    pub name: Identifier,
    pub value: Option<Expression>,
}

/// What parsing one enum case at position `i` yields, with the cursor on the
/// `case` keyword. The two enum flavours differ only in the value policy:
/// a unit enum refuses an `=` after the name, a backed enum demands one.
/// Either violation names the case and the enclosing enum.
pub open spec fn spec_enum_case(
    toks: Seq<Token>,
    i: int,
    enum_name: Symbol,
    policy: CaseValuePolicy,
) -> (ParseResult<EnumCaseParts>, int) {
    let start = tok(toks, i).span;
    let j = spec_next(toks, i);
    let (nr, k) = spec_ident(toks, j);
    match nr {
        Err(e) => (Err(e), k),
        Ok(name) => match policy {
            CaseValuePolicy::Forbidden => {
                if tok(toks, k).kind == TokenKind::Equals {
                    (
                        Err(
                            ParseError::CaseValueForUnitEnum {
                                case: name.name,
                                enum_name,
                                span: tok(toks, k).span,
                            },
                        ),
                        k,
                    )
                } else {
                    let (sr, m) = spec_skip(toks, k, TokenKind::SemiColon);
                    match sr {
                        Err(e) => (Err(e), m),
                        Ok(end) => (Ok(EnumCaseParts { start, end, name, value: None }), m),
                    }
                }
            },
            CaseValuePolicy::Required => {
                if tok(toks, k).kind == TokenKind::SemiColon {
                    (
                        Err(
                            ParseError::MissingCaseValueForBackedEnum {
                                case: name.name,
                                enum_name,
                                span: tok(toks, k).span,
                            },
                        ),
                        k,
                    )
                } else {
                    let (eq, m1) = spec_skip(toks, k, TokenKind::Equals);
                    match eq {
                        Err(e) => (Err(e), m1),
                        Ok(_) => {
                            let (vr, m2) = spec_expression(toks, m1);
                            match vr {
                                Err(e) => (Err(e), m2),
                                Ok(v) => {
                                    let (sr, m3) = spec_skip(toks, m2, TokenKind::SemiColon);
                                    match sr {
                                        Err(e) => (Err(e), m3),
                                        Ok(end) => (
                                            Ok(EnumCaseParts { start, end, name, value: Some(v) }),
                                            m3,
                                        ),
                                    }
                                },
                            }
                        },
                    }
                }
            },
        },
    }
}

/// Parse one enum case under the given value policy, with the cursor on the
/// `case` keyword.
fn enum_case(state: &mut State, enum_name: Symbol, policy: CaseValuePolicy) -> (r: ParseResult<
    EnumCaseParts,
>)
    ensures
        final(state).tokens == old(state).tokens,
        final(state).scopes == old(state).scopes,
        (r, final(state).position as int) == spec_enum_case(
            old(state).tokens@,
            old(state).position as int,
            enum_name,
            policy,
        ),
        final(state).position >= old(state).position,
{
    let start = state.current().span;
    state.advance();
    let name = match identifiers::ident(state) {
        Err(e) => return Err(e),
        Ok(n) => n,
    };
    match policy {
        CaseValuePolicy::Forbidden => {
            if state.current().kind == TokenKind::Equals {
                return Err(
                    ParseError::CaseValueForUnitEnum {
                        case: name.name,
                        enum_name,
                        span: state.current().span,
                    },
                );
            }
            let end = match utils::skip_semicolon(state) {
                Err(e) => return Err(e),
                Ok(s) => s,
            };
            Ok(EnumCaseParts { start, end, name, value: None })
        },
        CaseValuePolicy::Required => {
            if state.current().kind == TokenKind::SemiColon {
                return Err(
                    ParseError::MissingCaseValueForBackedEnum {
                        case: name.name,
                        enum_name,
                        span: state.current().span,
                    },
                );
            }
            match utils::skip(state, TokenKind::Equals) {
                Err(e) => return Err(e),
                Ok(_) => {},
            }
            let value = match expressions::expression(state) {
                Err(e) => return Err(e),
                Ok(v) => v,
            };
            let end = match utils::skip_semicolon(state) {
                Err(e) => return Err(e),
                Ok(s) => s,
            };
            Ok(EnumCaseParts { start, end, name, value: Some(value) })
        },
    }
}

/// What parsing one unit-enum member at position `i` yields, inside the enum
/// named `enum_name`. A bare `case` keyword (no attributes in front) starts a
/// case, which must not carry a value; anything else falls through to the
/// same method-or-constant dispatch an interface body uses, under enum-method
/// and generic-constant modifier rules.
pub open spec fn spec_unit_enum_member(toks: Seq<Token>, i: int, enum_name: Symbol) -> (ParseResult<
    SpecUnitEnumMember,
>, int) {
    let attrs = spec_gathered_attrs(toks, i);
    let a_end = spec_attrs_end(toks, i);
    let has_attributes = a_end > i;
    if !has_attributes && tok(toks, a_end).kind == TokenKind::Case {
        let (cr, n) = spec_enum_case(toks, a_end, enum_name, CaseValuePolicy::Forbidden);
        match cr {
            Err(e) => (Err(e), n),
            Ok(p) => (
                Ok(SpecUnitEnumMember::Case(UnitEnumCase { start: p.start, end: p.end, name: p.name })),
                n,
            ),
        }
    } else {
        let start = tok(toks, a_end).span;
        let raw = spec_collected_mods(toks, a_end);
        let m_end = spec_mods_end(toks, a_end);
        if has_attributes || tok(toks, m_end).kind == TokenKind::Function {
            match spec_enum_method_group(raw) {
                Err(e) => (Err(e), m_end),
                Ok(group) => {
                    let (mr, n) = spec_method(toks, m_end, group, attrs, start);
                    match mr {
                        Err(e) => (Err(e), n),
                        Ok(m) => (Ok(SpecUnitEnumMember::Method(m)), n),
                    }
                },
            }
        } else {
            match spec_constant_group(raw) {
                Err(e) => (Err(e), m_end),
                Ok(group) => {
                    let (cr, n) = spec_constant(toks, m_end, group, start);
                    match cr {
                        Err(e) => (Err(e), n),
                        Ok(c) => (Ok(SpecUnitEnumMember::Constant(c)), n),
                    }
                },
            }
        }
    }
}

/// Parse one unit-enum member: a valueless case, a method, or a constant.
/// Standing inside an enum body is the caller's contract.
pub fn unit_enum_member(state: &mut State) -> (r: ParseResult<UnitEnumMember>)
    requires
        old(state).scopes@.len() > 0,
        old(state).scopes@.last() is Enum,
    ensures
        final(state).tokens == old(state).tokens,
        final(state).scopes == old(state).scopes,
        (res_view(r), final(state).position as int) == spec_unit_enum_member(
            old(state).tokens@,
            old(state).position as int,
            spec_enum_name(old(state).scopes@.last()),
        ),
        final(state).position >= old(state).position,
{
    let enum_name = state.enum_scope_name();
    let attrs = attributes::gather_attributes(state);
    proof {
        attributes::lemma_gathered_attrs_len(old(state).tokens@, old(state).position as int);
    }
    let has_attributes = attrs.len() > 0;

    if !has_attributes && state.current().kind == TokenKind::Case {
        return match enum_case(state, enum_name, CaseValuePolicy::Forbidden) {
            Err(e) => Err(e),
            Ok(p) => Ok(UnitEnumMember::Case(UnitEnumCase { start: p.start, end: p.end, name: p.name })),
        };
    }

    let start = state.current().span;
    let raw = modifiers::collect(state);

    // a member with attributes is a method even where a constant keyword follows
    if has_attributes || state.current().kind == TokenKind::Function {
        let group = match modifiers::enum_method_group(raw) {
            Err(e) => return Err(e),
            Ok(g) => g,
        };
        match functions::method(state, group, attrs, start) {
            Err(e) => Err(e),
            Ok(m) => Ok(UnitEnumMember::Method(m)),
        }
    } else {
        let group = match modifiers::constant_group(raw) {
            Err(e) => return Err(e),
            Ok(g) => g,
        };
        match constant(state, group, start) {
            Err(e) => Err(e),
            Ok(c) => Ok(UnitEnumMember::Constant(c)),
        }
    }
}

/// What parsing one backed-enum member at position `i` yields: as the unit
/// flavour, except that a case must carry a value.
pub open spec fn spec_backed_enum_member(
    toks: Seq<Token>,
    i: int,
    enum_name: Symbol,
) -> (ParseResult<SpecBackedEnumMember>, int) {
    let attrs = spec_gathered_attrs(toks, i);
    let a_end = spec_attrs_end(toks, i);
    let has_attributes = a_end > i;
    if !has_attributes && tok(toks, a_end).kind == TokenKind::Case {
        let (cr, n) = spec_enum_case(toks, a_end, enum_name, CaseValuePolicy::Required);
        match cr {
            Err(e) => (Err(e), n),
            Ok(p) => match p.value {
                Some(v) => (
                    Ok(
                        SpecBackedEnumMember::Case(
                            BackedEnumCase { start: p.start, end: p.end, name: p.name, value: v },
                        ),
                    ),
                    n,
                ),
                None => (Err(arbitrary()), n),
            },
        }
    } else {
        let start = tok(toks, a_end).span;
        let raw = spec_collected_mods(toks, a_end);
        let m_end = spec_mods_end(toks, a_end);
        if has_attributes || tok(toks, m_end).kind == TokenKind::Function {
            match spec_enum_method_group(raw) {
                Err(e) => (Err(e), m_end),
                Ok(group) => {
                    let (mr, n) = spec_method(toks, m_end, group, attrs, start);
                    match mr {
                        Err(e) => (Err(e), n),
                        Ok(m) => (Ok(SpecBackedEnumMember::Method(m)), n),
                    }
                },
            }
        } else {
            match spec_constant_group(raw) {
                Err(e) => (Err(e), m_end),
                Ok(group) => {
                    let (cr, n) = spec_constant(toks, m_end, group, start);
                    match cr {
                        Err(e) => (Err(e), n),
                        Ok(c) => (Ok(SpecBackedEnumMember::Constant(c)), n),
                    }
                },
            }
        }
    }
}

/// Parse one backed-enum member: a valued case, a method, or a constant.
/// Standing inside an enum body is the caller's contract.
pub fn backed_enum_member(state: &mut State) -> (r: ParseResult<BackedEnumMember>)
    requires
        old(state).scopes@.len() > 0,
        old(state).scopes@.last() is Enum,
    ensures
        final(state).tokens == old(state).tokens,
        final(state).scopes == old(state).scopes,
        (res_view(r), final(state).position as int) == spec_backed_enum_member(
            old(state).tokens@,
            old(state).position as int,
            spec_enum_name(old(state).scopes@.last()),
        ),
        final(state).position >= old(state).position,
{
    let enum_name = state.enum_scope_name();
    let attrs = attributes::gather_attributes(state);
    proof {
        attributes::lemma_gathered_attrs_len(old(state).tokens@, old(state).position as int);
    }
    let has_attributes = attrs.len() > 0;

    if !has_attributes && state.current().kind == TokenKind::Case {
        return match enum_case(state, enum_name, CaseValuePolicy::Required) {
            Err(e) => Err(e),
            Ok(p) => match p.value {
                Some(v) => Ok(
                    BackedEnumMember::Case(
                        BackedEnumCase { start: p.start, end: p.end, name: p.name, value: v },
                    ),
                ),
                None => unreached(),
            },
        };
    }

    let start = state.current().span;
    let raw = modifiers::collect(state);

    // a member with attributes is a method even where a constant keyword follows
    if has_attributes || state.current().kind == TokenKind::Function {
        let group = match modifiers::enum_method_group(raw) {
            Err(e) => return Err(e),
            Ok(g) => g,
        };
        match functions::method(state, group, attrs, start) {
            Err(e) => Err(e),
            Ok(m) => Ok(BackedEnumMember::Method(m)),
        }
    } else {
        let group = match modifiers::constant_group(raw) {
            Err(e) => return Err(e),
            Ok(g) => g,
        };
        match constant(state, group, start) {
            Err(e) => Err(e),
            Ok(c) => Ok(BackedEnumMember::Constant(c)),
        }
    }
}

/// What parsing the comma-separated trait-name list of a `use` yields. The
/// list ends before the terminator or the adaptation-block opener. A comma
/// directly followed by either is a deliberate grammar violation: the
/// expectation that would ordinarily consume that closer runs at the comma,
/// so the diagnostic points at the offending comma itself.
pub open spec fn spec_use_names(toks: Seq<Token>, i: int) -> (ParseResult<Seq<Identifier>>, int)
    decreases toks.len() - i,
{
    if tok(toks, i).kind == TokenKind::SemiColon || tok(toks, i).kind == TokenKind::LeftBrace {
        (Ok(Seq::empty()), i)
    } else {
        let (fr, j) = spec_full_name(toks, i);
        match fr {
            Err(e) => (Err(e), j),
            Ok(id) => {
                if tok(toks, j).kind == TokenKind::Comma {
                    if tok(toks, j + 1).kind == TokenKind::SemiColon {
                        (
                            Err(
                                ParseError::UnexpectedToken {
                                    expected: ExpectedSet::Token(TokenKind::SemiColon),
                                    found: tok(toks, j).kind,
                                    span: tok(toks, j).span,
                                },
                            ),
                            j,
                        )
                    } else if tok(toks, j + 1).kind == TokenKind::LeftBrace {
                        (
                            Err(
                                ParseError::UnexpectedToken {
                                    expected: ExpectedSet::Token(TokenKind::LeftBrace),
                                    found: tok(toks, j).kind,
                                    span: tok(toks, j).span,
                                },
                            ),
                            j,
                        )
                    } else {
                        let (rr, m) = spec_use_names(toks, j + 1);
                        match rr {
                            Err(e) => (Err(e), m),
                            Ok(rest) => (Ok(seq![id] + rest), m),
                        }
                    }
                } else {
                    (Ok(seq![id]), j)
                }
            },
        }
    }
}

/// Parse the trait-name list of a `use` import.
fn parse_use_names(state: &mut State) -> (r: ParseResult<Vec<Identifier>>)
    ensures
        final(state).tokens == old(state).tokens,
        final(state).scopes == old(state).scopes,
        (res_view(r), final(state).position as int) == spec_use_names(
            old(state).tokens@,
            old(state).position as int,
        ),
        final(state).position >= old(state).position,
    decreases state.tokens@.len() - state.position,
{
    let c = state.current();
    if c.kind == TokenKind::SemiColon || c.kind == TokenKind::LeftBrace {
        return Ok(Vec::new());
    }
    let first = match identifiers::full_name(state) {
        Err(e) => return Err(e),
        Ok(id) => id,
    };
    if state.current().kind == TokenKind::Comma {
        // a trailing comma is not tolerated: fail where the comma stands
        let t = state.current();
        if state.peek().kind == TokenKind::SemiColon {
            return Err(
                ParseError::UnexpectedToken {
                    expected: ExpectedSet::Token(TokenKind::SemiColon),
                    found: t.kind,
                    span: t.span,
                },
            );
        }
        if state.peek().kind == TokenKind::LeftBrace {
            return Err(
                ParseError::UnexpectedToken {
                    expected: ExpectedSet::Token(TokenKind::LeftBrace),
                    found: t.kind,
                    span: t.span,
                },
            );
        }
        state.advance();
        let mut rest = match parse_use_names(state) {
            Err(e) => return Err(e),
            Ok(v) => v,
        };
        let mut out: Vec<Identifier> = Vec::new();
        out.push(first);
        let ghost rest_elems = rest@;
        out.append(&mut rest);
        proof {
            assert(out@ =~= seq![first] + rest_elems);
        }
        Ok(out)
    } else {
        let mut out: Vec<Identifier> = Vec::new();
        out.push(first);
        proof {
            assert(out@ =~= seq![first]);
        }
        Ok(out)
    }
}

/// What parsing the trait-name list after `insteadof` yields, once past the
/// first name and its comma. The list ends at the terminator; a comma
/// directly before the terminator fails at the comma, as in the use list.
pub open spec fn spec_insteadof_rest(toks: Seq<Token>, i: int) -> (ParseResult<
    Seq<Identifier>,
>, int)
    decreases toks.len() - i,
{
    if tok(toks, i).kind == TokenKind::SemiColon {
        (Ok(Seq::empty()), i)
    } else {
        let (fr, j) = spec_full_name(toks, i);
        match fr {
            Err(e) => (Err(e), j),
            Ok(id) => {
                if tok(toks, j).kind == TokenKind::Comma {
                    if tok(toks, j + 1).kind == TokenKind::SemiColon {
                        (
                            Err(
                                ParseError::UnexpectedToken {
                                    expected: ExpectedSet::Token(TokenKind::SemiColon),
                                    found: tok(toks, j).kind,
                                    span: tok(toks, j).span,
                                },
                            ),
                            j,
                        )
                    } else {
                        let (rr, m) = spec_insteadof_rest(toks, j + 1);
                        match rr {
                            Err(e) => (Err(e), m),
                            Ok(rest) => (Ok(seq![id] + rest), m),
                        }
                    }
                } else {
                    (Ok(seq![id]), j)
                }
            },
        }
    }
}

/// What parsing the whole non-empty `insteadof` list yields, with the cursor
/// on its first name.
pub open spec fn spec_insteadof(toks: Seq<Token>, i: int) -> (ParseResult<Seq<Identifier>>, int) {
    let (fr, j) = spec_full_name(toks, i);
    match fr {
        Err(e) => (Err(e), j),
        Ok(first) => {
            if tok(toks, j).kind == TokenKind::Comma {
                if tok(toks, j + 1).kind == TokenKind::SemiColon {
                    (
                        Err(
                            ParseError::UnexpectedToken {
                                expected: ExpectedSet::Token(TokenKind::SemiColon),
                                found: tok(toks, j).kind,
                                span: tok(toks, j).span,
                            },
                        ),
                        j,
                    )
                } else {
                    let (rr, m) = spec_insteadof_rest(toks, j + 1);
                    match rr {
                        Err(e) => (Err(e), m),
                        Ok(rest) => (Ok(seq![first] + rest), m),
                    }
                }
            } else {
                (Ok(seq![first]), j)
            }
        },
    }
}

/// Parse the rest of an `insteadof` list, once past the first comma.
fn parse_insteadof_rest(state: &mut State) -> (r: ParseResult<Vec<Identifier>>)
    ensures
        final(state).tokens == old(state).tokens,
        final(state).scopes == old(state).scopes,
        (res_view(r), final(state).position as int) == spec_insteadof_rest(
            old(state).tokens@,
            old(state).position as int,
        ),
        final(state).position >= old(state).position,
    decreases state.tokens@.len() - state.position,
{
    if state.current().kind == TokenKind::SemiColon {
        return Ok(Vec::new());
    }
    let first = match identifiers::full_name(state) {
        Err(e) => return Err(e),
        Ok(id) => id,
    };
    if state.current().kind == TokenKind::Comma {
        let t = state.current();
        if state.peek().kind == TokenKind::SemiColon {
            return Err(
                ParseError::UnexpectedToken {
                    expected: ExpectedSet::Token(TokenKind::SemiColon),
                    found: t.kind,
                    span: t.span,
                },
            );
        }
        state.advance();
        let mut rest = match parse_insteadof_rest(state) {
            Err(e) => return Err(e),
            Ok(v) => v,
        };
        let mut out: Vec<Identifier> = Vec::new();
        out.push(first);
        let ghost rest_elems = rest@;
        out.append(&mut rest);
        proof {
            assert(out@ =~= seq![first] + rest_elems);
        }
        Ok(out)
    } else {
        let mut out: Vec<Identifier> = Vec::new();
        out.push(first);
        proof {
            assert(out@ =~= seq![first]);
        }
        Ok(out)
    }
}

/// Parse a whole `insteadof` list, with the cursor on its first name.
fn parse_insteadof(state: &mut State) -> (r: ParseResult<Vec<Identifier>>)
    ensures
        final(state).tokens == old(state).tokens,
        final(state).scopes == old(state).scopes,
        (res_view(r), final(state).position as int) == spec_insteadof(
            old(state).tokens@,
            old(state).position as int,
        ),
        final(state).position >= old(state).position,
{
    let first = match identifiers::full_name(state) {
        Err(e) => return Err(e),
        Ok(id) => id,
    };
    if state.current().kind == TokenKind::Comma {
        let t = state.current();
        if state.peek().kind == TokenKind::SemiColon {
            return Err(
                ParseError::UnexpectedToken {
                    expected: ExpectedSet::Token(TokenKind::SemiColon),
                    found: t.kind,
                    span: t.span,
                },
            );
        }
        state.advance();
        let mut rest = match parse_insteadof_rest(state) {
            Err(e) => return Err(e),
            Ok(v) => v,
        };
        let mut out: Vec<Identifier> = Vec::new();
        out.push(first);
        let ghost rest_elems = rest@;
        out.append(&mut rest);
        proof {
            assert(out@ =~= seq![first] + rest_elems);
        }
        Ok(out)
    } else {
        let mut out: Vec<Identifier> = Vec::new();
        out.push(first);
        proof {
            assert(out@ =~= seq![first]);
        }
        Ok(out)
    }
}

/// What the tail of one adaptation rule yields, after its method reference:
/// `as` with an optional visibility and an optional alias, or `insteadof`
/// with a non-empty trait-name list. The keyword under the cursor is
/// consumed before it is examined, so any other token fails just past it,
/// naming `as` and `insteadof` as the only continuations.
pub open spec fn spec_adaptation_rule(
    toks: Seq<Token>,
    i: int,
    trait_name: Option<Identifier>,
    method: Identifier,
) -> (ParseResult<SpecTraitAdaptation>, int) {
    let t = tok(toks, i);
    let j = spec_next(toks, i);
    if t.kind == TokenKind::As {
        match spec_adaptation_visibility(toks, j) {
            Some(visibility) => {
                let k = spec_next(toks, j);
                if tok(toks, k).kind == TokenKind::SemiColon {
                    (Ok(SpecTraitAdaptation::Visibility { trait_name, method, visibility }), k)
                } else {
                    let (ar, m) = spec_ident(toks, k);
                    match ar {
                        Err(e) => (Err(e), m),
                        Ok(alias) => (
                            Ok(
                                SpecTraitAdaptation::Alias {
                                    trait_name,
                                    method,
                                    alias,
                                    visibility: Some(visibility),
                                },
                            ),
                            m,
                        ),
                    }
                }
            },
            None => {
                let (ar, m) = spec_ident(toks, j);
                match ar {
                    Err(e) => (Err(e), m),
                    Ok(alias) => (
                        Ok(
                            SpecTraitAdaptation::Alias { trait_name, method, alias, visibility: None },
                        ),
                        m,
                    ),
                }
            },
        }
    } else if t.kind == TokenKind::Insteadof {
        let (ir, m) = spec_insteadof(toks, j);
        match ir {
            Err(e) => (Err(e), m),
            Ok(insteadof) => (
                Ok(SpecTraitAdaptation::Precedence { trait_name, method, insteadof }),
                m,
            ),
        }
    } else {
        (
            Err(ParseError::UnexpectedToken { expected: ExpectedSet::AsOrInsteadof, found: t.kind, span: t.span }),
            j,
        )
    }
}

/// The visibility keyword standing at `i`, if any, with its recorded spans:
/// the keyword's own and the following token's.
pub open spec fn spec_adaptation_visibility(toks: Seq<Token>, i: int) -> Option<VisibilityModifier> {
    let c = tok(toks, i);
    let e = tok(toks, i + 1);
    match c.kind {
        TokenKind::Public => Some(VisibilityModifier::Public { start: c.span, end: e.span }),
        TokenKind::Protected => Some(VisibilityModifier::Protected { start: c.span, end: e.span }),
        TokenKind::Private => Some(VisibilityModifier::Private { start: c.span, end: e.span }),
        _ => None,
    }
}

/// What one whole adaptation rule yields: a method reference, possibly
/// trait-qualified, then its `as` or `insteadof` tail.
pub open spec fn spec_adaptation(toks: Seq<Token>, i: int) -> (ParseResult<
    SpecTraitAdaptation,
>, int) {
    if tok(toks, i + 1).kind == TokenKind::DoubleColon {
        let (fr, j0) = spec_full_name(toks, i);
        match fr {
            Err(e) => (Err(e), j0),
            Ok(tn) => {
                let j1 = spec_next(toks, j0);
                let (mr, j2) = spec_ident(toks, j1);
                match mr {
                    Err(e) => (Err(e), j2),
                    Ok(method) => spec_adaptation_rule(toks, j2, Some(tn), method),
                }
            },
        }
    } else {
        let (mr, j) = spec_ident(toks, i);
        match mr {
            Err(e) => (Err(e), j),
            Ok(method) => spec_adaptation_rule(toks, j, None, method),
        }
    }
}

/// Parse one adaptation rule.
fn parse_adaptation(state: &mut State) -> (r: ParseResult<TraitAdaptation>)
    ensures
        final(state).tokens == old(state).tokens,
        final(state).scopes == old(state).scopes,
        (res_view(r), final(state).position as int) == spec_adaptation(
            old(state).tokens@,
            old(state).position as int,
        ),
        final(state).position >= old(state).position,
        r is Ok ==> final(state).position > old(state).position,
{
    let trait_name: Option<Identifier>;
    let method: Identifier;
    if state.peek().kind == TokenKind::DoubleColon {
        let tn = match identifiers::full_name(state) {
            Err(e) => return Err(e),
            Ok(t) => t,
        };
        state.advance();
        method = match identifiers::ident(state) {
            Err(e) => return Err(e),
            Ok(m) => m,
        };
        trait_name = Some(tn);
    } else {
        method = match identifiers::ident(state) {
            Err(e) => return Err(e),
            Ok(m) => m,
        };
        trait_name = None;
    }

    let t = state.current();
    state.advance();
    if t.kind == TokenKind::As {
        let c = state.current();
        match c.kind {
            TokenKind::Public | TokenKind::Protected | TokenKind::Private => {
                let e = state.peek();
                let visibility = match c.kind {
                    TokenKind::Public => VisibilityModifier::Public { start: c.span, end: e.span },
                    TokenKind::Protected => VisibilityModifier::Protected {
                        start: c.span,
                        end: e.span,
                    },
                    _ => VisibilityModifier::Private { start: c.span, end: e.span },
                };
                state.advance();
                if state.current().kind == TokenKind::SemiColon {
                    Ok(TraitAdaptation::Visibility { trait_name, method, visibility })
                } else {
                    let alias = match identifiers::ident(state) {
                        Err(e2) => return Err(e2),
                        Ok(a) => a,
                    };
                    Ok(
                        TraitAdaptation::Alias {
                            trait_name,
                            method,
                            alias,
                            visibility: Some(visibility),
                        },
                    )
                }
            },
            _ => {
                let alias = match identifiers::ident(state) {
                    Err(e2) => return Err(e2),
                    Ok(a) => a,
                };
                Ok(TraitAdaptation::Alias { trait_name, method, alias, visibility: None })
            },
        }
    } else if t.kind == TokenKind::Insteadof {
        let insteadof = match parse_insteadof(state) {
            Err(e2) => return Err(e2),
            Ok(v) => v,
        };
        Ok(TraitAdaptation::Precedence { trait_name, method, insteadof })
    } else {
        Err(ParseError::UnexpectedToken { expected: ExpectedSet::AsOrInsteadof, found: t.kind, span: t.span })
    }
}

/// No parse step moves the cursor backwards: the insteadof tail.
pub proof fn lemma_insteadof_rest_mono(toks: Seq<Token>, i: int)
    ensures
        spec_insteadof_rest(toks, i).1 >= i,
    decreases toks.len() - i,
{
    if tok(toks, i).kind != TokenKind::SemiColon {
        let (fr, j) = spec_full_name(toks, i);
        if fr is Ok && tok(toks, j).kind == TokenKind::Comma && tok(toks, j + 1).kind
            != TokenKind::SemiColon {
            lemma_insteadof_rest_mono(toks, j + 1);
        }
    }
}

/// No parse step moves the cursor backwards: the whole insteadof list.
pub proof fn lemma_insteadof_mono(toks: Seq<Token>, i: int)
    ensures
        spec_insteadof(toks, i).1 >= i,
{
    let (fr, j) = spec_full_name(toks, i);
    if fr is Ok && tok(toks, j).kind == TokenKind::Comma && tok(toks, j + 1).kind
        != TokenKind::SemiColon {
        lemma_insteadof_rest_mono(toks, j + 1);
    }
}

/// An adaptation rule never moves the cursor backwards, and a parsed rule
/// consumes at least one token.
pub proof fn lemma_adaptation_rule_mono(
    toks: Seq<Token>,
    i: int,
    trait_name: Option<Identifier>,
    method: Identifier,
)
    ensures
        spec_adaptation_rule(toks, i, trait_name, method).1 >= i,
        spec_adaptation_rule(toks, i, trait_name, method).0 is Ok
            ==> spec_adaptation_rule(toks, i, trait_name, method).1 > i,
{
    if tok(toks, i).kind == TokenKind::Insteadof {
        lemma_insteadof_mono(toks, spec_next(toks, i));
    }
}

/// A whole adaptation never moves the cursor backwards, and a parsed one
/// consumes at least one token.
pub proof fn lemma_adaptation_mono(toks: Seq<Token>, i: int)
    ensures
        spec_adaptation(toks, i).1 >= i,
        spec_adaptation(toks, i).0 is Ok ==> spec_adaptation(toks, i).1 > i,
{
    if tok(toks, i + 1).kind == TokenKind::DoubleColon {
        let (fr, j0) = spec_full_name(toks, i);
        match fr {
            Ok(tn) => {
                let j1 = spec_next(toks, j0);
                let (mr, j2) = spec_ident(toks, j1);
                match mr {
                    Ok(m) => lemma_adaptation_rule_mono(toks, j2, Some(tn), m),
                    Err(_) => (),
                }
            },
            Err(_) => (),
        }
    } else {
        let (mr, j) = spec_ident(toks, i);
        match mr {
            Ok(m) => lemma_adaptation_rule_mono(toks, j, None, m),
            Err(_) => (),
        }
    }
}

/// What a whole adaptation block yields: rules until the closing brace, each
/// followed by the terminator.
pub open spec fn spec_adaptations(toks: Seq<Token>, i: int) -> (ParseResult<
    Seq<SpecTraitAdaptation>,
>, int)
    decreases toks.len() - i,
{
    if tok(toks, i).kind == TokenKind::RightBrace {
        (Ok(Seq::empty()), i)
    } else {
        let (ar, j) = spec_adaptation(toks, i);
        match ar {
            Err(e) => (Err(e), j),
            Ok(a) => {
                let (sr, k) = spec_skip(toks, j, TokenKind::SemiColon);
                match sr {
                    Err(e) => (Err(e), k),
                    Ok(_) => {
                        proof {
                            lemma_adaptation_mono(toks, i);
                        }
                        let (rr, m) = spec_adaptations(toks, k);
                        match rr {
                            Err(e) => (Err(e), m),
                            Ok(rest) => (Ok(seq![a] + rest), m),
                        }
                    },
                }
            },
        }
    }
}

/// The mathematical image of a parsed adaptation list.
pub open spec fn adaptations_view(v: Vec<TraitAdaptation>) -> Seq<SpecTraitAdaptation> {
    v@.map_values(|a: TraitAdaptation| a@)
}

/// Lifts an adaptation-list result to its mathematical image.
pub open spec fn adaptations_res_view(r: ParseResult<Vec<TraitAdaptation>>) -> ParseResult<
    Seq<SpecTraitAdaptation>,
> {
    match r {
        Ok(v) => Ok(adaptations_view(v)),
        Err(e) => Err(e),
    }
}

/// Parse a whole adaptation block, up to its closing brace.
fn parse_adaptations(state: &mut State) -> (r: ParseResult<Vec<TraitAdaptation>>)
    ensures
        final(state).tokens == old(state).tokens,
        final(state).scopes == old(state).scopes,
        (adaptations_res_view(r), final(state).position as int) == spec_adaptations(
            old(state).tokens@,
            old(state).position as int,
        ),
        final(state).position >= old(state).position,
    decreases state.tokens@.len() - state.position,
{
    if state.current().kind == TokenKind::RightBrace {
        let out: Vec<TraitAdaptation> = Vec::new();
        proof {
            assert(adaptations_view(out) =~= Seq::<SpecTraitAdaptation>::empty());
        }
        return Ok(out);
    }
    let a = match parse_adaptation(state) {
        Err(e) => return Err(e),
        Ok(a) => a,
    };
    match utils::skip_semicolon(state) {
        Err(e) => return Err(e),
        Ok(_) => {},
    }
    let mut rest = match parse_adaptations(state) {
        Err(e) => return Err(e),
        Ok(v) => v,
    };
    let ghost rest_view = adaptations_view(rest);
    let ghost a_view = a@;
    let mut out: Vec<TraitAdaptation> = Vec::new();
    out.push(a);
    let ghost rest_elems = rest@;
    out.append(&mut rest);
    proof {
        assert(out@ =~= seq![out@[0]] + rest_elems);
        assert(adaptations_view(out) =~= seq![a_view] + rest_view);
    }
    Ok(out)
}

/// What one whole `use` import yields, with the cursor on the `use` keyword:
/// the trait-name list, then either an adaptation block or the terminator.
pub open spec fn spec_parse_classish_uses(toks: Seq<Token>, i: int) -> (ParseResult<
    SpecStatement,
>, int) {
    let j = spec_next(toks, i);
    let (tr, k) = spec_use_names(toks, j);
    match tr {
        Err(e) => (Err(e), k),
        Ok(traits) => {
            if tok(toks, k).kind == TokenKind::LeftBrace {
                let (lb, k1) = spec_skip(toks, k, TokenKind::LeftBrace);
                match lb {
                    Err(e) => (Err(e), k1),
                    Ok(_) => {
                        let (ar, k2) = spec_adaptations(toks, k1);
                        match ar {
                            Err(e) => (Err(e), k2),
                            Ok(adaptations) => {
                                let (rb, k3) = spec_skip(toks, k2, TokenKind::RightBrace);
                                match rb {
                                    Err(e) => (Err(e), k3),
                                    Ok(_) => (
                                        Ok(SpecStatement::TraitUse { traits, adaptations }),
                                        k3,
                                    ),
                                }
                            },
                        }
                    },
                }
            } else {
                let (sr, k1) = spec_skip(toks, k, TokenKind::SemiColon);
                match sr {
                    Err(e) => (Err(e), k1),
                    Ok(_) => (
                        Ok(SpecStatement::TraitUse { traits, adaptations: Seq::empty() }),
                        k1,
                    ),
                }
            }
        },
    }
}

/// Parse one whole `use` import, with the cursor on the `use` keyword.
pub fn parse_classish_uses(state: &mut State) -> (r: ParseResult<Statement>)
    ensures
        final(state).tokens == old(state).tokens,
        final(state).scopes == old(state).scopes,
        (res_view(r), final(state).position as int) == spec_parse_classish_uses(
            old(state).tokens@,
            old(state).position as int,
        ),
        final(state).position >= old(state).position,
{
    state.advance();
    let traits = match parse_use_names(state) {
        Err(e) => return Err(e),
        Ok(v) => v,
    };
    if state.current().kind == TokenKind::LeftBrace {
        match utils::skip_left_brace(state) {
            Err(e) => return Err(e),
            Ok(_) => {},
        }
        let adaptations = match parse_adaptations(state) {
            Err(e) => return Err(e),
            Ok(v) => v,
        };
        match utils::skip_right_brace(state) {
            Err(e) => return Err(e),
            Ok(_) => {},
        }
        let ghost gtraits = traits@;
        let ghost gadaptations = adaptations_view(adaptations);
        let s = Statement::TraitUse { traits, adaptations };
        proof {
            assert(s@ =~~= SpecStatement::TraitUse { traits: gtraits, adaptations: gadaptations });
        }
        Ok(s)
    } else {
        match utils::skip_semicolon(state) {
            Err(e) => return Err(e),
            Ok(_) => {},
        }
        let ghost gtraits = traits@;
        let s = Statement::TraitUse { traits, adaptations: Vec::new() };
        proof {
            assert(s@ =~~= SpecStatement::TraitUse {
                traits: gtraits,
                adaptations: Seq::<SpecTraitAdaptation>::empty(),
            });
        }
        Ok(s)
    }
}

/// What the fixed-order property checks and the terminator yield, once the
/// declaration is parsed far enough to name the property: readonly with
/// static, readonly with a default, a forbidden declared type, and readonly
/// without a type, in that order; then the terminator and the node. Each
/// violation names the owning class-like construct and the property.
pub open spec fn spec_property_checks(
    toks: Seq<Token>,
    p: int,
    owner: OwnerName,
    group: ModifierGroup,
    tyo: Option<DataType>,
    value: Option<Expression>,
    var: Identifier,
    attrs: Seq<Attribute>,
) -> (ParseResult<SpecStatement>, int) {
    let here = tok(toks, p).span;
    if group.is_readonly && group.is_static {
        (
            Err(ParseError::StaticPropertyUsingReadonlyModifier { class: owner, property: var.name, span: here }),
            p,
        )
    } else if group.is_readonly && value is Some {
        (
            Err(ParseError::ReadonlyPropertyHasDefaultValue { class: owner, property: var.name, span: here }),
            p,
        )
    } else {
        match tyo {
            Some(ty) => {
                if spec_includes_callable(ty) || spec_is_bottom(ty) {
                    (
                        Err(
                            ParseError::ForbiddenTypeUsedInProperty {
                                class: owner,
                                property: var.name,
                                data_type: ty,
                                span: here,
                            },
                        ),
                        p,
                    )
                } else {
                    spec_property_finish(toks, p, group, tyo, value, var, attrs)
                }
            },
            None => {
                if group.is_readonly {
                    (
                        Err(
                            ParseError::MissingTypeForReadonlyProperty {
                                class: owner,
                                property: var.name,
                                span: here,
                            },
                        ),
                        p,
                    )
                } else {
                    spec_property_finish(toks, p, group, tyo, value, var, attrs)
                }
            },
        }
    }
}

/// The terminator and the finished property node.
pub open spec fn spec_property_finish(
    toks: Seq<Token>,
    p: int,
    group: ModifierGroup,
    tyo: Option<DataType>,
    value: Option<Expression>,
    var: Identifier,
    attrs: Seq<Attribute>,
) -> (ParseResult<SpecStatement>, int) {
    let (sr, n) = spec_skip(toks, p, TokenKind::SemiColon);
    match sr {
        Err(e) => (Err(e), n),
        Ok(_) => (
            Ok(
                SpecStatement::Property {
                    var,
                    value,
                    data_type: tyo,
                    modifiers: group,
                    attributes: attrs,
                },
            ),
            n,
        ),
    }
}

/// What parsing one class, trait, or anonymous-class member at position `i`
/// yields, inside the construct whose diagnostic owner is `owner`. Without
/// attributes in front, a `use` keyword starts a trait import and a `const`
/// keyword a constant; a function keyword, with or without attributes,
/// starts a method; anything else is a property, validated by the fixed-order
/// checks once its type, name, and optional default are parsed.
pub open spec fn spec_class_like_statement(toks: Seq<Token>, i: int, owner: OwnerName) -> (ParseResult<
    SpecStatement,
>, int) {
    let attrs = spec_gathered_attrs(toks, i);
    let a_end = spec_attrs_end(toks, i);
    let has_attributes = a_end > i;
    let start = tok(toks, a_end).span;
    let raw = spec_collected_mods(toks, a_end);
    let m_end = spec_mods_end(toks, a_end);
    if !has_attributes && tok(toks, m_end).kind == TokenKind::Use {
        spec_parse_classish_uses(toks, m_end)
    } else if !has_attributes && tok(toks, m_end).kind == TokenKind::Const {
        match spec_constant_group(raw) {
            Err(e) => (Err(e), m_end),
            Ok(group) => {
                let (cr, n) = spec_constant(toks, m_end, group, start);
                match cr {
                    Err(e) => (Err(e), n),
                    Ok(c) => (Ok(SpecStatement::ClassishConstant(c)), n),
                }
            },
        }
    } else if tok(toks, m_end).kind == TokenKind::Function {
        match spec_method_group(raw) {
            Err(e) => (Err(e), m_end),
            Ok(group) => {
                let (mr, n) = spec_method(toks, m_end, group, attrs, start);
                match mr {
                    Err(e) => (Err(e), n),
                    Ok(m) => (Ok(SpecStatement::Method(m)), n),
                }
            },
        }
    } else {
        match spec_property_group(raw) {
            Err(e) => (Err(e), m_end),
            Ok(group) => {
                let (tyo, p1) = spec_optional_data_type(toks, m_end);
                let (vr, p2) = spec_var(toks, p1);
                match vr {
                    Err(e) => (Err(e), p2),
                    Ok(var) => {
                        if tok(toks, p2).kind == TokenKind::Equals {
                            let p3 = spec_next(toks, p2);
                            let (er, p4) = spec_expression(toks, p3);
                            match er {
                                Err(e) => (Err(e), p4),
                                Ok(v) => spec_property_checks(
                                    toks,
                                    p4,
                                    owner,
                                    group,
                                    tyo,
                                    Some(v),
                                    var,
                                    attrs,
                                ),
                            }
                        } else {
                            spec_property_checks(toks, p2, owner, group, tyo, None, var, attrs)
                        }
                    },
                }
            },
        }
    }
}

/// Parse one class, trait, or anonymous-class member: a trait import, a
/// constant, a method, or a property. Standing inside such a body is the
/// caller's contract.
pub fn class_like_statement(state: &mut State) -> (r: ParseResult<Statement>)
    requires
        old(state).scopes@.len() > 0,
        old(state).scopes@.last() is Class || old(state).scopes@.last() is Trait || old(
            state,
        ).scopes@.last() is AnonymousClass,
    ensures
        final(state).tokens == old(state).tokens,
        final(state).scopes == old(state).scopes,
        (res_view(r), final(state).position as int) == spec_class_like_statement(
            old(state).tokens@,
            old(state).position as int,
            spec_owner_name(old(state).scopes@.last()),
        ),
        final(state).position >= old(state).position,
{
    let attrs = attributes::gather_attributes(state);
    proof {
        attributes::lemma_gathered_attrs_len(old(state).tokens@, old(state).position as int);
    }
    let has_attributes = attrs.len() > 0;
    let start = state.current().span;
    let raw = modifiers::collect(state);

    if !has_attributes {
        if state.current().kind == TokenKind::Use {
            return parse_classish_uses(state);
        }
        if state.current().kind == TokenKind::Const {
            let group = match modifiers::constant_group(raw) {
                Err(e) => return Err(e),
                Ok(g) => g,
            };
            return match constant(state, group, start) {
                Err(e) => Err(e),
                Ok(c) => Ok(Statement::ClassishConstant(c)),
            };
        }
    }

    if state.current().kind == TokenKind::Function {
        let group = match modifiers::method_group(raw) {
            Err(e) => return Err(e),
            Ok(g) => g,
        };
        return match functions::method(state, group, attrs, start) {
            Err(e) => Err(e),
            Ok(m) => Ok(Statement::Method(m)),
        };
    }

    let group = match modifiers::property_group(raw) {
        Err(e) => return Err(e),
        Ok(g) => g,
    };
    let ty = data_type::optional_data_type(state);
    let var = match identifiers::var(state) {
        Err(e) => return Err(e),
        Ok(v) => v,
    };
    let mut value: Option<Expression> = None;
    if state.current().kind == TokenKind::Equals {
        state.advance();
        value = match expressions::expression(state) {
            Err(e) => return Err(e),
            Ok(v) => Some(v),
        };
    }

    let class_name = state.owner_name();

    // the fixed check order: readonly conflicts first, then the type rules,
    // which can only be judged once the type is fully parsed
    if group.is_readonly {
        if group.is_static {
            return Err(
                ParseError::StaticPropertyUsingReadonlyModifier {
                    class: class_name,
                    property: var.name,
                    span: state.current().span,
                },
            );
        }
        if value.is_some() {
            return Err(
                ParseError::ReadonlyPropertyHasDefaultValue {
                    class: class_name,
                    property: var.name,
                    span: state.current().span,
                },
            );
        }
    }

    match &ty {
        Some(t) => {
            if data_type::includes_callable(t) || data_type::is_bottom(t) {
                return Err(
                    ParseError::ForbiddenTypeUsedInProperty {
                        class: class_name,
                        property: var.name,
                        data_type: *t,
                        span: state.current().span,
                    },
                );
            }
        },
        None => {
            if group.is_readonly {
                return Err(
                    ParseError::MissingTypeForReadonlyProperty {
                        class: class_name,
                        property: var.name,
                        span: state.current().span,
                    },
                );
            }
        },
    }

    match utils::skip_semicolon(state) {
        Err(e) => return Err(e),
        Ok(_) => {},
    }

    Ok(Statement::Property { var, value, data_type: ty, modifiers: group, attributes: attrs })
}

} // verus!
