use vstd::prelude::*;

use crate::ast::Attribute;
use crate::ast::BackedEnumCase;
use crate::ast::DataType;
use crate::ast::Expression;
use crate::ast::Identifier;
use crate::ast::ModifierGroup;
use crate::ast::SpecBackedEnumMember;
use crate::ast::SpecStatement;
use crate::ast::SpecTraitAdaptation;
use crate::ast::SpecUnitEnumMember;
use crate::ast::UnitEnumCase;
use crate::ast::VisibilityModifier;
use crate::ast::spec_includes_callable;
use crate::ast::spec_is_bottom;
use crate::attributes::lemma_attrs_end_ge;
use crate::attributes::spec_attrs_end;
use crate::attributes::spec_gathered_attrs;
use crate::classish::spec_adaptation;
use crate::classish::spec_backed_enum_member;
use crate::classish::spec_interface_statement;
use crate::classish::spec_method_path;
use crate::classish::spec_parse_classish_uses;
use crate::classish::spec_property_checks;
use crate::classish::spec_unit_enum_member;
use crate::classish::spec_use_names;
use crate::error::ExpectedSet;
use crate::error::ParseError;
use crate::modifiers::spec_collected_mods;
use crate::modifiers::spec_mods_end;
use crate::state::OwnerName;
use crate::token::Symbol;
use crate::token::Token;
use crate::token::TokenKind;
use crate::token::tok;

verus! {

/// A unit-enum case with an explicit value always fails with the
/// unit-enum-value error, naming the case and the enclosing enum and
/// pointing at the `=`.
pub proof fn lemma_unit_case_with_value_fails(
    toks: Seq<Token>,
    i: int,
    enum_name: Symbol,
    case_name: Symbol,
)
    requires
        tok(toks, i).kind == TokenKind::Case,
        tok(toks, i + 1).kind == TokenKind::Identifier(case_name),
        tok(toks, i + 2).kind == TokenKind::Equals,
    ensures
        spec_unit_enum_member(toks, i, enum_name).0 == Err::<SpecUnitEnumMember, ParseError>(
            ParseError::CaseValueForUnitEnum {
                case: case_name,
                enum_name,
                span: tok(toks, i + 2).span,
            },
        ),
{
}

/// A unit-enum case without a value always succeeds, producing a valueless
/// case spanning the `case` keyword through the terminator.
pub proof fn lemma_unit_case_without_value_succeeds(
    toks: Seq<Token>,
    i: int,
    enum_name: Symbol,
    case_name: Symbol,
)
    requires
        tok(toks, i).kind == TokenKind::Case,
        tok(toks, i + 1).kind == TokenKind::Identifier(case_name),
        tok(toks, i + 2).kind == TokenKind::SemiColon,
    ensures
        spec_unit_enum_member(toks, i, enum_name).0 == Ok::<SpecUnitEnumMember, ParseError>(
            SpecUnitEnumMember::Case(
                UnitEnumCase {
                    start: tok(toks, i).span,
                    end: tok(toks, i + 2).span,
                    name: Identifier { span: tok(toks, i + 1).span, name: case_name },
                },
            ),
        ),
        spec_unit_enum_member(toks, i, enum_name).1 == i + 3,
{
}

/// A backed-enum case without a value always fails with the
/// missing-backed-value error, naming the case and the enclosing enum and
/// pointing at the terminator that stands where the `=` belongs.
pub proof fn lemma_backed_case_without_value_fails(
    toks: Seq<Token>,
    i: int,
    enum_name: Symbol,
    case_name: Symbol,
)
    requires
        tok(toks, i).kind == TokenKind::Case,
        tok(toks, i + 1).kind == TokenKind::Identifier(case_name),
        tok(toks, i + 2).kind == TokenKind::SemiColon,
    ensures
        spec_backed_enum_member(toks, i, enum_name).0 == Err::<SpecBackedEnumMember, ParseError>(
            ParseError::MissingCaseValueForBackedEnum {
                case: case_name,
                enum_name,
                span: tok(toks, i + 2).span,
            },
        ),
{
}

/// A backed-enum case with a value always succeeds and retains the parsed
/// value.
pub proof fn lemma_backed_case_with_value_succeeds(
    toks: Seq<Token>,
    i: int,
    enum_name: Symbol,
    case_name: Symbol,
    value: u64,
)
    requires
        tok(toks, i).kind == TokenKind::Case,
        tok(toks, i + 1).kind == TokenKind::Identifier(case_name),
        tok(toks, i + 2).kind == TokenKind::Equals,
        tok(toks, i + 3).kind == TokenKind::Integer(value),
        tok(toks, i + 4).kind == TokenKind::SemiColon,
    ensures
        spec_backed_enum_member(toks, i, enum_name).0 == Ok::<SpecBackedEnumMember, ParseError>(
            SpecBackedEnumMember::Case(
                BackedEnumCase {
                    start: tok(toks, i).span,
                    end: tok(toks, i + 4).span,
                    name: Identifier { span: tok(toks, i + 1).span, name: case_name },
                    value: Expression::Integer { value, span: tok(toks, i + 3).span },
                },
            ),
        ),
        spec_backed_enum_member(toks, i, enum_name).1 == i + 5,
{
}

/// A readonly static property always fails with the readonly/static
/// conflict, regardless of its declared type and of any default.
pub proof fn lemma_readonly_static_conflict(
    toks: Seq<Token>,
    p: int,
    owner: OwnerName,
    group: ModifierGroup,
    tyo: Option<DataType>,
    value: Option<Expression>,
    var: Identifier,
    attrs: Seq<Attribute>,
)
    requires
        group.is_readonly,
        group.is_static,
    ensures
        spec_property_checks(toks, p, owner, group, tyo, value, var, attrs).0 == Err::<
            SpecStatement,
            ParseError,
        >(
            ParseError::StaticPropertyUsingReadonlyModifier {
                class: owner,
                property: var.name,
                span: tok(toks, p).span,
            },
        ),
{
}

/// A readonly property with a default value always fails with the
/// readonly/default conflict, regardless of its declared type.
pub proof fn lemma_readonly_default_conflict(
    toks: Seq<Token>,
    p: int,
    owner: OwnerName,
    group: ModifierGroup,
    tyo: Option<DataType>,
    value: Expression,
    var: Identifier,
    attrs: Seq<Attribute>,
)
    requires
        group.is_readonly,
        !group.is_static,
    ensures
        spec_property_checks(toks, p, owner, group, tyo, Some(value), var, attrs).0 == Err::<
            SpecStatement,
            ParseError,
        >(
            ParseError::ReadonlyPropertyHasDefaultValue {
                class: owner,
                property: var.name,
                span: tok(toks, p).span,
            },
        ),
{
}

/// A readonly property without a declared type always fails with the
/// missing-type error, default conflicts aside.
pub proof fn lemma_readonly_without_type_fails(
    toks: Seq<Token>,
    p: int,
    owner: OwnerName,
    group: ModifierGroup,
    var: Identifier,
    attrs: Seq<Attribute>,
)
    requires
        group.is_readonly,
        !group.is_static,
    ensures
        spec_property_checks(toks, p, owner, group, None, None, var, attrs).0 == Err::<
            SpecStatement,
            ParseError,
        >(
            ParseError::MissingTypeForReadonlyProperty {
                class: owner,
                property: var.name,
                span: tok(toks, p).span,
            },
        ),
{
}

/// A property declared with a callable-shaped type or with the bottom type
/// always fails with the forbidden-type error, readonly conflicts aside:
/// where the property is also readonly static, or readonly with a default,
/// those earlier checks win instead.
pub proof fn lemma_forbidden_type_fails(
    toks: Seq<Token>,
    p: int,
    owner: OwnerName,
    group: ModifierGroup,
    ty: DataType,
    value: Option<Expression>,
    var: Identifier,
    attrs: Seq<Attribute>,
)
    requires
        spec_includes_callable(ty) || spec_is_bottom(ty),
        !(group.is_readonly && group.is_static),
        !(group.is_readonly && value is Some),
    ensures
        spec_property_checks(toks, p, owner, group, Some(ty), value, var, attrs).0 == Err::<
            SpecStatement,
            ParseError,
        >(
            ParseError::ForbiddenTypeUsedInProperty {
                class: owner,
                property: var.name,
                data_type: ty,
                span: tok(toks, p).span,
            },
        ),
{
}

/// A property whose declared type is neither callable-shaped nor the bottom
/// type, and which breaks no readonly rule, always succeeds at the
/// terminator and keeps its type, default, modifiers, and attributes.
pub proof fn lemma_property_with_acceptable_type_succeeds(
    toks: Seq<Token>,
    p: int,
    owner: OwnerName,
    group: ModifierGroup,
    ty: DataType,
    value: Option<Expression>,
    var: Identifier,
    attrs: Seq<Attribute>,
)
    requires
        !spec_includes_callable(ty),
        !spec_is_bottom(ty),
        !(group.is_readonly && group.is_static),
        !(group.is_readonly && value is Some),
        tok(toks, p).kind == TokenKind::SemiColon,
    ensures
        spec_property_checks(toks, p, owner, group, Some(ty), value, var, attrs).0 == Ok::<
            SpecStatement,
            ParseError,
        >(
            SpecStatement::Property {
                var,
                value,
                data_type: Some(ty),
                modifiers: group,
                attributes: attrs,
            },
        ),
{
}

/// A property with neither a readonly modifier nor a declared type always
/// succeeds at the terminator.
pub proof fn lemma_property_without_type_succeeds(
    toks: Seq<Token>,
    p: int,
    owner: OwnerName,
    group: ModifierGroup,
    value: Option<Expression>,
    var: Identifier,
    attrs: Seq<Attribute>,
)
    requires
        !group.is_readonly,
        tok(toks, p).kind == TokenKind::SemiColon,
    ensures
        spec_property_checks(toks, p, owner, group, None, value, var, attrs).0 == Ok::<
            SpecStatement,
            ParseError,
        >(
            SpecStatement::Property {
                var,
                value,
                data_type: None,
                modifiers: group,
                attributes: attrs,
            },
        ),
{
}

/// A use import of two traits with a plain terminator yields exactly those
/// two names, in order, and no adaptations.
pub proof fn lemma_use_two_names(toks: Seq<Token>, i: int, a: Symbol, b: Symbol)
    requires
        tok(toks, i).kind == TokenKind::Use,
        tok(toks, i + 1).kind == TokenKind::Identifier(a),
        tok(toks, i + 2).kind == TokenKind::Comma,
        tok(toks, i + 3).kind == TokenKind::Identifier(b),
        tok(toks, i + 4).kind == TokenKind::SemiColon,
    ensures
        spec_parse_classish_uses(toks, i).0 == Ok::<SpecStatement, ParseError>(
            SpecStatement::TraitUse {
                traits: seq![
                    Identifier { span: tok(toks, i + 1).span, name: a },
                    Identifier { span: tok(toks, i + 3).span, name: b },
                ],
                adaptations: Seq::empty(),
            },
        ),
        spec_parse_classish_uses(toks, i).1 == i + 5,
{
    reveal_with_fuel(spec_use_names, 3);
    assert(seq![Identifier { span: tok(toks, i + 1).span, name: a }] + seq![
        Identifier { span: tok(toks, i + 3).span, name: b },
    ] =~= seq![
        Identifier { span: tok(toks, i + 1).span, name: a },
        Identifier { span: tok(toks, i + 3).span, name: b },
    ]);
}

/// A trailing comma in a use list is not silently dropped: the import fails
/// with the shared unexpected-token diagnostic pointing at the comma.
pub proof fn lemma_use_trailing_comma_fails(toks: Seq<Token>, i: int, a: Symbol, b: Symbol)
    requires
        tok(toks, i).kind == TokenKind::Use,
        tok(toks, i + 1).kind == TokenKind::Identifier(a),
        tok(toks, i + 2).kind == TokenKind::Comma,
        tok(toks, i + 3).kind == TokenKind::Identifier(b),
        tok(toks, i + 4).kind == TokenKind::Comma,
        tok(toks, i + 5).kind == TokenKind::SemiColon,
    ensures
        spec_parse_classish_uses(toks, i).0 == Err::<SpecStatement, ParseError>(
            ParseError::UnexpectedToken {
                expected: ExpectedSet::Token(TokenKind::SemiColon),
                found: TokenKind::Comma,
                span: tok(toks, i + 4).span,
            },
        ),
{
    reveal_with_fuel(spec_use_names, 3);
}

/// `m as alias;` yields an Alias adaptation with no explicit visibility.
pub proof fn lemma_alias_without_visibility(toks: Seq<Token>, i: int, m: Symbol, alias: Symbol)
    requires
        tok(toks, i).kind == TokenKind::Identifier(m),
        tok(toks, i + 1).kind == TokenKind::As,
        tok(toks, i + 2).kind == TokenKind::Identifier(alias),
    ensures
        spec_adaptation(toks, i).0 == Ok::<SpecTraitAdaptation, ParseError>(
            SpecTraitAdaptation::Alias {
                trait_name: None,
                method: Identifier { span: tok(toks, i).span, name: m },
                alias: Identifier { span: tok(toks, i + 2).span, name: alias },
                visibility: None,
            },
        ),
        spec_adaptation(toks, i).1 == i + 3,
{
}

/// `m as public alias;` yields an Alias adaptation carrying both the
/// visibility and the new name.
pub proof fn lemma_alias_with_visibility(toks: Seq<Token>, i: int, m: Symbol, alias: Symbol)
    requires
        tok(toks, i).kind == TokenKind::Identifier(m),
        tok(toks, i + 1).kind == TokenKind::As,
        tok(toks, i + 2).kind == TokenKind::Public,
        tok(toks, i + 3).kind == TokenKind::Identifier(alias),
    ensures
        spec_adaptation(toks, i).0 == Ok::<SpecTraitAdaptation, ParseError>(
            SpecTraitAdaptation::Alias {
                trait_name: None,
                method: Identifier { span: tok(toks, i).span, name: m },
                alias: Identifier { span: tok(toks, i + 3).span, name: alias },
                visibility: Some(
                    VisibilityModifier::Public {
                        start: tok(toks, i + 2).span,
                        end: tok(toks, i + 3).span,
                    },
                ),
            },
        ),
        spec_adaptation(toks, i).1 == i + 4,
{
}

/// `m as public;` yields a Visibility adaptation: a visibility change with
/// no rename.
pub proof fn lemma_visibility_without_alias(toks: Seq<Token>, i: int, m: Symbol)
    requires
        tok(toks, i).kind == TokenKind::Identifier(m),
        tok(toks, i + 1).kind == TokenKind::As,
        tok(toks, i + 2).kind == TokenKind::Public,
        tok(toks, i + 3).kind == TokenKind::SemiColon,
    ensures
        spec_adaptation(toks, i).0 == Ok::<SpecTraitAdaptation, ParseError>(
            SpecTraitAdaptation::Visibility {
                trait_name: None,
                method: Identifier { span: tok(toks, i).span, name: m },
                visibility: VisibilityModifier::Public {
                    start: tok(toks, i + 2).span,
                    end: tok(toks, i + 3).span,
                },
            },
        ),
        spec_adaptation(toks, i).1 == i + 3,
{
}

/// `T::m insteadof U;` yields a Precedence adaptation whose insteadof list
/// is exactly the one named trait.
pub proof fn lemma_precedence_single(toks: Seq<Token>, i: int, t: Symbol, m: Symbol, u: Symbol)
    requires
        tok(toks, i).kind == TokenKind::Identifier(t),
        tok(toks, i + 1).kind == TokenKind::DoubleColon,
        tok(toks, i + 2).kind == TokenKind::Identifier(m),
        tok(toks, i + 3).kind == TokenKind::Insteadof,
        tok(toks, i + 4).kind == TokenKind::Identifier(u),
        tok(toks, i + 5).kind == TokenKind::SemiColon,
    ensures
        spec_adaptation(toks, i).0 == Ok::<SpecTraitAdaptation, ParseError>(
            SpecTraitAdaptation::Precedence {
                trait_name: Some(Identifier { span: tok(toks, i).span, name: t }),
                method: Identifier { span: tok(toks, i + 2).span, name: m },
                insteadof: seq![Identifier { span: tok(toks, i + 4).span, name: u }],
            },
        ),
        spec_adaptation(toks, i).1 == i + 5,
{
}

/// An interface member preceded by an attribute is always routed to method
/// parsing, even when the keyword after the modifiers would otherwise
/// introduce a constant.
pub proof fn lemma_attributed_interface_member_is_method(toks: Seq<Token>, i: int)
    requires
        tok(toks, i).kind matches TokenKind::Attribute(_),
    ensures
        spec_interface_statement(toks, i) == spec_method_path(
            toks,
            spec_mods_end(toks, spec_attrs_end(toks, i)),
            spec_collected_mods(toks, spec_attrs_end(toks, i)),
            spec_gathered_attrs(toks, i),
            tok(toks, spec_attrs_end(toks, i)).span,
        ),
{
    lemma_attrs_end_ge(toks, i + 1);
}

} // verus!
