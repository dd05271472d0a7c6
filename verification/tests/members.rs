use classish_parser::ast::BackedEnumMember;
use classish_parser::ast::DataType;
use classish_parser::ast::Expression;
use classish_parser::ast::ModifierKind;
use classish_parser::ast::Statement;
use classish_parser::ast::TraitAdaptation;
use classish_parser::ast::UnitEnumMember;
use classish_parser::ast::Visibility;
use classish_parser::ast::VisibilityModifier;
use classish_parser::classish::backed_enum_member;
use classish_parser::classish::class_like_statement;
use classish_parser::classish::interface_statement;
use classish_parser::classish::unit_enum_member;
use classish_parser::error::ExpectedSet;
use classish_parser::error::ParseError;
use classish_parser::state::OwnerName;
use classish_parser::state::Scope;
use classish_parser::state::State;
use classish_parser::token::Span;
use classish_parser::token::Token;
use classish_parser::token::TokenKind;

const CLASS_NAME: u64 = 100;
const ENUM_NAME: u64 = 200;
const CASE_NAME: u64 = 10;
const PROP_NAME: u64 = 5;
const TYPE_NAME: u64 = 7;
const METHOD_NAME: u64 = 8;
const ATTR_NAME: u64 = 9;
const CONST_NAME: u64 = 11;
const TRAIT_A: u64 = 31;
const TRAIT_B: u64 = 32;
const ALIAS_NAME: u64 = 33;

fn span_at(column: usize) -> Span {
    Span { line: 1, column }
}

fn tokens(kinds: Vec<TokenKind>) -> Vec<Token> {
    let mut out = Vec::new();
    for (i, kind) in kinds.into_iter().enumerate() {
        out.push(Token { kind, span: span_at(i + 1) });
    }
    out
}

fn class_state(kinds: Vec<TokenKind>) -> State {
    State::new(
        tokens(kinds),
        vec![Scope::Class { name: CLASS_NAME, extends: None, implements: Vec::new() }],
    )
}

fn enum_state(kinds: Vec<TokenKind>) -> State {
    State::new(tokens(kinds), vec![Scope::Enum { name: ENUM_NAME, backing: None }])
}

fn interface_state(kinds: Vec<TokenKind>) -> State {
    State::new(tokens(kinds), Vec::new())
}

#[test]
fn unit_enum_case_with_value_fails() {
    let mut state = enum_state(vec![
        TokenKind::Case,
        TokenKind::Identifier(CASE_NAME),
        TokenKind::Equals,
        TokenKind::Integer(1),
        TokenKind::SemiColon,
    ]);
    let r = unit_enum_member(&mut state);
    assert_eq!(
        r,
        Err(ParseError::CaseValueForUnitEnum {
            case: CASE_NAME,
            enum_name: ENUM_NAME,
            span: span_at(3),
        })
    );
}

#[test]
fn unit_enum_case_without_value_succeeds() {
    let mut state = enum_state(vec![
        TokenKind::Case,
        TokenKind::Identifier(CASE_NAME),
        TokenKind::SemiColon,
    ]);
    let r = unit_enum_member(&mut state).unwrap();
    match r {
        UnitEnumMember::Case(case) => {
            assert_eq!(case.name.name, CASE_NAME);
            assert_eq!(case.start, span_at(1));
            assert_eq!(case.end, span_at(3));
        }
        other => panic!("expected a case, got {:?}", other),
    }
    assert_eq!(state.position, 3);
}

#[test]
fn backed_enum_case_without_value_fails() {
    let mut state = enum_state(vec![
        TokenKind::Case,
        TokenKind::Identifier(CASE_NAME),
        TokenKind::SemiColon,
    ]);
    let r = backed_enum_member(&mut state);
    assert_eq!(
        r,
        Err(ParseError::MissingCaseValueForBackedEnum {
            case: CASE_NAME,
            enum_name: ENUM_NAME,
            span: span_at(3),
        })
    );
}

#[test]
fn backed_enum_case_with_value_succeeds() {
    let mut state = enum_state(vec![
        TokenKind::Case,
        TokenKind::Identifier(CASE_NAME),
        TokenKind::Equals,
        TokenKind::Integer(1),
        TokenKind::SemiColon,
    ]);
    let r = backed_enum_member(&mut state).unwrap();
    match r {
        BackedEnumMember::Case(case) => {
            assert_eq!(case.name.name, CASE_NAME);
            assert_eq!(case.value, Expression::Integer { value: 1, span: span_at(4) });
            assert_eq!(case.end, span_at(5));
        }
        other => panic!("expected a case, got {:?}", other),
    }
}

#[test]
fn unit_enum_method_and_constant_fall_through() {
    let mut state = enum_state(vec![
        TokenKind::Function,
        TokenKind::Identifier(METHOD_NAME),
        TokenKind::LeftParen,
        TokenKind::RightParen,
        TokenKind::LeftBrace,
        TokenKind::RightBrace,
    ]);
    let r = unit_enum_member(&mut state).unwrap();
    match r {
        UnitEnumMember::Method(m) => assert_eq!(m.name.name, METHOD_NAME),
        other => panic!("expected a method, got {:?}", other),
    }

    let mut state = enum_state(vec![
        TokenKind::Const,
        TokenKind::Identifier(CONST_NAME),
        TokenKind::Equals,
        TokenKind::Integer(3),
        TokenKind::SemiColon,
    ]);
    let r = unit_enum_member(&mut state).unwrap();
    match r {
        UnitEnumMember::Constant(c) => {
            assert_eq!(c.name.name, CONST_NAME);
            assert_eq!(c.value, Expression::Integer { value: 3, span: span_at(4) });
        }
        other => panic!("expected a constant, got {:?}", other),
    }
}

#[test]
fn readonly_static_property_fails_untyped() {
    let mut state = class_state(vec![
        TokenKind::Readonly,
        TokenKind::Static,
        TokenKind::Variable(PROP_NAME),
        TokenKind::SemiColon,
    ]);
    let r = class_like_statement(&mut state);
    assert_eq!(
        r,
        Err(ParseError::StaticPropertyUsingReadonlyModifier {
            class: OwnerName::Named(CLASS_NAME),
            property: PROP_NAME,
            span: span_at(4),
        })
    );
}

#[test]
fn readonly_static_property_fails_typed() {
    let mut state = class_state(vec![
        TokenKind::Readonly,
        TokenKind::Static,
        TokenKind::Identifier(TYPE_NAME),
        TokenKind::Variable(PROP_NAME),
        TokenKind::SemiColon,
    ]);
    let r = class_like_statement(&mut state);
    assert!(matches!(r, Err(ParseError::StaticPropertyUsingReadonlyModifier { .. })));
}

#[test]
fn readonly_property_with_default_fails() {
    let mut state = class_state(vec![
        TokenKind::Readonly,
        TokenKind::Identifier(TYPE_NAME),
        TokenKind::Variable(PROP_NAME),
        TokenKind::Equals,
        TokenKind::Integer(1),
        TokenKind::SemiColon,
    ]);
    let r = class_like_statement(&mut state);
    assert_eq!(
        r,
        Err(ParseError::ReadonlyPropertyHasDefaultValue {
            class: OwnerName::Named(CLASS_NAME),
            property: PROP_NAME,
            span: span_at(6),
        })
    );
}

#[test]
fn readonly_typed_property_succeeds() {
    let mut state = class_state(vec![
        TokenKind::Readonly,
        TokenKind::Identifier(TYPE_NAME),
        TokenKind::Variable(PROP_NAME),
        TokenKind::SemiColon,
    ]);
    let r = class_like_statement(&mut state).unwrap();
    match r {
        Statement::Property { var, value, data_type, modifiers, attributes } => {
            assert_eq!(var.name, PROP_NAME);
            assert_eq!(value, None);
            assert_eq!(data_type, Some(DataType::Named { name: TYPE_NAME, span: span_at(2) }));
            assert!(modifiers.is_readonly);
            assert!(!modifiers.is_static);
            assert!(attributes.is_empty());
        }
        other => panic!("expected a property, got {:?}", other),
    }
}

#[test]
fn readonly_property_without_type_fails() {
    let mut state = class_state(vec![
        TokenKind::Readonly,
        TokenKind::Variable(PROP_NAME),
        TokenKind::SemiColon,
    ]);
    let r = class_like_statement(&mut state);
    assert_eq!(
        r,
        Err(ParseError::MissingTypeForReadonlyProperty {
            class: OwnerName::Named(CLASS_NAME),
            property: PROP_NAME,
            span: span_at(3),
        })
    );
}

#[test]
fn untyped_public_property_succeeds() {
    let mut state = class_state(vec![
        TokenKind::Public,
        TokenKind::Variable(PROP_NAME),
        TokenKind::SemiColon,
    ]);
    let r = class_like_statement(&mut state).unwrap();
    match r {
        Statement::Property { var, value, data_type, modifiers, .. } => {
            assert_eq!(var.name, PROP_NAME);
            assert_eq!(value, None);
            assert_eq!(data_type, None);
            assert_eq!(modifiers.visibility, Some(Visibility::Public));
            assert!(!modifiers.is_readonly);
        }
        other => panic!("expected a property, got {:?}", other),
    }
}

#[test]
fn callable_typed_property_fails() {
    let mut state = class_state(vec![
        TokenKind::Callable,
        TokenKind::Variable(PROP_NAME),
        TokenKind::SemiColon,
    ]);
    let r = class_like_statement(&mut state);
    assert_eq!(
        r,
        Err(ParseError::ForbiddenTypeUsedInProperty {
            class: OwnerName::Named(CLASS_NAME),
            property: PROP_NAME,
            data_type: DataType::Callable { span: span_at(1) },
            span: span_at(3),
        })
    );
}

#[test]
fn bottom_typed_property_fails() {
    let mut state = class_state(vec![
        TokenKind::Never,
        TokenKind::Variable(PROP_NAME),
        TokenKind::SemiColon,
    ]);
    let r = class_like_statement(&mut state);
    assert!(matches!(r, Err(ParseError::ForbiddenTypeUsedInProperty { .. })));
}

#[test]
fn named_typed_property_succeeds() {
    let mut state = class_state(vec![
        TokenKind::Identifier(TYPE_NAME),
        TokenKind::Variable(PROP_NAME),
        TokenKind::Equals,
        TokenKind::Integer(4),
        TokenKind::SemiColon,
    ]);
    let r = class_like_statement(&mut state).unwrap();
    match r {
        Statement::Property { value, data_type, .. } => {
            assert_eq!(value, Some(Expression::Integer { value: 4, span: span_at(4) }));
            assert_eq!(data_type, Some(DataType::Named { name: TYPE_NAME, span: span_at(1) }));
        }
        other => panic!("expected a property, got {:?}", other),
    }
}

#[test]
fn anonymous_class_property_error_names_anonymous_owner() {
    let mut state = State::new(
        tokens(vec![
            TokenKind::Readonly,
            TokenKind::Variable(PROP_NAME),
            TokenKind::SemiColon,
        ]),
        vec![Scope::AnonymousClass { id: 1 }],
    );
    let r = class_like_statement(&mut state);
    assert_eq!(
        r,
        Err(ParseError::MissingTypeForReadonlyProperty {
            class: OwnerName::Anonymous,
            property: PROP_NAME,
            span: span_at(3),
        })
    );
}

#[test]
fn attributed_interface_member_routes_to_method() {
    // the keyword after the attribute would introduce a constant, yet the
    // member is parsed as a method, so the function keyword is demanded
    let mut state = interface_state(vec![
        TokenKind::Attribute(ATTR_NAME),
        TokenKind::Const,
        TokenKind::Identifier(CONST_NAME),
        TokenKind::Equals,
        TokenKind::Integer(1),
        TokenKind::SemiColon,
    ]);
    let r = interface_statement(&mut state);
    assert_eq!(
        r,
        Err(ParseError::UnexpectedToken {
            expected: ExpectedSet::Token(TokenKind::Function),
            found: TokenKind::Const,
            span: span_at(2),
        })
    );
}

#[test]
fn interface_constant_end_to_end() {
    let mut state = interface_state(vec![
        TokenKind::Const,
        TokenKind::Identifier(CONST_NAME),
        TokenKind::Equals,
        TokenKind::Integer(1),
        TokenKind::SemiColon,
    ]);
    let r = interface_statement(&mut state).unwrap();
    match r {
        Statement::ClassishConstant(c) => {
            assert_eq!(c.name.name, CONST_NAME);
            assert_eq!(c.value, Expression::Integer { value: 1, span: span_at(4) });
            assert_eq!(c.start, span_at(1));
            assert_eq!(c.end, span_at(5));
        }
        other => panic!("expected a constant, got {:?}", other),
    }
}

#[test]
fn interface_method_with_modifiers() {
    let mut state = interface_state(vec![
        TokenKind::Public,
        TokenKind::Static,
        TokenKind::Function,
        TokenKind::Identifier(METHOD_NAME),
        TokenKind::LeftParen,
        TokenKind::RightParen,
        TokenKind::LeftBrace,
        TokenKind::RightBrace,
    ]);
    let r = interface_statement(&mut state).unwrap();
    match r {
        Statement::Method(m) => {
            assert_eq!(m.name.name, METHOD_NAME);
            assert_eq!(m.modifiers.visibility, Some(Visibility::Public));
            assert!(m.modifiers.is_static);
            assert_eq!(m.start, span_at(1));
            assert_eq!(m.end, span_at(8));
        }
        other => panic!("expected a method, got {:?}", other),
    }
}

#[test]
fn class_member_public_readonly_string_end_to_end() {
    let mut state = class_state(vec![
        TokenKind::Public,
        TokenKind::Readonly,
        TokenKind::Identifier(TYPE_NAME),
        TokenKind::Variable(PROP_NAME),
        TokenKind::SemiColon,
    ]);
    let r = class_like_statement(&mut state).unwrap();
    match r {
        Statement::Property { var, value, data_type, modifiers, attributes } => {
            assert_eq!(var.name, PROP_NAME);
            assert_eq!(value, None);
            assert_eq!(data_type, Some(DataType::Named { name: TYPE_NAME, span: span_at(3) }));
            assert_eq!(modifiers.visibility, Some(Visibility::Public));
            assert!(modifiers.is_readonly);
            assert!(!modifiers.is_static);
            assert!(attributes.is_empty());
        }
        other => panic!("expected a property, got {:?}", other),
    }
}

#[test]
fn attribute_is_threaded_into_method() {
    let mut state = class_state(vec![
        TokenKind::Attribute(ATTR_NAME),
        TokenKind::Function,
        TokenKind::Identifier(METHOD_NAME),
        TokenKind::LeftParen,
        TokenKind::RightParen,
        TokenKind::LeftBrace,
        TokenKind::RightBrace,
    ]);
    let r = class_like_statement(&mut state).unwrap();
    match r {
        Statement::Method(m) => {
            assert_eq!(m.attributes.len(), 1);
            assert_eq!(m.attributes[0].name, ATTR_NAME);
            assert_eq!(m.attributes[0].span, span_at(1));
        }
        other => panic!("expected a method, got {:?}", other),
    }
}

#[test]
fn duplicate_visibility_is_rejected() {
    let mut state = class_state(vec![
        TokenKind::Public,
        TokenKind::Private,
        TokenKind::Variable(PROP_NAME),
        TokenKind::SemiColon,
    ]);
    let r = class_like_statement(&mut state);
    assert_eq!(r, Err(ParseError::MultipleVisibilityModifiers { span: span_at(2) }));
}

#[test]
fn repeated_modifier_is_rejected() {
    let mut state = class_state(vec![
        TokenKind::Static,
        TokenKind::Static,
        TokenKind::Variable(PROP_NAME),
        TokenKind::SemiColon,
    ]);
    let r = class_like_statement(&mut state);
    assert_eq!(
        r,
        Err(ParseError::DuplicateModifier { modifier: ModifierKind::Static, span: span_at(2) })
    );
}

#[test]
fn modifier_refused_by_construct_is_rejected() {
    // abstract is no property modifier
    let mut state = class_state(vec![
        TokenKind::Abstract,
        TokenKind::Variable(PROP_NAME),
        TokenKind::SemiColon,
    ]);
    let r = class_like_statement(&mut state);
    assert_eq!(
        r,
        Err(ParseError::CannotUseModifier { modifier: ModifierKind::Abstract, span: span_at(1) })
    );

    // static is no interface-constant modifier
    let mut state = interface_state(vec![
        TokenKind::Static,
        TokenKind::Const,
        TokenKind::Identifier(CONST_NAME),
        TokenKind::Equals,
        TokenKind::Integer(1),
        TokenKind::SemiColon,
    ]);
    let r = interface_statement(&mut state);
    assert_eq!(
        r,
        Err(ParseError::CannotUseModifier { modifier: ModifierKind::Static, span: span_at(1) })
    );
}

#[test]
fn use_with_two_names_and_no_adaptations() {
    let mut state = class_state(vec![
        TokenKind::Use,
        TokenKind::Identifier(TRAIT_A),
        TokenKind::Comma,
        TokenKind::Identifier(TRAIT_B),
        TokenKind::SemiColon,
    ]);
    let r = class_like_statement(&mut state).unwrap();
    match r {
        Statement::TraitUse { traits, adaptations } => {
            assert_eq!(traits.len(), 2);
            assert_eq!(traits[0].name, TRAIT_A);
            assert_eq!(traits[1].name, TRAIT_B);
            assert!(adaptations.is_empty());
        }
        other => panic!("expected a trait use, got {:?}", other),
    }
    assert_eq!(state.position, 5);
}

#[test]
fn use_with_trailing_comma_fails_at_the_comma() {
    let mut state = class_state(vec![
        TokenKind::Use,
        TokenKind::Identifier(TRAIT_A),
        TokenKind::Comma,
        TokenKind::Identifier(TRAIT_B),
        TokenKind::Comma,
        TokenKind::SemiColon,
    ]);
    let r = class_like_statement(&mut state);
    assert_eq!(
        r,
        Err(ParseError::UnexpectedToken {
            expected: ExpectedSet::Token(TokenKind::SemiColon),
            found: TokenKind::Comma,
            span: span_at(5),
        })
    );
}

#[test]
fn use_alias_without_visibility() {
    let mut state = class_state(vec![
        TokenKind::Use,
        TokenKind::Identifier(TRAIT_A),
        TokenKind::LeftBrace,
        TokenKind::Identifier(METHOD_NAME),
        TokenKind::As,
        TokenKind::Identifier(ALIAS_NAME),
        TokenKind::SemiColon,
        TokenKind::RightBrace,
    ]);
    let r = class_like_statement(&mut state).unwrap();
    match r {
        Statement::TraitUse { traits, adaptations } => {
            assert_eq!(traits.len(), 1);
            assert_eq!(adaptations.len(), 1);
            match &adaptations[0] {
                TraitAdaptation::Alias { trait_name, method, alias, visibility } => {
                    assert!(trait_name.is_none());
                    assert_eq!(method.name, METHOD_NAME);
                    assert_eq!(alias.name, ALIAS_NAME);
                    assert!(visibility.is_none());
                }
                other => panic!("expected an alias, got {:?}", other),
            }
        }
        other => panic!("expected a trait use, got {:?}", other),
    }
}

#[test]
fn use_alias_with_visibility() {
    let mut state = class_state(vec![
        TokenKind::Use,
        TokenKind::Identifier(TRAIT_A),
        TokenKind::LeftBrace,
        TokenKind::Identifier(METHOD_NAME),
        TokenKind::As,
        TokenKind::Public,
        TokenKind::Identifier(ALIAS_NAME),
        TokenKind::SemiColon,
        TokenKind::RightBrace,
    ]);
    let r = class_like_statement(&mut state).unwrap();
    match r {
        Statement::TraitUse { adaptations, .. } => {
            match &adaptations[0] {
                TraitAdaptation::Alias { alias, visibility, .. } => {
                    assert_eq!(alias.name, ALIAS_NAME);
                    assert_eq!(
                        *visibility,
                        Some(VisibilityModifier::Public { start: span_at(6), end: span_at(7) })
                    );
                }
                other => panic!("expected an alias, got {:?}", other),
            }
        }
        other => panic!("expected a trait use, got {:?}", other),
    }
}

#[test]
fn use_visibility_change_without_alias() {
    let mut state = class_state(vec![
        TokenKind::Use,
        TokenKind::Identifier(TRAIT_A),
        TokenKind::LeftBrace,
        TokenKind::Identifier(METHOD_NAME),
        TokenKind::As,
        TokenKind::Public,
        TokenKind::SemiColon,
        TokenKind::RightBrace,
    ]);
    let r = class_like_statement(&mut state).unwrap();
    match r {
        Statement::TraitUse { adaptations, .. } => {
            match &adaptations[0] {
                TraitAdaptation::Visibility { trait_name, method, visibility } => {
                    assert!(trait_name.is_none());
                    assert_eq!(method.name, METHOD_NAME);
                    assert_eq!(
                        *visibility,
                        VisibilityModifier::Public { start: span_at(6), end: span_at(7) }
                    );
                }
                other => panic!("expected a visibility change, got {:?}", other),
            }
        }
        other => panic!("expected a trait use, got {:?}", other),
    }
}

#[test]
fn use_precedence_single_insteadof() {
    let mut state = class_state(vec![
        TokenKind::Use,
        TokenKind::Identifier(TRAIT_A),
        TokenKind::Comma,
        TokenKind::Identifier(TRAIT_B),
        TokenKind::LeftBrace,
        TokenKind::Identifier(TRAIT_A),
        TokenKind::DoubleColon,
        TokenKind::Identifier(METHOD_NAME),
        TokenKind::Insteadof,
        TokenKind::Identifier(TRAIT_B),
        TokenKind::SemiColon,
        TokenKind::RightBrace,
    ]);
    let r = class_like_statement(&mut state).unwrap();
    match r {
        Statement::TraitUse { traits, adaptations } => {
            assert_eq!(traits.len(), 2);
            match &adaptations[0] {
                TraitAdaptation::Precedence { trait_name, method, insteadof } => {
                    assert_eq!(trait_name.as_ref().unwrap().name, TRAIT_A);
                    assert_eq!(method.name, METHOD_NAME);
                    assert_eq!(insteadof.len(), 1);
                    assert_eq!(insteadof[0].name, TRAIT_B);
                }
                other => panic!("expected a precedence rule, got {:?}", other),
            }
        }
        other => panic!("expected a trait use, got {:?}", other),
    }
}

#[test]
fn use_precedence_multiple_insteadof() {
    let mut state = class_state(vec![
        TokenKind::Use,
        TokenKind::Identifier(TRAIT_A),
        TokenKind::LeftBrace,
        TokenKind::Identifier(TRAIT_A),
        TokenKind::DoubleColon,
        TokenKind::Identifier(METHOD_NAME),
        TokenKind::Insteadof,
        TokenKind::Identifier(TRAIT_B),
        TokenKind::Comma,
        TokenKind::Identifier(ALIAS_NAME),
        TokenKind::SemiColon,
        TokenKind::RightBrace,
    ]);
    let r = class_like_statement(&mut state).unwrap();
    match r {
        Statement::TraitUse { adaptations, .. } => {
            match &adaptations[0] {
                TraitAdaptation::Precedence { insteadof, .. } => {
                    assert_eq!(insteadof.len(), 2);
                    assert_eq!(insteadof[0].name, TRAIT_B);
                    assert_eq!(insteadof[1].name, ALIAS_NAME);
                }
                other => panic!("expected a precedence rule, got {:?}", other),
            }
        }
        other => panic!("expected a trait use, got {:?}", other),
    }
}

#[test]
fn insteadof_trailing_comma_fails_at_the_comma() {
    let mut state = class_state(vec![
        TokenKind::Use,
        TokenKind::Identifier(TRAIT_A),
        TokenKind::LeftBrace,
        TokenKind::Identifier(METHOD_NAME),
        TokenKind::Insteadof,
        TokenKind::Identifier(TRAIT_B),
        TokenKind::Comma,
        TokenKind::SemiColon,
        TokenKind::RightBrace,
    ]);
    let r = class_like_statement(&mut state);
    assert_eq!(
        r,
        Err(ParseError::UnexpectedToken {
            expected: ExpectedSet::Token(TokenKind::SemiColon),
            found: TokenKind::Comma,
            span: span_at(7),
        })
    );
}

#[test]
fn adaptation_requires_as_or_insteadof() {
    let mut state = class_state(vec![
        TokenKind::Use,
        TokenKind::Identifier(TRAIT_A),
        TokenKind::LeftBrace,
        TokenKind::Identifier(METHOD_NAME),
        TokenKind::SemiColon,
        TokenKind::RightBrace,
    ]);
    let r = class_like_statement(&mut state);
    assert_eq!(
        r,
        Err(ParseError::UnexpectedToken {
            expected: ExpectedSet::AsOrInsteadof,
            found: TokenKind::SemiColon,
            span: span_at(5),
        })
    );
}

#[test]
fn class_constant_and_method_dispatch() {
    let mut state = class_state(vec![
        TokenKind::Const,
        TokenKind::Identifier(CONST_NAME),
        TokenKind::Equals,
        TokenKind::Integer(2),
        TokenKind::SemiColon,
    ]);
    let r = class_like_statement(&mut state).unwrap();
    assert!(matches!(r, Statement::ClassishConstant(_)));

    let mut state = class_state(vec![
        TokenKind::Final,
        TokenKind::Function,
        TokenKind::Identifier(METHOD_NAME),
        TokenKind::LeftParen,
        TokenKind::RightParen,
        TokenKind::LeftBrace,
        TokenKind::RightBrace,
    ]);
    let r = class_like_statement(&mut state).unwrap();
    match r {
        Statement::Method(m) => assert!(m.modifiers.is_final),
        other => panic!("expected a method, got {:?}", other),
    }
}

#[test]
fn constant_missing_equals_fails() {
    let mut state = class_state(vec![
        TokenKind::Const,
        TokenKind::Identifier(CONST_NAME),
        TokenKind::SemiColon,
    ]);
    let r = class_like_statement(&mut state);
    assert_eq!(
        r,
        Err(ParseError::UnexpectedToken {
            expected: ExpectedSet::Token(TokenKind::Equals),
            found: TokenKind::SemiColon,
            span: span_at(3),
        })
    );
}

#[test]
fn property_missing_variable_fails() {
    let mut state = class_state(vec![TokenKind::Equals, TokenKind::SemiColon]);
    let r = class_like_statement(&mut state);
    assert_eq!(
        r,
        Err(ParseError::UnexpectedToken {
            expected: ExpectedSet::Variable,
            found: TokenKind::Equals,
            span: span_at(1),
        })
    );
}

#[test]
fn constant_value_must_be_an_expression() {
    let mut state = class_state(vec![
        TokenKind::Const,
        TokenKind::Identifier(CONST_NAME),
        TokenKind::Equals,
        TokenKind::SemiColon,
    ]);
    let r = class_like_statement(&mut state);
    assert_eq!(
        r,
        Err(ParseError::UnexpectedToken {
            expected: ExpectedSet::Expression,
            found: TokenKind::SemiColon,
            span: span_at(4),
        })
    );
}

#[test]
fn empty_use_list_is_kept_as_parsed() {
    let mut state = class_state(vec![TokenKind::Use, TokenKind::SemiColon]);
    let r = class_like_statement(&mut state).unwrap();
    match r {
        Statement::TraitUse { traits, adaptations } => {
            assert!(traits.is_empty());
            assert!(adaptations.is_empty());
        }
        other => panic!("expected a trait use, got {:?}", other),
    }
}

#[test]
fn qualified_trait_names_are_accepted() {
    let mut state = class_state(vec![
        TokenKind::Use,
        TokenKind::QualifiedIdentifier(TRAIT_A),
        TokenKind::Comma,
        TokenKind::QualifiedIdentifier(TRAIT_B),
        TokenKind::SemiColon,
    ]);
    let r = class_like_statement(&mut state).unwrap();
    match r {
        Statement::TraitUse { traits, .. } => {
            assert_eq!(traits.len(), 2);
            assert_eq!(traits[0].name, TRAIT_A);
            assert_eq!(traits[1].name, TRAIT_B);
        }
        other => panic!("expected a trait use, got {:?}", other),
    }
}

#[test]
fn qualified_alias_adaptation() {
    let mut state = class_state(vec![
        TokenKind::Use,
        TokenKind::Identifier(TRAIT_A),
        TokenKind::LeftBrace,
        TokenKind::Identifier(TRAIT_A),
        TokenKind::DoubleColon,
        TokenKind::Identifier(METHOD_NAME),
        TokenKind::As,
        TokenKind::Identifier(ALIAS_NAME),
        TokenKind::SemiColon,
        TokenKind::RightBrace,
    ]);
    let r = class_like_statement(&mut state).unwrap();
    match r {
        Statement::TraitUse { adaptations, .. } => {
            match &adaptations[0] {
                TraitAdaptation::Alias { trait_name, method, alias, visibility } => {
                    assert_eq!(trait_name.as_ref().unwrap().name, TRAIT_A);
                    assert_eq!(method.name, METHOD_NAME);
                    assert_eq!(alias.name, ALIAS_NAME);
                    assert!(visibility.is_none());
                }
                other => panic!("expected an alias, got {:?}", other),
            }
        }
        other => panic!("expected a trait use, got {:?}", other),
    }
}

#[test]
fn attributed_enum_member_is_not_a_case() {
    // the case keyword after an attribute falls through to method parsing
    let mut state = enum_state(vec![
        TokenKind::Attribute(ATTR_NAME),
        TokenKind::Case,
        TokenKind::Identifier(CASE_NAME),
        TokenKind::SemiColon,
    ]);
    let r = unit_enum_member(&mut state);
    assert_eq!(
        r,
        Err(ParseError::UnexpectedToken {
            expected: ExpectedSet::Token(TokenKind::Function),
            found: TokenKind::Case,
            span: span_at(2),
        })
    );
}

#[test]
fn use_without_terminator_fails_at_end_of_input() {
    let mut state = class_state(vec![TokenKind::Use, TokenKind::Identifier(TRAIT_A)]);
    let r = class_like_statement(&mut state);
    assert_eq!(
        r,
        Err(ParseError::UnexpectedToken {
            expected: ExpectedSet::Token(TokenKind::SemiColon),
            found: TokenKind::Eof,
            span: Span { line: 0, column: 0 },
        })
    );
}
