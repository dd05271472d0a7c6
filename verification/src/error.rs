use vstd::prelude::*;

use crate::ast::DataType;
use crate::ast::ModifierKind;
use crate::state::OwnerName;
use crate::token::Span;
use crate::token::Symbol;
use crate::token::TokenKind;

verus! {

/// What an expect-and-consume helper was looking for when it failed.
#[derive(Clone, Copy, PartialEq, Eq, Debug)]
pub enum ExpectedSet {
    /// Exactly one token kind.
    Token(TokenKind),
    /// A bare identifier.
    Identifier,
    /// A variable name.
    Variable,
    /// A possibly-qualified name.
    FullName,
    /// The start of an expression.
    Expression,
    /// The `as` or `insteadof` keyword inside an adaptation block.
    AsOrInsteadof,
}

/// Everything this parser can report. Each error carries the offending span
/// and, where one exists, the scope-qualified owner it belongs to. Rendering
/// is the diagnostic layer's concern.
#[derive(Clone, Copy, PartialEq, Eq, Debug)]
pub enum ParseError {
    /// An "unexpected token, expected one of {...}" grammar violation.
    UnexpectedToken { expected: ExpectedSet, found: TokenKind, span: Span },
    /// A unit-enum case carried an explicit value.
    CaseValueForUnitEnum { case: Symbol, enum_name: Symbol, span: Span },
    /// A backed-enum case carried no value.
    MissingCaseValueForBackedEnum { case: Symbol, enum_name: Symbol, span: Span },
    /// A property was declared both readonly and static.
    StaticPropertyUsingReadonlyModifier { class: OwnerName, property: Symbol, span: Span },
    /// A readonly property carried a default value.
    ReadonlyPropertyHasDefaultValue { class: OwnerName, property: Symbol, span: Span },
    /// A property was declared with a callable-shaped or bottom type.
    ForbiddenTypeUsedInProperty { class: OwnerName, property: Symbol, data_type: DataType, span: Span },
    /// A readonly property was declared without a type.
    MissingTypeForReadonlyProperty { class: OwnerName, property: Symbol, span: Span },
    /// A second visibility modifier on one declaration.
    MultipleVisibilityModifiers { span: Span },
    /// The same modifier written twice on one declaration.
    DuplicateModifier { modifier: ModifierKind, span: Span },
    /// A modifier the construct at hand does not accept.
    CannotUseModifier { modifier: ModifierKind, span: Span },
}

/// The result of one member parse: fail-fast, first error only.
pub type ParseResult<T> = Result<T, ParseError>;

} // verus!
