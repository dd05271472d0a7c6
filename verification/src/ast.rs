use vstd::prelude::*;

use crate::token::Span;
use crate::token::Symbol;

verus! {

/// A parsed name with the span it was read from.
#[derive(Clone, Copy, PartialEq, Eq, Debug)]
pub struct Identifier {
    pub span: Span,
    pub name: Symbol,
}

/// One attribute group gathered in front of a declaration.
#[derive(Clone, Copy, PartialEq, Eq, Debug)]
pub struct Attribute {
    pub name: Symbol,
    pub span: Span,
}

/// A parsed literal expression: a default value, a constant value, or an
/// enum backing value. This library parses literal expressions itself; the
/// full expression grammar belongs to the surrounding front-end.
#[derive(Clone, Copy, PartialEq, Eq, Debug)]
pub enum Expression {
    Integer { value: u64, span: Span },
    Bool { value: bool, span: Span },
    Null { span: Span },
}

/// A declared type annotation.
#[derive(Clone, Copy, PartialEq, Eq, Debug)]
pub enum DataType {
    Named { name: Symbol, span: Span },
    Callable { span: Span },
    Never { span: Span },
}

/// Whether a declared type has a callable shape, which a property may not have.
pub open spec fn spec_includes_callable(t: DataType) -> bool {
    t is Callable
}

/// Whether a declared type is the bottom type, which a property may not have.
pub open spec fn spec_is_bottom(t: DataType) -> bool {
    t is Never
}

/// One visibility keyword as written in a trait adaptation, with the spans of
/// the keyword and of the token after it.
#[derive(Clone, Copy, PartialEq, Eq, Debug)]
pub enum VisibilityModifier {
    Public { start: Span, end: Span },
    Protected { start: Span, end: Span },
    Private { start: Span, end: Span },
}

/// A visibility level recorded in a validated modifier group.
#[derive(Clone, Copy, PartialEq, Eq, Debug)]
pub enum Visibility {
    Public,
    Protected,
    Private,
}

/// One raw modifier keyword, before per-construct validation.
#[derive(Clone, Copy, PartialEq, Eq, Debug)]
pub enum ModifierKind {
    Public,
    Protected,
    Private,
    Static,
    Abstract,
    Final,
    Readonly,
}

/// A raw modifier token as collected from the stream.
#[derive(Clone, Copy, PartialEq, Eq, Debug)]
pub struct RawModifier {
    pub kind: ModifierKind,
    pub span: Span,
}

/// A validated, order-independent modifier set. At most one visibility
/// modifier; which flags may be set depends on the construct and is decided
/// by the per-construct validators.
#[derive(Clone, Copy, PartialEq, Eq, Debug)]
pub struct ModifierGroup {
    pub visibility: Option<Visibility>,
    pub is_static: bool,
    pub is_abstract: bool,
    pub is_final: bool,
    pub is_readonly: bool,
}

/// A parsed method. Parameter lists and bodies beyond the empty shape belong
/// to the function sub-parser of the surrounding front-end.
#[derive(Clone, PartialEq, Eq, Debug)]
pub struct Method {
    pub name: Identifier,
    pub modifiers: ModifierGroup,
    pub attributes: Vec<Attribute>,
    pub start: Span,
    pub end: Span,
}

/// A class-like constant with its mandatory initializer.
#[derive(Clone, Copy, PartialEq, Eq, Debug)]
pub struct ClassishConstant {
    pub start: Span,
    pub end: Span,
    pub name: Identifier,
    pub value: Expression,
    pub modifiers: ModifierGroup,
}

/// A unit-enum case: never carries a value.
#[derive(Clone, Copy, PartialEq, Eq, Debug)]
pub struct UnitEnumCase {
    pub start: Span,
    pub end: Span,
    pub name: Identifier,
}

/// A backed-enum case: always carries a value.
#[derive(Clone, Copy, PartialEq, Eq, Debug)]
pub struct BackedEnumCase {
    pub start: Span,
    pub end: Span,
    pub name: Identifier,
    pub value: Expression,
}

/// One rule of a trait-use adaptation block.
#[derive(Clone, PartialEq, Eq, Debug)]
pub enum TraitAdaptation {
    /// `m as [visibility] alias;`
    Alias {
        trait_name: Option<Identifier>,
        method: Identifier,
        alias: Identifier,
        visibility: Option<VisibilityModifier>,
    },
    /// `m as visibility;` — a visibility change without a rename.
    Visibility {
        trait_name: Option<Identifier>,
        method: Identifier,
        visibility: VisibilityModifier,
    },
    /// `T::m insteadof U, ...;` — a non-empty precedence list.
    Precedence {
        trait_name: Option<Identifier>,
        method: Identifier,
        insteadof: Vec<Identifier>,
    },
}

/// One member of a class, trait, or anonymous-class body.
#[derive(Clone, PartialEq, Eq, Debug)]
pub enum Statement {
    Method(Method),
    ClassishConstant(ClassishConstant),
    Property {
        var: Identifier,
        value: Option<Expression>,
        data_type: Option<DataType>,
        modifiers: ModifierGroup,
        attributes: Vec<Attribute>,
    },
    TraitUse {
        traits: Vec<Identifier>,
        adaptations: Vec<TraitAdaptation>,
    },
}

/// One member of a unit-enum body.
#[derive(Clone, PartialEq, Eq, Debug)]
pub enum UnitEnumMember {
    Case(UnitEnumCase),
    Method(Method),
    Constant(ClassishConstant),
}

/// One member of a backed-enum body.
#[derive(Clone, PartialEq, Eq, Debug)]
pub enum BackedEnumMember {
    Case(BackedEnumCase),
    Method(Method),
    Constant(ClassishConstant),
}

/// The mathematical image of a parsed method: attribute lists as sequences.
#[verifier::ext_equal]
pub struct SpecMethod {
    pub name: Identifier,
    pub modifiers: ModifierGroup,
    pub attributes: Seq<Attribute>,
    pub start: Span,
    pub end: Span,
}

/// The mathematical image of one adaptation rule.
#[verifier::ext_equal]
pub enum SpecTraitAdaptation {
    Alias {
        trait_name: Option<Identifier>,
        method: Identifier,
        alias: Identifier,
        visibility: Option<VisibilityModifier>,
    },
    Visibility {
        trait_name: Option<Identifier>,
        method: Identifier,
        visibility: VisibilityModifier,
    },
    Precedence {
        trait_name: Option<Identifier>,
        method: Identifier,
        insteadof: Seq<Identifier>,
    },
}

/// The mathematical image of one class-like member.
#[verifier::ext_equal]
pub enum SpecStatement {
    Method(SpecMethod),
    ClassishConstant(ClassishConstant),
    Property {
        var: Identifier,
        value: Option<Expression>,
        data_type: Option<DataType>,
        modifiers: ModifierGroup,
        attributes: Seq<Attribute>,
    },
    TraitUse {
        traits: Seq<Identifier>,
        adaptations: Seq<SpecTraitAdaptation>,
    },
}

/// The mathematical image of one unit-enum member.
#[verifier::ext_equal]
pub enum SpecUnitEnumMember {
    Case(UnitEnumCase),
    Method(SpecMethod),
    Constant(ClassishConstant),
}

/// The mathematical image of one backed-enum member.
#[verifier::ext_equal]
pub enum SpecBackedEnumMember {
    Case(BackedEnumCase),
    Method(SpecMethod),
    Constant(ClassishConstant),
}

impl View for Method {
    type V = SpecMethod;

    open spec fn view(&self) -> SpecMethod {
        SpecMethod {
            name: self.name,
            modifiers: self.modifiers,
            attributes: self.attributes@,
            start: self.start,
            end: self.end,
        }
    }
}

impl View for TraitAdaptation {
    type V = SpecTraitAdaptation;

    open spec fn view(&self) -> SpecTraitAdaptation {
        match *self {
            TraitAdaptation::Alias { trait_name, method, alias, visibility } => {
                SpecTraitAdaptation::Alias { trait_name, method, alias, visibility }
            },
            TraitAdaptation::Visibility { trait_name, method, visibility } => {
                SpecTraitAdaptation::Visibility { trait_name, method, visibility }
            },
            TraitAdaptation::Precedence { trait_name, method, insteadof } => {
                SpecTraitAdaptation::Precedence { trait_name, method, insteadof: insteadof@ }
            },
        }
    }
}

impl View for Statement {
    type V = SpecStatement;

    open spec fn view(&self) -> SpecStatement {
        match *self {
            Statement::Method(m) => SpecStatement::Method(m@),
            Statement::ClassishConstant(c) => SpecStatement::ClassishConstant(c),
            Statement::Property { var, value, data_type, modifiers, attributes } => {
                SpecStatement::Property { var, value, data_type, modifiers, attributes: attributes@ }
            },
            Statement::TraitUse { traits, adaptations } => {
                SpecStatement::TraitUse {
                    traits: traits@,
                    adaptations: adaptations@.map_values(|a: TraitAdaptation| a@),
                }
            },
        }
    }
}

impl View for UnitEnumMember {
    type V = SpecUnitEnumMember;

    open spec fn view(&self) -> SpecUnitEnumMember {
        match *self {
            UnitEnumMember::Case(c) => SpecUnitEnumMember::Case(c),
            UnitEnumMember::Method(m) => SpecUnitEnumMember::Method(m@),
            UnitEnumMember::Constant(c) => SpecUnitEnumMember::Constant(c),
        }
    }
}

impl View for BackedEnumMember {
    type V = SpecBackedEnumMember;

    open spec fn view(&self) -> SpecBackedEnumMember {
        match *self {
            BackedEnumMember::Case(c) => SpecBackedEnumMember::Case(c),
            BackedEnumMember::Method(m) => SpecBackedEnumMember::Method(m@),
            BackedEnumMember::Constant(c) => SpecBackedEnumMember::Constant(c),
        }
    }
}

/// Lifts a parse result to its mathematical image, leaving errors as they are.
pub open spec fn res_view<T: View>(r: Result<T, crate::error::ParseError>) -> Result<
    T::V,
    crate::error::ParseError,
> {
    match r {
        Ok(v) => Ok(v@),
        Err(e) => Err(e),
    }
}

} // verus!
