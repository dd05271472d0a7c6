//! A verified member-level parser for class-like declarations (classes,
//! interfaces, traits, and enums) of a class-based scripting language.
//!
//! The parser takes a token cursor positioned inside a class-like body and
//! produces one member declaration per call: a method, a typed property with
//! an optional default, a class constant, a trait-use import with its
//! conflict-resolution adaptations, or a unit/backed enum case.
//!
//! Every entry point carries a contract equating its result, and the tokens it
//! consumes, with a specification-level mirror of the grammar, so the exact
//! behaviour on every token sequence is pinned down.

pub mod ast;
pub mod attributes;
pub mod classish;
pub mod data_type;
pub mod error;
pub mod expressions;
pub mod functions;
pub mod identifiers;
pub mod laws;
pub mod modifiers;
pub mod state;
pub mod token;
pub mod utils;
