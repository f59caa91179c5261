//! Verified extraction of a QObject description from the syntax of a module.
//!
//! A module that declares one struct, its implementation blocks and some
//! imports is turned into a [`QObject`]: the properties that the struct's
//! fields give, the invokables that the methods of its inherent
//! implementations give, and handles to the syntax they came from. Every
//! function states in its contract which description or which diagnostic it
//! returns for every module.

pub mod descriptor;
pub mod error;
pub mod extract;
pub mod fold;
pub mod invokable;
pub mod laws;
pub mod naming;
pub mod position;
pub mod property;
pub mod resolve;
pub mod syntax;
pub mod type_expr;
pub mod views;

pub use crate::descriptor::{CppRustIdent, Invokable, Parameter, Property, QObject, TraitImpl};
pub use crate::error::{ErrorKind, ExtractError, ImplTarget, TypeUse};
pub use crate::extract::{extract_qobject, extract_qobject_with};
pub use crate::invokable::{extract_invokable, extract_invokables};
pub use crate::naming::{identifier_part, AccessorPattern, CaseStyle, NamePattern, NamingRules};
pub use crate::position::{SourcePosition, SyntaxHandle};
pub use crate::property::{extract_properties, extract_property};
pub use crate::resolve::{extract_type_ident, ExtractTypeIdentError, ParameterType};
pub use crate::syntax::{
    Field, Fields, FnArg, ImplBlock, ImplMember, Item, Method, Module, Output, Pattern, StructDef,
    TypedArg,
};
pub use crate::type_expr::{PathSegment, TypeExpr};
