//! The diagnostics of the extraction.

use vstd::prelude::*;
use crate::position::SourcePosition;
use crate::resolve::ExtractTypeIdentError;

verus! {

/// The place in which a type was written.
#[derive(Clone, Copy, Debug, PartialEq, Eq, Structural)]
pub enum TypeUse {
    /// The type of a method's argument.
    Argument,
    /// The return type of a method.
    ReturnType,
    /// The type of a named field of the struct.
    NamedField,
}

/// How the self type of an implementation block misses the struct.
#[derive(Clone, Copy, Debug, PartialEq, Eq, Structural)]
pub enum ImplTarget {
    /// The self type is no path at all.
    NotAPath,
    /// The self type is a path of no segment, or of more than one.
    Qualified,
    /// The self type names something other than the module's struct.
    OtherName,
}

/// The rule that a module broke.
#[derive(Clone, Copy, Debug, PartialEq, Eq, Structural)]
pub enum ErrorKind {
    /// An item of the module is neither a struct, an implementation block
    /// nor an import.
    UnsupportedItem,
    /// The module defines more than one struct.
    DuplicateStruct,
    /// An implementation block stands before the struct.
    ImplBeforeStruct,
    /// An implementation block is not one of the module's struct.
    ImplTargetMismatch(ImplTarget),
    /// A member of an inherent implementation block is not a method.
    UnsupportedMember,
    /// An argument of a method is bound by a pattern other than a name.
    InvalidParameterPattern,
    /// A type is neither a plain name nor a reference to one.
    UnresolvableType(TypeUse),
    /// A type is a path of no segment, or of more than one.
    QualifiedType(TypeUse),
    /// The module defines no struct.
    MissingStruct,
}

/// A diagnostic: the rule that was broken and the construct that broke it.
#[derive(Clone, Copy, Debug, PartialEq, Eq, Structural)]
pub struct ExtractError {
    /// The rule that was broken.
    pub kind: ErrorKind,
    /// Where the offending construct stands.
    pub position: SourcePosition,
}

/// The diagnostic that a failure to resolve a type becomes, for a type
/// written in the place `site` by a construct at `position`.
pub open spec fn type_error(
    cause: ExtractTypeIdentError,
    site: TypeUse,
    position: SourcePosition,
) -> ExtractError {
    match cause {
        ExtractTypeIdentError::InvalidType => ExtractError {
            kind: ErrorKind::UnresolvableType(site),
            position,
        },
        ExtractTypeIdentError::InvalidSegments => ExtractError {
            kind: ErrorKind::QualifiedType(site),
            position,
        },
    }
}

/// The text that tells a reader of the diagnostic which rule was broken.
pub open spec fn message_text(kind: ErrorKind) -> Seq<char> {
    match kind {
        ErrorKind::UnsupportedItem => "Unsupported item in mod."@,
        ErrorKind::DuplicateStruct => "Only one struct is supported per mod."@,
        ErrorKind::ImplBeforeStruct => "Impl can only be declared after a struct."@,
        ErrorKind::ImplTargetMismatch(ImplTarget::NotAPath) => "Expected a TypePath impl to parse."@,
        ErrorKind::ImplTargetMismatch(ImplTarget::Qualified) => "Invalid path on impl block."@,
        ErrorKind::ImplTargetMismatch(ImplTarget::OtherName) =>
            "The impl block needs to match the struct."@,
        ErrorKind::UnsupportedMember => "Only methods are supported."@,
        ErrorKind::InvalidParameterPattern => "Invalid argument ident format."@,
        ErrorKind::UnresolvableType(TypeUse::Argument) => "Invalid argument ident format."@,
        ErrorKind::UnresolvableType(TypeUse::ReturnType) => "Invalid return type format."@,
        ErrorKind::UnresolvableType(TypeUse::NamedField) => "Invalid name field ident format."@,
        ErrorKind::QualifiedType(TypeUse::Argument) => "Argument should only have one segment."@,
        ErrorKind::QualifiedType(TypeUse::ReturnType) =>
            "Return type should only have one segment."@,
        ErrorKind::QualifiedType(TypeUse::NamedField) =>
            "Named field should only have one segment."@,
        ErrorKind::MissingStruct => "There must be at least one struct per mod"@,
    }
}

impl ExtractError {
    /// The diagnostic for a type that did not resolve.
    pub fn for_type(cause: ExtractTypeIdentError, site: TypeUse, position: SourcePosition) -> (r:
        ExtractError)
        ensures
            r == type_error(cause, site, position),
    {
        match cause {
            ExtractTypeIdentError::InvalidType => ExtractError {
                kind: ErrorKind::UnresolvableType(site),
                position,
            },
            ExtractTypeIdentError::InvalidSegments => ExtractError {
                kind: ErrorKind::QualifiedType(site),
                position,
            },
        }
    }

    /// The text of the diagnostic, for a reader.
    pub fn message(&self) -> (r: String)
        ensures
            r@ == message_text(self.kind),
    {
        let text: &str = match self.kind {
            ErrorKind::UnsupportedItem => "Unsupported item in mod.",
            ErrorKind::DuplicateStruct => "Only one struct is supported per mod.",
            ErrorKind::ImplBeforeStruct => "Impl can only be declared after a struct.",
            ErrorKind::ImplTargetMismatch(ImplTarget::NotAPath) => "Expected a TypePath impl to parse.",
            ErrorKind::ImplTargetMismatch(ImplTarget::Qualified) => "Invalid path on impl block.",
            ErrorKind::ImplTargetMismatch(ImplTarget::OtherName) =>
                "The impl block needs to match the struct.",
            ErrorKind::UnsupportedMember => "Only methods are supported.",
            ErrorKind::InvalidParameterPattern => "Invalid argument ident format.",
            ErrorKind::UnresolvableType(TypeUse::Argument) => "Invalid argument ident format.",
            ErrorKind::UnresolvableType(TypeUse::ReturnType) => "Invalid return type format.",
            ErrorKind::UnresolvableType(TypeUse::NamedField) => "Invalid name field ident format.",
            ErrorKind::QualifiedType(TypeUse::Argument) => "Argument should only have one segment.",
            ErrorKind::QualifiedType(TypeUse::ReturnType) =>
                "Return type should only have one segment.",
            ErrorKind::QualifiedType(TypeUse::NamedField) =>
                "Named field should only have one segment.",
            ErrorKind::MissingStruct => "There must be at least one struct per mod",
        };
        text.to_owned()
    }
}

} // verus!
