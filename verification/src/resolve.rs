//! Resolving a type expression to the name it stands for.

use vstd::prelude::*;
use crate::type_expr::{PathSegment, PathSegmentView, TypeExpr, TypeExprView};
use crate::views::{view_all, view_ok};

verus! {

/// Why a type expression names no type that an object can expose.
#[derive(Clone, Copy, Debug, PartialEq, Eq, Structural)]
pub enum ExtractTypeIdentError {
    /// The path has no segment, or more than one.
    InvalidSegments,
    /// The expression is neither a plain name nor a reference to one.
    InvalidType,
}

/// A type as an object exposes it: a single name, taken by value or by
/// reference.
#[derive(Debug, Clone, PartialEq, Eq)]
pub struct ParameterType {
    /// The name of the type, as the author wrote it.
    pub ident: String,
    /// Whether the type is taken by reference.
    pub is_ref: bool,
}

/// The mathematical value of a [`ParameterType`].
pub ghost struct ParameterTypeView {
    pub ident: Seq<char>,
    pub is_ref: bool,
}

impl View for ParameterType {
    type V = ParameterTypeView;

    open spec fn view(&self) -> ParameterTypeView {
        ParameterTypeView { ident: self.ident@, is_ref: self.is_ref }
    }
}

/// What a path resolves to: its one segment's identifier, if it has exactly
/// one segment and that segment takes no generic arguments.
pub open spec fn resolve_path(segments: Seq<PathSegmentView>, is_ref: bool) -> Result<
    ParameterTypeView,
    ExtractTypeIdentError,
> {
    if segments.len() != 1 {
        Err(ExtractTypeIdentError::InvalidSegments)
    } else if segments[0].generic {
        Err(ExtractTypeIdentError::InvalidType)
    } else {
        Ok(ParameterTypeView { ident: segments[0].ident, is_ref })
    }
}

/// What a type expression resolves to. A path resolves as [`resolve_path`]
/// says, by value; a reference to a path resolves as the path does, by
/// reference; nothing else resolves.
pub open spec fn resolve_type(ty: TypeExprView) -> Result<ParameterTypeView, ExtractTypeIdentError> {
    match ty {
        TypeExprView::Path(segments) => resolve_path(segments, false),
        TypeExprView::Reference(referent) => match *referent {
            TypeExprView::Path(segments) => resolve_path(segments, true),
            _ => Err(ExtractTypeIdentError::InvalidType),
        },
        TypeExprView::Other => Err(ExtractTypeIdentError::InvalidType),
    }
}

fn resolve_segments(segments: &Vec<PathSegment>, is_ref: bool) -> (r: Result<
    ParameterType,
    ExtractTypeIdentError,
>)
    ensures
        view_ok(r) == resolve_path(view_all(segments@), is_ref),
{
    if segments.len() != 1 {
        return Err(ExtractTypeIdentError::InvalidSegments);
    }
    let segment = &segments[0];
    if segment.generic {
        return Err(ExtractTypeIdentError::InvalidType);
    }
    Ok(ParameterType { ident: segment.ident.clone(), is_ref })
}

/// Resolves a type expression to the single name it stands for, and says
/// whether the name is taken by reference.
pub fn extract_type_ident(ty: &TypeExpr) -> (r: Result<ParameterType, ExtractTypeIdentError>)
    ensures
        view_ok(r) == resolve_type(ty@),
{
    match ty {
        TypeExpr::Path(segments) => {
            let r = resolve_segments(segments, false);
            assert(ty@ == TypeExprView::Path(view_all(segments@)));
            r
        },
        TypeExpr::Reference(referent) => match &**referent {
            TypeExpr::Path(segments) => {
                let r = resolve_segments(segments, true);
                assert(referent@ == TypeExprView::Path(view_all(segments@)));
                assert(ty@ == TypeExprView::Reference(Box::new(referent@)));
                r
            },
            _ => Err(ExtractTypeIdentError::InvalidType),
        },
        TypeExpr::Other => Err(ExtractTypeIdentError::InvalidType),
    }
}

} // verus!
